//! What a resolved profile holds, told from what the sources contribute.

use vstd::prelude::*;

use super::layered::{
    contribution, declared_aliases, declaring, field_value, lemma_first_index, objector, objects,
    outranks, ranked, resolution, winner, ContributionView, LayeredModelCatalog, StaticSourceView,
};
use super::laws::{ranking_is_in_order, ranking_keeps_the_contributions};
use super::{
    all_authoritative, explicit_profile, labelled_component, modality_fields, CatalogSource,
    ComponentRefView, FieldConfidence, FieldProvenanceView, Modality, ModelLimits,
    ModelProfileErrorKind, ModelProfileErrorView, ModelRecordView, ProfileField,
    ResolvedModelProfileView,
};
use crate::collections::{ordered_items, sorted_items};
use crate::fingerprint::lemma_concat_assoc;
use crate::provider::{basic_capabilities, CapabilitiesView};
use crate::text::{decimal, lemma_decimal_determines, lemma_text_order, text_before};

verus! {

/// A layer's place among the layers, the strongest first.
pub open spec fn place_of_layer(layer: CatalogSource) -> int {
    match layer {
        CatalogSource::Explicit => 0,
        CatalogSource::ProviderLocal => 1,
        CatalogSource::Embedded => 2,
        CatalogSource::CachedRemote => 3,
        CatalogSource::RemoteRefresh => 4,
    }
}

/// What a host states is stronger than what a provider adapter is configured with,
/// that than embedded metadata, that than a cached remote record, and that than a
/// refreshed one.
pub proof fn layers_are_ranked_from_the_host_down(a: CatalogSource, b: CatalogSource)
    ensures
        a.rank() > b.rank() <==> place_of_layer(a) < place_of_layer(b),
        a.rank() == b.rank() <==> a == b,
{
}

/// Whether `c` is a contribution that decides a field: it declares the field, no
/// declaring contribution is of a stronger layer, and those of its own layer declare
/// the same.
pub open spec fn decides<V>(
    contributions: Seq<ContributionView>,
    c: ContributionView,
    extract: spec_fn(ModelRecordView) -> Option<V>,
) -> bool {
    &&& contributions.contains(c)
    &&& extract(c.record) is Some
    &&& forall|i: int|
        0 <= i < contributions.len() && extract((#[trigger] contributions[i]).record) is Some ==> {
            &&& place_of_layer(c.layer) <= place_of_layer(contributions[i].layer)
            &&& contributions[i].layer == c.layer ==> extract(contributions[i].record) == extract(
                c.record,
            )
        }
}

/// Whether no contribution declares a field.
pub open spec fn is_undeclared<V>(
    contributions: Seq<ContributionView>,
    extract: spec_fn(ModelRecordView) -> Option<V>,
) -> bool {
    forall|i: int|
        0 <= i < contributions.len() ==> extract((#[trigger] contributions[i]).record) is None
}

/// Whether no contribution that declares a field is of a stronger layer than `c`.
pub open spec fn is_strongest<V>(
    contributions: Seq<ContributionView>,
    c: ContributionView,
    extract: spec_fn(ModelRecordView) -> Option<V>,
) -> bool {
    forall|i: int|
        0 <= i < contributions.len() && extract((#[trigger] contributions[i]).record) is Some
            ==> place_of_layer(c.layer) <= place_of_layer(contributions[i].layer)
}

/// Whether the contributions at `i` and `j` are of one layer, the strongest that
/// declares a field, and declare different values of it.
pub open spec fn disagree<V>(
    contributions: Seq<ContributionView>,
    extract: spec_fn(ModelRecordView) -> Option<V>,
    i: int,
    j: int,
) -> bool {
    &&& 0 <= i < contributions.len()
    &&& 0 <= j < contributions.len()
    &&& contributions[i].layer == contributions[j].layer
    &&& extract(contributions[i].record) is Some
    &&& extract(contributions[j].record) is Some
    &&& extract(contributions[i].record) != extract(contributions[j].record)
    &&& is_strongest(contributions, contributions[i], extract)
}

/// Whether two contributions of the strongest layer that declares a field declare
/// different values of it.
pub open spec fn is_disputed<V>(
    contributions: Seq<ContributionView>,
    extract: spec_fn(ModelRecordView) -> Option<V>,
) -> bool {
    exists|i: int, j: int| #[trigger] disagree(contributions, extract, i, j)
}

/// Whether a provenance tells of the contribution.
pub open spec fn tells_of(
    provenance: Option<FieldProvenanceView>,
    c: ContributionView,
) -> bool {
    provenance matches Some(p) && {
        &&& p.source == c.layer
        &&& p.source_revision == c.record.revision
        &&& p.retrieved == c.record.retrieved
        &&& p.confidence == FieldConfidence::Authoritative
    }
}

/// Whether no declaring contribution of the same layer has a name before that of `c`.
pub open spec fn is_named_first<V>(
    contributions: Seq<ContributionView>,
    c: ContributionView,
    extract: spec_fn(ModelRecordView) -> Option<V>,
) -> bool {
    forall|i: int|
        0 <= i < contributions.len() && extract((#[trigger] contributions[i]).record) is Some
            && contributions[i].layer == c.layer ==> !text_before(contributions[i].name, c.name)
}

/// Whether a value and its provenance are those that a deciding contribution states,
/// the first by name of its layer.
pub open spec fn is_stated<V>(
    contributions: Seq<ContributionView>,
    extract: spec_fn(ModelRecordView) -> Option<V>,
    value: V,
    provenance: Option<FieldProvenanceView>,
) -> bool {
    exists|c: ContributionView| #[trigger]
        decides(contributions, c, extract) && extract(c.record) == Some(value) && is_named_first(
            contributions,
            c,
            extract,
        ) && tells_of(provenance, c)
}

/// Whether a provenance is that of a stand-in, taken at the strongest layer that
/// contributes at all.
pub open spec fn is_stood_in(
    contributions: Seq<ContributionView>,
    provenance: Option<FieldProvenanceView>,
) -> bool {
    provenance matches Some(p) && {
        &&& p.confidence == FieldConfidence::Fallback
        &&& p.source_revision is None
        &&& p.retrieved is None
        &&& exists|i: int|
            0 <= i < contributions.len() && (#[trigger] contributions[i]).layer == p.source
        &&& forall|i: int|
            0 <= i < contributions.len() ==> place_of_layer(p.source) <= place_of_layer(
                (#[trigger] contributions[i]).layer,
            )
    }
}

proof fn lemma_later_is_no_stronger(a: ContributionView, b: ContributionView)
    requires
        !outranks(b, a),
    ensures
        place_of_layer(a.layer) <= place_of_layer(b.layer),
{
    layers_are_ranked_from_the_host_down(a.layer, b.layer);
    layers_are_ranked_from_the_host_down(b.layer, a.layer);
}

proof fn lemma_ranked_index(contributions: Seq<ContributionView>, i: int) -> (k: int)
    requires
        0 <= i < contributions.len(),
    ensures
        0 <= k < ranked(contributions).len(),
        ranked(contributions)[k] == contributions[i],
{
    ranking_keeps_the_contributions(contributions);
    assert(contributions.contains(contributions[i]));
    assert(ranked(contributions).contains(contributions[i]));
    choose|k: int|
        0 <= k < ranked(contributions).len() && ranked(contributions)[k] == contributions[i]
}

proof fn lemma_unranked_index(contributions: Seq<ContributionView>, k: int) -> (i: int)
    requires
        0 <= k < ranked(contributions).len(),
    ensures
        0 <= i < contributions.len(),
        ranked(contributions)[k] == contributions[i],
{
    ranking_keeps_the_contributions(contributions);
    assert(ranked(contributions).contains(ranked(contributions)[k]));
    choose|i: int| 0 <= i < contributions.len() && contributions[i] == ranked(contributions)[k]
}

proof fn lemma_winner<V>(
    contributions: Seq<ContributionView>,
    extract: spec_fn(ModelRecordView) -> Option<V>,
)
    ensures
        ({
            let all = ranked(contributions);
            let w = winner(all, extract) as int;
            if w >= all.len() {
                is_undeclared(contributions, extract)
            } else {
                &&& extract(all[w].record) is Some
                &&& is_strongest(contributions, all[w], extract)
                &&& is_named_first(contributions, all[w], extract)
            }
        }),
{
    let all = ranked(contributions);
    let declares = |k: int| extract(all[k].record) is Some;
    lemma_first_index(all.len(), declares);
    let w = winner(all, extract) as int;
    if w >= all.len() {
        assert forall|i: int| 0 <= i < contributions.len() implies extract(
            (#[trigger] contributions[i]).record,
        ) is None by {
            let k = lemma_ranked_index(contributions, i);
            assert(!declares(k));
        }
    } else {
        assert(declares(w));
        ranking_is_in_order(contributions);
        assert forall|i: int|
            0 <= i < contributions.len() && extract(
                (#[trigger] contributions[i]).record,
            ) is Some implies place_of_layer(all[w].layer) <= place_of_layer(
            contributions[i].layer,
        ) by {
            let k = lemma_ranked_index(contributions, i);
            assert(declares(k));
            if w < k {
                assert(!outranks(all[k], all[w]));
                lemma_later_is_no_stronger(all[w], all[k]);
            }
        }
        assert forall|i: int|
            0 <= i < contributions.len() && extract(
                (#[trigger] contributions[i]).record,
            ) is Some && contributions[i].layer == all[w].layer implies !text_before(
            contributions[i].name,
            all[w].name,
        ) by {
            let k = lemma_ranked_index(contributions, i);
            assert(declares(k));
            lemma_text_order(all[w].name, all[w].name, all[w].name);
            if w < k {
                assert(!outranks(all[k], all[w]));
            }
        }
    }
}

proof fn lemma_objector<V>(
    contributions: Seq<ContributionView>,
    extract: spec_fn(ModelRecordView) -> Option<V>,
)
    requires
        winner(ranked(contributions), extract) < ranked(contributions).len(),
    ensures
        ({
            let all = ranked(contributions);
            let c = all[winner(all, extract) as int];
            let o = objector(all, extract) as int;
            if o < all.len() {
                &&& all[o].layer == c.layer
                &&& extract(all[o].record) is Some
                &&& extract(all[o].record) != extract(c.record)
            } else {
                forall|i: int|
                    0 <= i < contributions.len() && extract(
                        (#[trigger] contributions[i]).record,
                    ) is Some && contributions[i].layer == c.layer ==> extract(
                        contributions[i].record,
                    ) == extract(c.record)
            }
        }),
{
    let all = ranked(contributions);
    let w = winner(all, extract) as int;
    let declares = |k: int| extract(all[k].record) is Some;
    lemma_first_index(all.len(), declares);
    let against = |k: int| objects(all, extract, w, k);
    lemma_first_index(all.len(), against);
    let o = objector(all, extract) as int;
    if o < all.len() {
        assert(against(o));
    } else {
        assert forall|i: int|
            0 <= i < contributions.len() && extract(
                (#[trigger] contributions[i]).record,
            ) is Some && contributions[i].layer == all[w].layer implies extract(
            contributions[i].record,
        ) == extract(all[w].record) by {
            let k = lemma_ranked_index(contributions, i);
            assert(declares(k));
            assert(!against(k));
        }
    }
}

/// What contributions come to on one field, in whatever order they were made:
/// nothing where none declares it, the value and the provenance of a deciding one,
/// or a conflict exactly where the strongest declaring layer is in dispute.
pub proof fn a_field_is_decided_by_the_strongest_layer<V>(
    contributions: Seq<ContributionView>,
    model: Seq<char>,
    field: ProfileField,
    extract: spec_fn(ModelRecordView) -> Option<V>,
)
    ensures
        match field_value(ranked(contributions), model, field, extract) {
            Ok(None) => {
                &&& is_undeclared(contributions, extract)
                &&& !is_disputed(contributions, extract)
            },
            Ok(Some((value, from))) => {
                &&& is_stated(contributions, extract, value, Some(from))
                &&& !is_undeclared(contributions, extract)
                &&& !is_disputed(contributions, extract)
            },
            Err(e) => {
                &&& is_disputed(contributions, extract)
                &&& !is_undeclared(contributions, extract)
                &&& e.kind == ModelProfileErrorKind::SourceConflict
                &&& e.field == Some(field)
                &&& e.model == model
            },
        },
{
    let all = ranked(contributions);
    let w = winner(all, extract) as int;
    lemma_winner(contributions, extract);
    if w < all.len() {
        let c = all[w];
        let n = lemma_unranked_index(contributions, w);
        assert(contributions[n] == c);
        assert(extract(contributions[n].record) is Some);
        lemma_objector(contributions, extract);
        let o = objector(all, extract) as int;
        if o < all.len() {
            let m = lemma_unranked_index(contributions, o);
            assert(disagree(contributions, extract, n, m));
        } else {
            assert(contributions.contains(contributions[n]));
            assert(decides(contributions, c, extract));
            lemma_undisputed(contributions, extract, n);
        }
    }
}

proof fn lemma_undisputed<V>(
    contributions: Seq<ContributionView>,
    extract: spec_fn(ModelRecordView) -> Option<V>,
    n: int,
)
    requires
        0 <= n < contributions.len(),
        extract(contributions[n].record) is Some,
        decides(contributions, contributions[n], extract),
    ensures
        !is_disputed(contributions, extract),
{
    if is_disputed(contributions, extract) {
        let (i, j) = choose|i: int, j: int| #[trigger] disagree(contributions, extract, i, j);
        let c = contributions[n];
        assert(place_of_layer(contributions[i].layer) <= place_of_layer(contributions[n].layer));
        assert(place_of_layer(c.layer) <= place_of_layer(contributions[i].layer));
        assert(contributions[i].layer == c.layer);
        assert(contributions[j].layer == c.layer);
    }
}

/// The context window that a record declares.
pub open spec fn context_tokens() -> spec_fn(ModelRecordView) -> Option<u32> {
    |r: ModelRecordView| r.context_tokens
}

/// The input limit that a record declares.
pub open spec fn max_input_tokens() -> spec_fn(ModelRecordView) -> Option<u32> {
    |r: ModelRecordView| r.max_input_tokens
}

/// The output limit that a record declares.
pub open spec fn max_output_tokens() -> spec_fn(ModelRecordView) -> Option<u32> {
    |r: ModelRecordView| r.max_output_tokens
}

/// The capabilities that a record declares.
pub open spec fn capabilities() -> spec_fn(ModelRecordView) -> Option<CapabilitiesView> {
    |r: ModelRecordView| r.capabilities
}

/// The accepted content that a record declares.
pub open spec fn input_modalities() -> spec_fn(ModelRecordView) -> Option<Seq<Modality>> {
    |r: ModelRecordView| r.input_modalities
}

/// The produced content that a record declares.
pub open spec fn output_modalities() -> spec_fn(ModelRecordView) -> Option<Seq<Modality>> {
    |r: ModelRecordView| r.output_modalities
}

/// The tokenizer that a record declares.
pub open spec fn tokenizer() -> spec_fn(ModelRecordView) -> Option<ComponentRefView> {
    |r: ModelRecordView| r.tokenizer
}

/// The request adapter that a record declares.
pub open spec fn request_adapter() -> spec_fn(ModelRecordView) -> Option<ComponentRefView> {
    |r: ModelRecordView| r.request_adapter
}

/// The cache policy that a record declares.
pub open spec fn cache_policy() -> spec_fn(ModelRecordView) -> Option<ComponentRefView> {
    |r: ModelRecordView| r.cache_policy
}

/// Whether a value that there is a stand-in for is what the contributions come to:
/// stated by a deciding one, or the stand-in where none declares it.
pub open spec fn is_stated_or_stood_in<V>(
    contributions: Seq<ContributionView>,
    extract: spec_fn(ModelRecordView) -> Option<V>,
    value: V,
    stand_in: V,
    provenance: Option<FieldProvenanceView>,
) -> bool {
    if is_undeclared(contributions, extract) {
        value == stand_in && is_stood_in(contributions, provenance)
    } else {
        is_stated(contributions, extract, value, provenance)
    }
}

/// Whether a value that may stay open is what the contributions come to: stated by
/// a deciding one, or open where none declares it.
pub open spec fn is_stated_or_open<V>(
    contributions: Seq<ContributionView>,
    extract: spec_fn(ModelRecordView) -> Option<V>,
    value: Option<V>,
    provenance: Option<FieldProvenanceView>,
) -> bool {
    if is_undeclared(contributions, extract) {
        value is None && provenance is None
    } else {
        value matches Some(v) && is_stated(contributions, extract, v, provenance)
    }
}

proof fn lemma_first_is_strongest(contributions: Seq<ContributionView>)
    requires
        contributions.len() > 0,
    ensures
        ({
            let layer = ranked(contributions)[0].layer;
            &&& exists|i: int|
                0 <= i < contributions.len() && (#[trigger] contributions[i]).layer == layer
            &&& forall|i: int|
                0 <= i < contributions.len() ==> place_of_layer(layer) <= place_of_layer(
                    (#[trigger] contributions[i]).layer,
                )
        }),
{
    let all = ranked(contributions);
    ranking_keeps_the_contributions(contributions);
    ranking_is_in_order(contributions);
    let n = lemma_unranked_index(contributions, 0);
    assert(contributions[n].layer == all[0].layer);
    assert forall|i: int| 0 <= i < contributions.len() implies place_of_layer(all[0].layer)
        <= place_of_layer((#[trigger] contributions[i]).layer) by {
        let k = lemma_ranked_index(contributions, i);
        if k > 0 {
            assert(!outranks(all[k], all[0]));
            lemma_later_is_no_stronger(all[0], all[k]);
        }
    }
}

/// Whether the profile holds, of every field, what the strongest layer that declares it
/// states, with a provenance that tells of it; and stand-ins only where none declares it.
pub open spec fn is_profile_of(
    profile: ResolvedModelProfileView,
    provider: Seq<char>,
    contributions: Seq<ContributionView>,
) -> bool {
    let cs = contributions;
    let text = seq![Modality::Text];
    &&& profile.provider == provider
    &&& is_stated(
        cs,
        context_tokens(),
        profile.limits.context_tokens,
        profile.provenance_of(ProfileField::ContextTokens),
    )
    &&& is_stated(
        cs,
        max_input_tokens(),
        profile.limits.max_input_tokens,
        profile.provenance_of(ProfileField::MaxInputTokens),
    )
    &&& is_stated(
        cs,
        max_output_tokens(),
        profile.limits.max_output_tokens,
        profile.provenance_of(ProfileField::MaxOutputTokens),
    )
    &&& is_stated_or_stood_in(
        cs,
        capabilities(),
        profile.capabilities,
        (CapabilitiesView {
            streaming: true,
            tools: false,
            reasoning: false,
            prompt_cache: false,
        }),
        profile.provenance_of(ProfileField::Capabilities),
    )
    &&& is_stated_or_stood_in(
        cs,
        input_modalities(),
        profile.input_modalities,
        text,
        profile.provenance_of(ProfileField::InputModalities),
    )
    &&& is_stated_or_stood_in(
        cs,
        output_modalities(),
        profile.output_modalities,
        text,
        profile.provenance_of(ProfileField::OutputModalities),
    )
    &&& is_stated_or_open(
        cs,
        tokenizer(),
        profile.tokenizer,
        profile.provenance_of(ProfileField::Tokenizer),
    )
    &&& is_stated_or_open(
        cs,
        request_adapter(),
        profile.request_adapter,
        profile.provenance_of(ProfileField::RequestAdapter),
    )
    &&& is_stated_or_open(
        cs,
        cache_policy(),
        profile.cache_policy,
        profile.provenance_of(ProfileField::CachePolicy),
    )
}

/// Where some contribution declares a field, the resolved profile's value of it is
/// the one that a contribution of the strongest declaring layer states, and its
/// provenance tells of that contribution; a stand-in is taken only where none
/// declares the field, and a component is left open only then.
pub proof fn a_profile_holds_what_the_strongest_layers_state(
    provider: Seq<char>,
    model: Seq<char>,
    contributions: Seq<ContributionView>,
)
    ensures
        resolution(provider, model, ranked(contributions)) matches Ok(profile) ==> is_profile_of(
            profile,
            provider,
            contributions,
        ),
{
    lemma_fields(model, contributions);
    ranking_keeps_the_contributions(contributions);
    if contributions.len() > 0 {
        lemma_first_is_strongest(contributions);
    }
}

proof fn lemma_fields(model: Seq<char>, cs: Seq<ContributionView>)
    ensures
        is_decided(cs, model, ProfileField::ContextTokens, context_tokens()),
        is_decided(cs, model, ProfileField::MaxInputTokens, max_input_tokens()),
        is_decided(cs, model, ProfileField::MaxOutputTokens, max_output_tokens()),
        is_decided(cs, model, ProfileField::Capabilities, capabilities()),
        is_decided(cs, model, ProfileField::InputModalities, input_modalities()),
        is_decided(cs, model, ProfileField::OutputModalities, output_modalities()),
        is_decided(cs, model, ProfileField::Tokenizer, tokenizer()),
        is_decided(cs, model, ProfileField::RequestAdapter, request_adapter()),
        is_decided(cs, model, ProfileField::CachePolicy, cache_policy()),
{
    a_field_is_decided_by_the_strongest_layer(
        cs,
        model,
        ProfileField::ContextTokens,
        context_tokens(),
    );
    a_field_is_decided_by_the_strongest_layer(
        cs,
        model,
        ProfileField::MaxInputTokens,
        max_input_tokens(),
    );
    a_field_is_decided_by_the_strongest_layer(
        cs,
        model,
        ProfileField::MaxOutputTokens,
        max_output_tokens(),
    );
    a_field_is_decided_by_the_strongest_layer(
        cs,
        model,
        ProfileField::Capabilities,
        capabilities(),
    );
    a_field_is_decided_by_the_strongest_layer(
        cs,
        model,
        ProfileField::InputModalities,
        input_modalities(),
    );
    a_field_is_decided_by_the_strongest_layer(
        cs,
        model,
        ProfileField::OutputModalities,
        output_modalities(),
    );
    a_field_is_decided_by_the_strongest_layer(cs, model, ProfileField::Tokenizer, tokenizer());
    a_field_is_decided_by_the_strongest_layer(
        cs,
        model,
        ProfileField::RequestAdapter,
        request_adapter(),
    );
    a_field_is_decided_by_the_strongest_layer(cs, model, ProfileField::CachePolicy, cache_policy());
}

/// What ranked contributions come to on a field, as told from the unranked ones.
spec fn is_decided<V>(
    contributions: Seq<ContributionView>,
    model: Seq<char>,
    field: ProfileField,
    extract: spec_fn(ModelRecordView) -> Option<V>,
) -> bool {
    match field_value(ranked(contributions), model, field, extract) {
        Ok(None) => is_undeclared(contributions, extract) && !is_disputed(contributions, extract),
        Ok(Some((value, from))) => {
            &&& is_stated(contributions, extract, value, Some(from))
            &&& !is_undeclared(contributions, extract)
            &&& !is_disputed(contributions, extract)
        },
        Err(e) => {
            &&& is_disputed(contributions, extract)
            &&& !is_undeclared(contributions, extract)
            &&& e.kind == ModelProfileErrorKind::SourceConflict
            &&& e.field == Some(field)
            &&& e.model == model
        },
    }
}

/// Contributions resolve to a profile exactly when there are any, each of the three
/// limits is declared, and no field is in dispute within the strongest layer that
/// declares it. A failure names the model, and the first field in the order of
/// resolution that is missing or in dispute.
pub proof fn contributions_resolve_when_limits_are_declared_and_nothing_is_disputed(
    provider: Seq<char>,
    model: Seq<char>,
    contributions: Seq<ContributionView>,
)
    ensures
        ({
            let cs = contributions;
            let outcome = resolution(provider, model, ranked(cs));
            &&& outcome is Ok <==> {
                &&& cs.len() > 0
                &&& !is_undeclared(cs, context_tokens())
                &&& !is_undeclared(cs, max_input_tokens())
                &&& !is_undeclared(cs, max_output_tokens())
                &&& !is_disputed(cs, context_tokens())
                &&& !is_disputed(cs, max_input_tokens())
                &&& !is_disputed(cs, max_output_tokens())
                &&& !is_disputed(cs, capabilities())
                &&& !is_disputed(cs, input_modalities())
                &&& !is_disputed(cs, output_modalities())
                &&& !is_disputed(cs, tokenizer())
                &&& !is_disputed(cs, request_adapter())
                &&& !is_disputed(cs, cache_policy())
            }
            &&& outcome matches Err(e) ==> {
                let first = is_undeclared(cs, context_tokens());
                let second = is_undeclared(cs, max_input_tokens());
                let third = is_undeclared(cs, max_output_tokens());
                &&& e.model == model
                &&& e.kind == ModelProfileErrorKind::UnknownModel <==> cs.len() == 0
                &&& cs.len() > 0 && first ==> is_about(
                    e,
                    ModelProfileErrorKind::MissingLimits,
                    ProfileField::ContextTokens,
                )
                &&& is_disputed(cs, context_tokens()) ==> is_about(
                    e,
                    ModelProfileErrorKind::SourceConflict,
                    ProfileField::ContextTokens,
                )
                &&& e.kind == ModelProfileErrorKind::MissingLimits ==> {
                    ||| first && e.field == Some(ProfileField::ContextTokens)
                    ||| second && e.field == Some(ProfileField::MaxInputTokens)
                    ||| third && e.field == Some(ProfileField::MaxOutputTokens)
                }
                &&& e.kind == ModelProfileErrorKind::SourceConflict ==> (match e.field {
                    Some(ProfileField::ContextTokens) => is_disputed(cs, context_tokens()),
                    Some(ProfileField::MaxInputTokens) => is_disputed(cs, max_input_tokens()),
                    Some(ProfileField::MaxOutputTokens) => is_disputed(cs, max_output_tokens()),
                    Some(ProfileField::Capabilities) => is_disputed(cs, capabilities()),
                    Some(ProfileField::InputModalities) => is_disputed(cs, input_modalities()),
                    Some(ProfileField::OutputModalities) => is_disputed(cs, output_modalities()),
                    Some(ProfileField::Tokenizer) => is_disputed(cs, tokenizer()),
                    Some(ProfileField::RequestAdapter) => is_disputed(cs, request_adapter()),
                    Some(ProfileField::CachePolicy) => is_disputed(cs, cache_policy()),
                    None => false,
                })
            }
        }),
{
    lemma_fields(model, contributions);
    ranking_keeps_the_contributions(contributions);
}

/// Whether a failure is of the kind and about the field.
pub open spec fn is_about(
    e: ModelProfileErrorView,
    kind: ModelProfileErrorKind,
    field: ProfileField,
) -> bool {
    e.kind == kind && e.field == Some(field)
}

proof fn lemma_aliases_are_finite(contributions: Seq<ContributionView>)
    ensures
        declared_aliases(contributions).finite(),
    decreases contributions.len(),
{
    if contributions.len() == 0 {
        assert(declared_aliases(contributions) =~= Set::<Seq<char>>::empty());
    } else {
        let rest = contributions.drop_last();
        let own = contributions.last().record.aliases;
        lemma_aliases_are_finite(rest);
        vstd::seq_lib::seq_to_set_is_finite(own);
        assert forall|alias: Seq<char>| #[trigger]
            declared_aliases(contributions).contains(alias) <==> declared_aliases(rest).union(
                own.to_set(),
            ).contains(alias) by {
            assert(contributions[contributions.len() - 1] == contributions.last());
            if declared_aliases(contributions).contains(alias) {
                let i = choose|i: int|
                    0 <= i < contributions.len() && (
                    #[trigger] contributions[i]).record.aliases.contains(alias);
                if i < rest.len() {
                    assert(rest[i].record.aliases.contains(alias));
                }
            }
            if declared_aliases(rest).contains(alias) {
                let i = choose|i: int|
                    0 <= i < rest.len() && (#[trigger] rest[i]).record.aliases.contains(alias);
                assert(contributions[i].record.aliases.contains(alias));
            }
        }
        assert(declared_aliases(contributions) =~= declared_aliases(rest).union(own.to_set()));
    }
}

/// The aliases of a resolved profile are all that some contribution lists, each once
/// and in order.
pub proof fn a_profile_lists_every_alias_once(
    provider: Seq<char>,
    model: Seq<char>,
    contributions: Seq<ContributionView>,
    alias: Seq<char>,
)
    ensures
        resolution(provider, model, ranked(contributions)) matches Ok(profile) ==> {
            &&& ordered_items(profile.aliases)
            &&& profile.aliases.contains(alias) <==> exists|i: int|
                0 <= i < contributions.len() && (
                #[trigger] contributions[i]).record.aliases.contains(alias)
        },
{
    let all = ranked(contributions);
    lemma_aliases_are_finite(all);
    crate::collections::lemma_finite_set_in_order(declared_aliases(all));
    let items = sorted_items(declared_aliases(all));
    assert(items.contains(alias) <==> items.to_set().contains(alias));
    if exists|i: int|
        0 <= i < contributions.len() && (#[trigger] contributions[i]).record.aliases.contains(
            alias,
        ) {
        let i = choose|i: int|
            0 <= i < contributions.len() && (#[trigger] contributions[i]).record.aliases.contains(
                alias,
            );
        let k = lemma_ranked_index(contributions, i);
        assert(all[k].record.aliases.contains(alias));
    }
    if declared_aliases(all).contains(alias) {
        let k = choose|k: int|
            0 <= k < all.len() && (#[trigger] all[k]).record.aliases.contains(alias);
        let i = lemma_unranked_index(contributions, k);
        assert(contributions[i].record.aliases.contains(alias));
    }
}

/// A profile is resolved under the one canonical id that contributions have, and
/// under the requested name where they have none or more than one.
pub proof fn a_profile_is_of_the_canonical_model(
    provider: Seq<char>,
    model: Seq<char>,
    contributions: Seq<ContributionView>,
)
    ensures
        resolution(provider, model, ranked(contributions)) matches Ok(profile) ==> {
            &&& (forall|i: int|
                0 <= i < contributions.len() ==> (#[trigger] contributions[i]).record.model is None)
                ==> profile.model == model
            &&& forall|i: int|
                #![trigger contributions[i]]
                0 <= i < contributions.len() && contributions[i].record.model is Some ==> {
                    ||| profile.model == contributions[i].record.model->0
                    ||| profile.model == model && exists|j: int|
                        0 <= j < contributions.len() && (
                        #[trigger] contributions[j]).record.model is Some
                            && contributions[j].record.model != contributions[i].record.model
                }
        },
{
    let all = ranked(contributions);
    assert forall|i: int|
        #![trigger contributions[i]]
        0 <= i < contributions.len() && contributions[i].record.model is Some && (forall|j: int|
            0 <= j < contributions.len() && (#[trigger] contributions[j]).record.model is Some
                ==> contributions[j].record.model == contributions[i].record.model) implies
        super::layered::canonical_name(model, all) == contributions[i].record.model->0 by {
        let name = contributions[i].record.model->0;
        let n = lemma_ranked_index(contributions, i);
        assert(all[n].record.model == Some(name));
        assert forall|k: int| 0 <= k < all.len() && (#[trigger] all[k]).record.model is Some implies
            all[k].record.model == Some(name) by {
            let j = lemma_unranked_index(contributions, k);
            assert(contributions[j].record.model is Some);
        }
        super::layered::lemma_canonical_name(model, all, name);
    }
    if exists|name: Seq<char>| super::layered::agree_on(all, name) {
        let name = choose|name: Seq<char>| super::layered::agree_on(all, name);
        let k = choose|k: int| 0 <= k < all.len() && (#[trigger] all[k]).record.model == Some(name);
        let i = lemma_unranked_index(contributions, k);
        assert(contributions[i].record.model == Some(name));
        assert forall|j: int|
            0 <= j < contributions.len() && (
            #[trigger] contributions[j]).record.model is Some implies contributions[j].record.model
            == Some(name) by {
            let m = lemma_ranked_index(contributions, j);
            assert(all[m].record.model is Some);
        }
    }
}

/// A model that is asked for by its canonical id, or that no source has a canonical
/// id for, resolves to what its contributions come to.
pub proof fn a_canonical_request_resolves_by_its_own_contributions(
    catalog: LayeredModelCatalog,
    provider: Seq<char>,
    model: Seq<char>,
)
    requires
        forall|i: int|
            0 <= i < catalog.contributed(provider, model).len() ==> {
                ||| (#[trigger] catalog.contributed(provider, model)[i]).record.model is None
                ||| catalog.contributed(provider, model)[i].record.model == Some(model)
            },
    ensures
        catalog.resolved(provider, model) == resolution(
            provider,
            model,
            ranked(catalog.contributed(provider, model)),
        ),
{
    let cs = catalog.contributed(provider, model);
    let all = ranked(cs);
    if exists|name: Seq<char>| super::layered::agree_on(all, name) {
        let name = super::layered::canonical_name(model, all);
        let k = choose|k: int| 0 <= k < all.len() && (#[trigger] all[k]).record.model == Some(name);
        let i = lemma_unranked_index(cs, k);
        assert(cs[i].record.model == Some(model));
    }
    contributions_resolve_when_limits_are_declared_and_nothing_is_disputed(provider, model, cs);
}

/// A resolved profile is fully authoritative exactly when its capabilities and both
/// its modality lists were declared: everything else it holds always was.
pub proof fn a_profile_without_stand_ins_is_fully_authoritative(
    provider: Seq<char>,
    model: Seq<char>,
    contributions: Seq<ContributionView>,
)
    ensures
        resolution(provider, model, ranked(contributions)) matches Ok(profile) ==> (
        all_authoritative(profile.provenance) <==> {
            &&& !is_undeclared(contributions, capabilities())
            &&& !is_undeclared(contributions, input_modalities())
            &&& !is_undeclared(contributions, output_modalities())
        }),
{
    lemma_fields(model, contributions);
    if let Ok(profile) = resolution(provider, model, ranked(contributions)) {
        let table = profile.provenance;
        assert(table.len() == 9);
        if is_undeclared(contributions, input_modalities()) {
            assert(table[3]->0.confidence == FieldConfidence::Fallback);
        }
        if is_undeclared(contributions, output_modalities()) {
            assert(table[4]->0.confidence == FieldConfidence::Fallback);
        }
        if is_undeclared(contributions, capabilities()) {
            assert(table[5]->0.confidence == FieldConfidence::Fallback);
        }
    }
}

/// Whether a provenance is that of a value that the host stated.
pub open spec fn is_from_the_host(provenance: Option<FieldProvenanceView>) -> bool {
    provenance matches Some(p) && {
        &&& p.source == CatalogSource::Explicit
        &&& p.confidence == FieldConfidence::Authoritative
        &&& p.source_revision is None
        &&& p.retrieved is None
    }
}

/// A profile that a host states has the limits that it states, and says so; what it
/// does not state is the least that can be assumed, and is marked as a stand-in.
pub proof fn an_explicit_profile_states_its_limits_and_nothing_else(
    provider: Seq<char>,
    model: Seq<char>,
    limits: ModelLimits,
)
    ensures
        ({
            let profile = explicit_profile(provider, model, limits);
            let stood_in = |field: ProfileField|
                profile.provenance_of(field) matches Some(p) && p.confidence
                    == FieldConfidence::Fallback;
            &&& profile.provider == provider
            &&& profile.model == model
            &&& profile.limits == limits
            &&& profile.aliases.len() == 0
            &&& is_from_the_host(profile.provenance_of(ProfileField::ContextTokens))
            &&& is_from_the_host(profile.provenance_of(ProfileField::MaxInputTokens))
            &&& is_from_the_host(profile.provenance_of(ProfileField::MaxOutputTokens))
            &&& stood_in(ProfileField::InputModalities)
            &&& stood_in(ProfileField::OutputModalities)
            &&& stood_in(ProfileField::Capabilities)
            &&& profile.input_modalities == seq![Modality::Text]
            &&& profile.output_modalities == seq![Modality::Text]
            &&& profile.capabilities.streaming
            &&& !profile.capabilities.tools
            &&& !profile.capabilities.reasoning
            &&& !profile.capabilities.prompt_cache
            &&& profile.tokenizer is None
            &&& profile.request_adapter is None
            &&& profile.cache_policy is None
            &&& profile.provenance_of(ProfileField::Tokenizer) is None
            &&& profile.provenance_of(ProfileField::RequestAdapter) is None
            &&& profile.provenance_of(ProfileField::CachePolicy) is None
            &&& !all_authoritative(profile.provenance)
        }),
{
    let table = explicit_profile(provider, model, limits).provenance;
    assert(table[3]->0.confidence == FieldConfidence::Fallback);
}

/// What a host states of a profile becomes the profile's own, on the host's
/// authority, and nothing else of the profile changes.
pub proof fn what_a_host_states_is_on_its_authority(
    profile: ResolvedModelProfileView,
    given: CapabilitiesView,
    component: ComponentRefView,
    field: ProfileField,
)
    requires
        profile.provenance.len() == 9,
    ensures
        ({
            let able = profile.stating_capabilities(given);
            let sized = profile.stating_tokenizer(component);
            let adapted = profile.stating_request_adapter(component);
            let table = profile.provenance;
            &&& able == (ResolvedModelProfileView {
                capabilities: given,
                provenance: able.provenance,
                ..profile
            })
            &&& sized == (ResolvedModelProfileView {
                tokenizer: Some(component),
                provenance: sized.provenance,
                ..profile
            })
            &&& adapted == (ResolvedModelProfileView {
                request_adapter: Some(component),
                provenance: adapted.provenance,
                ..profile
            })
            &&& is_from_the_host(able.provenance_of(ProfileField::Capabilities))
            &&& is_from_the_host(sized.provenance_of(ProfileField::Tokenizer))
            &&& is_from_the_host(adapted.provenance_of(ProfileField::RequestAdapter))
            &&& field != ProfileField::Capabilities ==> able.provenance_of(field)
                == profile.provenance_of(field)
            &&& field != ProfileField::Tokenizer ==> sized.provenance_of(field)
                == profile.provenance_of(field)
            &&& field != ProfileField::RequestAdapter ==> adapted.provenance_of(field)
                == profile.provenance_of(field)
        }),
{
}

/// The input budget is the most that is within the input limit and leaves the
/// reserve free in the context window; nothing, where the reserve fills the window.
pub proof fn an_input_budget_is_the_most_that_fits(limits: ModelLimits, reserve: u32, more: u32)
    ensures
        ({
            let budget = limits.budget(reserve);
            &&& 0 <= budget <= limits.max_input_tokens
            &&& reserve <= limits.context_tokens ==> budget + reserve <= limits.context_tokens
            &&& reserve > limits.context_tokens ==> budget == 0
            &&& more > budget ==> more > limits.max_input_tokens || more + reserve
                > limits.context_tokens
        }),
{
}

/// What the fingerprint of a profile covers of an optional component: its qualified
/// id and its revision.
pub open spec fn covered_component(component: Option<ComponentRefView>) -> Option<
    (Seq<char>, Seq<char>),
> {
    match component {
        Some(c) => Some((c.id.domain + ":"@ + c.id.name, c.revision)),
        None => None,
    }
}

proof fn lemma_modalities_from_the_front(label: Seq<char>, modalities: Seq<Modality>)
    requires
        modalities.len() > 0,
    ensures
        modality_fields(label, modalities) == seq![label, modalities[0].slug()] + modality_fields(
            label,
            modalities.drop_first(),
        ),
    decreases modalities.len(),
{
    let rest = modalities.drop_first();
    if modalities.len() == 1 {
        assert(modalities.drop_last() =~= Seq::<Modality>::empty());
        assert(rest =~= Seq::<Modality>::empty());
        assert(modality_fields(label, modalities) =~= seq![label, modalities[0].slug()]
            + modality_fields(label, rest));
    } else {
        lemma_modalities_from_the_front(label, modalities.drop_last());
        assert(modalities.drop_last().drop_first() =~= rest.drop_last());
        assert(modality_fields(label, modalities) =~= seq![label, modalities[0].slug()]
            + modality_fields(label, rest));
    }
}

proof fn lemma_slug_determines(a: Modality, b: Modality)
    requires
        a.slug() == b.slug(),
    ensures
        a == b,
{
    reveal_strlit("text");
    reveal_strlit("image");
    reveal_strlit("audio");
    reveal_strlit("video");
    reveal_strlit("document");
    assert("text"@.len() == 4);
    assert("image"@.len() == 5);
    assert("audio"@.len() == 5);
    assert("video"@.len() == 5);
    assert("document"@.len() == 8);
    assert("image"@[0] != "audio"@[0]);
    assert("image"@[0] != "video"@[0]);
    assert("audio"@[0] != "video"@[0]);
}

proof fn lemma_modalities_decodable(
    label: Seq<char>,
    a: Seq<Modality>,
    b: Seq<Modality>,
    x: Seq<Seq<char>>,
    y: Seq<Seq<char>>,
)
    requires
        modality_fields(label, a) + x == modality_fields(label, b) + y,
        x.len() > 0,
        y.len() > 0,
        x[0] != label,
        y[0] != label,
    ensures
        a == b,
        x == y,
    decreases a.len() + b.len(),
{
    let (p, q) = (modality_fields(label, a) + x, modality_fields(label, b) + y);
    if a.len() == 0 {
        assert(p =~= x);
        if b.len() > 0 {
            lemma_modalities_from_the_front(label, b);
            assert(q[0] == label);
        }
        assert(q =~= y);
        assert(a =~= b);
    } else if b.len() == 0 {
        assert(q =~= y);
        lemma_modalities_from_the_front(label, a);
        assert(p[0] == label);
    } else {
        lemma_modalities_from_the_front(label, a);
        lemma_modalities_from_the_front(label, b);
        let (ra, rb) = (a.drop_first(), b.drop_first());
        let (pa, pb) = (modality_fields(label, ra) + x, modality_fields(label, rb) + y);
        assert(p =~= seq![label, a[0].slug()] + pa);
        assert(q =~= seq![label, b[0].slug()] + pb);
        assert(p[1] == a[0].slug());
        assert(q[1] == b[0].slug());
        assert(p.subrange(2, p.len() as int) =~= pa);
        assert(q.subrange(2, q.len() as int) =~= pb);
        lemma_slug_determines(a[0], b[0]);
        lemma_modalities_decodable(label, ra, rb, x, y);
        assert(a =~= seq![a[0]] + ra);
        assert(b =~= seq![b[0]] + rb);
    }
}

proof fn lemma_component_decodable(
    label: Seq<char>,
    a: Option<ComponentRefView>,
    b: Option<ComponentRefView>,
    x: Seq<Seq<char>>,
    y: Seq<Seq<char>>,
)
    requires
        labelled_component(label, a) + x == labelled_component(label, b) + y,
    ensures
        covered_component(a) == covered_component(b),
        x == y,
{
    reveal_strlit("");
    reveal_strlit(":");
    assert(""@.len() == 0);
    assert(":"@.len() == 1);
    let (p, q) = (labelled_component(label, a) + x, labelled_component(label, b) + y);
    match (a, b) {
        (Some(c), Some(d)) => {
            let (m, n) = (
                c.id.domain + ":"@ + c.id.name,
                d.id.domain + ":"@ + d.id.name,
            );
            assert(p[1] == m && p[2] == c.revision);
            assert(q[1] == n && q[2] == d.revision);
            assert(p.subrange(3, p.len() as int) =~= x);
            assert(q.subrange(3, q.len() as int) =~= y);
        },
        (Some(c), None) => {
            assert(p[1] == c.id.domain + ":"@ + c.id.name);
            assert(q[1] == ""@);
        },
        (None, Some(d)) => {
            assert(p[1] == ""@);
            assert(q[1] == d.id.domain + ":"@ + d.id.name);
        },
        (None, None) => {
            assert(p.subrange(2, p.len() as int) =~= x);
            assert(q.subrange(2, q.len() as int) =~= y);
        },
    }
}

/// The fields that a profile's fingerprint covers are those of one provider and
/// model, one set of limits, one pair of modality lists, and one set of components at
/// their revisions: a profile that differs in any of them has other fields.
pub proof fn a_fingerprint_covers_what_decides_planning(
    a: ResolvedModelProfileView,
    b: ResolvedModelProfileView,
)
    requires
        a.canonical_fields() == b.canonical_fields(),
    ensures
        a.provider == b.provider,
        a.model == b.model,
        a.limits == b.limits,
        a.input_modalities == b.input_modalities,
        a.output_modalities == b.output_modalities,
        covered_component(a.tokenizer) == covered_component(b.tokenizer),
        covered_component(a.request_adapter) == covered_component(b.request_adapter),
        covered_component(a.cache_policy) == covered_component(b.cache_policy),
{
    let none = Seq::<Seq<char>>::empty();
    let (p, q) = (a.canonical_fields(), b.canonical_fields());
    lemma_fields_in_parts(a);
    lemma_fields_in_parts(b);
    lemma_head_fields(a);
    lemma_head_fields(b);
    let (h, k) = (head_fields(a), head_fields(b));
    let (a1, b1) = (tail_fields(a, 1), tail_fields(b, 1));
    let (a2, b2) = (tail_fields(a, 2), tail_fields(b, 2));
    let (a3, b3) = (tail_fields(a, 3), tail_fields(b, 3));
    let (a4, b4) = (tail_fields(a, 4), tail_fields(b, 4));
    let (a5, b5) = (tail_fields(a, 5), tail_fields(b, 5));
    assert(p.subrange(0, 10) =~= h && q.subrange(0, 10) =~= k);
    assert(p.subrange(10, p.len() as int) =~= a1 && q.subrange(10, q.len() as int) =~= b1);
    lemma_decimal_determines(a.limits.context_tokens as nat, b.limits.context_tokens as nat);
    lemma_decimal_determines(a.limits.max_input_tokens as nat, b.limits.max_input_tokens as nat);
    lemma_decimal_determines(a.limits.max_output_tokens as nat, b.limits.max_output_tokens as nat);
    reveal_strlit("input_modality");
    reveal_strlit("output_modality");
    reveal_strlit("tokenizer");
    assert("input_modality"@.len() == 14);
    assert("output_modality"@.len() == 15);
    assert("tokenizer"@.len() == 9);
    assert(a3[0] == "tokenizer"@ && b3[0] == "tokenizer"@);
    lemma_head_of_modalities("output_modality"@, a.output_modalities, a3);
    lemma_head_of_modalities("output_modality"@, b.output_modalities, b3);
    lemma_modalities_decodable(
        "input_modality"@,
        a.input_modalities,
        b.input_modalities,
        a2,
        b2,
    );
    lemma_modalities_decodable(
        "output_modality"@,
        a.output_modalities,
        b.output_modalities,
        a3,
        b3,
    );
    lemma_component_decodable("tokenizer"@, a.tokenizer, b.tokenizer, a4, b4);
    lemma_component_decodable("request_adapter"@, a.request_adapter, b.request_adapter, a5, b5);
    lemma_component_decodable("cache_policy"@, a.cache_policy, b.cache_policy, none, none);
}

/// The fields from a part on: the modality lists, then the components.
spec fn tail_fields(profile: ResolvedModelProfileView, part: int) -> Seq<Seq<char>> {
    let none = Seq::<Seq<char>>::empty();
    let policy = labelled_component("cache_policy"@, profile.cache_policy) + none;
    let adapter = labelled_component("request_adapter"@, profile.request_adapter) + policy;
    let sizes = labelled_component("tokenizer"@, profile.tokenizer) + adapter;
    let produces = modality_fields("output_modality"@, profile.output_modalities) + sizes;
    if part == 1 {
        modality_fields("input_modality"@, profile.input_modalities) + produces
    } else if part == 2 {
        produces
    } else if part == 3 {
        sizes
    } else if part == 4 {
        adapter
    } else {
        policy
    }
}

proof fn lemma_fields_in_parts(profile: ResolvedModelProfileView)
    ensures
        profile.canonical_fields() == head_fields(profile) + tail_fields(profile, 1),
{
    broadcast use lemma_concat_assoc;

    let none = Seq::<Seq<char>>::empty();
    let policy = labelled_component("cache_policy"@, profile.cache_policy);
    assert(policy + none =~= policy);
}

proof fn lemma_head_fields(profile: ResolvedModelProfileView)
    ensures
        ({
            let h = head_fields(profile);
            &&& h.len() == 10
            &&& h[1] == profile.provider
            &&& h[3] == profile.model
            &&& h[5] == decimal(profile.limits.context_tokens as nat)
            &&& h[7] == decimal(profile.limits.max_input_tokens as nat)
            &&& h[9] == decimal(profile.limits.max_output_tokens as nat)
        }),
{
}

proof fn lemma_head_of_modalities(
    label: Seq<char>,
    modalities: Seq<Modality>,
    x: Seq<Seq<char>>,
)
    requires
        x.len() > 0,
    ensures
        ({
            let p = modality_fields(label, modalities) + x;
            p.len() > 0 && (p[0] == label || p[0] == x[0])
        }),
{
    let p = modality_fields(label, modalities) + x;
    if modalities.len() > 0 {
        lemma_modalities_from_the_front(label, modalities);
        assert(p[0] == label);
    } else {
        assert(p =~= x);
    }
}

spec fn head_fields(profile: ResolvedModelProfileView) -> Seq<Seq<char>> {
    seq!["provider"@, profile.provider] + seq!["model"@, profile.model] + seq![
        "context_tokens"@,
        decimal(profile.limits.context_tokens as nat),
    ] + seq!["max_input_tokens"@, decimal(profile.limits.max_input_tokens as nat)] + seq![
        "max_output_tokens"@,
        decimal(profile.limits.max_output_tokens as nat),
    ]
}

/// A failure is about the first field that is missing or in dispute: the limits come
/// first, then what the model can do, then the modalities, and then the components. No
/// field before it is missing where it must not be, or in dispute.
pub proof fn a_failure_is_about_the_first_field(
    provider: Seq<char>,
    model: Seq<char>,
    contributions: Seq<ContributionView>,
)
    ensures
        ({
            let cs = contributions;
            let limits_are_settled = {
                &&& is_settled(cs, context_tokens())
                &&& is_settled(cs, max_input_tokens())
                &&& is_settled(cs, max_output_tokens())
            };
            resolution(provider, model, ranked(cs)) matches Err(e) ==> (match e.field {
                None => cs.len() == 0,
                Some(ProfileField::ContextTokens) => !is_settled(cs, context_tokens()),
                Some(ProfileField::MaxInputTokens) => {
                    &&& !is_settled(cs, max_input_tokens())
                    &&& is_settled(cs, context_tokens())
                },
                Some(ProfileField::MaxOutputTokens) => {
                    &&& !is_settled(cs, max_output_tokens())
                    &&& is_settled(cs, context_tokens())
                    &&& is_settled(cs, max_input_tokens())
                },
                Some(ProfileField::Capabilities) => {
                    &&& is_disputed(cs, capabilities())
                    &&& limits_are_settled
                },
                Some(ProfileField::InputModalities) => {
                    &&& is_disputed(cs, input_modalities())
                    &&& limits_are_settled
                    &&& !is_disputed(cs, capabilities())
                },
                Some(ProfileField::OutputModalities) => {
                    &&& is_disputed(cs, output_modalities())
                    &&& limits_are_settled
                    &&& !is_disputed(cs, capabilities())
                    &&& !is_disputed(cs, input_modalities())
                },
                Some(ProfileField::Tokenizer) => {
                    &&& is_disputed(cs, tokenizer())
                    &&& limits_are_settled
                    &&& !is_disputed(cs, capabilities())
                    &&& !is_disputed(cs, input_modalities())
                    &&& !is_disputed(cs, output_modalities())
                },
                Some(ProfileField::RequestAdapter) => {
                    &&& is_disputed(cs, request_adapter())
                    &&& limits_are_settled
                    &&& !is_disputed(cs, capabilities())
                    &&& !is_disputed(cs, input_modalities())
                    &&& !is_disputed(cs, output_modalities())
                    &&& !is_disputed(cs, tokenizer())
                },
                Some(ProfileField::CachePolicy) => {
                    &&& is_disputed(cs, cache_policy())
                    &&& limits_are_settled
                    &&& !is_disputed(cs, capabilities())
                    &&& !is_disputed(cs, input_modalities())
                    &&& !is_disputed(cs, output_modalities())
                    &&& !is_disputed(cs, tokenizer())
                    &&& !is_disputed(cs, request_adapter())
                },
            })
        }),
{
    lemma_fields(model, contributions);
    ranking_keeps_the_contributions(contributions);
}

/// Whether a limit is declared and not in dispute.
pub open spec fn is_settled<V>(
    contributions: Seq<ContributionView>,
    extract: spec_fn(ModelRecordView) -> Option<V>,
) -> bool {
    !is_undeclared(contributions, extract) && !is_disputed(contributions, extract)
}

/// A table that declares a record for a model finds it under the model's name and under
/// each of its aliases, always with that name, and finds under every other name what it
/// found before.
pub proof fn a_table_finds_a_model_under_all_its_names(
    table: StaticSourceView,
    model: Seq<char>,
    record: ModelRecordView,
    provider: Seq<char>,
    name: Seq<char>,
)
    ensures
        ({
            let after = StaticSourceView {
                records: declaring(table.records, model, record),
                ..table
            };
            let found = after.find(provider, name);
            let serves = table.provider is None || table.provider == Some(provider);
            let is_named = name == model || exists|k: int|
                0 <= k < record.aliases.len() && #[trigger] record.aliases[k] == name;
            &&& serves && is_named ==> {
                &&& found is Some
                &&& found->0.model == Some(model)
                &&& found->0 == ModelRecordView { model: found->0.model, ..record }
            }
            &&& !is_named ==> found == table.find(provider, name)
            &&& !serves ==> found is None
        }),
{
    let after = StaticSourceView { records: declaring(table.records, model, record), ..table };
    assert(record.aliases.contains(name) <==> exists|k: int|
        0 <= k < record.aliases.len() && #[trigger] record.aliases[k] == name);
}

/// What a model is taken to be capable of without being told is streaming, and nothing
/// else.
pub proof fn the_stand_in_is_plain_streaming()
    ensures
        basic_capabilities().streaming,
        !basic_capabilities().tools,
        !basic_capabilities().reasoning,
        !basic_capabilities().prompt_cache,
{
}

/// A source contributes a record exactly when it declares one, under its own name and
/// layer.
pub proof fn a_source_contributes_what_it_declares(
    layer: CatalogSource,
    name: Seq<char>,
    declared: Option<ModelRecordView>,
)
    ensures
        contribution(layer, name, declared).len() == (if declared is Some {
            1nat
        } else {
            0
        }),
        declared matches Some(record) ==> {
            let made = contribution(layer, name, declared)[0];
            made.layer == layer && made.name == name && made.record == record
        },
{
}

} // verus!
