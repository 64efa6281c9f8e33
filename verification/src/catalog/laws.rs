//! What holds of layered resolution as a whole.

use vstd::prelude::*;

use super::layered::{
    agree_on, contribution, declaring, field_value, first_index, lemma_canonical_name,
    lemma_first_index, lemma_ranked_len, objector, objects, outranks, place, ranked, resolution,
    winner, ContributionView, LayeredModelCatalog, StaticSourceView,
};
use super::{
    FieldConfidence, FieldProvenanceView, ModelProfileErrorKind, ModelProfileErrorView,
    ModelRecord, ModelRecordView, ProfileField, ResolvedModelProfileView,
};
use crate::order::Ordered;
use crate::text::lemma_text_order;

verus! {

proof fn lemma_outranks(a: ContributionView, b: ContributionView, c: ContributionView)
    ensures
        !outranks(a, a),
        !(outranks(a, b) && outranks(b, a)),
        outranks(a, b) && outranks(b, c) ==> outranks(a, c),
        outranks(a, b) || outranks(b, a) || a == b,
{
    lemma_text_order(a.name, b.name, c.name);
    lemma_text_order(a.name, a.name, a.name);
    lemma_text_order(b.name, a.name, b.name);
    lemma_text_order(b.name, c.name, b.name);
    ModelRecord::lemma_order(a.record, b.record, c.record);
}

/// Whether no contribution is scanned after one that it outranks.
pub open spec fn is_ranked(contributions: Seq<ContributionView>) -> bool {
    forall|i: int, j: int|
        0 <= i < j < contributions.len() ==> !outranks(
            #[trigger] contributions[j],
            #[trigger] contributions[i],
        )
}

/// Ranking puts the contributions in order.
pub proof fn ranking_is_in_order(contributions: Seq<ContributionView>)
    ensures
        is_ranked(ranked(contributions)),
    decreases contributions.len(),
{
    if contributions.len() > 0 {
        ranking_is_in_order(contributions.drop_last());
        let s = ranked(contributions.drop_last());
        let x = contributions.last();
        let p = place(s, x) as int;
        lemma_first_index(s.len(), |i: int| outranks(x, s[i]));
        let after = |i: int| outranks(x, s[i]);
        assert forall|i: int| 0 <= i < p implies !outranks(x, #[trigger] s[i]) by {
            assert(!after(i));
        }
        let all = s.insert(p, x);
        assert forall|i: int, j: int| 0 <= i < j < all.len() implies !outranks(
            #[trigger] all[j],
            #[trigger] all[i],
        ) by {
            if i < p {
                assert(all[i] == s[i]);
                if j > p {
                    assert(all[j] == s[j - 1]);
                }
            } else if i == p {
                assert(all[j] == s[j - 1]);
                assert(outranks(x, s[p]));
                lemma_outranks(s[j - 1], x, s[p]);
                lemma_outranks(x, s[p], x);
            } else {
                assert(all[i] == s[i - 1]);
                assert(all[j] == s[j - 1]);
            }
        }
        assert(ranked(contributions) == all);
    }
}

/// Ranking keeps every contribution, and adds none.
pub proof fn ranking_keeps_the_contributions(contributions: Seq<ContributionView>)
    ensures
        ranked(contributions).len() == contributions.len(),
        forall|c: ContributionView| #[trigger]
            ranked(contributions).contains(c) <==> contributions.contains(c),
        ranked(contributions).to_multiset() == contributions.to_multiset(),
    decreases contributions.len(),
{
    broadcast use vstd::seq_lib::group_to_multiset_ensures;

    if contributions.len() > 0 {
        let rest = contributions.drop_last();
        ranking_keeps_the_contributions(rest);
        let s = ranked(rest);
        let x = contributions.last();
        let p = place(s, x) as int;
        lemma_first_index(s.len(), |i: int| outranks(x, s[i]));
        let all = s.insert(p, x);
        assert(all.remove(p) =~= s);
        assert(rest.push(x) =~= contributions);
        assert(all.to_multiset() =~= s.to_multiset().insert(x)) by {
            assert(all[p] == x);
            assert(all.remove(p).to_multiset() == all.to_multiset().remove(x));
            assert(all.contains(x));
        }
        assert(contributions.to_multiset() =~= rest.to_multiset().insert(x));
        assert forall|c: ContributionView| #[trigger] all.contains(c) <==> contributions.contains(
            c,
        ) by {
            assert(all.contains(c) <==> all.to_multiset().count(c) > 0);
            assert(contributions.contains(c) <==> contributions.to_multiset().count(c) > 0);
        }
    } else {
        assert(ranked(contributions) =~= contributions);
    }
}

/// The highest layer that declares a field decides it: no contribution that
/// declares the field is of a higher layer than the one whose value is taken.
pub proof fn the_highest_layer_wins<V>(
    contributions: Seq<ContributionView>,
    extract: spec_fn(ModelRecordView) -> Option<V>,
    i: int,
)
    requires
        0 <= i < contributions.len(),
        extract(contributions[i].record) is Some,
    ensures
        winner(ranked(contributions), extract) < contributions.len(),
        ({
            let chosen = ranked(contributions)[winner(ranked(contributions), extract) as int];
            &&& contributions.contains(chosen)
            &&& extract(chosen.record) is Some
            &&& chosen.layer.rank() >= contributions[i].layer.rank()
        }),
{
    let all = ranked(contributions);
    ranking_is_in_order(contributions);
    ranking_keeps_the_contributions(contributions);
    let declares = |k: int| extract(all[k].record) is Some;
    lemma_first_index(all.len(), declares);
    let w = winner(all, extract) as int;
    assert(contributions.contains(contributions[i]));
    assert(all.contains(contributions[i]));
    let k = choose|k: int| 0 <= k < all.len() && all[k] == contributions[i];
    assert(declares(k));
    assert(w <= k);
    assert(declares(w));
    assert(all.contains(all[w]));
    if w < k {
        assert(!outranks(all[k], all[w]));
    }
}

/// Two sources of the highest declaring layer that disagree fail, whatever the
/// order of registration.
pub proof fn disagreement_within_a_layer_fails<V>(
    contributions: Seq<ContributionView>,
    model: Seq<char>,
    field: ProfileField,
    extract: spec_fn(ModelRecordView) -> Option<V>,
    i: int,
    j: int,
)
    requires
        0 <= i < contributions.len(),
        0 <= j < contributions.len(),
        contributions[i].layer == contributions[j].layer,
        extract(contributions[i].record) is Some,
        extract(contributions[j].record) is Some,
        extract(contributions[i].record) != extract(contributions[j].record),
        forall|k: int|
            0 <= k < contributions.len() && extract((#[trigger] contributions[k]).record) is Some
                ==> contributions[k].layer.rank() <= contributions[i].layer.rank(),
    ensures
        field_value(ranked(contributions), model, field, extract) matches Err(e) && e.kind
            == ModelProfileErrorKind::SourceConflict && e.field == Some(field),
{
    let all = ranked(contributions);
    the_highest_layer_wins(contributions, extract, i);
    ranking_keeps_the_contributions(contributions);
    let w = winner(all, extract) as int;
    let c = choose|c: int| 0 <= c < contributions.len() && contributions[c] == all[w];
    assert(all[w].layer.rank() == contributions[i].layer.rank());
    assert(all[w].layer == contributions[i].layer);
    let other = if extract(contributions[i].record) != extract(all[w].record) {
        contributions[i]
    } else {
        contributions[j]
    };
    assert(contributions.contains(contributions[i]));
    assert(contributions.contains(contributions[j]));
    assert(all.contains(other));
    let k = choose|k: int| 0 <= k < all.len() && all[k] == other;
    let declares = |n: int| extract(all[n].record) is Some;
    lemma_first_index(all.len(), declares);
    assert(declares(k));
    assert(w <= k);
    let against = |n: int| objects(all, extract, w, n);
    lemma_first_index(all.len(), against);
    assert(against(k));
    assert(objector(all, extract) == first_index(all.len(), against));
}

/// Limits are never guessed: each limit of a resolved profile is one that some
/// contribution declares.
pub proof fn limits_are_never_guessed(
    provider: Seq<char>,
    model: Seq<char>,
    contributions: Seq<ContributionView>,
)
    ensures
        resolution(provider, model, contributions) matches Ok(profile) ==> {
            &&& exists|i: int|
                0 <= i < contributions.len() && (#[trigger] contributions[i]).record.context_tokens
                    == Some(profile.limits.context_tokens)
            &&& exists|i: int|
                0 <= i < contributions.len() && (
                #[trigger] contributions[i]).record.max_input_tokens == Some(
                    profile.limits.max_input_tokens,
                )
            &&& exists|i: int|
                0 <= i < contributions.len() && (
                #[trigger] contributions[i]).record.max_output_tokens == Some(
                    profile.limits.max_output_tokens,
                )
        },
{
    let cs = contributions;
    if let Ok(profile) = resolution(provider, model, cs) {
        lemma_found(
            cs,
            model,
            ProfileField::ContextTokens,
            |r: ModelRecordView| r.context_tokens,
        );
        lemma_found(
            cs,
            model,
            ProfileField::MaxInputTokens,
            |r: ModelRecordView| r.max_input_tokens,
        );
        lemma_found(
            cs,
            model,
            ProfileField::MaxOutputTokens,
            |r: ModelRecordView| r.max_output_tokens,
        );
        let (a, b, c) = (
            winner(cs, |r: ModelRecordView| r.context_tokens) as int,
            winner(cs, |r: ModelRecordView| r.max_input_tokens) as int,
            winner(cs, |r: ModelRecordView| r.max_output_tokens) as int,
        );
        assert(cs[a].record.context_tokens == Some(profile.limits.context_tokens));
        assert(cs[b].record.max_input_tokens == Some(profile.limits.max_input_tokens));
        assert(cs[c].record.max_output_tokens == Some(profile.limits.max_output_tokens));
    }
}

proof fn lemma_found<V>(
    contributions: Seq<ContributionView>,
    model: Seq<char>,
    field: ProfileField,
    extract: spec_fn(ModelRecordView) -> Option<V>,
)
    ensures
        match field_value(contributions, model, field, extract) {
            Ok(Some((value, from))) => {
                let w = winner(contributions, extract) as int;
                &&& 0 <= w < contributions.len()
                &&& extract(contributions[w].record) == Some(value)
                &&& from.confidence == FieldConfidence::Authoritative
            },
            Ok(None) => forall|i: int|
                0 <= i < contributions.len() ==> extract(
                    (#[trigger] contributions[i]).record,
                ) is None,
            Err(e) => {
                let w = winner(contributions, extract) as int;
                &&& e.kind == ModelProfileErrorKind::SourceConflict
                &&& 0 <= w < contributions.len()
                &&& extract(contributions[w].record) is Some
            },
        },
{
    let declares = |i: int| extract(contributions[i].record) is Some;
    lemma_first_index(contributions.len(), declares);
    if winner(contributions, extract) >= contributions.len() {
        assert forall|i: int| 0 <= i < contributions.len() implies extract(
            (#[trigger] contributions[i]).record,
        ) is None by {
            assert(!declares(i));
        }
    } else {
        assert(declares(winner(contributions, extract) as int));
    }
}

/// A stand-in can always be told from a declared value: the capabilities and
/// modalities of a resolved profile are marked as a fallback exactly when no
/// contribution declares them.
pub proof fn stand_ins_are_marked(
    provider: Seq<char>,
    model: Seq<char>,
    contributions: Seq<ContributionView>,
)
    ensures
        resolution(provider, model, contributions) matches Ok(profile) ==> {
            &&& is_fallback(profile.provenance_of(ProfileField::Capabilities)) <==> forall|i: int|
                0 <= i < contributions.len() ==> (
                #[trigger] contributions[i]).record.capabilities is None
            &&& is_fallback(
                profile.provenance_of(ProfileField::InputModalities),
            ) <==> forall|i: int|
                0 <= i < contributions.len() ==> (
                #[trigger] contributions[i]).record.input_modalities is None
            &&& is_fallback(profile.provenance_of(ProfileField::OutputModalities)) <==> forall|
                i: int,
            |
                0 <= i < contributions.len() ==> (
                #[trigger] contributions[i]).record.output_modalities is None
        },
{
    let cs = contributions;
    if let Ok(profile) = resolution(provider, model, cs) {
        let (capabilities, accepts, produces) = (
            |r: ModelRecordView| r.capabilities,
            |r: ModelRecordView| r.input_modalities,
            |r: ModelRecordView| r.output_modalities,
        );
        lemma_found(cs, model, ProfileField::Capabilities, capabilities);
        lemma_found(cs, model, ProfileField::InputModalities, accepts);
        lemma_found(cs, model, ProfileField::OutputModalities, produces);
        if forall|i: int|
            0 <= i < cs.len() ==> (#[trigger] cs[i]).record.capabilities is None {
            assert(cs[winner(cs, capabilities) as int].record.capabilities is None
                || winner(cs, capabilities) >= cs.len());
        } else {
            let i = choose|i: int|
                0 <= i < cs.len() && !((#[trigger] cs[i]).record.capabilities is None);
            assert(capabilities(cs[i].record) is Some);
        }
        if forall|i: int|
            0 <= i < cs.len() ==> (#[trigger] cs[i]).record.input_modalities is None {
            assert(cs[winner(cs, accepts) as int].record.input_modalities is None || winner(
                cs,
                accepts,
            ) >= cs.len());
        } else {
            let i = choose|i: int|
                0 <= i < cs.len() && !((#[trigger] cs[i]).record.input_modalities is None);
            assert(accepts(cs[i].record) is Some);
        }
        if forall|i: int|
            0 <= i < cs.len() ==> (#[trigger] cs[i]).record.output_modalities is None {
            assert(cs[winner(cs, produces) as int].record.output_modalities is None || winner(
                cs,
                produces,
            ) >= cs.len());
        } else {
            let i = choose|i: int|
                0 <= i < cs.len() && !((#[trigger] cs[i]).record.output_modalities is None);
            assert(produces(cs[i].record) is Some);
        }
    }
}

/// Whether a provenance is that of a stand-in.
pub open spec fn is_fallback(provenance: Option<FieldProvenanceView>) -> bool {
    provenance matches Some(p) && p.confidence == FieldConfidence::Fallback
}

/// Every value of a resolved profile has a provenance, and nothing else has:
/// limits, capabilities and modalities always, a component exactly when there
/// is one.
pub proof fn every_value_has_a_provenance(
    provider: Seq<char>,
    model: Seq<char>,
    contributions: Seq<ContributionView>,
)
    ensures
        resolution(provider, model, contributions) matches Ok(profile) ==> {
            &&& profile.provenance_of(ProfileField::ContextTokens) is Some
            &&& profile.provenance_of(ProfileField::MaxInputTokens) is Some
            &&& profile.provenance_of(ProfileField::MaxOutputTokens) is Some
            &&& profile.provenance_of(ProfileField::InputModalities) is Some
            &&& profile.provenance_of(ProfileField::OutputModalities) is Some
            &&& profile.provenance_of(ProfileField::Capabilities) is Some
            &&& profile.provenance_of(ProfileField::Tokenizer) is Some == (
            profile.tokenizer is Some)
            &&& profile.provenance_of(ProfileField::RequestAdapter) is Some == (
            profile.request_adapter is Some)
            &&& profile.provenance_of(ProfileField::CachePolicy) is Some == (
            profile.cache_policy is Some)
        },
{
}

proof fn lemma_ranking_is_unique(a: Seq<ContributionView>, b: Seq<ContributionView>)
    requires
        is_ranked(a),
        is_ranked(b),
        a.to_multiset() == b.to_multiset(),
    ensures
        a == b,
    decreases a.len(),
{
    broadcast use vstd::seq_lib::group_to_multiset_ensures;

    assert(a.to_multiset().len() == a.len());
    assert(b.to_multiset().len() == b.len());
    if a.len() > 0 {
        assert(a.contains(a[0]) && b.contains(b[0]));
        assert(b.to_multiset().count(a[0]) > 0);
        assert(a.to_multiset().count(b[0]) > 0);
        let j = choose|j: int| 0 <= j < b.len() && b[j] == a[0];
        let k = choose|k: int| 0 <= k < a.len() && a[k] == b[0];
        lemma_outranks(a[0], b[0], a[0]);
        assert(j == 0 || !outranks(b[j], b[0]));
        assert(k == 0 || !outranks(a[k], a[0]));
        assert(a[0] == b[0]);
        let (x, y) = (a.remove(0), b.remove(0));
        assert forall|i: int, j: int| 0 <= i < j < x.len() implies !outranks(
            #[trigger] x[j],
            #[trigger] x[i],
        ) by {
            assert(!outranks(a[j + 1], a[i + 1]));
        }
        assert forall|i: int, j: int| 0 <= i < j < y.len() implies !outranks(
            #[trigger] y[j],
            #[trigger] y[i],
        ) by {
            assert(!outranks(b[j + 1], b[i + 1]));
        }
        lemma_ranking_is_unique(x, y);
        assert(a =~= seq![a[0]] + x);
        assert(b =~= seq![b[0]] + y);
    } else {
        assert(a =~= b);
    }
}

/// Registration order is irrelevant to resolution: the same contributions in any
/// two orders have one ranking, and resolve to the same profile or the same error.
pub proof fn registration_order_does_not_matter(
    provider: Seq<char>,
    model: Seq<char>,
    a: Seq<ContributionView>,
    b: Seq<ContributionView>,
)
    requires
        a.to_multiset() == b.to_multiset(),
    ensures
        ranked(a) == ranked(b),
        resolution(provider, model, ranked(a)) == resolution(provider, model, ranked(b)),
{
    ranking_is_in_order(a);
    ranking_is_in_order(b);
    ranking_keeps_the_contributions(a);
    ranking_keeps_the_contributions(b);
    lemma_ranking_is_unique(ranked(a), ranked(b));
}

/// Two catalogs with the same sources, in whatever order these were registered,
/// resolve every model alike.
pub proof fn catalogs_of_the_same_sources_resolve_alike(
    a: LayeredModelCatalog,
    b: LayeredModelCatalog,
    provider: Seq<char>,
    model: Seq<char>,
)
    requires
        a.registered() == b.registered(),
    ensures
        a.canonical(provider, model) == b.canonical(provider, model),
        a.resolved(provider, model) == b.resolved(provider, model),
{
    a.lemma_same_sources_contribute_alike(&b, provider, model);
    registration_order_does_not_matter(
        provider,
        model,
        a.contributed(provider, model),
        b.contributed(provider, model),
    );
    let canonical = a.canonical(provider, model);
    a.lemma_same_sources_contribute_alike(&b, provider, canonical);
    registration_order_does_not_matter(
        provider,
        canonical,
        a.contributed(provider, canonical),
        b.contributed(provider, canonical),
    );
}

/// An unknown model fails closed: without a contribution there is no profile.
pub proof fn an_unknown_model_fails(provider: Seq<char>, model: Seq<char>)
    ensures
        resolution(provider, model, ranked(Seq::empty())) matches Err(e) && e.kind
            == ModelProfileErrorKind::UnknownModel,
{
}

/// An alias finds the same record as the model's own name, and one that knows the
/// model's canonical id.
pub proof fn an_alias_finds_the_same_record(
    source: StaticSourceView,
    model: Seq<char>,
    record: ModelRecordView,
    alias: Seq<char>,
    provider: Seq<char>,
)
    requires
        record.aliases.contains(alias),
    ensures
        ({
            let declared = StaticSourceView {
                records: declaring(source.records, model, record),
                ..source
            };
            &&& declared.find(provider, alias) == declared.find(provider, model)
            &&& declared.find(provider, alias) matches Some(found) ==> found.model == Some(model)
        }),
{
}

/// Whether two outcomes are the same profile, or the same failure to resolve one
/// model or the other.
pub open spec fn same_but_for_the_request(
    a: Result<ResolvedModelProfileView, ModelProfileErrorView>,
    b: Result<ResolvedModelProfileView, ModelProfileErrorView>,
) -> bool {
    match (a, b) {
        (Ok(p), Ok(q)) => p == q,
        (Err(e), Err(f)) => e == (ModelProfileErrorView { model: e.model, ..f }),
        _ => false,
    }
}

/// What a model is asked for as does not show in the profile that it resolves to,
/// as soon as the contributions agree on a canonical id, and shows in a failure as
/// the model that could not be resolved.
pub proof fn the_requested_name_does_not_show(
    provider: Seq<char>,
    alias: Seq<char>,
    model: Seq<char>,
    contributions: Seq<ContributionView>,
    canonical: Seq<char>,
)
    requires
        agree_on(contributions, canonical),
    ensures
        same_but_for_the_request(
            resolution(provider, alias, contributions),
            resolution(provider, model, contributions),
        ),
        resolution(provider, alias, contributions) matches Ok(profile) ==> profile.model
            == canonical,
{
    lemma_canonical_name(alias, contributions, canonical);
    lemma_canonical_name(model, contributions, canonical);
}

/// A failed resolution names the requested model, whether it was asked for by its
/// canonical id or by an alias.
pub proof fn a_failure_names_the_requested_model(
    catalog: LayeredModelCatalog,
    provider: Seq<char>,
    model: Seq<char>,
)
    ensures
        catalog.resolved(provider, model) matches Err(e) ==> e.model == model,
{
}

/// A model is unknown exactly when no source declares it under the requested
/// name.
pub proof fn a_model_is_unknown_when_no_source_declares_it(
    catalog: LayeredModelCatalog,
    provider: Seq<char>,
    model: Seq<char>,
)
    ensures
        (catalog.resolved(provider, model) matches Err(e) && e.kind
            == ModelProfileErrorKind::UnknownModel) <==> catalog.contributed(
            provider,
            model,
        ).len() == 0,
{
    let cs = catalog.contributed(provider, model);
    let name = catalog.known_as(provider, model);
    lemma_ranked_len(cs);
    lemma_ranked_len(catalog.contributed(provider, name));
    if cs.len() == 0 {
        assert(ranked(cs) =~= Seq::<ContributionView>::empty());
        assert(catalog.canonical(provider, model) == model);
    }
}

/// An alias resolves to the same profile as its canonical name, or fails as it
/// does: in a catalog where each source that knows a model by either name has
/// declared it as `model`, and one of them knows the alias.
pub proof fn an_alias_resolves_like_its_canonical_name(
    catalog: LayeredModelCatalog,
    provider: Seq<char>,
    alias: Seq<char>,
    model: Seq<char>,
)
    requires
        catalog.contributed(provider, alias).len() > 0,
        catalog.contributed(provider, model).len() > 0,
        forall|i: int|
            0 <= i < catalog.contributed(provider, alias).len() ==> (
            #[trigger] catalog.contributed(provider, alias)[i]).record.model == Some(model),
        forall|i: int|
            0 <= i < catalog.contributed(provider, model).len() ==> (
            #[trigger] catalog.contributed(provider, model)[i]).record.model == Some(model),
    ensures
        same_but_for_the_request(
            catalog.resolved(provider, alias),
            catalog.resolved(provider, model),
        ),
        catalog.resolved(provider, alias) matches Ok(profile) ==> profile.model == model,
{
    lemma_ranked_agree(catalog.contributed(provider, alias), model);
    lemma_ranked_agree(catalog.contributed(provider, model), model);
    lemma_canonical_name(alias, ranked(catalog.contributed(provider, alias)), model);
    lemma_canonical_name(model, ranked(catalog.contributed(provider, model)), model);
}

proof fn lemma_ranked_agree(contributions: Seq<ContributionView>, model: Seq<char>)
    requires
        contributions.len() > 0,
        forall|i: int|
            0 <= i < contributions.len() ==> (#[trigger] contributions[i]).record.model == Some(
                model,
            ),
    ensures
        agree_on(ranked(contributions), model),
{
    let all = ranked(contributions);
    ranking_keeps_the_contributions(contributions);
    assert forall|k: int| 0 <= k < all.len() implies (#[trigger] all[k]).record.model == Some(
        model,
    ) by {
        assert(all.contains(all[k]));
        let i = choose|i: int| 0 <= i < contributions.len() && contributions[i] == all[k];
    }
    assert(all[0].record.model == Some(model));
}

/// A table that declares a record for `model` resolves each of the record's
/// aliases as it resolves `model`.
pub proof fn a_table_resolves_aliases_like_the_model(
    source: StaticSourceView,
    model: Seq<char>,
    record: ModelRecordView,
    alias: Seq<char>,
    provider: Seq<char>,
)
    requires
        record.aliases.contains(alias),
        source.provider is None || source.provider == Some(provider),
    ensures
        ({
            let declared = StaticSourceView {
                records: declaring(source.records, model, record),
                ..source
            };
            let under = |name: Seq<char>|
                contribution(source.layer, source.name, declared.find(provider, name));
            &&& same_but_for_the_request(
                resolution(provider, alias, ranked(under(alias))),
                resolution(provider, model, ranked(under(model))),
            )
            &&& resolution(provider, alias, ranked(under(alias))) matches Ok(profile)
                ==> profile.model == model
        }),
{
    let declared = StaticSourceView { records: declaring(source.records, model, record), ..source };
    an_alias_finds_the_same_record(source, model, record, alias, provider);
    let cs = contribution(source.layer, source.name, declared.find(provider, model));
    assert(cs[0].record.model == Some(model));
    lemma_ranked_agree(cs, model);
    the_requested_name_does_not_show(provider, alias, model, ranked(cs), model);
}

} // verus!
