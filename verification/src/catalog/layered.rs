//! Deterministic layered resolution of a [`ResolvedModelProfile`].
//!
//! [`LayeredModelCatalog`] merges every [`ModelCatalogSource`] field by field,
//! highest [`CatalogSource`] precedence first. Two sources in the same layer that
//! disagree about a field fail with [`ModelProfileErrorKind::SourceConflict`]:
//! insertion order never decides. A model with no resolvable limits fails with
//! [`ModelProfileErrorKind::MissingLimits`] rather than defaulting to a permissive
//! window. Fields the runtime can proceed without fall back to a conservative
//! value that is recorded as [`FieldConfidence::Fallback`].

use vstd::prelude::*;

use std::sync::Arc;

use vstd::multiset::Multiset;
use vstd::string::StringExecFns;

use super::{
    stand_in, CatalogSource, ComponentRef, FieldConfidence, FieldProvenance, FieldProvenanceView,
    Modality, ModelCatalog, ModelCatalogSource, ModelLimits, ModelProfileError,
    ModelProfileErrorKind, ModelProfileErrorView, ModelRecord, ModelRecordView, ProfileField,
    ProvenanceTable, ResolvedModelProfile, ResolvedModelProfileView,
};
use crate::collections::{sorted_items, TextMap, TextSet};
use crate::order::Ordered;
use crate::provider::{basic_capabilities, Capabilities, ModelId};
use crate::record::Record;
use crate::text::{same_text, text_before};

verus! {

/// The least index below `n` at which `p` holds, or `n` if there is none.
pub open spec fn first_index(n: nat, p: spec_fn(int) -> bool) -> nat
    decreases n,
{
    if n == 0 {
        0
    } else {
        let before = first_index((n - 1) as nat, p);
        if before < n - 1 {
            before
        } else if p(n - 1) {
            (n - 1) as nat
        } else {
            n
        }
    }
}

/// What a least index is.
pub proof fn lemma_first_index(n: nat, p: spec_fn(int) -> bool)
    ensures
        first_index(n, p) <= n,
        first_index(n, p) < n ==> p(first_index(n, p) as int),
        forall|i: int| 0 <= i < first_index(n, p) ==> !#[trigger] p(i),
    decreases n,
{
    if n > 0 {
        lemma_first_index((n - 1) as nat, p);
    }
}

/// One source's contribution, kept with the metadata needed for diagnostics.
#[derive(Debug, PartialEq, Eq)]
pub struct Contribution {
    /// The layer of the source.
    pub layer: CatalogSource,
    /// The name of the source.
    pub name: String,
    /// What it declares.
    pub record: ModelRecord,
}

/// What a [`Contribution`] holds.
pub struct ContributionView {
    pub layer: CatalogSource,
    pub name: Seq<char>,
    pub record: ModelRecordView,
}

impl DeepView for Contribution {
    type V = ContributionView;

    open spec fn deep_view(&self) -> ContributionView {
        ContributionView {
            layer: self.layer.deep_view(),
            name: self.name.deep_view(),
            record: self.record.deep_view(),
        }
    }
}

impl View for Contribution {
    type V = ContributionView;

    open spec fn view(&self) -> ContributionView {
        self.deep_view()
    }
}

impl Record for Contribution {
    fn same(&self, other: &Self) -> (r: bool) {
        self.layer.same(&other.layer)
            && self.name.same(&other.name)
            && self.record.same(&other.record)
    }

    fn copied(&self) -> (r: Self) {
        Contribution {
            layer: self.layer.copied(),
            name: self.name.copied(),
            record: self.record.copied(),
        }
    }
}

impl Clone for Contribution {
    fn clone(&self) -> (r: Self)
        ensures
            r@ == self@,
    {
        self.copied()
    }
}

/// Whether `a` is scanned strictly before `b`: it has higher precedence, or the
/// same and an earlier name, or both the same and an earlier record.
pub open spec fn outranks(a: ContributionView, b: ContributionView) -> bool {
    if a.layer != b.layer {
        a.layer.rank() > b.layer.rank()
    } else if a.name != b.name {
        text_before(a.name, b.name)
    } else {
        ModelRecord::before(a.record, b.record)
    }
}

/// Where a contribution goes among ranked ones: before the first that it
/// outranks.
pub open spec fn place(ranked: Seq<ContributionView>, new: ContributionView) -> nat {
    first_index(ranked.len(), |i: int| outranks(new, ranked[i]))
}

/// The contributions, highest precedence first, names in order within a layer,
/// and records in order under one name.
pub open spec fn ranked(contributions: Seq<ContributionView>) -> Seq<ContributionView>
    decreases contributions.len(),
{
    if contributions.len() == 0 {
        Seq::empty()
    } else {
        let before = ranked(contributions.drop_last());
        before.insert(place(before, contributions.last()) as int, contributions.last())
    }
}

/// Ranking keeps the number of contributions.
pub proof fn lemma_ranked_len(contributions: Seq<ContributionView>)
    ensures
        ranked(contributions).len() == contributions.len(),
    decreases contributions.len(),
{
    if contributions.len() > 0 {
        let before = ranked(contributions.drop_last());
        lemma_ranked_len(contributions.drop_last());
        lemma_first_index(before.len(), |i: int| outranks(contributions.last(), before[i]));
    }
}

/// The provenance of what a contribution declares.
pub open spec fn provenance_from(contribution: ContributionView) -> FieldProvenanceView {
    FieldProvenanceView {
        source: contribution.layer,
        source_revision: contribution.record.revision,
        retrieved: contribution.record.retrieved,
        confidence: FieldConfidence::Authoritative,
    }
}

/// The first contribution that declares a field, or their number if none does.
pub open spec fn winner<V>(
    contributions: Seq<ContributionView>,
    extract: spec_fn(ModelRecordView) -> Option<V>,
) -> nat {
    first_index(contributions.len(), |i: int| extract(contributions[i].record) is Some)
}

/// Whether the contribution at `j` comes after the one at `w`, is of the same
/// layer, and declares another value.
pub open spec fn objects<V>(
    contributions: Seq<ContributionView>,
    extract: spec_fn(ModelRecordView) -> Option<V>,
    w: int,
    j: int,
) -> bool {
    &&& w < j
    &&& contributions[j].layer == contributions[w].layer
    &&& extract(contributions[j].record) is Some
    &&& extract(contributions[j].record) != extract(contributions[w].record)
}

/// The first contribution that contradicts the winner within its layer, or
/// their number if none does.
pub open spec fn objector<V>(
    contributions: Seq<ContributionView>,
    extract: spec_fn(ModelRecordView) -> Option<V>,
) -> nat {
    let w = winner(contributions, extract);
    first_index(contributions.len(), |j: int| objects(contributions, extract, w as int, j))
}

/// The error when two sources of one layer disagree.
pub open spec fn conflict(
    model: Seq<char>,
    field: ProfileField,
    chosen: ContributionView,
    other: ContributionView,
) -> ModelProfileErrorView {
    ModelProfileErrorView {
        kind: ModelProfileErrorKind::SourceConflict,
        model,
        field: Some(field),
        message: "sources `"@ + chosen.name + "` and `"@ + other.name + "` disagree about `"@
            + field.slug() + "` at equal precedence `"@ + other.layer.slug() + "`"@,
    }
}

/// What ranked contributions say of a field: nothing, a value with its
/// provenance, or a conflict.
pub open spec fn field_value<V>(
    contributions: Seq<ContributionView>,
    model: Seq<char>,
    field: ProfileField,
    extract: spec_fn(ModelRecordView) -> Option<V>,
) -> Result<Option<(V, FieldProvenanceView)>, ModelProfileErrorView> {
    let w = winner(contributions, extract);
    let j = objector(contributions, extract);
    if w >= contributions.len() {
        Ok(None)
    } else if j < contributions.len() {
        Err(conflict(model, field, contributions[w as int], contributions[j as int]))
    } else {
        Ok(
            Some(
                (
                    extract(contributions[w as int].record)->Some_0,
                    provenance_from(contributions[w as int]),
                ),
            ),
        )
    }
}

/// The error when no source declares a limit.
pub open spec fn missing_limit(model: Seq<char>, field: ProfileField) -> ModelProfileErrorView {
    ModelProfileErrorView {
        kind: ModelProfileErrorKind::MissingLimits,
        model,
        field: Some(field),
        message: "no source declares `"@ + field.slug()
            + "`; supply an explicit model profile before planning"@,
    }
}

/// A limit, which has to be declared.
pub open spec fn limit(
    contributions: Seq<ContributionView>,
    model: Seq<char>,
    field: ProfileField,
    extract: spec_fn(ModelRecordView) -> Option<u32>,
) -> Result<(u32, FieldProvenanceView), ModelProfileErrorView> {
    match field_value(contributions, model, field, extract) {
        Ok(Some(found)) => Ok(found),
        Ok(None) => Err(missing_limit(model, field)),
        Err(e) => Err(e),
    }
}

/// A field for which there is a stand-in.
pub open spec fn with_stand_in<V>(
    contributions: Seq<ContributionView>,
    model: Seq<char>,
    field: ProfileField,
    extract: spec_fn(ModelRecordView) -> Option<V>,
    value: V,
) -> Result<(V, FieldProvenanceView), ModelProfileErrorView> {
    match field_value(contributions, model, field, extract) {
        Ok(Some(found)) => Ok(found),
        Ok(None) => Ok((value, stand_in(contributions[0].layer))),
        Err(e) => Err(e),
    }
}

/// A field that may stay open.
pub open spec fn open_field<V>(
    contributions: Seq<ContributionView>,
    model: Seq<char>,
    field: ProfileField,
    extract: spec_fn(ModelRecordView) -> Option<V>,
) -> Result<(Option<V>, Option<FieldProvenanceView>), ModelProfileErrorView> {
    match field_value(contributions, model, field, extract) {
        Ok(Some(found)) => Ok((Some(found.0), Some(found.1))),
        Ok(None) => Ok((None, None)),
        Err(e) => Err(e),
    }
}

/// All aliases that the contributions declare.
pub open spec fn declared_aliases(contributions: Seq<ContributionView>) -> Set<Seq<char>> {
    Set::new(
        |alias: Seq<char>|
            exists|i: int|
                0 <= i < contributions.len() && (
                #[trigger] contributions[i]).record.aliases.contains(alias),
    )
}

/// The error for a model that no source declares.
pub open spec fn unknown_model(model: Seq<char>) -> ModelProfileErrorView {
    ModelProfileErrorView {
        kind: ModelProfileErrorKind::UnknownModel,
        model,
        field: None,
        message: "no catalog source declares this model; configure an explicit model profile"@,
    }
}

/// Whether some contribution has the canonical id `name`, and none has another.
pub open spec fn agree_on(contributions: Seq<ContributionView>, name: Seq<char>) -> bool {
    &&& exists|i: int|
        0 <= i < contributions.len() && (#[trigger] contributions[i]).record.model == Some(name)
    &&& forall|i: int|
        0 <= i < contributions.len() && (#[trigger] contributions[i]).record.model is Some
            ==> contributions[i].record.model == Some(name)
}

/// The canonical id of the model that was asked for as `requested`: the one that
/// the contributions agree on, or the requested name if they agree on none.
pub open spec fn canonical_name(
    requested: Seq<char>,
    contributions: Seq<ContributionView>,
) -> Seq<char> {
    if exists|name: Seq<char>| agree_on(contributions, name) {
        choose|name: Seq<char>| agree_on(contributions, name)
    } else {
        requested
    }
}

/// There is at most one name to agree on.
pub proof fn lemma_canonical_name(
    requested: Seq<char>,
    contributions: Seq<ContributionView>,
    name: Seq<char>,
)
    requires
        agree_on(contributions, name),
    ensures
        canonical_name(requested, contributions) == name,
{
    let chosen = canonical_name(requested, contributions);
    assert(agree_on(contributions, chosen));
    let i = choose|i: int|
        0 <= i < contributions.len() && (#[trigger] contributions[i]).record.model == Some(name);
    assert(contributions[i].record.model == Some(chosen));
}

/// The profile that ranked contributions resolve to, under the model's canonical
/// id, or the first error in the order of limits, capabilities, modalities, and
/// components, which names the requested model.
pub open spec fn resolution(
    provider: Seq<char>,
    model: Seq<char>,
    contributions: Seq<ContributionView>,
) -> Result<ResolvedModelProfileView, ModelProfileErrorView> {
    let cs = contributions;
    let context = limit(
        cs,
        model,
        ProfileField::ContextTokens,
        |r: ModelRecordView| r.context_tokens,
    );
    let input = limit(
        cs,
        model,
        ProfileField::MaxInputTokens,
        |r: ModelRecordView| r.max_input_tokens,
    );
    let output = limit(
        cs,
        model,
        ProfileField::MaxOutputTokens,
        |r: ModelRecordView| r.max_output_tokens,
    );
    let capabilities = with_stand_in(
        cs,
        model,
        ProfileField::Capabilities,
        |r: ModelRecordView| r.capabilities,
        basic_capabilities(),
    );
    let accepts = with_stand_in(
        cs,
        model,
        ProfileField::InputModalities,
        |r: ModelRecordView| r.input_modalities,
        seq![Modality::Text],
    );
    let produces = with_stand_in(
        cs,
        model,
        ProfileField::OutputModalities,
        |r: ModelRecordView| r.output_modalities,
        seq![Modality::Text],
    );
    let tokenizer = open_field(
        cs,
        model,
        ProfileField::Tokenizer,
        |r: ModelRecordView| r.tokenizer,
    );
    let adapter = open_field(
        cs,
        model,
        ProfileField::RequestAdapter,
        |r: ModelRecordView| r.request_adapter,
    );
    let policy = open_field(
        cs,
        model,
        ProfileField::CachePolicy,
        |r: ModelRecordView| r.cache_policy,
    );
    if cs.len() == 0 {
        Err(unknown_model(model))
    } else if context is Err {
        Err(context->Err_0)
    } else if input is Err {
        Err(input->Err_0)
    } else if output is Err {
        Err(output->Err_0)
    } else if capabilities is Err {
        Err(capabilities->Err_0)
    } else if accepts is Err {
        Err(accepts->Err_0)
    } else if produces is Err {
        Err(produces->Err_0)
    } else if tokenizer is Err {
        Err(tokenizer->Err_0)
    } else if adapter is Err {
        Err(adapter->Err_0)
    } else if policy is Err {
        Err(policy->Err_0)
    } else {
        Ok(
            ResolvedModelProfileView {
                provider,
                model: canonical_name(model, cs),
                aliases: sorted_items(declared_aliases(cs)),
                limits: ModelLimits {
                    context_tokens: context->Ok_0.0,
                    max_input_tokens: input->Ok_0.0,
                    max_output_tokens: output->Ok_0.0,
                },
                input_modalities: accepts->Ok_0.0,
                output_modalities: produces->Ok_0.0,
                capabilities: capabilities->Ok_0.0,
                tokenizer: tokenizer->Ok_0.0,
                request_adapter: adapter->Ok_0.0,
                cache_policy: policy->Ok_0.0,
                provenance: seq![
                    Some(context->Ok_0.1),
                    Some(input->Ok_0.1),
                    Some(output->Ok_0.1),
                    Some(accepts->Ok_0.1),
                    Some(produces->Ok_0.1),
                    Some(capabilities->Ok_0.1),
                    tokenizer->Ok_0.1,
                    adapter->Ok_0.1,
                    policy->Ok_0.1,
                ],
            },
        )
    }
}

/// A result as a model value.
pub open spec fn result_view<T: DeepView, E: DeepView>(r: Result<T, E>) -> Result<T::V, E::V> {
    match r {
        Ok(value) => Ok(value.deep_view()),
        Err(e) => Err(e.deep_view()),
    }
}

fn conflict_error(
    model: &ModelId,
    field: ProfileField,
    chosen: &Contribution,
    other: &Contribution,
) -> (r: ModelProfileError)
    ensures
        r@ == conflict(model@, field, chosen@, other@),
{
    let mut message = "sources `".to_owned();
    message.append(chosen.name.as_str());
    message.append("` and `");
    message.append(other.name.as_str());
    message.append("` disagree about `");
    message.append(field.as_str());
    message.append("` at equal precedence `");
    message.append(other.layer.as_str());
    message.append("`");
    ModelProfileError {
        kind: ModelProfileErrorKind::SourceConflict,
        model: model.copied(),
        field: Some(field),
        message,
    }
}

/// Resolves one field across ranked contributions: the value of the first that
/// declares it, with its provenance, or a conflict if another one of that
/// layer declares another value.
fn resolve_field<T: Record, F: Fn(&ModelRecord) -> Option<T>>(
    contributions: &Vec<Contribution>,
    model: &ModelId,
    field: ProfileField,
    extract: F,
    Ghost(view): Ghost<spec_fn(ModelRecordView) -> Option<T::V>>,
) -> (r: Result<Option<(T, FieldProvenance)>, ModelProfileError>)
    requires
        forall|record: &ModelRecord| #[trigger] call_requires(extract, (record,)),
        forall|record: &ModelRecord, value: Option<T>| #[trigger]
            call_ensures(extract, (record,), value) ==> value.deep_view() == view(record@),
    ensures
        result_view(r) == field_value(contributions.deep_view(), model@, field, view),
{
    let ghost cs = contributions.deep_view();
    let ghost declares = |i: int| view(cs[i].record) is Some;
    proof {
        lemma_first_index(cs.len(), declares);
    }
    let mut w: usize = 0;
    let mut found: Option<T> = None;
    while w < contributions.len() && found.is_none()
        invariant
            w <= contributions.len(),
            cs == contributions.deep_view(),
            declares == (|i: int| view(cs[i].record) is Some),
            forall|record: &ModelRecord| #[trigger] call_requires(extract, (record,)),
            forall|record: &ModelRecord, value: Option<T>| #[trigger]
                call_ensures(extract, (record,), value) ==> value.deep_view() == view(record@),
            forall|i: int| 0 <= i < w ==> !#[trigger] declares(i),
            found is Some ==> w < contributions.len() && found.deep_view() == view(
                cs[w as int].record,
            ),
        decreases
            contributions.len() - w + (if found is None {
                1int
            } else {
                0int
            }),
    {
        found = extract(&contributions[w].record);
        if found.is_none() {
            assert(!declares(w as int));
            w = w + 1;
        }
    }
    let chosen = match found {
        None => {
            return Ok(None);
        },
        Some(chosen) => chosen,
    };
    assert(declares(w as int));
    assert(winner(cs, view) == w);
    let ghost against = |j: int| objects(cs, view, w as int, j);
    proof {
        lemma_first_index(cs.len(), against);
        assert(objector(cs, view) == first_index(cs.len(), against));
        assert forall|j: int| 0 <= j < w + 1 implies !#[trigger] against(j) by {}
    }
    let mut j: usize = w + 1;
    while j < contributions.len()
        invariant
            w < j <= contributions.len(),
            cs == contributions.deep_view(),
            against == (|j: int| objects(cs, view, w as int, j)),
            forall|record: &ModelRecord| #[trigger] call_requires(extract, (record,)),
            forall|record: &ModelRecord, value: Option<T>| #[trigger]
                call_ensures(extract, (record,), value) ==> value.deep_view() == view(record@),
            forall|i: int| 0 <= i < j ==> !#[trigger] against(i),
            Some(chosen.deep_view()) == view(cs[w as int].record),
            winner(cs, view) == w,
            objector(cs, view) == first_index(cs.len(), against),
            first_index(cs.len(), against) < cs.len() ==> against(
                first_index(cs.len(), against) as int,
            ),
            forall|i: int| 0 <= i < first_index(cs.len(), against) ==> !#[trigger] against(i),
            first_index(cs.len(), against) <= cs.len(),
        decreases contributions.len() - j,
    {
        if let Some(value) = extract(&contributions[j].record) {
            if contributions[j].layer == contributions[w].layer && !chosen.same(&value) {
                assert(against(j as int));
                assert(objector(cs, view) == j);
                return Err(conflict_error(model, field, &contributions[w], &contributions[j]));
            }
        }
        assert(!against(j as int));
        j = j + 1;
    }
    assert(objector(cs, view) == cs.len());
    let record = &contributions[w].record;
    let provenance = FieldProvenance {
        source: contributions[w].layer,
        source_revision: record.revision.copied(),
        retrieved: record.retrieved,
        confidence: FieldConfidence::Authoritative,
    };
    Ok(Some((chosen, provenance)))
}

fn require_limit<F: Fn(&ModelRecord) -> Option<u32>>(
    contributions: &Vec<Contribution>,
    model: &ModelId,
    field: ProfileField,
    extract: F,
    Ghost(view): Ghost<spec_fn(ModelRecordView) -> Option<u32>>,
) -> (r: Result<(u32, FieldProvenance), ModelProfileError>)
    requires
        forall|record: &ModelRecord| #[trigger] call_requires(extract, (record,)),
        forall|record: &ModelRecord, value: Option<u32>| #[trigger]
            call_ensures(extract, (record,), value) ==> value.deep_view() == view(record@),
    ensures
        result_view(r) == limit(contributions.deep_view(), model@, field, view),
{
    match resolve_field(contributions, model, field, extract, Ghost(view)) {
        Ok(Some(found)) => Ok(found),
        Ok(None) => {
            let mut message = "no source declares `".to_owned();
            message.append(field.as_str());
            message.append("`; supply an explicit model profile before planning");
            Err(
                ModelProfileError {
                    kind: ModelProfileErrorKind::MissingLimits,
                    model: model.copied(),
                    field: Some(field),
                    message,
                },
            )
        },
        Err(e) => Err(e),
    }
}

fn resolve_or<T: Record, F: Fn(&ModelRecord) -> Option<T>>(
    contributions: &Vec<Contribution>,
    model: &ModelId,
    field: ProfileField,
    extract: F,
    fallback: T,
    Ghost(view): Ghost<spec_fn(ModelRecordView) -> Option<T::V>>,
) -> (r: Result<(T, FieldProvenance), ModelProfileError>)
    requires
        contributions.deep_view().len() > 0,
        forall|record: &ModelRecord| #[trigger] call_requires(extract, (record,)),
        forall|record: &ModelRecord, value: Option<T>| #[trigger]
            call_ensures(extract, (record,), value) ==> value.deep_view() == view(record@),
    ensures
        result_view(r) == with_stand_in(
            contributions.deep_view(),
            model@,
            field,
            view,
            fallback.deep_view(),
        ),
{
    match resolve_field(contributions, model, field, extract, Ghost(view)) {
        Ok(Some(found)) => Ok(found),
        Ok(None) => {
            let provenance = FieldProvenance::authoritative(
                contributions[0].layer,
            ).with_confidence(FieldConfidence::Fallback);
            Ok((fallback, provenance))
        },
        Err(e) => Err(e),
    }
}

fn resolve_open<T: Record, F: Fn(&ModelRecord) -> Option<T>>(
    contributions: &Vec<Contribution>,
    model: &ModelId,
    field: ProfileField,
    extract: F,
    Ghost(view): Ghost<spec_fn(ModelRecordView) -> Option<T::V>>,
) -> (r: Result<(Option<T>, Option<FieldProvenance>), ModelProfileError>)
    requires
        forall|record: &ModelRecord| #[trigger] call_requires(extract, (record,)),
        forall|record: &ModelRecord, value: Option<T>| #[trigger]
            call_ensures(extract, (record,), value) ==> value.deep_view() == view(record@),
    ensures
        result_view(r) == open_field(contributions.deep_view(), model@, field, view),
{
    match resolve_field(contributions, model, field, extract, Ghost(view)) {
        Ok(Some((value, provenance))) => Ok((Some(value), Some(provenance))),
        Ok(None) => Ok((None, None)),
        Err(e) => Err(e),
    }
}

fn collect_aliases(contributions: &Vec<Contribution>) -> (r: Vec<String>)
    ensures
        r.deep_view() == sorted_items(declared_aliases(contributions.deep_view())),
{
    let ghost cs = contributions.deep_view();
    let mut names = TextSet::new();
    let mut i: usize = 0;
    while i < contributions.len()
        invariant
            i <= contributions.len(),
            cs == contributions.deep_view(),
            forall|alias: Seq<char>| #[trigger]
                names@.contains(alias) <==> exists|k: int|
                    0 <= k < i && (#[trigger] cs[k]).record.aliases.contains(alias),
        decreases contributions.len() - i,
    {
        let aliases = &contributions[i].record.aliases;
        let ghost before = names@;
        let ghost own = aliases.deep_view();
        let mut j: usize = 0;
        while j < aliases.len()
            invariant
                j <= aliases.len(),
                own == aliases.deep_view(),
                forall|alias: Seq<char>| #[trigger]
                    names@.contains(alias) <==> before.contains(alias) || exists|k: int|
                        0 <= k < j && #[trigger] own[k] == alias,
            decreases aliases.len() - j,
        {
            let ghost so_far = names@;
            names.insert(aliases[j].as_str());
            proof {
                assert(own[j as int] == aliases[j as int]@);
                assert forall|alias: Seq<char>| #[trigger] names@.contains(alias) <==> (
                before.contains(alias) || exists|k: int|
                    0 <= k < j + 1 && #[trigger] own[k] == alias) by {
                    if so_far.contains(alias) && !before.contains(alias) {
                        let k = choose|k: int| 0 <= k < j && #[trigger] own[k] == alias;
                        assert(own[k] == alias);
                    }
                    if exists|k: int| 0 <= k < j + 1 && #[trigger] own[k] == alias {
                        let k = choose|k: int| 0 <= k < j + 1 && #[trigger] own[k] == alias;
                        if k < j {
                            assert(so_far.contains(alias));
                        }
                    }
                }
            }
            j = j + 1;
        }
        proof {
            assert(cs[i as int].record.aliases == own);
            assert forall|alias: Seq<char>| #[trigger] names@.contains(alias) <==> exists|k: int|
                0 <= k < i + 1 && (#[trigger] cs[k]).record.aliases.contains(alias) by {
                if names@.contains(alias) {
                    if before.contains(alias) {
                        let k = choose|k: int|
                            0 <= k < i && (#[trigger] cs[k]).record.aliases.contains(alias);
                        assert(cs[k].record.aliases.contains(alias));
                    } else {
                        let k = choose|k: int| 0 <= k < own.len() && #[trigger] own[k] == alias;
                        assert(cs[i as int].record.aliases.contains(alias));
                    }
                }
                if exists|k: int|
                    0 <= k < i + 1 && (#[trigger] cs[k]).record.aliases.contains(alias) {
                    let k = choose|k: int|
                        0 <= k < i + 1 && (#[trigger] cs[k]).record.aliases.contains(alias);
                    if k < i {
                        assert(before.contains(alias));
                    } else {
                        let n = choose|n: int| 0 <= n < own.len() && own[n] == alias;
                        assert(own[n] == alias);
                    }
                }
            }
        }
        i = i + 1;
    }
    assert(names@ =~= declared_aliases(cs));
    names.to_list()
}

/// A catalog that resolves profiles by merging layered sources.
pub struct LayeredModelCatalog {
    sources: Vec<Arc<dyn ModelCatalogSource>>,
}

/// What `source` contributes.
pub open spec fn contribution(
    layer: CatalogSource,
    name: Seq<char>,
    declared: Option<ModelRecordView>,
) -> Seq<ContributionView> {
    match declared {
        Some(record) => seq![ContributionView { layer, name, record }],
        None => Seq::empty(),
    }
}

spec fn contributed_by(
    sources: Seq<Arc<dyn ModelCatalogSource>>,
    provider: Seq<char>,
    model: Seq<char>,
) -> Seq<ContributionView>
    decreases sources.len(),
{
    if sources.len() == 0 {
        Seq::empty()
    } else {
        contributed_by(sources.drop_last(), provider, model) + contribution(
            sources.last().layer(),
            sources.last().title(),
            sources.last().declares(provider, model),
        )
    }
}

proof fn lemma_contributed_by_parts(
    a: Seq<Arc<dyn ModelCatalogSource>>,
    b: Seq<Arc<dyn ModelCatalogSource>>,
    provider: Seq<char>,
    model: Seq<char>,
)
    ensures
        contributed_by(a + b, provider, model) == contributed_by(a, provider, model)
            + contributed_by(b, provider, model),
    decreases b.len(),
{
    if b.len() == 0 {
        assert(a + b =~= a);
        assert(contributed_by(a, provider, model) + contributed_by(b, provider, model)
            =~= contributed_by(a, provider, model));
    } else {
        lemma_contributed_by_parts(a, b.drop_last(), provider, model);
        assert((a + b).drop_last() =~= a + b.drop_last());
        assert(contributed_by(a + b, provider, model) =~= contributed_by(a, provider, model)
            + contributed_by(b, provider, model));
    }
}

proof fn lemma_contributed_by_any_order(
    a: Seq<Arc<dyn ModelCatalogSource>>,
    b: Seq<Arc<dyn ModelCatalogSource>>,
    provider: Seq<char>,
    model: Seq<char>,
)
    requires
        a.to_multiset() == b.to_multiset(),
    ensures
        contributed_by(a, provider, model).to_multiset() == contributed_by(
            b,
            provider,
            model,
        ).to_multiset(),
    decreases a.len(),
{
    broadcast use vstd::seq_lib::group_to_multiset_ensures;

    assert(a.to_multiset().len() == a.len());
    assert(b.to_multiset().len() == b.len());
    if a.len() > 0 {
        let n = a.len() as int;
        let j = lemma_last_is_in(a, b);
        let (start, end) = (b.subrange(0, j), b.subrange(j + 1, n));
        let (rest, single) = (a.drop_last(), a.subrange(n - 1, n));
        assert(b.remove(j) =~= start + end);
        lemma_contributed_by_any_order(rest, start + end, provider, model);
        let (head, tail, own) = (
            contributed_by(start, provider, model),
            contributed_by(end, provider, model),
            contributed_by(single, provider, model),
        );
        lemma_contributed_by_parts(start, end, provider, model);
        lemma_contributed_by_parts(start, single, provider, model);
        lemma_contributed_by_parts(start + single, end, provider, model);
        lemma_contributed_by_parts(rest, single, provider, model);
        assert(a =~= rest + single);
        assert(b =~= (start + single) + end);
        vstd::seq_lib::lemma_multiset_commutative(head, tail);
        vstd::seq_lib::lemma_multiset_commutative(head, own);
        vstd::seq_lib::lemma_multiset_commutative(head + own, tail);
        vstd::seq_lib::lemma_multiset_commutative(contributed_by(rest, provider, model), own);
        assert(contributed_by(a, provider, model).to_multiset() =~= contributed_by(
            b,
            provider,
            model,
        ).to_multiset());
    } else {
        assert(a =~= b);
    }
}

proof fn lemma_last_is_in<T>(a: Seq<T>, b: Seq<T>) -> (j: int)
    requires
        a.len() > 0,
        a.to_multiset() == b.to_multiset(),
    ensures
        0 <= j < b.len(),
        b[j] == a.last(),
        a.drop_last().to_multiset() == b.remove(j).to_multiset(),
{
    broadcast use vstd::seq_lib::group_to_multiset_ensures;

    let x = a.last();
    assert(a.contains(x));
    assert(b.to_multiset().count(x) > 0);
    let j = choose|j: int| 0 <= j < b.len() && b[j] == x;
    assert(a.remove(a.len() - 1) =~= a.drop_last());
    j
}

/// The items with one more.
pub open spec fn with_item<T>(item: T, items: Multiset<T>) -> Multiset<T> {
    items.insert(item)
}

fn append<T>(item: T, items: Vec<T>) -> (r: Vec<T>)
    ensures
        r@ == items@.push(item),
        r@.to_multiset() == with_item(item, items@.to_multiset()),
{
    broadcast use vstd::seq_lib::group_to_multiset_ensures;

    let mut r = items;
    r.push(item);
    r
}

fn shared<T: ?Sized>(items: &Vec<Arc<T>>) -> (r: Vec<Arc<T>>)
    ensures
        r@ == items@,
{
    let mut r: Vec<Arc<T>> = Vec::new();
    let mut i: usize = 0;
    while i < items.len()
        invariant
            i <= items.len(),
            r@ == items@.subrange(0, i as int),
        decreases items.len() - i,
    {
        r.push(items[i].clone());
        assert(r@ =~= items@.subrange(0, i + 1));
        i = i + 1;
    }
    assert(r@ =~= items@);
    r
}

impl LayeredModelCatalog {
    /// The number of registered sources.
    pub closed spec fn size(&self) -> nat {
        self.sources@.len()
    }

    /// The registered sources, in no order.
    pub closed spec fn registered(&self) -> Multiset<Arc<dyn ModelCatalogSource>> {
        self.sources@.to_multiset()
    }

    /// Catalogs with the same sources, in whatever order these were registered,
    /// have the same contributions.
    pub proof fn lemma_same_sources_contribute_alike(
        &self,
        other: &LayeredModelCatalog,
        provider: Seq<char>,
        model: Seq<char>,
    )
        requires
            self.registered() == other.registered(),
        ensures
            self.contributed(provider, model).to_multiset() == other.contributed(
                provider,
                model,
            ).to_multiset(),
    {
        lemma_contributed_by_any_order(self.sources@, other.sources@, provider, model);
    }

    /// What the sources contribute, in the order of registration.
    pub closed spec fn contributed(
        &self,
        provider: Seq<char>,
        model: Seq<char>,
    ) -> Seq<ContributionView> {
        contributed_by(self.sources@, provider, model)
    }

    /// The canonical id of the model that is asked for as `model`.
    pub open spec fn canonical(&self, provider: Seq<char>, model: Seq<char>) -> Seq<char> {
        canonical_name(model, ranked(self.contributed(provider, model)))
    }

    /// The name under which the contributions to a model are looked up: its
    /// canonical id, or the requested one if nothing is declared under that.
    pub open spec fn known_as(&self, provider: Seq<char>, model: Seq<char>) -> Seq<char> {
        let canonical = self.canonical(provider, model);
        if self.contributed(provider, canonical).len() > 0 {
            canonical
        } else {
            model
        }
    }

    /// What a model resolves to: what the contributions under its canonical id
    /// resolve to. A failure names the requested model.
    pub open spec fn resolved(&self, provider: Seq<char>, model: Seq<char>) -> Result<
        ResolvedModelProfileView,
        ModelProfileErrorView,
    > {
        let name = self.known_as(provider, model);
        match resolution(provider, name, ranked(self.contributed(provider, name))) {
            Ok(profile) => Ok(profile),
            Err(e) => Err(ModelProfileErrorView { model, ..e }),
        }
    }

    /// An empty catalog.
    pub fn new() -> (r: LayeredModelCatalog)
        ensures
            r.size() == 0,
            r.registered() == Multiset::<Arc<dyn ModelCatalogSource>>::empty(),
            forall|provider: Seq<char>, model: Seq<char>| #[trigger]
                r.contributed(provider, model) == Seq::<ContributionView>::empty(),
    {
        broadcast use vstd::seq_lib::group_to_multiset_ensures;

        let sources: Vec<Arc<dyn ModelCatalogSource>> = Vec::new();
        assert(sources@.to_multiset() =~= Multiset::empty()) by {
            assert(sources@.to_multiset().len() == 0);
        }
        LayeredModelCatalog { sources }
    }

    /// Adds a source. Registration order is irrelevant to resolution: only
    /// [`CatalogSource::precedence`] decides what wins, and disagreement within a
    /// layer fails.
    pub fn with_source(self, source: Arc<dyn ModelCatalogSource>) -> (r: LayeredModelCatalog)
        ensures
            r.size() == self.size() + 1,
            r.registered() == with_item(source, self.registered()),
            forall|provider: Seq<char>, model: Seq<char>| #[trigger]
                r.contributed(provider, model) == self.contributed(provider, model) + contribution(
                    source.layer(),
                    source.title(),
                    source.declares(provider, model),
                ),
    {
        let ghost before = self.sources@;
        let sources = append(source, self.sources);
        assert(sources@.drop_last() =~= before);
        LayeredModelCatalog { sources }
    }

    /// The number of registered sources.
    pub fn len(&self) -> (r: usize)
        ensures
            r == self.size(),
    {
        self.sources.len()
    }

    /// Whether the catalog has no sources.
    pub fn is_empty(&self) -> (r: bool)
        ensures
            r == (self.size() == 0),
    {
        self.sources.len() == 0
    }

    fn contributions(&self, provider: &str, model: &ModelId) -> (r: Vec<Contribution>)
        ensures
            r.deep_view() == ranked(self.contributed(provider@, model@)),
    {
        let mut out: Vec<Contribution> = Vec::new();
        let mut i: usize = 0;
        assert(self.sources@.subrange(0, 0) =~= Seq::<Arc<dyn ModelCatalogSource>>::empty());
        assert(out.deep_view() =~= Seq::<ContributionView>::empty());
        while i < self.sources.len()
            invariant
                i <= self.sources.len(),
                out.deep_view() == ranked(
                    contributed_by(self.sources@.subrange(0, i as int), provider@, model@),
                ),
            decreases self.sources.len() - i,
        {
            let ghost before = contributed_by(
                self.sources@.subrange(0, i as int),
                provider@,
                model@,
            );
            proof {
                let items = self.sources@.subrange(0, i + 1);
                assert(items.drop_last() =~= self.sources@.subrange(0, i as int));
                assert(items.last() == self.sources@[i as int]);
            }
            if let Some(record) = self.sources[i].lookup(provider, model) {
                let new = Contribution {
                    layer: self.sources[i].source(),
                    name: self.sources[i].name().to_owned(),
                    record,
                };
                let ghost view = new@;
                let ghost items = out.deep_view();
                let at: usize = place_of(&out, &new);
                out.insert(at, new);
                proof {
                    assert(before.push(view).drop_last() =~= before);
                    assert(before + seq![view] =~= before.push(view));
                    assert(out.deep_view() =~= items.insert(at as int, view));
                }
            } else {
                assert(before + Seq::<ContributionView>::empty() =~= before);
            }
            i = i + 1;
        }
        assert(self.sources@.subrange(0, self.sources@.len() as int) =~= self.sources@);
        out
    }
}

fn place_of(contributions: &Vec<Contribution>, new: &Contribution) -> (r: usize)
    ensures
        r == place(contributions.deep_view(), new@),
        r <= contributions.len(),
{
    let ghost cs = contributions.deep_view();
    let ghost after = |i: int| outranks(new@, cs[i]);
    proof {
        lemma_first_index(cs.len(), after);
    }
    let mut i: usize = 0;
    while i < contributions.len()
        invariant
            i <= contributions.len(),
            cs == contributions.deep_view(),
            after == (|i: int| outranks(new@, cs[i])),
            forall|k: int| 0 <= k < i ==> !#[trigger] after(k),
            first_index(cs.len(), after) <= cs.len(),
            first_index(cs.len(), after) < cs.len() ==> after(first_index(cs.len(), after) as int),
            forall|k: int| 0 <= k < first_index(cs.len(), after) ==> !#[trigger] after(k),
        decreases contributions.len() - i,
    {
        let other = &contributions[i];
        let earlier = if new.layer != other.layer {
            new.layer.precedence() > other.layer.precedence()
        } else if !new.name.same(&other.name) {
            new.name.precedes(&other.name)
        } else {
            new.record.precedes(&other.record)
        };
        if earlier {
            assert(after(i as int));
            return i;
        }
        assert(!after(i as int));
        i = i + 1;
    }
    i
}

impl Clone for LayeredModelCatalog {
    fn clone(&self) -> (r: Self)
        ensures
            r.size() == self.size(),
            r.registered() == self.registered(),
            forall|provider: Seq<char>, model: Seq<char>| #[trigger]
                r.contributed(provider, model) == self.contributed(provider, model),
    {
        LayeredModelCatalog { sources: shared(&self.sources) }
    }
}

impl Default for LayeredModelCatalog {
    fn default() -> (r: LayeredModelCatalog)
        ensures
            r.size() == 0,
            r.registered() == Multiset::<Arc<dyn ModelCatalogSource>>::empty(),
            forall|provider: Seq<char>, model: Seq<char>| #[trigger]
                r.contributed(provider, model) == Seq::<ContributionView>::empty(),
    {
        LayeredModelCatalog::new()
    }
}

impl ModelCatalog for LayeredModelCatalog {
    fn resolve(&self, provider: &str, model: &ModelId) -> (r: Result<
        ResolvedModelProfile,
        ModelProfileError,
    >)
        ensures
            result_view(r) == self.resolved(provider@, model@),
    {
        let requested = self.contributions(provider, model);
        let canonical = canonical_of(model, &requested);
        let contributions = self.contributions(provider, &canonical);
        proof {
            lemma_ranked_len(self.contributed(provider@, canonical@));
        }
        let outcome = if contributions.len() > 0 {
            merge(provider, &canonical, &contributions)
        } else {
            merge(provider, model, &requested)
        };
        match outcome {
            Ok(profile) => Ok(profile),
            Err(error) => Err(ModelProfileError { model: model.copied(), ..error }),
        }
    }
}

fn declared_context_tokens(record: &ModelRecord) -> (v: Option<u32>)
    ensures
        v.deep_view() == record@.context_tokens,
{
    record.context_tokens
}

fn declared_max_input_tokens(record: &ModelRecord) -> (v: Option<u32>)
    ensures
        v.deep_view() == record@.max_input_tokens,
{
    record.max_input_tokens
}

fn declared_max_output_tokens(record: &ModelRecord) -> (v: Option<u32>)
    ensures
        v.deep_view() == record@.max_output_tokens,
{
    record.max_output_tokens
}

fn declared_capabilities(record: &ModelRecord) -> (v: Option<Capabilities>)
    ensures
        v.deep_view() == record@.capabilities,
{
    record.capabilities.copied()
}

fn declared_input_modalities(record: &ModelRecord) -> (v: Option<Vec<Modality>>)
    ensures
        v.deep_view() == record@.input_modalities,
{
    record.input_modalities.copied()
}

fn declared_output_modalities(record: &ModelRecord) -> (v: Option<Vec<Modality>>)
    ensures
        v.deep_view() == record@.output_modalities,
{
    record.output_modalities.copied()
}

fn declared_tokenizer(record: &ModelRecord) -> (v: Option<ComponentRef>)
    ensures
        v.deep_view() == record@.tokenizer,
{
    record.tokenizer.copied()
}

fn declared_request_adapter(record: &ModelRecord) -> (v: Option<ComponentRef>)
    ensures
        v.deep_view() == record@.request_adapter,
{
    record.request_adapter.copied()
}

fn declared_cache_policy(record: &ModelRecord) -> (v: Option<ComponentRef>)
    ensures
        v.deep_view() == record@.cache_policy,
{
    record.cache_policy.copied()
}

fn canonical_of(requested: &ModelId, contributions: &Vec<Contribution>) -> (r: ModelId)
    ensures
        r@ == canonical_name(requested@, contributions.deep_view()),
{
    let ghost cs = contributions.deep_view();
    let mut found: Option<ModelId> = None;
    let mut i: usize = 0;
    while i < contributions.len()
        invariant
            i <= contributions.len(),
            cs == contributions.deep_view(),
            match found.deep_view() {
                Some(name) => {
                    &&& exists|k: int|
                        0 <= k < i && (#[trigger] cs[k]).record.model == Some(name)
                    &&& forall|k: int|
                        0 <= k < i && (#[trigger] cs[k]).record.model is Some
                            ==> cs[k].record.model == Some(name)
                },
                None => forall|k: int| 0 <= k < i ==> (#[trigger] cs[k]).record.model is None,
            },
        decreases contributions.len() - i,
    {
        if let Some(model) = &contributions[i].record.model {
            assert(cs[i as int].record.model == Some(model@));
            if let Some(name) = &found {
                if !name.same(model) {
                    proof {
                        let k = choose|k: int|
                            0 <= k < i && (#[trigger] cs[k]).record.model == Some(name@);
                        assert forall|other: Seq<char>| !agree_on(cs, other) by {
                            if agree_on(cs, other) {
                                assert(cs[k].record.model == Some(other));
                                assert(cs[i as int].record.model == Some(other));
                            }
                        }
                    }
                    return requested.copied();
                }
            } else {
                found = Some(model.copied());
            }
        }
        i = i + 1;
    }
    match found {
        Some(name) => {
            proof {
                lemma_canonical_name(requested@, cs, name@);
            }
            name
        },
        None => requested.copied(),
    }
}

/// Merges ranked contributions into a profile, under the model's canonical id. A
/// failure names `model`.
pub fn merge(provider: &str, model: &ModelId, contributions: &Vec<Contribution>) -> (r: Result<
    ResolvedModelProfile,
    ModelProfileError,
>)
    ensures
        result_view(r) == resolution(provider@, model@, contributions.deep_view()),
{
    if contributions.len() == 0 {
        return Err(
            ModelProfileError::new(
                ModelProfileErrorKind::UnknownModel,
                model.copied(),
                "no catalog source declares this model; configure an explicit model profile",
            ),
        );
    }
    let (context_tokens, context_from) = match require_limit(
        contributions,
        model,
        ProfileField::ContextTokens,
        declared_context_tokens,
        Ghost(|r: ModelRecordView| r.context_tokens),
    ) {
        Ok(found) => found,
        Err(e) => {
            return Err(e);
        },
    };
    let (max_input_tokens, input_from) = match require_limit(
        contributions,
        model,
        ProfileField::MaxInputTokens,
        declared_max_input_tokens,
        Ghost(|r: ModelRecordView| r.max_input_tokens),
    ) {
        Ok(found) => found,
        Err(e) => {
            return Err(e);
        },
    };
    let (max_output_tokens, output_from) = match require_limit(
        contributions,
        model,
        ProfileField::MaxOutputTokens,
        declared_max_output_tokens,
        Ghost(|r: ModelRecordView| r.max_output_tokens),
    ) {
        Ok(found) => found,
        Err(e) => {
            return Err(e);
        },
    };
    let (capabilities, capabilities_from) = match resolve_or(
        contributions,
        model,
        ProfileField::Capabilities,
        declared_capabilities,
        Capabilities::basic_streaming(),
        Ghost(|r: ModelRecordView| r.capabilities),
    ) {
        Ok(found) => found,
        Err(e) => {
            return Err(e);
        },
    };
    let text_in: Vec<Modality> = vec![Modality::Text];
    let text_out: Vec<Modality> = vec![Modality::Text];
    assert(text_in.deep_view() =~= seq![Modality::Text]);
    assert(text_out.deep_view() =~= seq![Modality::Text]);
    let (input_modalities, accepts_from) = match resolve_or(
        contributions,
        model,
        ProfileField::InputModalities,
        declared_input_modalities,
        text_in,
        Ghost(|r: ModelRecordView| r.input_modalities),
    ) {
        Ok(found) => found,
        Err(e) => {
            return Err(e);
        },
    };
    let (output_modalities, produces_from) = match resolve_or(
        contributions,
        model,
        ProfileField::OutputModalities,
        declared_output_modalities,
        text_out,
        Ghost(|r: ModelRecordView| r.output_modalities),
    ) {
        Ok(found) => found,
        Err(e) => {
            return Err(e);
        },
    };
    let (tokenizer, tokenizer_from) = match resolve_open(
        contributions,
        model,
        ProfileField::Tokenizer,
        declared_tokenizer,
        Ghost(|r: ModelRecordView| r.tokenizer),
    ) {
        Ok(found) => found,
        Err(e) => {
            return Err(e);
        },
    };
    let (request_adapter, adapter_from) = match resolve_open(
        contributions,
        model,
        ProfileField::RequestAdapter,
        declared_request_adapter,
        Ghost(|r: ModelRecordView| r.request_adapter),
    ) {
        Ok(found) => found,
        Err(e) => {
            return Err(e);
        },
    };
    let (cache_policy, policy_from) = match resolve_open(
        contributions,
        model,
        ProfileField::CachePolicy,
        declared_cache_policy,
        Ghost(|r: ModelRecordView| r.cache_policy),
    ) {
        Ok(found) => found,
        Err(e) => {
            return Err(e);
        },
    };
    let ghost froms = seq![
        Some(context_from@),
        Some(input_from@),
        Some(output_from@),
        Some(accepts_from@),
        Some(produces_from@),
        Some(capabilities_from@),
        tokenizer_from.deep_view(),
        adapter_from.deep_view(),
        policy_from.deep_view(),
    ];
    let mut provenance = ProvenanceTable::new().with(
        ProfileField::ContextTokens,
        context_from,
    ).with(ProfileField::MaxInputTokens, input_from).with(
        ProfileField::MaxOutputTokens,
        output_from,
    ).with(ProfileField::InputModalities, accepts_from).with(
        ProfileField::OutputModalities,
        produces_from,
    ).with(ProfileField::Capabilities, capabilities_from);
    if let Some(from) = tokenizer_from {
        provenance = provenance.with(ProfileField::Tokenizer, from);
    }
    if let Some(from) = adapter_from {
        provenance = provenance.with(ProfileField::RequestAdapter, from);
    }
    if let Some(from) = policy_from {
        provenance = provenance.with(ProfileField::CachePolicy, from);
    }
    assert(provenance@ =~= froms);
    Ok(
        ResolvedModelProfile {
            provider: provider.to_owned(),
            model: canonical_of(model, contributions),
            aliases: collect_aliases(contributions),
            limits: ModelLimits::new(context_tokens, max_input_tokens, max_output_tokens),
            input_modalities,
            output_modalities,
            capabilities,
            tokenizer,
            request_adapter,
            cache_policy,
            provenance,
        },
    )
}

/// A source backed by a fixed table, keyed by model name and by alias.
///
/// This is how every local layer is built: embedded known-good metadata, a
/// provider adapter's own configuration, and a host's validated cache of remote
/// records all reduce to a named table at a declared layer.
#[derive(Debug)]
pub struct StaticSource {
    name: String,
    layer: CatalogSource,
    provider: Option<String>,
    records: TextMap<ModelRecord>,
}

/// What a [`StaticSource`] holds.
pub struct StaticSourceView {
    pub name: Seq<char>,
    pub layer: CatalogSource,
    pub provider: Option<Seq<char>>,
    pub records: Map<Seq<char>, ModelRecordView>,
}

impl View for StaticSource {
    type V = StaticSourceView;

    closed spec fn view(&self) -> StaticSourceView {
        StaticSourceView {
            name: self.name@,
            layer: self.layer,
            provider: self.provider.deep_view(),
            records: self.records.dict(),
        }
    }
}

/// Whether `name` is among the first `n` of `names`.
pub open spec fn is_among(names: Seq<Seq<char>>, n: int, name: Seq<char>) -> bool {
    exists|k: int| 0 <= k < n && #[trigger] names[k] == name
}

/// The table with `record` for `model`, its canonical id, and for each of the
/// record's aliases.
pub open spec fn declaring(
    records: Map<Seq<char>, ModelRecordView>,
    model: Seq<char>,
    record: ModelRecordView,
) -> Map<Seq<char>, ModelRecordView> {
    records.union_prefer_right(
        Map::new(
            |name: Seq<char>| name == model || record.aliases.contains(name),
            |name: Seq<char>| ModelRecordView { model: Some(model), ..record },
        ),
    )
}

impl StaticSourceView {
    /// What the table says of a model: nothing for a provider other than the
    /// one that it is restricted to.
    pub open spec fn find(self, provider: Seq<char>, model: Seq<char>) -> Option<ModelRecordView> {
        if self.provider is Some && self.provider != Some(provider) {
            None
        } else if self.records.dom().contains(model) {
            Some(self.records[model])
        } else {
            None
        }
    }
}

impl StaticSource {
    /// A named, empty source contributing to `layer`.
    pub fn new(name: &str, layer: CatalogSource) -> (r: StaticSource)
        ensures
            r@ == (StaticSourceView {
                name: name@,
                layer,
                provider: None,
                records: Map::empty(),
            }),
    {
        StaticSource { name: name.to_owned(), layer, provider: None, records: TextMap::new() }
    }

    /// Restricts this source to one serving provider.
    pub fn for_provider(self, provider: &str) -> (r: StaticSource)
        ensures
            r@ == (StaticSourceView { provider: Some(provider@), ..self@ }),
    {
        StaticSource {
            name: self.name,
            layer: self.layer,
            provider: Some(provider.to_owned()),
            records: self.records,
        }
    }

    /// Declares `record` for `model`, and for each of the record's aliases, so
    /// an alias resolves to the same profile as its canonical name.
    pub fn with_model(self, model: &str, record: ModelRecord) -> (r: StaticSource)
        ensures
            r@ == (StaticSourceView {
                records: declaring(self@.records, model@, record@),
                ..self@
            }),
    {
        let ghost before = self.records.dict();
        let ghost declared = record@;
        let record = ModelRecord { model: Some(ModelId::new(model)), ..record };
        let ghost view = record@;
        let mut records = self.records;
        let mut i: usize = 0;
        while i < record.aliases.len()
            invariant
                i <= record.aliases.len(),
                view == record@,
                forall|name: Seq<char>| #[trigger]
                    records.dict().dom().contains(name) <==> (before.dom().contains(name)
                        || is_among(view.aliases, i as int, name)),
                forall|name: Seq<char>| #[trigger]
                    records.dict().dom().contains(name) ==> records.dict()[name] == (if is_among(
                        view.aliases,
                        i as int,
                        name,
                    ) {
                        view
                    } else {
                        before[name]
                    }),
            decreases record.aliases.len() - i,
        {
            let ghost so_far = records.dict();
            records.insert(record.aliases[i].as_str(), record.copied());
            proof {
                assert(view.aliases[i as int] == record.aliases[i as int]@);
                assert forall|name: Seq<char>| #[trigger]
                    is_among(view.aliases, i + 1, name) == (name == view.aliases[i as int]
                    || is_among(view.aliases, i as int, name)) by {
                    if is_among(view.aliases, i as int, name) {
                        let k = choose|k: int| 0 <= k < i && #[trigger] view.aliases[k] == name;
                        assert(view.aliases[k] == name);
                    }
                }
                assert forall|name: Seq<char>| #[trigger]
                    records.dict().dom().contains(name) implies records.dict()[name] == (
                if is_among(view.aliases, i + 1, name) {
                    view
                } else {
                    before[name]
                }) by {
                    if name != view.aliases[i as int] {
                        assert(so_far.dom().contains(name));
                    }
                }
            }
            i = i + 1;
        }
        let ghost so_far = records.dict();
        records.insert(model, record);
        proof {
            let want = declaring(before, model@, declared);
            assert forall|name: Seq<char>| #[trigger] view.aliases.contains(name) == is_among(
                view.aliases,
                view.aliases.len() as int,
                name,
            ) by {
                if view.aliases.contains(name) {
                    let k = choose|k: int| 0 <= k < view.aliases.len() && view.aliases[k] == name;
                    assert(view.aliases[k] == name);
                }
            }
            assert forall|name: Seq<char>| records.dict().dom().contains(name)
                == want.dom().contains(name) by {
                assert(so_far.dom().contains(name) || !so_far.dom().contains(name));
            }
            assert forall|name: Seq<char>|
                records.dict().dom().contains(name) implies records.dict()[name] == want[name] by {
                if name != model@ {
                    assert(so_far.dom().contains(name));
                }
            }
            assert(records.dict() =~= want);
        }
        StaticSource { name: self.name, layer: self.layer, provider: self.provider, records }
    }
}

impl ModelCatalogSource for StaticSource {
    open spec fn layer(&self) -> CatalogSource {
        self@.layer
    }

    open spec fn title(&self) -> Seq<char> {
        self@.name
    }

    open spec fn declares(&self, provider: Seq<char>, model: Seq<char>) -> Option<ModelRecordView> {
        self@.find(provider, model)
    }

    fn source(&self) -> (r: CatalogSource) {
        self.layer
    }

    fn name(&self) -> (r: &str) {
        self.name.as_str()
    }

    fn lookup(&self, provider: &str, model: &ModelId) -> (r: Option<ModelRecord>) {
        if let Some(scoped) = &self.provider {
            if !same_text(scoped.as_str(), provider) {
                return None;
            }
        }
        match self.records.get(model.as_str()) {
            Some(record) => Some(record.copied()),
            None => None,
        }
    }
}

impl Clone for StaticSource {
    fn clone(&self) -> (r: Self)
        ensures
            r@ == self@,
    {
        StaticSource {
            name: self.name.copied(),
            layer: self.layer,
            provider: self.provider.copied(),
            records: self.records.copied(),
        }
    }
}

/// An explicit host or session override: the highest-precedence layer.
#[derive(Debug)]
pub struct ExplicitSource {
    inner: StaticSource,
}

impl View for ExplicitSource {
    type V = StaticSourceView;

    closed spec fn view(&self) -> StaticSourceView {
        self.inner@
    }
}

impl ExplicitSource {
    #[verifier::type_invariant]
    spec fn is_explicit(self) -> bool {
        self.inner@.layer == CatalogSource::Explicit
    }

    /// An empty override source.
    pub fn new() -> (r: ExplicitSource)
        ensures
            r@ == (StaticSourceView {
                name: "explicit"@,
                layer: CatalogSource::Explicit,
                provider: None,
                records: Map::empty(),
            }),
    {
        ExplicitSource { inner: StaticSource::new("explicit", CatalogSource::Explicit) }
    }

    /// Overrides `model` with `record`.
    pub fn with_model(self, model: &str, record: ModelRecord) -> (r: ExplicitSource)
        ensures
            r@ == (StaticSourceView {
                records: declaring(self@.records, model@, record@),
                ..self@
            }),
    {
        proof {
            use_type_invariant(&self);
        }
        ExplicitSource { inner: self.inner.with_model(model, record) }
    }
}

impl Clone for ExplicitSource {
    fn clone(&self) -> (r: Self)
        ensures
            r@ == self@,
    {
        proof {
            use_type_invariant(self);
        }
        ExplicitSource { inner: self.inner.clone() }
    }
}

impl Default for ExplicitSource {
    fn default() -> (r: ExplicitSource)
        ensures
            r@.records == Map::<Seq<char>, ModelRecordView>::empty(),
    {
        ExplicitSource::new()
    }
}

impl ModelCatalogSource for ExplicitSource {
    open spec fn layer(&self) -> CatalogSource {
        CatalogSource::Explicit
    }

    open spec fn title(&self) -> Seq<char> {
        self@.name
    }

    open spec fn declares(&self, provider: Seq<char>, model: Seq<char>) -> Option<ModelRecordView> {
        self@.find(provider, model)
    }

    fn source(&self) -> (r: CatalogSource) {
        CatalogSource::Explicit
    }

    fn name(&self) -> (r: &str) {
        self.inner.name()
    }

    fn lookup(&self, provider: &str, model: &ModelId) -> (r: Option<ModelRecord>) {
        self.inner.lookup(provider, model)
    }
}

} // verus!
