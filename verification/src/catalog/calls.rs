//! What the operations of the catalog give back, call by call.

use vstd::prelude::*;

use super::layered::{
    merge, ranked, Contribution, ContributionView, LayeredModelCatalog, StaticSource,
    StaticSourceView,
};
use super::profiles::{
    a_canonical_request_resolves_by_its_own_contributions,
    a_profile_holds_what_the_strongest_layers_state, a_table_finds_a_model_under_all_its_names,
    an_explicit_profile_states_its_limits_and_nothing_else, context_tokens,
    contributions_resolve_when_limits_are_declared_and_nothing_is_disputed, is_from_the_host,
    is_profile_of, is_settled, max_input_tokens, max_output_tokens,
    what_a_host_states_is_on_its_authority,
};
use super::{
    CatalogSource, ComponentRef, FieldConfidence, FieldProvenance, ModelCatalog, ModelLimits,
    ModelProfileError, ModelProfileErrorKind, ModelRecord, ModelRecordView, ProfileField,
    ResolvedModelProfile,
};
use crate::provider::{Capabilities, ModelId};

verus! {

/// Merging contributions that are in the order of their rank gives a profile only if there
/// are any and the limits are declared and not in dispute; and the profile holds what the
/// strongest layers state.
pub proof fn merging_takes_what_the_strongest_layers_state(
    provider: &str,
    model: ModelId,
    contributions: Vec<Contribution>,
    unranked: Seq<ContributionView>,
    r: Result<ResolvedModelProfile, ModelProfileError>,
)
    requires
        contributions.deep_view() == ranked(unranked),
        call_ensures(merge, (provider, &model, &contributions), r),
    ensures
        r matches Ok(profile) ==> {
            &&& is_profile_of(profile@, provider@, unranked)
            &&& unranked.len() > 0
            &&& is_settled(unranked, context_tokens())
            &&& is_settled(unranked, max_input_tokens())
            &&& is_settled(unranked, max_output_tokens())
        },
        r matches Err(e) ==> {
            &&& e@.model == model@
            &&& e@.kind == ModelProfileErrorKind::UnknownModel <==> unranked.len() == 0
        },
{
    a_profile_holds_what_the_strongest_layers_state(provider@, model@, unranked);
    contributions_resolve_when_limits_are_declared_and_nothing_is_disputed(
        provider@,
        model@,
        unranked,
    );
}

/// A catalog resolves a model that its sources know by that name to what the strongest of
/// their layers state, and fails naming that model.
pub proof fn resolving_takes_what_the_strongest_layers_state(
    catalog: LayeredModelCatalog,
    provider: &str,
    model: ModelId,
    r: Result<ResolvedModelProfile, ModelProfileError>,
)
    requires
        call_ensures(LayeredModelCatalog::resolve, (&catalog, provider, &model), r),
        forall|i: int|
            0 <= i < catalog.contributed(provider@, model@).len() ==> {
                ||| (#[trigger] catalog.contributed(provider@, model@)[i]).record.model is None
                ||| catalog.contributed(provider@, model@)[i].record.model == Some(model@)
            },
    ensures
        r matches Ok(profile) ==> is_profile_of(
            profile@,
            provider@,
            catalog.contributed(provider@, model@),
        ),
        r matches Err(e) ==> {
            &&& e@.model == model@
            &&& e@.kind == ModelProfileErrorKind::UnknownModel <==> catalog.contributed(
                provider@,
                model@,
            ).len() == 0
        },
{
    let contributions = catalog.contributed(provider@, model@);
    a_canonical_request_resolves_by_its_own_contributions(catalog, provider@, model@);
    a_profile_holds_what_the_strongest_layers_state(provider@, model@, contributions);
    contributions_resolve_when_limits_are_declared_and_nothing_is_disputed(
        provider@,
        model@,
        contributions,
    );
}

/// A table finds a model that was added to it under its name and each of its aliases, with
/// that name, and what it found before under any other.
pub proof fn an_added_model_is_found_under_all_its_names(
    table: StaticSource,
    model: &str,
    record: ModelRecord,
    after: StaticSource,
    provider: Seq<char>,
    name: Seq<char>,
)
    requires
        call_ensures(StaticSource::with_model, (table, model, record), after),
    ensures
        ({
            let found = after@.find(provider, name);
            let serves = table@.provider is None || table@.provider == Some(provider);
            let is_named = name == model@ || exists|k: int|
                0 <= k < record@.aliases.len() && #[trigger] record@.aliases[k] == name;
            &&& serves && is_named ==> {
                &&& found is Some
                &&& found->0.model == Some(model@)
                &&& found->0 == ModelRecordView { model: found->0.model, ..record@ }
            }
            &&& !is_named ==> found == table@.find(provider, name)
            &&& !serves ==> found is None
        }),
        after@.name == table@.name,
        after@.layer == table@.layer,
        after@.provider == table@.provider,
{
    a_table_finds_a_model_under_all_its_names(table@, model@, record@, provider, name);
}

/// A table that is made for a layer serves any provider with nothing; one that is restricted
/// to a provider serves no other.
pub proof fn a_restricted_table_serves_one_provider(
    name: &str,
    layer: CatalogSource,
    provider: &str,
    made: StaticSource,
    restricted: StaticSource,
    other: Seq<char>,
    model: Seq<char>,
)
    requires
        call_ensures(StaticSource::new, (name, layer), made),
        call_ensures(StaticSource::for_provider, (made, provider), restricted),
    ensures
        made@.name == name@,
        made@.layer == layer,
        made@.provider is None,
        made@.find(other, model) is None,
        restricted@ == (StaticSourceView { provider: Some(provider@), ..made@ }),
{
}

/// The input budget is the most that fits: within the limit on input, and within the context
/// together with the reserve.
pub proof fn a_budget_fits_the_context(limits: ModelLimits, reserve: u32, r: u32)
    requires
        call_ensures(ModelLimits::input_budget, (&limits, reserve), r),
    ensures
        r <= limits.max_input_tokens,
        reserve <= limits.context_tokens ==> r + reserve <= limits.context_tokens,
        reserve > limits.context_tokens ==> r == 0,
        r == limits.max_input_tokens || r == 0 || r + reserve == limits.context_tokens,
        reserve < limits.context_tokens && limits.max_input_tokens > 0 ==> r > 0,
{
}

/// Limits, capabilities, and components that a record is given are those that it declares; all
/// else that it declares stays.
pub proof fn a_record_declares_what_it_is_given(
    record: ModelRecord,
    limits: ModelLimits,
    given: Capabilities,
    limited: ModelRecord,
    capable: ModelRecord,
)
    requires
        call_ensures(ModelRecord::with_limits, (record, limits), limited),
        call_ensures(ModelRecord::with_capabilities, (record, given), capable),
    ensures
        limited@.context_tokens == Some(limits.context_tokens),
        limited@.max_input_tokens == Some(limits.max_input_tokens),
        limited@.max_output_tokens == Some(limits.max_output_tokens),
        record@ == (ModelRecordView {
            context_tokens: record@.context_tokens,
            max_input_tokens: record@.max_input_tokens,
            max_output_tokens: record@.max_output_tokens,
            ..limited@
        }),
        capable@.capabilities == Some(given@),
        record@ == (ModelRecordView { capabilities: record@.capabilities, ..capable@ }),
{
}

/// A higher rank is a stronger layer: what a host states first, then what a provider adapter
/// is configured with, embedded metadata, a cached remote record, and a refreshed one.
pub proof fn precedence_goes_from_the_host_down(a: CatalogSource, b: CatalogSource, x: u8, y: u8)
    requires
        call_ensures(CatalogSource::precedence, (a,), x),
        call_ensures(CatalogSource::precedence, (b,), y),
    ensures
        x > y <==> super::profiles::place_of_layer(a) < super::profiles::place_of_layer(b),
{
}

/// A provenance of an authority is authoritative, and has neither a revision nor a time before
/// it is given one.
pub proof fn an_authoritative_provenance_is_bare(source: CatalogSource, r: FieldProvenance)
    requires
        call_ensures(FieldProvenance::authoritative, (source,), r),
    ensures
        r@.source == source,
        r@.confidence == FieldConfidence::Authoritative,
        r@.source_revision is None,
        r@.retrieved is None,
{
}

/// An explicit profile holds the limits that a host states on its own authority, and is not fully
/// authoritative, since the rest stands in.
pub proof fn an_explicit_profile_is_not_fully_authoritative(
    provider: &str,
    model: ModelId,
    limits: ModelLimits,
    made: ResolvedModelProfile,
    r: bool,
)
    requires
        call_ensures(ResolvedModelProfile::explicit, (provider, model, limits), made),
        call_ensures(ResolvedModelProfile::is_fully_authoritative, (&made,), r),
    ensures
        !r,
        made@.provider == provider@,
        made@.model == model@,
        made@.limits == limits,
        made@.tokenizer is None,
        made@.request_adapter is None,
        made@.cache_policy is None,
        made@.capabilities.streaming,
        !made@.capabilities.tools,
        made@.provenance_of(ProfileField::ContextTokens) matches Some(p) && p.confidence
            == FieldConfidence::Authoritative && p.source == CatalogSource::Explicit,
{
    an_explicit_profile_states_its_limits_and_nothing_else(provider@, model@, limits);
}

/// Capabilities and components that a host states are those of the profile, on the host's
/// authority; its limits and its names stay.
pub proof fn stating_changes_only_what_is_stated(
    profile: ResolvedModelProfile,
    given: Capabilities,
    component: ComponentRef,
    able: ResolvedModelProfile,
    sized: ResolvedModelProfile,
    adapted: ResolvedModelProfile,
    field: ProfileField,
)
    requires
        profile@.provenance.len() == 9,
        call_ensures(ResolvedModelProfile::with_capabilities, (profile, given), able),
        call_ensures(ResolvedModelProfile::with_tokenizer, (profile, component), sized),
        call_ensures(ResolvedModelProfile::with_request_adapter, (profile, component), adapted),
    ensures
        able@.capabilities == given@,
        sized@.tokenizer == Some(component@),
        adapted@.request_adapter == Some(component@),
        able@.limits == profile@.limits,
        sized@.limits == profile@.limits,
        adapted@.limits == profile@.limits,
        able@.tokenizer == profile@.tokenizer,
        sized@.capabilities == profile@.capabilities,
        adapted@.capabilities == profile@.capabilities,
        able@.model == profile@.model,
        sized@.model == profile@.model,
        adapted@.model == profile@.model,
        is_from_the_host(able@.provenance_of(ProfileField::Capabilities)),
        is_from_the_host(sized@.provenance_of(ProfileField::Tokenizer)),
        is_from_the_host(adapted@.provenance_of(ProfileField::RequestAdapter)),
        field != ProfileField::Capabilities ==> able@.provenance_of(field)
            == profile@.provenance_of(field),
        field != ProfileField::Tokenizer ==> sized@.provenance_of(field)
            == profile@.provenance_of(field),
        field != ProfileField::RequestAdapter ==> adapted@.provenance_of(field)
            == profile@.provenance_of(field),
{
    what_a_host_states_is_on_its_authority(profile@, given@, component@, field);
}

} // verus!
