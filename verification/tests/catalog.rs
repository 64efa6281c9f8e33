//! Layered model resolution.

use std::sync::Arc;

use agent_runtime_core::catalog::layered::{ExplicitSource, LayeredModelCatalog, StaticSource};
use agent_runtime_core::catalog::{
    CatalogSource, ComponentRef, FieldConfidence, FieldProvenance, Modality, ModelCatalog,
    ModelCatalogSource, ModelLimits, ModelProfileError, ModelProfileErrorKind, ModelRecord,
    ProfileField, ResolvedModelProfile,
};
use agent_runtime_core::clock::Timestamp;
use agent_runtime_core::provider::{Capabilities, ModelId};
use agent_runtime_core::security::{RegistryId, RegistryRevision};

fn limits_record(context: u32, input: u32, output: u32) -> ModelRecord {
    ModelRecord::new().with_limits(ModelLimits::new(context, input, output))
}

fn embedded(record: ModelRecord) -> Arc<dyn ModelCatalogSource> {
    Arc::new(StaticSource::new("embedded", CatalogSource::Embedded).with_model("m", record))
}

#[test]
fn explicit_outranks_every_other_layer() {
    assert!(CatalogSource::Explicit.precedence() > CatalogSource::ProviderLocal.precedence());
    assert!(CatalogSource::ProviderLocal.precedence() > CatalogSource::Embedded.precedence());
    assert!(CatalogSource::Embedded.precedence() > CatalogSource::CachedRemote.precedence());
    assert!(CatalogSource::CachedRemote.precedence() > CatalogSource::RemoteRefresh.precedence());
}

#[test]
fn input_budget_holds_back_the_output_reserve() {
    let limits = ModelLimits::new(1000, 900, 200);
    assert_eq!(limits.input_budget(200), 800);
    // The declared input limit still wins when it is the tighter bound.
    assert_eq!(limits.input_budget(50), 900);
    // A reserve larger than the window saturates to zero rather than wrapping.
    assert_eq!(limits.input_budget(5000), 0);
}

#[test]
fn error_display_names_the_model_and_reason() {
    let err = ModelProfileError::new(
        ModelProfileErrorKind::MissingLimits,
        ModelId::new("custom"),
        "no source declared safe limits",
    )
    .for_field(ProfileField::ContextTokens);
    assert_eq!(err.field, Some(ProfileField::ContextTokens));
    assert!(err.to_text().contains("missing_limits"));
    assert!(err.to_text().contains("custom"));
    assert_eq!(
        err.to_text(),
        "missing_limits for model `custom`: no source declared safe limits"
    );
}

#[test]
fn unknown_model_fails_rather_than_guessing_a_window() {
    let catalog = LayeredModelCatalog::new();
    let err = catalog.resolve("p", &ModelId::new("custom")).unwrap_err();
    assert_eq!(err.kind, ModelProfileErrorKind::UnknownModel);
}

#[test]
fn a_known_model_without_limits_fails_closed() {
    let catalog = LayeredModelCatalog::new().with_source(embedded(
        ModelRecord::new().with_capabilities(Capabilities::basic_streaming()),
    ));
    let err = catalog.resolve("p", &ModelId::new("m")).unwrap_err();
    assert_eq!(err.kind, ModelProfileErrorKind::MissingLimits);
    assert_eq!(err.field, Some(ProfileField::ContextTokens));
    assert_eq!(
        err.message,
        "no source declares `context_tokens`; supply an explicit model profile before planning"
    );
}

#[test]
fn provider_local_limit_beats_generic_metadata_and_both_stay_traceable() {
    let catalog = LayeredModelCatalog::new()
        .with_source(embedded(
            limits_record(200_000, 200_000, 8_000).with_revision("embedded-1"),
        ))
        .with_source(Arc::new(
            StaticSource::new("provider", CatalogSource::ProviderLocal)
                .with_model("m", limits_record(32_000, 30_000, 4_000)),
        ));

    let profile = catalog.resolve("p", &ModelId::new("m")).unwrap();
    assert_eq!(profile.limits.context_tokens, 32_000);
    assert_eq!(
        profile.provenance_of(ProfileField::ContextTokens).unwrap().source,
        CatalogSource::ProviderLocal
    );
}

#[test]
fn an_explicit_override_wins_over_cached_remote_data() {
    let catalog = LayeredModelCatalog::new()
        .with_source(Arc::new(
            StaticSource::new("cache", CatalogSource::CachedRemote)
                .with_model("m", limits_record(100_000, 100_000, 16_000)),
        ))
        .with_source(Arc::new(
            ExplicitSource::new().with_model("m", limits_record(100_000, 100_000, 2_000)),
        ));

    let profile = catalog.resolve("p", &ModelId::new("m")).unwrap();
    assert_eq!(profile.limits.max_output_tokens, 2_000);
    assert_eq!(
        profile.provenance_of(ProfileField::MaxOutputTokens).unwrap().source,
        CatalogSource::Explicit
    );
    assert_eq!(profile.limits.context_tokens, 100_000);
}

#[test]
fn same_layer_disagreement_fails_instead_of_resolving_by_order() {
    let catalog = LayeredModelCatalog::new()
        .with_source(Arc::new(
            StaticSource::new("a", CatalogSource::Embedded)
                .with_model("m", limits_record(1000, 900, 100)),
        ))
        .with_source(Arc::new(
            StaticSource::new("b", CatalogSource::Embedded)
                .with_model("m", limits_record(2000, 900, 100)),
        ));

    let err = catalog.resolve("p", &ModelId::new("m")).unwrap_err();
    assert_eq!(err.kind, ModelProfileErrorKind::SourceConflict);
    assert_eq!(err.field, Some(ProfileField::ContextTokens));
    assert_eq!(
        err.message,
        "sources `a` and `b` disagree about `context_tokens` at equal precedence `embedded`"
    );
}

#[test]
fn same_layer_agreement_is_not_a_conflict() {
    let catalog = LayeredModelCatalog::new()
        .with_source(Arc::new(
            StaticSource::new("a", CatalogSource::Embedded)
                .with_model("m", limits_record(1000, 900, 100)),
        ))
        .with_source(Arc::new(
            StaticSource::new("b", CatalogSource::Embedded)
                .with_model("m", limits_record(1000, 900, 100)),
        ));

    assert!(catalog.resolve("p", &ModelId::new("m")).is_ok());
    assert_eq!(catalog.len(), 2);
    assert!(!catalog.is_empty());
    assert!(LayeredModelCatalog::default().is_empty());
}

#[test]
fn an_alias_resolves_to_the_canonical_profile() {
    let record = limits_record(1000, 900, 100).with_alias("m-latest");
    let catalog = LayeredModelCatalog::new().with_source(Arc::new(
        StaticSource::new("embedded", CatalogSource::Embedded).with_model("m", record),
    ));

    let canonical = catalog.resolve("p", &ModelId::new("m")).unwrap();
    let aliased = catalog.resolve("p", &ModelId::new("m-latest")).unwrap();
    assert_eq!(canonical.limits, aliased.limits);
    assert_eq!(aliased.aliases, ["m-latest"]);
}

#[test]
fn a_provider_scoped_source_does_not_answer_for_another_provider() {
    let catalog = LayeredModelCatalog::new().with_source(Arc::new(
        StaticSource::new("provider", CatalogSource::ProviderLocal)
            .for_provider("openai")
            .with_model("m", limits_record(1000, 900, 100)),
    ));

    assert!(catalog.resolve("openai", &ModelId::new("m")).is_ok());
    assert_eq!(
        catalog.resolve("other", &ModelId::new("m")).unwrap_err().kind,
        ModelProfileErrorKind::UnknownModel
    );
}

#[test]
fn undeclared_capabilities_are_marked_fallback_not_authoritative() {
    let catalog = LayeredModelCatalog::new().with_source(embedded(limits_record(1000, 900, 100)));
    let profile = catalog.resolve("p", &ModelId::new("m")).unwrap();
    assert_eq!(
        profile.provenance_of(ProfileField::Capabilities).unwrap().confidence,
        FieldConfidence::Fallback
    );
    assert!(!profile.is_fully_authoritative());
    assert_eq!(profile.input_modalities, [Modality::Text]);
}

#[test]
fn an_alias_resolves_to_the_same_profile_over_several_sources() {
    let record = limits_record(1000, 900, 100).with_alias("m-latest").with_alias("m-1");
    let single = LayeredModelCatalog::new().with_source(embedded(record.clone()));
    let catalog = single.clone().with_source(Arc::new(ExplicitSource::new().with_model(
        "m",
        limits_record(2000, 1900, 100).with_revision("host"),
    )));
    for catalog in [&single, &catalog] {
        let canonical = catalog.resolve("p", &ModelId::new("m")).unwrap();
        assert_eq!(canonical.model, ModelId::new("m"));
        assert_eq!(canonical.aliases, ["m-1", "m-latest"]);
        for alias in ["m-latest", "m-1"] {
            let aliased = catalog.resolve("p", &ModelId::new(alias)).unwrap();
            assert_eq!(aliased, canonical);
            assert_eq!(aliased.fingerprint(), canonical.fingerprint());
        }
    }
    // The override of the model is an override of its aliases.
    let aliased = catalog.resolve("p", &ModelId::new("m-latest")).unwrap();
    assert_eq!(aliased.limits, ModelLimits::new(2000, 1900, 100));
    // A failure is the same, too, and names the requested model.
    let bare = LayeredModelCatalog::new()
        .with_source(embedded(ModelRecord::new().with_alias("m-latest")));
    let failure = bare.resolve("p", &ModelId::new("m")).unwrap_err();
    let mut err = bare.resolve("p", &ModelId::new("m-latest")).unwrap_err();
    assert_eq!(err.kind, ModelProfileErrorKind::MissingLimits);
    assert_eq!(err.field, Some(ProfileField::ContextTokens));
    assert_eq!(err.model, ModelId::new("m-latest"));
    assert_eq!(failure.model, ModelId::new("m"));
    err.model = ModelId::new("m");
    assert_eq!(err, failure);
    let err = bare.resolve("p", &ModelId::new("other")).unwrap_err();
    assert_eq!(err.kind, ModelProfileErrorKind::UnknownModel);
    assert_eq!(err.model, ModelId::new("other"));
}

#[test]
fn a_name_that_sources_disagree_about_stands_for_itself() {
    // One table has the name as an alias of `m`, another one as an alias of `n`.
    let table = |name: &str, model: &str, context: u32| -> Arc<dyn ModelCatalogSource> {
        let record = limits_record(context, 900, 100).with_alias("latest");
        Arc::new(StaticSource::new(name, CatalogSource::Embedded).with_model(model, record))
    };
    let latest = ModelId::new("latest");
    let catalog = LayeredModelCatalog::new()
        .with_source(table("a", "m", 1000))
        .with_source(table("b", "n", 1000));
    assert_eq!(catalog.resolve("p", &latest).unwrap().model, latest);
    assert_eq!(catalog.resolve("p", &ModelId::new("n")).unwrap().model, ModelId::new("n"));
    let catalog = LayeredModelCatalog::new()
        .with_source(table("a", "m", 1000))
        .with_source(table("b", "n", 2000));
    let err = catalog.resolve("p", &latest).unwrap_err();
    assert_eq!(err.kind, ModelProfileErrorKind::SourceConflict);
    assert_eq!(err.field, Some(ProfileField::ContextTokens));
    assert_eq!(err.model, latest);
}

#[test]
fn sources_of_one_layer_and_name_resolve_alike_in_any_order() {
    let a = embedded(limits_record(1000, 900, 100).with_revision("r1"));
    let b = embedded(limits_record(1000, 900, 100).with_revision("r2"));
    let forward = LayeredModelCatalog::new().with_source(a.clone()).with_source(b.clone());
    let backward = LayeredModelCatalog::new().with_source(b).with_source(a.clone());
    let profile = forward.resolve("p", &ModelId::new("m")).unwrap();
    assert_eq!(profile, backward.resolve("p", &ModelId::new("m")).unwrap());
    let from = profile.provenance_of(ProfileField::ContextTokens).unwrap();
    assert_eq!(from.source_revision.as_deref(), Some("r1"));

    // The earlier retrieval is scanned first under one revision.
    let mut early = limits_record(1000, 900, 100).with_revision("r1");
    early.retrieved = Some(Timestamp(5));
    let mut late = limits_record(1000, 900, 100).with_revision("r1");
    late.retrieved = Some(Timestamp(7));
    let (early, late) = (embedded(early), embedded(late));
    let forward = LayeredModelCatalog::new().with_source(early.clone()).with_source(late.clone());
    let backward = LayeredModelCatalog::new().with_source(late).with_source(early);
    let profile = backward.resolve("p", &ModelId::new("m")).unwrap();
    assert_eq!(forward.resolve("p", &ModelId::new("m")).unwrap(), profile);
    let from = profile.provenance_of(ProfileField::MaxInputTokens).unwrap();
    assert_eq!(from.retrieved, Some(Timestamp(5)));

    // Disagreement fails alike.
    let other = embedded(limits_record(1000, 800, 100));
    let forward = LayeredModelCatalog::new().with_source(a.clone()).with_source(other.clone());
    let backward = LayeredModelCatalog::new().with_source(other).with_source(a);
    let err = forward.resolve("p", &ModelId::new("m")).unwrap_err();
    assert_eq!(err.kind, ModelProfileErrorKind::SourceConflict);
    assert_eq!(err.field, Some(ProfileField::MaxInputTokens));
    assert_eq!(backward.resolve("p", &ModelId::new("m")).unwrap_err(), err);
}

#[test]
fn registration_order_does_not_change_resolution() {
    let high = Arc::new(
        StaticSource::new("provider", CatalogSource::ProviderLocal)
            .with_model("m", limits_record(32_000, 30_000, 4_000)),
    ) as Arc<dyn ModelCatalogSource>;
    let low = embedded(limits_record(200_000, 200_000, 8_000));

    let a = LayeredModelCatalog::new()
        .with_source(high.clone())
        .with_source(low.clone())
        .resolve("p", &ModelId::new("m"))
        .unwrap();
    let b = LayeredModelCatalog::new()
        .with_source(low)
        .with_source(high)
        .resolve("p", &ModelId::new("m"))
        .unwrap();

    assert_eq!(a, b);
    assert_eq!(a.fingerprint(), b.fingerprint());
}

fn component(name: &str) -> ComponentRef {
    ComponentRef::new(RegistryId::new("component", name), RegistryRevision::new("r1"))
}

#[test]
fn every_declared_field_is_taken_from_its_own_winner() {
    let mut low = limits_record(1000, 900, 100)
        .with_tokenizer(component("tok"))
        .with_cache_policy(component("cache"))
        .with_revision("low-1")
        .with_alias("z")
        .with_alias("a");
    low.input_modalities = Some(vec![Modality::Text, Modality::Image]);
    low.retrieved = Some(Timestamp(7));
    let high = ModelRecord::new()
        .with_capabilities(Capabilities::basic_streaming())
        .with_request_adapter(component("adapter"))
        .with_alias("a");
    let catalog = LayeredModelCatalog::new()
        .with_source(embedded(low))
        .with_source(Arc::new(ExplicitSource::default().with_model("m", high)));
    let profile = catalog.clone().resolve("p", &ModelId::new("m")).unwrap();

    assert_eq!(profile.limits, ModelLimits::new(1000, 900, 100));
    assert_eq!(profile.aliases, ["a", "z"]);
    assert_eq!(profile.input_modalities, [Modality::Text, Modality::Image]);
    assert_eq!(profile.output_modalities, [Modality::Text]);
    assert_eq!(profile.tokenizer, Some(component("tok")));
    assert_eq!(profile.request_adapter, Some(component("adapter")));
    assert_eq!(profile.cache_policy, Some(component("cache")));
    assert_eq!(
        profile.provenance_of(ProfileField::Tokenizer),
        Some(
            &FieldProvenance::authoritative(CatalogSource::Embedded)
                .with_revision("low-1")
                .with_retrieved(Timestamp(7))
        )
    );
    assert_eq!(
        profile.provenance_of(ProfileField::OutputModalities),
        Some(
            &FieldProvenance::authoritative(CatalogSource::Explicit)
                .with_confidence(FieldConfidence::Fallback)
        )
    );
}

#[test]
fn a_lower_layer_may_disagree() {
    let catalog = LayeredModelCatalog::new()
        .with_source(embedded(limits_record(1000, 900, 100)))
        .with_source(Arc::new(
            StaticSource::new("cache", CatalogSource::CachedRemote)
                .with_model("m", limits_record(5, 4, 3)),
        ));
    let profile = catalog.resolve("p", &ModelId::new("m")).unwrap();
    assert_eq!(profile.limits, ModelLimits::new(1000, 900, 100));
}

#[test]
fn an_explicit_profile_states_its_limits_only() {
    let profile = ResolvedModelProfile::explicit(
        "p",
        ModelId::new("m"),
        ModelLimits::new(1000, 900, 100),
    );
    assert!(!profile.is_fully_authoritative());
    assert_eq!(profile.provenance_of(ProfileField::Tokenizer), None);
    assert_eq!(
        profile.provenance_of(ProfileField::Capabilities).unwrap().confidence,
        FieldConfidence::Fallback
    );
    let stated = profile
        .clone()
        .with_capabilities(Capabilities::basic_streaming())
        .with_tokenizer(component("tok"))
        .with_request_adapter(component("adapter"));
    assert_eq!(
        stated.provenance_of(ProfileField::Capabilities).unwrap().confidence,
        FieldConfidence::Authoritative
    );
    assert!(stated.provenance_of(ProfileField::RequestAdapter).is_some());
    assert_ne!(stated.fingerprint(), profile.fingerprint());
    let mut renamed = profile.clone();
    renamed.aliases.push("x".into());
    assert_eq!(renamed.fingerprint(), profile.fingerprint());
    assert_eq!(Modality::Document.as_str(), "document");
    assert_eq!(CatalogSource::CachedRemote.as_str(), "cached_remote");
    assert_eq!(ProfileField::CachePolicy.as_str(), "cache_policy");
    assert_eq!(ModelProfileErrorKind::InvalidRecord.as_str(), "invalid_record");
}
