//! Event envelopes and timeline lifecycle metadata.

use agent_runtime_core::clock::Timestamp;
use agent_runtime_core::collections::TextMap;
use agent_runtime_core::event::lcm::{
    validate_lcm_child_ids, validate_lcm_opaque_id, validate_lcm_optional_id, LcmLifecycleKind,
    LcmLifecycleMetadata, LcmLifecycleMetadataError, LcmLifecycleReason,
    MAX_LCM_LIFECYCLE_CHILD_IDS, MAX_LCM_LIFECYCLE_ID_CHARS,
};
use agent_runtime_core::event::{
    canonical_payloads, EstimationConfidence, EventEnvelope, EventEnvelopeError, RuntimeEvent,
    SCHEMA_VERSION,
};
use agent_runtime_core::fingerprint::Fingerprint;
use agent_runtime_core::ids::{AttemptId, EventId, RequestId, SessionId};
use agent_runtime_core::manifest::{ActivatedCapability, SegmentSensitivity};
use agent_runtime_core::metadata::Metadata;
use agent_runtime_core::provider::ModelId;
use agent_runtime_core::security::{RegistryId, RegistryRevision, TrustClass};

#[test]
fn envelope_carries_schema_version() {
    let env = EventEnvelope::new(
        0,
        EventId::new("e0"),
        SessionId::new("s"),
        None,
        Timestamp::zero(),
        RuntimeEvent::SessionStarted,
    );
    assert_eq!(env.schema_version, SCHEMA_VERSION);
    assert_eq!(SCHEMA_VERSION, 15);
    assert!(matches!(env.payload, RuntimeEvent::SessionStarted));
}

#[test]
fn canonical_ignores_presentation_metadata() {
    let base = EventEnvelope::new(
        1,
        EventId::new("e1"),
        SessionId::new("s"),
        None,
        Timestamp::zero(),
        RuntimeEvent::TextDelta {
            request: RequestId::new("r1"),
            attempt: AttemptId::new("a1"),
            text: "hi".into(),
        },
    );
    let decorated = base.clone().with_metadata(Metadata::new().with("color", "blue"));
    assert!(base != decorated);
    assert!(canonical_payloads(&vec![base]) == canonical_payloads(&vec![decorated]));
}

fn full_metadata() -> LcmLifecycleMetadata {
    LcmLifecycleMetadata {
        timeline_id: Some("timeline-1".into()),
        operation_id: Some("operation-1".into()),
        operation_fingerprint: Some(Fingerprint::of("operation")),
        node_id: Some("node-1".into()),
        dag_revision: Some(4),
        covered_start: Some(10),
        covered_end: Some(19),
        covered_count: Some(10),
        child_count: Some(2),
        child_ids: vec!["child-1".into(), "child-2".into()],
        expanded_count: None,
        expansion_cursor: None,
        soft_threshold_tokens: Some(8_000),
        hard_threshold_tokens: Some(9_000),
        pressure_percent: Some(86),
        escalation_level: None,
        policy_revision: Some(RegistryRevision::new("policy-1")),
        algorithm_revision: Some(RegistryRevision::new("algorithm-1")),
        model_revision: None,
        sizer_revision: Some(RegistryRevision::new("sizer-1")),
        sensitivity: Some(SegmentSensitivity::Sensitive),
        trust: Some(TrustClass::UserContent),
        guard_revision: Some(RegistryRevision::new("guard-1")),
        source_fingerprint: Some(Fingerprint::of("source")),
        result_fingerprint: Some(Fingerprint::of("result")),
        input_tokens: Some(500),
        output_tokens: Some(120),
        reclaimed_tokens: Some(380),
    }
}

#[test]
fn complete_lifecycle_metadata_is_valid() {
    assert_eq!(full_metadata().validate(), Ok(()));
    let event = RuntimeEvent::LcmLifecycle {
        kind: LcmLifecycleKind::LeafCommit,
        reason: Some(LcmLifecycleReason::Admitted),
        metadata: full_metadata(),
    };
    assert_eq!(event.validate(), Ok(()));
    assert!(event.clone() == event);
}

#[test]
fn lcm_lifecycle_metadata_enforces_opaque_id_and_child_bounds() {
    let metadata = LcmLifecycleMetadata {
        timeline_id: Some("t".repeat(MAX_LCM_LIFECYCLE_ID_CHARS + 1)),
        ..LcmLifecycleMetadata::default()
    };
    assert_eq!(metadata.validate(), Err(LcmLifecycleMetadataError::OpaqueIdTooLong));
    assert!(validate_lcm_optional_id(&metadata.timeline_id).is_err());

    let too_many_children = (0..=MAX_LCM_LIFECYCLE_CHILD_IDS)
        .map(|index| format!("child-{index}"))
        .collect::<Vec<_>>();
    assert!(validate_lcm_child_ids(&too_many_children).is_err());
}

#[test]
fn lcm_lifecycle_metadata_enforces_semantic_ranges_and_cardinality() {
    let mut metadata = LcmLifecycleMetadata {
        pressure_percent: Some(101),
        ..LcmLifecycleMetadata::default()
    };
    assert_eq!(metadata.validate(), Err(LcmLifecycleMetadataError::InvalidPressurePercent));

    metadata.pressure_percent = None;
    metadata.escalation_level = Some(0);
    assert_eq!(metadata.validate(), Err(LcmLifecycleMetadataError::InvalidEscalationLevel));

    metadata.escalation_level = None;
    metadata.covered_start = Some(10);
    metadata.covered_end = Some(9);
    metadata.covered_count = Some(0);
    assert_eq!(metadata.validate(), Err(LcmLifecycleMetadataError::ReversedCoveredRange));

    metadata.covered_end = Some(11);
    metadata.covered_count = Some(1);
    assert_eq!(metadata.validate(), Err(LcmLifecycleMetadataError::CoveredRangeCountMismatch));

    metadata.covered_start = None;
    metadata.covered_end = None;
    metadata.covered_count = None;
    metadata.child_ids = vec!["child-1".into()];
    assert_eq!(metadata.validate(), Err(LcmLifecycleMetadataError::ChildCountMismatch));

    metadata.child_count = Some(1);
    metadata.child_ids.push("child-1".into());
    assert_eq!(metadata.validate(), Err(LcmLifecycleMetadataError::ChildCountMismatch));

    metadata.child_ids = vec!["   ".into()];
    assert_eq!(metadata.validate(), Err(LcmLifecycleMetadataError::EmptyChildId));
}

#[test]
fn event_envelope_rejects_invalid_lcm_metadata_before_observation() {
    let payload = RuntimeEvent::LcmLifecycle {
        kind: LcmLifecycleKind::PressureDecision,
        reason: None,
        metadata: LcmLifecycleMetadata {
            pressure_percent: Some(101),
            ..LcmLifecycleMetadata::default()
        },
    };
    let result = EventEnvelope::try_new(
        0,
        EventId::new("e-invalid"),
        SessionId::new("s"),
        None,
        Timestamp::zero(),
        payload,
    );
    assert!(
        result
            == Err(EventEnvelopeError::InvalidLcmLifecycleMetadata(
                LcmLifecycleMetadataError::InvalidPressurePercent
            ))
    );
}

#[test]
fn lcm_debug_redacts_opaque_ids() {
    let metadata = LcmLifecycleMetadata {
        timeline_id: Some("timeline-secret".into()),
        operation_id: Some("operation-secret".into()),
        node_id: Some("node-secret".into()),
        child_count: Some(1),
        child_ids: vec!["child-secret".into()],
        expansion_cursor: Some("cursor-secret".into()),
        ..LcmLifecycleMetadata::default()
    };
    let debug = metadata.to_debug_text();
    for opaque in [
        "timeline-secret",
        "operation-secret",
        "node-secret",
        "child-secret",
        "cursor-secret",
    ] {
        assert!(!debug.contains(opaque), "opaque id leaked in Debug: {opaque}");
    }
    assert!(debug.contains(Fingerprint::of("timeline-secret").as_str()));
}

#[test]
fn automatic_routing_reports_snapshot_resolution_activation_and_context_planning_in_order() {
    let mut totals = TextMap::new();
    totals.insert("tool_schema", 120);
    totals.insert("history", 300);
    let payloads = [
        RuntimeEvent::RegistrySnapshotSealed { snapshot: Fingerprint::of("snapshot"), entries: 12 },
        RuntimeEvent::ModelProfileResolved {
            provider: "acme".into(),
            model: ModelId::new("acme-large"),
            profile: Fingerprint::of("profile"),
        },
        RuntimeEvent::CapabilitiesActivated {
            epoch: 1,
            activation: vec![
                ActivatedCapability::new(
                    RegistryId::skill("web-research"),
                    RegistryRevision::new("r1"),
                ),
                ActivatedCapability::new(RegistryId::mcp("browser"), RegistryRevision::new("r2")),
            ],
        },
        RuntimeEvent::ContextPlanned {
            context: Fingerprint::of("context"),
            cache_plan: Fingerprint::of("cache"),
            segment_count: 5,
            totals,
            input_tokens: 420,
            input_budget_tokens: 8000,
            reserved_tokens: 512,
            confidence: EstimationConfidence::Estimated,
        },
    ];

    let mut events = Vec::new();
    for (seq, payload) in payloads.into_iter().enumerate() {
        events.push(EventEnvelope::new(
            seq as u64,
            EventId::new(&format!("e{seq}")),
            SessionId::new("s"),
            None,
            Timestamp::zero(),
            payload,
        ));
    }

    let kinds: Vec<&str> = events
        .iter()
        .map(|e| match &e.payload {
            RuntimeEvent::RegistrySnapshotSealed { .. } => "snapshot",
            RuntimeEvent::ModelProfileResolved { .. } => "resolution",
            RuntimeEvent::CapabilitiesActivated { .. } => "activation",
            RuntimeEvent::ContextPlanned { .. } => "context_planning",
            _ => "other",
        })
        .collect();
    assert_eq!(kinds, ["snapshot", "resolution", "activation", "context_planning"]);

    let RuntimeEvent::CapabilitiesActivated { activation, .. } = &events[2].payload else {
        unreachable!()
    };
    assert_eq!(activation[0].id.qualified(), "skill:web-research");
    assert_eq!(activation[1].id.qualified(), "mcp:browser");
    let RuntimeEvent::ContextPlanned { totals, .. } = &events[3].payload else { unreachable!() };
    assert_eq!(totals.get("history"), Some(&300));
}

fn fault_of(metadata: LcmLifecycleMetadata) -> Option<LcmLifecycleMetadataError> {
    metadata.validate().err()
}

#[test]
fn every_lifecycle_fault_is_reported() {
    let blank = LcmLifecycleMetadata { node_id: Some("  ".into()), ..Default::default() };
    assert_eq!(fault_of(blank), Some(LcmLifecycleMetadataError::EmptyOpaqueId));

    let half_range = LcmLifecycleMetadata { covered_start: Some(3), ..Default::default() };
    assert_eq!(fault_of(half_range), Some(LcmLifecycleMetadataError::IncompleteCoveredRange));

    let children = MAX_LCM_LIFECYCLE_CHILD_IDS + 1;
    let crowded = LcmLifecycleMetadata {
        child_count: Some(17),
        child_ids: (0..children).map(|i| format!("child-{i}")).collect(),
        ..Default::default()
    };
    assert_eq!(fault_of(crowded), Some(LcmLifecycleMetadataError::TooManyChildIds));

    let long_child = LcmLifecycleMetadata {
        child_count: Some(1),
        child_ids: vec!["c".repeat(MAX_LCM_LIFECYCLE_ID_CHARS + 1)],
        ..Default::default()
    };
    assert_eq!(fault_of(long_child), Some(LcmLifecycleMetadataError::ChildIdTooLong));

    let repeated = LcmLifecycleMetadata {
        child_count: Some(2),
        child_ids: vec!["child-1".into(), "child-1".into()],
        ..Default::default()
    };
    assert_eq!(fault_of(repeated), Some(LcmLifecycleMetadataError::ChildCountMismatch));

    let blank_label = LcmLifecycleMetadata {
        guard_revision: Some(RegistryRevision::new(" ")),
        ..Default::default()
    };
    assert_eq!(fault_of(blank_label), Some(LcmLifecycleMetadataError::InvalidMetadata));

    let thresholds = LcmLifecycleMetadata {
        soft_threshold_tokens: Some(9),
        hard_threshold_tokens: Some(8),
        ..Default::default()
    };
    assert_eq!(fault_of(thresholds), Some(LcmLifecycleMetadataError::InvalidThresholdOrder));

    assert_eq!(fault_of(LcmLifecycleMetadata::default()), None);
    assert_eq!(validate_lcm_opaque_id("x"), Ok(()));
    assert_eq!(validate_lcm_optional_id(&None), Ok(()));
}

#[test]
fn an_envelope_error_names_the_fault() {
    let fault = LcmLifecycleMetadataError::InvalidPressurePercent;
    assert_eq!(
        EventEnvelopeError::InvalidLcmLifecycleMetadata(fault).to_text(),
        format!("invalid LCM lifecycle metadata: {}", fault.to_text())
    );
}
