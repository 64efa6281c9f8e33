//! Broker contracts: credentials, egress, and filesystem rights.

use agent_runtime_core::broker::{
    CredentialError, CredentialRef, CredentialSink, EgressAuthorization, EgressDenied,
    EgressRequest, EgressTuple, FilesystemError, FilesystemRight, FilesystemRights, MountName,
};
use agent_runtime_core::collections::{TextMap, TextSet};
use agent_runtime_core::manifest::SegmentSensitivity;

#[derive(Default)]
struct RecordingSink {
    received: Vec<(String, Vec<u8>)>,
}

impl CredentialSink for RecordingSink {
    fn receive(&mut self, field_name: &str, value: &[u8]) {
        self.received.push((field_name.to_owned(), value.to_vec()));
    }
}

fn apply_to(
    reference: &CredentialRef,
    field_name: &str,
    sink: &mut dyn CredentialSink,
) -> Result<(), CredentialError> {
    if reference.as_str() == "missing" {
        return Err(CredentialError::NotFound { reference: reference.clone() });
    }
    sink.receive(field_name, b"bearer material");
    Ok(())
}

#[test]
fn credential_material_only_reaches_the_caller_through_a_sink() {
    let mut sink = RecordingSink::default();
    let outcome = apply_to(&CredentialRef::new("api-key"), "authorization", &mut sink);
    assert_eq!(outcome, Ok(()));
    assert_eq!(sink.received.len(), 1);
    assert_eq!(sink.received[0].0, "authorization");
}

#[test]
fn credential_resolution_failure_carries_only_the_reference() {
    let mut sink = RecordingSink::default();
    let err = apply_to(&CredentialRef::new("missing"), "authorization", &mut sink).unwrap_err();
    assert_eq!(
        err,
        CredentialError::NotFound { reference: CredentialRef::new("missing") }
    );
    assert!(sink.received.is_empty());
}

fn tuple(path: &str) -> EgressTuple {
    EgressTuple {
        scheme: "https".into(),
        host: "api.example.test".into(),
        port: 443,
        method: "GET".into(),
        path: path.into(),
    }
}

fn request(path: &str) -> EgressRequest {
    EgressRequest {
        tuple: tuple(path),
        headers: TextMap::new(),
        query_keys: TextSet::new(),
        content_type: None,
        body_bytes: None,
        credential: None,
        payload_sensitivity: SegmentSensitivity::Public,
    }
}

fn authorize(request: &EgressRequest) -> Result<EgressAuthorization, EgressDenied> {
    if request.tuple.path == "/v1/jobs" {
        Ok(EgressAuthorization::new(request.tuple.clone()))
    } else {
        Err(EgressDenied)
    }
}

#[test]
fn allowlist_miss_and_protected_address_denial_are_the_same_guest_visible_type() {
    let unlisted = authorize(&request("/v1/other")).unwrap_err();
    let also_denied = authorize(&request("/v1/elsewhere")).unwrap_err();
    assert_eq!(unlisted, also_denied);
    assert_eq!(unlisted, EgressDenied);
}

#[test]
fn egress_denied_and_filesystem_error_carry_no_discriminating_data() {
    assert_eq!(std::mem::size_of::<EgressDenied>(), 0);
    assert_eq!(std::mem::size_of::<FilesystemError>(), 0);
}

#[test]
fn redirects_are_disabled_until_they_are_enabled() {
    let authorized = authorize(&request("/v1/jobs")).unwrap();
    assert!(!authorized.redirects_enabled());
    assert_eq!(authorized.max_redirect_hops(), 0);
    assert_eq!(authorized.tuple(), &tuple("/v1/jobs"));
    let enabled = authorized.with_redirects_enabled(3);
    assert!(enabled.redirects_enabled());
    assert_eq!(enabled.max_redirect_hops(), 3);
    assert_eq!(enabled.tuple(), &tuple("/v1/jobs"));
}

#[test]
fn rights_are_held_one_by_one() {
    let all = [
        FilesystemRight::Read,
        FilesystemRight::Write,
        FilesystemRight::Create,
        FilesystemRight::Delete,
        FilesystemRight::Rename,
        FilesystemRight::Link,
        FilesystemRight::SymlinkCreate,
        FilesystemRight::Readdir,
        FilesystemRight::Truncate,
    ];
    for granted in all {
        let rights = FilesystemRights::single(granted);
        for right in all {
            assert_eq!(rights.contains(right), right == granted);
        }
        assert!(!FilesystemRights::none().contains(granted));
        assert!(!FilesystemRights::default().contains(granted));
    }
    let rights = FilesystemRights::from_list(vec![FilesystemRight::Read, FilesystemRight::Write]);
    assert_eq!(
        rights,
        FilesystemRights::single(FilesystemRight::Write).with(FilesystemRight::Read)
    );
    assert!(!rights.contains(FilesystemRight::SymlinkCreate));
    assert_eq!(MountName::new("workspace").as_str(), "workspace");
}
