//! Structured runtime errors.

use agent_runtime_core::error::{ErrorKind, RuntimeError};
use agent_runtime_core::json::Json;
use agent_runtime_core::metadata::Metadata;

#[test]
fn retryable_flag_and_display() {
    let e = RuntimeError::tool("boom").retryable();
    assert!(e.is_retryable());
    assert_eq!(e.kind, ErrorKind::Tool);
    assert!(e.to_text().contains("boom"));
}

#[test]
fn errors_carry_their_kind_and_metadata() {
    let e = RuntimeError::config("bad");
    assert!(!e.is_retryable());
    assert_eq!(e.to_text(), "Config: bad");
    let e = e.with_metadata(Metadata::new().with("file", "a.toml"));
    assert_eq!(e.metadata.get("file"), Some("a.toml"));
    assert_eq!(e.metadata.get("line"), None);
    for (error, kind) in [
        (RuntimeError::approval("x"), ErrorKind::Approval),
        (RuntimeError::workspace("x"), ErrorKind::Workspace),
        (RuntimeError::cancelled("x"), ErrorKind::Cancelled),
        (RuntimeError::limit("x"), ErrorKind::Limit),
        (RuntimeError::not_found("x"), ErrorKind::NotFound),
        (RuntimeError::conflict("x"), ErrorKind::Conflict),
        (RuntimeError::internal("x"), ErrorKind::Internal),
    ] {
        assert_eq!(error.kind, kind);
        assert_eq!(error.message, "x");
    }
}

#[test]
fn malformed_json_is_a_serialization_error() {
    let error = Json::parse("{").unwrap_err();
    assert_eq!(error.kind, ErrorKind::Serialization);
    assert_eq!(error.message, "EOF while parsing an object at line 1 column 1");

    let parsed: Result<u64, serde_json::Error> = serde_json::from_str("x");
    let error = RuntimeError::from(parsed.unwrap_err());
    assert_eq!(error.kind, ErrorKind::Serialization);
    assert_eq!(error.message, "expected value at line 1 column 1");
}
