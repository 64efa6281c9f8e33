//! Artifact references, bounded reads, and cross-session transfers.

use std::collections::BTreeMap;

use agent_runtime_core::artifact::{
    ArtifactChunk, ArtifactDigest, ArtifactError, ArtifactId, ArtifactLineage, ArtifactProvenance,
    ArtifactRead, ArtifactRef, ArtifactRetention, ArtifactSensitivity, ArtifactTransfer,
    ArtifactWrite, TransferProgress, MAX_ARTIFACT_ID_CHARS, MAX_ARTIFACT_READ_BYTES,
    MAX_ARTIFACT_TRANSFER_BYTES,
};
use agent_runtime_core::ids::{SessionId, ToolCallId, TurnId};

#[derive(Default)]
struct MemoryStore {
    values: BTreeMap<ArtifactId, (ArtifactRef, Vec<u8>)>,
}

impl MemoryStore {
    fn put(&mut self, write: ArtifactWrite) -> Result<ArtifactRef, ArtifactError> {
        let id = ArtifactId::new(&format!(
            "{}-{}",
            write.provenance.session.as_str(),
            write.idempotency_key
        ))?;
        let reference = ArtifactRef {
            id: id.clone(),
            digest: ArtifactDigest::new("sha256", &format!("{:064x}", write.bytes.len()))?,
            media_type: write.media_type.clone(),
            byte_length: write.bytes.len() as u64,
            sensitivity: write.sensitivity,
            retention: write.retention,
            provenance: write.provenance.clone(),
        };
        match self.values.get(&id) {
            Some((existing, bytes)) if existing == &reference && bytes == &write.bytes => {
                Ok(existing.clone())
            }
            Some(_) => Err(ArtifactError::Integrity {
                detail: "idempotency key was reused for different content".into(),
            }),
            None => {
                self.values.insert(id, (reference.clone(), write.bytes.clone()));
                Ok(reference)
            }
        }
    }

    fn read(&self, read: ArtifactRead) -> Result<ArtifactChunk, ArtifactError> {
        read.validate()?;
        let (reference, bytes) = self.values.get(&read.id).ok_or(ArtifactError::NotFound)?;
        if reference.provenance.session != read.session {
            return Err(ArtifactError::AccessDenied);
        }
        let start = read.offset as usize;
        if start > bytes.len() {
            return Err(ArtifactError::InvalidRange {
                detail: "offset is beyond end-of-file".into(),
            });
        }
        let end = start.saturating_add(read.limit as usize).min(bytes.len());
        Ok(ArtifactChunk {
            reference: reference.clone(),
            bytes: bytes[start..end].to_vec(),
            offset: read.offset,
            next_offset: (end < bytes.len()).then_some(end as u64),
        })
    }

    fn transfer(&mut self, transfer: ArtifactTransfer) -> Result<ArtifactRef, ArtifactError> {
        let mut progress = TransferProgress::start(transfer)?;
        while let Some(read) = progress.next_read() {
            let chunk = self.read(read)?;
            progress = progress.accept_page(chunk)?;
        }
        let (transfer, write) = progress.finish();
        let reference = self.put(write)?;
        transfer.accept_target(reference)
    }
}

fn reference() -> ArtifactRef {
    ArtifactRef {
        id: ArtifactId::new("a-1").unwrap(),
        digest: ArtifactDigest::new("sha256", "00ff").unwrap(),
        media_type: "text/plain".into(),
        byte_length: 10,
        sensitivity: ArtifactSensitivity::Sensitive,
        retention: ArtifactRetention::Session,
        provenance: ArtifactProvenance::new(SessionId::new("s-1"), "tool-output"),
    }
}

#[test]
fn read_bounds_are_explicit() {
    let mut read = ArtifactRead {
        session: SessionId::new("s-1"),
        id: reference().id,
        offset: 0,
        limit: MAX_ARTIFACT_READ_BYTES,
    };
    read.validate().unwrap();
    read.limit += 1;
    assert!(matches!(
        read.validate(),
        Err(ArtifactError::InvalidRange { .. })
    ));
}

#[test]
fn pagination_metadata_must_match_the_requested_page() {
    let read = ArtifactRead {
        session: SessionId::new("s-1"),
        id: reference().id,
        offset: 0,
        limit: 4,
    };
    ArtifactChunk {
        reference: reference(),
        bytes: b"abcd".to_vec(),
        offset: 0,
        next_offset: Some(4),
    }
    .validate_for(&read)
    .unwrap();
    assert!(ArtifactChunk {
        reference: reference(),
        bytes: b"abcd".to_vec(),
        offset: 1,
        next_offset: Some(5),
    }
    .validate_for(&read)
    .is_err());
}

#[test]
fn reconstructed_references_revalidate_all_bounded_identity_fields() {
    let mut malformed_id = reference();
    malformed_id.id = ArtifactId::restored("");
    assert!(matches!(
        malformed_id.validate(),
        Err(ArtifactError::InvalidReference { .. })
    ));

    let mut malformed_digest = reference();
    malformed_digest.digest.algorithm = "SHA-256".into();
    assert!(matches!(
        malformed_digest.validate(),
        Err(ArtifactError::InvalidReference { .. })
    ));

    let mut malformed_provenance = reference();
    malformed_provenance.provenance.purpose.clear();
    assert!(matches!(
        malformed_provenance.validate(),
        Err(ArtifactError::InvalidReference { .. })
    ));

    let mut malformed_lineage = reference();
    malformed_lineage.provenance.derived_from = Some(ArtifactLineage {
        session: SessionId::new("source"),
        id: ArtifactId::restored(""),
        digest: ArtifactDigest {
            algorithm: "sha256".into(),
            hex: "00".into(),
        },
    });
    assert!(matches!(
        malformed_lineage.validate(),
        Err(ArtifactError::InvalidReference { .. })
    ));
}

fn stored(store: &mut MemoryStore, bytes: Vec<u8>) -> ArtifactRef {
    store
        .put(ArtifactWrite {
            bytes,
            media_type: "text/plain".into(),
            sensitivity: ArtifactSensitivity::Sensitive,
            retention: ArtifactRetention::Session,
            provenance: ArtifactProvenance::new(SessionId::new("child-session"), "tool-output"),
            idempotency_key: "source".into(),
        })
        .unwrap()
}

fn transfer_of(source: &ArtifactRef) -> ArtifactTransfer {
    ArtifactTransfer {
        source: source.clone(),
        target_session: SessionId::new("parent-session"),
        purpose: "delegation.child-result".into(),
        idempotency_key: "transfer".into(),
    }
}

#[test]
fn explicit_transfer_changes_owner_and_preserves_source_lineage() {
    let mut store = MemoryStore::default();
    let source = stored(&mut store, b"child result bytes".to_vec());
    let transferred = store.transfer(transfer_of(&source)).unwrap();

    assert_eq!(transferred.provenance.session, SessionId::new("parent-session"));
    assert_eq!(transferred.digest, source.digest);
    assert_eq!(
        transferred
            .provenance
            .derived_from
            .as_ref()
            .map(|lineage| (&lineage.session, &lineage.id)),
        Some((&SessionId::new("child-session"), &source.id))
    );
    assert!(matches!(
        store.read(ArtifactRead {
            session: SessionId::new("parent-session"),
            id: source.id,
            offset: 0,
            limit: 64,
        }),
        Err(ArtifactError::AccessDenied)
    ));
    let page = store
        .read(ArtifactRead {
            session: SessionId::new("parent-session"),
            id: transferred.id,
            offset: 0,
            limit: 64,
        })
        .unwrap();
    assert_eq!(page.bytes, b"child result bytes");
}

#[test]
fn a_transfer_reads_page_by_page() {
    let mut store = MemoryStore::default();
    let bytes: Vec<u8> = (0..150_000u32).map(|i| (i % 251) as u8).collect();
    let source = stored(&mut store, bytes.clone());
    let mut progress = TransferProgress::start(transfer_of(&source)).ok().unwrap();
    let mut reads = Vec::new();
    while let Some(read) = progress.next_read() {
        reads.push((read.offset, read.limit, read.session.as_str().to_owned()));
        let chunk = store.read(read).unwrap();
        progress = progress.accept_page(chunk).ok().unwrap();
    }
    let owner = "child-session".to_owned();
    assert_eq!(
        reads,
        vec![(0, 65_536, owner.clone()), (65_536, 65_536, owner.clone()), (131_072, 18_928, owner)]
    );
    let (_, write) = progress.finish();
    assert!(write.bytes == bytes);
}

#[test]
fn a_page_that_is_not_the_next_one_stops_a_transfer() {
    let mut store = MemoryStore::default();
    let source = stored(&mut store, b"child result bytes".to_vec());
    let start = || TransferProgress::start(transfer_of(&source)).ok().unwrap();
    let page = store.read(start().next_read().unwrap()).unwrap();

    let mut changed = page.clone();
    changed.reference.sensitivity = ArtifactSensitivity::Public;
    assert_eq!(
        start().accept_page(changed).err(),
        Some(ArtifactError::Integrity {
            detail: "artifact transfer source metadata changed while reading".into(),
        })
    );

    let mut empty = page.clone();
    empty.bytes.clear();
    empty.next_offset = Some(0);
    assert_eq!(
        start().accept_page(empty).err(),
        Some(ArtifactError::Integrity {
            detail: "artifact transfer made no progress before end-of-file".into(),
        })
    );

    let mut short = page.clone();
    short.bytes.truncate(3);
    short.next_offset = None;
    assert_eq!(
        start().accept_page(short).err(),
        Some(ArtifactError::Integrity {
            detail: "artifact store ended a page before end-of-file without a next offset".into(),
        })
    );

    let mut skipping = page;
    skipping.bytes.truncate(3);
    skipping.next_offset = Some(4);
    assert_eq!(
        start().accept_page(skipping).err(),
        Some(ArtifactError::Integrity {
            detail: "artifact store returned inconsistent pagination metadata".into(),
        })
    );
}

#[test]
fn a_copy_with_other_metadata_is_refused() {
    let mut store = MemoryStore::default();
    let source = stored(&mut store, b"child result bytes".to_vec());
    let transfer = transfer_of(&source);
    let copy = store.transfer(transfer.clone()).unwrap();
    assert_eq!(transfer.accept_target(copy.clone()), Ok(copy.clone()));

    let mut elsewhere = copy;
    elsewhere.provenance.session = SessionId::new("third-session");
    assert_eq!(
        transfer.accept_target(elsewhere),
        Err(ArtifactError::Integrity {
            detail: "artifact transfer destination metadata does not match the source".into(),
        })
    );
}

#[test]
fn transfers_are_bounded_and_cross_sessions() {
    let valid = transfer_of(&reference());
    assert_eq!(valid.validate(), Ok(()));

    let mut same_session = valid.clone();
    same_session.target_session = SessionId::new("s-1");
    assert!(matches!(same_session.validate(), Err(ArtifactError::InvalidReference { .. })));

    let mut no_purpose = valid.clone();
    no_purpose.purpose.clear();
    assert!(matches!(no_purpose.validate(), Err(ArtifactError::InvalidReference { .. })));

    let mut long_key = valid.clone();
    long_key.idempotency_key = "é".repeat(129);
    assert!(matches!(long_key.validate(), Err(ArtifactError::InvalidReference { .. })));
    long_key.idempotency_key = "é".repeat(128);
    assert_eq!(long_key.validate(), Ok(()));

    let mut too_large = valid.clone();
    too_large.source.byte_length = MAX_ARTIFACT_TRANSFER_BYTES;
    assert_eq!(too_large.validate(), Ok(()));
    too_large.source.byte_length += 1;
    let error = too_large.validate().unwrap_err();
    assert_eq!(
        error.to_text(),
        "invalid artifact range: artifact transfer exceeds the 8388608-byte standard bound"
    );
}

#[test]
fn ids_and_purposes_are_bounded() {
    assert!(ArtifactId::new("").is_err());
    assert!(ArtifactId::new(&"x".repeat(MAX_ARTIFACT_ID_CHARS)).is_ok());
    assert!(ArtifactId::new(&"x".repeat(MAX_ARTIFACT_ID_CHARS + 1)).is_err());
    assert!(ArtifactDigest::new("sha256", "00FF").is_err());
    assert!(ArtifactDigest::new("sha-256", "00ff").is_err());

    let provenance = ArtifactProvenance::new(SessionId::new("s"), &"é".repeat(100))
        .with_turn(TurnId::new("t"))
        .with_call(ToolCallId::new("c"));
    assert_eq!(provenance.purpose, "é".repeat(96));
    assert_eq!(provenance.turn, Some(TurnId::new("t")));
    assert_eq!(provenance.call, Some(ToolCallId::new("c")));
}

#[test]
fn artifact_failures_read_as_text() {
    assert_eq!(ArtifactError::AccessDenied.to_text(), "artifact access denied");
    assert_eq!(ArtifactError::NotFound.to_text(), "artifact not found");
    assert_eq!(
        ArtifactError::Unavailable { detail: "x".into() }.to_text(),
        "artifact store unavailable: x"
    );
    assert_eq!(
        ArtifactError::InvalidReference { detail: "x".into() }.to_text(),
        "invalid artifact reference: x"
    );
    assert_eq!(
        ArtifactError::Integrity { detail: "x".into() }.to_text(),
        "artifact integrity failure: x"
    );
}
