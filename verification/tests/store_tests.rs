use ghostpad_llm::downloader::{
    cached_finished_progress, classify_cached, plan_resolve, preparing_progress, CacheStatus,
    DownloadPhase, ModelDownloader, ResolveAction, TransferSession, VerifySession,
};
use ghostpad_llm::errors::IntegrityError;
use ghostpad_llm::sidecar::ArtifactMetadata;

const HELLO_WORLD_SHA256: &str =
    "b94d27b9934d3e08a52e52d7da7dabfac484efe37a5380ee9088f7ace2efcde9";

#[test]
fn test_store_paths_are_deterministic() {
    let store = ModelDownloader::new("/data/models".to_string());
    assert_eq!(store.artifact_path("file.gguf"), "/data/models/file.gguf");
    assert_eq!(
        store.metadata_path("file.gguf"),
        "/data/models/file.gguf.meta.json"
    );
    assert_eq!(store.temp_path("file.gguf"), "/data/models/file.gguf.tmp");
}

#[test]
fn test_temp_path_never_equals_final_path() {
    let store = ModelDownloader::new("m".to_string());
    assert_ne!(store.temp_path("a.gguf"), store.artifact_path("a.gguf"));
    assert_ne!(store.metadata_path("a.gguf"), store.artifact_path("a.gguf"));
}

#[test]
fn test_transfer_hash_and_finished_snapshot() {
    let (mut session, start) = TransferSession::begin(Some(11));
    assert_eq!(start.phase, DownloadPhase::Downloading);
    assert_eq!(start.downloaded, 0);
    assert_eq!(start.total, Some(11));

    let after_first = session.feed(b"hello ");
    assert_eq!(after_first.phase, DownloadPhase::Downloading);
    assert_eq!(after_first.downloaded, 6);
    assert_eq!(after_first.total, Some(11));
    let after_second = session.feed(b"world");
    assert_eq!(after_second.downloaded, 11);

    let outcome = session.finish(None).unwrap();
    assert_eq!(outcome.sha256_hex, HELLO_WORLD_SHA256);
    assert_eq!(outcome.bytes, 11);
    assert_eq!(outcome.finished.phase, DownloadPhase::Finished);
    assert_eq!(outcome.finished.downloaded, 11);
    assert_eq!(outcome.finished.total, Some(11));
}

#[test]
fn test_transfer_unknown_total_reports_observed_bytes() {
    let (mut session, start) = TransferSession::begin(None);
    assert_eq!(start.total, None);
    session.feed(b"hello world");
    let outcome = session.finish(None).unwrap();
    assert_eq!(outcome.finished.total, Some(11));
}

#[test]
fn test_transfer_hash_mismatch_is_fatal() {
    let (mut session, _) = TransferSession::begin(Some(11));
    session.feed(b"hello world");
    let expected = "0000000000000000000000000000000000000000000000000000000000000000".to_string();
    let err = session.finish(Some(&expected)).unwrap_err();
    match err {
        IntegrityError::HashMismatch { expected: e, computed: c } => {
            assert_eq!(e, expected);
            assert_eq!(c, HELLO_WORLD_SHA256);
        }
    }
}

#[test]
fn test_transfer_matching_declared_hash_succeeds() {
    let (mut session, _) = TransferSession::begin(Some(11));
    session.feed(b"hello world");
    let expected = HELLO_WORLD_SHA256.to_string();
    let outcome = session.finish(Some(&expected)).unwrap();
    assert_eq!(outcome.sha256_hex, HELLO_WORLD_SHA256);
}

#[test]
fn test_verify_session_accepts_matching_sidecar() {
    let (mut session, start) = VerifySession::begin(11);
    assert_eq!(start.phase, DownloadPhase::VerifyingExisting);
    assert_eq!(start.downloaded, 0);
    assert_eq!(start.total, Some(11));
    let p = session.feed(b"hello world");
    assert_eq!(p.phase, DownloadPhase::VerifyingExisting);
    assert_eq!(p.downloaded, 11);
    let sidecar = ArtifactMetadata {
        sha256: HELLO_WORLD_SHA256.to_string(),
        etag: None,
    };
    assert!(session.conclude(&sidecar));
}

#[test]
fn test_corrupt_cache_recovers_through_redownload() {
    let bytes = b"hello world";

    let (mut stale, _) = VerifySession::begin(bytes.len() as u64);
    stale.feed(bytes);
    let corrupt = ArtifactMetadata {
        sha256: "deadbeef".to_string(),
        etag: None,
    };
    assert!(!stale.conclude(&corrupt));

    let (mut transfer, _) = TransferSession::begin(Some(bytes.len() as u64));
    transfer.feed(bytes);
    let outcome = transfer.finish(None).unwrap();
    let fresh_sidecar = outcome.sidecar(Some("etag-1".to_string()));
    assert_eq!(fresh_sidecar.sha256, HELLO_WORLD_SHA256);
    assert_eq!(fresh_sidecar.etag.as_deref(), Some("etag-1"));

    let (mut recheck, _) = VerifySession::begin(bytes.len() as u64);
    recheck.feed(bytes);
    assert!(recheck.conclude(&fresh_sidecar));
}

#[test]
fn test_cache_classification_and_plan() {
    assert_eq!(classify_cached(false, false, false), CacheStatus::Absent);
    assert_eq!(
        classify_cached(true, false, false),
        CacheStatus::PresentUnverified
    );
    assert_eq!(
        classify_cached(true, true, false),
        CacheStatus::PresentUnverified
    );
    assert_eq!(
        classify_cached(true, true, true),
        CacheStatus::PresentVerified
    );

    assert_eq!(
        plan_resolve(CacheStatus::PresentVerified),
        ResolveAction::ServeCached
    );
    assert_eq!(plan_resolve(CacheStatus::Absent), ResolveAction::Redownload);
    assert_eq!(
        plan_resolve(CacheStatus::PresentUnverified),
        ResolveAction::Redownload
    );
}

#[test]
fn test_verified_cache_served_identically_on_repeat() {
    let first = plan_resolve(classify_cached(true, true, true));
    let second = plan_resolve(classify_cached(true, true, true));
    assert_eq!(first, ResolveAction::ServeCached);
    assert_eq!(second, ResolveAction::ServeCached);
}

#[test]
fn test_progress_snapshots() {
    let p = preparing_progress();
    assert_eq!(p.phase, DownloadPhase::Preparing);
    assert_eq!(p.downloaded, 0);
    assert_eq!(p.total, None);

    let f = cached_finished_progress(42);
    assert_eq!(f.phase, DownloadPhase::Finished);
    assert_eq!(f.downloaded, 42);
    assert_eq!(f.total, Some(42));
}

#[test]
fn test_sidecar_encode_exact() {
    let meta = ArtifactMetadata {
        sha256: "ab12".to_string(),
        etag: Some("xy".to_string()),
    };
    assert_eq!(meta.to_json(), "{\"sha256\":\"ab12\",\"etag\":\"xy\"}");

    let bare = ArtifactMetadata {
        sha256: "ab12".to_string(),
        etag: None,
    };
    assert_eq!(bare.to_json(), "{\"sha256\":\"ab12\",\"etag\":null}");
}

#[test]
fn test_sidecar_round_trip() {
    let meta = ArtifactMetadata {
        sha256: HELLO_WORLD_SHA256.to_string(),
        etag: Some("we\"ird\\etag".to_string()),
    };
    let parsed = ArtifactMetadata::from_json(&meta.to_json()).unwrap();
    assert_eq!(parsed.sha256, meta.sha256);
    assert_eq!(parsed.etag, meta.etag);

    let bare = ArtifactMetadata {
        sha256: "00ff".to_string(),
        etag: None,
    };
    let parsed_bare = ArtifactMetadata::from_json(&bare.to_json()).unwrap();
    assert_eq!(parsed_bare.sha256, "00ff");
    assert_eq!(parsed_bare.etag, None);
}

#[test]
fn test_sidecar_parses_pretty_printed_document() {
    let text = "{\n  \"sha256\": \"ab12\",\n  \"etag\": \"tag\"\n}\n";
    let parsed = ArtifactMetadata::from_json(text).unwrap();
    assert_eq!(parsed.sha256, "ab12");
    assert_eq!(parsed.etag.as_deref(), Some("tag"));
}

#[test]
fn test_sidecar_rejects_malformed_documents() {
    assert!(ArtifactMetadata::from_json("").is_none());
    assert!(ArtifactMetadata::from_json("not json").is_none());
    assert!(ArtifactMetadata::from_json("{\"sha256\":\"ab\"}").is_none());
    assert!(ArtifactMetadata::from_json("{\"sha256\":\"ab\",\"etag\":null} trailing").is_none());
}
