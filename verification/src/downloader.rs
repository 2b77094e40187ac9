//! The content-addressed artifact store: deterministic artifact, sidecar
//! and staging paths under the models directory, the per-artifact cache
//! state machine, and the two hashing sessions that drive verification
//! and download. All file and network I/O stays with the caller; the
//! sessions take the bytes chunk by chunk and decide what they mean.

use vstd::prelude::*;

use crate::errors::IntegrityError;
use crate::hashing::{hasher_fed, hex_lower, spec_sha256_hex, Sha256Stream};
use crate::sidecar::ArtifactMetadata;

verus! {

/// Where a download stands, as reported to the progress callback.
#[derive(Clone, Copy, Debug, PartialEq, Eq, Structural)]
pub enum DownloadPhase {
    /// The store is about to look at the cache.
    Preparing,
    /// An existing file is being re-hashed against its sidecar.
    VerifyingExisting,
    /// Bytes are being transferred.
    Downloading,
    /// The artifact is in place and verified.
    Finished,
}

/// A point-in-time progress snapshot delivered via callback; `total` is
/// `None` when the remote did not report a content length.
#[derive(Clone, Copy, Debug)]
pub struct DownloadProgress {
    /// The phase the store is in.
    pub phase: DownloadPhase,
    /// Bytes hashed or transferred so far.
    pub downloaded: u64,
    /// The expected total, when known.
    pub total: Option<u64>,
}

/// The cache state of one artifact, keyed by its final filename.
#[derive(Clone, Copy, Debug, PartialEq, Eq, Structural)]
pub enum CacheStatus {
    /// No artifact file on disk.
    Absent,
    /// A file exists but its sidecar is missing, unreadable, or records a
    /// hash other than the file's; never trusted.
    PresentUnverified,
    /// File and sidecar exist and the recorded hash equals the freshly
    /// computed one; the terminal steady state.
    PresentVerified,
}

/// What `resolve` does with the cache state it found.
#[derive(Clone, Copy, Debug, PartialEq, Eq, Structural)]
pub enum ResolveAction {
    /// Return the cached path; no network traffic.
    ServeCached,
    /// Discard whatever is on disk and download from scratch.
    Redownload,
}

/// The recorded sidecar hash matches the artifact bytes.
pub open spec fn sidecar_matches(recorded_sha: Seq<char>, bytes: Seq<u8>) -> bool {
    recorded_sha == spec_sha256_hex(bytes)
}

/// The artifact path for `filename` under `dir`.
pub open spec fn spec_artifact_path(dir: Seq<char>, filename: Seq<char>) -> Seq<char> {
    dir + "/"@ + filename
}

/// The sidecar path for `filename` under `dir`.
pub open spec fn spec_metadata_path(dir: Seq<char>, filename: Seq<char>) -> Seq<char> {
    dir + "/"@ + filename + ".meta.json"@
}

/// The staging path a transfer writes to before the atomic rename.
pub open spec fn spec_temp_path(dir: Seq<char>, filename: Seq<char>) -> Seq<char> {
    dir + "/"@ + filename + ".tmp"@
}

/// The local store for downloaded model artifacts.
#[derive(Clone, Debug)]
pub struct ModelDownloader {
    models_dir: String,
}

impl ModelDownloader {
    /// The directory artifacts are stored under.
    pub closed spec fn dir(&self) -> Seq<char> {
        self.models_dir@
    }

    /// A store rooted at `models_dir`.
    pub fn new(models_dir: String) -> (d: ModelDownloader)
        ensures
            d.dir() == models_dir@,
    {
        ModelDownloader { models_dir }
    }

    /// A second handle on the same store directory.
    pub fn handle(&self) -> (d: ModelDownloader)
        ensures
            d.dir() == self.dir(),
    {
        ModelDownloader { models_dir: self.models_dir.clone() }
    }

    /// The path the artifact `filename` lives at.
    pub fn artifact_path(&self, filename: &str) -> (r: String)
        ensures
            r@ == spec_artifact_path(self.dir(), filename@),
    {
        let mut r = self.models_dir.clone();
        r.append("/");
        r.append(filename);
        r
    }

    /// The path of the sidecar metadata file for `filename`, named
    /// deterministically from the artifact's final filename.
    pub fn metadata_path(&self, filename: &str) -> (r: String)
        ensures
            r@ == spec_metadata_path(self.dir(), filename@),
    {
        let mut r = self.models_dir.clone();
        r.append("/");
        r.append(filename);
        r.append(".meta.json");
        proof {
            assert(r@ =~= spec_metadata_path(self.dir(), filename@));
        }
        r
    }

    /// The staging path a transfer of `filename` writes through.
    pub fn temp_path(&self, filename: &str) -> (r: String)
        ensures
            r@ == spec_temp_path(self.dir(), filename@),
    {
        let mut r = self.models_dir.clone();
        r.append("/");
        r.append(filename);
        r.append(".tmp");
        proof {
            assert(r@ =~= spec_temp_path(self.dir(), filename@));
        }
        r
    }
}

/// The staging path differs from the final artifact path, so a partial
/// transfer is never observable at the final path: the rename after a
/// verified transfer is the only step that populates it.
pub proof fn lemma_temp_path_distinct(dir: Seq<char>, filename: Seq<char>)
    ensures
        spec_temp_path(dir, filename) != spec_artifact_path(dir, filename),
        spec_metadata_path(dir, filename) != spec_artifact_path(dir, filename),
{
    reveal_strlit(".tmp");
    reveal_strlit(".meta.json");
    assert(spec_temp_path(dir, filename).len() == spec_artifact_path(dir, filename).len() + 4);
    assert(spec_metadata_path(dir, filename).len() == spec_artifact_path(dir, filename).len()
        + 10);
}

/// Classify the cache state of one artifact from what is on disk: whether
/// the file exists, whether its sidecar was present and readable, and
/// whether the recorded hash equals the freshly computed one.
pub fn classify_cached(file_exists: bool, sidecar_readable: bool, hash_matches: bool) -> (s:
    CacheStatus)
    ensures
        s is PresentVerified <==> (file_exists && sidecar_readable && hash_matches),
        s is Absent <==> !file_exists,
        s is PresentUnverified <==> (file_exists && !(sidecar_readable && hash_matches)),
{
    if !file_exists {
        CacheStatus::Absent
    } else if sidecar_readable && hash_matches {
        CacheStatus::PresentVerified
    } else {
        CacheStatus::PresentUnverified
    }
}

/// What `resolve` does next: only a verified artifact is served from the
/// cache; a file without a valid sidecar is treated as absent and
/// downloaded from scratch, never silently trusted.
pub fn plan_resolve(status: CacheStatus) -> (a: ResolveAction)
    ensures
        a is ServeCached <==> status is PresentVerified,
        a is Redownload <==> !(status is PresentVerified),
{
    match status {
        CacheStatus::PresentVerified => ResolveAction::ServeCached,
        CacheStatus::Absent => ResolveAction::Redownload,
        CacheStatus::PresentUnverified => ResolveAction::Redownload,
    }
}

/// Serving from the verified cache is idempotent: two successive
/// resolves over an artifact whose disk state stays `PresentVerified`
/// both serve the cached file, and neither plans a transfer.
pub proof fn lemma_verified_cache_idempotent(
    s1: CacheStatus,
    s2: CacheStatus,
    a1: ResolveAction,
    a2: ResolveAction,
)
    requires
        s1 is PresentVerified,
        s2 is PresentVerified,
        a1 is ServeCached <==> s1 is PresentVerified,
        a2 is ServeCached <==> s2 is PresentVerified,
    ensures
        a1 is ServeCached,
        a2 is ServeCached,
        a1 == a2,
{
}

/// The `Preparing` snapshot emitted once, before the cache is examined.
pub fn preparing_progress() -> (p: DownloadProgress)
    ensures
        p.phase is Preparing,
        p.downloaded == 0,
        p.total is None,
{
    DownloadProgress { phase: DownloadPhase::Preparing, downloaded: 0, total: None }
}

/// The `Finished` snapshot for an artifact served from the verified
/// cache, with the file's size as both count and total.
pub fn cached_finished_progress(file_size: u64) -> (p: DownloadProgress)
    ensures
        p.phase is Finished,
        p.downloaded == file_size,
        p.total == Some(file_size),
{
    DownloadProgress {
        phase: DownloadPhase::Finished,
        downloaded: file_size,
        total: Some(file_size),
    }
}

/// One full re-hash of an artifact already on disk, fed chunk by chunk;
/// concluding it decides whether the sidecar's recorded hash matches.
/// There is no mtime or size shortcut: certainty is bought with I/O.
pub struct VerifySession {
    hasher: Sha256Stream,
    processed: u64,
    total: u64,
}

impl VerifySession {
    /// The bytes fed so far.
    pub closed spec fn fed(&self) -> Seq<u8> {
        hasher_fed(self.hasher)
    }

    /// How many bytes were fed so far.
    pub closed spec fn processed_bytes(&self) -> u64 {
        self.processed
    }

    /// The file size the session was opened with.
    pub closed spec fn total_bytes(&self) -> u64 {
        self.total
    }

    /// Open a verification pass over a file of `file_size` bytes; the
    /// returned snapshot announces the pass before any byte is read.
    pub fn begin(file_size: u64) -> (r: (VerifySession, DownloadProgress))
        ensures
            r.0.fed() == Seq::<u8>::empty(),
            r.0.processed_bytes() == 0,
            r.0.total_bytes() == file_size,
            r.1.phase is VerifyingExisting,
            r.1.downloaded == 0,
            r.1.total == Some(file_size),
    {
        let session = VerifySession { hasher: Sha256Stream::new(), processed: 0, total: file_size };
        let progress = DownloadProgress {
            phase: DownloadPhase::VerifyingExisting,
            downloaded: 0,
            total: Some(file_size),
        };
        (session, progress)
    }

    /// Feed the next chunk of the file; the returned snapshot reports the
    /// bytes hashed so far.
    pub fn feed(&mut self, chunk: &[u8]) -> (p: DownloadProgress)
        requires
            old(self).processed_bytes() + chunk@.len() <= u64::MAX,
        ensures
            final(self).fed() == old(self).fed() + chunk@,
            final(self).processed_bytes() == old(self).processed_bytes() + chunk@.len(),
            final(self).total_bytes() == old(self).total_bytes(),
            p.phase is VerifyingExisting,
            p.downloaded == final(self).processed_bytes(),
            p.total == Some(final(self).total_bytes()),
    {
        self.hasher.update(chunk);
        self.processed = self.processed + chunk.len() as u64;
        DownloadProgress {
            phase: DownloadPhase::VerifyingExisting,
            downloaded: self.processed,
            total: Some(self.total),
        }
    }

    /// Whether the sidecar's recorded hash equals the hash of everything
    /// fed: true exactly when the artifact may be trusted.
    pub fn conclude(self, recorded: &ArtifactMetadata) -> (ok: bool)
        ensures
            ok == sidecar_matches(recorded.sha256@, self.fed()),
    {
        let digest = self.hasher.finalize();
        let computed = hex_lower(&digest);
        recorded.sha256 == computed
    }
}

/// What a completed, integrity-checked transfer hands back.
#[derive(Debug)]
pub struct TransferOutcome {
    /// Lowercase hex SHA-256 of the transferred bytes.
    pub sha256_hex: String,
    /// How many bytes were transferred.
    pub bytes: u64,
    /// The `Finished` snapshot to emit.
    pub finished: DownloadProgress,
}

impl TransferOutcome {
    /// The sidecar record to persist beside the renamed artifact.
    pub fn sidecar(&self, etag: Option<String>) -> (m: ArtifactMetadata)
        ensures
            m.sha256@ == self.sha256_hex@,
            m.etag.deep_view() == etag.deep_view(),
    {
        ArtifactMetadata { sha256: self.sha256_hex.clone(), etag }
    }
}

/// One streaming transfer into the staging file, fed chunk by chunk with
/// a running hash; finishing it is the integrity gate that decides
/// whether the staged bytes may be renamed into place.
pub struct TransferSession {
    hasher: Sha256Stream,
    downloaded: u64,
    total: Option<u64>,
}

impl TransferSession {
    /// The bytes fed so far.
    pub closed spec fn fed(&self) -> Seq<u8> {
        hasher_fed(self.hasher)
    }

    /// How many bytes were fed so far.
    pub closed spec fn downloaded_bytes(&self) -> u64 {
        self.downloaded
    }

    /// The content length the remote declared, if any.
    pub closed spec fn total_hint(&self) -> Option<u64> {
        self.total
    }

    /// Open a transfer; `total` is the remote's declared content length
    /// when it reported one. The returned snapshot announces the
    /// transfer before any byte arrives.
    pub fn begin(total: Option<u64>) -> (r: (TransferSession, DownloadProgress))
        ensures
            r.0.fed() == Seq::<u8>::empty(),
            r.0.downloaded_bytes() == 0,
            r.0.total_hint() == total,
            r.1.phase is Downloading,
            r.1.downloaded == 0,
            r.1.total == total,
    {
        let session = TransferSession { hasher: Sha256Stream::new(), downloaded: 0, total };
        let progress = DownloadProgress { phase: DownloadPhase::Downloading, downloaded: 0, total };
        (session, progress)
    }

    /// Feed the next transferred chunk; the returned snapshot reports the
    /// bytes received so far.
    pub fn feed(&mut self, chunk: &[u8]) -> (p: DownloadProgress)
        requires
            old(self).downloaded_bytes() + chunk@.len() <= u64::MAX,
        ensures
            final(self).fed() == old(self).fed() + chunk@,
            final(self).downloaded_bytes() == old(self).downloaded_bytes() + chunk@.len(),
            final(self).total_hint() == old(self).total_hint(),
            p.phase is Downloading,
            p.downloaded == final(self).downloaded_bytes(),
            p.total == final(self).total_hint(),
    {
        self.hasher.update(chunk);
        self.downloaded = self.downloaded + chunk.len() as u64;
        DownloadProgress {
            phase: DownloadPhase::Downloading,
            downloaded: self.downloaded,
            total: self.total,
        }
    }

    /// The integrity gate: compare the running hash against the hash the
    /// remote declared, if it declared one. Agreement is a correctness
    /// gate, not best effort — on mismatch the transfer fails and the
    /// staged file must be deleted; only on success may the staged file
    /// be renamed to the final path and the sidecar written.
    pub fn finish(self, expected: Option<&String>) -> (r: Result<TransferOutcome, IntegrityError>)
        ensures
            match r {
                Ok(o) => {
                    &&& match expected {
                        Some(e) => e@ == spec_sha256_hex(self.fed()),
                        None => true,
                    }
                    &&& o.sha256_hex@ == spec_sha256_hex(self.fed())
                    &&& o.sha256_hex@.len() == 64
                    &&& o.bytes == self.downloaded_bytes()
                    &&& o.finished.phase is Finished
                    &&& o.finished.downloaded == self.downloaded_bytes()
                    &&& o.finished.total == match self.total_hint() {
                        Some(t) => Some(t),
                        None => Some(self.downloaded_bytes()),
                    }
                },
                Err(IntegrityError::HashMismatch { expected: e, computed: c }) => {
                    &&& expected matches Some(x) && e@ == x@ && x@ != spec_sha256_hex(self.fed())
                    &&& c@ == spec_sha256_hex(self.fed())
                    &&& c@.len() == 64
                },
            },
    {
        let downloaded = self.downloaded;
        let total = self.total;
        let digest = self.hasher.finalize();
        let computed = hex_lower(&digest);
        match expected {
            Some(e) => {
                if !(*e == computed) {
                    return Err(
                        IntegrityError::HashMismatch { expected: e.clone(), computed },
                    );
                }
            },
            None => {},
        }
        let final_total = match total {
            Some(t) => Some(t),
            None => Some(downloaded),
        };
        Ok(
            TransferOutcome {
                sha256_hex: computed,
                bytes: downloaded,
                finished: DownloadProgress {
                    phase: DownloadPhase::Finished,
                    downloaded,
                    total: final_total,
                },
            },
        )
    }
}

/// A corrupt cache entry recovers through one re-download: the sidecar a
/// finished transfer writes records exactly the hash of the transferred
/// bytes, so the next verification pass over those bytes succeeds and
/// the artifact ends `PresentVerified`.
pub proof fn lemma_redownload_ends_verified(bytes: Seq<u8>, recorded_sha: Seq<char>)
    requires
        recorded_sha == spec_sha256_hex(bytes),
    ensures
        sidecar_matches(recorded_sha, bytes),
{
}

} // verus!
