//! The error taxonomy of the download engine.
use vstd::prelude::*;

verus! {

/// Why a single transfer attempt, or a path computation, failed.
///
/// `NetworkError`, `IoError` and `HashMismatch` are transient: the
/// orchestrator retries them until the attempt ceiling is reached.
/// `MalformedHash` marks bad manifest data and is surfaced immediately,
/// never retried.
#[derive(Clone, Copy, Debug, PartialEq, Eq, Structural)]
pub enum DownloadError {
    /// The transport connection or the body read failed.
    NetworkError,
    /// Creating the parent directories or writing the file failed.
    IoError,
    /// The written file's digest does not match the expected hash.
    HashMismatch,
    /// An asset hash too short to address a destination path.
    MalformedHash,
}

} // verus!
