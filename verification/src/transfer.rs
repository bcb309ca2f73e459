//! The transfer unit: one attempt at fetching a URL into a destination
//! path, with optional hash verification of what was written.
//!
//! The unit is a state machine. The caller owns the effects: it performs
//! each returned action (the existence probe, the network request, the
//! directory creation, the file write) and hands the outcome back; the
//! unit decides what follows and classifies every failure. No retries
//! happen here — composing retries is the orchestrator's job.
use vstd::prelude::*;

use crate::errors::DownloadError;
use crate::hashing::{check_file_hash, hex_of, sha1_of};

verus! {

/// Where a transfer attempt stands.
#[derive(Clone, Copy, Debug, PartialEq, Eq, Structural)]
pub enum FetchPhase {
    /// Nothing asked of the caller yet.
    Start,
    /// Waiting to hear whether the destination already exists.
    AwaitExistence,
    /// Waiting for the response body of the network request.
    AwaitBody,
    /// Waiting to hear whether the parent directories could be created.
    AwaitDirs,
    /// Waiting to hear whether the body was written, and what the
    /// destination then holds.
    AwaitWrite,
    /// The attempt is decided.
    Done,
}

/// What the caller is asked to do next.
pub enum FetchAction {
    /// Probe whether the destination path exists.
    CheckExistence,
    /// Issue the network request and read the full body.
    RequestBody,
    /// Create the destination's parent directories.
    CreateDirs,
    /// Write the fetched body to the destination path.
    WriteBody,
    /// Nothing: the attempt ended with this outcome.
    Finished(Result<(), DownloadError>),
}

/// One transfer attempt of a URL into a destination path.
pub struct TransferUnit {
    url: String,
    path: String,
    expected_hash: Option<String>,
    body: Option<Vec<u8>>,
    phase: FetchPhase,
}

impl TransferUnit {
    pub closed spec fn url_model(&self) -> Seq<char> {
        self.url@
    }

    pub closed spec fn path_model(&self) -> Seq<char> {
        self.path@
    }

    pub closed spec fn hash_model(&self) -> Option<Seq<char>> {
        match self.expected_hash {
            Some(h) => Some(h@),
            None => None,
        }
    }

    pub closed spec fn body_model(&self) -> Option<Seq<u8>> {
        match self.body {
            Some(b) => Some(b@),
            None => None,
        }
    }

    pub closed spec fn phase_model(&self) -> FetchPhase {
        self.phase
    }

    pub fn new(url: String, path: String, expected_hash: Option<String>) -> (r: Self)
        ensures
            r.url_model() == url@,
            r.path_model() == path@,
            r.hash_model() == (match expected_hash {
                Some(h) => Some(h@),
                None => None::<Seq<char>>,
            }),
            r.body_model() is None,
            r.phase_model() == FetchPhase::Start,
    {
        TransferUnit { url, path, expected_hash, body: None, phase: FetchPhase::Start }
    }

    pub fn url(&self) -> (r: &str)
        ensures
            r@ == self.url_model(),
    {
        self.url.as_str()
    }

    pub fn path(&self) -> (r: &str)
        ensures
            r@ == self.path_model(),
    {
        self.path.as_str()
    }

    /// The fetched body, once a network response arrived.
    pub fn body(&self) -> (r: &Option<Vec<u8>>)
        ensures
            (r matches Some(b) && self.body_model() == Some(b@)) || (r is None
                && self.body_model() is None),
    {
        &self.body
    }

    pub fn phase(&self) -> (r: FetchPhase)
        ensures
            r == self.phase_model(),
    {
        self.phase
    }

    /// Begins the attempt: the destination is probed first.
    pub fn start(&mut self) -> (a: FetchAction)
        requires
            old(self).phase_model() == FetchPhase::Start,
        ensures
            a == FetchAction::CheckExistence,
            final(self).phase_model() == FetchPhase::AwaitExistence,
            final(self).url_model() == old(self).url_model(),
            final(self).path_model() == old(self).path_model(),
            final(self).hash_model() == old(self).hash_model(),
            final(self).body_model() == old(self).body_model(),
    {
        self.phase = FetchPhase::AwaitExistence;
        FetchAction::CheckExistence
    }

    /// A destination that already exists ends the attempt at once as a
    /// success, without fetching or re-verifying; otherwise the body is
    /// requested.
    pub fn on_existence(&mut self, exists: bool) -> (a: FetchAction)
        requires
            old(self).phase_model() == FetchPhase::AwaitExistence,
        ensures
            exists ==> a == FetchAction::Finished(Ok::<(), DownloadError>(()))
                && final(self).phase_model() == FetchPhase::Done,
            !exists ==> a == FetchAction::RequestBody && final(self).phase_model()
                == FetchPhase::AwaitBody,
            final(self).url_model() == old(self).url_model(),
            final(self).path_model() == old(self).path_model(),
            final(self).hash_model() == old(self).hash_model(),
            final(self).body_model() == old(self).body_model(),
    {
        if exists {
            self.phase = FetchPhase::Done;
            FetchAction::Finished(Ok(()))
        } else {
            self.phase = FetchPhase::AwaitBody;
            FetchAction::RequestBody
        }
    }

    /// The network outcome: a missing body — the request or the body
    /// read failed — is a `NetworkError`; a body is kept for writing and
    /// the parent directories are asked for.
    pub fn on_body(&mut self, body: Option<Vec<u8>>) -> (a: FetchAction)
        requires
            old(self).phase_model() == FetchPhase::AwaitBody,
        ensures
            body is None ==> a == FetchAction::Finished(
                Err::<(), DownloadError>(DownloadError::NetworkError),
            ) && final(self).phase_model() == FetchPhase::Done,
            body matches Some(b) ==> a == FetchAction::CreateDirs && final(self).phase_model()
                == FetchPhase::AwaitDirs && final(self).body_model() == Some(b@),
            final(self).url_model() == old(self).url_model(),
            final(self).path_model() == old(self).path_model(),
            final(self).hash_model() == old(self).hash_model(),
    {
        match body {
            None => {
                self.phase = FetchPhase::Done;
                FetchAction::Finished(Err(DownloadError::NetworkError))
            },
            Some(b) => {
                self.body = Some(b);
                self.phase = FetchPhase::AwaitDirs;
                FetchAction::CreateDirs
            },
        }
    }

    /// The directory outcome: a failed creation is an `IoError`;
    /// otherwise the body is to be written.
    pub fn on_dirs_created(&mut self, ok: bool) -> (a: FetchAction)
        requires
            old(self).phase_model() == FetchPhase::AwaitDirs,
        ensures
            !ok ==> a == FetchAction::Finished(Err::<(), DownloadError>(DownloadError::IoError))
                && final(self).phase_model() == FetchPhase::Done,
            ok ==> a == FetchAction::WriteBody && final(self).phase_model()
                == FetchPhase::AwaitWrite,
            final(self).url_model() == old(self).url_model(),
            final(self).path_model() == old(self).path_model(),
            final(self).hash_model() == old(self).hash_model(),
            final(self).body_model() == old(self).body_model(),
    {
        if ok {
            self.phase = FetchPhase::AwaitWrite;
            FetchAction::WriteBody
        } else {
            self.phase = FetchPhase::Done;
            FetchAction::Finished(Err(DownloadError::IoError))
        }
    }

    /// The write outcome, deciding the attempt. A failed write is an
    /// `IoError`. After a successful write, `contents` is what the
    /// destination now holds, as read back by the caller; it is
    /// consulted only when a hash is expected: the attempt succeeds iff
    /// the destination's digest hex-encodes exactly to it, and fails
    /// with `HashMismatch` otherwise — the file is left on disk for the
    /// caller to clean up.
    pub fn on_written(&mut self, ok: bool, contents: Option<Vec<u8>>) -> (a: FetchAction)
        requires
            old(self).phase_model() == FetchPhase::AwaitWrite,
        ensures
            final(self).phase_model() == FetchPhase::Done,
            !ok ==> a == FetchAction::Finished(Err::<(), DownloadError>(DownloadError::IoError)),
            ok && old(self).hash_model() is None ==> a == FetchAction::Finished(
                Ok::<(), DownloadError>(()),
            ),
            old(self).hash_model() matches Some(h) ==> (ok ==> a == FetchAction::Finished(
                if (contents matches Some(b) && hex_of(sha1_of(b@)) == h) {
                    Ok::<(), DownloadError>(())
                } else {
                    Err::<(), DownloadError>(DownloadError::HashMismatch)
                },
            )),
            final(self).url_model() == old(self).url_model(),
            final(self).path_model() == old(self).path_model(),
            final(self).hash_model() == old(self).hash_model(),
            final(self).body_model() == old(self).body_model(),
    {
        self.phase = FetchPhase::Done;
        if !ok {
            return FetchAction::Finished(Err(DownloadError::IoError));
        }
        match &self.expected_hash {
            None => FetchAction::Finished(Ok(())),
            Some(h) => {
                if check_file_hash(&contents, h.as_str()) {
                    FetchAction::Finished(Ok(()))
                } else {
                    FetchAction::Finished(Err(DownloadError::HashMismatch))
                }
            },
        }
    }
}

} // verus!
