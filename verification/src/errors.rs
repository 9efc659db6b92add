//! Error taxonomy of the backend. Validation failures carry their specific
//! reason; anything touching the filesystem or an external process is
//! surfaced to the caller only as a generic, non-leaking message, with the
//! detail kept for the diagnostic logs.

use vstd::prelude::*;

verus! {

/// The kind of a backend failure.
#[derive(Clone, Copy, PartialEq, Eq, Structural, Debug)]
pub enum ErrorKind {
    /// A path resolved outside the sandbox root.
    PathSecurity,
    /// An identifier failed its restricted charset check.
    Validation,
    /// A filesystem create/read/write/canonicalize failure.
    Io,
    /// No binaries directory after the full search, or no matching file.
    NotFound,
    /// The external process could not start.
    ProcessSpawn,
    /// The external process exited with a nonzero code.
    ProcessExit,
}

/// A structured backend failure: a kind plus a human-readable detail.
#[derive(Debug)]
pub struct AppError {
    pub kind: ErrorKind,
    pub detail: String,
}

impl AppError {
    /// Builds a failure of the given kind.
    pub fn new(kind: ErrorKind, detail: String) -> (r: AppError)
        ensures
            r.kind == kind,
            r.detail == detail,
    {
        AppError { kind, detail }
    }

    /// The kind of this failure.
    pub fn kind(&self) -> (k: ErrorKind)
        ensures
            k == self.kind,
    {
        self.kind
    }

    /// The human-readable detail of this failure.
    pub fn message(&self) -> (m: String)
        ensures
            m@ == self.detail@,
    {
        self.detail.clone()
    }
}

} // verus!
