//! The error taxonomy of a provisioning run.

use vstd::prelude::*;

verus! {

/// Why a provisioning run aborted.  Every error ends the whole run; nothing
/// is retried and no partial success is reported.
#[derive(Clone, Copy, Debug, PartialEq, Eq, Structural)]
pub enum Error {
    /// Network or transport failure, or a non-success HTTP status.
    RemoteUnavailable,
    /// The store reports no such object.
    NotFound,
    /// The store's response could not be decoded into the expected shape.
    MalformedResponse,
    /// Vendor selection found nothing installable for this host.
    NoCandidates,
    /// A local filesystem read, write or rename failed.
    IoError,
    /// The host architecture/OS pair resolves to no known object name.
    UnsupportedTarget,
}

/// The text that `Error::message` returns for each variant.
pub open spec fn spec_message(e: Error) -> Seq<char> {
    match e {
        Error::RemoteUnavailable => "remote object store unavailable"@,
        Error::NotFound => "remote object not found"@,
        Error::MalformedResponse => "malformed object store response"@,
        Error::NoCandidates => "no vendor candidate for this host"@,
        Error::IoError => "filesystem operation failed"@,
        Error::UnsupportedTarget => "unsupported architecture or os"@,
    }
}

impl Error {
    /// A short description for logs and terminal output.
    pub fn message(&self) -> (r: &'static str)
        ensures
            r@ == spec_message(*self),
    {
        match self {
            Error::RemoteUnavailable => "remote object store unavailable",
            Error::NotFound => "remote object not found",
            Error::MalformedResponse => "malformed object store response",
            Error::NoCandidates => "no vendor candidate for this host",
            Error::IoError => "filesystem operation failed",
            Error::UnsupportedTarget => "unsupported architecture or os",
        }
    }
}

} // verus!
