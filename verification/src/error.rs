//! The failure taxonomy shared by every workflow.

use vstd::prelude::*;

verus! {

/// Why a per-package operation stopped.
#[derive(Debug, Clone, Copy, PartialEq, Eq, Structural)]
pub enum PackageError {
    /// The requested name matches no source.
    NotFound,
    /// A declared conflict was declined or could not be removed.
    Conflict,
    /// An external tool exited with a non-zero status.
    SubprocessFailure,
    /// An HTTP transfer failed.
    NetworkFailure,
    /// A remote payload could not be decoded.
    DecodeFailure,
    /// A cache directory could not be created or written.
    FilesystemFailure,
}

impl PackageError {
    /// A short human-readable rendering of the failure.
    pub fn describe(&self) -> (r: &'static str)
        ensures
            *self matches PackageError::NotFound ==> r@ == "Package not found"@,
            *self matches PackageError::Conflict ==> r@ == "Conflict happened"@,
            *self matches PackageError::SubprocessFailure ==> r@ == "Command failed"@,
            *self matches PackageError::NetworkFailure ==> r@ == "Network request failed"@,
            *self matches PackageError::DecodeFailure ==> r@ == "Malformed response"@,
            *self matches PackageError::FilesystemFailure ==> r@ == "Cache directory error"@,
    {
        proof {
            reveal_strlit("Package not found");
            reveal_strlit("Conflict happened");
            reveal_strlit("Command failed");
            reveal_strlit("Network request failed");
            reveal_strlit("Malformed response");
            reveal_strlit("Cache directory error");
        }
        match self {
            PackageError::NotFound => "Package not found",
            PackageError::Conflict => "Conflict happened",
            PackageError::SubprocessFailure => "Command failed",
            PackageError::NetworkFailure => "Network request failed",
            PackageError::DecodeFailure => "Malformed response",
            PackageError::FilesystemFailure => "Cache directory error",
        }
    }
}

} // verus!
