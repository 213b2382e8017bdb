//! TLS settings.

use vstd::prelude::*;

verus! {

/// Source of the root certificates used to verify the server.
#[derive(Clone, Copy, Debug, Eq, PartialEq, Structural)]
#[non_exhaustive]
pub enum RootCertSource {
    /// The operating system's certificate verifier.
    ///
    /// On Linux this loads the system CA bundle (the `ca-certificates`
    /// package on Debian) once at startup; locally installed CAs require an
    /// application restart to be picked up.
    Platform,
    /// No verification at all; accepts any certificate.
    ///
    /// Only use this for testing.
    DangerousDisabled,
}

impl Default for RootCertSource {
    fn default() -> (source: Self)
        ensures
            source == RootCertSource::Platform,
    {
        RootCertSource::Platform
    }
}

} // verus!
