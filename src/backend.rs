//! The two transport backends as the library knows them: their names and
//! what they can report. Performing a transfer is the caller's part.

use vstd::prelude::*;

verus! {

/// The full-featured backend, built on libcurl: first-class SPNEGO, NTLM and
/// proxy authentication, and a timing breakdown of every transfer.
pub struct CurlBackend;

impl CurlBackend {
    pub fn new() -> Self {
        CurlBackend
    }

    /// The backend's name.
    pub fn name(&self) -> (r: &'static str)
        ensures
            r@ == "curl"@,
    {
        "curl"
    }

    /// libcurl measures every phase of a transfer.
    pub fn supports_timing(&self) -> (r: bool)
        ensures
            r,
    {
        true
    }
}

/// The reduced backend, built on reqwest: no NTLM, no proxy negotiate or
/// NTLM, and no timing breakdown.
pub struct ReqwestBackend;

impl ReqwestBackend {
    pub fn new() -> Self {
        ReqwestBackend
    }

    /// The backend's name.
    pub fn name(&self) -> (r: &'static str)
        ensures
            r@ == "reqwest"@,
    {
        "reqwest"
    }

    /// reqwest does not expose the phases of a transfer.
    pub fn supports_timing(&self) -> (r: bool)
        ensures
            !r,
    {
        false
    }
}

} // verus!
