//! TLS, as far as it has a place here: the handshake itself and the trust
//! in root certificates are the caller's.

use vstd::prelude::*;

verus! {

/// The provider of TLS client configurations that trust the bundled root
/// certificates.
#[derive(Default)]
pub struct RustlsTlsProvider;

impl RustlsTlsProvider {
    /// A provider.
    pub fn new() -> (provider: Self) {
        RustlsTlsProvider
    }
}

} // verus!
