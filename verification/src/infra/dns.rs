//! Name resolution, as far as it is decided here.
//!
//! Addresses are held in their text form. Whether a host is itself an
//! address, and the lookup of one that is not, are the caller's to find
//! out; what follows from either is decided here.

use vstd::prelude::*;
use vstd::string::*;

verus! {

/// The addresses of a host and the time it took to find them.
#[derive(Debug)]
pub struct DnsResult {
    /// The addresses, never none.
    pub ips: Vec<String>,
    /// The time the resolution took, in milliseconds.
    pub duration_ms: u64,
}

/// What a lookup brought: an answer, or the reason why there is none.
#[derive(Debug)]
pub enum Lookup {
    Answer { ips: Vec<String>, duration_ms: u64 },
    Failure { reason: String },
}

/// The resolver of host names.
#[derive(Default)]
pub struct HickoryDnsResolver;

impl HickoryDnsResolver {
    /// A resolver.
    pub fn new() -> (resolver: Self) {
        HickoryDnsResolver
    }

    /// The resolution of a host that is itself an address: exactly that
    /// address, found in no time and without a lookup. A host that is no
    /// address has no such resolution.
    pub fn shortcut(&self, literal: Option<String>) -> (r: Option<DnsResult>)
        ensures
            match literal {
                Some(ip) => r matches Some(found) && found.ips@ == seq![ip] && found.duration_ms
                    == 0,
                None => r is None,
            },
    {
        match literal {
            Some(ip) => {
                let mut ips: Vec<String> = Vec::new();
                ips.push(ip);
                Some(DnsResult { ips, duration_ms: 0 })
            },
            None => None,
        }
    }

    /// The resolution that a lookup amounts to. An answer without addresses
    /// is a failure, as is a lookup that failed.
    pub fn conclude(&self, lookup: Lookup) -> (r: Result<DnsResult, String>)
        ensures
            match lookup {
                Lookup::Answer { ips, duration_ms } => if ips@.len() == 0 {
                    r matches Err(message) && message@ == "DNS lookup returned no addresses"@
                } else {
                    r matches Ok(found) && found.ips == ips && found.duration_ms == duration_ms
                },
                Lookup::Failure { reason } => r matches Err(message) && message@
                    == "DNS lookup failed: "@ + reason@,
            },
    {
        match lookup {
            Lookup::Answer { ips, duration_ms } => {
                if ips.len() == 0 {
                    Err(String::from_str("DNS lookup returned no addresses"))
                } else {
                    Ok(DnsResult { ips, duration_ms })
                }
            },
            Lookup::Failure { reason } => {
                let mut message = String::from_str("DNS lookup failed: ");
                message.append(reason.as_str());
                Err(message)
            },
        }
    }
}

} // verus!
