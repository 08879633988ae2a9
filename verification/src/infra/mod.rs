//! What the executor has from outside: name resolution, TLS, decompression.

pub mod decompressor;
pub mod dns;
pub mod tls;

pub use decompressor::{decompress_body, Decompressor, MultiDecompressor};
pub use dns::{DnsResult, HickoryDnsResolver};
pub use tls::RustlsTlsProvider;
