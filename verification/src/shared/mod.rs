//! Utilities shared by the parts of the request executor.

pub mod cert_parser;
pub mod status_text;
pub mod text;
pub mod timing;

pub use status_text::status_text;
pub use timing::DetailedTiming;
