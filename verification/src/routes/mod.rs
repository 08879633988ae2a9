//! What the routes decide before and after the executor runs.

pub mod proxy;
pub mod static_files;
