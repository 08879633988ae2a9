//! Diagnostic HTTP request execution: the decisions of a request's life,
//! from URL to annotated result, with the I/O left to the caller.

pub mod config;
pub mod error;
pub mod infra;
pub mod proxy;
pub mod routes;
pub mod shared;

pub use config::Config;
pub use infra::{decompress_body, HickoryDnsResolver};
pub use proxy::{execute_request, Execution, HttpProxyService, ProxyRequest, ProxyResponse};
pub use shared::{status_text, DetailedTiming};

use vstd::prelude::*;

verus! {

/// The name under which the backend reports itself where none is set.
pub open spec fn default_backend_name() -> Seq<char> {
    "rust-axum"@
}

/// What an application is to be built with.
pub struct AppBuilder {
    cors: bool,
    static_files: bool,
    backend_name: &'static str,
}

impl AppBuilder {
    /// Whether requests from other origins are let in.
    pub closed spec fn wants_cors(&self) -> bool {
        self.cors
    }

    /// Whether the bundled frontend is served.
    pub closed spec fn wants_static_files(&self) -> bool {
        self.static_files
    }

    /// The name under which the backend reports itself.
    pub closed spec fn name(&self) -> Seq<char> {
        self.backend_name@
    }

    /// A builder with nothing switched on, under the default name.
    pub fn new() -> (builder: Self)
        ensures
            !builder.wants_cors(),
            !builder.wants_static_files(),
            builder.name() == default_backend_name(),
    {
        AppBuilder { cors: false, static_files: false, backend_name: "rust-axum" }
    }

    /// Lets requests from other origins in.
    pub fn with_cors(self) -> (builder: Self)
        ensures
            builder.wants_cors(),
            builder.wants_static_files() == self.wants_static_files(),
            builder.name() == self.name(),
    {
        AppBuilder { cors: true, static_files: self.static_files, backend_name: self.backend_name }
    }

    /// Serves the bundled frontend.
    pub fn with_static_files(self) -> (builder: Self)
        ensures
            builder.wants_static_files(),
            builder.wants_cors() == self.wants_cors(),
            builder.name() == self.name(),
    {
        AppBuilder { cors: self.cors, static_files: true, backend_name: self.backend_name }
    }

    /// Sets the name under which the backend reports itself.
    pub fn with_backend_name(self, name: &'static str) -> (builder: Self)
        ensures
            builder.name() == name@,
            builder.wants_cors() == self.wants_cors(),
            builder.wants_static_files() == self.wants_static_files(),
    {
        AppBuilder { cors: self.cors, static_files: self.static_files, backend_name: name }
    }

    /// Whether requests from other origins are let in.
    pub fn cors(&self) -> (on: bool)
        ensures
            on == self.wants_cors(),
    {
        self.cors
    }

    /// Whether the bundled frontend is served.
    pub fn static_files(&self) -> (on: bool)
        ensures
            on == self.wants_static_files(),
    {
        self.static_files
    }

    /// The name under which the backend reports itself.
    pub fn backend_name(&self) -> (name: &'static str)
        ensures
            name@ == self.name(),
    {
        self.backend_name
    }
}

impl Default for AppBuilder {
    fn default() -> (builder: Self)
        ensures
            !builder.wants_cors(),
            !builder.wants_static_files(),
            builder.name() == default_backend_name(),
    {
        AppBuilder::new()
    }
}

} // verus!
