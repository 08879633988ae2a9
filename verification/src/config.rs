//! The configuration of the server.

use vstd::prelude::*;

verus! {

/// The port on which the server listens where none is configured.
pub const DEFAULT_PORT: u16 = 3000;

/// The configuration of the server.
#[derive(Debug)]
pub struct Config {
    pub port: u16,
    pub frontend_path: Option<String>,
}

impl Config {
    /// The configuration made of what the environment holds: the port that
    /// it names, else the default one, and the path of the frontend.
    pub fn from_values(port: Option<u16>, frontend_path: Option<String>) -> (config: Self)
        ensures
            config.port == match port {
                Some(p) => p,
                None => DEFAULT_PORT,
            },
            config.frontend_path == frontend_path,
    {
        Config {
            port: match port {
                Some(p) => p,
                None => DEFAULT_PORT,
            },
            frontend_path,
        }
    }
}

} // verus!
