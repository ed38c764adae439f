//! The settings that a deployment is started with.

use vstd::prelude::*;

verus! {

/// Where the server listens and, if the orders are to outlive the process,
/// where they are kept.
#[derive(Debug, Clone)]
pub struct Config {
    pub server_port: String,
    pub database_url: Option<String>,
}

/// The port that is used where none is given.
pub open spec fn default_port() -> Seq<char> {
    "3000"@
}

impl Config {
    /// The settings for the values that the environment gives: the port, or
    /// the default port where none is given, and the database URL as it is.
    pub fn from_vars(
        server_port: Option<String>,
        database_url: Option<String>,
    ) -> (config: Config)
        ensures
            server_port matches Some(port) ==> config.server_port@ == port@,
            server_port is None ==> config.server_port@ == default_port(),
            config.database_url == database_url,
    {
        let server_port = match server_port {
            Some(port) => port,
            None => "3000".to_owned(),
        };
        Config { server_port, database_url }
    }
}

} // verus!
