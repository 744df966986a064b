//! The server's settings, and the values they take when none is given.

use vstd::prelude::*;
use vstd::string::StringExecFns;

verus! {

/// What the server needs to know to start.
#[derive(Clone, Debug, PartialEq, Eq)]
pub struct Config {
    pub database_url: String,
    pub server_address: String,
    pub jwt_secret: String,
}

impl Config {
    /// The address the server listens on unless told otherwise.
    pub open spec fn default_server_address() -> Seq<char> {
        "127.0.0.1:8080"@
    }

    /// The token-signing secret used unless another is given.
    pub open spec fn default_jwt_secret() -> Seq<char> {
        "secret"@
    }

    /// The settings for a database at `database_url`. A listening address
    /// or signing secret that is not given takes its default.
    pub fn resolve(
        database_url: String,
        server_address: Option<String>,
        jwt_secret: Option<String>,
    ) -> (config: Config)
        ensures
            config.database_url == database_url,
            config.server_address@ == match server_address {
                Some(address) => address@,
                None => Config::default_server_address(),
            },
            config.jwt_secret@ == match jwt_secret {
                Some(secret) => secret@,
                None => Config::default_jwt_secret(),
            },
    {
        let server_address = match server_address {
            Some(address) => address,
            None => String::from_str("127.0.0.1:8080"),
        };
        let jwt_secret = match jwt_secret {
            Some(secret) => secret,
            None => String::from_str("secret"),
        };
        Config { database_url, server_address, jwt_secret }
    }
}

} // verus!
