//! Process configuration, constructed once at startup and passed by
//! reference into every component that needs it.

use vstd::prelude::*;

verus! {

/// Connection settings for the language-model gateway and the HTTP server.
#[derive(Debug, Clone)]
pub struct Config {
    pub mistral_api_key: String,
    pub mistral_api_url: String,
    pub server_port: u16,
}

/// The gateway URL used when none is configured.
pub open spec fn default_api_url() -> Seq<char> {
    "https://api.mistral.ai/v1"@
}

/// The server port used when none is configured.
pub open spec fn default_port() -> u16 {
    3000
}

impl Config {
    /// Builds a configuration from whatever settings the environment supplied,
    /// filling each absent optional with its documented default.
    pub fn from_parts(api_key: String, api_url: Option<String>, port: Option<u16>) -> (c: Config)
        ensures
            c.mistral_api_key == api_key,
            match api_url {
                Some(u) => c.mistral_api_url == u,
                None => c.mistral_api_url@ == default_api_url(),
            },
            match port {
                Some(p) => c.server_port == p,
                None => c.server_port == default_port(),
            },
    {
        let url = match api_url {
            Some(u) => u,
            None => String::from_str("https://api.mistral.ai/v1"),
        };
        let p = match port {
            Some(p) => p,
            None => 3000,
        };
        Config { mistral_api_key: api_key, mistral_api_url: url, server_port: p }
    }
}

} // verus!
