//! Configuration handed to the dispatcher: the backend's base URL and the
//! API key used for authentication. Both must be non-empty before any
//! operation is attempted.

use vstd::prelude::*;

verus! {

/// The two configuration values every operation needs.
pub struct Config {
    /// Base URL of the backend data API, without a trailing slash.
    pub base_url: String,
    /// API key, sent both as an `apikey` header and as a bearer token.
    pub api_key: String,
}

/// Mathematical image of `Config`.
pub struct ConfigView {
    pub base_url: Seq<char>,
    pub api_key: Seq<char>,
}

impl View for Config {
    type V = ConfigView;

    open spec fn view(&self) -> ConfigView {
        ConfigView { base_url: self.base_url@, api_key: self.api_key@ }
    }
}

/// Both configuration values are present (non-empty); otherwise every
/// request is answered with the configuration-error envelope and no
/// outbound call is made.
pub open spec fn config_complete(c: ConfigView) -> bool {
    c.base_url.len() > 0 && c.api_key.len() > 0
}

impl Config {
    /// Runtime test matching `config_complete`.
    pub fn check_complete(&self) -> (r: bool)
        ensures
            r == config_complete(self@),
    {
        self.base_url.as_str().unicode_len() > 0 && self.api_key.as_str().unicode_len() > 0
    }
}

} // verus!
