//! The configuration of a client.
use vstd::prelude::*;
use std::time::Duration;
use crate::text::{trim_trailing_slashes, trimmed_slashes};

verus! {

/// What `Duration::from_secs` returns for a number of seconds.
pub uninterp spec fn duration_from_secs(secs: u64) -> Duration;

/// Relies on Duration::from_secs.
#[verifier::external_body]
fn seconds(secs: u64) -> (r: Duration)
    ensures
        r == duration_from_secs(secs),
{
    Duration::from_secs(secs)
}

/// Relies on Duration's Clone, which copies it: Duration is Copy.
pub assume_specification[ <Duration as Clone>::clone ](d: &Duration) -> (r: Duration)
    ensures
        r == *d,
;

/// The configuration of a client.
#[derive(Clone, Debug)]
pub struct Config {
    /// The base URL of the service.
    pub base_url: String,
    /// The key sent as bearer token.
    pub api_key: String,
    /// The time that each call may take; zero for no limit.
    pub timeout: Duration,
}

impl Default for Config {
    fn default() -> (r: Self)
        ensures
            r.base_url@ == "https://api.dify.ai"@,
            r.api_key@ == "API_KEY"@,
            r.timeout == duration_from_secs(30),
    {
        Config {
            base_url: String::from_str("https://api.dify.ai"),
            api_key: String::from_str("API_KEY"),
            timeout: seconds(30),
        }
    }
}

impl Config {
    /// A configuration with the given base URL and key, and the default timeout.
    pub fn with_key(base_url: &str, api_key: &str) -> (r: Config)
        ensures
            r.base_url@ == base_url@,
            r.api_key@ == api_key@,
            r.timeout == duration_from_secs(30),
    {
        Config {
            base_url: String::from_str(base_url),
            api_key: String::from_str(api_key),
            timeout: seconds(30),
        }
    }

    /// The configuration with the slashes at the end of its base URL removed.
    pub fn normalized(self) -> (r: Config)
        ensures
            r.base_url@ == trimmed_slashes(self.base_url@),
            r.api_key == self.api_key,
            r.timeout == self.timeout,
    {
        let base_url = trim_trailing_slashes(self.base_url.as_str());
        Config { base_url, api_key: self.api_key, timeout: self.timeout }
    }

    /// The value of the authorization header: `Bearer ` and the key.
    pub fn bearer_auth(&self) -> (r: String)
        ensures
            r@ == "Bearer "@ + self.api_key@,
    {
        String::from_str("Bearer ").concat(self.api_key.as_str())
    }
}

} // verus!
