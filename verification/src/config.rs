//! Configuration of the transport that carries the requests.

use std::time::Duration;
use vstd::prelude::*;

verus! {

/// The duration of `secs` whole seconds: the value of `Duration::from_secs(secs)`.
pub uninterp spec fn duration_of_secs(secs: u64) -> Duration;

/// std's `Duration::from_secs` gives the duration of that many whole
/// seconds, the same for the same number.
pub assume_specification[ Duration::from_secs ](secs: u64) -> (duration: Duration)
    ensures
        duration == duration_of_secs(secs),
;

/// std's `Clone` for `Duration` copies the duration.
pub assume_specification[ <Duration as Clone>::clone ](duration: &Duration) -> (copy: Duration)
    ensures
        copy == *duration,
;

/// The number of seconds after which a request is given up by default.
pub const DEFAULT_TIMEOUT_SECS: u64 = 10;

/// How the transport is to behave. A configuration is made once and read
/// from then on.
#[derive(Debug, Clone)]
pub struct ClientConfig {
    /// The time allowed for a whole request.
    pub timeout: Duration,
    /// Whether TLS certificates are validated.
    pub ssl_verify: bool,
    /// Whether redirects are followed.
    pub follow_redirects: bool,
}

impl Default for ClientConfig {
    /// Ten seconds, certificates validated, redirects followed.
    fn default() -> (config: ClientConfig)
        ensures
            config.timeout == duration_of_secs(DEFAULT_TIMEOUT_SECS),
            config.ssl_verify,
            config.follow_redirects,
    {
        ClientConfig {
            timeout: Duration::from_secs(DEFAULT_TIMEOUT_SECS),
            ssl_verify: true,
            follow_redirects: true,
        }
    }
}

} // verus!
