//! Client configuration: base URL, timeout and user agent.

use vstd::prelude::*;

use crate::boundary::{http_scheme, is_http_scheme};
use crate::error::KagiError;
use crate::text::{blank, chars_of, is_blank};
use crate::weburl::ParsedUrl;

verus! {

/// The length of `timeout` in whole nanoseconds, as `Duration::as_nanos`
/// gives it.
pub uninterp spec fn duration_as_nanos(timeout: std::time::Duration) -> u128;

/// `Duration::as_nanos`.
///
/// Trusted: the result is `duration_as_nanos(timeout)`; how a `Duration` is
/// made up is not restated, since vstd keeps the type opaque.
#[verifier::external_body]
fn duration_nanos(timeout: std::time::Duration) -> (r: u128)
    ensures
        r == duration_as_nanos(timeout),
{
    timeout.as_nanos()
}

/// Where requests go, how long they may take and how the client names itself.
#[derive(Clone, Debug)]
pub struct ClientConfig {
    pub base_url: ParsedUrl,
    /// The request timeout in nanoseconds.
    pub timeout_nanos: u128,
    pub user_agent: String,
}

/// Why a configuration is refused, if it is.
pub open spec fn config_problem(c: ClientConfig) -> Option<Seq<char>> {
    if !is_http_scheme(c.base_url@.0) {
        Some("base_url must use http or https"@)
    } else if c.timeout_nanos == 0 {
        Some("timeout must be greater than zero"@)
    } else if is_blank(c.user_agent@) {
        Some("user_agent cannot be empty"@)
    } else {
        None
    }
}

impl Default for ClientConfig {
    /// `https://kagi.com`, twenty seconds, `kagi-sdk-rust/0.1.3`.
    fn default() -> (r: Self)
        ensures
            r.base_url@ == ("https"@, "https://kagi.com/"@),
            r.timeout_nanos == 20_000_000_000,
            r.user_agent@ == "kagi-sdk-rust/0.1.3"@,
    {
        ClientConfig {
            base_url: ParsedUrl::kagi_default(),
            timeout_nanos: 20_000_000_000,
            user_agent: String::from_str("kagi-sdk-rust/0.1.3"),
        }
    }
}

impl ClientConfig {
    pub fn with_base_url(self, base_url: ParsedUrl) -> (r: Self)
        ensures
            r.base_url == base_url,
            r.timeout_nanos == self.timeout_nanos,
            r.user_agent == self.user_agent,
    {
        ClientConfig { base_url, ..self }
    }

    /// The configuration with the timeout set to `timeout`, kept in
    /// nanoseconds.
    pub fn with_timeout(self, timeout: std::time::Duration) -> (r: Self)
        ensures
            r.base_url == self.base_url,
            r.timeout_nanos == duration_as_nanos(timeout),
            r.user_agent == self.user_agent,
    {
        ClientConfig { timeout_nanos: duration_nanos(timeout), ..self }
    }

    pub fn with_timeout_nanos(self, timeout_nanos: u128) -> (r: Self)
        ensures
            r.base_url == self.base_url,
            r.timeout_nanos == timeout_nanos,
            r.user_agent == self.user_agent,
    {
        ClientConfig { timeout_nanos, ..self }
    }

    pub fn with_user_agent(self, user_agent: &str) -> (r: Self)
        ensures
            r.base_url == self.base_url,
            r.timeout_nanos == self.timeout_nanos,
            r.user_agent@ == user_agent@,
    {
        ClientConfig { user_agent: String::from_str(user_agent), ..self }
    }

    /// Refuses a base URL that is not `http`/`https`, a zero timeout and a
    /// blank user agent, in that order.
    pub fn validate(&self) -> (r: Result<(), KagiError>)
        ensures
            match config_problem(*self) {
                None => r is Ok,
                Some(reason) => r matches Err(KagiError::InvalidClientConfiguration { reason: m })
                    && m@ == reason,
            },
    {
        if !http_scheme(self.base_url.scheme()) {
            return Err(
                KagiError::InvalidClientConfiguration {
                    reason: String::from_str("base_url must use http or https"),
                },
            );
        }
        if self.timeout_nanos == 0 {
            return Err(
                KagiError::InvalidClientConfiguration {
                    reason: String::from_str("timeout must be greater than zero"),
                },
            );
        }
        let ua = chars_of(self.user_agent.as_str());
        if blank(ua.as_slice()) {
            return Err(
                KagiError::InvalidClientConfiguration {
                    reason: String::from_str("user_agent cannot be empty"),
                },
            );
        }
        Ok(())
    }
}

} // verus!
