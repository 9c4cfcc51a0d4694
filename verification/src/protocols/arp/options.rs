//! What an address-resolution engine is configured with.

use vstd::prelude::*;

verus! {

/// How long a request waits by default: twenty seconds, in nanoseconds.
pub const DEFAULT_REQUEST_TIMEOUT: u64 = 20_000_000_000;

/// How often a request is repeated by default.
pub const DEFAULT_RETRY_COUNT: u64 = 5;

/// The parameters of a query: how long each request waits for its reply, and
/// how many times an unanswered request is sent again.
#[derive(Clone, Copy, Debug, PartialEq, Eq, Structural)]
pub struct ArpOptions {
    /// The time, in nanoseconds, after which an unanswered request is given
    /// up.
    pub request_timeout: u64,
    /// The number of retransmissions that follow an unanswered request.
    pub retry_count: u64,
}

impl Default for ArpOptions {
    fn default() -> (options: Self)
        ensures
            options == Self::default_options(),
    {
        ArpOptions { request_timeout: DEFAULT_REQUEST_TIMEOUT, retry_count: DEFAULT_RETRY_COUNT }
    }
}

impl ArpOptions {
    /// What `default` gives: twenty seconds for each request, and five
    /// retransmissions.
    pub open spec fn default_options() -> Self {
        ArpOptions { request_timeout: DEFAULT_REQUEST_TIMEOUT, retry_count: DEFAULT_RETRY_COUNT }
    }

    /// The same options, with requests that wait `value` nanoseconds.
    pub fn request_timeout(self, value: u64) -> (options: Self)
        ensures
            options.request_timeout == value,
            options.retry_count == self.retry_count,
    {
        ArpOptions { request_timeout: value, retry_count: self.retry_count }
    }

    /// The same options, with `value` retransmissions.
    pub fn retry_count(self, value: u64) -> (options: Self)
        ensures
            options.request_timeout == self.request_timeout,
            options.retry_count == value,
    {
        ArpOptions { request_timeout: self.request_timeout, retry_count: value }
    }
}

} // verus!
