//! Configuration of the HTTP transport.

use std::time::Duration;
use vstd::prelude::*;

verus! {

/// The length of a duration in nanoseconds.
pub uninterp spec fn duration_nanos(duration: Duration) -> nat;

/// `Duration::from_secs`: so many seconds.
pub assume_specification[ Duration::from_secs ](secs: u64) -> (r: Duration)
    ensures
        duration_nanos(r) == secs * 1_000_000_000,
;

/// `Duration::from_millis`: so many milliseconds.
pub assume_specification[ Duration::from_millis ](millis: u64) -> (r: Duration)
    ensures
        duration_nanos(r) == millis * 1_000_000,
;

/// Configuration for HTTP transport behavior.
#[derive(Debug)]
pub struct HttpTransportConfig {
    /// Timeout for HTTP requests
    pub request_timeout: Duration,
    /// Custom origin header value
    pub origin: String,
    /// Buffer size for message channels
    pub channel_buffer_size: usize,
}

impl HttpTransportConfig {
    /// The default configuration: 30 seconds, the origin `zed://local` and
    /// room for 1000 messages.
    pub open spec fn is_default(self) -> bool {
        &&& duration_nanos(self.request_timeout) == 30_000_000_000
        &&& self.origin@ == "zed://local"@
        &&& self.channel_buffer_size == 1000
    }
}

impl Clone for HttpTransportConfig {
    fn clone(&self) -> (r: Self)
        ensures
            r == *self,
    {
        HttpTransportConfig {
            request_timeout: self.request_timeout,
            origin: self.origin.clone(),
            channel_buffer_size: self.channel_buffer_size,
        }
    }
}

impl Default for HttpTransportConfig {
    fn default() -> (r: Self)
        ensures
            r.is_default(),
    {
        HttpTransportConfig {
            request_timeout: Duration::from_secs(30),
            origin: "zed://local".to_string(),
            channel_buffer_size: 1000,
        }
    }
}

} // verus!
