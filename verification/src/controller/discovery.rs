use vstd::prelude::*;

verus! {

/// The default time a discovery process waits for devices, in
/// milliseconds.
pub const DEFAULT_TIMEOUT_MILLIS: u64 = 2000;

/// The configuration of a process that discovers devices in a network.
#[derive(Debug)]
pub struct Discovery {
    /// The domain of the devices to discover.
    pub domain: String,
    /// The time to wait for devices, in milliseconds.
    pub timeout_millis: u64,
}

impl Discovery {
    /// Creates a [`Discovery`] for the devices of `domain`.
    pub fn new(domain: &str) -> (r: Self)
        ensures
            r.domain@ == domain@,
            r.timeout_millis == DEFAULT_TIMEOUT_MILLIS,
    {
        Discovery { domain: String::from_str(domain), timeout_millis: DEFAULT_TIMEOUT_MILLIS }
    }

    /// Sets the time to wait for devices, in milliseconds.
    pub fn timeout(self, timeout_millis: u64) -> (r: Self)
        ensures
            r.domain == self.domain,
            r.timeout_millis == timeout_millis,
    {
        Discovery { domain: self.domain, timeout_millis }
    }
}

}
