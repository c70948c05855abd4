//! Settings for running workers under an async runtime's own scheduler.

use vstd::prelude::*;
use crate::time::{TimeSpan, NANOS_PER_MILLI};

verus! {

/// Builds the settings with which tasks of an async runtime take part in the
/// protocol.
pub struct MorpheusTokioBuilder {
    escapable: bool,
    check_interval_ms: u64,
}

impl MorpheusTokioBuilder {
    /// Whether the workers consent to escalation.
    pub closed spec fn consents(&self) -> bool {
        self.escapable
    }

    /// The interval between two checks for yield requests, in milliseconds.
    pub closed spec fn interval_ms(&self) -> u64 {
        self.check_interval_ms
    }

    /// Starts from the defaults: workers consent to escalation and check
    /// every millisecond.
    pub fn new() -> (builder: MorpheusTokioBuilder)
        ensures
            builder.consents(),
            builder.interval_ms() == 1,
    {
        MorpheusTokioBuilder { escapable: true, check_interval_ms: 1 }
    }

    /// Sets whether the workers consent to escalation.
    pub fn escapable(self, escapable: bool) -> (builder: MorpheusTokioBuilder)
        ensures
            builder.consents() == escapable,
            builder.interval_ms() == self.interval_ms(),
    {
        let mut builder = self;
        builder.escapable = escapable;
        builder
    }

    /// Sets the interval between two checks for yield requests. A shorter
    /// interval answers sooner and costs more.
    pub fn check_interval_ms(self, ms: u64) -> (builder: MorpheusTokioBuilder)
        ensures
            builder.interval_ms() == ms,
            builder.consents() == self.consents(),
    {
        let mut builder = self;
        builder.check_interval_ms = ms;
        builder
    }

    /// Whether the workers consent to escalation.
    pub fn is_escapable(&self) -> (escapable: bool)
        ensures
            escapable == self.consents(),
    {
        self.escapable
    }

    /// The interval between two checks for yield requests.
    pub fn get_check_interval(&self) -> (interval: TimeSpan)
        ensures
            interval@ == self.interval_ms() * NANOS_PER_MILLI,
    {
        TimeSpan::from_millis(self.check_interval_ms)
    }
}

impl Default for MorpheusTokioBuilder {
    fn default() -> (builder: MorpheusTokioBuilder)
        ensures
            builder.consents(),
            builder.interval_ms() == 1,
    {
        MorpheusTokioBuilder::new()
    }
}

} // verus!
