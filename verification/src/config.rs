//! Poller configuration: how often to check for new messages and whether
//! handled messages are acknowledged automatically.

use vstd::prelude::*;

verus! {

/// How often to check for new messages when nothing overrides it, in
/// milliseconds (five seconds).
pub const DEFAULT_CHECK_INTERVAL_MS: u64 = 5000;

/// Settings of one poller, immutable after construction.
#[derive(Clone, Copy, Debug)]
pub struct Config {
    /// Delay between the end of one fetch cycle and the start of the next,
    /// in milliseconds.
    check_interval_ms: u64,
    /// Whether every dispatched message is deleted at the end of its cycle.
    /// When off, the caller acknowledges messages by hand.
    auto_ack: bool,
}

impl Config {
    /// The configured delay between cycles, in milliseconds.
    pub closed spec fn spec_check_interval_ms(&self) -> u64 {
        self.check_interval_ms
    }

    /// Whether dispatched messages are acknowledged automatically.
    pub closed spec fn spec_auto_ack(&self) -> bool {
        self.auto_ack
    }

    /// Delay between cycles, in milliseconds.
    pub fn check_interval_ms(&self) -> (r: u64)
        ensures
            r == self.spec_check_interval_ms(),
    {
        self.check_interval_ms
    }

    /// Whether dispatched messages are acknowledged automatically.
    pub fn auto_ack(&self) -> (r: bool)
        ensures
            r == self.spec_auto_ack(),
    {
        self.auto_ack
    }
}

/// Builds a [`Config`]. Every field has a default, so building always
/// succeeds: [`ConfigBuilder::build`] returns a `Config` outright.
#[derive(Clone, Copy, Debug)]
pub struct ConfigBuilder {
    check_interval_ms: Option<u64>,
    auto_ack: Option<bool>,
}

impl Default for ConfigBuilder {
    /// A builder with no field set, so that `build` falls back to the
    /// defaults: a five-second check interval and automatic acknowledgement.
    fn default() -> (r: Self)
        ensures
            r.spec_check_interval_ms() is None,
            r.spec_auto_ack() is None,
    {
        ConfigBuilder { check_interval_ms: None, auto_ack: None }
    }
}

impl ConfigBuilder {
    /// The interval set so far, if any.
    pub closed spec fn spec_check_interval_ms(&self) -> Option<u64> {
        self.check_interval_ms
    }

    /// The auto-acknowledge choice set so far, if any.
    pub closed spec fn spec_auto_ack(&self) -> Option<bool> {
        self.auto_ack
    }

    /// Sets how often to check for new messages, in milliseconds.
    pub fn check_interval_ms(self, ms: u64) -> (r: Self)
        ensures
            r.spec_check_interval_ms() == Some(ms),
            r.spec_auto_ack() == self.spec_auto_ack(),
    {
        ConfigBuilder { check_interval_ms: Some(ms), ..self }
    }

    /// Sets whether handled messages are acknowledged automatically.
    pub fn auto_ack(self, auto_ack: bool) -> (r: Self)
        ensures
            r.spec_auto_ack() == Some(auto_ack),
            r.spec_check_interval_ms() == self.spec_check_interval_ms(),
    {
        ConfigBuilder { auto_ack: Some(auto_ack), ..self }
    }

    /// Builds the configuration. Every unset field takes its default
    /// (five-second interval, automatic acknowledgement), so building never
    /// fails and the function returns a `Config`, not a `Result`.
    pub fn build(self) -> (c: Config)
        ensures
            c.spec_check_interval_ms() == match self.spec_check_interval_ms() {
                Some(ms) => ms,
                None => DEFAULT_CHECK_INTERVAL_MS,
            },
            c.spec_auto_ack() == match self.spec_auto_ack() {
                Some(a) => a,
                None => true,
            },
    {
        Config {
            check_interval_ms: match self.check_interval_ms {
                Some(ms) => ms,
                None => DEFAULT_CHECK_INTERVAL_MS,
            },
            auto_ack: match self.auto_ack {
                Some(a) => a,
                None => true,
            },
        }
    }
}

} // verus!
