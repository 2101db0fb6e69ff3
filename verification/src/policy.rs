//! The three durations that govern a synchronization cycle.

use vstd::prelude::*;

verus! {

/// Quiet period, in milliseconds, that ends a burst of change signals.
pub const DEFAULT_DEBOUNCE_MS: u64 = 150;

/// Time, in milliseconds, after a publish during which a burst counts as its echo.
pub const DEFAULT_ECHO_GUARD_MS: u64 = 500;

/// Longest time, in milliseconds, that a fetch from the source may take.
pub const DEFAULT_FETCH_TIMEOUT_MS: u64 = 200;

/// Durations of the synchronization policy, in milliseconds.
///
/// The echo guard is never shorter than the debounce window: a burst is judged
/// only once it has been quiet for a whole debounce window, so a shorter guard
/// would have lapsed before it was ever consulted.
#[derive(Clone, Copy, Debug)]
pub struct Policy {
    debounce_ms: u64,
    echo_guard_ms: u64,
    fetch_timeout_ms: u64,
}

impl Policy {
    #[verifier::type_invariant]
    spec fn well_formed(self) -> bool {
        self.debounce_ms <= self.echo_guard_ms
    }

    /// The debounce window.
    pub closed spec fn debounce(self) -> nat {
        self.debounce_ms as nat
    }

    /// The echo guard window.
    pub closed spec fn echo_guard(self) -> nat {
        self.echo_guard_ms as nat
    }

    /// The fetch timeout.
    pub closed spec fn fetch_timeout(self) -> nat {
        self.fetch_timeout_ms as nat
    }

    /// A policy of the given durations, or `None` where the echo guard would be
    /// shorter than the debounce window.
    pub fn new(debounce_ms: u64, echo_guard_ms: u64, fetch_timeout_ms: u64) -> (policy: Option<Policy>)
        ensures
            policy is Some <==> debounce_ms <= echo_guard_ms,
            policy matches Some(p) ==> {
                &&& p.debounce() == debounce_ms
                &&& p.echo_guard() == echo_guard_ms
                &&& p.fetch_timeout() == fetch_timeout_ms
            },
    {
        if debounce_ms <= echo_guard_ms {
            Some(Policy { debounce_ms, echo_guard_ms, fetch_timeout_ms })
        } else {
            None
        }
    }

    /// The debounce window in milliseconds.
    pub fn debounce_ms(&self) -> (ms: u64)
        ensures
            ms == self.debounce(),
            ms <= self.echo_guard(),
    {
        proof {
            use_type_invariant(self);
        }
        self.debounce_ms
    }

    /// The echo guard window in milliseconds.
    pub fn echo_guard_ms(&self) -> (ms: u64)
        ensures
            ms == self.echo_guard(),
            ms >= self.debounce(),
    {
        proof {
            use_type_invariant(self);
        }
        self.echo_guard_ms
    }

    /// The fetch timeout in milliseconds.
    pub fn fetch_timeout_ms(&self) -> (ms: u64)
        ensures
            ms == self.fetch_timeout(),
    {
        self.fetch_timeout_ms
    }
}

impl Default for Policy {
    /// The default durations: 150 ms debounce, 500 ms echo guard, 200 ms fetch
    /// timeout.
    fn default() -> (policy: Policy)
        ensures
            policy.debounce() == DEFAULT_DEBOUNCE_MS,
            policy.echo_guard() == DEFAULT_ECHO_GUARD_MS,
            policy.fetch_timeout() == DEFAULT_FETCH_TIMEOUT_MS,
    {
        Policy {
            debounce_ms: DEFAULT_DEBOUNCE_MS,
            echo_guard_ms: DEFAULT_ECHO_GUARD_MS,
            fetch_timeout_ms: DEFAULT_FETCH_TIMEOUT_MS,
        }
    }
}

} // verus!
