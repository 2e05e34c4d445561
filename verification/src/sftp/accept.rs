//! The SFTP listener's accept loop: which accepted connections are served, and how
//! failures to accept are retried with a growing pause until too many come in a row.

use vstd::prelude::*;

verus! {

/// Failures to accept in a row after which the listener stops.
pub const MAX_ACCEPT_RETRIES: u32 = 10;
/// The first pause after a failure, in milliseconds.
pub const INITIAL_BACKOFF_MS: u64 = 100;
/// The longest pause, in milliseconds.
pub const MAX_BACKOFF_MS: u64 = 5000;

/// What to do with an accepted connection.
#[derive(Clone, Copy, Debug, PartialEq, Eq, Structural)]
pub enum AcceptDecision {
    /// The client's address is not allowed.
    RejectedByFilter,
    /// Every connection slot is taken.
    RejectedFull,
    /// Serve the client.
    Serve,
}

/// What to do after a failure to accept.
#[derive(Clone, Copy, Debug, PartialEq, Eq, Structural)]
pub enum AcceptRetry {
    /// Pause this many milliseconds, then accept again.
    PauseMs(u64),
    /// Stop the listener.
    Stop,
}

/// The accept loop's memory: failures in a row, and the next pause.
#[derive(Clone, Copy, Debug, PartialEq, Eq, Structural)]
pub struct AcceptLoop {
    pub consecutive_errors: u32,
    pub backoff_ms: u64,
}

pub open spec fn spec_min(a: int, b: int) -> int {
    if a < b { a } else { b }
}

/// A failure to accept: one more in a row; at the limit the listener stops, else it
/// pauses for the current pause, which then doubles up to the longest.
pub open spec fn spec_on_error(s: AcceptLoop) -> (AcceptLoop, AcceptRetry) {
    let n = s.consecutive_errors + 1;
    if n >= MAX_ACCEPT_RETRIES {
        (AcceptLoop { consecutive_errors: n as u32, backoff_ms: s.backoff_ms }, AcceptRetry::Stop)
    } else {
        (
            AcceptLoop { consecutive_errors: n as u32, backoff_ms: spec_min(s.backoff_ms * 2, MAX_BACKOFF_MS as int) as u64 },
            AcceptRetry::PauseMs(s.backoff_ms),
        )
    }
}

/// `k` failures in a row from `s`, as long as none of them stopped the listener.
pub open spec fn spec_errors(s: AcceptLoop, k: nat) -> AcceptLoop
    decreases k,
{
    if k == 0 {
        s
    } else {
        spec_on_error(spec_errors(s, (k - 1) as nat)).0
    }
}

impl AcceptLoop {
    /// The counters are within their bounds.
    pub open spec fn wf(&self) -> bool {
        &&& self.consecutive_errors < MAX_ACCEPT_RETRIES
        &&& INITIAL_BACKOFF_MS <= self.backoff_ms <= MAX_BACKOFF_MS
    }

    /// A listener that has not failed yet.
    pub fn new() -> (r: Self)
        ensures
            r.wf(),
            r == (AcceptLoop { consecutive_errors: 0, backoff_ms: INITIAL_BACKOFF_MS }),
    {
        AcceptLoop { consecutive_errors: 0, backoff_ms: INITIAL_BACKOFF_MS }
    }

    /// A connection was accepted: the failures in a row are forgotten and the pause
    /// starts over; the client is refused when its address is not allowed, then when
    /// no connection slot is free, and else served.
    pub fn on_accepted(&mut self, ip_allowed: bool, slot_free: bool) -> (r: AcceptDecision)
        ensures
            *final(self) == AcceptLoop::new_spec(),
            r == if !ip_allowed {
                AcceptDecision::RejectedByFilter
            } else if !slot_free {
                AcceptDecision::RejectedFull
            } else {
                AcceptDecision::Serve
            },
    {
        self.consecutive_errors = 0;
        self.backoff_ms = INITIAL_BACKOFF_MS;
        if !ip_allowed {
            AcceptDecision::RejectedByFilter
        } else if !slot_free {
            AcceptDecision::RejectedFull
        } else {
            AcceptDecision::Serve
        }
    }

    pub open spec fn new_spec() -> AcceptLoop {
        AcceptLoop { consecutive_errors: 0, backoff_ms: INITIAL_BACKOFF_MS }
    }

    /// A failure to accept (see `spec_on_error`).
    pub fn on_error(&mut self) -> (r: AcceptRetry)
        requires
            old(self).wf(),
        ensures
            (*final(self), r) == spec_on_error(*old(self)),
            r is PauseMs ==> final(self).wf(),
    {
        self.consecutive_errors = self.consecutive_errors + 1;
        if self.consecutive_errors >= MAX_ACCEPT_RETRIES {
            return AcceptRetry::Stop;
        }
        let pause = self.backoff_ms;
        self.backoff_ms = if self.backoff_ms * 2 < MAX_BACKOFF_MS {
            self.backoff_ms * 2
        } else {
            MAX_BACKOFF_MS
        };
        AcceptRetry::PauseMs(pause)
    }
}

/// From a listener that has just accepted (or just started), the first nine failures
/// in a row pause and the tenth stops it.
pub proof fn lemma_stops_at_tenth_error(k: nat)
    requires
        k < MAX_ACCEPT_RETRIES,
    ensures
        spec_errors(AcceptLoop::new_spec(), k).consecutive_errors == k,
        spec_errors(AcceptLoop::new_spec(), k).wf(),
        k + 1 < MAX_ACCEPT_RETRIES ==> spec_on_error(spec_errors(AcceptLoop::new_spec(), k)).1 is PauseMs,
        k + 1 == MAX_ACCEPT_RETRIES ==> spec_on_error(spec_errors(AcceptLoop::new_spec(), k)).1 is Stop,
    decreases k,
{
    if k > 0 {
        lemma_stops_at_tenth_error((k - 1) as nat);
    }
}

} // verus!
