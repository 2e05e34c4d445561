//! Token-bucket state of a transfer speed limit.
//!
//! The limit is held in bytes per second; zero means unlimited. How many tokens the
//! elapsed time earns and how long a deficit takes to wait out are computed in floating
//! point by the caller; the bucket's integer bookkeeping is here.

use vstd::prelude::*;
use std::time::{Duration, Instant};
use crate::clock::{clock_now, clock_since};

verus! {

pub struct SpeedLimiter {
    last_check: Instant,
    tokens: u64,
    max_bytes_per_second: u64,
}

/// `kbps` kibibytes per second, in bytes per second.
pub open spec fn kbps_to_bytes(kbps: u64) -> int {
    kbps * 1024
}

impl SpeedLimiter {
    /// The limit in bytes per second; zero is unlimited.
    pub closed spec fn limit(&self) -> u64 {
        self.max_bytes_per_second
    }

    /// Bytes that may pass without waiting.
    pub closed spec fn tokens(&self) -> u64 {
        self.tokens
    }

    /// A limiter of `max_kbps` KiB per second, with an empty bucket.
    pub fn new(max_kbps: u64) -> (r: Self)
        requires
            kbps_to_bytes(max_kbps) <= u64::MAX,
        ensures
            r.limit() == kbps_to_bytes(max_kbps),
            r.tokens() == 0,
    {
        SpeedLimiter { last_check: clock_now(), tokens: 0, max_bytes_per_second: max_kbps * 1024 }
    }

    /// A limiter that never throttles.
    pub fn with_unlimited() -> (r: Self)
        ensures
            r.limit() == 0,
            r.tokens() == 0,
    {
        SpeedLimiter { last_check: clock_now(), tokens: 0, max_bytes_per_second: 0 }
    }

    pub fn set_limit(&mut self, max_kbps: u64)
        requires
            kbps_to_bytes(max_kbps) <= u64::MAX,
        ensures
            final(self).limit() == kbps_to_bytes(max_kbps),
            final(self).tokens() == old(self).tokens(),
    {
        self.max_bytes_per_second = max_kbps * 1024;
    }

    /// The limit in whole KiB per second.
    pub fn get_limit(&self) -> (r: u64)
        ensures
            r == self.limit() / 1024,
    {
        self.max_bytes_per_second / 1024
    }

    pub fn max_bytes_per_second(&self) -> (r: u64)
        ensures
            r == self.limit(),
    {
        self.max_bytes_per_second
    }

    pub fn available_tokens(&self) -> (r: u64)
        ensures
            r == self.tokens(),
    {
        self.tokens
    }

    /// Whether a transfer of `bytes` goes through the bucket at all: not when the
    /// limit is zero or nothing is sent.
    pub fn applies_to(&self, bytes: u64) -> (r: bool)
        ensures
            r == (self.limit() != 0 && bytes != 0),
    {
        self.max_bytes_per_second != 0 && bytes != 0
    }

    /// Starts a new interval: returns the time since the previous one started.
    pub fn restart_interval(&mut self) -> (elapsed: Duration)
        ensures
            final(self).limit() == old(self).limit(),
            final(self).tokens() == old(self).tokens(),
    {
        let now = clock_now();
        let elapsed = clock_since(&now, &self.last_check);
        self.last_check = now;
        elapsed
    }

    /// Adds the tokens that the elapsed time earned (saturating at `u64::MAX`) and
    /// returns the new balance.
    pub fn refill(&mut self, earned: u64) -> (r: u64)
        ensures
            final(self).tokens() == if old(self).tokens() + earned > u64::MAX {
                u64::MAX as int
            } else {
                old(self).tokens() + earned
            },
            r == final(self).tokens(),
            final(self).limit() == old(self).limit(),
    {
        self.tokens = self.tokens.saturating_add(earned);
        self.tokens
    }

    /// Bytes that must still be earned before `bytes` may pass, given a balance.
    pub fn deficit(balance: u64, bytes: u64) -> (r: u64)
        ensures
            r == if balance < bytes {
                bytes - balance
            } else {
                0
            },
    {
        if balance < bytes {
            bytes - balance
        } else {
            0
        }
    }

    /// Takes `bytes` from the bucket (not below zero).
    pub fn consume(&mut self, bytes: u64)
        ensures
            final(self).tokens() == if old(self).tokens() >= bytes {
                old(self).tokens() - bytes
            } else {
                0
            },
            final(self).limit() == old(self).limit(),
    {
        self.tokens = self.tokens.saturating_sub(bytes);
    }
}

impl Clone for SpeedLimiter {
    /// The same limit, with a fresh interval and an empty bucket.
    fn clone(&self) -> (r: Self)
        ensures
            r.limit() == self.limit(),
            r.tokens() == 0,
    {
        SpeedLimiter {
            last_check: clock_now(),
            tokens: 0,
            max_bytes_per_second: self.max_bytes_per_second,
        }
    }
}

impl Default for SpeedLimiter {
    fn default() -> (r: Self)
        ensures
            r.limit() == 0,
            r.tokens() == 0,
    {
        SpeedLimiter::with_unlimited()
    }
}

/// A limit set in KiB per second reads back unchanged.
pub proof fn lemma_limit_roundtrip(max_kbps: u64)
    requires
        kbps_to_bytes(max_kbps) <= u64::MAX,
    ensures
        (kbps_to_bytes(max_kbps) as u64) / 1024 == max_kbps,
{
}

} // verus!
