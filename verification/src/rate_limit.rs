//! Per-address and server-wide admission of new control connections.
//!
//! Time is read from a monotonic clock owned by each limiter, as milliseconds since the
//! limiter was made. All decisions are taken by [`RateLimiter::check_and_record_at`] and
//! [`RateLimiter::release_for_ip`], which are exact functions of the state and their
//! arguments; [`RateLimiter::check_and_record`] only adds the clock reading.

use vstd::prelude::*;
use std::time::Instant;
use crate::clock::{clock_now, clock_elapsed, duration_millis};
use crate::text::{push_decimal, push_str, chars_to_string, spec_decimal};

verus! {

/// What the limiter keeps per client address. Times are milliseconds on the limiter's
/// clock.
#[derive(Clone, Copy, Debug, PartialEq, Eq, Structural)]
pub struct ConnectionInfo {
    pub first_seen: u128,
    pub connection_count: u32,
    pub last_connection: u128,
}

/// One tracked address with what is known of it.
pub type Entry = (Seq<char>, ConnectionInfo);

/// Why a connection was refused.
#[derive(Debug)]
pub enum RateLimitError {
    /// The server-wide number of admitted connections has reached its maximum.
    ServerLimit,
    /// The address has used up its connections in the current window.
    PerIpLimit { ip: String, max_connections: u32, window_secs: u64 },
}

/// Milliseconds from `first` to `now`; zero when the clock reads earlier than `first`.
pub open spec fn elapsed_ms(first: u128, now: u128) -> int {
    if now >= first {
        now - first
    } else {
        0
    }
}

/// Whether an entry first seen at `info.first_seen` is still inside the window at `now`.
pub open spec fn in_window(info: ConnectionInfo, now: u128, window_ms: int) -> bool {
    elapsed_ms(info.first_seen, now) < window_ms
}

/// The entries whose window has not yet passed, in their order.
pub open spec fn spec_prune(s: Seq<Entry>, now: u128, window_ms: int) -> Seq<Entry>
    decreases s.len(),
{
    if s.len() == 0 {
        s
    } else {
        let r = spec_prune(s.drop_last(), now, window_ms);
        if in_window(s.last().1, now, window_ms) {
            r.push(s.last())
        } else {
            r
        }
    }
}

pub open spec fn has_key(s: Seq<Entry>, ip: Seq<char>) -> bool {
    exists|i: int| 0 <= i < s.len() && (#[trigger] s[i]).0 == ip
}

/// The position of the entry for `ip` (meaningful when [`has_key`] holds).
pub open spec fn key_index(s: Seq<Entry>, ip: Seq<char>) -> int {
    choose|i: int| 0 <= i < s.len() && (#[trigger] s[i]).0 == ip
}

pub open spec fn keys_unique(s: Seq<Entry>) -> bool {
    forall|i: int, j: int| 0 <= i < j < s.len() ==> (#[trigger] s[i]).0 != (#[trigger] s[j]).0
}

/// What admitting one more connection from `ip` at `now` does to the entries.
pub open spec fn spec_record(s: Seq<Entry>, ip: Seq<char>, now: u128) -> Seq<Entry> {
    if has_key(s, ip) {
        let i = key_index(s, ip);
        let info = s[i].1;
        s.update(
            i,
            (
                ip,
                ConnectionInfo {
                    first_seen: info.first_seen,
                    connection_count: (info.connection_count + 1) as u32,
                    last_connection: now,
                },
            ),
        )
    } else {
        s.push((ip, ConnectionInfo { first_seen: now, connection_count: 1, last_connection: now }))
    }
}

/// What releasing one connection of `ip` does to the entries: its count drops by one
/// (not below zero), and an entry whose count reaches zero is dropped.
pub open spec fn spec_release(s: Seq<Entry>, ip: Seq<char>) -> Seq<Entry> {
    if has_key(s, ip) {
        let i = key_index(s, ip);
        let info = s[i].1;
        let c: int = if info.connection_count > 0 {
            info.connection_count - 1
        } else {
            0
        };
        if c == 0 {
            s.remove(i)
        } else {
            s.update(i, (ip, ConnectionInfo { connection_count: c as u32, ..info }))
        }
    } else {
        s
    }
}

/// The outcome of an admission request, as a plain value.
pub enum Verdict {
    Admitted,
    ServerFull,
    IpLimited,
}

/// How an admission request from `ip` is decided, given the number of admitted
/// connections and the entries left after pruning.
pub open spec fn spec_verdict(
    total: u32,
    max_total: u32,
    pruned: Seq<Entry>,
    ip: Seq<char>,
    max_per_ip: u32,
) -> Verdict {
    if total >= max_total {
        Verdict::ServerFull
    } else if has_key(pruned, ip) && pruned[key_index(pruned, ip)].1.connection_count
        >= max_per_ip {
        Verdict::IpLimited
    } else {
        Verdict::Admitted
    }
}

/// The connections counted per client address and in all.
///
/// The keys are texts. vstd specifies `std::collections::HashMap` only for keys whose
/// hashing and equality it knows to follow its model (integers, `bool` and boxes of
/// them, through `obeys_key_model`), which `String` is not among, and that model may
/// not be assumed here; so the map is a vector with one entry per key, an invariant
/// that every operation keeps.
pub struct RateLimiter {
    entries: Vec<(String, ConnectionInfo)>,
    current_total: u32,
    max_connections_per_ip: u32,
    window_secs: u64,
    max_total_connections: u32,
    clock: Instant,
}

impl RateLimiter {
    /// The tracked addresses with what is known of each, in insertion order.
    pub closed spec fn entries(&self) -> Seq<Entry> {
        self.entries@.map_values(|e: (String, ConnectionInfo)| (e.0@, e.1))
    }

    /// Number of admitted connections not yet released.
    pub closed spec fn total(&self) -> u32 {
        self.current_total
    }

    pub closed spec fn max_per_ip(&self) -> u32 {
        self.max_connections_per_ip
    }

    pub closed spec fn window_secs(&self) -> u64 {
        self.window_secs
    }

    pub closed spec fn max_total(&self) -> u32 {
        self.max_total_connections
    }

    pub open spec fn window_ms(&self) -> int {
        self.window_secs() * 1000
    }

    /// The limiter's invariant: one entry per address, every tracked address holds at
    /// least one connection and no more than its allowance (a first connection is
    /// always counted), and the admitted total never exceeds the server maximum.
    pub open spec fn wf(&self) -> bool {
        &&& keys_unique(self.entries())
        &&& forall|i: int|
            0 <= i < self.entries().len() ==> {
                let c = (#[trigger] self.entries()[i]).1.connection_count;
                1 <= c && (c <= self.max_per_ip() || c == 1)
            }
        &&& self.total() <= self.max_total()
    }

    /// Same configuration.
    pub open spec fn same_config(&self, other: &Self) -> bool {
        &&& self.max_per_ip() == other.max_per_ip()
        &&& self.window_secs() == other.window_secs()
        &&& self.max_total() == other.max_total()
    }

    pub fn new(max_connections_per_ip: u32, window_secs: u64, max_total_connections: u32) -> (r:
        Self)
        ensures
            r.wf(),
            r.entries() == Seq::<Entry>::empty(),
            r.total() == 0,
            r.max_per_ip() == max_connections_per_ip,
            r.window_secs() == window_secs,
            r.max_total() == max_total_connections,
    {
        let r = RateLimiter {
            entries: Vec::new(),
            current_total: 0,
            max_connections_per_ip,
            window_secs,
            max_total_connections,
            clock: clock_now(),
        };
        assert(r.entries() =~= Seq::<Entry>::empty());
        r
    }

    /// Drops the entries whose window has passed at `now`.
    fn prune(&mut self, now: u128)
        requires
            old(self).wf(),
        ensures
            final(self).entries() == spec_prune(old(self).entries(), now, old(self).window_ms()),
            final(self).total() == old(self).total(),
            final(self).same_config(old(self)),
            final(self).wf(),
    {
        let window_ms: u128 = (self.window_secs as u128) * 1000;
        let ghost orig = self.entries();
        let mut old_entries: Vec<(String, ConnectionInfo)> = Vec::new();
        std::mem::swap(&mut old_entries, &mut self.entries);
        assert(old_entries@.map_values(|e: (String, ConnectionInfo)| (e.0@, e.1)) =~= orig);
        let mut kept: Vec<(String, ConnectionInfo)> = Vec::new();
        let mut i: usize = 0;
        while i < old_entries.len()
            invariant
                i <= old_entries@.len(),
                orig == old_entries@.map_values(|e: (String, ConnectionInfo)| (e.0@, e.1)),
                window_ms == old(self).window_ms(),
                kept@.map_values(|e: (String, ConnectionInfo)| (e.0@, e.1)) == spec_prune(
                    orig.take(i as int),
                    now,
                    window_ms as int,
                ),
            decreases old_entries.len() - i,
        {
            let ghost before = kept@.map_values(|e: (String, ConnectionInfo)| (e.0@, e.1));
            assert(orig.take(i + 1).drop_last() =~= orig.take(i as int));
            assert(orig.take(i + 1).last() == orig[i as int]);
            let info = old_entries[i].1;
            let first = info.first_seen;
            let elapsed: u128 = if now >= first {
                now - first
            } else {
                0
            };
            if elapsed < window_ms {
                let ip = old_entries[i].0.clone();
                kept.push((ip, info));
                assert(kept@.map_values(|e: (String, ConnectionInfo)| (e.0@, e.1)) =~= before.push(
                    orig[i as int],
                ));
            }
            i = i + 1;
        }
        assert(orig.take(old_entries@.len() as int) =~= orig);
        self.entries = kept;
        proof {
            lemma_prune_keeps(orig, now, window_ms as int);
        }
    }

    /// Position of the entry for `ip`, if any.
    fn find(&self, ip: &String) -> (r: Option<usize>)
        requires
            keys_unique(self.entries()),
        ensures
            match r {
                Some(i) => i < self.entries().len() && has_key(self.entries(), ip@) && i
                    == key_index(self.entries(), ip@),
                None => !has_key(self.entries(), ip@),
            },
    {
        let mut i: usize = 0;
        while i < self.entries.len()
            invariant
                i <= self.entries@.len(),
                keys_unique(self.entries()),
                forall|j: int| 0 <= j < i ==> (#[trigger] self.entries()[j]).0 != ip@,
            decreases self.entries.len() - i,
        {
            if self.entries[i].0 == *ip {
                assert(self.entries()[i as int].0 == ip@);
                assert(has_key(self.entries(), ip@));
                let ghost k = key_index(self.entries(), ip@);
                assert(k == i as int) by {
                    if k != i as int {
                        assert(self.entries()[k].0 == ip@);
                    }
                }
                return Some(i);
            }
            assert(self.entries()[i as int].0 != ip@);
            i = i + 1;
        }
        None
    }

    /// Admits or refuses one more connection from `ip`, the clock reading `now`
    /// (milliseconds on this limiter's clock). Entries whose window has passed are
    /// dropped first; then the server-wide limit is checked, then the address's count.
    pub fn check_and_record_at(&mut self, ip: &str, now: u128) -> (r: Result<(), RateLimitError>)
        requires
            old(self).wf(),
        ensures
            final(self).wf(),
            final(self).same_config(old(self)),
            ({
                let pruned = spec_prune(old(self).entries(), now, old(self).window_ms());
                match spec_verdict(
                    old(self).total(),
                    old(self).max_total(),
                    pruned,
                    ip@,
                    old(self).max_per_ip(),
                ) {
                    Verdict::ServerFull => {
                        &&& r matches Err(RateLimitError::ServerLimit)
                        &&& final(self).entries() == pruned
                        &&& final(self).total() == old(self).total()
                    },
                    Verdict::IpLimited => {
                        &&& r matches Err(
                            RateLimitError::PerIpLimit { ip: e_ip, max_connections, window_secs },
                        )
                        &&& e_ip@ == ip@
                        &&& max_connections == old(self).max_per_ip()
                        &&& window_secs == old(self).window_secs()
                        &&& final(self).entries() == pruned
                        &&& final(self).total() == old(self).total()
                    },
                    Verdict::Admitted => {
                        &&& r is Ok
                        &&& final(self).entries() == spec_record(pruned, ip@, now)
                        &&& final(self).total() == old(self).total() + 1
                    },
                }
            }),
    {
        self.prune(now);
        if self.current_total >= self.max_total_connections {
            return Err(RateLimitError::ServerLimit);
        }
        let key = ip.to_owned();
        match self.find(&key) {
            Some(i) => {
                let info = self.entries[i].1;
                if info.connection_count >= self.max_connections_per_ip {
                    return Err(
                        RateLimitError::PerIpLimit {
                            ip: key,
                            max_connections: self.max_connections_per_ip,
                            window_secs: self.window_secs,
                        },
                    );
                }
                let ghost before = self.entries();
                let updated = ConnectionInfo {
                    first_seen: info.first_seen,
                    connection_count: info.connection_count + 1,
                    last_connection: now,
                };
                self.entries.set(i, (key, updated));
                assert(self.entries() =~= before.update(i as int, (ip@, updated)));
                proof {
                    assert forall|a: int, b: int|
                        0 <= a < b < self.entries().len() implies (#[trigger] self.entries()[a]).0
                        != (#[trigger] self.entries()[b]).0 by {
                        assert(before[a].0 != before[b].0);
                    }
                    assert forall|j: int| 0 <= j < self.entries().len() implies {
                        let c = (#[trigger] self.entries()[j]).1.connection_count;
                        1 <= c && (c <= self.max_per_ip() || c == 1)
                    } by {
                        assert(j != i ==> self.entries()[j] == before[j]);
                    }
                }
            },
            None => {
                let ghost before = self.entries();
                let fresh = ConnectionInfo { first_seen: now, connection_count: 1, last_connection: now };
                self.entries.push((key, fresh));
                assert(self.entries() =~= before.push((ip@, fresh)));
                proof {
                    assert forall|a: int, b: int|
                        0 <= a < b < self.entries().len() implies (#[trigger] self.entries()[a]).0
                        != (#[trigger] self.entries()[b]).0 by {
                        if b == before.len() {
                            assert(before[a].0 != ip@);
                        } else {
                            assert(before[a].0 != before[b].0);
                        }
                    }
                    assert forall|j: int| 0 <= j < self.entries().len() implies {
                        let c = (#[trigger] self.entries()[j]).1.connection_count;
                        1 <= c && (c <= self.max_per_ip() || c == 1)
                    } by {
                        assert(j < before.len() ==> self.entries()[j] == before[j]);
                    }
                }
            },
        }
        self.current_total = self.current_total + 1;
        Ok(())
    }

    /// Admits or refuses one more connection from `ip` at the current clock reading;
    /// see [`RateLimiter::check_and_record_at`], which decides.
    pub fn check_and_record(&mut self, ip: &str) -> (r: Result<(), RateLimitError>)
        requires
            old(self).wf(),
        ensures
            final(self).wf(),
            final(self).same_config(old(self)),
            exists|now: u128|
                {
                    let pruned = #[trigger] spec_prune(
                        old(self).entries(),
                        now,
                        old(self).window_ms(),
                    );
                    match spec_verdict(
                        old(self).total(),
                        old(self).max_total(),
                        pruned,
                        ip@,
                        old(self).max_per_ip(),
                    ) {
                        Verdict::ServerFull => r matches Err(RateLimitError::ServerLimit)
                            && final(self).entries() == pruned && final(self).total() == old(
                            self,
                        ).total(),
                        Verdict::IpLimited => r matches Err(RateLimitError::PerIpLimit { .. })
                            && final(self).entries() == pruned && final(self).total() == old(
                            self,
                        ).total(),
                        Verdict::Admitted => r is Ok && final(self).entries() == spec_record(
                            pruned,
                            ip@,
                            now,
                        ) && final(self).total() == old(self).total() + 1,
                    }
                },
    {
        let elapsed = clock_elapsed(&self.clock);
        let now = duration_millis(&elapsed);
        let r = self.check_and_record_at(ip, now);
        assert(spec_prune(old(self).entries(), now, old(self).window_ms()) == spec_prune(
            old(self).entries(),
            now,
            old(self).window_ms(),
        ));
        r
    }

    /// Gives back one connection of `ip`: the admitted total drops by one (not below
    /// zero), and so does the address's count, its entry leaving when it reaches zero.
    pub fn release_for_ip(&mut self, ip: &str)
        requires
            old(self).wf(),
        ensures
            final(self).wf(),
            final(self).same_config(old(self)),
            final(self).entries() == spec_release(old(self).entries(), ip@),
            final(self).total() == if old(self).total() > 0 {
                old(self).total() - 1
            } else {
                0
            },
    {
        if self.current_total > 0 {
            self.current_total = self.current_total - 1;
        }
        let key = ip.to_owned();
        let ghost before = self.entries();
        match self.find(&key) {
            Some(i) => {
                let info = self.entries[i].1;
                let count: u32 = if info.connection_count > 0 {
                    info.connection_count - 1
                } else {
                    0
                };
                if count == 0 {
                    self.entries.remove(i);
                    assert(self.entries() =~= before.remove(i as int));
                    proof {
                        assert forall|a: int, b: int|
                            0 <= a < b < self.entries().len() implies (#[trigger] self.entries()[
                            a]).0 != (#[trigger] self.entries()[b]).0 by {
                            let a0 = if a < i { a } else { a + 1 };
                            let b0 = if b < i { b } else { b + 1 };
                            assert(before[a0].0 != before[b0].0);
                        }
                        assert forall|j: int| 0 <= j < self.entries().len() implies {
                            let c = (#[trigger] self.entries()[j]).1.connection_count;
                            1 <= c && (c <= self.max_per_ip() || c == 1)
                        } by {
                            let j0 = if j < i { j } else { j + 1 };
                            assert(self.entries()[j] == before[j0]);
                        }
                    }
                } else {
                    let updated = ConnectionInfo { connection_count: count, ..info };
                    self.entries.set(i, (key, updated));
                    assert(self.entries() =~= before.update(i as int, (ip@, updated)));
                    proof {
                        assert forall|a: int, b: int|
                            0 <= a < b < self.entries().len() implies (#[trigger] self.entries()[
                            a]).0 != (#[trigger] self.entries()[b]).0 by {
                            assert(before[a].0 != before[b].0);
                        }
                        assert forall|j: int| 0 <= j < self.entries().len() implies {
                            let c = (#[trigger] self.entries()[j]).1.connection_count;
                            1 <= c && (c <= self.max_per_ip() || c == 1)
                        } by {
                            assert(j != i ==> self.entries()[j] == before[j]);
                        }
                    }
                }
            },
            None => {},
        }
    }

    /// The number of tracked addresses and of admitted connections.
    pub fn get_stats(&self) -> (r: (usize, u32))
        ensures
            r.0 == self.entries().len(),
            r.1 == self.total(),
    {
        (self.entries.len(), self.current_total)
    }
}

impl Default for RateLimiter {
    /// Ten connections per address per minute, a hundred in all.
    fn default() -> (r: Self)
        ensures
            r.wf(),
            r.entries() == Seq::<Entry>::empty(),
            r.total() == 0,
            r.max_per_ip() == 10,
            r.window_secs() == 60,
            r.max_total() == 100,
    {
        RateLimiter::new(10, 60, 100)
    }
}

/// Pruning keeps a sub-sequence: what it keeps was there, keys stay unique.
pub proof fn lemma_prune_keeps(s: Seq<Entry>, now: u128, window_ms: int)
    ensures
        forall|i: int|
            0 <= i < spec_prune(s, now, window_ms).len() ==> s.contains(
                #[trigger] spec_prune(s, now, window_ms)[i],
            ),
        spec_prune(s, now, window_ms).len() <= s.len(),
        keys_unique(s) ==> keys_unique(spec_prune(s, now, window_ms)),
    decreases s.len(),
{
    if s.len() > 0 {
        let s0 = s.drop_last();
        lemma_prune_keeps(s0, now, window_ms);
        let r = spec_prune(s0, now, window_ms);
        assert forall|i: int| 0 <= i < r.len() implies s.contains(#[trigger] r[i]) by {
            let j = choose|j: int| 0 <= j < s0.len() && s0[j] == r[i];
            assert(s[j] == r[i]);
        }
        assert(s[s.len() - 1] == s.last());
        if keys_unique(s) {
            assert(keys_unique(s0)) by {
                assert forall|a: int, b: int| 0 <= a < b < s0.len() implies (#[trigger] s0[a]).0
                    != (#[trigger] s0[b]).0 by {
                    assert(s[a].0 != s[b].0);
                }
            }
            if in_window(s.last().1, now, window_ms) {
                let p = r.push(s.last());
                assert forall|a: int, b: int| 0 <= a < b < p.len() implies (#[trigger] p[a]).0
                    != (#[trigger] p[b]).0 by {
                    if b == r.len() {
                        let j = choose|j: int| 0 <= j < s0.len() && s0[j] == r[a];
                        assert(s[j].0 != s[s.len() - 1].0);
                    } else {
                        assert(r[a].0 != r[b].0);
                    }
                }
            }
        }
    }
}

/// Releasing a connection gives back what admitting it took: a first connection's entry
/// disappears again, and otherwise the address's entry returns to its count and first
/// sighting (only its last-connection time keeps the new reading); no other entry moves.
pub proof fn lemma_release_undoes_record(s: Seq<Entry>, ip: Seq<char>, now: u128)
    requires
        keys_unique(s),
        has_key(s, ip) ==> 1 <= s[key_index(s, ip)].1.connection_count < u32::MAX,
    ensures
        !has_key(s, ip) ==> spec_release(spec_record(s, ip, now), ip) == s,
        has_key(s, ip) ==> {
            let t = spec_release(spec_record(s, ip, now), ip);
            &&& t.len() == s.len()
            &&& forall|i: int|
                0 <= i < s.len() ==> (#[trigger] t[i]).0 == s[i].0 && t[i].1.connection_count
                    == s[i].1.connection_count && t[i].1.first_seen == s[i].1.first_seen
            &&& forall|i: int| 0 <= i < s.len() && s[i].0 != ip ==> #[trigger] t[i] == s[i]
        },
{
    let r = spec_record(s, ip, now);
    if has_key(s, ip) {
        let k = key_index(s, ip);
        assert(r[k].0 == ip);
        assert(has_key(r, ip));
        let k2 = key_index(r, ip);
        assert(k2 == k) by {
            if k2 != k {
                assert(r[k2] == s[k2]);
                assert(s[k2].0 == ip);
            }
        }
        assert forall|i: int| 0 <= i < s.len() && s[i].0 != ip implies r[i] == s[i] by {
            assert(i != k);
        }
        assert forall|i: int| 0 <= i < s.len() && i != k implies s[i].0 != ip by {
            if i < k {
                assert(s[i].0 != s[k].0);
            } else {
                assert(s[k].0 != s[i].0);
            }
        }
    } else {
        let n = s.len() as int;
        assert(r[n].0 == ip);
        assert(has_key(r, ip));
        let k2 = key_index(r, ip);
        assert(k2 == n) by {
            if k2 != n {
                assert(r[k2] == s[k2]);
                assert(s[k2].0 == ip);
            }
        }
        assert(r.remove(n) =~= s);
    }
}

impl RateLimitError {
    /// The text shown to the client.
    pub open spec fn spec_message(&self) -> Seq<char> {
        match self {
            RateLimitError::ServerLimit => "Server connection limit reached"@,
            RateLimitError::PerIpLimit { ip, max_connections, window_secs } => "Rate limit exceeded for "@
                + ip@ + ": "@ + spec_decimal(*max_connections as nat) + " connections in "@
                + spec_decimal(*window_secs as nat) + " seconds"@,
        }
    }

    pub fn message(&self) -> (r: String)
        ensures
            r@ == self.spec_message(),
    {
        let mut out: Vec<char> = Vec::new();
        match self {
            RateLimitError::ServerLimit => {
                push_str(&mut out, "Server connection limit reached");
            },
            RateLimitError::PerIpLimit { ip, max_connections, window_secs } => {
                push_str(&mut out, "Rate limit exceeded for ");
                push_str(&mut out, ip.as_str());
                push_str(&mut out, ": ");
                push_decimal(&mut out, *max_connections as u64);
                push_str(&mut out, " connections in ");
                push_decimal(&mut out, *window_secs);
                push_str(&mut out, " seconds");
            },
        }
        chars_to_string(out.as_slice())
    }
}

} // verus!
