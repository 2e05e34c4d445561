//! Disk quotas: the cached usage of each home directory, and allocations against it
//! that are given back when the write they were made for does not happen.

use vstd::prelude::*;

verus! {

/// One home directory and its cached usage in bytes.
pub type UsageEntry = (Seq<char>, u64);

pub open spec fn has_home(s: Seq<UsageEntry>, home: Seq<char>) -> bool {
    exists|i: int| 0 <= i < s.len() && (#[trigger] s[i]).0 == home
}

pub open spec fn home_index(s: Seq<UsageEntry>, home: Seq<char>) -> int {
    choose|i: int| 0 <= i < s.len() && (#[trigger] s[i]).0 == home
}

pub open spec fn homes_unique(s: Seq<UsageEntry>) -> bool {
    forall|i: int, j: int| 0 <= i < j < s.len() ==> (#[trigger] s[i]).0 != (#[trigger] s[j]).0
}

/// The cached usage of `home`, if any.
pub open spec fn cached_usage(s: Seq<UsageEntry>, home: Seq<char>) -> Option<u64> {
    if has_home(s, home) {
        Some(s[home_index(s, home)].1)
    } else {
        None
    }
}

pub open spec fn usage_or_zero(s: Seq<UsageEntry>, home: Seq<char>) -> u64 {
    match cached_usage(s, home) {
        Some(v) => v,
        None => 0,
    }
}

/// The cache with `home` set to `v`.
pub open spec fn set_usage(s: Seq<UsageEntry>, home: Seq<char>, v: u64) -> Seq<UsageEntry> {
    if has_home(s, home) {
        s.update(home_index(s, home), (home, v))
    } else {
        s.push((home, v))
    }
}

/// The cache without `home`.
pub open spec fn drop_usage(s: Seq<UsageEntry>, home: Seq<char>) -> Seq<UsageEntry> {
    if has_home(s, home) {
        s.remove(home_index(s, home))
    } else {
        s
    }
}

/// A quota of `quota_mb` MiB in bytes.
pub open spec fn quota_limit(quota_mb: u64) -> int {
    quota_mb * 1024 * 1024
}

/// Allocating `additional` bytes for `home`: always granted without a quota (zero),
/// leaving the cache as it is; otherwise refused when the cached usage (zero when
/// unknown) plus the bytes, saturating, exceeds the quota, and else added to the cache.
pub open spec fn spec_allocate(s: Seq<UsageEntry>, home: Seq<char>, quota_mb: u64, additional: u64) -> (bool, Seq<UsageEntry>) {
    if quota_mb == 0 {
        (true, s)
    } else {
        let cur = usage_or_zero(s, home);
        if cur + additional > quota_limit(quota_mb) {
            (false, s)
        } else {
            (true, set_usage(s, home, (cur + additional) as u64))
        }
    }
}

/// Giving back `bytes` of `home`: its cached usage drops by them, not below zero;
/// nothing happens when the usage is not cached.
pub open spec fn spec_release(s: Seq<UsageEntry>, home: Seq<char>, bytes: u64) -> Seq<UsageEntry> {
    match cached_usage(s, home) {
        Some(v) => set_usage(s, home, if v >= bytes { (v - bytes) as u64 } else { 0 }),
        None => s,
    }
}

/// An allocation that is given back unless committed. Without a quota nothing was
/// added to the cache, so nothing is given back either.
pub struct QuotaGuard {
    bytes: u64,
    home_dir: String,
    committed: bool,
    reserved: bool,
}

impl QuotaGuard {
    pub closed spec fn spec_bytes(&self) -> u64 {
        self.bytes
    }

    pub closed spec fn home(&self) -> Seq<char> {
        self.home_dir@
    }

    pub closed spec fn is_committed(&self) -> bool {
        self.committed
    }

    /// Whether the bytes were added to the cached usage when the guard was made.
    pub closed spec fn is_reserved(&self) -> bool {
        self.reserved
    }

    /// The data was written: the allocation stays.
    pub fn commit(&mut self)
        ensures
            final(self).is_committed(),
            final(self).spec_bytes() == old(self).spec_bytes(),
            final(self).home() == old(self).home(),
            final(self).is_reserved() == old(self).is_reserved(),
    {
        self.committed = true;
    }

    pub fn bytes(&self) -> (r: u64)
        ensures
            r == self.spec_bytes(),
    {
        self.bytes
    }
}

/// The cached usage of each home directory.
///
/// The keys are texts. vstd specifies `std::collections::HashMap` only for keys whose
/// hashing and equality it knows to follow its model (integers, `bool` and boxes of
/// them, through `obeys_key_model`), which `String` is not among, and that model may
/// not be assumed here; so the map is a vector with one entry per key, an invariant
/// that every operation keeps.
pub struct QuotaCache {
    entries: Vec<(String, u64)>,
}

impl QuotaCache {
    /// The cached usages, in the order the homes were first seen.
    pub closed spec fn usages(&self) -> Seq<UsageEntry> {
        self.entries@.map_values(|e: (String, u64)| (e.0@, e.1))
    }

    /// One entry per home directory.
    pub open spec fn wf(&self) -> bool {
        homes_unique(self.usages())
    }

    pub fn new() -> (r: Self)
        ensures
            r.wf(),
            r.usages() == Seq::<UsageEntry>::empty(),
    {
        let r = QuotaCache { entries: Vec::new() };
        assert(r.usages() =~= Seq::<UsageEntry>::empty());
        r
    }

    fn find(&self, home: &String) -> (r: Option<usize>)
        requires
            self.wf(),
        ensures
            match r {
                Some(i) => i < self.usages().len() && has_home(self.usages(), home@) && i
                    == home_index(self.usages(), home@),
                None => !has_home(self.usages(), home@),
            },
    {
        let mut i: usize = 0;
        while i < self.entries.len()
            invariant
                i <= self.entries@.len(),
                self.wf(),
                forall|j: int| 0 <= j < i ==> (#[trigger] self.usages()[j]).0 != home@,
            decreases self.entries.len() - i,
        {
            if self.entries[i].0 == *home {
                assert(self.usages()[i as int].0 == home@);
                let ghost k = home_index(self.usages(), home@);
                assert(k == i as int) by {
                    if k != i as int {
                        assert(self.usages()[k].0 == home@);
                    }
                }
                return Some(i);
            }
            assert(self.usages()[i as int].0 != home@);
            i = i + 1;
        }
        None
    }

    /// The cached usage of a home directory; `None` when it must be computed.
    pub fn cached(&self, home_dir: &str) -> (r: Option<u64>)
        requires
            self.wf(),
        ensures
            r == cached_usage(self.usages(), home_dir@),
    {
        let key = home_dir.to_owned();
        match self.find(&key) {
            Some(i) => Some(self.entries[i].1),
            None => None,
        }
    }

    fn set(&mut self, home: String, v: u64)
        requires
            old(self).wf(),
        ensures
            final(self).wf(),
            final(self).usages() == set_usage(old(self).usages(), home@, v),
    {
        let ghost before = self.usages();
        match self.find(&home) {
            Some(i) => {
                let ghost h = home@;
                self.entries.set(i, (home, v));
                assert(self.usages() =~= before.update(i as int, (h, v)));
                assert forall|a: int, b: int| 0 <= a < b < self.usages().len() implies (#[trigger] self.usages()[a]).0
                    != (#[trigger] self.usages()[b]).0 by {
                    assert(before[a].0 != before[b].0);
                }
            },
            None => {
                let ghost h = home@;
                self.entries.push((home, v));
                assert(self.usages() =~= before.push((h, v)));
                assert forall|a: int, b: int| 0 <= a < b < self.usages().len() implies (#[trigger] self.usages()[a]).0
                    != (#[trigger] self.usages()[b]).0 by {
                    if b == before.len() {
                        assert(before[a].0 != h);
                    } else {
                        assert(before[a].0 != before[b].0);
                    }
                }
            },
        }
    }

    /// Caches the usage just computed for a home directory.
    pub fn record_usage(&mut self, home_dir: &str, usage: u64)
        requires
            old(self).wf(),
        ensures
            final(self).wf(),
            final(self).usages() == set_usage(old(self).usages(), home_dir@, usage),
    {
        self.set(home_dir.to_owned(), usage);
    }

    /// Forgets the cached usage of a home directory.
    pub fn invalidate(&mut self, home_dir: &str)
        requires
            old(self).wf(),
        ensures
            final(self).wf(),
            final(self).usages() == drop_usage(old(self).usages(), home_dir@),
    {
        let key = home_dir.to_owned();
        let ghost before = self.usages();
        match self.find(&key) {
            Some(i) => {
                self.entries.remove(i);
                assert(self.usages() =~= before.remove(i as int));
                assert forall|a: int, b: int| 0 <= a < b < self.usages().len() implies (#[trigger] self.usages()[a]).0
                    != (#[trigger] self.usages()[b]).0 by {
                    let a0 = if a < i { a } else { a + 1 };
                    let b0 = if b < i { b } else { b + 1 };
                    assert(before[a0].0 != before[b0].0);
                }
            },
            None => {},
        }
    }

    /// Tries to allocate `additional` bytes for a home directory under a quota of
    /// `quota_mb` MiB (zero: unlimited). The guard gives the bytes back unless committed.
    pub fn try_allocate(&mut self, home_dir: &str, quota_mb: u64, additional: u64) -> (r: Result<QuotaGuard, &'static str>)
        requires
            old(self).wf(),
            quota_limit(quota_mb) <= u64::MAX,
        ensures
            final(self).wf(),
            (r is Ok, final(self).usages()) == spec_allocate(old(self).usages(), home_dir@, quota_mb, additional),
            r matches Ok(g) ==> g.spec_bytes() == additional && g.home() == home_dir@ && !g.is_committed()
                && g.is_reserved() == (quota_mb != 0),
            r matches Err(m) ==> m@ == "Quota exceeded"@,
    {
        if quota_mb == 0 {
            return Ok(QuotaGuard { bytes: additional, home_dir: home_dir.to_owned(), committed: false, reserved: false });
        }
        let quota_bytes = quota_mb * 1024 * 1024;
        let cur = match self.cached(home_dir) {
            Some(v) => v,
            None => 0,
        };
        if cur.saturating_add(additional) > quota_bytes {
            return Err("Quota exceeded");
        }
        self.set(home_dir.to_owned(), cur + additional);
        Ok(QuotaGuard { bytes: additional, home_dir: home_dir.to_owned(), committed: false, reserved: true })
    }

    /// Ends an allocation: an uncommitted guard gives back the bytes it added.
    pub fn finish(&mut self, guard: QuotaGuard)
        requires
            old(self).wf(),
        ensures
            final(self).wf(),
            guard.is_committed() || !guard.is_reserved() ==> final(self).usages() == old(self).usages(),
            !guard.is_committed() && guard.is_reserved() ==> final(self).usages() == spec_release(
                old(self).usages(),
                guard.home(),
                guard.spec_bytes(),
            ),
    {
        if !guard.committed && guard.reserved {
            match self.cached(guard.home_dir.as_str()) {
                Some(v) => {
                    let nv = if v >= guard.bytes { v - guard.bytes } else { 0 };
                    self.set(guard.home_dir, nv);
                },
                None => {},
            }
        }
    }
}

/// Whether `additional` more bytes fit under a quota of `quota_mb` MiB (zero:
/// unlimited), the home directory now using `usage` bytes.
pub fn check_quota(quota_mb: u64, usage: u64, additional: u64) -> (r: bool)
    requires
        quota_limit(quota_mb) <= u64::MAX,
    ensures
        r == (quota_mb == 0 || (if usage + additional > u64::MAX { u64::MAX as int } else { usage + additional }) <= quota_limit(quota_mb)),
{
    if quota_mb == 0 {
        return true;
    }
    usage.saturating_add(additional) <= quota_mb * 1024 * 1024
}

/// The cache after an allocation that is finished without being committed: the bytes
/// are given back only where the allocation added them (under a quota).
pub open spec fn spec_allocate_then_abandon(s: Seq<UsageEntry>, home: Seq<char>, quota_mb: u64, additional: u64) -> Seq<UsageEntry> {
    let a = spec_allocate(s, home, quota_mb, additional).1;
    if quota_mb == 0 {
        a
    } else {
        spec_release(a, home, additional)
    }
}

/// An allocation that is granted and then finished without being committed leaves the
/// usage of its home directory as it was (an unknown usage comes back as zero; without a
/// quota the cache does not change at all), and no other home's usage changes.
pub proof fn lemma_uncommitted_allocation_restores(s: Seq<UsageEntry>, home: Seq<char>, quota_mb: u64, additional: u64)
    requires
        homes_unique(s),
        quota_limit(quota_mb) <= u64::MAX,
        spec_allocate(s, home, quota_mb, additional).0,
    ensures
        ({
            let t = spec_allocate_then_abandon(s, home, quota_mb, additional);
            &&& quota_mb == 0 ==> t == s
            &&& usage_or_zero(t, home) == usage_or_zero(s, home)
            &&& forall|h: Seq<char>| h != home ==> cached_usage(t, h) == cached_usage(s, h)
        }),
{
    if quota_mb != 0 {
        let cur = usage_or_zero(s, home);
        let a = set_usage(s, home, (cur + additional) as u64);
        lemma_set_usage(s, home, (cur + additional) as u64);
        assert(cached_usage(a, home) == Some((cur + additional) as u64));
        assert(spec_allocate(s, home, quota_mb, additional).1 == a);
        let t = spec_release(a, home, additional);
        assert(t == set_usage(a, home, cur));
        lemma_set_usage(a, home, cur);
    }
}

/// Setting a home's usage: that home reads back the value, the others are untouched,
/// and homes stay unique.
pub proof fn lemma_set_usage(s: Seq<UsageEntry>, home: Seq<char>, v: u64)
    requires
        homes_unique(s),
    ensures
        homes_unique(set_usage(s, home, v)),
        cached_usage(set_usage(s, home, v), home) == Some(v),
        forall|h: Seq<char>| h != home ==> cached_usage(set_usage(s, home, v), h) == cached_usage(s, h),
{
    let t = set_usage(s, home, v);
    if has_home(s, home) {
        let k = home_index(s, home);
        assert forall|a: int, b: int| 0 <= a < b < t.len() implies (#[trigger] t[a]).0 != (#[trigger] t[b]).0 by {
            assert(s[a].0 != s[b].0);
        }
        assert(t[k].0 == home);
        let k2 = home_index(t, home);
        assert(k2 == k) by {
            if k2 != k {
                assert(t[k2] == s[k2]);
                assert(s[k2].0 != s[k].0 || k2 == k);
            }
        }
        assert forall|h: Seq<char>| h != home implies cached_usage(t, h) == cached_usage(s, h) by {
            if has_home(s, h) {
                let j = home_index(s, h);
                assert(t[j] == s[j]);
                assert(has_home(t, h));
                let j2 = home_index(t, h);
                assert(j2 == j) by {
                    if j2 != j {
                        assert(t[j2] == s[j2]);
                    }
                }
            } else {
                if has_home(t, h) {
                    let j2 = home_index(t, h);
                    assert(t[j2] == s[j2]);
                }
            }
        }
    } else {
        let n = s.len() as int;
        assert forall|a: int, b: int| 0 <= a < b < t.len() implies (#[trigger] t[a]).0 != (#[trigger] t[b]).0 by {
            if b == n {
                assert(s[a].0 != home);
            } else {
                assert(s[a].0 != s[b].0);
            }
        }
        assert(t[n].0 == home);
        let k2 = home_index(t, home);
        assert(k2 == n) by {
            if k2 != n {
                assert(t[k2] == s[k2]);
            }
        }
        assert forall|h: Seq<char>| h != home implies cached_usage(t, h) == cached_usage(s, h) by {
            if has_home(s, h) {
                let j = home_index(s, h);
                assert(t[j] == s[j]);
                assert(has_home(t, h));
                let j2 = home_index(t, h);
                assert(j2 == j) by {
                    if j2 != j {
                        assert(t[j2] == s[j2] || j2 == n);
                    }
                }
            } else {
                if has_home(t, h) {
                    let j2 = home_index(t, h);
                    assert(j2 != n);
                    assert(t[j2] == s[j2]);
                }
            }
        }
    }
}

/// Under a quota, an allocation is granted exactly when the home's cached usage (zero
/// when unknown) plus the bytes asked for fits the quota in bytes; a granted one raises
/// that usage by the bytes, so it never ends above the quota; a refused one changes
/// nothing.
pub proof fn lemma_allocation_respects_quota(s: Seq<UsageEntry>, home: Seq<char>, quota_mb: u64, additional: u64)
    requires
        homes_unique(s),
        quota_mb > 0,
        quota_limit(quota_mb) <= u64::MAX,
    ensures
        spec_allocate(s, home, quota_mb, additional).0 <==> usage_or_zero(s, home) + additional <= quota_limit(quota_mb),
        spec_allocate(s, home, quota_mb, additional).0 ==> usage_or_zero(spec_allocate(s, home, quota_mb, additional).1, home)
            == usage_or_zero(s, home) + additional,
        spec_allocate(s, home, quota_mb, additional).0 ==> usage_or_zero(spec_allocate(s, home, quota_mb, additional).1, home)
            <= quota_limit(quota_mb),
        !spec_allocate(s, home, quota_mb, additional).0 ==> spec_allocate(s, home, quota_mb, additional).1 == s,
{
    let cur = usage_or_zero(s, home);
    if cur + additional <= quota_limit(quota_mb) {
        lemma_set_usage(s, home, (cur + additional) as u64);
    }
}

} // verus!
