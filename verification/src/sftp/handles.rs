//! The handles a session has open: what each refers to, how much was written and
//! read through it, whether it holds a lock, and the listing of a directory handle.
//! The open files themselves stay with the caller, under the same handle names.

use vstd::prelude::*;
use crate::sftp::attrs::{readdir_reply, spec_readdir, DirEntry};
use crate::sftp::extended::HandleTarget;
use crate::sftp::requests::{status, status_reply};
use crate::packet::SSH_FX_FAILURE;
use crate::text::str_eq;

verus! {

/// What the session keeps of an open handle.
pub struct OpenHandle {
    pub path: String,
    pub is_dir: bool,
    /// Whether the file existed before it was opened.
    pub existed: bool,
    pub written_bytes: u64,
    pub read_bytes: u64,
    pub locked: bool,
    /// The listing of a directory handle, read when it was opened.
    pub dir_entries: Vec<DirEntry>,
    /// How much of the listing was sent.
    pub dir_index: usize,
}

pub struct HandleView {
    pub path: Seq<char>,
    pub is_dir: bool,
    pub existed: bool,
    pub written_bytes: u64,
    pub read_bytes: u64,
    pub locked: bool,
    pub dir_entries: Seq<DirEntry>,
    pub dir_index: usize,
}

impl OpenHandle {
    pub open spec fn view_handle(&self) -> HandleView {
        HandleView {
            path: self.path@,
            is_dir: self.is_dir,
            existed: self.existed,
            written_bytes: self.written_bytes,
            read_bytes: self.read_bytes,
            locked: self.locked,
            dir_entries: self.dir_entries@,
            dir_index: self.dir_index,
        }
    }
}

pub open spec fn string_texts(v: Seq<String>) -> Seq<Seq<char>> {
    v.map_values(|s: String| s@)
}

/// The handle named `k` among `s`, the last such entry.
pub open spec fn lookup(s: Seq<(Seq<char>, HandleView)>, k: Seq<char>) -> Option<HandleView>
    decreases s.len(),
{
    if s.len() == 0 {
        None
    } else if s.last().0 == k {
        Some(s.last().1)
    } else {
        lookup(s.drop_last(), k)
    }
}

pub open spec fn keys_unique(s: Seq<(Seq<char>, HandleView)>) -> bool {
    forall|i: int, j: int| 0 <= i < j < s.len() ==> s[i].0 != s[j].0
}

/// The open handles of a session, by name.
///
/// The keys are texts. vstd specifies `std::collections::HashMap` only for keys whose
/// hashing and equality it knows to follow its model (integers, `bool` and boxes of
/// them, through `obeys_key_model`), which `String` is not among, and that model may
/// not be assumed here; so the map is a vector with one entry per key, an invariant
/// that every operation keeps.
pub struct HandleTable {
    entries: Vec<(String, OpenHandle)>,
}

pub open spec fn entry_views(v: Seq<(String, OpenHandle)>) -> Seq<(Seq<char>, HandleView)> {
    v.map_values(|e: (String, OpenHandle)| (e.0@, e.1.view_handle()))
}

proof fn lemma_lookup_present(s: Seq<(Seq<char>, HandleView)>, i: int)
    requires
        keys_unique(s),
        0 <= i < s.len(),
    ensures
        lookup(s, s[i].0) == Some(s[i].1),
    decreases s.len(),
{
    if i < s.len() - 1 {
        assert(s.drop_last()[i] == s[i]);
        lemma_lookup_present(s.drop_last(), i);
    }
}

proof fn lemma_lookup_absent(s: Seq<(Seq<char>, HandleView)>, k: Seq<char>)
    requires
        forall|i: int| 0 <= i < s.len() ==> s[i].0 != k,
    ensures
        lookup(s, k) is None,
    decreases s.len(),
{
    if s.len() > 0 {
        assert forall|i: int| 0 <= i < s.drop_last().len() implies s.drop_last()[i].0 != k by {
            assert(s.drop_last()[i] == s[i]);
        }
        lemma_lookup_absent(s.drop_last(), k);
    }
}

proof fn lemma_lookup_found(s: Seq<(Seq<char>, HandleView)>, k: Seq<char>)
    requires
        lookup(s, k) is Some,
    ensures
        exists|i: int| 0 <= i < s.len() && s[i].0 == k && lookup(s, k) == Some(s[i].1),
    decreases s.len(),
{
    if s.last().0 != k {
        lemma_lookup_found(s.drop_last(), k);
        let i = choose|i: int| 0 <= i < s.drop_last().len() && s.drop_last()[i].0 == k && lookup(s.drop_last(), k) == Some(s.drop_last()[i].1);
        assert(s[i] == s.drop_last()[i]);
    } else {
        assert(s[s.len() - 1] == s.last());
    }
}

impl HandleTable {
    pub closed spec fn wf(&self) -> bool {
        keys_unique(entry_views(self.entries@))
    }

    /// The open handles, by name.
    pub closed spec fn handles(&self) -> Map<Seq<char>, HandleView> {
        Map::new(
            |k: Seq<char>| lookup(entry_views(self.entries@), k) is Some,
            |k: Seq<char>| lookup(entry_views(self.entries@), k).unwrap(),
        )
    }

    /// The names of the open handles.
    pub closed spec fn names(&self) -> Seq<Seq<char>> {
        self.entries@.map_values(|e: (String, OpenHandle)| e.0@)
    }

    proof fn lemma_names(&self)
        requires
            self.wf(),
        ensures
            forall|k: Seq<char>| self.handles().contains_key(k) <==> self.names().contains(k),
    {
        let s = entry_views(self.entries@);
        assert forall|k: Seq<char>| self.handles().contains_key(k) <==> self.names().contains(k) by {
            if self.handles().contains_key(k) {
                lemma_lookup_found(s, k);
                let i = choose|i: int| 0 <= i < s.len() && s[i].0 == k && lookup(s, k) == Some(s[i].1);
                assert(self.names()[i] == k);
            }
            if self.names().contains(k) {
                let i = choose|i: int| 0 <= i < self.names().len() && self.names()[i] == k;
                assert(s[i].0 == k);
                lemma_lookup_present(s, i);
            }
        }
    }

    pub fn new() -> (r: Self)
        ensures
            r.wf(),
            r.handles() == Map::<Seq<char>, HandleView>::empty(),
    {
        let r = HandleTable { entries: Vec::new() };
        assert(r.handles() =~= Map::<Seq<char>, HandleView>::empty());
        r
    }

    fn position(&self, name: &str) -> (r: Option<usize>)
        requires
            self.wf(),
        ensures
            match r {
                Some(i) => i < self.entries@.len() && self.entries@[i as int].0@ == name@,
                None => forall|i: int| 0 <= i < self.entries@.len() ==> self.entries@[i].0@ != name@,
            },
    {
        let mut i: usize = 0;
        while i < self.entries.len()
            invariant
                i <= self.entries@.len(),
                forall|j: int| 0 <= j < i ==> self.entries@[j].0@ != name@,
            decreases self.entries.len() - i,
        {
            if str_eq(self.entries[i].0.as_str(), name) {
                return Some(i);
            }
            i = i + 1;
        }
        None
    }

    /// The names of the open handles, for choosing a new one.
    pub fn handle_names(&self) -> (r: Vec<String>)
        requires
            self.wf(),
        ensures
            forall|k: Seq<char>| string_texts(r@).contains(k) <==> self.handles().contains_key(k),
    {
        proof {
            self.lemma_names();
        }
        let mut out: Vec<String> = Vec::new();
        let mut i: usize = 0;
        while i < self.entries.len()
            invariant
                i <= self.entries@.len(),
                string_texts(out@) =~= self.names().take(i as int),
            decreases self.entries.len() - i,
        {
            let ghost before = string_texts(out@);
            out.push(self.entries[i].0.clone());
            assert(string_texts(out@) =~= before.push(self.entries@[i as int].0@));
            assert(self.names().take(i + 1) =~= self.names().take(i as int).push(self.names()[i as int]));
            i = i + 1;
        }
        assert(self.names().take(self.entries@.len() as int) =~= self.names());
        out
    }

    /// What the handle named `name` refers to.
    pub fn target(&self, name: &str) -> (r: HandleTarget)
        requires
            self.wf(),
        ensures
            r == (match self.handles().get(name@) {
                None => HandleTarget::Missing,
                Some(h) => if h.is_dir {
                    HandleTarget::Directory
                } else {
                    HandleTarget::File
                },
            }),
    {
        let ghost s = entry_views(self.entries@);
        match self.position(name) {
            Some(i) => {
                proof {
                    lemma_lookup_present(s, i as int);
                }
                if self.entries[i].1.is_dir {
                    HandleTarget::Directory
                } else {
                    HandleTarget::File
                }
            },
            None => {
                proof {
                    lemma_lookup_absent(s, name@);
                }
                HandleTarget::Missing
            },
        }
    }

    /// Opens `name`, replacing a handle of that name.
    pub fn insert(&mut self, name: String, h: OpenHandle)
        requires
            old(self).wf(),
        ensures
            final(self).wf(),
            final(self).handles() == old(self).handles().insert(name@, h.view_handle()),
    {
        let ghost old_map = self.handles();
        let removed = self.remove(name.as_str());
        let ghost mid = entry_views(self.entries@);
        let ghost mid_map = self.handles();
        let ghost k = name@;
        let ghost v = h.view_handle();
        proof {
            assert(mid_map == old_map.remove(k));
            assert(!mid_map.dom().contains(k));
            assert(mid_map.dom().contains(k) == (lookup(mid, k) is Some));
        }
        self.entries.push((name, h));
        proof {
            let s = entry_views(self.entries@);
            assert(s =~= mid.push((k, v)));
            assert(s.drop_last() =~= mid);
            assert forall|i: int, j: int| 0 <= i < j < s.len() implies s[i].0 != s[j].0 by {
                if j == s.len() - 1 {
                    assert(s[i] == mid[i]);
                    if mid[i].0 == k {
                        lemma_lookup_present(mid, i);
                    }
                } else {
                    assert(s[i] == mid[i] && s[j] == mid[j]);
                }
            }
            assert forall|k2: Seq<char>| #[trigger] lookup(s, k2) == (if k2 == k {
                Some(v)
            } else {
                lookup(mid, k2)
            }) by {}
            let hm = self.handles();
            assert forall|k2: Seq<char>| k2 != k implies (#[trigger] hm.dom().contains(k2)) == old_map.dom().contains(k2)
                && (hm.dom().contains(k2) ==> hm[k2] == old_map[k2]) by {
                assert(hm.dom().contains(k2) == (lookup(s, k2) is Some));
                assert(mid_map.dom().contains(k2) == (lookup(mid, k2) is Some));
                assert(old_map.remove(k).dom().contains(k2) == old_map.dom().contains(k2));
                if lookup(mid, k2) is Some {
                    assert(mid_map[k2] == lookup(mid, k2).unwrap());
                    assert(hm[k2] == lookup(s, k2).unwrap());
                    assert(old_map.remove(k)[k2] == old_map[k2]);
                }
            }
            assert(hm.dom().contains(k) && hm[k] == v);
            assert(hm =~= old_map.insert(k, v));
        }
    }

    /// Closes the handle named `name`, giving back what it was.
    pub fn remove(&mut self, name: &str) -> (r: Option<OpenHandle>)
        requires
            old(self).wf(),
        ensures
            final(self).wf(),
            final(self).handles() == old(self).handles().remove(name@),
            match r {
                Some(h) => old(self).handles().get(name@) == Some(h.view_handle()),
                None => !old(self).handles().contains_key(name@),
            },
    {
        let ghost s = entry_views(self.entries@);
        match self.position(name) {
            None => {
                proof {
                    lemma_lookup_absent(s, name@);
                    assert(self.handles() =~= self.handles().remove(name@));
                }
                None
            },
            Some(i) => {
                proof {
                    lemma_lookup_present(s, i as int);
                }
                let ghost old_map = self.handles();
                let (_, h) = self.entries.remove(i);
                proof {
                    let t = entry_views(self.entries@);
                    assert(t =~= s.remove(i as int));
                    assert forall|a: int, b: int| 0 <= a < b < t.len() implies t[a].0 != t[b].0 by {
                        let a0 = if a < i { a } else { a + 1 };
                        let b0 = if b < i { b } else { b + 1 };
                        assert(t[a] == s[a0] && t[b] == s[b0]);
                    }
                    assert forall|k: Seq<char>| #[trigger] lookup(t, k) == (if k == name@ {
                        None
                    } else {
                        lookup(s, k)
                    }) by {
                        if k == name@ {
                            assert forall|m: int| 0 <= m < t.len() implies t[m].0 != k by {
                                let m0 = if m < i { m } else { m + 1 };
                                assert(t[m] == s[m0]);
                            }
                            lemma_lookup_absent(t, k);
                        } else {
                            if lookup(t, k) is Some {
                                lemma_lookup_found(t, k);
                                let m = choose|m: int| 0 <= m < t.len() && t[m].0 == k && lookup(t, k) == Some(t[m].1);
                                let m0 = if m < i { m } else { m + 1 };
                                assert(t[m] == s[m0]);
                                lemma_lookup_present(s, m0);
                            } else if lookup(s, k) is Some {
                                lemma_lookup_found(s, k);
                                let m0 = choose|m: int| 0 <= m < s.len() && s[m].0 == k && lookup(s, k) == Some(s[m].1);
                                assert(m0 != i);
                                let m = if m0 < i { m0 } else { m0 - 1 };
                                assert(t[m] == s[m0]);
                                lemma_lookup_present(t, m);
                            }
                        }
                    }
                    assert(self.handles() =~= old_map.remove(name@));
                }
                Some(h)
            },
        }
    }

    /// Records the lock state of an open file handle.
    pub fn set_locked(&mut self, name: &str, locked: bool)
        requires
            old(self).wf(),
        ensures
            final(self).wf(),
            final(self).handles() == (match old(self).handles().get(name@) {
                Some(h) => old(self).handles().insert(name@, HandleView { locked, ..h }),
                None => old(self).handles(),
            }),
    {
        match self.remove(name) {
            Some(h) => {
                let name_owned = name.to_owned();
                self.insert(name_owned, OpenHandle { locked, ..h });
                proof {
                    assert(old(self).handles().remove(name@).insert(name@, HandleView { locked, ..h.view_handle() })
                        =~= old(self).handles().insert(name@, HandleView { locked, ..h.view_handle() }));
                }
            },
            None => {
                proof {
                    assert(old(self).handles().remove(name@) =~= old(self).handles());
                }
            },
        }
    }

    /// Counts bytes written through a handle (`add_read`: read).
    pub fn add_written(&mut self, name: &str, n: u64)
        requires
            old(self).wf(),
            old(self).handles().contains_key(name@) ==> old(self).handles()[name@].written_bytes + n <= u64::MAX,
        ensures
            final(self).wf(),
            final(self).handles() == (match old(self).handles().get(name@) {
                Some(h) => old(self).handles().insert(
                    name@,
                    HandleView { written_bytes: (h.written_bytes + n) as u64, ..h },
                ),
                None => old(self).handles(),
            }),
    {
        match self.remove(name) {
            Some(h) => {
                let w = h.written_bytes + n;
                let name_owned = name.to_owned();
                self.insert(name_owned, OpenHandle { written_bytes: w, ..h });
                proof {
                    let hv = h.view_handle();
                    assert(old(self).handles().remove(name@).insert(name@, HandleView { written_bytes: w, ..hv })
                        =~= old(self).handles().insert(name@, HandleView { written_bytes: w, ..hv }));
                }
            },
            None => {
                proof {
                    assert(old(self).handles().remove(name@) =~= old(self).handles());
                }
            },
        }
    }

    pub fn add_read(&mut self, name: &str, n: u64)
        requires
            old(self).wf(),
            old(self).handles().contains_key(name@) ==> old(self).handles()[name@].read_bytes + n <= u64::MAX,
        ensures
            final(self).wf(),
            final(self).handles() == (match old(self).handles().get(name@) {
                Some(h) => old(self).handles().insert(
                    name@,
                    HandleView { read_bytes: (h.read_bytes + n) as u64, ..h },
                ),
                None => old(self).handles(),
            }),
    {
        match self.remove(name) {
            Some(h) => {
                let v = h.read_bytes + n;
                let name_owned = name.to_owned();
                self.insert(name_owned, OpenHandle { read_bytes: v, ..h });
                proof {
                    let hv = h.view_handle();
                    assert(old(self).handles().remove(name@).insert(name@, HandleView { read_bytes: v, ..hv })
                        =~= old(self).handles().insert(name@, HandleView { read_bytes: v, ..hv }));
                }
            },
            None => {
                proof {
                    assert(old(self).handles().remove(name@) =~= old(self).handles());
                }
            },
        }
    }

    /// `READDIR` on a handle: the next part of a directory's listing, which moves the
    /// handle's position on; any other handle is invalid.
    pub fn readdir(&mut self, id: u32, name: &str) -> (r: Vec<u8>)
        requires
            old(self).wf(),
        ensures
            final(self).wf(),
            match old(self).handles().get(name@) {
                Some(h) => if h.is_dir {
                    let (reply, next) = spec_readdir(id, h.dir_entries, h.dir_index as int);
                    &&& r@ == reply
                    &&& final(self).handles() == old(self).handles().insert(
                        name@,
                        HandleView { dir_index: next as usize, ..h },
                    )
                } else {
                    r@ == status_reply(id, SSH_FX_FAILURE, "Invalid handle"@) && final(self).handles()
                        == old(self).handles()
                },
                None => r@ == status_reply(id, SSH_FX_FAILURE, "Invalid handle"@) && final(self).handles()
                    == old(self).handles(),
            },
    {
        match self.remove(name) {
            Some(h) => {
                if h.is_dir {
                    let (reply, next) = readdir_reply(id, &h.dir_entries, h.dir_index);
                    let name_owned = name.to_owned();
                    self.insert(name_owned, OpenHandle { dir_index: next, ..h });
                    proof {
                        let hv = h.view_handle();
                        assert(old(self).handles().remove(name@).insert(name@, HandleView { dir_index: next, ..hv })
                            =~= old(self).handles().insert(name@, HandleView { dir_index: next, ..hv }));
                    }
                    reply
                } else {
                    let name_owned = name.to_owned();
                    let ghost hv = h.view_handle();
                    self.insert(name_owned, h);
                    proof {
                        assert(old(self).handles().remove(name@).insert(name@, hv) =~= old(self).handles());
                    }
                    status(id, SSH_FX_FAILURE, "Invalid handle")
                }
            },
            None => {
                proof {
                    assert(old(self).handles().remove(name@) =~= old(self).handles());
                }
                status(id, SSH_FX_FAILURE, "Invalid handle")
            },
        }
    }

    /// Closes every handle when the session ends, giving the paths of those that held
    /// a lock.
    pub fn close_all(&mut self) -> (r: Vec<String>)
        requires
            old(self).wf(),
        ensures
            final(self).wf(),
            final(self).handles() == Map::<Seq<char>, HandleView>::empty(),
            forall|p: Seq<char>| #[trigger] string_texts(r@).contains(p) <==> exists|k: Seq<char>|
                #[trigger] old(self).handles().contains_key(k) && old(self).handles()[k].locked
                    && old(self).handles()[k].path == p,
    {
        let ghost s = entry_views(self.entries@);
        let mut out: Vec<String> = Vec::new();
        let mut i: usize = 0;
        while i < self.entries.len()
            invariant
                i <= self.entries@.len(),
                s == entry_views(self.entries@),
                keys_unique(s),
                forall|p: Seq<char>| #[trigger] string_texts(out@).contains(p) <==> exists|m: int|
                    0 <= m < i && #[trigger] s[m].1.locked && s[m].1.path == p,
            decreases self.entries.len() - i,
        {
            let ghost before = string_texts(out@);
            if self.entries[i].1.locked {
                out.push(self.entries[i].1.path.clone());
                assert(string_texts(out@) =~= before.push(s[i as int].1.path));
                assert forall|p: Seq<char>| #[trigger] string_texts(out@).contains(p) <==> exists|m: int|
                    0 <= m < i + 1 && #[trigger] s[m].1.locked && s[m].1.path == p by {
                    if string_texts(out@).contains(p) {
                        let q = choose|q: int| 0 <= q < out@.len() && string_texts(out@)[q] == p;
                        if q < before.len() {
                            assert(before[q] == p);
                            assert(before.contains(p));
                        } else {
                            assert(s[i as int].1.locked && s[i as int].1.path == p);
                        }
                    }
                    if exists|m: int| 0 <= m < i + 1 && #[trigger] s[m].1.locked && s[m].1.path == p {
                        let m = choose|m: int| 0 <= m < i + 1 && #[trigger] s[m].1.locked && s[m].1.path == p;
                        if m < i {
                            assert(before.contains(p));
                            let q = choose|q: int| 0 <= q < before.len() && before[q] == p;
                            assert(string_texts(out@)[q] == p);
                        } else {
                            assert(string_texts(out@)[before.len() as int] == p);
                        }
                    }
                }
            } else {
                assert(string_texts(out@) =~= before);
                assert forall|p: Seq<char>| #[trigger] string_texts(out@).contains(p) <==> exists|m: int|
                    0 <= m < i + 1 && #[trigger] s[m].1.locked && s[m].1.path == p by {
                    if exists|m: int| 0 <= m < i + 1 && #[trigger] s[m].1.locked && s[m].1.path == p {
                        let m = choose|m: int| 0 <= m < i + 1 && #[trigger] s[m].1.locked && s[m].1.path == p;
                        assert(m < i);
                    }
                }
            }
            i = i + 1;
        }
        proof {
            assert forall|p: Seq<char>| #[trigger] string_texts(out@).contains(p) <==> exists|k: Seq<char>|
                #[trigger] old(self).handles().contains_key(k) && old(self).handles()[k].locked
                    && old(self).handles()[k].path == p by {
                if string_texts(out@).contains(p) {
                    let m = choose|m: int| 0 <= m < s.len() && #[trigger] s[m].1.locked && s[m].1.path == p;
                    lemma_lookup_present(s, m);
                    assert(old(self).handles().contains_key(s[m].0));
                }
                if exists|k: Seq<char>| #[trigger] old(self).handles().contains_key(k) && old(self).handles()[k].locked
                    && old(self).handles()[k].path == p {
                    let k = choose|k: Seq<char>| #[trigger] old(self).handles().contains_key(k) && old(self).handles()[k].locked
                        && old(self).handles()[k].path == p;
                    lemma_lookup_found(s, k);
                    let m = choose|m: int| 0 <= m < s.len() && s[m].0 == k && lookup(s, k) == Some(s[m].1);
                    assert(s[m].1.locked && s[m].1.path == p);
                }
            }
        }
        self.entries = Vec::new();
        assert(self.handles() =~= Map::<Seq<char>, HandleView>::empty());
        out
    }
}

/// Opening a handle under a new name and closing it again leaves the session's
/// handles as they were.
pub proof fn lemma_close_undoes_open(handles: Map<Seq<char>, HandleView>, name: Seq<char>, h: HandleView)
    requires
        !handles.contains_key(name),
    ensures
        handles.insert(name, h).remove(name) == handles,
        handles.insert(name, h).get(name) == Some(h),
{
    assert(handles.insert(name, h).remove(name) =~= handles);
}

} // verus!
