//! Paths as component lists, and the confinement of client paths to a home directory.
//!
//! A path is modelled by its components, as `std::path::Path::components` splits a Unix
//! path: the root is the component `/`, a leading `.` of a relative path is the
//! component `.`, `..` is the component `..`, every other non-empty segment is a
//! normal name, and empty or interior `.` segments vanish. Two paths are equal, and one
//! starts with another, by their components.

use vstd::prelude::*;
use vstd::string::*;
use crate::text::{chars_to_string, spec_trim, str_to_chars, trim_chars};

verus! {

pub open spec fn root_part() -> Seq<char> {
    seq!['/']
}

pub open spec fn dot() -> Seq<char> {
    seq!['.']
}

pub open spec fn dotdot() -> Seq<char> {
    seq!['.', '.']
}

/// Adds the component that a finished segment stands for.
pub open spec fn emit_segment(
    parts: Seq<Seq<char>>,
    seg: Seq<char>,
    first: bool,
    absolute: bool,
) -> Seq<Seq<char>> {
    if seg.len() == 0 {
        parts
    } else if seg == dot() {
        if first && !absolute {
            parts.push(seg)
        } else {
            parts
        }
    } else {
        parts.push(seg)
    }
}

/// The state of a left-to-right scan of a path body.
pub struct Scan {
    pub parts: Seq<Seq<char>>,
    pub cur: Seq<char>,
    pub first: bool,
}

pub open spec fn scan_body(body: Seq<char>, absolute: bool) -> Scan
    decreases body.len(),
{
    if body.len() == 0 {
        Scan { parts: seq![], cur: seq![], first: true }
    } else {
        let st = scan_body(body.drop_last(), absolute);
        if body.last() == '/' {
            Scan {
                parts: emit_segment(st.parts, st.cur, st.first, absolute),
                cur: seq![],
                first: false,
            }
        } else {
            Scan { parts: st.parts, cur: st.cur.push(body.last()), first: st.first }
        }
    }
}

pub open spec fn is_absolute_text(p: Seq<char>) -> bool {
    p.len() > 0 && p[0] == '/'
}

/// The components of a path text.
pub open spec fn spec_components(p: Seq<char>) -> Seq<Seq<char>> {
    let absolute = is_absolute_text(p);
    let body = if absolute {
        p.drop_first()
    } else {
        p
    };
    let st = scan_body(body, absolute);
    let start = if absolute {
        seq![root_part()]
    } else {
        seq![]
    };
    start + emit_segment(st.parts, st.cur, st.first, absolute)
}

/// `Path::starts_with`: `base`'s components are a prefix of `p`'s.
pub open spec fn spec_starts_with(p: Seq<Seq<char>>, base: Seq<Seq<char>>) -> bool {
    base.len() <= p.len() && p.take(base.len() as int) == base
}

/// `PathBuf::push` of a relative text, or replacement by an absolute one.
pub open spec fn spec_join_text(base: Seq<char>, rel: Seq<char>) -> Seq<char> {
    if is_absolute_text(rel) {
        rel
    } else if base.len() > 0 && base.last() != '/' {
        base + seq!['/'] + rel
    } else {
        base + rel
    }
}

/// The names joined by `/`.
pub open spec fn join_names(names: Seq<Seq<char>>) -> Seq<char>
    decreases names.len(),
{
    if names.len() == 0 {
        seq![]
    } else if names.len() == 1 {
        names[0]
    } else {
        join_names(names.drop_last()) + seq!['/'] + names.last()
    }
}

/// A text for a component list: the root as a leading `/`, the rest joined by `/`.
pub open spec fn spec_render(c: Seq<Seq<char>>) -> Seq<char> {
    if c.len() > 0 && c[0] == root_part() {
        seq!['/'] + join_names(c.drop_first())
    } else {
        join_names(c)
    }
}

/// A path held as its components.
pub struct FsPath {
    pub parts: Vec<Vec<char>>,
}

impl View for FsPath {
    type V = Seq<Seq<char>>;

    open spec fn view(&self) -> Seq<Seq<char>> {
        self.parts.deep_view()
    }
}

/// Why a client path was refused.
#[derive(Debug, Clone, Copy, PartialEq, Eq, Structural)]
pub enum PathError {
    /// The path text is longer than `MAX_PATH_LENGTH` bytes.
    TooLong,
    /// The home directory does not exist or cannot be accessed.
    HomeInaccessible,
    /// The existing target resolves outside the home directory.
    OutsideHome,
    /// An absolute path names a place outside the home directory.
    AbsoluteOutsideHome,
    /// More parent references than there are directories to leave.
    TooManyParents,
    /// A parent reference would leave the home directory.
    AboveHome,
    /// The walked path escaped the home directory.
    Escaped,
    /// The walked path exists but cannot be resolved.
    CannotAccess,
    /// The working directory lies outside the home directory.
    CwdOutsideHome,
    /// The working directory does not exist or cannot be accessed.
    CwdInaccessible,
}

pub const MAX_PATH_LENGTH: usize = 4096;

/// Equality of two character vectors.
pub fn chars_eq(a: &[char], b: &[char]) -> (r: bool)
    ensures
        r == (a@ == b@),
{
    if a.len() != b.len() {
        return false;
    }
    let mut i: usize = 0;
    while i < a.len()
        invariant
            a@.len() == b@.len(),
            i <= a@.len(),
            forall|j: int| 0 <= j < i ==> a@[j] == b@[j],
        decreases a.len() - i,
    {
        if a[i] != b[i] {
            return false;
        }
        i = i + 1;
    }
    assert(a@ =~= b@);
    true
}

/// A vector of characters deep-views as its characters.
pub proof fn lemma_deep_view_chars(v: &Vec<char>)
    ensures
        v.deep_view() == v@,
{
    assert(v.deep_view() =~= v@);
}

fn is_dot(seg: &[char]) -> (r: bool)
    ensures
        r == (seg@ == dot()),
{
    let r = seg.len() == 1 && seg[0] == '.';
    assert(r ==> seg@ =~= dot());
    r
}

fn emit_segment_exec(parts: &mut Vec<Vec<char>>, seg: Vec<char>, first: bool, absolute: bool)
    ensures
        final(parts).deep_view() == emit_segment(old(parts).deep_view(), seg@, first, absolute),
{
    let ghost old_parts = parts.deep_view();
    if seg.len() == 0 {
        return;
    }
    let keep = if is_dot(seg.as_slice()) {
        first && !absolute
    } else {
        true
    };
    if keep {
        let ghost s = seg@;
        proof {
            lemma_deep_view_chars(&seg);
        }
        parts.push(seg);
        assert(parts.deep_view() =~= old_parts.push(s));
    }
}

proof fn lemma_emit_prefix(pre: Seq<Seq<char>>, parts: Seq<Seq<char>>, seg: Seq<char>, first: bool, absolute: bool)
    ensures
        emit_segment(pre + parts, seg, first, absolute) == pre + emit_segment(parts, seg, first, absolute),
{
    assert((pre + parts).push(seg) =~= pre + parts.push(seg));
}

/// The components of a path text, as `Path::components` yields them.
pub fn components_of(p: &[char]) -> (r: Vec<Vec<char>>)
    ensures
        r.deep_view() == spec_components(p@),
{
    let absolute = p.len() > 0 && p[0] == '/';
    let start: usize = if absolute {
        1
    } else {
        0
    };
    let ghost body = if absolute {
        p@.drop_first()
    } else {
        p@
    };
    let ghost pre: Seq<Seq<char>> = if absolute {
        seq![root_part()]
    } else {
        seq![]
    };
    let mut parts: Vec<Vec<char>> = Vec::new();
    if absolute {
        let r = vec!['/'];
        proof {
            lemma_deep_view_chars(&r);
            assert(r@ =~= root_part());
        }
        parts.push(r);
        assert(parts.deep_view() =~= pre);
    } else {
        assert(parts.deep_view() =~= pre);
    }
    let mut cur: Vec<char> = Vec::new();
    let mut first = true;
    let mut i = start;
    assert(body.take(0) =~= Seq::<char>::empty());
    assert(pre + Seq::<Seq<char>>::empty() =~= pre);
    while i < p.len()
        invariant
            start <= i <= p@.len(),
            start == (if absolute { 1int } else { 0int }),
            body == p@.skip(start as int),
            absolute == is_absolute_text(p@),
            pre == (if absolute { seq![root_part()] } else { Seq::<Seq<char>>::empty() }),
            ({
                let st = scan_body(body.take(i - start), absolute);
                parts.deep_view() == pre + st.parts && cur@ == st.cur && first == st.first
            }),
        decreases p.len() - i,
    {
        let ghost prefix = body.take(i - start);
        let ghost st = scan_body(prefix, absolute);
        assert(body.take(i - start + 1).drop_last() =~= prefix);
        assert(body.take(i - start + 1).last() == p@[i as int]);
        let c = p[i];
        if c == '/' {
            let seg = cur;
            cur = Vec::new();
            proof {
                lemma_emit_prefix(pre, st.parts, seg@, first, absolute);
            }
            emit_segment_exec(&mut parts, seg, first, absolute);
            first = false;
        } else {
            cur.push(c);
        }
        i = i + 1;
    }
    assert(body.take(i - start) =~= body);
    proof {
        let st = scan_body(body, absolute);
        lemma_emit_prefix(pre, st.parts, cur@, first, absolute);
    }
    emit_segment_exec(&mut parts, cur, first, absolute);
    assert(absolute ==> p@.skip(1) =~= p@.drop_first());
    assert(!absolute ==> p@.skip(0) =~= p@);
    parts
}

/// `Path::starts_with` over component vectors.
pub fn parts_starts_with(p: &Vec<Vec<char>>, base: &Vec<Vec<char>>) -> (r: bool)
    ensures
        r == spec_starts_with(p.deep_view(), base.deep_view()),
{
    if base.len() > p.len() {
        return false;
    }
    let mut i: usize = 0;
    while i < base.len()
        invariant
            base@.len() <= p@.len(),
            i <= base@.len(),
            forall|j: int| 0 <= j < i ==> p.deep_view()[j] == base.deep_view()[j],
        decreases base.len() - i,
    {
        proof {
            lemma_deep_view_chars(&p@[i as int]);
            lemma_deep_view_chars(&base@[i as int]);
        }
        if !chars_eq(p[i].as_slice(), base[i].as_slice()) {
            assert(p.deep_view().take(base@.len() as int)[i as int] != base.deep_view()[i as int]);
            return false;
        }
        i = i + 1;
    }
    assert(p.deep_view().take(base@.len() as int) =~= base.deep_view());
    true
}

/// Equality of component vectors.
pub fn parts_eq(a: &Vec<Vec<char>>, b: &Vec<Vec<char>>) -> (r: bool)
    ensures
        r == (a.deep_view() == b.deep_view()),
{
    if a.len() != b.len() {
        assert(a.deep_view().len() != b.deep_view().len());
        return false;
    }
    let r = parts_starts_with(a, b);
    assert(r ==> a.deep_view() =~= b.deep_view()) by {
        if r {
            assert(a.deep_view().take(b.deep_view().len() as int) =~= a.deep_view());
        }
    }
    assert(a.deep_view() == b.deep_view() ==> r) by {
        if a.deep_view() == b.deep_view() {
            assert(a.deep_view().take(b.deep_view().len() as int) =~= a.deep_view());
        }
    }
    r
}

fn push_all_chars(out: &mut Vec<char>, src: &[char])
    ensures
        final(out)@ == old(out)@ + src@,
{
    let ghost start = out@;
    let mut i: usize = 0;
    while i < src.len()
        invariant
            i <= src@.len(),
            out@ == start + src@.take(i as int),
        decreases src.len() - i,
    {
        out.push(src[i]);
        i = i + 1;
        assert(out@ =~= start + src@.take(i as int));
    }
    assert(src@.take(src@.len() as int) =~= src@);
}

/// The names joined by `/`.
fn join_names_exec(names: &Vec<Vec<char>>, from: usize) -> (r: Vec<char>)
    requires
        from <= names@.len(),
    ensures
        r@ == join_names(names.deep_view().skip(from as int)),
{
    let ghost all = names.deep_view().skip(from as int);
    let mut out: Vec<char> = Vec::new();
    let mut i = from;
    assert(all.take(0) =~= Seq::<Seq<char>>::empty());
    while i < names.len()
        invariant
            from <= i <= names@.len(),
            all == names.deep_view().skip(from as int),
            out@ == join_names(all.take(i - from)),
        decreases names.len() - i,
    {
        proof {
            lemma_deep_view_chars(&names@[i as int]);
        }
        let ghost before = all.take(i - from);
        assert(all.take(i - from + 1).drop_last() =~= before);
        assert(all.take(i - from + 1).last() == names@[i as int]@);
        if i > from {
            out.push('/');
        } else {
            assert(out@ =~= Seq::<char>::empty());
        }
        push_all_chars(&mut out, names[i].as_slice());
        i = i + 1;
        assert(out@ =~= join_names(all.take(i - from)));
    }
    assert(all.take(names@.len() - from) =~= all);
    out
}

/// A text for a component list.
pub fn render_parts(parts: &Vec<Vec<char>>) -> (r: Vec<char>)
    ensures
        r@ == spec_render(parts.deep_view()),
{
    let is_root = parts.len() > 0 && parts[0].len() == 1 && parts[0][0] == '/';
    proof {
        if parts@.len() > 0 {
            lemma_deep_view_chars(&parts@[0]);
            assert(is_root == (parts.deep_view()[0] =~= root_part()));
        }
    }
    if is_root {
        let mut out: Vec<char> = vec!['/'];
        let rest = join_names_exec(parts, 1);
        push_all_chars(&mut out, rest.as_slice());
        assert(parts.deep_view().skip(1) =~= parts.deep_view().drop_first());
        assert(out@ =~= seq!['/'] + join_names(parts.deep_view().drop_first()));
        out
    } else {
        let r = join_names_exec(parts, 0);
        assert(parts.deep_view().skip(0) =~= parts.deep_view());
        r
    }
}

/// `PathBuf::join` of two texts.
pub fn join_text(base: &[char], rel: &[char]) -> (r: Vec<char>)
    ensures
        r@ == spec_join_text(base@, rel@),
{
    let mut out: Vec<char> = Vec::new();
    if rel.len() > 0 && rel[0] == '/' {
        push_all_chars(&mut out, rel);
        assert(out@ =~= rel@);
        return out;
    }
    push_all_chars(&mut out, base);
    if base.len() > 0 && base[base.len() - 1] != '/' {
        out.push('/');
    }
    push_all_chars(&mut out, rel);
    out
}

impl FsPath {
    /// The path for a text.
    pub fn from_chars(p: &[char]) -> (r: FsPath)
        ensures
            r@ == spec_components(p@),
    {
        FsPath { parts: components_of(p) }
    }

    /// A text naming this path: the root as `/`, components joined by `/`.
    pub fn to_text(&self) -> (r: String)
        ensures
            r@ == spec_render(self@),
    {
        let v = render_parts(&self.parts);
        chars_to_string(v.as_slice())
    }

    pub fn starts_with(&self, base: &FsPath) -> (r: bool)
        ensures
            r == spec_starts_with(self@, base@),
    {
        parts_starts_with(&self.parts, &base.parts)
    }
}

/// `check_path_length`: refuses a path text longer than `MAX_PATH_LENGTH` bytes.
pub fn check_path_length(path: &str) -> (r: Result<(), PathError>)
    ensures
        r is Err <==> path.len() > MAX_PATH_LENGTH,
        r is Err ==> r == Err::<(), PathError>(PathError::TooLong),
{
    if path.len() > MAX_PATH_LENGTH {
        Err(PathError::TooLong)
    } else {
        Ok(())
    }
}

/// A copy of a component vector.
pub fn clone_parts(p: &Vec<Vec<char>>) -> (r: Vec<Vec<char>>)
    ensures
        r.deep_view() == p.deep_view(),
{
    let mut r: Vec<Vec<char>> = Vec::new();
    let mut i: usize = 0;
    while i < p.len()
        invariant
            i <= p@.len(),
            r.deep_view() == p.deep_view().take(i as int),
        decreases p.len() - i,
    {
        let c = crate::text::chars_range(p[i].as_slice(), 0, p[i].len());
        let ghost old_r = r.deep_view();
        let ghost old_rv = r@;
        proof {
            lemma_deep_view_chars(&c);
            lemma_deep_view_chars(&p@[i as int]);
            assert(c@ =~= p@[i as int]@);
        }
        r.push(c);
        proof {
            assert forall|j: int| 0 <= j < r@.len() implies #[trigger] r.deep_view()[j] == old_r.push(c@)[j] by {
                if j < old_r.len() {
                    assert(r@[j] == old_rv[j]);
                }
            }
            assert(r.deep_view() =~= old_r.push(c@));
        }
        i = i + 1;
        assert(r.deep_view() =~= p.deep_view().take(i as int));
    }
    assert(p.deep_view().take(p@.len() as int) =~= p.deep_view());
    r
}

impl FsPath {
    pub fn copy(&self) -> (r: FsPath)
        ensures
            r@ == self@,
    {
        FsPath { parts: clone_parts(&self.parts) }
    }
}

/// Number of leading `/` characters.
pub open spec fn leading_slashes(s: Seq<char>) -> nat
    decreases s.len(),
{
    if s.len() > 0 && s[0] == '/' {
        1 + leading_slashes(s.drop_first())
    } else {
        0
    }
}

/// `str::strip_prefix("./")`, keeping the text when it does not start so.
pub open spec fn strip_dot_slash(c: Seq<char>) -> Seq<char> {
    if c.len() >= 2 && c[0] == '.' && c[1] == '/' {
        c.skip(2)
    } else {
        c
    }
}

/// An empty path, `.` or `./` stands for the starting directory itself.
pub open spec fn is_trivial_path(c: Seq<char>) -> bool {
    c.len() == 0 || c == dot() || c == seq!['.', '/']
}

/// The text that resolution canonicalizes first: an absolute client path is taken
/// relative to the home directory, a relative one relative to `base` (the home
/// directory, or the working directory). `None` when the path names the starting
/// directory itself.
pub open spec fn spec_resolution_target(home_text: Seq<char>, base_text: Seq<char>, path: Seq<char>) -> Option<Seq<char>> {
    let clean = spec_trim(path);
    if is_trivial_path(clean) {
        None
    } else {
        let c2 = strip_dot_slash(clean);
        if c2.len() == 0 {
            None
        } else if is_absolute_text(c2) {
            let rel = c2.skip(leading_slashes(c2) as int);
            if rel.len() == 0 {
                Some(home_text)
            } else {
                Some(spec_join_text(home_text, rel))
            }
        } else {
            Some(spec_join_text(base_text, c2))
        }
    }
}

fn skip_leading_slashes(s: &[char]) -> (r: Vec<char>)
    ensures
        r@ == s@.skip(leading_slashes(s@) as int),
{
    let mut a: usize = 0;
    assert(s@.skip(0) =~= s@);
    while a < s.len() && s[a] == '/'
        invariant
            a <= s@.len(),
            leading_slashes(s@) == a + leading_slashes(s@.skip(a as int)),
        decreases s.len() - a,
    {
        assert(s@.skip(a as int).drop_first() =~= s@.skip(a + 1));
        a = a + 1;
    }
    assert(leading_slashes(s@.skip(a as int)) == 0);
    crate::text::chars_range(s, a, s.len())
}

/// The first text to canonicalize when resolving `path` (see `spec_resolution_target`).
pub fn resolution_target(home_text: &[char], base_text: &[char], path: &str) -> (r: Option<Vec<char>>)
    ensures
        r is None <==> spec_resolution_target(home_text@, base_text@, path@) is None,
        r matches Some(t) ==> spec_resolution_target(home_text@, base_text@, path@) == Some(t@),
{
    let raw = str_to_chars(path);
    let clean = trim_chars(raw.as_slice());
    let trivial = clean.len() == 0 || (clean.len() == 1 && clean[0] == '.') || (clean.len() == 2
        && clean[0] == '.' && clean[1] == '/');
    assert(trivial == is_trivial_path(clean@)) by {
        if clean@.len() == 1 && clean@[0] == '.' {
            assert(clean@ =~= dot());
        }
        if clean@.len() == 2 && clean@[0] == '.' && clean@[1] == '/' {
            assert(clean@ =~= seq!['.', '/']);
        }
    }
    if trivial {
        return None;
    }
    let c2 = if clean.len() >= 2 && clean[0] == '.' && clean[1] == '/' {
        crate::text::chars_range(clean.as_slice(), 2, clean.len())
    } else {
        clean
    };
    if c2.len() == 0 {
        return None;
    }
    if c2[0] == '/' {
        let rel = skip_leading_slashes(c2.as_slice());
        if rel.len() == 0 {
            Some(crate::text::chars_range(home_text, 0, home_text.len()))
        } else {
            Some(join_text(home_text, rel.as_slice()))
        }
    } else {
        Some(join_text(base_text, c2.as_slice()))
    }
}

/// The view of a resolution outcome.
pub open spec fn result_view(r: Result<FsPath, PathError>) -> Result<Seq<Seq<char>>, PathError> {
    match r {
        Ok(p) => Ok(p@),
        Err(e) => Err(e),
    }
}

/// What follows the canonicalization of the resolution target.
pub enum Settled {
    /// Resolution is over.
    Done(Result<FsPath, PathError>),
    /// The target does not exist: walk the client path component by component.
    Walk,
}

pub enum SettledView {
    Done(Result<Seq<Seq<char>>, PathError>),
    Walk,
}

impl View for Settled {
    type V = SettledView;

    open spec fn view(&self) -> SettledView {
        match self {
            Settled::Done(r) => SettledView::Done(result_view(*r)),
            Settled::Walk => SettledView::Walk,
        }
    }
}

/// An existing target must lie within home; a missing absolute one is kept if it
/// names a place within home; a missing relative one is walked.
pub open spec fn spec_settle(
    home: Seq<Seq<char>>,
    target: Seq<char>,
    canon: Option<Seq<char>>,
    path: Seq<char>,
) -> SettledView {
    match canon {
        Some(c) => {
            let cp = spec_components(c);
            if spec_starts_with(cp, home) {
                SettledView::Done(Ok(cp))
            } else {
                SettledView::Done(Err(PathError::OutsideHome))
            }
        },
        None => {
            if is_absolute_text(spec_trim(path)) {
                let tp = spec_components(target);
                if spec_starts_with(tp, home) {
                    SettledView::Done(Ok(tp))
                } else {
                    SettledView::Done(Err(PathError::AbsoluteOutsideHome))
                }
            } else {
                SettledView::Walk
            }
        },
    }
}

pub open spec fn opt_chars_view(o: Option<Vec<char>>) -> Option<Seq<char>> {
    match o {
        Some(v) => Some(v@),
        None => None,
    }
}

/// Decides the resolution once the target's canonical form (or its absence) is known.
pub fn settle_target(home: &FsPath, target: &[char], canon: Option<Vec<char>>, path: &str) -> (r: Settled)
    ensures
        r@ == spec_settle(home@, target@, opt_chars_view(canon), path@),
        r matches Settled::Done(Ok(p)) ==> spec_starts_with(p@, home@),
{
    match canon {
        Some(c) => {
            let cp = FsPath::from_chars(c.as_slice());
            if cp.starts_with(home) {
                Settled::Done(Ok(cp))
            } else {
                Settled::Done(Err(PathError::OutsideHome))
            }
        },
        None => {
            let raw = str_to_chars(path);
            let clean = trim_chars(raw.as_slice());
            if clean.len() > 0 && clean[0] == '/' {
                let tp = FsPath::from_chars(target);
                if tp.starts_with(home) {
                    Settled::Done(Ok(tp))
                } else {
                    Settled::Done(Err(PathError::AbsoluteOutsideHome))
                }
            } else {
                Settled::Walk
            }
        },
    }
}

/// One component of the walk.
pub open spec fn walk_step(safe: Seq<Seq<char>>, home: Seq<Seq<char>>, c: Seq<char>) -> Result<Seq<Seq<char>>, PathError> {
    if c == root_part() {
        Ok(home)
    } else if c == dot() {
        Ok(safe)
    } else if c == dotdot() {
        if safe != home && spec_starts_with(safe, home) {
            if safe.len() == 0 || safe == seq![root_part()] {
                Err(PathError::TooManyParents)
            } else {
                Ok(safe.drop_last())
            }
        } else {
            Err(PathError::AboveHome)
        }
    } else {
        Ok(safe.push(c))
    }
}

/// The walk over a list of components, stopping at the first refusal.
pub open spec fn spec_walk(base: Seq<Seq<char>>, home: Seq<Seq<char>>, comps: Seq<Seq<char>>) -> Result<Seq<Seq<char>>, PathError>
    decreases comps.len(),
{
    if comps.len() == 0 {
        Ok(base)
    } else {
        match spec_walk(base, home, comps.drop_last()) {
            Err(e) => Err(e),
            Ok(s) => walk_step(s, home, comps.last()),
        }
    }
}

/// `apply_path_components_safe` before its final check on disk: the walked path,
/// provided it lies within home.
pub open spec fn spec_apply(base: Seq<Seq<char>>, home: Seq<Seq<char>>, clean: Seq<char>) -> Result<Seq<Seq<char>>, PathError> {
    match spec_walk(base, home, spec_components(clean)) {
        Err(e) => Err(e),
        Ok(s) => if spec_starts_with(s, home) {
            Ok(s)
        } else {
            Err(PathError::Escaped)
        },
    }
}

/// Once the walk refuses, it refuses for good.
proof fn lemma_walk_err_sticks(base: Seq<Seq<char>>, home: Seq<Seq<char>>, comps: Seq<Seq<char>>, j: int)
    requires
        0 <= j <= comps.len(),
        spec_walk(base, home, comps.take(j)) is Err,
    ensures
        spec_walk(base, home, comps) == spec_walk(base, home, comps.take(j)),
    decreases comps.len(),
{
    if comps.len() == j {
        assert(comps.take(j) =~= comps);
    } else {
        assert(comps.drop_last().take(j) =~= comps.take(j));
        lemma_walk_err_sticks(base, home, comps.drop_last(), j);
    }
}

fn is_root_part(c: &Vec<char>) -> (r: bool)
    ensures
        r == (c@ == root_part()),
{
    let r = c.len() == 1 && c[0] == '/';
    assert(r ==> c@ =~= root_part());
    r
}

fn is_dotdot(c: &Vec<char>) -> (r: bool)
    ensures
        r == (c@ == dotdot()),
{
    let r = c.len() == 2 && c[0] == '.' && c[1] == '.';
    assert(r ==> c@ =~= dotdot());
    r
}

/// Walks `clean_path` from `base` without ever climbing above `home`, then checks
/// that the walked path lies within `home`. Whether the result exists on disk is
/// the caller's next question.
pub fn apply_path_components_safe(base: &FsPath, home: &FsPath, clean_path: &[char]) -> (r: Result<FsPath, PathError>)
    ensures
        result_view(r) == spec_apply(base@, home@, clean_path@),
        r matches Ok(p) ==> spec_starts_with(p@, home@),
{
    let comps = components_of(clean_path);
    let ghost cv = comps.deep_view();
    let mut safe = base.copy();
    let mut k: usize = 0;
    assert(cv.take(0) =~= Seq::<Seq<char>>::empty());
    while k < comps.len()
        invariant
            k <= comps@.len(),
            cv == comps.deep_view(),
            cv == spec_components(clean_path@),
            spec_walk(base@, home@, cv.take(k as int)) == Ok::<Seq<Seq<char>>, PathError>(safe@),
        decreases comps.len() - k,
    {
        let ghost before = safe@;
        assert(cv.take(k + 1).drop_last() =~= cv.take(k as int));
        proof {
            lemma_deep_view_chars(&comps@[k as int]);
        }
        assert(cv.take(k + 1).last() == comps@[k as int]@);
        let c = &comps[k];
        if is_root_part(c) {
            safe = home.copy();
        } else if is_dot(c.as_slice()) {
        } else if is_dotdot(c) {
            let same = parts_eq(&safe.parts, &home.parts);
            if !same && safe.starts_with(home) {
                let at_root = safe.parts.len() == 0 || (safe.parts.len() == 1 && is_root_part(&safe.parts[0]));
                proof {
                    if safe.parts@.len() == 1 {
                        lemma_deep_view_chars(&safe.parts@[0]);
                        assert(safe@[0] == safe.parts@[0]@);
                        if safe.parts@[0]@ == root_part() {
                            assert(safe@ =~= seq![root_part()]);
                        }
                    }
                }
                if at_root {
                    proof {
                        lemma_walk_err_sticks(base@, home@, cv, k + 1);
                    }
                    return Err(PathError::TooManyParents);
                }
                safe.parts.pop();
                assert(safe@ =~= before.drop_last());
            } else {
                proof {
                    lemma_walk_err_sticks(base@, home@, cv, k + 1);
                }
                return Err(PathError::AboveHome);
            }
        } else {
            let n = crate::text::chars_range(c.as_slice(), 0, c.len());
            proof {
                lemma_deep_view_chars(&n);
                assert(n@ =~= c@);
            }
            safe.parts.push(n);
            assert(safe@ =~= before.push(c@));
        }
        k = k + 1;
    }
    assert(cv.take(comps@.len() as int) =~= cv);
    if safe.starts_with(home) {
        Ok(safe)
    } else {
        Err(PathError::Escaped)
    }
}

/// The walked path exists: its canonical form must still lie within home.
pub open spec fn spec_finish_existing(home: Seq<Seq<char>>, canon: Option<Seq<char>>) -> Result<Seq<Seq<char>>, PathError> {
    match canon {
        Some(c) => if spec_starts_with(spec_components(c), home) {
            Ok(spec_components(c))
        } else {
            Err(PathError::Escaped)
        },
        None => Err(PathError::CannotAccess),
    }
}

pub fn finish_existing(home: &FsPath, canon: Option<Vec<char>>) -> (r: Result<FsPath, PathError>)
    ensures
        result_view(r) == spec_finish_existing(home@, opt_chars_view(canon)),
        r matches Ok(p) ==> spec_starts_with(p@, home@),
{
    match canon {
        Some(c) => {
            let cp = FsPath::from_chars(c.as_slice());
            if cp.starts_with(home) {
                Ok(cp)
            } else {
                Err(PathError::Escaped)
            }
        },
        None => Err(PathError::CannotAccess),
    }
}

/// `resolve_cwd`: an empty working directory is home; otherwise its canonical form
/// must exist and lie within home.
pub open spec fn spec_resolve_cwd(cwd: Seq<char>, home: Seq<Seq<char>>, canon: Option<Seq<char>>) -> Result<Seq<Seq<char>>, PathError> {
    if cwd.len() == 0 {
        Ok(home)
    } else {
        match canon {
            Some(c) => if spec_starts_with(spec_components(c), home) {
                Ok(spec_components(c))
            } else {
                Err(PathError::CwdOutsideHome)
            },
            None => Err(PathError::CwdInaccessible),
        }
    }
}

pub fn resolve_cwd(cwd: &str, home: &FsPath, canon: Option<Vec<char>>) -> (r: Result<FsPath, PathError>)
    ensures
        result_view(r) == spec_resolve_cwd(cwd@, home@, opt_chars_view(canon)),
        r matches Ok(p) ==> spec_starts_with(p@, home@),
{
    if cwd.is_empty() {
        let h = home.copy();
        assert(spec_starts_with(h@, home@)) by {
            assert(h@.take(home@.len() as int) =~= home@);
        }
        return Ok(h);
    }
    match canon {
        Some(c) => {
            let cp = FsPath::from_chars(c.as_slice());
            if cp.starts_with(home) {
                Ok(cp)
            } else {
                Err(PathError::CwdOutsideHome)
            }
        },
        None => Err(PathError::CwdInaccessible),
    }
}

proof fn lemma_leading_slashes_stop(s: Seq<char>)
    ensures
        leading_slashes(s) <= s.len(),
        leading_slashes(s) < s.len() ==> s[leading_slashes(s) as int] != '/',
        s.len() > 0 && s[0] == '/' ==> leading_slashes(s) >= 1,
    decreases s.len(),
{
    if s.len() > 0 && s[0] == '/' {
        lemma_leading_slashes_stop(s.drop_first());
        let k = leading_slashes(s.drop_first());
        if k < s.drop_first().len() {
            assert(s[k + 1int] == s.drop_first()[k as int]);
        }
    }
}

/// An absolute client path names a place under the home directory: the text resolved
/// first is the home directory, then a `/` (unless home already ends in one), then the
/// path after its leading slashes; the working directory plays no part.
pub proof fn lemma_absolute_path_resolves_under_home(
    home: Seq<char>,
    base1: Seq<char>,
    base2: Seq<char>,
    path: Seq<char>,
)
    requires
        spec_trim(path).len() > 0,
        spec_trim(path)[0] == '/',
        leading_slashes(spec_trim(path)) < spec_trim(path).len(),
    ensures
        ({
            let clean = spec_trim(path);
            let rest = clean.skip(leading_slashes(clean) as int);
            &&& spec_resolution_target(home, base1, path) == spec_resolution_target(home, base2, path)
            &&& home.len() > 0 && home.last() != '/' ==> spec_resolution_target(home, base1, path) == Some(
                home + seq!['/'] + rest,
            )
            &&& (home.len() == 0 || home.last() == '/') ==> spec_resolution_target(home, base1, path) == Some(
                home + rest,
            )
        }),
{
    let clean = spec_trim(path);
    lemma_leading_slashes_stop(clean);
    let rest = clean.skip(leading_slashes(clean) as int);
    assert(rest[0] == clean[leading_slashes(clean) as int]);
    assert(!is_trivial_path(clean)) by {
        if clean == dot() {
            assert(clean[0] == '.');
        }
        if clean == seq!['.', '/'] {
            assert(clean[0] == '.');
        }
    }
    assert(strip_dot_slash(clean) == clean);
}

/// A relative client path names a place under the starting directory (the working
/// directory, or home without one): the text resolved first is that directory joined
/// with the path (a leading `./` dropped); the home directory plays no part.
pub proof fn lemma_relative_path_resolves_under_base(
    home1: Seq<char>,
    home2: Seq<char>,
    base: Seq<char>,
    path: Seq<char>,
)
    requires
        !is_trivial_path(spec_trim(path)),
        strip_dot_slash(spec_trim(path)).len() > 0,
        strip_dot_slash(spec_trim(path))[0] != '/',
    ensures
        spec_resolution_target(home1, base, path) == spec_resolution_target(home2, base, path),
        spec_resolution_target(home1, base, path) == Some(spec_join_text(base, strip_dot_slash(spec_trim(path)))),
        base.len() > 0 && base.last() != '/' ==> spec_resolution_target(home1, base, path) == Some(
            base + seq!['/'] + strip_dot_slash(spec_trim(path)),
        ),
{
}

} // verus!
