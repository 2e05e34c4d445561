//! Opening a file below the home directory one component at a time, never following a
//! symbolic link: the plan of `openat` steps for a relative path.

use vstd::prelude::*;
use crate::paths::leading_slashes;
use crate::utils::trailing_slashes;
use crate::text::{chars_to_string, chars_eq_slices, spec_split, split_on, str_to_chars, texts, chars_range};

verus! {

/// One step of the walk from the home directory.
pub enum OpenStep {
    /// Open this component relative to the directory reached so far; the last
    /// component of the path is opened as a file, the others as directories.
    Open { name: String, last: bool },
    /// The path climbs to a parent: stop with an error.
    RejectParent,
}

pub enum OpenStepView {
    Open(Seq<char>, bool),
    RejectParent,
}

pub open spec fn step_view(s: OpenStep) -> OpenStepView {
    match s {
        OpenStep::Open { name, last } => OpenStepView::Open(name@, last),
        OpenStep::RejectParent => OpenStepView::RejectParent,
    }
}

/// `str::trim_matches('/')`: without leading and trailing slashes.
pub open spec fn trim_slashes(s: Seq<char>) -> Seq<char> {
    let rest = s.skip(leading_slashes(s) as int);
    rest.take(rest.len() - trailing_slashes(rest))
}

/// The steps for the components from position `i` on: `..` ends the walk with a
/// rejection, `.` and empty components are skipped, the others are opened, the
/// component in the last position as a file.
pub open spec fn plan_from(comps: Seq<Seq<char>>, i: int) -> Seq<OpenStepView>
    decreases comps.len() - i,
{
    if i >= comps.len() || i < 0 {
        Seq::empty()
    } else if comps[i] == seq!['.', '.'] {
        seq![OpenStepView::RejectParent]
    } else if comps[i] == seq!['.'] || comps[i].len() == 0 {
        plan_from(comps, i + 1)
    } else {
        seq![OpenStepView::Open(comps[i], i == comps.len() - 1)] + plan_from(comps, i + 1)
    }
}

/// The steps for a path relative to the home directory.
pub open spec fn spec_open_plan(relative: Seq<char>) -> Seq<OpenStepView> {
    plan_from(spec_split(trim_slashes(relative), '/'), 0)
}

fn trim_slash_chars(s: &[char]) -> (r: Vec<char>)
    ensures
        r@ == trim_slashes(s@),
{
    let mut a: usize = 0;
    assert(s@.skip(0) =~= s@);
    while a < s.len() && s[a] == '/'
        invariant
            a <= s@.len(),
            leading_slashes(s@) == a + leading_slashes(s@.skip(a as int)),
        decreases s.len() - a,
    {
        assert(s@.skip(a as int).drop_first() =~= s@.skip(a + 1));
        a = a + 1;
    }
    assert(leading_slashes(s@.skip(a as int)) == 0);
    let ghost rest = s@.skip(a as int);
    let mut b: usize = s.len();
    assert(rest.take(b - a) =~= rest);
    while b > a && s[b - 1] == '/'
        invariant
            a <= b <= s@.len(),
            rest == s@.skip(a as int),
            trailing_slashes(rest) == (s@.len() - b) + trailing_slashes(rest.take(b - a)),
        decreases b,
    {
        assert(rest.take(b - a).drop_last() =~= rest.take(b - a - 1));
        assert(rest.take(b - a).last() == s@[b - 1]);
        b = b - 1;
    }
    assert(trailing_slashes(rest.take(b - a)) == 0);
    let r = chars_range(s, a, b);
    assert(r@ =~= rest.take(rest.len() - trailing_slashes(rest)));
    r
}

/// The `openat` steps for a path relative to the home directory.
pub fn open_plan(relative_path: &str) -> (r: Vec<OpenStep>)
    ensures
        r@.map_values(|s: OpenStep| step_view(s)) == spec_open_plan(relative_path@),
{
    let raw = str_to_chars(relative_path);
    let t = trim_slash_chars(raw.as_slice());
    let ts = chars_to_string(t.as_slice());
    let comps = split_on(ts.as_str(), '/');
    let ghost cv = texts(comps@);
    let dotdot = vec!['.', '.'];
    let dot = vec!['.'];
    let mut steps: Vec<OpenStep> = Vec::new();
    let mut i: usize = 0;
    while i < comps.len()
        invariant
            i <= comps@.len(),
            cv == texts(comps@),
            cv == spec_split(trim_slashes(relative_path@), '/'),
            dotdot@ == seq!['.', '.'],
            dot@ == seq!['.'],
            steps@.map_values(|s: OpenStep| step_view(s)) + plan_from(cv, i as int) == plan_from(cv, 0),
        decreases comps.len() - i,
    {
        let ghost before = steps@.map_values(|s: OpenStep| step_view(s));
        assert(cv[i as int] == comps@[i as int]@);
        if chars_eq_slices(comps[i].as_slice(), dotdot.as_slice()) {
            steps.push(OpenStep::RejectParent);
            assert(steps@.map_values(|s: OpenStep| step_view(s)) =~= before.push(OpenStepView::RejectParent));
            assert(plan_from(cv, i as int) == seq![OpenStepView::RejectParent]);
            assert(before + seq![OpenStepView::RejectParent] =~= before.push(OpenStepView::RejectParent));
            return steps;
        }
        if chars_eq_slices(comps[i].as_slice(), dot.as_slice()) || comps[i].len() == 0 {
            i = i + 1;
            continue;
        }
        let last = i == comps.len() - 1;
        let name = chars_to_string(comps[i].as_slice());
        steps.push(OpenStep::Open { name, last });
        let ghost st = OpenStepView::Open(cv[i as int], last);
        assert(steps@.map_values(|s: OpenStep| step_view(s)) =~= before.push(st));
        assert(plan_from(cv, i as int) == seq![st] + plan_from(cv, i + 1));
        assert(before.push(st) + plan_from(cv, i + 1) =~= before + (seq![st] + plan_from(cv, i + 1)));
        i = i + 1;
    }
    assert(plan_from(cv, i as int) =~= Seq::<OpenStepView>::empty());
    assert(steps@.map_values(|s: OpenStep| step_view(s)) + Seq::<OpenStepView>::empty() =~= steps@.map_values(
        |s: OpenStep| step_view(s),
    ));
    steps
}

/// No field of a split contains the separator.
pub proof fn lemma_split_fields_lack_sep(s: Seq<char>, sep: char)
    ensures
        forall|i: int| 0 <= i < spec_split(s, sep).len() ==> !(#[trigger] spec_split(s, sep)[i]).contains(sep),
    decreases s.len(),
{
    crate::text::lemma_split_nonempty(s, sep);
    if s.len() > 0 {
        let s0 = s.drop_last();
        lemma_split_fields_lack_sep(s0, sep);
        crate::text::lemma_split_nonempty(s0, sep);
        let r = spec_split(s0, sep);
        let t = spec_split(s, sep);
        if s.last() == sep {
            assert forall|i: int| 0 <= i < t.len() implies !(#[trigger] t[i]).contains(sep) by {
                if i < r.len() {
                    assert(t[i] == r[i]);
                } else {
                    assert(t[i] =~= Seq::<char>::empty());
                }
            }
        } else {
            assert forall|i: int| 0 <= i < t.len() implies !(#[trigger] t[i]).contains(sep) by {
                if i < r.len() - 1 {
                    assert(t[i] == r[i]);
                } else {
                    let f = r.last().push(s.last());
                    assert(t[i] == f);
                    assert(!r[r.len() - 1].contains(sep));
                    if f.contains(sep) {
                        let k = choose|k: int| 0 <= k < f.len() && f[k] == sep;
                        if k < f.len() - 1 {
                            assert(r.last()[k] == sep);
                        }
                    }
                }
            }
        }
    }
}

/// The walk never climbs and never skips a level: every component it opens is a
/// single name, not `.`, not `..`, not empty, and without a `/`.
pub proof fn lemma_plan_opens_plain_names(relative: Seq<char>)
    ensures
        forall|k: int| 0 <= k < spec_open_plan(relative).len() ==> (#[trigger] spec_open_plan(relative)[k] matches OpenStepView::Open(n, _) ==> {
            &&& n != seq!['.', '.']
            &&& n != seq!['.']
            &&& n.len() > 0
            &&& !n.contains('/')
        }),
{
    let comps = spec_split(trim_slashes(relative), '/');
    lemma_split_fields_lack_sep(trim_slashes(relative), '/');
    lemma_plan_from_names(comps, 0);
}

proof fn lemma_plan_from_names(comps: Seq<Seq<char>>, i: int)
    requires
        forall|j: int| 0 <= j < comps.len() ==> !(#[trigger] comps[j]).contains('/'),
    ensures
        forall|k: int| 0 <= k < plan_from(comps, i).len() ==> (#[trigger] plan_from(comps, i)[k] matches OpenStepView::Open(n, _) ==> {
            &&& n != seq!['.', '.']
            &&& n != seq!['.']
            &&& n.len() > 0
            &&& !n.contains('/')
        }),
    decreases comps.len() - i,
{
    if i >= comps.len() || i < 0 {
    } else if comps[i] == seq!['.', '.'] {
    } else if comps[i] == seq!['.'] || comps[i].len() == 0 {
        lemma_plan_from_names(comps, i + 1);
    } else {
        lemma_plan_from_names(comps, i + 1);
        let p = plan_from(comps, i);
        let q = plan_from(comps, i + 1);
        assert forall|k: int| 0 <= k < p.len() implies (#[trigger] p[k] matches OpenStepView::Open(n, _) ==> {
            &&& n != seq!['.', '.']
            &&& n != seq!['.']
            &&& n.len() > 0
            &&& !n.contains('/')
        }) by {
            if k > 0 {
                assert(p[k] == q[k - 1]);
            }
        }
    }
}

} // verus!
