//! Client-visible path texts, user-name checks and MLST name escaping.

use vstd::prelude::*;
use vstd::string::*;
use crate::paths::{
    components_of, emit_segment, join_names, lemma_deep_view_chars, parts_eq, parts_starts_with,
    root_part, scan_body, spec_components, spec_starts_with, Scan,
};
use crate::text::{
    chars_to_string, is_unicode_whitespace, leading_ws, spec_trim, str_to_chars, trailing_ws, trim_chars,
};

verus! {

pub open spec fn is_ascii_alnum(b: u8) -> bool {
    (0x30 <= b <= 0x39) || (0x41 <= b <= 0x5a) || (0x61 <= b <= 0x7a)
}

pub open spec fn is_username_byte(b: u8) -> bool {
    is_ascii_alnum(b) || b == 0x5f || b == 0x2d
}

/// A user name is safe when it has 1 to 64 bytes, starts with an ASCII letter, digit
/// or `_`, and holds only ASCII letters, digits, `_` and `-`.
pub open spec fn spec_is_safe_username(u: Seq<u8>) -> bool {
    &&& 1 <= u.len() <= 64
    &&& (is_ascii_alnum(u[0]) || u[0] == 0x5f)
    &&& forall|i: int| 0 <= i < u.len() ==> is_username_byte(#[trigger] u[i])
}

pub fn is_safe_username(username: &str) -> (r: bool)
    ensures
        r == spec_is_safe_username(username.spec_bytes()),
{
    let bytes = username.as_bytes();
    if bytes.len() == 0 || bytes.len() > 64 {
        return false;
    }
    let first = bytes[0];
    let first_ok = (0x30 <= first && first <= 0x39) || (0x41 <= first && first <= 0x5a) || (0x61
        <= first && first <= 0x7a) || first == 0x5f;
    if !first_ok {
        return false;
    }
    let mut i: usize = 0;
    while i < bytes.len()
        invariant
            i <= bytes@.len(),
            bytes@ == username.spec_bytes(),
            forall|j: int| 0 <= j < i ==> is_username_byte(#[trigger] bytes@[j]),
        decreases bytes.len() - i,
    {
        let c = bytes[i];
        let ok = (0x30 <= c && c <= 0x39) || (0x41 <= c && c <= 0x5a) || (0x61 <= c && c <= 0x7a)
            || c == 0x5f || c == 0x2d;
        if !ok {
            return false;
        }
        i = i + 1;
    }
    true
}

/// `char::is_control`: the Unicode control characters (general category Cc).
pub open spec fn is_control_char(c: char) -> bool {
    ('\u{0}' <= c <= '\u{1f}') || ('\u{7f}' <= c <= '\u{9f}')
}

/// The three octal digits of a byte value.
pub open spec fn octal3(code: u32) -> Seq<char> {
    seq![
        ((('0' as u32) + code / 64) as char),
        ((('0' as u32) + (code / 8) % 8) as char),
        ((('0' as u32) + code % 8) as char),
    ]
}

/// How MLST escapes one character of a file name.
pub open spec fn escape_mlst_char(c: char) -> Seq<char> {
    if c == '\\' {
        seq!['\\', '\\']
    } else if c == ';' {
        seq!['\\', ';']
    } else if c == '=' {
        seq!['\\', '=']
    } else if c == ' ' {
        seq!['\\', ' ']
    } else if c == '\n' {
        seq!['\\', '0', '1', '2']
    } else if c == '\r' {
        seq!['\\', '0', '1', '5']
    } else if c == '\t' {
        seq!['\\', '0', '1', '1']
    } else if is_control_char(c) {
        if (c as u32) <= 0xff {
            seq!['\\'] + octal3(c as u32)
        } else {
            seq!['?']
        }
    } else {
        seq![c]
    }
}

/// The escaped form of a whole name: each character escaped in turn.
pub open spec fn spec_escape_mlst(s: Seq<char>) -> Seq<char>
    decreases s.len(),
{
    if s.len() == 0 {
        seq![]
    } else {
        spec_escape_mlst(s.drop_last()) + escape_mlst_char(s.last())
    }
}

fn octal_digit(d: u32) -> (c: char)
    requires
        d < 8,
    ensures
        c == (('0' as u32) + d) as char,
{
    if d == 0 { '0' }
    else if d == 1 { '1' }
    else if d == 2 { '2' }
    else if d == 3 { '3' }
    else if d == 4 { '4' }
    else if d == 5 { '5' }
    else if d == 6 { '6' }
    else { '7' }
}

fn push_escaped(out: &mut Vec<char>, c: char)
    ensures
        final(out)@ == old(out)@ + escape_mlst_char(c),
{
    let ghost start = out@;
    if c == '\\' {
        out.push('\\');
        out.push('\\');
    } else if c == ';' {
        out.push('\\');
        out.push(';');
    } else if c == '=' {
        out.push('\\');
        out.push('=');
    } else if c == ' ' {
        out.push('\\');
        out.push(' ');
    } else if c == '\n' {
        out.push('\\');
        out.push('0');
        out.push('1');
        out.push('2');
    } else if c == '\r' {
        out.push('\\');
        out.push('0');
        out.push('1');
        out.push('5');
    } else if c == '\t' {
        out.push('\\');
        out.push('0');
        out.push('1');
        out.push('1');
    } else if ('\u{0}' <= c && c <= '\u{1f}') || ('\u{7f}' <= c && c <= '\u{9f}') {
        let code = c as u32;
        if code <= 0xff {
            out.push('\\');
            out.push(octal_digit(code / 64));
            out.push(octal_digit((code / 8) % 8));
            out.push(octal_digit(code % 8));
        } else {
            out.push('?');
        }
    } else {
        out.push(c);
    }
    assert(out@ =~= start + escape_mlst_char(c));
}

/// Escapes a file name for an MLST/MLSD fact line: `\`, `;`, `=` and space get a
/// backslash, line breaks and tabs and other control characters become `\` and three
/// octal digits.
pub fn escape_mlst_filename(name: &str) -> (r: String)
    ensures
        r@ == spec_escape_mlst(name@),
{
    let chars = str_to_chars(name);
    let mut out: Vec<char> = Vec::new();
    let mut i: usize = 0;
    assert(chars@.take(0) =~= Seq::<char>::empty());
    while i < chars.len()
        invariant
            i <= chars@.len(),
            chars@ == name@,
            out@ == spec_escape_mlst(chars@.take(i as int)),
        decreases chars.len() - i,
    {
        assert(chars@.take(i + 1).drop_last() =~= chars@.take(i as int));
        push_escaped(&mut out, chars[i]);
        i = i + 1;
    }
    assert(chars@.take(chars@.len() as int) =~= chars@);
    chars_to_string(out.as_slice())
}

/// Every `\` turned into `/`.
pub open spec fn spec_backslash_to_slash(s: Seq<char>) -> Seq<char> {
    s.map_values(|c: char| if c == '\\' { '/' } else { c })
}

fn backslash_to_slash(s: &[char]) -> (r: Vec<char>)
    ensures
        r@ == spec_backslash_to_slash(s@),
{
    let mut out: Vec<char> = Vec::new();
    let mut i: usize = 0;
    while i < s.len()
        invariant
            i <= s@.len(),
            out@ == spec_backslash_to_slash(s@.take(i as int)),
        decreases s.len() - i,
    {
        let c = s[i];
        out.push(if c == '\\' { '/' } else { c });
        i = i + 1;
        assert(out@ =~= spec_backslash_to_slash(s@.take(i as int)));
    }
    assert(s@.take(s@.len() as int) =~= s@);
    out
}

/// Whether `s[i]` is a separator or a `.` standing alone between separators: what
/// `Path`'s component walk passes over without yielding a component.
pub open spec fn empty_at(s: Seq<char>, i: int) -> bool {
    s[i] == '/' || (s[i] == '.' && (i + 1 == s.len() || s[i + 1] == '/'))
}

/// The first position from `i` on that does not start an empty component.
pub open spec fn skip_empty_from(s: Seq<char>, i: int) -> int
    decreases s.len() - i,
{
    if 0 <= i < s.len() && empty_at(s, i) {
        skip_empty_from(s, i + 1)
    } else {
        i
    }
}

/// The end of the name that starts at `i`: the next separator, or the end.
pub open spec fn segment_end(s: Seq<char>, i: int) -> int
    decreases s.len() - i,
{
    if 0 <= i < s.len() && s[i] != '/' {
        segment_end(s, i + 1)
    } else {
        i
    }
}

/// The position after `k` more components read from position `i` (past the start).
pub open spec fn drop_from(s: Seq<char>, i: int, k: nat) -> int
    decreases k,
{
    if k == 0 {
        i
    } else {
        drop_from(s, segment_end(s, skip_empty_from(s, i)), (k - 1) as nat)
    }
}

/// Whether the path starts with its root `/` or with a lone `.`, each of which is a
/// component of one character.
pub open spec fn starts_with_root_or_dot(s: Seq<char>) -> bool {
    s.len() > 0 && (s[0] == '/' || (s[0] == '.' && (s.len() == 1 || s[1] == '/')))
}

/// The position after the first `k` components of a path.
pub open spec fn after_components(s: Seq<char>, k: nat) -> int {
    if k == 0 {
        0
    } else if starts_with_root_or_dot(s) {
        drop_from(s, 1, (k - 1) as nat)
    } else {
        drop_from(s, 0, k)
    }
}

/// The end of the text from `lo` to `e` once separators and lone `.`s at its end are
/// left out.
pub open spec fn trim_end_to(s: Seq<char>, lo: int, e: int) -> int
    decreases e - lo,
{
    if lo < e && 0 < e <= s.len() && (s[e - 1] == '/' || (s[e - 1] == '.' && (e - 1 == lo || s[e - 2] == '/'))) {
        trim_end_to(s, lo, e - 1)
    } else {
        e
    }
}

/// What `Path::strip_prefix` leaves of a path after its first `k` components: the
/// text that follows them, unchanged, except that separators and lone `.`s at either
/// end are left out (with nothing taken off, only at the end, and never the root or a
/// leading `.`).
pub open spec fn spec_strip_rest(s: Seq<char>, k: nat) -> Seq<char> {
    if k == 0 {
        let lo = if starts_with_root_or_dot(s) { 1int } else { 0int };
        s.subrange(0, trim_end_to(s, lo, s.len() as int))
    } else {
        let lo = skip_empty_from(s, after_components(s, k));
        s.subrange(lo, trim_end_to(s, lo, s.len() as int))
    }
}

fn skip_empty_exec(s: &[char], i: usize) -> (r: usize)
    requires
        i <= s@.len(),
    ensures
        i <= r <= s@.len(),
        r == skip_empty_from(s@, i as int),
{
    let mut j = i;
    while j < s.len() && (s[j] == '/' || (s[j] == '.' && (j + 1 == s.len() || s[j + 1] == '/')))
        invariant
            i <= j <= s@.len(),
            skip_empty_from(s@, j as int) == skip_empty_from(s@, i as int),
        decreases s.len() - j,
    {
        j = j + 1;
    }
    j
}

fn segment_end_exec(s: &[char], i: usize) -> (r: usize)
    requires
        i <= s@.len(),
    ensures
        i <= r <= s@.len(),
        r == segment_end(s@, i as int),
{
    let mut j = i;
    while j < s.len() && s[j] != '/'
        invariant
            i <= j <= s@.len(),
            segment_end(s@, j as int) == segment_end(s@, i as int),
        decreases s.len() - j,
    {
        j = j + 1;
    }
    j
}

fn trim_end_exec(s: &[char], lo: usize) -> (r: usize)
    requires
        lo <= s@.len(),
    ensures
        lo <= r <= s@.len(),
        r == trim_end_to(s@, lo as int, s@.len() as int),
{
    let mut e = s.len();
    while lo < e && (s[e - 1] == '/' || (s[e - 1] == '.' && (e - 1 == lo || s[e - 2] == '/')))
        invariant
            lo <= e <= s@.len(),
            trim_end_to(s@, lo as int, e as int) == trim_end_to(s@, lo as int, s@.len() as int),
        decreases e - lo,
    {
        e = e - 1;
    }
    e
}

/// `Path::strip_prefix` by a prefix of `k` components (see `spec_strip_rest`).
pub fn strip_rest(s: &[char], k: usize) -> (r: Vec<char>)
    ensures
        r@ == spec_strip_rest(s@, k as nat),
{
    if k == 0 {
        let lo: usize = if s.len() > 0 && (s[0] == '/' || (s[0] == '.' && (s.len() == 1 || s[1] == '/'))) { 1 } else { 0 };
        let e = trim_end_exec(s, lo);
        return crate::text::chars_range(s, 0, e);
    }
    let (mut pos, mut left): (usize, usize) = if s.len() > 0 && (s[0] == '/' || (s[0] == '.' && (s.len() == 1 || s[1] == '/'))) {
        (1, k - 1)
    } else {
        (0, k)
    };
    assert(drop_from(s@, pos as int, left as nat) == after_components(s@, k as nat));
    while left > 0
        invariant
            pos <= s@.len(),
            drop_from(s@, pos as int, left as nat) == after_components(s@, k as nat),
        decreases left,
    {
        let a = skip_empty_exec(s, pos);
        pos = segment_end_exec(s, a);
        left = left - 1;
    }
    let lo = skip_empty_exec(s, pos);
    let e = trim_end_exec(s, lo);
    crate::text::chars_range(s, lo, e)
}

/// `real_to_virtual_path`: the client-visible text of a server path, given the
/// canonical home directory. Home itself is `/`; a path within home is `/` followed by
/// what `Path::strip_prefix` leaves of it (its text after home's components, as it
/// stands); any other path is shown as it is; `\` is turned into `/`.
pub open spec fn spec_real_to_virtual(rp: Seq<char>, home: Seq<char>) -> Seq<char> {
    let rc = spec_components(rp);
    let hc = spec_components(home);
    if rc == hc {
        seq!['/']
    } else if spec_starts_with(rc, hc) {
        let rest = spec_strip_rest(rp, hc.len());
        if rest.len() == 0 {
            seq!['/']
        } else {
            seq!['/'] + spec_backslash_to_slash(rest)
        }
    } else {
        spec_backslash_to_slash(rp)
    }
}

fn slash_then(text: &[char]) -> (r: Vec<char>)
    ensures
        r@ == seq!['/'] + text@,
{
    let mut out: Vec<char> = vec!['/'];
    let mut k: usize = 0;
    while k < text.len()
        invariant
            k <= text@.len(),
            out@ == seq!['/'] + text@.take(k as int),
        decreases text.len() - k,
    {
        out.push(text[k]);
        k = k + 1;
        assert(out@ =~= seq!['/'] + text@.take(k as int));
    }
    assert(text@.take(text@.len() as int) =~= text@);
    out
}

pub fn real_to_virtual_path(real_path: &str, home_canon: &str) -> (r: String)
    ensures
        r@ == spec_real_to_virtual(real_path@, home_canon@),
{
    let rp = str_to_chars(real_path);
    let home = str_to_chars(home_canon);
    let rc = components_of(rp.as_slice());
    let hc = components_of(home.as_slice());
    if parts_eq(&rc, &hc) {
        let v = vec!['/'];
        return chars_to_string(v.as_slice());
    }
    if parts_starts_with(&rc, &hc) {
        let rest = strip_rest(rp.as_slice(), hc.len());
        if rest.len() == 0 {
            let v = vec!['/'];
            return chars_to_string(v.as_slice());
        }
        let conv = backslash_to_slash(rest.as_slice());
        let out = slash_then(conv.as_slice());
        return chars_to_string(out.as_slice());
    }
    let conv = backslash_to_slash(rp.as_slice());
    chars_to_string(conv.as_slice())
}

/// The path `REALPATH` reports for a resolved server path: relative to the canonical
/// home, after a `/` (`/` when nothing is left), as `Path::strip_prefix` leaves it; a
/// path outside home as it is.
pub open spec fn spec_realpath_text(rp: Seq<char>, home: Seq<char>) -> Seq<char> {
    let rc = spec_components(rp);
    let hc = spec_components(home);
    if spec_starts_with(rc, hc) {
        let rest = spec_strip_rest(rp, hc.len());
        if rest.len() == 0 {
            seq!['/']
        } else {
            seq!['/'] + rest
        }
    } else {
        rp
    }
}

pub fn realpath_text(resolved: &str, home_canon: &str) -> (r: String)
    ensures
        r@ == spec_realpath_text(resolved@, home_canon@),
{
    let rp = str_to_chars(resolved);
    let home = str_to_chars(home_canon);
    let rc = components_of(rp.as_slice());
    let hc = components_of(home.as_slice());
    if parts_starts_with(&rc, &hc) {
        let rest = strip_rest(rp.as_slice(), hc.len());
        if rest.len() == 0 {
            let v = vec!['/'];
            return chars_to_string(v.as_slice());
        }
        let out = slash_then(rest.as_slice());
        return chars_to_string(out.as_slice());
    }
    chars_to_string(rp.as_slice())
}

/// Number of trailing `/` characters.
pub open spec fn trailing_slashes(s: Seq<char>) -> nat
    decreases s.len(),
{
    if s.len() > 0 && s.last() == '/' {
        1 + trailing_slashes(s.drop_last())
    } else {
        0
    }
}

/// Number of leading `/` characters.
pub open spec fn leading_slash_count(s: Seq<char>) -> nat
    decreases s.len(),
{
    if s.len() > 0 && s[0] == '/' {
        1 + leading_slash_count(s.drop_first())
    } else {
        0
    }
}

/// `virtual_to_real_path`: the server path for a client-visible path, given the
/// canonical home directory: `/` and the empty path are home; otherwise home without
/// its trailing slashes, a `/`, and the client path without its leading slashes.
pub open spec fn spec_virtual_to_real(virt: Seq<char>, home: Seq<char>) -> Seq<char> {
    let clean = spec_trim(virt);
    let h = home.take(home.len() - trailing_slashes(home));
    if clean.len() == 0 || clean == seq!['/'] {
        home
    } else if clean[0] == '/' {
        h + seq!['/'] + clean.skip(leading_slash_count(clean) as int)
    } else {
        h + seq!['/'] + clean
    }
}

pub fn virtual_to_real_path(virtual_path: &str, home_canon: &str) -> (r: String)
    ensures
        r@ == spec_virtual_to_real(virtual_path@, home_canon@),
{
    let home = str_to_chars(home_canon);
    let raw = str_to_chars(virtual_path);
    let clean = trim_chars(raw.as_slice());
    if clean.len() == 0 || (clean.len() == 1 && clean[0] == '/') {
        assert(clean@.len() == 1 && clean@[0] == '/' ==> clean@ =~= seq!['/']);
        return chars_to_string(home.as_slice());
    }
    assert(clean@ != seq!['/']) by {
        if clean@ == seq!['/'] {
            assert(clean@.len() == 1);
        }
    }
    let mut b: usize = home.len();
    assert(home@.take(b as int) =~= home@);
    while b > 0 && home[b - 1] == '/'
        invariant
            b <= home@.len(),
            trailing_slashes(home@) == (home@.len() - b) + trailing_slashes(home@.take(b as int)),
        decreases b,
    {
        assert(home@.take(b as int).drop_last() =~= home@.take(b - 1));
        b = b - 1;
    }
    assert(trailing_slashes(home@.take(b as int)) == 0);
    let mut out = crate::text::chars_range(home.as_slice(), 0, b);
    out.push('/');
    let mut a: usize = 0;
    if clean[0] == '/' {
        assert(clean@.skip(0) =~= clean@);
        while a < clean.len() && clean[a] == '/'
            invariant
                a <= clean@.len(),
                leading_slash_count(clean@) == a + leading_slash_count(clean@.skip(a as int)),
            decreases clean.len() - a,
        {
            assert(clean@.skip(a as int).drop_first() =~= clean@.skip(a + 1));
            a = a + 1;
        }
        assert(leading_slash_count(clean@.skip(a as int)) == 0);
    }
    let ghost start = out@;
    let mut k = a;
    while k < clean.len()
        invariant
            a <= k <= clean@.len(),
            out@ == start + clean@.subrange(a as int, k as int),
        decreases clean.len() - k,
    {
        out.push(clean[k]);
        k = k + 1;
        assert(out@ =~= start + clean@.subrange(a as int, k as int));
    }
    assert(clean@.subrange(a as int, clean@.len() as int) =~= clean@.skip(a as int));
    assert(a == 0 ==> clean@.skip(0) =~= clean@);
    chars_to_string(out.as_slice())
}

/// A plain file name: not empty, without `/` or `\\`, and not `.`.
pub open spec fn plain_name(n: Seq<char>) -> bool {
    &&& n.len() > 0
    &&& forall|i: int| 0 <= i < n.len() ==> n[i] != '/' && n[i] != '\\'
    &&& n != seq!['.']
}

proof fn lemma_scan_no_slash(y: Seq<char>, abs: bool)
    requires
        forall|i: int| 0 <= i < y.len() ==> y[i] != '/',
    ensures
        scan_body(y, abs) == (Scan { parts: seq![], cur: y, first: true }),
    decreases y.len(),
{
    if y.len() > 0 {
        lemma_scan_no_slash(y.drop_last(), abs);
        assert(y.drop_last().push(y.last()) =~= y);
    } else {
        assert(y =~= seq![]);
    }
}

proof fn lemma_scan_after_slash(x: Seq<char>, y: Seq<char>, abs: bool)
    requires
        forall|i: int| 0 <= i < y.len() ==> y[i] != '/',
    ensures
        scan_body(x + seq!['/'] + y, abs) == (Scan {
            parts: emit_segment(scan_body(x, abs).parts, scan_body(x, abs).cur, scan_body(x, abs).first, abs),
            cur: y,
            first: false,
        }),
    decreases y.len(),
{
    let z = x + seq!['/'] + y;
    if y.len() == 0 {
        assert(z.drop_last() =~= x);
        assert(seq![] =~= y);
    } else {
        assert(z.drop_last() =~= x + seq!['/'] + y.drop_last());
        lemma_scan_after_slash(x, y.drop_last(), abs);
        assert(y.drop_last().push(y.last()) =~= y);
    }
}

/// The components that a home directory's body yields.
pub open spec fn body_parts(hb: Seq<char>) -> Seq<Seq<char>> {
    let st = scan_body(hb, true);
    emit_segment(st.parts, st.cur, st.first, true)
}

proof fn lemma_scan_names(hb: Seq<char>, ns: Seq<Seq<char>>)
    requires
        ns.len() > 0,
        forall|i: int| 0 <= i < ns.len() ==> plain_name(#[trigger] ns[i]),
    ensures
        scan_body(hb + seq!['/'] + join_names(ns), true) == (Scan {
            parts: body_parts(hb) + ns.drop_last(),
            cur: ns.last(),
            first: false,
        }),
    decreases ns.len(),
{
    if ns.len() == 1 {
        assert(plain_name(ns[0]));
        lemma_scan_after_slash(hb, ns[0], true);
        assert(body_parts(hb) + ns.drop_last() =~= body_parts(hb));
    } else {
        let ns2 = ns.drop_last();
        assert forall|i: int| 0 <= i < ns2.len() implies plain_name(#[trigger] ns2[i]) by {
            assert(ns2[i] == ns[i]);
        }
        lemma_scan_names(hb, ns2);
        let x = hb + seq!['/'] + join_names(ns2);
        assert(hb + seq!['/'] + join_names(ns) =~= x + seq!['/'] + ns.last());
        assert(plain_name(ns[ns.len() - 1]));
        lemma_scan_after_slash(x, ns.last(), true);
        assert(plain_name(ns2[ns2.len() - 1]));
        assert(ns2.last() != seq!['.']);
        assert(body_parts(hb) + ns2.drop_last().push(ns2.last()) =~= body_parts(hb) + ns.drop_last());
    }
}

proof fn lemma_components_under(home: Seq<char>, ns: Seq<Seq<char>>)
    requires
        home.len() > 0,
        home[0] == '/',
        ns.len() > 0,
        forall|i: int| 0 <= i < ns.len() ==> plain_name(#[trigger] ns[i]),
    ensures
        spec_components(home + seq!['/'] + join_names(ns)) == spec_components(home) + ns,
{
    let p = home + seq!['/'] + join_names(ns);
    let hb = home.drop_first();
    assert(p.drop_first() =~= hb + seq!['/'] + join_names(ns));
    lemma_scan_names(hb, ns);
    assert(plain_name(ns[ns.len() - 1]));
    assert(ns.last() != seq!['.']);
    assert(seq![root_part()] + (body_parts(hb) + ns.drop_last()).push(ns.last()) =~= seq![root_part()] + body_parts(hb)
        + ns);
}

proof fn lemma_join_plain(ns: Seq<Seq<char>>)
    requires
        ns.len() > 0,
        forall|i: int| 0 <= i < ns.len() ==> plain_name(#[trigger] ns[i]),
    ensures
        join_names(ns).len() > 0,
        join_names(ns)[0] == ns[0][0],
        join_names(ns).last() == ns.last().last(),
        forall|i: int| 0 <= i < join_names(ns).len() ==> join_names(ns)[i] != '\\',
    decreases ns.len(),
{
    assert(plain_name(ns[0]));
    assert(plain_name(ns[ns.len() - 1]));
    if ns.len() > 1 {
        let ns2 = ns.drop_last();
        assert forall|i: int| 0 <= i < ns2.len() implies plain_name(#[trigger] ns2[i]) by {
            assert(ns2[i] == ns[i]);
        }
        lemma_join_plain(ns2);
        let j = join_names(ns);
        let j2 = join_names(ns2);
        assert(j == j2 + seq!['/'] + ns.last());
        assert forall|i: int| 0 <= i < j.len() implies j[i] != '\\' by {
            if i < j2.len() {
                assert(j[i] == j2[i]);
            } else if i > j2.len() {
                assert(j[i] == ns.last()[i - j2.len() - 1]);
            }
        }
    }
}

proof fn lemma_join_concat(a: Seq<Seq<char>>, b: Seq<Seq<char>>)
    requires
        a.len() > 0,
        b.len() > 0,
    ensures
        join_names(a + b) == join_names(a) + seq!['/'] + join_names(b),
    decreases b.len(),
{
    if b.len() == 1 {
        assert((a + b).drop_last() =~= a);
        assert((a + b).last() == b[0]);
    } else {
        lemma_join_concat(a, b.drop_last());
        assert((a + b).drop_last() =~= a + b.drop_last());
        assert((a + b).last() == b.last());
        assert(join_names(a) + seq!['/'] + join_names(b.drop_last()) + seq!['/'] + b.last() =~= join_names(a)
            + seq!['/'] + (join_names(b.drop_last()) + seq!['/'] + b.last()));
    }
}

proof fn lemma_segment_end(s: Seq<char>, p: int, n: Seq<char>)
    requires
        0 <= p,
        p + n.len() <= s.len(),
        s.subrange(p, p + n.len()) == n,
        forall|i: int| 0 <= i < n.len() ==> n[i] != '/',
        p + n.len() == s.len() || s[p + n.len()] == '/',
    ensures
        segment_end(s, p) == p + n.len(),
    decreases n.len(),
{
    if n.len() > 0 {
        assert(s[p] == s.subrange(p, p + n.len())[0]);
        let m = n.drop_first();
        assert(s.subrange(p + 1, p + 1 + m.len()) =~= m) by {
            assert forall|i: int| 0 <= i < m.len() implies s.subrange(p + 1, p + 1 + m.len())[i] == m[i] by {
                assert(s.subrange(p, p + n.len())[i + 1] == n[i + 1]);
            }
        }
        lemma_segment_end(s, p + 1, m);
    }
}

/// A plain name does not start with an empty component.
proof fn lemma_name_start(s: Seq<char>, q: int, n: Seq<char>)
    requires
        0 <= q,
        q + n.len() <= s.len(),
        s.subrange(q, q + n.len()) == n,
        plain_name(n),
    ensures
        skip_empty_from(s, q) == q,
{
    assert(s[q] == s.subrange(q, q + n.len())[0]);
    if s[q] == '.' {
        if n.len() == 1 {
            assert(n =~= seq!['.']);
        } else {
            assert(s[q + 1] == s.subrange(q, q + n.len())[1]);
        }
    }
}

/// Where the `j`-th component of `/` and plain names ends.
pub open spec fn name_end(all: Seq<Seq<char>>, j: int) -> int {
    if j == 0 {
        1
    } else {
        1 + join_names(all.take(j)).len() as int
    }
}

proof fn lemma_name_at(all: Seq<Seq<char>>, j: int)
    requires
        0 <= j < all.len(),
        forall|i: int| 0 <= i < all.len() ==> plain_name(#[trigger] all[i]),
    ensures
        ({
            let t = seq!['/'] + join_names(all);
            let q = if j == 0 { 1 } else { name_end(all, j) + 1 };
            &&& q + all[j].len() == name_end(all, j + 1)
            &&& name_end(all, j + 1) <= t.len()
            &&& t.subrange(q, q + all[j].len()) == all[j]
            &&& (name_end(all, j + 1) == t.len() || t[name_end(all, j + 1)] == '/')
            &&& (j > 0 ==> t[name_end(all, j)] == '/')
        }),
{
    let t = seq!['/'] + join_names(all);
    let a = all.take(j + 1);
    let ja = join_names(a);
    if j + 1 < all.len() {
        let b = all.skip(j + 1);
        assert(all =~= a + b);
        lemma_join_concat(a, b);
        assert(t =~= seq!['/'] + ja + seq!['/'] + join_names(b));
    } else {
        assert(all.take(j + 1) =~= all);
        assert(t =~= seq!['/'] + ja);
    }
    assert(t.subrange(0, 1 + ja.len() as int) =~= seq!['/'] + ja);
    if j == 0 {
        assert(a.len() == 1);
        assert(ja == all[0]);
        assert(t.subrange(1, 1 + all[0].len() as int) =~= all[0]);
    } else {
        assert(a.drop_last() =~= all.take(j));
        assert(a.last() == all[j]);
        assert(ja == join_names(all.take(j)) + seq!['/'] + all[j]);
        let pj: int = join_names(all.take(j)).len() as int;
        assert(t[1 + pj] == (seq!['/'] + ja)[1 + pj]);
        assert(t.subrange(pj + 2, pj + 2 + all[j].len()) =~= all[j]) by {
            assert forall|i: int| 0 <= i < all[j].len() implies t.subrange(pj + 2, pj + 2 + all[j].len())[i] == all[j][i] by {
                assert(t[pj + 2 + i] == (seq!['/'] + ja)[pj + 2 + i]);
            }
        }
    }
}

proof fn lemma_drop_names(all: Seq<Seq<char>>, j: int, m: int)
    requires
        0 <= j <= m <= all.len(),
        forall|i: int| 0 <= i < all.len() ==> plain_name(#[trigger] all[i]),
    ensures
        drop_from(seq!['/'] + join_names(all), name_end(all, j), (m - j) as nat) == name_end(all, m),
    decreases m - j,
{
    if j < m {
        let t = seq!['/'] + join_names(all);
        lemma_name_at(all, j);
        assert(plain_name(all[j]));
        let q = if j == 0 { 1 } else { name_end(all, j) + 1 };
        lemma_name_start(t, q, all[j]);
        assert(skip_empty_from(t, name_end(all, j)) == q) by {
            if j > 0 {
                assert(empty_at(t, name_end(all, j)));
            }
        }
        lemma_segment_end(t, q, all[j]);
        lemma_drop_names(all, j + 1, m);
    }
}

proof fn lemma_components_rooted(ns: Seq<Seq<char>>)
    requires
        ns.len() > 0,
        forall|i: int| 0 <= i < ns.len() ==> plain_name(#[trigger] ns[i]),
    ensures
        spec_components(seq!['/'] + join_names(ns)) == seq![root_part()] + ns,
{
    let h0 = seq!['/'] + ns[0];
    assert(plain_name(ns[0]));
    assert(h0.drop_first() =~= ns[0]);
    lemma_scan_no_slash(ns[0], true);
    assert(ns[0] != seq!['.']);
    assert(spec_components(h0) =~= seq![root_part(), ns[0]]);
    if ns.len() == 1 {
        assert(join_names(ns) == ns[0]);
        assert(seq![root_part()] + ns =~= seq![root_part(), ns[0]]);
    } else {
        let rest = ns.drop_first();
        assert forall|i: int| 0 <= i < rest.len() implies plain_name(#[trigger] rest[i]) by {
            assert(rest[i] == ns[i + 1]);
        }
        assert(ns =~= seq![ns[0]] + rest);
        lemma_join_concat(seq![ns[0]], rest);
        assert(join_names(seq![ns[0]]) == ns[0]);
        lemma_components_under(h0, rest);
        assert(seq!['/'] + join_names(ns) =~= h0 + seq!['/'] + join_names(rest));
        assert(seq![root_part(), ns[0]] + rest =~= seq![root_part()] + ns);
    }
}

/// What `Path::strip_prefix` leaves of a home made of plain names followed by plain
/// names is those names joined by `/`.
proof fn lemma_strip_under(hn: Seq<Seq<char>>, names: Seq<Seq<char>>)
    requires
        hn.len() > 0,
        names.len() > 0,
        forall|i: int| 0 <= i < hn.len() ==> plain_name(#[trigger] hn[i]),
        forall|i: int| 0 <= i < names.len() ==> plain_name(#[trigger] names[i]),
    ensures
        ({
            let home = seq!['/'] + join_names(hn);
            let t = home + seq!['/'] + join_names(names);
            &&& spec_components(home).len() == 1 + hn.len()
            &&& spec_strip_rest(t, spec_components(home).len()) == join_names(names)
        }),
{
    let home = seq!['/'] + join_names(hn);
    let jn = join_names(names);
    let t = home + seq!['/'] + jn;
    lemma_components_rooted(hn);
    let all = hn + names;
    assert forall|i: int| 0 <= i < all.len() implies plain_name(#[trigger] all[i]) by {
        if i < hn.len() {
            assert(all[i] == hn[i]);
        } else {
            assert(all[i] == names[i - hn.len()]);
        }
    }
    lemma_join_concat(hn, names);
    assert(t =~= seq!['/'] + join_names(all));
    lemma_drop_names(all, 0, hn.len() as int);
    assert(all.take(hn.len() as int) =~= hn);
    assert(name_end(all, hn.len() as int) == home.len());
    assert(after_components(t, (1 + hn.len()) as nat) == home.len());
    // the first name after home
    lemma_name_at(all, hn.len() as int);
    assert(all[hn.len() as int] == names[0]);
    assert(plain_name(names[0]));
    lemma_name_start(t, home.len() + 1int, names[0]);
    assert(empty_at(t, home.len() as int));
    assert(skip_empty_from(t, home.len() as int) == home.len() + 1);
    // the last name
    let l = names.last();
    assert(plain_name(names[names.len() - 1]));
    assert(t.subrange(t.len() - l.len(), t.len() as int) =~= l) by {
        if names.len() == 1 {
            assert(jn == names[0]);
        } else {
            assert(jn == join_names(names.drop_last()) + seq!['/'] + l);
        }
        assert forall|i: int| 0 <= i < l.len() implies t.subrange(t.len() - l.len(), t.len() as int)[i] == l[i] by {
            assert(t[t.len() - l.len() + i] == jn[jn.len() - l.len() + i]);
        }
    }
    let lo: int = home.len() + 1int;
    assert(lo <= t.len() - l.len()) by {
        if names.len() > 1 {
            assert(jn == join_names(names.drop_last()) + seq!['/'] + l);
        } else {
            assert(jn == names[0]);
        }
    }
    let e = t.len() as int;
    assert(t[e - 1] == t.subrange(e - l.len(), e)[l.len() - 1]);
    if t[e - 1] == '.' {
        if l.len() == 1 {
            assert(l =~= seq!['.']);
        } else {
            assert(t[e - 2] == t.subrange(e - l.len(), e)[l.len() - 2]);
        }
    }
    assert(trim_end_to(t, lo, e) == e);
    assert(t.subrange(lo, e) =~= jn);
}

/// A path inside the canonical home directory, shown to the client as
/// `real_to_virtual_path` shows it and mapped back with `virtual_to_real_path`, is the
/// same path. Stated for a home and a path made of plain names (no `.` or empty
/// names, no separators doubled), the last not ending in whitespace, which the
/// mapping back trims.
pub proof fn lemma_virtual_roundtrip(hn: Seq<Seq<char>>, names: Seq<Seq<char>>)
    requires
        hn.len() > 0,
        forall|i: int| 0 <= i < hn.len() ==> plain_name(#[trigger] hn[i]),
        names.len() > 0,
        forall|i: int| 0 <= i < names.len() ==> plain_name(#[trigger] names[i]),
        !is_unicode_whitespace(names.last().last()),
    ensures
        ({
            let home = seq!['/'] + join_names(hn);
            let server_path = home + seq!['/'] + join_names(names);
            spec_virtual_to_real(spec_real_to_virtual(server_path, home), home) == server_path
        }),
{
    let home = seq!['/'] + join_names(hn);
    let r = join_names(names);
    let server_path = home + seq!['/'] + r;
    lemma_join_plain(hn);
    lemma_components_under(home, names);
    lemma_join_plain(names);
    lemma_strip_under(hn, names);
    let rc = spec_components(server_path);
    let hc = spec_components(home);
    assert(rc.take(hc.len() as int) =~= hc);
    assert(rc != hc) by {
        assert(rc.len() == hc.len() + names.len());
    }
    assert(spec_backslash_to_slash(r) =~= r);
    let v = seq!['/'] + r;
    assert(spec_real_to_virtual(server_path, home) == v);
    assert(!is_unicode_whitespace('/'));
    assert(leading_ws(v) == 0);
    assert(v.skip(0) =~= v);
    assert(v.last() == r.last());
    assert(trailing_ws(v) == 0);
    assert(spec_trim(v) =~= v);
    assert(v.drop_first() =~= r);
    assert(r[0] != '/') by {
        assert(plain_name(names[0]));
    }
    assert(leading_slash_count(r) == 0);
    assert(leading_slash_count(v) == 1 + leading_slash_count(v.drop_first()));
    assert(v.skip(1) =~= r);
    assert(home.last() == join_names(hn).last());
    assert(plain_name(hn[hn.len() - 1]));
    assert(trailing_slashes(home) == 0);
    assert(home.take(home.len() as int) =~= home);
    assert(v != seq!['/']) by {
        assert(v.len() > 1);
    }
}

} // verus!
