//! Reading the program log and the file-operation audit log: choosing the log level,
//! keeping the last lines of a file, and turning a line into an entry.
//!
//! Program log lines are JSON objects or text lines
//! `<time> <LEVEL> <target>: <message>`; audit lines are JSON. A line that cannot be
//! read is skipped.

use vstd::prelude::*;
use crate::json::{
    json_parse, opt_json_view, parse_json, spec_as_bool, spec_as_str, spec_as_u64, spec_display, spec_get,
    JsonValue, JsonView,
};
use crate::paths::{components_of, parts_starts_with, spec_components, spec_starts_with};
use crate::text::{
    chars_range, chars_to_string, char_is_whitespace, leading_ws, push_str, spec_trim, str_eq,
    str_to_chars, to_lowercase, trim_chars, unicode_lower,
};

verus! {

/// The levels a log filter can be set to.
#[derive(Clone, Copy, Debug, PartialEq, Eq, Structural)]
pub enum LogLevel {
    Trace,
    Debug,
    Info,
    Warn,
    Error,
    Off,
}

/// The level named by a lowercased level name; unknown names mean `info`.
pub open spec fn spec_level_of(lowered: Seq<char>) -> LogLevel {
    if lowered == "trace"@ {
        LogLevel::Trace
    } else if lowered == "debug"@ {
        LogLevel::Debug
    } else if lowered == "info"@ {
        LogLevel::Info
    } else if lowered == "warn"@ || lowered == "warning"@ {
        LogLevel::Warn
    } else if lowered == "error"@ {
        LogLevel::Error
    } else if lowered == "off"@ {
        LogLevel::Off
    } else {
        LogLevel::Info
    }
}

pub fn level_of(lowered: &str) -> (r: LogLevel)
    ensures
        r == spec_level_of(lowered@),
{
    if str_eq(lowered, "trace") {
        LogLevel::Trace
    } else if str_eq(lowered, "debug") {
        LogLevel::Debug
    } else if str_eq(lowered, "info") {
        LogLevel::Info
    } else if str_eq(lowered, "warn") || str_eq(lowered, "warning") {
        LogLevel::Warn
    } else if str_eq(lowered, "error") {
        LogLevel::Error
    } else if str_eq(lowered, "off") {
        LogLevel::Off
    } else {
        LogLevel::Info
    }
}

impl LogLevel {
    pub open spec fn spec_name(&self) -> Seq<char> {
        match self {
            LogLevel::Trace => "trace"@,
            LogLevel::Debug => "debug"@,
            LogLevel::Info => "info"@,
            LogLevel::Warn => "warn"@,
            LogLevel::Error => "error"@,
            LogLevel::Off => "off"@,
        }
    }

    /// The level's name in a filter directive.
    pub fn name(&self) -> (r: &'static str)
        ensures
            r@ == self.spec_name(),
    {
        match self {
            LogLevel::Trace => "trace",
            LogLevel::Debug => "debug",
            LogLevel::Info => "info",
            LogLevel::Warn => "warn",
            LogLevel::Error => "error",
            LogLevel::Off => "off",
        }
    }
}

/// A log filter: a default level and the levels of some targets.
pub struct LogFilterSpec {
    pub default: LogLevel,
    pub targets: Vec<(String, LogLevel)>,
}

/// The filter for a configured level name (case-insensitive): that level by default,
/// with `russh` at info and `russh-keys`, `tokio` and `runtime` at warn.
pub fn parse_log_level(level: &str) -> (r: LogFilterSpec)
    ensures
        r.default == spec_level_of(unicode_lower(level@)),
        r.targets@.map_values(|t: (String, LogLevel)| (t.0@, t.1)) == seq![
            ("russh"@, LogLevel::Info),
            ("russh-keys"@, LogLevel::Warn),
            ("tokio"@, LogLevel::Warn),
            ("runtime"@, LogLevel::Warn),
        ],
{
    let lowered = to_lowercase(level);
    let default = level_of(lowered.as_str());
    let mut targets: Vec<(String, LogLevel)> = Vec::new();
    targets.push(("russh".to_owned(), LogLevel::Info));
    targets.push(("russh-keys".to_owned(), LogLevel::Warn));
    targets.push(("tokio".to_owned(), LogLevel::Warn));
    targets.push(("runtime".to_owned(), LogLevel::Warn));
    let r = LogFilterSpec { default, targets };
    assert(r.targets@.map_values(|t: (String, LogLevel)| (t.0@, t.1)) =~= seq![
        ("russh"@, LogLevel::Info),
        ("russh-keys"@, LogLevel::Warn),
        ("tokio"@, LogLevel::Warn),
        ("runtime"@, LogLevel::Warn),
    ]);
    r
}

impl LogFilterSpec {
    pub open spec fn spec_directives(&self) -> Seq<char> {
        directives_text(self.default.spec_name(), self.targets@.map_values(|t: (String, LogLevel)| (t.0@, t.1.spec_name())))
    }

    /// The filter as `tracing` directives: the default level, then `target=level`
    /// for each target, separated by commas.
    pub fn directives(&self) -> (r: String)
        ensures
            r@ == self.spec_directives(),
    {
        let mut out: Vec<char> = Vec::new();
        crate::text::push_str(&mut out, self.default.name());
        let ghost tv = self.targets@.map_values(|t: (String, LogLevel)| (t.0@, t.1.spec_name()));
        let mut i: usize = 0;
        while i < self.targets.len()
            invariant
                i <= self.targets@.len(),
                tv == self.targets@.map_values(|t: (String, LogLevel)| (t.0@, t.1.spec_name())),
                out@ == directives_text(self.default.spec_name(), tv.take(i as int)),
            decreases self.targets.len() - i,
        {
            let ghost before = out@;
            crate::text::push_str(&mut out, ",");
            crate::text::push_str(&mut out, self.targets[i].0.as_str());
            crate::text::push_str(&mut out, "=");
            crate::text::push_str(&mut out, self.targets[i].1.name());
            assert(tv.take(i + 1).drop_last() =~= tv.take(i as int));
            assert(tv.take(i + 1).last() == tv[i as int]);
            i = i + 1;
        }
        assert(tv.take(tv.len() as int) =~= tv);
        chars_to_string(out.as_slice())
    }
}

pub open spec fn directives_text(default: Seq<char>, targets: Seq<(Seq<char>, Seq<char>)>) -> Seq<char>
    decreases targets.len(),
{
    if targets.len() == 0 {
        default
    } else {
        directives_text(default, targets.drop_last()) + ","@ + targets.last().0 + "="@ + targets.last().1
    }
}

/// The last `count` lines, in order (all of them when there are fewer).
pub open spec fn spec_tail(lines: Seq<Seq<char>>, count: nat) -> Seq<Seq<char>> {
    if lines.len() > count {
        lines.skip(lines.len() - count)
    } else {
        lines
    }
}

/// Keeps the last `count` of the lines read from a file, holding at most twice that
/// many at a time.
pub fn tail_lines(lines: Vec<String>, count: usize) -> (r: Vec<String>)
    requires
        lines@.len() > 0 ==> count * 2 <= usize::MAX,
    ensures
        r@.map_values(|s: String| s@) == spec_tail(lines@.map_values(|s: String| s@), count as nat),
{
    if lines.len() == 0 {
        let r: Vec<String> = Vec::new();
        assert(r@.map_values(|s: String| s@) =~= lines@.map_values(|s: String| s@));
        return r;
    }
    let ghost all = lines@.map_values(|s: String| s@);
    let mut kept: Vec<String> = Vec::new();
    let mut i: usize = 0;
    assert(all.take(0) =~= Seq::<Seq<char>>::empty());
    while i < lines.len()
        invariant
            i <= lines@.len(),
            all == lines@.map_values(|s: String| s@),
            count * 2 <= usize::MAX,
            kept@.len() <= count * 2,
            kept@.map_values(|s: String| s@) =~= all.take(i as int).skip(i - kept@.len()),
            kept@.len() <= i,
            kept@.len() >= if i < count { i as int } else { count as int },
        decreases lines.len() - i,
    {
        let ghost before = kept@.map_values(|s: String| s@);
        kept.push(lines[i].clone());
        assert(kept@.map_values(|s: String| s@) =~= before.push(lines@[i as int]@));
        assert(all.take(i + 1) =~= all.take(i as int).push(all[i as int]));
        i = i + 1;
        assert(kept@.map_values(|s: String| s@) =~= all.take(i as int).skip(i - kept@.len()));
        if kept.len() > count * 2 {
            let drain_to = kept.len() - count;
            let ghost k0 = kept@.map_values(|s: String| s@);
            let mut rest: Vec<String> = Vec::new();
            let mut j = drain_to;
            while j < kept.len()
                invariant
                    drain_to <= j <= kept@.len(),
                    rest@.map_values(|s: String| s@) =~= k0.subrange(drain_to as int, j as int),
                    k0 == kept@.map_values(|s: String| s@),
                decreases kept.len() - j,
            {
                let c = kept[j].clone();
                let ghost rb = rest@.map_values(|s: String| s@);
                rest.push(c);
                assert(rest@.map_values(|s: String| s@) =~= rb.push(k0[j as int]));
                j = j + 1;
            }
            assert(rest@.map_values(|s: String| s@) =~= all.take(i as int).skip(i - rest@.len()));
            kept = rest;
        }
    }
    assert(all.take(lines@.len() as int) =~= all);
    if kept.len() > count {
        let ghost k0 = kept@.map_values(|s: String| s@);
        let start = kept.len() - count;
        let mut rest: Vec<String> = Vec::new();
        let mut j = start;
        while j < kept.len()
            invariant
                start <= j <= kept@.len(),
                rest@.map_values(|s: String| s@) =~= k0.subrange(start as int, j as int),
                k0 == kept@.map_values(|s: String| s@),
            decreases kept.len() - j,
        {
            let c = kept[j].clone();
            let ghost rb = rest@.map_values(|s: String| s@);
            rest.push(c);
            assert(rest@.map_values(|s: String| s@) =~= rb.push(k0[j as int]));
            j = j + 1;
        }
        assert(rest@.map_values(|s: String| s@) =~= spec_tail(all, count as nat));
        rest
    } else {
        assert(kept@.map_values(|s: String| s@) =~= spec_tail(all, count as nat));
        kept
    }
}

/// One entry of the program log.
pub struct LogEntry {
    pub timestamp: String,
    pub level: String,
    pub source: String,
    pub message: String,
    pub client_ip: Option<String>,
    pub username: Option<String>,
    pub action: Option<String>,
}

/// `k` is the position of the first `a` followed by `b` in `s`.
pub open spec fn is_first_pair(s: Seq<char>, a: char, b: char, k: int) -> bool {
    &&& 0 <= k
    &&& k + 1 < s.len()
    &&& s[k] == a
    &&& s[k + 1] == b
    &&& forall|j: int| 0 <= j < k ==> !(#[trigger] s[j] == a && s[j + 1] == b)
}

/// `k` is the position of the first `c` in `s`.
pub open spec fn is_first_char(s: Seq<char>, c: char, k: int) -> bool {
    &&& 0 <= k < s.len()
    &&& s[k] == c
    &&& forall|j: int| 0 <= j < k ==> s[j] != c
}

/// `str::split_once` at the first `c`.
pub open spec fn split_once_char(s: Seq<char>, c: char) -> Option<(Seq<char>, Seq<char>)> {
    if exists|k: int| is_first_char(s, c, k) {
        let k = choose|k: int| is_first_char(s, c, k);
        Some((s.take(k), s.skip(k + 1)))
    } else {
        None
    }
}

/// `str::split_once(": ")`.
pub open spec fn split_once_colon_space(s: Seq<char>) -> Option<(Seq<char>, Seq<char>)> {
    if exists|k: int| is_first_pair(s, ':', ' ', k) {
        let k = choose|k: int| is_first_pair(s, ':', ' ', k);
        Some((s.take(k), s.skip(k + 2)))
    } else {
        None
    }
}

/// `str::trim_start`.
pub open spec fn trim_start(s: Seq<char>) -> Seq<char> {
    s.skip(leading_ws(s) as int)
}

pub struct LogEntryView {
    pub timestamp: Seq<char>,
    pub level: Seq<char>,
    pub source: Seq<char>,
    pub message: Seq<char>,
    pub client_ip: Option<Seq<char>>,
    pub username: Option<Seq<char>>,
    pub action: Option<Seq<char>>,
}

pub open spec fn opt_text(o: Option<String>) -> Option<Seq<char>> {
    match o {
        Some(s) => Some(s@),
        None => None,
    }
}

impl LogEntry {
    pub open spec fn view_entry(&self) -> LogEntryView {
        LogEntryView {
            timestamp: self.timestamp@,
            level: self.level@,
            source: self.source@,
            message: self.message@,
            client_ip: opt_text(self.client_ip),
            username: opt_text(self.username),
            action: opt_text(self.action),
        }
    }
}

/// A text line (already trimmed): the time up to the first space; after more spaces
/// the level up to the next space; after more spaces the target up to the first
/// `": "` and the message after it (no target when there is no `": "`).
pub open spec fn spec_text_entry(t: Seq<char>) -> Option<LogEntryView> {
    match split_once_char(t, ' ') {
        None => None,
        Some((ts, rem)) => match split_once_char(trim_start(rem), ' ') {
            None => None,
            Some((level, rest)) => {
                let r = trim_start(rest);
                let (source, message) = match split_once_colon_space(r) {
                    Some((s, m)) => (s, m),
                    None => (Seq::<char>::empty(), r),
                };
                Some(LogEntryView {
                    timestamp: ts,
                    level,
                    source,
                    message,
                    client_ip: None,
                    username: None,
                    action: None,
                })
            },
        },
    }
}

proof fn lemma_first_char_unique(s: Seq<char>, c: char, a: int, b: int)
    requires
        is_first_char(s, c, a),
        is_first_char(s, c, b),
    ensures
        a == b,
{
    if a < b {
        assert(s[a] != c);
    } else if b < a {
        assert(s[b] != c);
    }
}

fn split_once_at(s: &[char], c: char) -> (r: Option<(Vec<char>, Vec<char>)>)
    ensures
        match r {
            Some((a, b)) => split_once_char(s@, c) == Some((a@, b@)),
            None => split_once_char(s@, c) is None,
        },
{
    let mut k: usize = 0;
    while k < s.len()
        invariant
            k <= s@.len(),
            forall|j: int| 0 <= j < k ==> s@[j] != c,
        ensures
            k <= s@.len(),
            forall|j: int| 0 <= j < k ==> s@[j] != c,
            k < s@.len() ==> s@[k as int] == c,
        decreases s.len() - k,
    {
        if s[k] == c {
            break;
        }
        k = k + 1;
    }
    if k < s.len() {
        assert(is_first_char(s@, c, k as int));
        proof {
            let k2 = choose|k2: int| is_first_char(s@, c, k2);
            lemma_first_char_unique(s@, c, k as int, k2);
        }
        let a = chars_range(s, 0, k);
        let b = chars_range(s, k + 1, s.len());
        assert(a@ =~= s@.take(k as int));
        assert(b@ =~= s@.skip(k + 1));
        Some((a, b))
    } else {
        assert(!exists|k2: int| is_first_char(s@, c, k2));
        None
    }
}

proof fn lemma_first_pair_unique(s: Seq<char>, a: int, b: int)
    requires
        is_first_pair(s, ':', ' ', a),
        is_first_pair(s, ':', ' ', b),
    ensures
        a == b,
{
    if a < b {
        assert(!(s[a] == ':' && s[a + 1] == ' '));
    } else if b < a {
        assert(!(s[b] == ':' && s[b + 1] == ' '));
    }
}

fn split_once_pair(s: &[char]) -> (r: Option<(Vec<char>, Vec<char>)>)
    ensures
        match r {
            Some((a, b)) => split_once_colon_space(s@) == Some((a@, b@)),
            None => split_once_colon_space(s@) is None,
        },
{
    let mut k: usize = 0;
    while s.len() > 0 && k < s.len() - 1
        invariant
            k <= s@.len(),
            forall|j: int| 0 <= j < k ==> !(#[trigger] s@[j] == ':' && s@[j + 1] == ' '),
        ensures
            forall|j: int| 0 <= j < k ==> !(#[trigger] s@[j] == ':' && s@[j + 1] == ' '),
            k + 1 < s@.len() ==> s@[k as int] == ':' && s@[k + 1] == ' ',
            k + 1 >= s@.len() ==> forall|j: int| 0 <= j && j + 1 < s@.len() ==> !(#[trigger] s@[j] == ':' && s@[j + 1] == ' '),
        decreases s.len() - k,
    {
        if s[k] == ':' && s[k + 1] == ' ' {
            break;
        }
        k = k + 1;
    }
    if s.len() > 0 && k < s.len() - 1 {
        assert(is_first_pair(s@, ':', ' ', k as int));
        proof {
            let k2 = choose|k2: int| is_first_pair(s@, ':', ' ', k2);
            lemma_first_pair_unique(s@, k as int, k2);
        }
        let a = chars_range(s, 0, k);
        let b = chars_range(s, k + 2, s.len());
        assert(a@ =~= s@.take(k as int));
        assert(b@ =~= s@.skip(k + 2));
        Some((a, b))
    } else {
        assert(!exists|k2: int| is_first_pair(s@, ':', ' ', k2));
        None
    }
}

fn trim_start_chars(s: &[char]) -> (r: Vec<char>)
    ensures
        r@ == trim_start(s@),
{
    let mut a: usize = 0;
    assert(s@.skip(0) =~= s@);
    while a < s.len() && char_is_whitespace(s[a])
        invariant
            a <= s@.len(),
            leading_ws(s@) == a + leading_ws(s@.skip(a as int)),
        decreases s.len() - a,
    {
        assert(s@.skip(a as int).drop_first() =~= s@.skip(a + 1));
        a = a + 1;
    }
    assert(leading_ws(s@.skip(a as int)) == 0);
    let r = chars_range(s, a, s.len());
    assert(r@ =~= s@.skip(a as int));
    r
}

pub open spec fn opt_entry_view(o: Option<LogEntry>) -> Option<LogEntryView> {
    match o {
        Some(e) => Some(e.view_entry()),
        None => None,
    }
}

/// Reads a text line of the program log (already trimmed).
pub fn parse_text_line(t: &[char]) -> (r: Option<LogEntry>)
    ensures
        opt_entry_view(r) == spec_text_entry(t@),
{
    let (ts, rem) = match split_once_at(t, ' ') {
        Some(p) => p,
        None => {
            return None;
        },
    };
    let rem2 = trim_start_chars(rem.as_slice());
    let (level, rest) = match split_once_at(rem2.as_slice(), ' ') {
        Some(p) => p,
        None => {
            return None;
        },
    };
    let r = trim_start_chars(rest.as_slice());
    let (source, message) = match split_once_pair(r.as_slice()) {
        Some((s, m)) => (s, m),
        None => (Vec::new(), r),
    };
    proof {
        if split_once_colon_space(trim_start(rest@)) is None {
            assert(source@ =~= Seq::<char>::empty());
        }
    }
    Some(LogEntry {
        timestamp: chars_to_string(ts.as_slice()),
        level: chars_to_string(level.as_slice()),
        source: chars_to_string(source.as_slice()),
        message: chars_to_string(message.as_slice()),
        client_ip: None,
        username: None,
        action: None,
    })
}

/// The text of a top-level member; a missing member counts as `null`, which gives
/// nothing.
pub open spec fn spec_top_text(j: JsonView, key: Seq<char>) -> Option<Seq<char>> {
    match spec_get(j, key) {
        Some(x) => spec_display(x),
        None => None,
    }
}

/// The member `key` of the member `fields`.
pub open spec fn spec_field(j: JsonView, key: Seq<char>) -> Option<JsonView> {
    match spec_get(j, "fields"@) {
        Some(f) => spec_get(f, key),
        None => None,
    }
}

/// The string `fields.<key>`, if there is one.
pub open spec fn spec_field_str(j: JsonView, key: Seq<char>) -> Option<Seq<char>> {
    match spec_field(j, key) {
        Some(x) => spec_as_str(x),
        None => None,
    }
}

pub open spec fn or_empty(o: Option<Seq<char>>) -> Seq<char> {
    match o {
        Some(s) => s,
        None => Seq::empty(),
    }
}

/// The entry a JSON object of the program log gives: its `timestamp`, `level` (`INFO`
/// when missing or `null`) and `target` as text, and the strings `message` (empty
/// when missing), `client_ip`, `username` and `action` of its `fields`.
pub open spec fn spec_json_entry(j: JsonView) -> LogEntryView {
    LogEntryView {
        timestamp: or_empty(spec_top_text(j, "timestamp"@)),
        level: match spec_top_text(j, "level"@) {
            Some(l) => l,
            None => "INFO"@,
        },
        source: or_empty(spec_top_text(j, "target"@)),
        message: or_empty(spec_field_str(j, "message"@)),
        client_ip: spec_field_str(j, "client_ip"@),
        username: spec_field_str(j, "username"@),
        action: spec_field_str(j, "action"@),
    }
}

/// The entry a program-log line gives: none for a blank line; a line that is a JSON
/// object gives its entry; any other line is read as a text line.
pub open spec fn spec_program_line(line: Seq<char>) -> Option<LogEntryView> {
    let t = spec_trim(line);
    if t.len() == 0 {
        None
    } else {
        match json_parse(t) {
            Some(j) if j is Object => Some(spec_json_entry(j)),
            _ => spec_text_entry(t),
        }
    }
}

/// The text of a top-level member.
fn top_text(v: &JsonValue, key: &str) -> (r: Option<String>)
    ensures
        match r {
            Some(s) => spec_top_text(v.view_json(), key@) == Some(s@),
            None => spec_top_text(v.view_json(), key@) is None,
        },
{
    match v.get(key) {
        Some(x) => x.display(),
        None => None,
    }
}

/// The member `fields.<key>`.
fn field<'a>(v: &'a JsonValue, key: &str) -> (r: Option<&'a JsonValue>)
    ensures
        opt_json_view(match r { Some(x) => Some(*x), None => None }) == spec_field(v.view_json(), key@),
{
    let fields = "fields";
    proof {
        reveal_strlit("fields");
    }
    match v.get(fields) {
        Some(f) => f.get(key),
        None => None,
    }
}

/// The string `fields.<key>`, if there is one.
fn field_str(v: &JsonValue, key: &str) -> (r: Option<String>)
    ensures
        match r {
            Some(s) => spec_field_str(v.view_json(), key@) == Some(s@),
            None => spec_field_str(v.view_json(), key@) is None,
        },
{
    match field(v, key) {
        Some(x) => x.as_str(),
        None => None,
    }
}

fn unwrap_or_empty(o: Option<String>) -> (r: String)
    ensures
        r@ == match o {
            Some(s) => s@,
            None => Seq::<char>::empty(),
        },
{
    match o {
        Some(s) => s,
        None => String::new(),
    }
}

/// Reads a line of the program log: empty lines are skipped; a JSON object gives its
/// `timestamp`, `level` (`INFO` when missing), `target` and the `message`,
/// `client_ip`, `username` and `action` of its `fields`; any other line is read as a
/// text line.
pub fn parse_program_line(line: &str) -> (r: Option<LogEntry>)
    ensures
        opt_entry_view(r) == spec_program_line(line@),
{
    let raw = str_to_chars(line);
    let t = trim_chars(raw.as_slice());
    if t.len() == 0 {
        return None;
    }
    let ts = chars_to_string(t.as_slice());
    match parse_json(ts.as_str()) {
        Some(v) => {
            if v.is_object() {
                let level = match top_text(&v, "level") {
                    Some(l) => l,
                    None => "INFO".to_owned(),
                };
                proof {
                    reveal_strlit("INFO");
                }
                Some(LogEntry {
                    timestamp: unwrap_or_empty(top_text(&v, "timestamp")),
                    level,
                    source: unwrap_or_empty(top_text(&v, "target")),
                    message: unwrap_or_empty(field_str(&v, "message")),
                    client_ip: field_str(&v, "client_ip"),
                    username: field_str(&v, "username"),
                    action: field_str(&v, "action"),
                })
            } else {
                parse_text_line(t.as_slice())
            }
        },
        None => parse_text_line(t.as_slice()),
    }
}

/// One entry of the file-operation audit log.
pub struct FileLogEntry {
    pub timestamp: String,
    pub username: String,
    pub client_ip: String,
    pub operation: String,
    pub file_path: String,
    pub file_size: u64,
    pub protocol: String,
    pub success: bool,
    pub message: String,
}

/// The mathematical form of an audit-log entry.
pub struct FileLogEntryView {
    pub timestamp: Seq<char>,
    pub username: Seq<char>,
    pub client_ip: Seq<char>,
    pub operation: Seq<char>,
    pub file_path: Seq<char>,
    pub file_size: u64,
    pub protocol: Seq<char>,
    pub success: bool,
    pub message: Seq<char>,
}

impl FileLogEntry {
    pub open spec fn view_entry(&self) -> FileLogEntryView {
        FileLogEntryView {
            timestamp: self.timestamp@,
            username: self.username@,
            client_ip: self.client_ip@,
            operation: self.operation@,
            file_path: self.file_path@,
            file_size: self.file_size,
            protocol: self.protocol@,
            success: self.success,
            message: self.message@,
        }
    }
}

/// The entry a JSON document of the audit log gives: the string `timestamp`, the
/// strings `username`, `client_ip`, `operation`, `file_path`, `protocol` and `message`
/// of its `fields` (empty when missing or not strings), `fields.file_size` when it is
/// a whole number that fits in `u64` (else zero) and `fields.success` when it is a
/// boolean (else false).
pub open spec fn spec_file_entry(j: JsonView) -> FileLogEntryView {
    FileLogEntryView {
        timestamp: match spec_get(j, "timestamp"@) {
            Some(x) => or_empty(spec_as_str(x)),
            None => Seq::empty(),
        },
        username: or_empty(spec_field_str(j, "username"@)),
        client_ip: or_empty(spec_field_str(j, "client_ip"@)),
        operation: or_empty(spec_field_str(j, "operation"@)),
        file_path: or_empty(spec_field_str(j, "file_path"@)),
        file_size: match spec_field(j, "file_size"@) {
            Some(x) => match spec_as_u64(x) {
                Some(n) => n,
                None => 0,
            },
            None => 0,
        },
        protocol: or_empty(spec_field_str(j, "protocol"@)),
        success: match spec_field(j, "success"@) {
            Some(x) => match spec_as_bool(x) {
                Some(b) => b,
                None => false,
            },
            None => false,
        },
        message: or_empty(spec_field_str(j, "message"@)),
    }
}

/// The entry an audit-log line gives: any JSON document gives one, other lines none.
pub open spec fn spec_file_op_line(line: Seq<char>) -> Option<FileLogEntryView> {
    match json_parse(spec_trim(line)) {
        Some(j) => Some(spec_file_entry(j)),
        None => None,
    }
}

pub open spec fn opt_file_entry_view(o: Option<FileLogEntry>) -> Option<FileLogEntryView> {
    match o {
        Some(e) => Some(e.view_entry()),
        None => None,
    }
}

/// Reads a line of the audit log: any JSON document gives an entry (missing fields
/// empty, zero or false); other lines are skipped.
pub fn parse_file_op_line(line: &str) -> (r: Option<FileLogEntry>)
    ensures
        opt_file_entry_view(r) == spec_file_op_line(line@),
{
    let raw = str_to_chars(line);
    let t = trim_chars(raw.as_slice());
    let ts = chars_to_string(t.as_slice());
    let v = match parse_json(ts.as_str()) {
        Some(v) => v,
        None => {
            return None;
        },
    };
    let timestamp = match v.get("timestamp") {
        Some(x) => unwrap_or_empty(x.as_str()),
        None => String::new(),
    };
    let file_size = match field(&v, "file_size") {
        Some(x) => match x.as_u64() {
            Some(n) => n,
            None => 0,
        },
        None => 0,
    };
    let success = match field(&v, "success") {
        Some(x) => match x.as_bool() {
            Some(b) => b,
            None => false,
        },
        None => false,
    };
    Some(FileLogEntry {
        timestamp,
        username: unwrap_or_empty(field_str(&v, "username")),
        client_ip: unwrap_or_empty(field_str(&v, "client_ip")),
        operation: unwrap_or_empty(field_str(&v, "operation")),
        file_path: unwrap_or_empty(field_str(&v, "file_path")),
        file_size,
        protocol: unwrap_or_empty(field_str(&v, "protocol")),
        success,
        message: unwrap_or_empty(field_str(&v, "message")),
    })
}

/// The entries that program-log lines give, in order; lines that give none are
/// skipped.
pub open spec fn program_entries(lines: Seq<Seq<char>>) -> Seq<LogEntryView>
    decreases lines.len(),
{
    if lines.len() == 0 {
        Seq::empty()
    } else {
        let rest = program_entries(lines.drop_last());
        match spec_program_line(lines.last()) {
            Some(e) => rest.push(e),
            None => rest,
        }
    }
}

/// The entries that audit-log lines give, in order; lines that give none are skipped.
pub open spec fn file_op_entries(lines: Seq<Seq<char>>) -> Seq<FileLogEntryView>
    decreases lines.len(),
{
    if lines.len() == 0 {
        Seq::empty()
    } else {
        let rest = file_op_entries(lines.drop_last());
        match spec_file_op_line(lines.last()) {
            Some(e) => rest.push(e),
            None => rest,
        }
    }
}

pub open spec fn line_texts(v: Seq<String>) -> Seq<Seq<char>> {
    v.map_values(|s: String| s@)
}

pub open spec fn entry_views(v: Seq<LogEntry>) -> Seq<LogEntryView> {
    v.map_values(|e: LogEntry| e.view_entry())
}

pub open spec fn file_entry_views(v: Seq<FileLogEntry>) -> Seq<FileLogEntryView> {
    v.map_values(|e: FileLogEntry| e.view_entry())
}

/// The entries of the last `count` lines of the program log (`None`: the file could
/// not be read), oldest first; lines that cannot be read are skipped.
pub fn read_program_log(lines: Option<Vec<String>>, count: usize) -> (r: Vec<LogEntry>)
    requires
        lines matches Some(ls) && ls@.len() > 0 ==> count * 2 <= usize::MAX,
    ensures
        lines is None ==> r@.len() == 0,
        lines matches Some(ls) ==> entry_views(r@) == program_entries(spec_tail(line_texts(ls@), count as nat)),
{
    let ls = match lines {
        Some(ls) => ls,
        None => {
            return Vec::new();
        },
    };
    let tail = tail_lines(ls, count);
    let ghost t = line_texts(tail@);
    let mut out: Vec<LogEntry> = Vec::new();
    let mut i: usize = 0;
    assert(t.take(0) =~= Seq::<Seq<char>>::empty());
    assert(entry_views(out@) =~= Seq::<LogEntryView>::empty());
    while i < tail.len()
        invariant
            i <= tail@.len(),
            t == line_texts(tail@),
            entry_views(out@) == program_entries(t.take(i as int)),
        decreases tail.len() - i,
    {
        let ghost pre = t.take(i as int);
        assert(t.take(i + 1).drop_last() =~= pre);
        assert(t.take(i + 1).last() == tail@[i as int]@);
        let e = parse_program_line(tail[i].as_str());
        match e {
            Some(entry) => {
                let ghost o0 = out@;
                out.push(entry);
                assert(entry_views(out@) =~= entry_views(o0).push(entry.view_entry()));
            },
            None => {},
        }
        i = i + 1;
    }
    assert(t.take(tail@.len() as int) =~= t);
    out
}

/// The entries of the last `count` lines of the audit log (`None`: the file could not
/// be read), oldest first; lines that are not JSON are skipped.
pub fn read_file_op_log(lines: Option<Vec<String>>, count: usize) -> (r: Vec<FileLogEntry>)
    requires
        lines matches Some(ls) && ls@.len() > 0 ==> count * 2 <= usize::MAX,
    ensures
        lines is None ==> r@.len() == 0,
        lines matches Some(ls) ==> file_entry_views(r@) == file_op_entries(spec_tail(line_texts(ls@), count as nat)),
{
    let ls = match lines {
        Some(ls) => ls,
        None => {
            return Vec::new();
        },
    };
    let tail = tail_lines(ls, count);
    let ghost t = line_texts(tail@);
    let mut out: Vec<FileLogEntry> = Vec::new();
    let mut i: usize = 0;
    assert(t.take(0) =~= Seq::<Seq<char>>::empty());
    assert(file_entry_views(out@) =~= Seq::<FileLogEntryView>::empty());
    while i < tail.len()
        invariant
            i <= tail@.len(),
            t == line_texts(tail@),
            file_entry_views(out@) == file_op_entries(t.take(i as int)),
        decreases tail.len() - i,
    {
        let ghost pre = t.take(i as int);
        assert(t.take(i + 1).drop_last() =~= pre);
        assert(t.take(i + 1).last() == tail@[i as int]@);
        match parse_file_op_line(tail[i].as_str()) {
            Some(entry) => {
                let ghost o0 = out@;
                out.push(entry);
                assert(file_entry_views(out@) =~= file_entry_views(o0).push(entry.view_entry()));
            },
            None => {},
        }
        i = i + 1;
    }
    assert(t.take(tail@.len() as int) =~= t);
    out
}

/// The refusal of a log file that lies outside the log directory.
pub open spec fn outside_message(path: Seq<char>) -> Seq<char> {
    "path "@ + path + " is outside log directory"@
}

/// Checks that a log file lies in the log directory, by the components of both
/// canonical paths; `path` is the file as asked for.
pub fn ensure_path_in_dir(path: &str, canonical_path: &str, canonical_dir: &str) -> (r: Result<(), String>)
    ensures
        r is Ok <==> spec_starts_with(spec_components(canonical_path@), spec_components(canonical_dir@)),
        r matches Err(m) ==> m@ == outside_message(path@),
{
    let p = str_to_chars(canonical_path);
    let d = str_to_chars(canonical_dir);
    let pc = components_of(p.as_slice());
    let dc = components_of(d.as_slice());
    if parts_starts_with(&pc, &dc) {
        Ok(())
    } else {
        let mut m: Vec<char> = Vec::new();
        push_str(&mut m, "path ");
        push_str(&mut m, path);
        push_str(&mut m, " is outside log directory");
        Err(chars_to_string(m.as_slice()))
    }
}

/// `a` sorts strictly before `b`: the first differing character is smaller, or `a`
/// is a proper prefix of `b` (the order of `str::cmp`).
pub open spec fn text_less(a: Seq<char>, b: Seq<char>) -> bool
    decreases a.len(),
{
    if a.len() == 0 {
        b.len() > 0
    } else if b.len() == 0 {
        false
    } else if a[0] != b[0] {
        (a[0] as u32) < (b[0] as u32)
    } else {
        text_less(a.drop_first(), b.drop_first())
    }
}

fn chars_less(a: &[char], b: &[char]) -> (r: bool)
    ensures
        r == text_less(a@, b@),
{
    let mut i: usize = 0;
    assert(a@.skip(0) =~= a@);
    assert(b@.skip(0) =~= b@);
    while i < a.len() && i < b.len()
        invariant
            i <= a@.len(),
            i <= b@.len(),
            forall|j: int| 0 <= j < i ==> a@[j] == b@[j],
            text_less(a@, b@) == text_less(a@.skip(i as int), b@.skip(i as int)),
        decreases a.len() - i,
    {
        if a[i] != b[i] {
            assert(a@.skip(i as int)[0] == a@[i as int] && b@.skip(i as int)[0] == b@[i as int]);
            return (a[i] as u32) < (b[i] as u32);
        }
        assert(a@.skip(i as int).drop_first() =~= a@.skip(i + 1));
        assert(b@.skip(i as int).drop_first() =~= b@.skip(i + 1));
        i = i + 1;
    }
    a.len() - i == 0 && b.len() - i > 0
}

/// A log file: its name without the extension, and its path.
pub struct LogFileEntry {
    pub name: String,
    pub path: String,
}

pub open spec fn file_views(v: Seq<LogFileEntry>) -> Seq<(Seq<char>, Seq<char>)> {
    v.map_values(|e: LogFileEntry| (e.name@, e.path@))
}

/// Inserts an entry into a list sorted newest name first, after every entry whose name
/// does not sort before it (so entries with equal names keep their order).
pub open spec fn insert_desc(sorted: Seq<(Seq<char>, Seq<char>)>, e: (Seq<char>, Seq<char>)) -> Seq<(Seq<char>, Seq<char>)>
    decreases sorted.len(),
{
    if sorted.len() == 0 {
        seq![e]
    } else if text_less(sorted[0].0, e.0) {
        seq![e] + sorted
    } else {
        seq![sorted[0]] + insert_desc(sorted.drop_first(), e)
    }
}

/// The entries sorted by name, greatest first, equal names in their original order.
pub open spec fn sort_desc(s: Seq<(Seq<char>, Seq<char>)>) -> Seq<(Seq<char>, Seq<char>)>
    decreases s.len(),
{
    if s.len() == 0 {
        s
    } else {
        insert_desc(sort_desc(s.drop_last()), s.last())
    }
}

/// What `Path::extension` gives of a file name: the text after the last `.`, unless
/// that dot is the first character (or there is none).
pub open spec fn extension_of(name: Seq<char>) -> Option<Seq<char>> {
    if exists|k: int| 0 < k < name.len() && name[k] == '.' {
        let k = choose|k: int| 0 < k < name.len() && name[k] == '.' && forall|j: int| k < j < name.len() ==> name[j] != '.';
        Some(name.skip(k + 1))
    } else {
        None
    }
}

/// What `Path::file_stem` gives of a file name: the text before the last `.` when
/// there is an extension, else the whole name.
pub open spec fn stem_of(name: Seq<char>) -> Seq<char> {
    if exists|k: int| 0 < k < name.len() && name[k] == '.' {
        let k = choose|k: int| 0 < k < name.len() && name[k] == '.' && forall|j: int| k < j < name.len() ==> name[j] != '.';
        name.take(k)
    } else {
        name
    }
}

/// A directory entry: its file name, whether it is a regular file, its path.
pub struct DirListing {
    pub file_name: String,
    pub is_file: bool,
    pub path: String,
}

/// `eq_ignore_ascii_case("log")`.
pub open spec fn is_log_extension(e: Seq<char>) -> bool {
    e.len() == 3 && (e[0] == 'l' || e[0] == 'L') && (e[1] == 'o' || e[1] == 'O') && (e[2] == 'g' || e[2] == 'G')
}

/// Whether a directory entry is a log file of the given prefix.
pub open spec fn is_log_file(d: DirListing, prefix: Seq<char>) -> bool {
    &&& d.is_file
    &&& prefix.len() <= d.file_name@.len()
    &&& d.file_name@.take(prefix.len() as int) == prefix
    &&& extension_of(d.file_name@) matches Some(e) && is_log_extension(e)
}

/// The log files among the entries, in their order, as (stem, path).
pub open spec fn log_files_of(entries: Seq<DirListing>, prefix: Seq<char>) -> Seq<(Seq<char>, Seq<char>)>
    decreases entries.len(),
{
    if entries.len() == 0 {
        Seq::empty()
    } else {
        let r = log_files_of(entries.drop_last(), prefix);
        let d = entries.last();
        if is_log_file(d, prefix) {
            r.push((stem_of(d.file_name@), d.path@))
        } else {
            r
        }
    }
}

proof fn lemma_last_dot(name: Seq<char>, k: int)
    requires
        0 < k < name.len(),
        name[k] == '.',
        forall|j: int| k < j < name.len() ==> name[j] != '.',
    ensures
        extension_of(name) == Some(name.skip(k + 1)),
        stem_of(name) == name.take(k),
{
    assert(exists|k2: int| 0 < k2 < name.len() && name[k2] == '.');
    let k2 = choose|k2: int| 0 < k2 < name.len() && name[k2] == '.' && forall|j: int| k2 < j < name.len() ==> name[j] != '.';
    assert(0 < k2 < name.len() && name[k2] == '.' && forall|j: int| k2 < j < name.len() ==> name[j] != '.');
    if k2 < k {
        assert(name[k] != '.');
    } else if k < k2 {
        assert(name[k2] != '.');
    }
}

/// The last dot of a file name that is not its first character, if any.
fn last_dot(name: &[char]) -> (r: Option<usize>)
    ensures
        match r {
            Some(k) => 0 < k < name@.len() && name@[k as int] == '.' && forall|j: int| k < j < name@.len() ==> name@[j] != '.',
            None => !exists|k: int| 0 < k < name@.len() && name@[k] == '.',
        },
{
    let mut i: usize = name.len();
    while i > 1
        invariant
            i <= name@.len(),
            forall|j: int| i <= j < name@.len() ==> name@[j] != '.',
        decreases i,
    {
        if name[i - 1] == '.' {
            return Some(i - 1);
        }
        i = i - 1;
    }
    None
}

fn is_log_ext(e: &[char]) -> (r: bool)
    ensures
        r == is_log_extension(e@),
{
    e.len() == 3 && (e[0] == 'l' || e[0] == 'L') && (e[1] == 'o' || e[1] == 'O') && (e[2] == 'g' || e[2] == 'G')
}

/// The log files with the given prefix among a directory's entries, greatest name
/// (newest date) first.
pub fn list_log_files(entries: &Vec<DirListing>, prefix: &str) -> (r: Vec<LogFileEntry>)
    ensures
        file_views(r@) == sort_desc(log_files_of(entries@, prefix@)),
{
    let pre = str_to_chars(prefix);
    let mut found: Vec<LogFileEntry> = Vec::new();
    let mut i: usize = 0;
    assert(entries@.take(0) =~= Seq::<DirListing>::empty());
    while i < entries.len()
        invariant
            i <= entries@.len(),
            pre@ == prefix@,
            file_views(found@) == log_files_of(entries@.take(i as int), prefix@),
        decreases entries.len() - i,
    {
        let d = &entries[i];
        let ghost before = file_views(found@);
        assert(entries@.take(i + 1).drop_last() =~= entries@.take(i as int));
        assert(entries@.take(i + 1).last() == entries@[i as int]);
        let name = str_to_chars(d.file_name.as_str());
        let mut keep = false;
        let mut stem: Vec<char> = Vec::new();
        if d.is_file && pre.len() <= name.len() {
            let head = chars_range(name.as_slice(), 0, pre.len());
            if crate::text::chars_eq_slices(head.as_slice(), pre.as_slice()) {
                match last_dot(name.as_slice()) {
                    Some(k) => {
                        proof {
                            lemma_last_dot(name@, k as int);
                        }
                        let ext = chars_range(name.as_slice(), k + 1, name.len());
                        assert(ext@ =~= name@.skip(k + 1));
                        if is_log_ext(ext.as_slice()) {
                            keep = true;
                            stem = chars_range(name.as_slice(), 0, k);
                            assert(stem@ =~= name@.take(k as int));
                        }
                    },
                    None => {},
                }
            }
            assert(head@ =~= name@.take(pre@.len() as int));
        }
        if keep {
            let e = LogFileEntry { name: chars_to_string(stem.as_slice()), path: d.path.clone() };
            found.push(e);
            assert(file_views(found@) =~= before.push((stem_of(d.file_name@), d.path@)));
        } else {
            assert(!is_log_file(*d, prefix@));
            assert(file_views(found@) =~= before);
        }
        i = i + 1;
    }
    assert(entries@.take(entries@.len() as int) =~= entries@);
    sort_entries_desc(found)
}

fn clone_entry(e: &LogFileEntry) -> (r: LogFileEntry)
    ensures
        r.name@ == e.name@,
        r.path@ == e.path@,
{
    LogFileEntry { name: e.name.clone(), path: e.path.clone() }
}

fn insert_entry_desc(sorted: &Vec<LogFileEntry>, e: LogFileEntry) -> (r: Vec<LogFileEntry>)
    ensures
        file_views(r@) == insert_desc(file_views(sorted@), (e.name@, e.path@)),
{
    let ghost sv = file_views(sorted@);
    let ghost ev = (e.name@, e.path@);
    let ename = str_to_chars(e.name.as_str());
    let mut out: Vec<LogFileEntry> = Vec::new();
    let mut pos: usize = 0;
    assert(sv.skip(0) =~= sv);
    while pos < sorted.len()
        invariant
            pos <= sorted@.len(),
            sv == file_views(sorted@),
            ename@ == e.name@,
            ev == (e.name@, e.path@),
            file_views(out@) == sv.take(pos as int),
            insert_desc(sv, ev) == sv.take(pos as int) + insert_desc(sv.skip(pos as int), ev),
        ensures
            pos <= sorted@.len(),
            file_views(out@) == sv.take(pos as int),
            insert_desc(sv, ev) == sv.take(pos as int) + insert_desc(sv.skip(pos as int), ev),
            pos < sorted@.len() ==> text_less(sv[pos as int].0, ev.0),
        decreases sorted.len() - pos,
    {
        let n = str_to_chars(sorted[pos].name.as_str());
        assert(sv.skip(pos as int)[0] == sv[pos as int]);
        if chars_less(n.as_slice(), ename.as_slice()) {
            break;
        }
        let c = clone_entry(&sorted[pos]);
        let ghost ob = file_views(out@);
        out.push(c);
        assert(file_views(out@) =~= ob.push(sv[pos as int]));
        assert(sv.skip(pos as int).drop_first() =~= sv.skip(pos + 1));
        assert(sv.take(pos + 1) =~= sv.take(pos as int) + seq![sv[pos as int]]);
        assert(sv.take(pos as int) + insert_desc(sv.skip(pos as int), ev) =~= sv.take(pos + 1) + insert_desc(sv.skip(pos + 1), ev));
        pos = pos + 1;
    }
    proof {
        if pos < sv.len() {
            assert(insert_desc(sv.skip(pos as int), ev) == seq![ev] + sv.skip(pos as int));
        } else {
            assert(sv.skip(pos as int) =~= Seq::<(Seq<char>, Seq<char>)>::empty());
            assert(insert_desc(sv.skip(pos as int), ev) == seq![ev]);
        }
    }
    let ghost ob = file_views(out@);
    out.push(e);
    assert(file_views(out@) =~= ob.push(ev));
    let mut j = pos;
    while j < sorted.len()
        invariant
            pos <= j <= sorted@.len(),
            sv == file_views(sorted@),
            file_views(out@) == sv.take(pos as int).push(ev) + sv.subrange(pos as int, j as int),
        decreases sorted.len() - j,
    {
        let c = clone_entry(&sorted[j]);
        let ghost ob2 = file_views(out@);
        out.push(c);
        assert(file_views(out@) =~= ob2.push(sv[j as int]));
        j = j + 1;
        assert(file_views(out@) =~= sv.take(pos as int).push(ev) + sv.subrange(pos as int, j as int));
    }
    assert(file_views(out@) =~= insert_desc(sv, ev));
    out
}

fn sort_entries_desc(v: Vec<LogFileEntry>) -> (r: Vec<LogFileEntry>)
    ensures
        file_views(r@) == sort_desc(file_views(v@)),
{
    let ghost vv = file_views(v@);
    let mut sorted: Vec<LogFileEntry> = Vec::new();
    let mut k: usize = 0;
    assert(vv.take(0) =~= Seq::<(Seq<char>, Seq<char>)>::empty());
    while k < v.len()
        invariant
            k <= v@.len(),
            vv == file_views(v@),
            file_views(sorted@) == sort_desc(vv.take(k as int)),
        decreases v.len() - k,
    {
        let x = clone_entry(&v[k]);
        assert((x.name@, x.path@) == vv[k as int]);
        sorted = insert_entry_desc(&sorted, x);
        assert(vv.take(k + 1).drop_last() =~= vv.take(k as int));
        assert(vv.take(k + 1).last() == vv[k as int]);
        k = k + 1;
    }
    assert(vv.take(vv.len() as int) =~= vv);
    sorted
}

proof fn lemma_text_less_irreflexive(a: Seq<char>)
    ensures
        !text_less(a, a),
    decreases a.len(),
{
    if a.len() > 0 {
        lemma_text_less_irreflexive(a.drop_first());
    }
}

proof fn lemma_text_less_transitive(a: Seq<char>, b: Seq<char>, c: Seq<char>)
    requires
        text_less(a, b),
        text_less(b, c),
    ensures
        text_less(a, c),
    decreases a.len(),
{
    if a.len() > 0 && b.len() > 0 && c.len() > 0 && a[0] == b[0] && b[0] == c[0] {
        lemma_text_less_transitive(a.drop_first(), b.drop_first(), c.drop_first());
    }
}

proof fn lemma_text_less_total(a: Seq<char>, b: Seq<char>)
    requires
        a != b,
    ensures
        text_less(a, b) || text_less(b, a),
    decreases a.len(),
{
    if a.len() > 0 && b.len() > 0 {
        if a[0] == b[0] {
            if a.drop_first() == b.drop_first() {
                assert(a =~= seq![a[0]] + a.drop_first());
                assert(b =~= seq![b[0]] + b.drop_first());
            }
            lemma_text_less_total(a.drop_first(), b.drop_first());
        } else {
            let (x, y) = (a[0], b[0]);
            if (x as u32) == (y as u32) {
                vstd::utf8::char_u32_cast(x, x as u32);
                vstd::utf8::char_u32_cast(y, y as u32);
            }
        }
    } else if a.len() == 0 && b.len() == 0 {
        assert(a =~= b);
    }
}

/// Names never increase along the list.
pub open spec fn names_desc(s: Seq<(Seq<char>, Seq<char>)>) -> bool {
    forall|i: int, j: int| 0 <= i < j < s.len() ==> !text_less(#[trigger] s[i].0, #[trigger] s[j].0)
}

proof fn lemma_insert_desc(sorted: Seq<(Seq<char>, Seq<char>)>, e: (Seq<char>, Seq<char>))
    requires
        names_desc(sorted),
    ensures
        names_desc(insert_desc(sorted, e)),
        insert_desc(sorted, e).to_multiset() =~= sorted.to_multiset().insert(e),
        forall|k: int|
            0 <= k < insert_desc(sorted, e).len() ==> #[trigger] insert_desc(sorted, e)[k] == e
                || sorted.contains(insert_desc(sorted, e)[k]),
    decreases sorted.len(),
{
    broadcast use vstd::multiset::group_multiset_axioms;
    broadcast use vstd::seq_lib::group_to_multiset_ensures;

    let r = insert_desc(sorted, e);
    if sorted.len() == 0 {
        assert(r =~= seq![e]);
        assert(sorted.push(e) =~= r);
    } else if text_less(sorted[0].0, e.0) {
        assert(r =~= sorted.insert(0, e));
        assert forall|i: int, j: int| 0 <= i < j < r.len() implies !text_less(#[trigger] r[i].0, #[trigger] r[j].0) by {
            if i == 0 {
                let y = sorted[j - 1].0;
                if j - 1 > 0 {
                    assert(!text_less(sorted[0].0, sorted[j - 1].0));
                }
                if y != sorted[0].0 {
                    lemma_text_less_total(y, sorted[0].0);
                    lemma_text_less_transitive(y, sorted[0].0, e.0);
                }
                if text_less(e.0, y) {
                    lemma_text_less_transitive(y, e.0, y);
                    lemma_text_less_irreflexive(y);
                }
            } else {
                assert(r[i] == sorted[i - 1] && r[j] == sorted[j - 1]);
            }
        }
        assert forall|k: int| 0 <= k < r.len() implies #[trigger] r[k] == e || sorted.contains(r[k]) by {
            if k > 0 {
                assert(r[k] == sorted[k - 1]);
            }
        }
    } else {
        let rest = sorted.drop_first();
        assert(names_desc(rest)) by {
            assert forall|i: int, j: int| 0 <= i < j < rest.len() implies !text_less(#[trigger] rest[i].0, #[trigger] rest[j].0) by {
                assert(rest[i] == sorted[i + 1] && rest[j] == sorted[j + 1]);
            }
        }
        lemma_insert_desc(rest, e);
        let t = insert_desc(rest, e);
        assert(r =~= t.insert(0, sorted[0]));
        assert(sorted =~= rest.insert(0, sorted[0]));
        assert forall|k: int| 0 <= k < t.len() implies !text_less(sorted[0].0, #[trigger] t[k].0) by {
            if t[k] != e {
                assert(rest.contains(t[k]));
                let m = choose|m: int| 0 <= m < rest.len() && rest[m] == t[k];
                assert(sorted[m + 1] == rest[m]);
            }
        }
        assert forall|i: int, j: int| 0 <= i < j < r.len() implies !text_less(#[trigger] r[i].0, #[trigger] r[j].0) by {
            if i == 0 {
                assert(r[j] == t[j - 1]);
            } else {
                assert(r[i] == t[i - 1] && r[j] == t[j - 1]);
            }
        }
        assert forall|k: int| 0 <= k < r.len() implies #[trigger] r[k] == e || sorted.contains(r[k]) by {
            if k == 0 {
                assert(sorted[0] == r[0]);
            } else {
                assert(r[k] == t[k - 1]);
                if t[k - 1] != e {
                    let m = choose|m: int| 0 <= m < rest.len() && rest[m] == t[k - 1];
                    assert(sorted[m + 1] == rest[m]);
                }
            }
        }
    }
}

proof fn lemma_sort_desc(s: Seq<(Seq<char>, Seq<char>)>)
    ensures
        names_desc(sort_desc(s)),
        sort_desc(s).to_multiset() =~= s.to_multiset(),
    decreases s.len(),
{
    broadcast use vstd::multiset::group_multiset_axioms;
    broadcast use vstd::seq_lib::group_to_multiset_ensures;

    if s.len() > 0 {
        lemma_sort_desc(s.drop_last());
        lemma_insert_desc(sort_desc(s.drop_last()), s.last());
        assert(s =~= s.drop_last().push(s.last()));
    }
}

/// The log files listed come greatest name (newest date) first, and they are the
/// matching files of the directory, each as often as it occurs there.
pub proof fn lemma_log_files_newest_first(entries: Seq<DirListing>, prefix: Seq<char>)
    ensures
        names_desc(sort_desc(log_files_of(entries, prefix))),
        sort_desc(log_files_of(entries, prefix)).to_multiset() =~= log_files_of(entries, prefix).to_multiset(),
{
    lemma_sort_desc(log_files_of(entries, prefix));
}

/// Every level name gives its own level, `warn` and `warning` both the warning level;
/// only a text that names no level falls back to `info`.
pub proof fn lemma_level_names(l: Seq<char>)
    ensures
        spec_level_of(l) == LogLevel::Trace <==> l == "trace"@,
        spec_level_of(l) == LogLevel::Debug <==> l == "debug"@,
        spec_level_of(l) == LogLevel::Warn <==> (l == "warn"@ || l == "warning"@),
        spec_level_of(l) == LogLevel::Error <==> l == "error"@,
        spec_level_of(l) == LogLevel::Off <==> l == "off"@,
        spec_level_of(l) == LogLevel::Info <==> !(l == "trace"@ || l == "debug"@ || l == "warn"@ || l == "warning"@
            || l == "error"@ || l == "off"@),
{
    reveal_strlit("trace");
    reveal_strlit("debug");
    reveal_strlit("info");
    reveal_strlit("warn");
    reveal_strlit("warning");
    reveal_strlit("error");
    reveal_strlit("off");
    assert("trace"@[0] == 't' && "debug"@[0] == 'd' && "info"@[0] == 'i' && "warn"@[0] == 'w');
    assert("warning"@[0] == 'w' && "error"@[0] == 'e' && "off"@[0] == 'o');
}

} // verus!
