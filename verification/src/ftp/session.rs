//! The per-connection state of an FTP session and the commands that only read or
//! change that state.
//!
//! Each command that compares its argument case-insensitively is split in two: a
//! function that uppercases the argument (through `str::to_uppercase`) and a function
//! that decides from the uppercased text, with an exact contract.

use vstd::prelude::*;
use crate::text::{
    chars_to_string, push_decimal, push_str, spec_decimal, spec_parse_unsigned, spec_split,
    spec_words, split_on, split_words, str_eq, str_to_chars, texts, to_lowercase, to_uppercase,
    unicode_lower, unicode_upper, parse_unsigned, spec_trim, trim_chars,
};

verus! {

pub struct SessionState {
    pub current_user: Option<String>,
    pub authenticated: bool,
    pub cwd: String,
    pub home_dir: String,
    pub data_port: Option<u16>,
    pub data_addr: Option<String>,
    pub passive_mode: bool,
    pub rest_offset: u64,
    pub rename_from: Option<String>,
    pub utf8_enabled: bool,
    pub binary_transfer: bool,
    pub tls_enabled: bool,
    pub tls_data_required: bool,
    pub pbsz_set: bool,
}

/// The session state with texts as character sequences.
pub struct SessionView {
    pub current_user: Option<Seq<char>>,
    pub authenticated: bool,
    pub cwd: Seq<char>,
    pub home_dir: Seq<char>,
    pub data_port: Option<u16>,
    pub data_addr: Option<Seq<char>>,
    pub passive_mode: bool,
    pub rest_offset: u64,
    pub rename_from: Option<Seq<char>>,
    pub utf8_enabled: bool,
    pub binary_transfer: bool,
    pub tls_enabled: bool,
    pub tls_data_required: bool,
    pub pbsz_set: bool,
}

pub open spec fn opt_view(o: Option<String>) -> Option<Seq<char>> {
    match o {
        Some(s) => Some(s@),
        None => None,
    }
}

pub open spec fn opt_str_view(o: Option<&str>) -> Option<Seq<char>> {
    match o {
        Some(s) => Some(s@),
        None => None,
    }
}

impl View for SessionState {
    type V = SessionView;

    open spec fn view(&self) -> SessionView {
        SessionView {
            current_user: opt_view(self.current_user),
            authenticated: self.authenticated,
            cwd: self.cwd@,
            home_dir: self.home_dir@,
            data_port: self.data_port,
            data_addr: opt_view(self.data_addr),
            passive_mode: self.passive_mode,
            rest_offset: self.rest_offset,
            rename_from: opt_view(self.rename_from),
            utf8_enabled: self.utf8_enabled,
            binary_transfer: self.binary_transfer,
            tls_enabled: self.tls_enabled,
            tls_data_required: self.tls_data_required,
            pbsz_set: self.pbsz_set,
        }
    }
}

/// A fresh connection: nobody logged in, UTF-8 on, binary transfers, no TLS.
pub open spec fn fresh_session() -> SessionView {
    SessionView {
        current_user: None,
        authenticated: false,
        cwd: Seq::empty(),
        home_dir: Seq::empty(),
        data_port: None,
        data_addr: None,
        passive_mode: false,
        rest_offset: 0,
        rename_from: None,
        utf8_enabled: true,
        binary_transfer: true,
        tls_enabled: false,
        tls_data_required: false,
        pbsz_set: false,
    }
}

fn upper_opt(arg: Option<&str>) -> (r: Option<String>)
    ensures
        match arg {
            Some(a) => r matches Some(u) && u@ == unicode_upper(a@),
            None => r is None,
        },
{
    match arg {
        Some(a) => Some(to_uppercase(a)),
        None => None,
    }
}

fn as_opt_str(o: &Option<String>) -> (r: Option<&str>)
    ensures
        opt_str_view(r) == opt_view(*o),
{
    match o {
        Some(s) => Some(s.as_str()),
        None => None,
    }
}

// ---- MODE, STRU, TYPE -------------------------------------------------------------

pub open spec fn spec_mode_reply(upper: Option<Seq<char>>) -> Seq<char> {
    match upper {
        None => "501 Syntax error: MODE requires parameter\r\n"@,
        Some(u) => if u == "S"@ {
            "200 Mode set to Stream\r\n"@
        } else if u == "B"@ {
            "504 Block mode not supported\r\n"@
        } else if u == "C"@ {
            "504 Compressed mode not supported\r\n"@
        } else {
            "501 Unknown mode\r\n"@
        },
    }
}

/// The reply to `MODE`, given the uppercased argument.
pub fn mode_reply(upper: Option<&str>) -> (r: String)
    ensures
        r@ == spec_mode_reply(opt_str_view(upper)),
{
    match upper {
        None => "501 Syntax error: MODE requires parameter\r\n".to_owned(),
        Some(u) => if str_eq(u, "S") {
            "200 Mode set to Stream\r\n".to_owned()
        } else if str_eq(u, "B") {
            "504 Block mode not supported\r\n".to_owned()
        } else if str_eq(u, "C") {
            "504 Compressed mode not supported\r\n".to_owned()
        } else {
            "501 Unknown mode\r\n".to_owned()
        },
    }
}

pub open spec fn upper_of(arg: Option<Seq<char>>) -> Option<Seq<char>> {
    match arg {
        Some(a) => Some(unicode_upper(a)),
        None => None,
    }
}

pub fn cmd_mode(arg: Option<&str>) -> (r: String)
    ensures
        r@ == spec_mode_reply(upper_of(opt_str_view(arg))),
{
    let u = upper_opt(arg);
    mode_reply(as_opt_str(&u))
}

pub open spec fn spec_stru_reply(upper: Option<Seq<char>>) -> Seq<char> {
    match upper {
        None => "501 Syntax error: STRU requires parameter\r\n"@,
        Some(u) => if u == "F"@ {
            "200 Structure set to File\r\n"@
        } else if u == "R"@ {
            "504 Record structure not supported\r\n"@
        } else if u == "P"@ {
            "504 Page structure not supported\r\n"@
        } else {
            "501 Unknown structure\r\n"@
        },
    }
}

/// The reply to `STRU`, given the uppercased argument.
pub fn stru_reply(upper: Option<&str>) -> (r: String)
    ensures
        r@ == spec_stru_reply(opt_str_view(upper)),
{
    match upper {
        None => "501 Syntax error: STRU requires parameter\r\n".to_owned(),
        Some(u) => if str_eq(u, "F") {
            "200 Structure set to File\r\n".to_owned()
        } else if str_eq(u, "R") {
            "504 Record structure not supported\r\n".to_owned()
        } else if str_eq(u, "P") {
            "504 Page structure not supported\r\n".to_owned()
        } else {
            "501 Unknown structure\r\n".to_owned()
        },
    }
}

pub fn cmd_stru(arg: Option<&str>) -> (r: String)
    ensures
        r@ == spec_stru_reply(upper_of(opt_str_view(arg))),
{
    let u = upper_opt(arg);
    stru_reply(as_opt_str(&u))
}

/// `TYPE`: the new binary flag (`None`: unchanged) and the reply, given the uppercased
/// argument. No argument selects binary.
pub open spec fn spec_type(upper: Option<Seq<char>>) -> (Option<bool>, Seq<char>) {
    match upper {
        None => (Some(true), "200 Type set to I (Binary)\r\n"@),
        Some(u) => if u == "I"@ || u == "L 8"@ {
            (Some(true), "200 Type set to I (Binary)\r\n"@)
        } else if u == "A"@ || u == "A N"@ {
            (Some(false), "200 Type set to A (ASCII)\r\n"@)
        } else if u == "E"@ {
            (Some(true), "200 Type set to E (EBCDIC)\r\n"@)
        } else {
            (None, "501 Unknown type\r\n"@)
        },
    }
}

pub open spec fn apply_binary(s: SessionView, b: Option<bool>) -> SessionView {
    match b {
        Some(v) => SessionView { binary_transfer: v, ..s },
        None => s,
    }
}

impl SessionState {
    /// A fresh connection.
    pub fn new() -> (r: Self)
        ensures
            r@ == fresh_session(),
    {
        let r = SessionState {
            current_user: None,
            authenticated: false,
            cwd: String::new(),
            home_dir: String::new(),
            data_port: None,
            data_addr: None,
            passive_mode: false,
            rest_offset: 0,
            rename_from: None,
            utf8_enabled: true,
            binary_transfer: true,
            tls_enabled: false,
            tls_data_required: false,
            pbsz_set: false,
        };
        assert(r@.cwd =~= Seq::<char>::empty());
        assert(r@.home_dir =~= Seq::<char>::empty());
        r
    }

    /// `TYPE`, given the uppercased argument.
    pub fn type_with(&mut self, upper: Option<&str>) -> (r: String)
        ensures
            r@ == spec_type(opt_str_view(upper)).1,
            final(self)@ == apply_binary(old(self)@, spec_type(opt_str_view(upper)).0),
    {
        match upper {
            None => {
                self.binary_transfer = true;
                "200 Type set to I (Binary)\r\n".to_owned()
            },
            Some(u) => if str_eq(u, "I") || str_eq(u, "L 8") {
                self.binary_transfer = true;
                "200 Type set to I (Binary)\r\n".to_owned()
            } else if str_eq(u, "A") || str_eq(u, "A N") {
                self.binary_transfer = false;
                "200 Type set to A (ASCII)\r\n".to_owned()
            } else if str_eq(u, "E") {
                self.binary_transfer = true;
                "200 Type set to E (EBCDIC)\r\n".to_owned()
            } else {
                "501 Unknown type\r\n".to_owned()
            },
        }
    }

    pub fn cmd_type(&mut self, arg: Option<&str>) -> (r: String)
        ensures
            r@ == spec_type(upper_of(opt_str_view(arg))).1,
            final(self)@ == apply_binary(old(self)@, spec_type(upper_of(opt_str_view(arg))).0),
    {
        let u = upper_opt(arg);
        self.type_with(as_opt_str(&u))
    }
}

// ---- REST -------------------------------------------------------------------------

/// `REST`: the new restart offset (`None`: unchanged) and the reply.
pub open spec fn spec_rest(arg: Option<Seq<char>>) -> (Option<u64>, Seq<char>) {
    match arg {
        None => (Some(0), "350 Restarting at 0\r\n"@),
        Some(a) => match spec_parse_unsigned(a, u64::MAX as nat) {
            Some(v) => (Some(v as u64), "350 Restarting at "@ + spec_decimal(v) + "\r\n"@),
            None => (None, "501 Syntax error in REST parameter\r\n"@),
        },
    }
}

pub open spec fn apply_rest(s: SessionView, o: Option<u64>) -> SessionView {
    match o {
        Some(v) => SessionView { rest_offset: v, ..s },
        None => s,
    }
}

impl SessionState {
    pub fn cmd_rest(&mut self, arg: Option<&str>) -> (r: String)
        ensures
            r@ == spec_rest(opt_str_view(arg)).1,
            final(self)@ == apply_rest(old(self)@, spec_rest(opt_str_view(arg)).0),
    {
        match arg {
            None => {
                self.rest_offset = 0;
                "350 Restarting at 0\r\n".to_owned()
            },
            Some(a) => match parse_unsigned(a, u64::MAX) {
                Some(v) => {
                    self.rest_offset = v;
                    let mut out: Vec<char> = Vec::new();
                    push_str(&mut out, "350 Restarting at ");
                    push_decimal(&mut out, v);
                    push_str(&mut out, "\r\n");
                    chars_to_string(out.as_slice())
                },
                None => "501 Syntax error in REST parameter\r\n".to_owned(),
            },
        }
    }
}

// ---- OPTS, SITE -------------------------------------------------------------------

/// `OPTS`: the new UTF-8 flag (`None`: unchanged) and the reply, given the argument's
/// words uppercased.
pub open spec fn spec_opts(words: Option<Seq<Seq<char>>>) -> (Option<bool>, Seq<char>) {
    match words {
        None => (None, "501 Syntax error: OPTS requires parameters\r\n"@),
        Some(w) => if w.len() == 0 {
            (None, "501 Syntax error: OPTS requires parameters\r\n"@)
        } else if w[0] == "UTF8"@ {
            if w.len() > 1 && w[1] == "OFF"@ {
                (Some(false), "200 UTF8 disabled\r\n"@)
            } else {
                (Some(true), "200 UTF8 enabled\r\n"@)
            }
        } else if w[0] == "MLST"@ {
            (None, "200 MLST OPTS Type*;Size*;Modify*;\r\n"@)
        } else {
            (None, "501 Unknown OPTS parameter\r\n"@)
        },
    }
}

pub open spec fn apply_utf8(s: SessionView, o: Option<bool>) -> SessionView {
    match o {
        Some(v) => SessionView { utf8_enabled: v, ..s },
        None => s,
    }
}

/// The words of the argument, each uppercased.
pub open spec fn upper_words(arg: Option<Seq<char>>) -> Option<Seq<Seq<char>>> {
    match arg {
        Some(a) => Some(spec_words(a).map_values(|w: Seq<char>| unicode_upper(w))),
        None => None,
    }
}

/// Splits the argument into words and uppercases each.
fn words_upper(arg: Option<&str>) -> (r: Option<Vec<String>>)
    ensures
        match r {
            Some(v) => arg is Some && v@.map_values(|s: String| s@) == upper_words(
                opt_str_view(arg),
            )->0,
            None => arg is None,
        },
{
    match arg {
        None => None,
        Some(a) => {
            let ws = split_words(a);
            let ghost target = spec_words(a@).map_values(|w: Seq<char>| unicode_upper(w));
            let mut out: Vec<String> = Vec::new();
            let mut i: usize = 0;
            while i < ws.len()
                invariant
                    i <= ws@.len(),
                    texts(ws@) == spec_words(a@),
                    target == spec_words(a@).map_values(|w: Seq<char>| unicode_upper(w)),
                    out@.map_values(|s: String| s@) == target.take(i as int),
                decreases ws.len() - i,
            {
                let w = chars_to_string(ws[i].as_slice());
                let u = to_uppercase(w.as_str());
                assert(texts(ws@)[i as int] == ws@[i as int]@);
                let ghost before = out@.map_values(|s: String| s@);
                out.push(u);
                assert(out@.map_values(|s: String| s@) =~= before.push(u@));
                i = i + 1;
                assert(target.take(i as int) =~= target.take(i - 1).push(target[i - 1]));
            }
            assert(target.take(ws@.len() as int) =~= target);
            Some(out)
        },
    }
}

impl SessionState {
    /// `OPTS`, given the argument's words uppercased.
    pub fn opts_with(&mut self, words: Option<&Vec<String>>) -> (r: String)
        ensures
            ({
                let wv = match words {
                    Some(v) => Some(v@.map_values(|s: String| s@)),
                    None => None,
                };
                &&& r@ == spec_opts(wv).1
                &&& final(self)@ == apply_utf8(old(self)@, spec_opts(wv).0)
            }),
    {
        match words {
            None => "501 Syntax error: OPTS requires parameters\r\n".to_owned(),
            Some(w) => {
                let ghost wv = w@.map_values(|s: String| s@);
                if w.len() == 0 {
                    "501 Syntax error: OPTS requires parameters\r\n".to_owned()
                } else if str_eq(w[0].as_str(), "UTF8") {
                    assert(wv[0] == w@[0]@);
                    if w.len() > 1 && str_eq(w[1].as_str(), "OFF") {
                        assert(wv[1] == w@[1]@);
                        self.utf8_enabled = false;
                        "200 UTF8 disabled\r\n".to_owned()
                    } else {
                        assert(w.len() > 1 ==> wv[1] == w@[1]@);
                        self.utf8_enabled = true;
                        "200 UTF8 enabled\r\n".to_owned()
                    }
                } else if str_eq(w[0].as_str(), "MLST") {
                    assert(wv[0] == w@[0]@);
                    "200 MLST OPTS Type*;Size*;Modify*;\r\n".to_owned()
                } else {
                    assert(wv[0] == w@[0]@);
                    "501 Unknown OPTS parameter\r\n".to_owned()
                }
            },
        }
    }

    pub fn cmd_opts(&mut self, arg: Option<&str>) -> (r: String)
        ensures
            r@ == spec_opts(upper_words(opt_str_view(arg))).1,
            final(self)@ == apply_utf8(old(self)@, spec_opts(upper_words(opt_str_view(arg))).0),
    {
        let w = words_upper(arg);
        match &w {
            Some(v) => self.opts_with(Some(v)),
            None => self.opts_with(None),
        }
    }
}

pub open spec fn spec_site_reply(words: Option<Seq<Seq<char>>>) -> Seq<char> {
    match words {
        None => "501 Syntax error: SITE requires parameters\r\n"@,
        Some(w) => if w.len() == 0 {
            "501 Syntax error: SITE requires parameters\r\n"@
        } else if w[0] == "CHMOD"@ {
            if w.len() >= 3 {
                "200 SITE CHMOD command accepted\r\n"@
            } else {
                "501 Syntax error: SITE CHMOD requires mode and path\r\n"@
            }
        } else if w[0] == "UMASK"@ {
            if w.len() >= 2 {
                "200 SITE UMASK command accepted\r\n"@
            } else {
                "501 Syntax error: SITE UMASK requires mask\r\n"@
            }
        } else if w[0] == "HELP"@ {
            "214-SITE commands: CHMOD, UMASK, HELP\r\n214 End\r\n"@
        } else {
            "500 Unknown SITE command\r\n"@
        },
    }
}

/// The reply to `SITE`, given the argument's words uppercased.
pub fn site_reply(words: Option<&Vec<String>>) -> (r: String)
    ensures
        r@ == spec_site_reply(
            match words {
                Some(v) => Some(v@.map_values(|s: String| s@)),
                None => None,
            },
        ),
{
    match words {
        None => "501 Syntax error: SITE requires parameters\r\n".to_owned(),
        Some(w) => {
            let ghost wv = w@.map_values(|s: String| s@);
            if w.len() == 0 {
                return "501 Syntax error: SITE requires parameters\r\n".to_owned();
            }
            assert(wv[0] == w@[0]@);
            if str_eq(w[0].as_str(), "CHMOD") {
                if w.len() >= 3 {
                    "200 SITE CHMOD command accepted\r\n".to_owned()
                } else {
                    "501 Syntax error: SITE CHMOD requires mode and path\r\n".to_owned()
                }
            } else if str_eq(w[0].as_str(), "UMASK") {
                if w.len() >= 2 {
                    "200 SITE UMASK command accepted\r\n".to_owned()
                } else {
                    "501 Syntax error: SITE UMASK requires mask\r\n".to_owned()
                }
            } else if str_eq(w[0].as_str(), "HELP") {
                "214-SITE commands: CHMOD, UMASK, HELP\r\n214 End\r\n".to_owned()
            } else {
                "500 Unknown SITE command\r\n".to_owned()
            }
        },
    }
}

pub fn cmd_site(arg: Option<&str>) -> (r: String)
    ensures
        r@ == spec_site_reply(upper_words(opt_str_view(arg))),
{
    let w = words_upper(arg);
    match &w {
        Some(v) => site_reply(Some(v)),
        None => site_reply(None),
    }
}

// ---- REIN, STAT, PWD ----------------------------------------------------------------

impl SessionState {
    /// `REIN`: logs the user out and forgets the directory, restart offset, pending
    /// rename and data connection; keeps the TLS, UTF-8 and transfer-type settings.
    pub fn cmd_rein(&mut self) -> (r: String)
        ensures
            r@ == "220 Ready for new user\r\n"@,
            final(self)@ == (SessionView {
                current_user: None,
                authenticated: false,
                cwd: Seq::empty(),
                home_dir: Seq::empty(),
                rest_offset: 0,
                rename_from: None,
                passive_mode: false,
                data_port: None,
                data_addr: None,
                ..old(self)@
            }),
    {
        self.current_user = None;
        self.authenticated = false;
        self.cwd = String::new();
        self.home_dir = String::new();
        self.rest_offset = 0;
        self.rename_from = None;
        self.passive_mode = false;
        self.data_port = None;
        self.data_addr = None;
        assert(self.cwd@ =~= Seq::<char>::empty());
        assert(self.home_dir@ =~= Seq::<char>::empty());
        "220 Ready for new user\r\n".to_owned()
    }

    pub open spec fn spec_stat_reply(s: SessionView, remote_ip: Seq<char>) -> Seq<char> {
        match s.current_user {
            Some(name) => "211-FTP server status:\r\n"@ + "211-Connected to: "@ + remote_ip
                + "\r\n"@ + "211-Logged in as: "@ + name + "\r\n"@ + "211-Current directory: "@
                + s.cwd + "\r\n"@ + "211-Transfer mode: "@ + (if s.binary_transfer {
                "Binary"@
            } else {
                "ASCII"@
            }) + "\r\n"@ + "211-Data connection: "@ + (if s.passive_mode {
                "Passive"@
            } else {
                "Active"@
            }) + "\r\n"@ + "211 End\r\n"@,
            None => "211 FTP server status - Not logged in\r\n"@,
        }
    }

    /// The reply to `STAT`.
    pub fn cmd_stat(&self, remote_ip: &str) -> (r: String)
        ensures
            r@ == Self::spec_stat_reply(self@, remote_ip@),
    {
        match &self.current_user {
            Some(name) => {
                let mut out: Vec<char> = Vec::new();
                push_str(&mut out, "211-FTP server status:\r\n");
                push_str(&mut out, "211-Connected to: ");
                push_str(&mut out, remote_ip);
                push_str(&mut out, "\r\n");
                push_str(&mut out, "211-Logged in as: ");
                push_str(&mut out, name.as_str());
                push_str(&mut out, "\r\n");
                push_str(&mut out, "211-Current directory: ");
                push_str(&mut out, self.cwd.as_str());
                push_str(&mut out, "\r\n");
                push_str(&mut out, "211-Transfer mode: ");
                push_str(&mut out, if self.binary_transfer { "Binary" } else { "ASCII" });
                push_str(&mut out, "\r\n");
                push_str(&mut out, "211-Data connection: ");
                push_str(&mut out, if self.passive_mode { "Passive" } else { "Active" });
                push_str(&mut out, "\r\n");
                push_str(&mut out, "211 End\r\n");
                chars_to_string(out.as_slice())
            },
            None => "211 FTP server status - Not logged in\r\n".to_owned(),
        }
    }
}

/// The reply to `PWD`, given the client-visible working directory.
pub fn pwd_reply(virtual_path: &str) -> (r: String)
    ensures
        r@ == "257 \""@ + virtual_path@ + "\"\r\n"@,
{
    let mut out: Vec<char> = Vec::new();
    push_str(&mut out, "257 \"");
    push_str(&mut out, virtual_path);
    push_str(&mut out, "\"\r\n");
    chars_to_string(out.as_slice())
}

/// `TYPE I` and `TYPE L 8` are the binary type, the same as `TYPE` without an argument:
/// binary transfer and `200 Type set to I (Binary)`; every other argument is answered
/// otherwise, and only an unknown one leaves the transfer type as it was.
pub proof fn lemma_type_binary_names(s: SessionView, u: Seq<char>)
    ensures
        (spec_type(Some(u)) == spec_type(None)) <==> (u == "I"@ || u == "L 8"@),
        spec_type(None) == (Some(true), "200 Type set to I (Binary)\r\n"@),
        (u == "I"@ || u == "L 8"@) ==> apply_binary(s, spec_type(Some(u)).0).binary_transfer,
        spec_type(Some(u)).0 is None <==> !(u == "I"@ || u == "L 8"@ || u == "A"@ || u == "A N"@ || u == "E"@),
{
    reveal_strlit("200 Type set to I (Binary)\r\n");
    reveal_strlit("200 Type set to E (EBCDIC)\r\n");
    let bin = "200 Type set to I (Binary)\r\n"@;
    let ebc = "200 Type set to E (EBCDIC)\r\n"@;
    assert(bin[16] != ebc[16]);
    assert(bin != ebc);
}

} // verus!
