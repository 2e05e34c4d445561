//! Splitting a control-connection line into a command name and its argument, and
//! naming the command; how a new connection is opened.

use vstd::prelude::*;
use crate::text::{
    chars_range, chars_to_string, push_str, spec_trim, str_eq, str_to_chars, to_uppercase, trim_chars,
    unicode_upper,
};

verus! {

/// `k` is the position of the first `c` in `s`.
pub open spec fn is_first_index(s: Seq<char>, c: char, k: int) -> bool {
    &&& 0 <= k < s.len()
    &&& s[k] == c
    &&& forall|j: int| 0 <= j < k ==> s[j] != c
}

/// How a line is read: trimmed, then cut at its first space into a command word and
/// the rest; the word is uppercased, the rest trimmed again. Without a space the whole
/// line is the word and there is no argument.
pub open spec fn spec_command_word(line: Seq<char>) -> Seq<char> {
    let t = spec_trim(line);
    if exists|k: int| is_first_index(t, ' ', k) {
        let k = choose|k: int| is_first_index(t, ' ', k);
        t.take(k)
    } else {
        t
    }
}

pub open spec fn spec_command_arg(line: Seq<char>) -> Option<Seq<char>> {
    let t = spec_trim(line);
    if exists|k: int| is_first_index(t, ' ', k) {
        let k = choose|k: int| is_first_index(t, ' ', k);
        Some(spec_trim(t.skip(k + 1)))
    } else {
        None
    }
}

pub open spec fn opt_text(o: Option<String>) -> Option<Seq<char>> {
    match o {
        Some(s) => Some(s@),
        None => None,
    }
}

proof fn lemma_first_index_unique(s: Seq<char>, c: char, a: int, b: int)
    requires
        is_first_index(s, c, a),
        is_first_index(s, c, b),
    ensures
        a == b,
{
    if a < b {
        assert(s[a] != c);
    } else if b < a {
        assert(s[b] != c);
    }
}

/// Splits a received line into its command word (not yet uppercased) and argument.
pub fn split_command_line(line: &str) -> (r: (String, Option<String>))
    ensures
        r.0@ == spec_command_word(line@),
        opt_text(r.1) == spec_command_arg(line@),
{
    let raw = str_to_chars(line);
    let t = trim_chars(raw.as_slice());
    let mut k: usize = 0;
    while k < t.len()
        invariant
            k <= t@.len(),
            forall|j: int| 0 <= j < k ==> t@[j] != ' ',
        ensures
            k <= t@.len(),
            forall|j: int| 0 <= j < k ==> t@[j] != ' ',
            k < t@.len() ==> t@[k as int] == ' ',
        decreases t.len() - k,
    {
        if t[k] == ' ' {
            break;
        }
        k = k + 1;
    }
    if k < t.len() {
        assert(is_first_index(t@, ' ', k as int));
        proof {
            let k2 = choose|k2: int| is_first_index(t@, ' ', k2);
            lemma_first_index_unique(t@, ' ', k as int, k2);
        }
        let word = chars_range(t.as_slice(), 0, k);
        let rest = chars_range(t.as_slice(), k + 1, t.len());
        let rest_t = trim_chars(rest.as_slice());
        assert(word@ =~= t@.take(k as int));
        assert(rest@ =~= t@.skip(k + 1));
        (chars_to_string(word.as_slice()), Some(chars_to_string(rest_t.as_slice())))
    } else {
        assert(!exists|k2: int| is_first_index(t@, ' ', k2));
        (chars_to_string(t.as_slice()), None)
    }
}

/// The commands of the control connection, by the name the client sends.
#[derive(Clone, Copy, Debug, PartialEq, Eq, Structural)]
pub enum FtpCommand {
    User,
    Pass,
    Quit,
    Syst,
    Feat,
    Help,
    Mode,
    Stru,
    Allo,
    Opts,
    Pwd,
    Cwd,
    Cdup,
    Type,
    Mlst,
    Rest,
    Pasv,
    Epsv,
    Port,
    Eprt,
    Auth,
    Pbsz,
    Prot,
    List,
    Mlsd,
    Retr,
    Stor,
    Stou,
    Appe,
    Dele,
    Mkd,
    Rmd,
    Rnfr,
    Rnto,
    Size,
    Mdtm,
    Noop,
    Stat,
    Abor,
    Rein,
    Site,
    Ccc,
    Unknown,
}

/// The command an uppercased name stands for. `NLST` is served as `LIST`; `XPWD`,
/// `XCUP`, `XMKD` and `XRMD` are the old names of `PWD`, `CDUP`, `MKD` and `RMD`.
pub open spec fn spec_command_of(name: Seq<char>) -> FtpCommand {
    if name == "USER"@ { FtpCommand::User }
    else if name == "PASS"@ { FtpCommand::Pass }
    else if name == "QUIT"@ { FtpCommand::Quit }
    else if name == "SYST"@ { FtpCommand::Syst }
    else if name == "FEAT"@ { FtpCommand::Feat }
    else if name == "HELP"@ { FtpCommand::Help }
    else if name == "MODE"@ { FtpCommand::Mode }
    else if name == "STRU"@ { FtpCommand::Stru }
    else if name == "ALLO"@ { FtpCommand::Allo }
    else if name == "OPTS"@ { FtpCommand::Opts }
    else if name == "PWD"@ || name == "XPWD"@ { FtpCommand::Pwd }
    else if name == "CWD"@ { FtpCommand::Cwd }
    else if name == "CDUP"@ || name == "XCUP"@ { FtpCommand::Cdup }
    else if name == "TYPE"@ { FtpCommand::Type }
    else if name == "MLST"@ { FtpCommand::Mlst }
    else if name == "REST"@ { FtpCommand::Rest }
    else if name == "PASV"@ { FtpCommand::Pasv }
    else if name == "EPSV"@ { FtpCommand::Epsv }
    else if name == "PORT"@ { FtpCommand::Port }
    else if name == "EPRT"@ { FtpCommand::Eprt }
    else if name == "AUTH"@ { FtpCommand::Auth }
    else if name == "PBSZ"@ { FtpCommand::Pbsz }
    else if name == "PROT"@ { FtpCommand::Prot }
    else if name == "LIST"@ || name == "NLST"@ { FtpCommand::List }
    else if name == "MLSD"@ { FtpCommand::Mlsd }
    else if name == "RETR"@ { FtpCommand::Retr }
    else if name == "STOR"@ { FtpCommand::Stor }
    else if name == "STOU"@ { FtpCommand::Stou }
    else if name == "APPE"@ { FtpCommand::Appe }
    else if name == "DELE"@ { FtpCommand::Dele }
    else if name == "MKD"@ || name == "XMKD"@ { FtpCommand::Mkd }
    else if name == "RMD"@ || name == "XRMD"@ { FtpCommand::Rmd }
    else if name == "RNFR"@ { FtpCommand::Rnfr }
    else if name == "RNTO"@ { FtpCommand::Rnto }
    else if name == "SIZE"@ { FtpCommand::Size }
    else if name == "MDTM"@ { FtpCommand::Mdtm }
    else if name == "NOOP"@ { FtpCommand::Noop }
    else if name == "STAT"@ { FtpCommand::Stat }
    else if name == "ABOR"@ { FtpCommand::Abor }
    else if name == "REIN"@ { FtpCommand::Rein }
    else if name == "SITE"@ { FtpCommand::Site }
    else if name == "CCC"@ { FtpCommand::Ccc }
    else { FtpCommand::Unknown }
}

/// Names the command given its uppercased name.
pub fn command_of(name: &str) -> (r: FtpCommand)
    ensures
        r == spec_command_of(name@),
{
    if str_eq(name, "USER") { FtpCommand::User }
    else if str_eq(name, "PASS") { FtpCommand::Pass }
    else if str_eq(name, "QUIT") { FtpCommand::Quit }
    else if str_eq(name, "SYST") { FtpCommand::Syst }
    else if str_eq(name, "FEAT") { FtpCommand::Feat }
    else if str_eq(name, "HELP") { FtpCommand::Help }
    else if str_eq(name, "MODE") { FtpCommand::Mode }
    else if str_eq(name, "STRU") { FtpCommand::Stru }
    else if str_eq(name, "ALLO") { FtpCommand::Allo }
    else if str_eq(name, "OPTS") { FtpCommand::Opts }
    else if str_eq(name, "PWD") || str_eq(name, "XPWD") { FtpCommand::Pwd }
    else if str_eq(name, "CWD") { FtpCommand::Cwd }
    else if str_eq(name, "CDUP") || str_eq(name, "XCUP") { FtpCommand::Cdup }
    else if str_eq(name, "TYPE") { FtpCommand::Type }
    else if str_eq(name, "MLST") { FtpCommand::Mlst }
    else if str_eq(name, "REST") { FtpCommand::Rest }
    else if str_eq(name, "PASV") { FtpCommand::Pasv }
    else if str_eq(name, "EPSV") { FtpCommand::Epsv }
    else if str_eq(name, "PORT") { FtpCommand::Port }
    else if str_eq(name, "EPRT") { FtpCommand::Eprt }
    else if str_eq(name, "AUTH") { FtpCommand::Auth }
    else if str_eq(name, "PBSZ") { FtpCommand::Pbsz }
    else if str_eq(name, "PROT") { FtpCommand::Prot }
    else if str_eq(name, "LIST") || str_eq(name, "NLST") { FtpCommand::List }
    else if str_eq(name, "MLSD") { FtpCommand::Mlsd }
    else if str_eq(name, "RETR") { FtpCommand::Retr }
    else if str_eq(name, "STOR") { FtpCommand::Stor }
    else if str_eq(name, "STOU") { FtpCommand::Stou }
    else if str_eq(name, "APPE") { FtpCommand::Appe }
    else if str_eq(name, "DELE") { FtpCommand::Dele }
    else if str_eq(name, "MKD") || str_eq(name, "XMKD") { FtpCommand::Mkd }
    else if str_eq(name, "RMD") || str_eq(name, "XRMD") { FtpCommand::Rmd }
    else if str_eq(name, "RNFR") { FtpCommand::Rnfr }
    else if str_eq(name, "RNTO") { FtpCommand::Rnto }
    else if str_eq(name, "SIZE") { FtpCommand::Size }
    else if str_eq(name, "MDTM") { FtpCommand::Mdtm }
    else if str_eq(name, "NOOP") { FtpCommand::Noop }
    else if str_eq(name, "STAT") { FtpCommand::Stat }
    else if str_eq(name, "ABOR") { FtpCommand::Abor }
    else if str_eq(name, "REIN") { FtpCommand::Rein }
    else if str_eq(name, "SITE") { FtpCommand::Site }
    else if str_eq(name, "CCC") { FtpCommand::Ccc }
    else { FtpCommand::Unknown }
}

/// A received line, read: the command it names (after uppercasing) and its argument.
pub fn parse_command_line(line: &str) -> (r: (FtpCommand, Option<String>))
    ensures
        r.0 == spec_command_of(unicode_upper(spec_command_word(line@))),
        opt_text(r.1) == spec_command_arg(line@),
{
    let (word, arg) = split_command_line(line);
    let upper = to_uppercase(word.as_str());
    (command_of(upper.as_str()), arg)
}

/// The reply of the commands that answer with a fixed line and change nothing; the
/// flag says whether the session ends.
pub open spec fn spec_fixed_reply(cmd: FtpCommand) -> Option<(Seq<char>, bool)> {
    match cmd {
        FtpCommand::Quit => Some(("221 Goodbye\r\n"@, true)),
        FtpCommand::Syst => Some(("215 UNIX Type: L8\r\n"@, false)),
        FtpCommand::Allo => Some(("200 ALLO command successful\r\n"@, false)),
        FtpCommand::Noop => Some(("200 OK\r\n"@, false)),
        FtpCommand::Unknown => Some(("502 Command not implemented\r\n"@, false)),
        _ => None,
    }
}

pub fn fixed_reply(cmd: FtpCommand) -> (r: Option<(String, bool)>)
    ensures
        match r {
            Some((t, q)) => spec_fixed_reply(cmd) == Some((t@, q)),
            None => spec_fixed_reply(cmd) is None,
        },
{
    match cmd {
        FtpCommand::Quit => Some(("221 Goodbye\r\n".to_owned(), true)),
        FtpCommand::Syst => Some(("215 UNIX Type: L8\r\n".to_owned(), false)),
        FtpCommand::Allo => Some(("200 ALLO command successful\r\n".to_owned(), false)),
        FtpCommand::Noop => Some(("200 OK\r\n".to_owned(), false)),
        FtpCommand::Unknown => Some(("502 Command not implemented\r\n".to_owned(), false)),
        _ => None,
    }
}

/// How a new control connection is opened.
pub enum Opening {
    /// The rate limiter refused the connection: send this and close.
    TooMany(String),
    /// The address filter refused the connection: send this, give back the
    /// connection's place in the rate limiter, and close.
    Denied(String),
    /// Greet the client with this and read commands.
    Welcome(String),
}

pub open spec fn opening_view(o: Opening) -> (int, Seq<char>) {
    match o {
        Opening::TooMany(t) => (0, t@),
        Opening::Denied(t) => (1, t@),
        Opening::Welcome(t) => (2, t@),
    }
}

/// The rate limiter is asked first, then the address filter; the greeting carries the
/// configured welcome message.
pub open spec fn spec_opening(admitted: bool, ip_allowed: bool, welcome: Seq<char>) -> (int, Seq<char>) {
    if !admitted {
        (0, "421 Too many connections, try again later\r\n"@)
    } else if !ip_allowed {
        (1, "530 Connection denied by IP filter\r\n"@)
    } else {
        (2, "220 "@ + welcome + " \r\n"@)
    }
}

pub fn opening(admitted: bool, ip_allowed: bool, welcome: &str) -> (r: Opening)
    ensures
        opening_view(r) == spec_opening(admitted, ip_allowed, welcome@),
{
    if !admitted {
        return Opening::TooMany("421 Too many connections, try again later\r\n".to_owned());
    }
    if !ip_allowed {
        return Opening::Denied("530 Connection denied by IP filter\r\n".to_owned());
    }
    let mut out: Vec<char> = Vec::new();
    push_str(&mut out, "220 ");
    push_str(&mut out, welcome);
    push_str(&mut out, " \r\n");
    Opening::Welcome(chars_to_string(out.as_slice()))
}

} // verus!
