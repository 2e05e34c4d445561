//! Decisions around file transfers and file commands: the login and permission gates,
//! restart offsets, speed limits, quotas, listing lines and renames.

use vstd::prelude::*;
use crate::text::{chars_to_string, push_decimal, push_str, spec_decimal, str_to_chars};
use crate::paths::{components_of, parts_eq, parts_starts_with, spec_components, spec_starts_with};
use crate::ftp::session::{SessionState, SessionView};
use crate::sftp::access::{grants, grants_permission, Permission, Permissions};

verus! {

impl SessionState {
    /// The reply that stops a file command before login.
    pub fn login_gate(&self) -> (r: Option<String>)
        ensures
            self.authenticated ==> r is None,
            !self.authenticated ==> (r matches Some(t) && t@ == "530 Not logged in\r\n"@),
    {
        if self.authenticated {
            None
        } else {
            Some("530 Not logged in\r\n".to_owned())
        }
    }

    /// The reply that stops an upload: before login, or without write permission
    /// (a session whose user has no record may write).
    pub fn upload_gate(&self, can_write: bool) -> (r: Option<String>)
        ensures
            !self.authenticated ==> (r matches Some(t) && t@ == "530 Not logged in\r\n"@),
            self.authenticated && !can_write ==> (r matches Some(t) && t@
                == "550 Permission denied\r\n"@),
            self.authenticated && can_write ==> r is None,
    {
        if !self.authenticated {
            Some("530 Not logged in\r\n".to_owned())
        } else if !can_write {
            Some("550 Permission denied\r\n".to_owned())
        } else {
            None
        }
    }

    /// The reply that stops a file command: before login, or when the user's record
    /// lacks the permission the command needs (a session whose user has no record
    /// may go on).
    pub fn permission_gate(&self, perms: Option<Permissions>, need: Permission) -> (r: Option<String>)
        ensures
            !self.authenticated ==> (r matches Some(t) && t@ == "530 Not logged in\r\n"@),
            self.authenticated && (perms matches Some(p) && !grants(p, need)) ==> (r matches Some(t)
                && t@ == "550 Permission denied\r\n"@),
            self.authenticated && !(perms matches Some(p) && !grants(p, need)) ==> r is None,
    {
        let allowed = match perms {
            Some(p) => grants_permission(&p, need),
            None => true,
        };
        self.upload_gate(allowed)
    }

    /// Bytes a download will send: what lies after the restart offset when the offset
    /// falls inside the file, else the whole file.
    pub fn retr_remaining(&self, file_size: u64) -> (r: u64)
        ensures
            r == if 0 < self.rest_offset < file_size {
                (file_size - self.rest_offset) as u64
            } else {
                file_size
            },
    {
        if self.rest_offset > 0 && self.rest_offset < file_size {
            file_size - self.rest_offset
        } else {
            file_size
        }
    }

    /// A download finished: the restart offset is used up.
    pub fn retr_done(&mut self)
        ensures
            final(self)@ == (SessionView { rest_offset: 0, ..old(self)@ }),
    {
        self.rest_offset = 0;
    }

    /// `RNFR` accepted this source.
    pub fn set_rename_from(&mut self, from: &str)
        ensures
            final(self)@ == (SessionView { rename_from: Some(from@), ..old(self)@ }),
    {
        self.rename_from = Some(from.to_owned());
    }

    /// `RNTO` ends the rename sequence, whatever its outcome.
    pub fn clear_rename(&mut self)
        ensures
            final(self)@ == (SessionView { rename_from: None, ..old(self)@ }),
    {
        self.rename_from = None;
    }

    /// `CWD` reached an existing directory within home.
    pub fn change_dir(&mut self, new_cwd: &str) -> (r: String)
        ensures
            final(self)@ == (SessionView { cwd: new_cwd@, ..old(self)@ }),
            r@ == "250 \""@ + new_cwd@ + "\" is current directory\r\n"@,
    {
        self.cwd = new_cwd.to_owned();
        let mut out: Vec<char> = Vec::new();
        push_str(&mut out, "250 \"");
        push_str(&mut out, new_cwd);
        push_str(&mut out, "\" is current directory\r\n");
        chars_to_string(out.as_slice())
    }
}

/// The `150` reply of a download of `remaining` bytes.
pub fn retr_opening_reply(remaining: u64) -> (r: String)
    ensures
        r@ == "150 Opening BINARY mode data connection ("@ + spec_decimal(remaining as nat)
            + " bytes)\r\n"@,
{
    let mut out: Vec<char> = Vec::new();
    push_str(&mut out, "150 Opening BINARY mode data connection (");
    push_decimal(&mut out, remaining);
    push_str(&mut out, " bytes)\r\n");
    chars_to_string(out.as_slice())
}

/// The speed limit of a transfer: the user's own limit when set, else the server's,
/// else none (zero means unset).
pub fn effective_speed_limit(user_kbps: u64, global_kbps: u64) -> (r: Option<u64>)
    ensures
        r == if user_kbps > 0 {
            Some(user_kbps)
        } else if global_kbps > 0 {
            Some(global_kbps)
        } else {
            None::<u64>
        },
{
    if user_kbps > 0 {
        Some(user_kbps)
    } else if global_kbps > 0 {
        Some(global_kbps)
    } else {
        None
    }
}

/// A quota of `quota_mb` MiB in bytes.
pub open spec fn quota_bytes(quota_mb: u64) -> int {
    quota_mb * 1024 * 1024
}

/// The reply that refuses an upload because the home directory already uses its whole
/// quota; zero is no quota.
pub fn upload_quota_reply(quota_mb: u64, usage: u64) -> (r: Option<String>)
    requires
        quota_bytes(quota_mb) <= u64::MAX,
    ensures
        (quota_mb > 0 && usage >= quota_bytes(quota_mb)) ==> (r matches Some(t) && t@
            == "552 Quota exceeded, upload denied\r\n"@),
        !(quota_mb > 0 && usage >= quota_bytes(quota_mb)) ==> r is None,
{
    if quota_mb > 0 && usage >= quota_mb * 1024 * 1024 {
        Some("552 Quota exceeded, upload denied\r\n".to_owned())
    } else {
        None
    }
}

/// The `213` reply carrying a number.
pub fn size_reply(size: u64) -> (r: String)
    ensures
        r@ == "213 "@ + spec_decimal(size as nat) + "\r\n"@,
{
    let mut out: Vec<char> = Vec::new();
    push_str(&mut out, "213 ");
    push_decimal(&mut out, size);
    push_str(&mut out, "\r\n");
    chars_to_string(out.as_slice())
}

/// The `213` reply carrying a modification time.
pub fn mdtm_reply(mtime: &str) -> (r: String)
    ensures
        r@ == "213 "@ + mtime@ + "\r\n"@,
{
    let mut out: Vec<char> = Vec::new();
    push_str(&mut out, "213 ");
    push_str(&mut out, mtime);
    push_str(&mut out, "\r\n");
    chars_to_string(out.as_slice())
}

/// `text` right-aligned in a field of `width` characters (`{:>width}`): padded on the
/// left with spaces, never cut.
pub open spec fn pad_left(text: Seq<char>, width: nat) -> Seq<char> {
    if text.len() >= width {
        text
    } else {
        Seq::new((width - text.len()) as nat, |i: int| ' ') + text
    }
}

/// One line of a `LIST` listing.
pub open spec fn spec_list_line(is_dir: bool, size: u64, mtime: Seq<char>, name: Seq<char>) -> Seq<char> {
    (if is_dir {
        "drwxr-xr-x"@
    } else {
        "-rw-r--r--"@
    }) + " 1 user user "@ + pad_left(spec_decimal(size as nat), 10) + " "@ + mtime + " "@ + name
        + "\r\n"@
}

pub fn list_line(is_dir: bool, size: u64, mtime: &str, name: &str) -> (r: String)
    ensures
        r@ == spec_list_line(is_dir, size, mtime@, name@),
{
    let mut out: Vec<char> = Vec::new();
    push_str(&mut out, if is_dir { "drwxr-xr-x" } else { "-rw-r--r--" });
    push_str(&mut out, " 1 user user ");
    let mut digits: Vec<char> = Vec::new();
    push_decimal(&mut digits, size);
    assert(digits@ =~= spec_decimal(size as nat));
    let ghost start = out@;
    let mut k: usize = digits.len();
    while k < 10
        invariant
            digits@.len() <= k <= 10 || (k == digits@.len() && k >= 10),
            out@ == start + Seq::new((k - digits@.len()) as nat, |i: int| ' '),
        decreases 10 - k,
    {
        out.push(' ');
        k = k + 1;
        assert(out@ =~= start + Seq::new((k - digits@.len()) as nat, |i: int| ' '));
    }
    let ghost padded = out@;
    let mut j: usize = 0;
    while j < digits.len()
        invariant
            j <= digits@.len(),
            out@ == padded + digits@.take(j as int),
        decreases digits.len() - j,
    {
        out.push(digits[j]);
        j = j + 1;
        assert(out@ =~= padded + digits@.take(j as int));
    }
    assert(digits@.take(digits@.len() as int) =~= digits@);
    proof {
        if digits@.len() >= 10 {
            assert(Seq::new(0nat, |i: int| ' ') =~= Seq::<char>::empty());
            assert(out@ =~= start + pad_left(digits@, 10));
        } else {
            assert(out@ =~= start + pad_left(digits@, 10));
        }
    }
    push_str(&mut out, " ");
    push_str(&mut out, mtime);
    push_str(&mut out, " ");
    push_str(&mut out, name);
    push_str(&mut out, "\r\n");
    chars_to_string(out.as_slice())
}

/// Why `RNTO` refuses to move the source: it is the working directory, or contains it.
/// Paths are compared by their components.
pub open spec fn spec_rename_conflict(from: Seq<char>, cwd: Seq<char>) -> Option<Seq<char>> {
    let f = spec_components(from);
    let c = spec_components(cwd);
    if f == c {
        Some("550 Cannot rename current working directory\r\n"@)
    } else if spec_starts_with(c, f) {
        Some("550 Cannot rename parent of current working directory\r\n"@)
    } else {
        None
    }
}

pub fn rename_conflict(from: &str, cwd: &str) -> (r: Option<String>)
    ensures
        match r {
            Some(t) => spec_rename_conflict(from@, cwd@) == Some(t@),
            None => spec_rename_conflict(from@, cwd@) is None,
        },
{
    let fc = str_to_chars(from);
    let cc = str_to_chars(cwd);
    let f = components_of(fc.as_slice());
    let c = components_of(cc.as_slice());
    if parts_eq(&f, &c) {
        Some("550 Cannot rename current working directory\r\n".to_owned())
    } else if parts_starts_with(&c, &f) {
        Some("550 Cannot rename parent of current working directory\r\n".to_owned())
    } else {
        None
    }
}

/// The reply to a successful `MKD`.
pub fn mkd_reply(path: &str) -> (r: String)
    ensures
        r@ == "257 \""@ + path@ + "\" created\r\n"@,
{
    let mut out: Vec<char> = Vec::new();
    push_str(&mut out, "257 \"");
    push_str(&mut out, path);
    push_str(&mut out, "\" created\r\n");
    chars_to_string(out.as_slice())
}

/// The name `STOU` stores a file under: `ftp_` and a time stamp, followed by `_<n>` for
/// the n-th retry after a name was taken.
pub open spec fn spec_stou_name(stamp: Seq<char>, attempt: u32) -> Seq<char> {
    if attempt == 0 {
        "ftp_"@ + stamp
    } else {
        "ftp_"@ + stamp + "_"@ + spec_decimal(attempt as nat)
    }
}

pub fn stou_name(stamp: &str, attempt: u32) -> (r: String)
    ensures
        r@ == spec_stou_name(stamp@, attempt),
{
    let mut out: Vec<char> = Vec::new();
    push_str(&mut out, "ftp_");
    push_str(&mut out, stamp);
    if attempt > 0 {
        push_str(&mut out, "_");
        push_decimal(&mut out, attempt as u64);
    }
    chars_to_string(out.as_slice())
}

/// The `150` reply naming the file `STOU` stores.
pub fn stou_reply(name: &str) -> (r: String)
    ensures
        r@ == "150 FILE: "@ + name@ + "\r\n"@,
{
    let mut out: Vec<char> = Vec::new();
    push_str(&mut out, "150 FILE: ");
    push_str(&mut out, name);
    push_str(&mut out, "\r\n");
    chars_to_string(out.as_slice())
}

/// The replies to `ABOR`: the transfer's connection closed, then the abort confirmed.
pub fn abor_reply() -> (r: String)
    ensures
        r@ == "426 Connection closed; transfer aborted\r\n226 Abort successful\r\n"@,
{
    "426 Connection closed; transfer aborted\r\n226 Abort successful\r\n".to_owned()
}

/// A `LIST` line tells directories from files by its first character: `d` for a
/// directory, `-` for a file, then the permissions, and it ends with the name and CRLF.
pub proof fn lemma_list_line_kind(is_dir: bool, size: u64, mtime: Seq<char>, name: Seq<char>)
    ensures
        spec_list_line(is_dir, size, mtime, name)[0] == (if is_dir { 'd' } else { '-' }),
        spec_list_line(is_dir, size, mtime, name).take(10) == (if is_dir { seq!['d', 'r', 'w', 'x', 'r', '-', 'x', 'r', '-', 'x'] } else { seq!['-', 'r', 'w', '-', 'r', '-', '-', 'r', '-', '-'] }),
        spec_list_line(is_dir, size, mtime, name).skip(spec_list_line(is_dir, size, mtime, name).len() - name.len() - 2) == name + seq!['\r', '\n'],
{
    reveal_strlit("drwxr-xr-x");
    reveal_strlit("-rw-r--r--");
    reveal_strlit("\r\n");
    let l = spec_list_line(is_dir, size, mtime, name);
    let perm = if is_dir { "drwxr-xr-x"@ } else { "-rw-r--r--"@ };
    let rest = " 1 user user "@ + pad_left(spec_decimal(size as nat), 10) + " "@ + mtime + " "@;
    assert(l == perm + rest + name + "\r\n"@);
    assert(l.take(10) =~= perm);
    assert(l.skip(l.len() - name.len() - 2) =~= name + seq!['\r', '\n']);
}

} // verus!
