//! The decisions of the data-transfer commands `RETR`, `STOR` and `STOU`, between the
//! file-system and network work the caller does: what is refused and with which reply,
//! where the file is read or written from, which replies close the transfer, and what
//! the session and the quota cache keep afterwards.

use vstd::prelude::*;
use crate::text::{chars_to_string, push_str, str_to_chars};
use crate::paths::{components_of, join_text, parts_starts_with, spec_components, spec_join_text, spec_starts_with};
use crate::ftp::session::{SessionState, SessionView};
use crate::ftp::transfer::{retr_opening_reply, spec_stou_name, stou_name, upload_quota_reply, quota_bytes};
use crate::quota::{drop_usage, QuotaCache};
use crate::text::spec_decimal;

verus! {

/// Whether `path` lies within `home`, component by component (as `Path::starts_with`).
pub open spec fn spec_within(path: Seq<char>, home: Seq<char>) -> bool {
    spec_starts_with(spec_components(path), spec_components(home))
}

pub fn path_within(path: &str, home: &str) -> (r: bool)
    ensures
        r == spec_within(path@, home@),
{
    let p = components_of(str_to_chars(path).as_slice());
    let h = components_of(str_to_chars(home).as_slice());
    parts_starts_with(&p, &h)
}

/// The reply to a client path that could not be resolved, with the reason's text.
pub open spec fn spec_resolution_refusal(reason: Seq<char>) -> Seq<char> {
    "550 Path resolution failed: "@ + reason + "\r\n"@
}

fn resolution_refusal(reason: &str) -> (r: String)
    ensures
        r@ == spec_resolution_refusal(reason@),
{
    let mut out: Vec<char> = Vec::new();
    push_str(&mut out, "550 Path resolution failed: ");
    push_str(&mut out, reason);
    push_str(&mut out, "\r\n");
    chars_to_string(out.as_slice())
}

/// How a download goes on once its file is known.
pub enum RetrStart {
    /// The command ends with this reply.
    Refuse(String),
    /// Send this `150` reply, open the data connection, and send the file from this
    /// byte offset on.
    Send(String, u64),
}

/// What a download does: refused (in this order) when the path cannot be resolved,
/// when it is not an existing regular file within home, when the user may not read;
/// otherwise announced with the bytes after the restart offset (the whole file when
/// the offset does not fall inside it) and read from the restart offset.
pub open spec fn spec_retr_start(
    s: SessionView,
    resolved: Result<Seq<char>, Seq<char>>,
    is_file: bool,
    can_read: bool,
    file_size: u64,
) -> Result<(Seq<char>, u64), Seq<char>> {
    match resolved {
        Err(reason) => Err(spec_resolution_refusal(reason)),
        Ok(path) => if !is_file || !spec_within(path, s.home_dir) {
            Err("550 File not found\r\n"@)
        } else if !can_read {
            Err("550 Permission denied\r\n"@)
        } else {
            let remaining = if 0 < s.rest_offset < file_size { (file_size - s.rest_offset) as nat } else { file_size as nat };
            Ok(("150 Opening BINARY mode data connection ("@ + spec_decimal(remaining) + " bytes)\r\n"@, s.rest_offset))
        },
    }
}

/// The bytes a download sends of a file whose content is `content`, read from
/// `offset`: what follows the offset, nothing when the offset lies past the end.
pub open spec fn spec_retr_payload(content: Seq<u8>, offset: u64) -> Seq<u8> {
    if offset < content.len() {
        content.skip(offset as int)
    } else {
        Seq::empty()
    }
}

/// How a transfer's data connection ended for the session: the final reply, and the
/// restart offset afterwards.
pub open spec fn spec_retr_end(s: SessionView, data_opened: bool) -> (SessionView, Seq<char>) {
    if data_opened {
        (SessionView { rest_offset: 0, ..s }, "226 Transfer complete\r\n"@)
    } else {
        (s, "425 Cannot open data connection\r\n"@)
    }
}

/// How an upload is written to its file.
pub enum WritePlan {
    /// Create the file, or empty an existing one, and write from its start.
    Truncate,
    /// Open the file without emptying it (creating it when missing) and write from
    /// this offset.
    Resume(u64),
}

/// How an upload goes on once its path is known.
pub enum StorStart {
    Refuse(String),
    /// Send `150 Opening BINARY mode data connection`, open the data connection and
    /// write the file so.
    Receive(WritePlan),
}

pub open spec fn spec_write_plan(rest_offset: u64) -> WritePlan {
    if rest_offset > 0 {
        WritePlan::Resume(rest_offset)
    } else {
        WritePlan::Truncate
    }
}

/// What an upload does (after the login and write-permission gates): refused when the
/// path cannot be resolved, when it lies outside home, or when the home directory
/// already uses its whole quota (`usage`: its usage as just computed, under a quota);
/// otherwise received, resuming at the restart offset when there is one.
pub open spec fn spec_stor_start(
    s: SessionView,
    resolved: Result<Seq<char>, Seq<char>>,
    quota_mb: u64,
    usage: u64,
) -> Result<WritePlan, Seq<char>> {
    match resolved {
        Err(reason) => Err(spec_resolution_refusal(reason)),
        Ok(path) => if !spec_within(path, s.home_dir) {
            Err("550 Permission denied\r\n"@)
        } else if quota_mb > 0 && usage >= quota_bytes(quota_mb) {
            Err("552 Quota exceeded, upload denied\r\n"@)
        } else {
            Ok(spec_write_plan(s.rest_offset))
        },
    }
}

/// How the copy from the data connection into the file ended.
#[derive(Clone, Copy, Debug, PartialEq, Eq, Structural)]
pub enum CopyEnd {
    /// The data connection reached its end and every byte was written.
    Complete,
    /// The client aborted the transfer.
    Aborted,
    /// Reading the data connection failed.
    ReadFailed,
    /// Writing the file failed.
    WriteFailed,
    /// The file could not be opened.
    OpenFailed,
}

/// The end of an upload: without a data connection `425` and nothing else changes;
/// otherwise `226` when the copy completed (and the home's cached usage is dropped, to
/// be computed anew), `451` when it did not; the restart offset is used up either way.
pub open spec fn spec_stor_end(s: SessionView, data_opened: bool, end: CopyEnd) -> (SessionView, Seq<char>) {
    if !data_opened {
        (s, "425 Cannot open data connection\r\n"@)
    } else if end == CopyEnd::Complete {
        (SessionView { rest_offset: 0, ..s }, "226 Transfer complete\r\n"@)
    } else {
        (SessionView { rest_offset: 0, ..s }, "451 Transfer failed\r\n"@)
    }
}

impl SessionState {
    /// Decides a download once the client path is resolved (`Err`: the reason it could
    /// not be) and the file examined: `is_file` when it exists and is a regular file,
    /// `can_read` from the user's permissions, `file_size` its length.
    pub fn retr_begin(&self, resolved: Result<&str, &str>, is_file: bool, can_read: bool, file_size: u64) -> (r: RetrStart)
        ensures
            ({
                let spec = spec_retr_start(
                    self@,
                    match resolved { Ok(p) => Ok(p@), Err(e) => Err(e@) },
                    is_file,
                    can_read,
                    file_size,
                );
                match r {
                    RetrStart::Refuse(t) => spec == Err::<(Seq<char>, u64), Seq<char>>(t@),
                    RetrStart::Send(t, off) => spec == Ok::<(Seq<char>, u64), Seq<char>>((t@, off)),
                }
            }),
    {
        match resolved {
            Err(reason) => RetrStart::Refuse(resolution_refusal(reason)),
            Ok(path) => {
                if !is_file || !path_within(path, self.home_dir.as_str()) {
                    RetrStart::Refuse("550 File not found\r\n".to_owned())
                } else if !can_read {
                    RetrStart::Refuse("550 Permission denied\r\n".to_owned())
                } else {
                    let remaining = self.retr_remaining(file_size);
                    RetrStart::Send(retr_opening_reply(remaining), self.rest_offset)
                }
            },
        }
    }

    /// Ends a download: `425` when the data connection could not be opened (the
    /// command stops there), else `226` whatever became of the copy, and the restart
    /// offset is used up.
    pub fn retr_end(&mut self, data_opened: bool) -> (r: String)
        ensures
            (final(self)@, r@) == spec_retr_end(old(self)@, data_opened),
    {
        if data_opened {
            self.rest_offset = 0;
            "226 Transfer complete\r\n".to_owned()
        } else {
            "425 Cannot open data connection\r\n".to_owned()
        }
    }

    /// Decides an upload once the client path is resolved (`Err`: the reason it could
    /// not be) and, under a quota, the home directory's usage computed.
    pub fn stor_begin(&self, resolved: Result<&str, &str>, quota_mb: u64, usage: u64) -> (r: StorStart)
        requires
            quota_bytes(quota_mb) <= u64::MAX,
        ensures
            ({
                let spec = spec_stor_start(self@, match resolved { Ok(p) => Ok(p@), Err(e) => Err(e@) }, quota_mb, usage);
                match r {
                    StorStart::Refuse(t) => spec == Err::<WritePlan, Seq<char>>(t@),
                    StorStart::Receive(plan) => spec == Ok::<WritePlan, Seq<char>>(plan),
                }
            }),
    {
        match resolved {
            Err(reason) => StorStart::Refuse(resolution_refusal(reason)),
            Ok(path) => {
                if !path_within(path, self.home_dir.as_str()) {
                    return StorStart::Refuse("550 Permission denied\r\n".to_owned());
                }
                match upload_quota_reply(quota_mb, usage) {
                    Some(t) => StorStart::Refuse(t),
                    None => StorStart::Receive(
                        if self.rest_offset > 0 {
                            WritePlan::Resume(self.rest_offset)
                        } else {
                            WritePlan::Truncate
                        },
                    ),
                }
            },
        }
    }

    /// Ends an upload (see `spec_stor_end`), dropping the home's cached usage after a
    /// completed copy.
    pub fn stor_end(&mut self, data_opened: bool, end: CopyEnd, quota: &mut QuotaCache) -> (r: String)
        requires
            old(quota).wf(),
        ensures
            (final(self)@, r@) == spec_stor_end(old(self)@, data_opened, end),
            final(quota).wf(),
            data_opened && end == CopyEnd::Complete ==> final(quota).usages() == drop_usage(
                old(quota).usages(),
                old(self)@.home_dir,
            ),
            !(data_opened && end == CopyEnd::Complete) ==> final(quota).usages() == old(quota).usages(),
    {
        if !data_opened {
            return "425 Cannot open data connection\r\n".to_owned();
        }
        self.rest_offset = 0;
        match end {
            CopyEnd::Complete => {
                quota.invalidate(self.home_dir.as_str());
                "226 Transfer complete\r\n".to_owned()
            },
            _ => "451 Transfer failed\r\n".to_owned(),
        }
    }
}

/// Choosing the name `STOU` stores under: the first name carries a fine time stamp;
/// while the name last tried is taken, the next carries a fresh stamp and the count of
/// names tried so far.
pub struct StouNaming {
    attempt: u32,
    name: String,
}

impl StouNaming {
    pub closed spec fn attempt(&self) -> u32 {
        self.attempt
    }

    pub closed spec fn name_view(&self) -> Seq<char> {
        self.name@
    }

    /// The first name to try, `ftp_<stamp>`.
    pub fn start(stamp: &str) -> (r: Self)
        ensures
            r.attempt() == 0,
            r.name_view() == spec_stou_name(stamp@, 0),
    {
        StouNaming { attempt: 0, name: stou_name(stamp, 0) }
    }

    /// The name to test next.
    pub fn candidate(&self) -> (r: String)
        ensures
            r@ == self.name_view(),
    {
        self.name.clone()
    }

    /// Takes whether the name last tried exists: the name is chosen when it does not;
    /// otherwise the next name is made from `stamp` and nothing is chosen yet.
    pub fn answer(&mut self, exists: bool, stamp: &str) -> (r: Option<String>)
        requires
            exists ==> old(self).attempt() < u32::MAX,
        ensures
            !exists ==> (r matches Some(n) && n@ == old(self).name_view()) && *final(self) == *old(self),
            exists ==> r is None && final(self).attempt() == old(self).attempt() + 1
                && final(self).name_view() == spec_stou_name(stamp@, (old(self).attempt() + 1) as u32),
    {
        if !exists {
            return Some(self.name.clone());
        }
        self.attempt = self.attempt + 1;
        self.name = stou_name(stamp, self.attempt);
        None
    }
}

/// What `STOU` does once its name is chosen (after the login and write gates): refused
/// when the working directory joined with the name lies outside home; otherwise the
/// `150` reply naming the file.
pub open spec fn spec_stou_start(s: SessionView, name: Seq<char>) -> Result<Seq<char>, Seq<char>> {
    if !spec_within(spec_join_text(s.cwd, name), s.home_dir) {
        Err("550 Permission denied\r\n"@)
    } else {
        Ok("150 FILE: "@ + name + "\r\n"@)
    }
}

/// The end of `STOU`: without a data connection `425`; `226` naming the file when the
/// copy completed, else `451`. The restart offset is not used.
pub open spec fn spec_stou_end(data_opened: bool, end: CopyEnd, name: Seq<char>) -> Seq<char> {
    if !data_opened {
        "425 Cannot open data connection\r\n"@
    } else if end == CopyEnd::Complete {
        "226 Transfer complete, file: "@ + name + "\r\n"@
    } else {
        "451 Transfer failed\r\n"@
    }
}

impl SessionState {
    /// Decides `STOU` for the name chosen (see `spec_stou_start`).
    pub fn stou_begin(&self, name: &str) -> (r: Result<String, String>)
        ensures
            match r {
                Ok(t) => spec_stou_start(self@, name@) == Ok::<Seq<char>, Seq<char>>(t@),
                Err(t) => spec_stou_start(self@, name@) == Err::<Seq<char>, Seq<char>>(t@),
            },
    {
        let p = join_text(str_to_chars(self.cwd.as_str()).as_slice(), str_to_chars(name).as_slice());
        let ps = chars_to_string(p.as_slice());
        if !path_within(ps.as_str(), self.home_dir.as_str()) {
            return Err("550 Permission denied\r\n".to_owned());
        }
        let mut out: Vec<char> = Vec::new();
        push_str(&mut out, "150 FILE: ");
        push_str(&mut out, name);
        push_str(&mut out, "\r\n");
        Ok(chars_to_string(out.as_slice()))
    }
}

/// The final reply of `STOU` (see `spec_stou_end`).
pub fn stou_end(data_opened: bool, end: CopyEnd, name: &str) -> (r: String)
    ensures
        r@ == spec_stou_end(data_opened, end, name@),
{
    if !data_opened {
        return "425 Cannot open data connection\r\n".to_owned();
    }
    match end {
        CopyEnd::Complete => {
            let mut out: Vec<char> = Vec::new();
            push_str(&mut out, "226 Transfer complete, file: ");
            push_str(&mut out, name);
            push_str(&mut out, "\r\n");
            chars_to_string(out.as_slice())
        },
        _ => "451 Transfer failed\r\n".to_owned(),
    }
}

/// A download announces exactly the bytes it sends when the restart offset is zero or
/// falls inside the file.
pub proof fn lemma_retr_announces_payload(content: Seq<u8>, rest: u64)
    requires
        content.len() <= u64::MAX,
        rest == 0 || rest < content.len(),
    ensures
        spec_retr_payload(content, rest).len() == (if 0 < rest < content.len() { content.len() - rest } else { content.len() as int }),
{
}

/// Whatever an upload's copy came to, once a data connection was opened the restart
/// offset does not carry over to the next transfer; a download leaves it the same way.
pub proof fn lemma_transfers_use_up_restart(s: SessionView, end: CopyEnd)
    ensures
        spec_stor_end(s, true, end).0.rest_offset == 0,
        spec_retr_end(s, true).0.rest_offset == 0,
        spec_stor_end(s, false, end).0 == s,
        spec_retr_end(s, false).0 == s,
{
}

} // verus!
