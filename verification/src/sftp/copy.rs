//! The `copy-file` extension as a state machine: it asks its caller to resolve paths,
//! read metadata, test the destination directory, compute the quota usage and copy,
//! and decides from each answer whether to go on or with which status to refuse.

use vstd::prelude::*;
use crate::text::{chars_to_string, push_str, str_eq};
use crate::paths::{clone_parts, root_part, spec_components, spec_render, FsPath};
use crate::packet::{SSH_FX_FAILURE, SSH_FX_NO_SUCH_FILE, SSH_FX_OK, SSH_FX_PERMISSION_DENIED};
use crate::sftp::requests::{status, status_reply};
use crate::sftp::status::{io_error_to_sftp_status, spec_status_for_error, ErrnoCodes, IoErrorKind};
use crate::sftp::access::{quota_allows, quota_applies, spec_quota_allows, spec_quota_applies, Permissions};
use crate::sftp::extended::{copy_growth, copy_permitted, copy_source_refusal, spec_copy_growth, spec_copy_source_refusal, CopyArgs, Destination};

verus! {

/// A failed file-system call: its kind, its operating-system code, and its text.
pub struct IoFailure {
    pub kind: IoErrorKind,
    pub raw: Option<i32>,
    pub text: String,
}

/// The status of a failed file-system call: the status of its error, the message
/// followed by `: ` and the error's text.
pub open spec fn spec_io_reply(id: u32, f: IoFailure, c: ErrnoCodes) -> Seq<u8> {
    let (code, msg) = spec_status_for_error(f.kind, f.raw, c);
    status_reply(id, code, msg + ": "@ + f.text@)
}

fn io_reply(id: u32, f: &IoFailure, c: &ErrnoCodes) -> (r: Vec<u8>)
    ensures
        r@ == spec_io_reply(id, *f, *c),
{
    let (code, msg) = io_error_to_sftp_status(f.kind, f.raw, c);
    let mut m: Vec<char> = Vec::new();
    push_str(&mut m, msg);
    push_str(&mut m, ": ");
    push_str(&mut m, f.text.as_str());
    let text = chars_to_string(m.as_slice());
    status(id, code, text.as_str())
}

fn prefixed(id: u32, code: u32, prefix: &str, rest: &str) -> (r: Vec<u8>)
    ensures
        r@ == status_reply(id, code, prefix@ + rest@),
{
    let mut m: Vec<char> = Vec::new();
    push_str(&mut m, prefix);
    push_str(&mut m, rest);
    let text = chars_to_string(m.as_slice());
    status(id, code, text.as_str())
}

/// The directory holding a path, as `Path::parent` gives it: none for the root or the
/// empty path, the empty path for a single relative name.
pub open spec fn spec_parent(p: Seq<char>) -> Option<Seq<char>> {
    let c = spec_components(p);
    if c.len() == 0 || (c.len() == 1 && c[0] == root_part()) {
        None
    } else {
        Some(spec_render(c.drop_last()))
    }
}

pub fn parent_of(p: &str) -> (r: Option<String>)
    ensures
        match r {
            Some(t) => spec_parent(p@) == Some(t@),
            None => spec_parent(p@) is None,
        },
{
    let path = FsPath::from_chars(crate::text::str_to_chars(p).as_slice());
    let n = path.parts.len();
    if n == 0 {
        return None;
    }
    if n == 1 && path.parts[0].len() == 1 && path.parts[0][0] == '/' {
        assert(path@[0] =~= root_part());
        return None;
    }
    proof {
        if n == 1 {
            assert(path@[0] != root_part()) by {
                if path@[0] == root_part() {
                    assert(path@[0].len() == 1 && path@[0][0] == '/');
                }
            }
        }
    }
    let mut parts = clone_parts(&path.parts);
    let ghost before = parts.deep_view();
    parts.pop();
    assert(parts.deep_view() =~= before.drop_last());
    let parent = FsPath { parts };
    Some(parent.to_text())
}

/// The failure answered to an answer that does not fit the question, or to any
/// answer after the end.
pub open spec fn spec_out_of_turn(id: u32) -> Seq<u8> {
    status_reply(id, SSH_FX_FAILURE, "Operation failed"@)
}

/// What the copy needs to know next.
pub enum CopyAsk {
    /// Resolve this client path within the home directory.
    Resolve(String),
    /// The metadata of the resolved source.
    SourceMeta(String),
    /// Whether this directory (the destination's) exists.
    ParentExists(String),
    /// The metadata of the resolved destination.
    DestMeta(String),
    /// The home directory's usage, for the quota.
    Usage,
    /// Copy the first file onto the second.
    Copy(String, String),
}

/// The answer to the last question.
pub enum CopyAnswer {
    /// The resolved path, or the reason resolution failed.
    Resolved(Result<String, String>),
    /// The source's kind (`(is_file, is_dir)`) and length.
    SourceMeta(Result<(bool, bool, u64), IoFailure>),
    ParentExists(Result<bool, IoFailure>),
    /// What the destination is; a failure of kind `NotFound` means there is nothing.
    DestMeta(Result<Destination, IoFailure>),
    Usage(u64),
    /// The bytes copied.
    Copied(Result<u64, IoFailure>),
}

pub enum CopyStep {
    Ask(CopyAsk),
    Reply(Vec<u8>),
}

/// Where the copy stands; each stage keeps the resolved paths found so far.
pub enum CopyStage {
    AwaitSource,
    AwaitDest(String),
    AwaitSourceMeta(String, String),
    AwaitParent(String, String, u64),
    AwaitDestMeta(String, String, u64),
    AwaitUsage(String, String, u64),
    AwaitCopy(String, String),
    Finished,
}

pub struct CopyFlow {
    pub id: u32,
    pub args: CopyArgs,
    pub perms: Option<Permissions>,
    pub codes: ErrnoCodes,
    pub stage: CopyStage,
    /// Whether the file was copied (the home's cached usage is then out of date).
    pub copied: bool,
}

impl CopyFlow {
    /// Starts a copy with parsed arguments: refused unless the user may both read and
    /// write; otherwise the source path is resolved first.
    pub fn start(id: u32, args: CopyArgs, perms: Option<Permissions>, codes: ErrnoCodes) -> (r: (CopyFlow, CopyStep))
        ensures
            r.0.id == id,
            r.0.perms == perms,
            r.0.codes == codes,
            r.0.args.src@ == args.src@,
            r.0.args.dst@ == args.dst@,
            r.0.args.overwrite == args.overwrite,
            !r.0.copied,
            !(perms matches Some(p) && p.can_read && p.can_write) ==> (r.1 matches CopyStep::Reply(t)
                && t@ == status_reply(id, SSH_FX_PERMISSION_DENIED, "Permission denied"@)),
            (perms matches Some(p) && p.can_read && p.can_write) ==> (r.1 matches CopyStep::Ask(CopyAsk::Resolve(s))
                && s@ == args.src@ && r.0.stage is AwaitSource),
    {
        if !copy_permitted(perms) {
            let flow = CopyFlow { id, args, perms, codes, stage: CopyStage::Finished, copied: false };
            return (flow, CopyStep::Reply(status(id, SSH_FX_PERMISSION_DENIED, "Permission denied")));
        }
        let s = args.src.clone();
        let flow = CopyFlow { id, args, perms, codes, stage: CopyStage::AwaitSource, copied: false };
        (flow, CopyStep::Ask(CopyAsk::Resolve(s)))
    }

    /// Takes the answer to the last question. In order: the source must resolve, then
    /// the destination, and the two must differ; the source must be a regular file;
    /// the destination's directory must exist; an existing destination must be a file
    /// and the overwrite flag set; the added bytes must fit the quota; then the file is
    /// copied and `OK` answered. A failed file-system call is answered with its status.
    /// An answer that does not fit the question ends with a failure.
    pub fn resume(&mut self, answer: CopyAnswer) -> (r: CopyStep)
        ensures
            final(self).id == old(self).id,
            final(self).args == old(self).args,
            final(self).perms == old(self).perms,
            final(self).codes == old(self).codes,
            final(self).copied == (old(self).copied || (old(self).stage is AwaitCopy && answer matches CopyAnswer::Copied(Ok(_)))),
            old(self).stage matches CopyStage::AwaitSource ==> match answer {
                CopyAnswer::Resolved(Err(e)) => r matches CopyStep::Reply(t) && t@ == status_reply(
                    old(self).id,
                    SSH_FX_FAILURE,
                    "Source path resolution failed: "@ + e@,
                ),
                CopyAnswer::Resolved(Ok(s)) => (r matches CopyStep::Ask(CopyAsk::Resolve(d)) && d@ == old(self).args.dst@)
                    && (final(self).stage matches CopyStage::AwaitDest(s2) && s2@ == s@),
                _ => r matches CopyStep::Reply(t) && t@ == spec_out_of_turn(old(self).id),
            },
            old(self).stage matches CopyStage::AwaitDest(s) ==> match answer {
                CopyAnswer::Resolved(Err(e)) => r matches CopyStep::Reply(t) && t@ == status_reply(
                    old(self).id,
                    SSH_FX_FAILURE,
                    "Destination path resolution failed: "@ + e@,
                ),
                CopyAnswer::Resolved(Ok(d)) => if d@ == s@ {
                    r matches CopyStep::Reply(t) && t@ == status_reply(
                        old(self).id,
                        SSH_FX_FAILURE,
                        "Source and destination are the same file"@,
                    )
                } else {
                    (r matches CopyStep::Ask(CopyAsk::SourceMeta(q)) && q@ == s@)
                        && (final(self).stage matches CopyStage::AwaitSourceMeta(s2, d2) && s2@ == s@ && d2@ == d@)
                },
                _ => r matches CopyStep::Reply(t) && t@ == spec_out_of_turn(old(self).id),
            },
            old(self).stage matches CopyStage::AwaitSourceMeta(s, d) ==> match answer {
                CopyAnswer::SourceMeta(Err(f)) => r matches CopyStep::Reply(t) && t@ == spec_io_reply(old(self).id, f, old(self).codes),
                CopyAnswer::SourceMeta(Ok((is_file, is_dir, len))) => match spec_copy_source_refusal(is_file, is_dir) {
                    Some(m) => r matches CopyStep::Reply(t) && t@ == status_reply(old(self).id, SSH_FX_FAILURE, m),
                    None => match spec_parent(d@) {
                        None => r matches CopyStep::Reply(t) && t@ == status_reply(
                            old(self).id,
                            SSH_FX_FAILURE,
                            "Invalid destination path"@,
                        ),
                        Some(p) => (r matches CopyStep::Ask(CopyAsk::ParentExists(q)) && q@ == p)
                            && (final(self).stage matches CopyStage::AwaitParent(s2, d2, n) && s2@ == s@ && d2@ == d@ && n == len),
                    },
                },
                _ => r matches CopyStep::Reply(t) && t@ == spec_out_of_turn(old(self).id),
            },
            old(self).stage matches CopyStage::AwaitParent(s, d, len) ==> match answer {
                CopyAnswer::ParentExists(Err(f)) => r matches CopyStep::Reply(t) && t@ == spec_io_reply(old(self).id, f, old(self).codes),
                CopyAnswer::ParentExists(Ok(false)) => r matches CopyStep::Reply(t) && t@ == status_reply(
                    old(self).id,
                    SSH_FX_NO_SUCH_FILE,
                    "Destination directory does not exist"@,
                ),
                CopyAnswer::ParentExists(Ok(true)) => (r matches CopyStep::Ask(CopyAsk::DestMeta(q)) && q@ == d@)
                    && (final(self).stage matches CopyStage::AwaitDestMeta(s2, d2, n) && s2@ == s@ && d2@ == d@ && n == len),
                _ => r matches CopyStep::Reply(t) && t@ == spec_out_of_turn(old(self).id),
            },
            old(self).stage matches CopyStage::AwaitDestMeta(s, d, len) ==> match answer {
                CopyAnswer::DestMeta(Err(f)) => if f.kind == IoErrorKind::NotFound {
                    spec_copy_next(old(self).perms, s@, d@, len, r, final(self).stage)
                } else {
                    r matches CopyStep::Reply(t) && t@ == spec_io_reply(old(self).id, f, old(self).codes)
                },
                CopyAnswer::DestMeta(Ok(dst)) => match spec_copy_growth(dst, old(self).args.overwrite, len) {
                    Err(m) => r matches CopyStep::Reply(t) && t@ == status_reply(old(self).id, SSH_FX_FAILURE, m),
                    Ok(add) => spec_copy_next(old(self).perms, s@, d@, add, r, final(self).stage),
                },
                _ => r matches CopyStep::Reply(t) && t@ == spec_out_of_turn(old(self).id),
            },
            old(self).stage matches CopyStage::AwaitUsage(s, d, add) ==> match answer {
                CopyAnswer::Usage(u) => if spec_quota_allows(old(self).perms, add, u) {
                    (r matches CopyStep::Ask(CopyAsk::Copy(a, b)) && a@ == s@ && b@ == d@) && final(self).stage is AwaitCopy
                } else {
                    r matches CopyStep::Reply(t) && t@ == status_reply(old(self).id, SSH_FX_FAILURE, "Quota exceeded"@)
                },
                _ => r matches CopyStep::Reply(t) && t@ == spec_out_of_turn(old(self).id),
            },
            old(self).stage matches CopyStage::AwaitCopy(_, _) ==> match answer {
                CopyAnswer::Copied(Ok(_)) => r matches CopyStep::Reply(t) && t@ == status_reply(old(self).id, SSH_FX_OK, "OK"@),
                CopyAnswer::Copied(Err(f)) => r matches CopyStep::Reply(t) && t@ == spec_io_reply(old(self).id, f, old(self).codes),
                _ => r matches CopyStep::Reply(t) && t@ == spec_out_of_turn(old(self).id),
            },
            old(self).stage is Finished ==> (r matches CopyStep::Reply(t) && t@ == spec_out_of_turn(old(self).id)),
            r is Reply ==> final(self).stage is Finished,
    {
        let mut stage = CopyStage::Finished;
        std::mem::swap(&mut stage, &mut self.stage);
        let id = self.id;
        match stage {
            CopyStage::AwaitSource => match answer {
                CopyAnswer::Resolved(Err(e)) => CopyStep::Reply(prefixed(id, SSH_FX_FAILURE, "Source path resolution failed: ", e.as_str())),
                CopyAnswer::Resolved(Ok(s)) => {
                    self.stage = CopyStage::AwaitDest(s);
                    CopyStep::Ask(CopyAsk::Resolve(self.args.dst.clone()))
                },
                _ => CopyStep::Reply(status(id, SSH_FX_FAILURE, "Operation failed")),
            },
            CopyStage::AwaitDest(s) => match answer {
                CopyAnswer::Resolved(Err(e)) => CopyStep::Reply(
                    prefixed(id, SSH_FX_FAILURE, "Destination path resolution failed: ", e.as_str()),
                ),
                CopyAnswer::Resolved(Ok(d)) => {
                    if str_eq(d.as_str(), s.as_str()) {
                        CopyStep::Reply(status(id, SSH_FX_FAILURE, "Source and destination are the same file"))
                    } else {
                        let q = s.clone();
                        self.stage = CopyStage::AwaitSourceMeta(s, d);
                        CopyStep::Ask(CopyAsk::SourceMeta(q))
                    }
                },
                _ => CopyStep::Reply(status(id, SSH_FX_FAILURE, "Operation failed")),
            },
            CopyStage::AwaitSourceMeta(s, d) => match answer {
                CopyAnswer::SourceMeta(Err(f)) => CopyStep::Reply(io_reply(id, &f, &self.codes)),
                CopyAnswer::SourceMeta(Ok((is_file, is_dir, len))) => match copy_source_refusal(is_file, is_dir) {
                    Some(m) => CopyStep::Reply(status(id, SSH_FX_FAILURE, m)),
                    None => match parent_of(d.as_str()) {
                        None => CopyStep::Reply(status(id, SSH_FX_FAILURE, "Invalid destination path")),
                        Some(p) => {
                            self.stage = CopyStage::AwaitParent(s, d, len);
                            CopyStep::Ask(CopyAsk::ParentExists(p))
                        },
                    },
                },
                _ => CopyStep::Reply(status(id, SSH_FX_FAILURE, "Operation failed")),
            },
            CopyStage::AwaitParent(s, d, len) => match answer {
                CopyAnswer::ParentExists(Err(f)) => CopyStep::Reply(io_reply(id, &f, &self.codes)),
                CopyAnswer::ParentExists(Ok(false)) => CopyStep::Reply(
                    status(id, SSH_FX_NO_SUCH_FILE, "Destination directory does not exist"),
                ),
                CopyAnswer::ParentExists(Ok(true)) => {
                    let q = d.clone();
                    self.stage = CopyStage::AwaitDestMeta(s, d, len);
                    CopyStep::Ask(CopyAsk::DestMeta(q))
                },
                _ => CopyStep::Reply(status(id, SSH_FX_FAILURE, "Operation failed")),
            },
            CopyStage::AwaitDestMeta(s, d, len) => match answer {
                CopyAnswer::DestMeta(Err(f)) => {
                    if f.kind == IoErrorKind::NotFound {
                        self.next_after_growth(s, d, len)
                    } else {
                        CopyStep::Reply(io_reply(id, &f, &self.codes))
                    }
                },
                CopyAnswer::DestMeta(Ok(dst)) => match copy_growth(dst, self.args.overwrite, len) {
                    Err(m) => CopyStep::Reply(status(id, SSH_FX_FAILURE, m)),
                    Ok(add) => self.next_after_growth(s, d, add),
                },
                _ => CopyStep::Reply(status(id, SSH_FX_FAILURE, "Operation failed")),
            },
            CopyStage::AwaitUsage(s, d, add) => match answer {
                CopyAnswer::Usage(u) => {
                    if quota_allows(self.perms, add, u) {
                        self.stage = CopyStage::AwaitCopy(s.clone(), d.clone());
                        CopyStep::Ask(CopyAsk::Copy(s, d))
                    } else {
                        CopyStep::Reply(status(id, SSH_FX_FAILURE, "Quota exceeded"))
                    }
                },
                _ => CopyStep::Reply(status(id, SSH_FX_FAILURE, "Operation failed")),
            },
            CopyStage::AwaitCopy(_, _) => match answer {
                CopyAnswer::Copied(Ok(_)) => {
                    self.copied = true;
                    CopyStep::Reply(status(id, SSH_FX_OK, "OK"))
                },
                CopyAnswer::Copied(Err(f)) => CopyStep::Reply(io_reply(id, &f, &self.codes)),
                _ => CopyStep::Reply(status(id, SSH_FX_FAILURE, "Operation failed")),
            },
            CopyStage::Finished => CopyStep::Reply(status(id, SSH_FX_FAILURE, "Operation failed")),
        }
    }

    /// After the added bytes are known: the usage is asked for when the quota applies,
    /// else the copy goes ahead.
    fn next_after_growth(&mut self, s: String, d: String, add: u64) -> (r: CopyStep)
        ensures
            final(self).id == old(self).id,
            final(self).args == old(self).args,
            final(self).perms == old(self).perms,
            final(self).codes == old(self).codes,
            final(self).copied == old(self).copied,
            spec_copy_next(old(self).perms, s@, d@, add, r, final(self).stage),
            r is Ask,
    {
        if quota_applies(self.perms, add) {
            self.stage = CopyStage::AwaitUsage(s, d, add);
            CopyStep::Ask(CopyAsk::Usage)
        } else {
            self.stage = CopyStage::AwaitCopy(s.clone(), d.clone());
            CopyStep::Ask(CopyAsk::Copy(s, d))
        }
    }
}

/// Once the added bytes `add` are known: the home's usage is asked for when the quota
/// applies to them, else the source is copied onto the destination.
pub open spec fn spec_copy_next(perms: Option<Permissions>, s: Seq<char>, d: Seq<char>, add: u64, r: CopyStep, stage: CopyStage) -> bool {
    if spec_quota_applies(perms, add) {
        r matches CopyStep::Ask(CopyAsk::Usage) && (stage matches CopyStage::AwaitUsage(s2, d2, a2) && s2@ == s
            && d2@ == d && a2 == add)
    } else {
        (r matches CopyStep::Ask(CopyAsk::Copy(a, b)) && a@ == s && b@ == d) && stage is AwaitCopy
    }
}

} // verus!
