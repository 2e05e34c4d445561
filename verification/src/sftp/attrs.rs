//! Attributes and listings: permission changes requested by `SETSTAT`/`FSETSTAT`,
//! directory listings with their `ls -l` style long names, and the replies of the
//! `limits@openssh.com` and `statvfs@openssh.com` extensions.

use vstd::prelude::*;
use vstd::string::*;
use vstd::utf8::encode_utf8;
use crate::bytes::{be_u32_at, be_u32_bytes, be_u64_bytes, push_bytes, push_string_field, push_u32_be, push_u64_be, read_u32_be, string_field};
use crate::packet::{build_attrs, build_packet, spec_build_attrs, spec_build_packet, SSH_FX_EOF, SSH_FX_FAILURE, SSH_FX_PERMISSION_DENIED};
use crate::sftp::requests::{status, status_reply};
use crate::text::{chars_to_string, push_decimal, push_str, spec_decimal};
use crate::ftp::transfer::pad_left;
use crate::facts::{chrono_format, chrono_text};

verus! {

/// What a `SETSTAT` or `FSETSTAT` request asks of the file's permissions.
pub enum SetstatStep {
    /// Answer this status and stop.
    Reply(Vec<u8>),
    /// Set these permission bits (`None`: the request sets none).
    Apply(Option<u32>),
}

pub open spec fn setstat_view(s: SetstatStep) -> (Option<Seq<u8>>, Option<u32>) {
    match s {
        SetstatStep::Reply(r) => (Some(r@), None),
        SetstatStep::Apply(m) => (None, m),
    }
}

/// The attribute block starts at `attrs_offset` with its flags. The size (8 bytes) and
/// owner (8 bytes) fields are skipped when flagged and present; then, when the
/// permissions flag is set and 4 bytes remain, the requested mode is read. Modes with
/// set-user-id, set-group-id or sticky bits are refused; otherwise only the nine
/// access bits are applied.
pub open spec fn spec_setstat(id: u32, data: Seq<u8>, attrs_offset: int, invalid_msg: Seq<char>) -> (Option<Seq<u8>>, Option<u32>) {
    if data.len() < attrs_offset + 4 {
        (Some(status_reply(id, SSH_FX_FAILURE, invalid_msg)), None)
    } else {
        let flags = be_u32_at(data, attrs_offset);
        let o0 = attrs_offset + 4;
        let o1 = if flags & 1 != 0 && data.len() >= o0 + 8 { o0 + 8 } else { o0 };
        let o2 = if flags & 2 != 0 && data.len() >= o1 + 8 { o1 + 8 } else { o1 };
        if flags & 4 != 0 && data.len() >= o2 + 4 {
            let p = be_u32_at(data, o2);
            if p & 0o7000 != 0 {
                (
                    Some(status_reply(
                        id,
                        SSH_FX_PERMISSION_DENIED,
                        "Special permission bits (setuid/setgid/sticky) are not allowed"@,
                    )),
                    None,
                )
            } else {
                (None, Some(p & 0o777))
            }
        } else {
            (None, None)
        }
    }
}

/// Reads the attribute block of a `SETSTAT` (`invalid_msg` "Invalid SETSTAT packet") or
/// `FSETSTAT` (`invalid_msg` "Invalid FSETSTAT packet") request.
pub fn setstat_step(id: u32, data: &[u8], attrs_offset: usize, invalid_msg: &str) -> (r: SetstatStep)
    ensures
        setstat_view(r) == spec_setstat(id, data@, attrs_offset as int, invalid_msg@),
{
    if data.len() < 4 || data.len() - 4 < attrs_offset {
        return SetstatStep::Reply(status(id, SSH_FX_FAILURE, invalid_msg));
    }
    let flags = read_u32_be(data, attrs_offset);
    let o0 = attrs_offset + 4;
    let o1 = if flags & 1 != 0 && data.len() >= 8 && data.len() - 8 >= o0 { o0 + 8 } else { o0 };
    let o2 = if flags & 2 != 0 && data.len() >= 8 && data.len() - 8 >= o1 { o1 + 8 } else { o1 };
    if flags & 4 != 0 && data.len() >= 4 && data.len() - 4 >= o2 {
        let p = read_u32_be(data, o2);
        if p & 0o7000 != 0 {
            SetstatStep::Reply(
                status(id, SSH_FX_PERMISSION_DENIED, "Special permission bits (setuid/setgid/sticky) are not allowed"),
            )
        } else {
            SetstatStep::Apply(Some(p & 0o777))
        }
    } else {
        SetstatStep::Apply(None)
    }
}

/// The time of a long name: `%b %d %H:%M` of the Unix time (UTC), or of the epoch when
/// the time is out of range.
pub open spec fn longname_time_text(mtime: i64) -> Seq<char> {
    match chrono_text(mtime, 0, "%b %d %H:%M"@) {
        Some(t) => t,
        None => match chrono_text(0, 0, "%b %d %H:%M"@) {
            Some(e) => e,
            None => Seq::empty(),
        },
    }
}

fn longname_time(mtime: i64) -> (r: String)
    ensures
        r@ == longname_time_text(mtime),
{
    match chrono_format(mtime, 0, "%b %d %H:%M") {
        Some(t) => t,
        None => match chrono_format(0, 0, "%b %d %H:%M") {
            Some(e) => e,
            None => String::new(),
        },
    }
}

pub open spec fn mode_char(mode: u32, bit: u32, c: char) -> char {
    if mode & bit != 0 {
        c
    } else {
        '-'
    }
}

/// The permission column: `drwxr-xr-x` for directories, else `-` and the nine access
/// bits of `mode`.
pub open spec fn spec_perm_text(is_dir: bool, mode: u32) -> Seq<char> {
    if is_dir {
        "drwxr-xr-x"@
    } else {
        seq![
            '-',
            mode_char(mode, 0o400, 'r'),
            mode_char(mode, 0o200, 'w'),
            mode_char(mode, 0o100, 'x'),
            mode_char(mode, 0o040, 'r'),
            mode_char(mode, 0o020, 'w'),
            mode_char(mode, 0o010, 'x'),
            mode_char(mode, 0o004, 'r'),
            mode_char(mode, 0o002, 'w'),
            mode_char(mode, 0o001, 'x'),
        ]
    }
}

/// The `ls -l` style line of a directory entry.
pub open spec fn spec_longname(name: Seq<char>, is_dir: bool, size: u64, mtime: i64, mode: u32) -> Seq<char> {
    spec_perm_text(is_dir, mode) + " 1 user user "@ + pad_left(spec_decimal(size as nat), 10) + " "@
        + longname_time_text(mtime) + " "@ + name
}

fn bit_char(mode: u32, bit: u32, c: char) -> (r: char)
    ensures
        r == mode_char(mode, bit, c),
{
    if mode & bit != 0 {
        c
    } else {
        '-'
    }
}

fn push_padded_decimal(out: &mut Vec<char>, n: u64, width: usize)
    ensures
        final(out)@ == old(out)@ + pad_left(spec_decimal(n as nat), width as nat),
{
    let mut digits: Vec<char> = Vec::new();
    push_decimal(&mut digits, n);
    assert(digits@ =~= spec_decimal(n as nat));
    let ghost start = out@;
    let mut k: usize = digits.len();
    while k < width
        invariant
            digits@.len() <= k <= width || (k == digits@.len() && k >= width),
            out@ == start + Seq::new((k - digits@.len()) as nat, |i: int| ' '),
        decreases width - k,
    {
        out.push(' ');
        k = k + 1;
        assert(out@ =~= start + Seq::new((k - digits@.len()) as nat, |i: int| ' '));
    }
    let ghost padded = out@;
    let mut j: usize = 0;
    while j < digits.len()
        invariant
            j <= digits@.len(),
            out@ == padded + digits@.take(j as int),
        decreases digits.len() - j,
    {
        out.push(digits[j]);
        j = j + 1;
        assert(out@ =~= padded + digits@.take(j as int));
    }
    assert(digits@.take(digits@.len() as int) =~= digits@);
    proof {
        if digits@.len() >= width {
            assert(Seq::new(0nat, |i: int| ' ') =~= Seq::<char>::empty());
        }
        assert(out@ =~= start + pad_left(digits@, width as nat));
    }
}

pub fn format_longname(name: &str, is_dir: bool, size: u64, mtime: i64, mode: u32) -> (r: String)
    ensures
        r@ == spec_longname(name@, is_dir, size, mtime, mode),
{
    let mut out: Vec<char> = Vec::new();
    if is_dir {
        push_str(&mut out, "drwxr-xr-x");
    } else {
        out.push('-');
        out.push(bit_char(mode, 0o400, 'r'));
        out.push(bit_char(mode, 0o200, 'w'));
        out.push(bit_char(mode, 0o100, 'x'));
        out.push(bit_char(mode, 0o040, 'r'));
        out.push(bit_char(mode, 0o020, 'w'));
        out.push(bit_char(mode, 0o010, 'x'));
        out.push(bit_char(mode, 0o004, 'r'));
        out.push(bit_char(mode, 0o002, 'w'));
        out.push(bit_char(mode, 0o001, 'x'));
        assert(out@ =~= spec_perm_text(false, mode));
    }
    push_str(&mut out, " 1 user user ");
    push_padded_decimal(&mut out, size, 10);
    push_str(&mut out, " ");
    let t = longname_time(mtime);
    push_str(&mut out, t.as_str());
    push_str(&mut out, " ");
    push_str(&mut out, name);
    chars_to_string(out.as_slice())
}

/// One entry of an open directory handle.
pub struct DirEntry {
    pub name: String,
    pub is_dir: bool,
    pub size: u64,
}

/// The name, long name and attributes of one listed entry (long names use time 0 and
/// mode `0o644`).
pub open spec fn entry_fields(e: DirEntry) -> Seq<u8> {
    string_field(encode_utf8(e.name@)) + string_field(encode_utf8(spec_longname(e.name@, e.is_dir, e.size, 0, 0o644)))
        + spec_build_attrs(e.is_dir, e.size)
}

pub open spec fn entries_fields(s: Seq<DirEntry>) -> Seq<u8>
    decreases s.len(),
{
    if s.len() == 0 {
        Seq::empty()
    } else {
        entries_fields(s.drop_last()) + entry_fields(s.last())
    }
}

/// At most this many entries go into one `SSH_FXP_NAME` reply.
pub const READDIR_BATCH: usize = 100;

/// The reply to `READDIR` for a listing read up to `index`, and the new index: the
/// end-of-directory status once everything was sent, else the next (at most 100)
/// entries.
pub open spec fn spec_readdir(id: u32, entries: Seq<DirEntry>, index: int) -> (Seq<u8>, int) {
    if index >= entries.len() {
        (status_reply(id, SSH_FX_EOF, "End of directory"@), index)
    } else {
        let count = if entries.len() - index < 100 { entries.len() - index } else { 100 };
        (
            spec_build_packet(seq![104u8] + be_u32_bytes(id) + be_u32_bytes(count as u32) + entries_fields(
                entries.subrange(index, index + count),
            )),
            index + count,
        )
    }
}

pub fn readdir_reply(id: u32, entries: &Vec<DirEntry>, index: usize) -> (r: (Vec<u8>, usize))
    ensures
        (r.0@, r.1 as int) == spec_readdir(id, entries@, index as int),
{
    if index >= entries.len() {
        return (status(id, SSH_FX_EOF, "End of directory"), index);
    }
    let count = if entries.len() - index < READDIR_BATCH { entries.len() - index } else { READDIR_BATCH };
    let mut payload: Vec<u8> = Vec::new();
    payload.push(104u8);
    push_u32_be(&mut payload, id);
    push_u32_be(&mut payload, count as u32);
    let ghost head = payload@;
    let end = index + count;
    let mut i = index;
    assert(entries@.subrange(index as int, index as int) =~= Seq::<DirEntry>::empty());
    while i < end
        invariant
            end == index + count,
            index <= i <= end <= entries@.len(),
            payload@ == head + entries_fields(entries@.subrange(index as int, i as int)),
        decreases end - i,
    {
        let e = &entries[i];
        let ghost before = payload@;
        push_string_field(&mut payload, e.name.as_str().as_bytes());
        let long_name = format_longname(e.name.as_str(), e.is_dir, e.size, 0, 0o644);
        push_string_field(&mut payload, long_name.as_str().as_bytes());
        let attrs = build_attrs(e.is_dir, e.size);
        push_bytes(&mut payload, attrs.as_slice());
        assert(entries@.subrange(index as int, i + 1).drop_last() =~= entries@.subrange(index as int, i as int));
        assert(payload@ =~= before + entry_fields(entries@[i as int]));
        i = i + 1;
    }
    (build_packet(payload.as_slice()), end)
}

/// The reply to `REALPATH`: one name, the path itself, with the long name of a directory
/// of size 0 and directory attributes.
pub open spec fn spec_realpath_reply(id: u32, path: Seq<char>, mtime: i64, mode: u32) -> Seq<u8> {
    spec_build_packet(seq![104u8] + be_u32_bytes(id) + be_u32_bytes(1) + string_field(encode_utf8(path))
        + string_field(encode_utf8(spec_longname(path, true, 0, mtime, mode))) + spec_build_attrs(true, 0))
}

/// `mtime` and `mode` are those of the resolved path (0 and `0o755` when unknown).
pub fn realpath_reply(id: u32, path: &str, mtime: i64, mode: u32) -> (r: Vec<u8>)
    ensures
        r@ == spec_realpath_reply(id, path@, mtime, mode),
{
    let mut payload: Vec<u8> = Vec::new();
    payload.push(104u8);
    push_u32_be(&mut payload, id);
    push_u32_be(&mut payload, 1);
    push_string_field(&mut payload, path.as_bytes());
    let long_name = format_longname(path, true, 0, mtime, mode);
    push_string_field(&mut payload, long_name.as_str().as_bytes());
    let attrs = build_attrs(true, 0);
    push_bytes(&mut payload, attrs.as_slice());
    assert(payload@ =~= seq![104u8] + be_u32_bytes(id) + be_u32_bytes(1) + string_field(encode_utf8(path@))
        + string_field(encode_utf8(spec_longname(path@, true, 0, mtime, mode))) + spec_build_attrs(true, 0));
    build_packet(payload.as_slice())
}

/// The `limits@openssh.com` reply: packets, reads and writes of 32768 bytes, 1000
/// handles and 100 locks.
pub open spec fn spec_limits_reply(id: u32) -> Seq<u8> {
    spec_build_packet(seq![201u8] + be_u32_bytes(id) + be_u64_bytes(32768) + be_u64_bytes(32768)
        + be_u64_bytes(32768) + be_u64_bytes(1000) + be_u64_bytes(100))
}

pub fn limits_reply(id: u32) -> (r: Vec<u8>)
    ensures
        r@ == spec_limits_reply(id),
{
    let mut payload: Vec<u8> = Vec::new();
    payload.push(201u8);
    push_u32_be(&mut payload, id);
    push_u64_be(&mut payload, 32768);
    push_u64_be(&mut payload, 32768);
    push_u64_be(&mut payload, 32768);
    push_u64_be(&mut payload, 1000);
    push_u64_be(&mut payload, 100);
    assert(payload@ =~= seq![201u8] + be_u32_bytes(id) + be_u64_bytes(32768) + be_u64_bytes(32768)
        + be_u64_bytes(32768) + be_u64_bytes(1000) + be_u64_bytes(100));
    build_packet(payload.as_slice())
}

/// What `statvfs` reports of a file system.
#[derive(Clone, Copy, Debug, PartialEq, Eq, Structural)]
pub struct StatvfsInfo {
    pub block_size: u64,
    pub fragment_size: u64,
    pub blocks: u64,
    pub blocks_free: u64,
    pub blocks_available: u64,
    pub files: u64,
    pub files_free: u64,
    pub files_available: u64,
    pub filesystem_id: u64,
    pub read_only: bool,
    pub name_max: u64,
}

/// The `statvfs@openssh.com` reply: the counts in order, the read-only flag as bit 0.
pub open spec fn spec_statvfs_reply(id: u32, s: StatvfsInfo) -> Seq<u8> {
    spec_build_packet(seq![201u8] + be_u32_bytes(id) + be_u64_bytes(s.block_size) + be_u64_bytes(
        s.fragment_size,
    ) + be_u64_bytes(s.blocks) + be_u64_bytes(s.blocks_free) + be_u64_bytes(s.blocks_available)
        + be_u64_bytes(s.files) + be_u64_bytes(s.files_free) + be_u64_bytes(s.files_available)
        + be_u64_bytes(s.filesystem_id) + be_u64_bytes(if s.read_only { 1 } else { 0 })
        + be_u64_bytes(s.name_max))
}

pub fn build_statvfs_reply(id: u32, s: &StatvfsInfo) -> (r: Vec<u8>)
    ensures
        r@ == spec_statvfs_reply(id, *s),
{
    let mut payload: Vec<u8> = Vec::new();
    payload.push(201u8);
    push_u32_be(&mut payload, id);
    push_u64_be(&mut payload, s.block_size);
    push_u64_be(&mut payload, s.fragment_size);
    push_u64_be(&mut payload, s.blocks);
    push_u64_be(&mut payload, s.blocks_free);
    push_u64_be(&mut payload, s.blocks_available);
    push_u64_be(&mut payload, s.files);
    push_u64_be(&mut payload, s.files_free);
    push_u64_be(&mut payload, s.files_available);
    push_u64_be(&mut payload, s.filesystem_id);
    push_u64_be(&mut payload, if s.read_only { 1 } else { 0 });
    push_u64_be(&mut payload, s.name_max);
    assert(payload@ =~= seq![201u8] + be_u32_bytes(id) + be_u64_bytes(s.block_size) + be_u64_bytes(
        s.fragment_size,
    ) + be_u64_bytes(s.blocks) + be_u64_bytes(s.blocks_free) + be_u64_bytes(s.blocks_available)
        + be_u64_bytes(s.files) + be_u64_bytes(s.files_free) + be_u64_bytes(s.files_available)
        + be_u64_bytes(s.filesystem_id) + be_u64_bytes(if s.read_only { 1 } else { 0 })
        + be_u64_bytes(s.name_max));
    build_packet(payload.as_slice())
}

} // verus!
