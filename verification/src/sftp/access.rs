//! What a user may do, how files are opened for a request, and the quota check of
//! writes.

use vstd::prelude::*;
use crate::bytes::{be_u32_at, be_u64_at, copy_range};
use crate::packet::{
    parse_string_checked, parse_u32_checked, parse_u64_checked, string_bytes_at, string_fits,
    PacketError, SSH_FX_FAILURE, SSH_FX_PERMISSION_DENIED,
};
use crate::sftp::requests::{status, status_reply};
use crate::text::utf8_lossy;

verus! {

/// A user's permissions, as the user store keeps them.
#[derive(Clone, Copy, Debug, PartialEq, Eq, Structural)]
pub struct Permissions {
    pub can_read: bool,
    pub can_write: bool,
    pub can_append: bool,
    pub can_delete: bool,
    pub can_list: bool,
    pub can_mkdir: bool,
    pub can_rmdir: bool,
    pub can_rename: bool,
    pub quota_mb: Option<u64>,
    pub speed_limit_kbps: Option<u64>,
}

/// The permissions a request may need.
#[derive(Clone, Copy, Debug, PartialEq, Eq, Structural)]
pub enum Permission {
    Read,
    Write,
    Append,
    Delete,
    List,
    Mkdir,
    Rmdir,
    Rename,
}

/// Whether a user's permissions include one.
pub open spec fn grants(p: Permissions, need: Permission) -> bool {
    match need {
        Permission::Read => p.can_read,
        Permission::Write => p.can_write,
        Permission::Append => p.can_append,
        Permission::Delete => p.can_delete,
        Permission::List => p.can_list,
        Permission::Mkdir => p.can_mkdir,
        Permission::Rmdir => p.can_rmdir,
        Permission::Rename => p.can_rename,
    }
}

/// Whether a user's permissions include one.
pub fn grants_permission(p: &Permissions, need: Permission) -> (r: bool)
    ensures
        r == grants(*p, need),
{
    match need {
        Permission::Read => p.can_read,
        Permission::Write => p.can_write,
        Permission::Append => p.can_append,
        Permission::Delete => p.can_delete,
        Permission::List => p.can_list,
        Permission::Mkdir => p.can_mkdir,
        Permission::Rmdir => p.can_rmdir,
        Permission::Rename => p.can_rename,
    }
}

/// An SFTP request is allowed when the session user's permissions are known (`None`:
/// no user, or the user is not in the store) and include what it needs.
pub fn check_permission(perms: Option<Permissions>, need: Permission) -> (r: bool)
    ensures
        r == (perms matches Some(p) && grants(p, need)),
{
    match perms {
        Some(p) => grants_permission(&p, need),
        None => false,
    }
}

pub const SSH_FXF_READ: u32 = 0x1;
pub const SSH_FXF_WRITE: u32 = 0x2;
pub const SSH_FXF_APPEND: u32 = 0x4;
pub const SSH_FXF_CREAT: u32 = 0x8;
pub const SSH_FXF_TRUNC: u32 = 0x10;
pub const SSH_FXF_EXCL: u32 = 0x20;

pub open spec fn has_flag(pflags: u32, f: u32) -> bool {
    pflags & f != 0
}

/// Whether the open flags are allowed: reading needs read permission, writing write
/// permission, appending append permission. Without known permissions nothing is.
pub open spec fn spec_open_permitted(perms: Option<Permissions>, pflags: u32) -> bool {
    match perms {
        None => false,
        Some(p) => (!has_flag(pflags, SSH_FXF_READ) || p.can_read) && (!has_flag(pflags, SSH_FXF_WRITE)
            || p.can_write) && (!has_flag(pflags, SSH_FXF_APPEND) || p.can_append),
    }
}

pub fn open_permitted(perms: Option<Permissions>, pflags: u32) -> (r: bool)
    ensures
        r == spec_open_permitted(perms, pflags),
{
    match perms {
        None => false,
        Some(p) => (pflags & SSH_FXF_READ == 0 || p.can_read) && (pflags & SSH_FXF_WRITE == 0
            || p.can_write) && (pflags & SSH_FXF_APPEND == 0 || p.can_append),
    }
}

/// A parsed `SSH_FXP_OPEN` request.
pub struct OpenRequest {
    pub id: u32,
    pub path: String,
    pub pflags: u32,
}

pub enum OpenParse {
    Request(OpenRequest),
    /// A request without its flags, answered with a status.
    Reply(Vec<u8>),
}

/// How an open request is read: the id at 1 and the path at 5 must be there (else the
/// packet is an error); then the flags must follow the path.
pub fn parse_open(data: &[u8]) -> (r: Result<OpenParse, PacketError>)
    ensures
        data@.len() < 9 ==> r is Err,
        5 <= data@.len() && !string_fits(data@, 5) ==> r is Err,
        data@.len() >= 9 && string_fits(data@, 5) ==> r is Ok,
        r matches Ok(OpenParse::Request(q)) ==> write_offset_pos(data@) + 4 <= data@.len() && q.id == be_u32_at(
            data@,
            1,
        ) && q.path@ == utf8_lossy(string_bytes_at(data@, 5)) && q.pflags == be_u32_at(data@, write_offset_pos(data@)),
        r matches Ok(OpenParse::Reply(t)) ==> write_offset_pos(data@) + 4 > data@.len() && t@ == status_reply(
            be_u32_at(data@, 1),
            SSH_FX_FAILURE,
            "Invalid packet: missing pflags"@,
        ),
{
    let id = match parse_u32_checked(data, 1) {
        Ok(v) => v,
        Err(e) => {
            return Err(e);
        },
    };
    let (path, path_len) = match parse_string_checked(data, 5) {
        Ok(v) => v,
        Err(e) => {
            return Err(e);
        },
    };
    assert(string_fits(data@, 5));
    assert(9 + path_len <= data.len());
    let pos = 9 + path_len;
    if data.len() - pos < 4 {
        return Ok(OpenParse::Reply(status(id, SSH_FX_FAILURE, "Invalid packet: missing pflags")));
    }
    let pflags = match parse_u32_checked(data, pos) {
        Ok(v) => v,
        Err(e) => {
            return Err(e);
        },
    };
    Ok(OpenParse::Request(OpenRequest { id, path, pflags }))
}

/// The `OpenOptions` a request's flags translate to.
#[derive(Clone, Copy, Debug, PartialEq, Eq, Structural)]
pub struct OpenPlan {
    pub read: bool,
    pub write: bool,
    pub create_new: bool,
    pub create: bool,
    pub truncate: bool,
    pub append: bool,
    /// Whether the file is taken to exist before: not when it must be created anew.
    pub existed: bool,
}

/// Without the write flag the file is opened for reading only. With it: exclusive
/// creation when `EXCL` and `CREAT`; else creation with truncation when `TRUNC` and
/// `CREAT`; else appending (creating when `CREAT`) when `APPEND`; else creation when
/// `CREAT`; reading as well when `READ`.
pub open spec fn spec_open_plan(pflags: u32) -> OpenPlan {
    let read = has_flag(pflags, SSH_FXF_READ);
    let write = has_flag(pflags, SSH_FXF_WRITE);
    let append = has_flag(pflags, SSH_FXF_APPEND);
    let creat = has_flag(pflags, SSH_FXF_CREAT);
    let trunc = has_flag(pflags, SSH_FXF_TRUNC);
    let excl = has_flag(pflags, SSH_FXF_EXCL);
    let existed = !excl || !creat;
    if !write {
        OpenPlan { read: true, write: false, create_new: false, create: false, truncate: false, append: false, existed }
    } else if excl && creat {
        OpenPlan { read, write: true, create_new: true, create: false, truncate: false, append: false, existed }
    } else if trunc && creat {
        OpenPlan { read, write: true, create_new: false, create: true, truncate: true, append: false, existed }
    } else if append {
        OpenPlan { read, write: true, create_new: false, create: creat, truncate: false, append: true, existed }
    } else {
        OpenPlan { read, write: true, create_new: false, create: creat, truncate: false, append: false, existed }
    }
}

pub fn open_plan(pflags: u32) -> (r: OpenPlan)
    ensures
        r == spec_open_plan(pflags),
{
    let read = pflags & SSH_FXF_READ != 0;
    let write = pflags & SSH_FXF_WRITE != 0;
    let append = pflags & SSH_FXF_APPEND != 0;
    let creat = pflags & SSH_FXF_CREAT != 0;
    let trunc = pflags & SSH_FXF_TRUNC != 0;
    let excl = pflags & SSH_FXF_EXCL != 0;
    let existed = !excl || !creat;
    if !write {
        OpenPlan { read: true, write: false, create_new: false, create: false, truncate: false, append: false, existed }
    } else if excl && creat {
        OpenPlan { read, write: true, create_new: true, create: false, truncate: false, append: false, existed }
    } else if trunc && creat {
        OpenPlan { read, write: true, create_new: false, create: true, truncate: true, append: false, existed }
    } else if append {
        OpenPlan { read, write: true, create_new: false, create: creat, truncate: false, append: true, existed }
    } else {
        OpenPlan { read, write: true, create_new: false, create: creat, truncate: false, append: false, existed }
    }
}

/// A parsed `SSH_FXP_WRITE` request. The bytes to write are `data[data_start..][..len]`
/// of the packet.
pub struct WriteRequest {
    pub id: u32,
    pub handle: String,
    pub offset: u64,
    pub data_start: usize,
    pub len: usize,
}

/// What reading a write request leads to.
pub enum WriteParse {
    Request(WriteRequest),
    /// A malformed request answered with a status.
    Reply(Vec<u8>),
}

pub open spec fn write_offset_pos(data: Seq<u8>) -> int {
    5 + 4 + be_u32_at(data, 5)
}

/// How a write request is read: the id at 1 and the handle at 5 must be there (else
/// the packet is an error); then offset and length must fit, then the data.
pub open spec fn spec_write_parse_ok(data: Seq<u8>) -> bool {
    &&& 5 <= data.len()
    &&& string_fits(data, 5)
    &&& write_offset_pos(data) + 12 <= data.len()
    &&& write_offset_pos(data) + 12 + be_u32_at(data, write_offset_pos(data) + 8) <= data.len()
}

impl WriteRequest {
    pub open spec fn matches(&self, data: Seq<u8>) -> bool {
        let p = write_offset_pos(data);
        &&& self.id == be_u32_at(data, 1)
        &&& self.handle@ == utf8_lossy(string_bytes_at(data, 5))
        &&& self.offset == be_u64_at(data, p)
        &&& self.len == be_u32_at(data, p + 8)
        &&& self.data_start == p + 12
    }
}

pub fn parse_write(data: &[u8]) -> (r: Result<WriteParse, PacketError>)
    ensures
        data@.len() < 9 ==> r is Err,
        5 <= data@.len() && !string_fits(data@, 5) ==> r is Err,
        data@.len() >= 9 && string_fits(data@, 5) ==> r is Ok,
        r matches Ok(WriteParse::Request(w)) ==> spec_write_parse_ok(data@) && w.matches(data@),
        r matches Ok(WriteParse::Reply(t)) ==> {
            &&& !spec_write_parse_ok(data@)
            &&& (write_offset_pos(data@) + 12 > data@.len() ==> t@ == status_reply(
                be_u32_at(data@, 1),
                SSH_FX_FAILURE,
                "Invalid packet: too short for write"@,
            ))
            &&& (write_offset_pos(data@) + 12 <= data@.len() ==> t@ == status_reply(
                be_u32_at(data@, 1),
                SSH_FX_FAILURE,
                "Invalid packet: write data truncated"@,
            ))
        },
        data@.len() >= 9 && string_fits(data@, 5) && spec_write_parse_ok(data@) ==> r matches Ok(
            WriteParse::Request(_),
        ),
{
    let id = match parse_u32_checked(data, 1) {
        Ok(v) => v,
        Err(e) => {
            return Err(e);
        },
    };
    let parsed = parse_string_checked(data, 5);
    let (handle, handle_len) = match parsed {
        Ok(v) => v,
        Err(e) => {
            return Err(e);
        },
    };
    assert(string_fits(data@, 5));
    assert(handle_len == be_u32_at(data@, 5));
    assert(9 + be_u32_at(data@, 5) <= data@.len());
    assert(9 + handle_len <= data.len());
    let offset_pos = 9 + handle_len;
    if data.len() < 12 || data.len() - 12 < offset_pos {
        return Ok(WriteParse::Reply(status(id, SSH_FX_FAILURE, "Invalid packet: too short for write")));
    }
    let offset = match parse_u64_checked(data, offset_pos) {
        Ok(v) => v,
        Err(e) => {
            return Err(e);
        },
    };
    let len = match parse_u32_checked(data, offset_pos + 8) {
        Ok(v) => v as usize,
        Err(e) => {
            return Err(e);
        },
    };
    let data_start = offset_pos + 12;
    if data.len() - data_start < len {
        return Ok(WriteParse::Reply(status(id, SSH_FX_FAILURE, "Invalid packet: write data truncated")));
    }
    Ok(WriteParse::Request(WriteRequest { id, handle, offset, data_start, len }))
}

/// A parsed `SSH_FXP_READ` request.
pub struct ReadRequest {
    pub id: u32,
    pub handle: String,
    pub offset: u64,
    pub len: u32,
}

/// What reading a read request leads to.
pub enum ReadParse {
    Request(ReadRequest),
    /// A request too short for its offset and length, answered with a status.
    Reply(Vec<u8>),
}

impl ReadRequest {
    pub open spec fn matches(&self, data: Seq<u8>) -> bool {
        let p = write_offset_pos(data);
        &&& self.id == be_u32_at(data, 1)
        &&& self.handle@ == utf8_lossy(string_bytes_at(data, 5))
        &&& self.offset == be_u64_at(data, p)
        &&& self.len == be_u32_at(data, p + 8)
    }
}

/// How a read request is read: the id at 1 and the handle at 5 must be there (else the
/// packet is an error); then offset and length must fit.
pub fn parse_read(data: &[u8]) -> (r: Result<ReadParse, PacketError>)
    ensures
        data@.len() < 9 ==> r is Err,
        5 <= data@.len() && !string_fits(data@, 5) ==> r is Err,
        data@.len() >= 9 && string_fits(data@, 5) ==> r is Ok,
        r matches Ok(ReadParse::Request(q)) ==> write_offset_pos(data@) + 12 <= data@.len() && q.matches(
            data@,
        ),
        r matches Ok(ReadParse::Reply(t)) ==> write_offset_pos(data@) + 12 > data@.len() && t@
            == status_reply(be_u32_at(data@, 1), SSH_FX_FAILURE, "Invalid packet: too short for read"@),
{
    let id = match parse_u32_checked(data, 1) {
        Ok(v) => v,
        Err(e) => {
            return Err(e);
        },
    };
    let (handle, handle_len) = match parse_string_checked(data, 5) {
        Ok(v) => v,
        Err(e) => {
            return Err(e);
        },
    };
    assert(string_fits(data@, 5));
    assert(9 + handle_len <= data.len());
    let offset_pos = 9 + handle_len;
    if data.len() < 12 || data.len() - 12 < offset_pos {
        return Ok(ReadParse::Reply(status(id, SSH_FX_FAILURE, "Invalid packet: too short for read")));
    }
    let offset = match parse_u64_checked(data, offset_pos) {
        Ok(v) => v,
        Err(e) => {
            return Err(e);
        },
    };
    let len = match parse_u32_checked(data, offset_pos + 8) {
        Ok(v) => v,
        Err(e) => {
            return Err(e);
        },
    };
    Ok(ReadParse::Request(ReadRequest { id, handle, offset, len }))
}

/// At most 32 KiB are read for one request.
pub const MAX_READ_CHUNK: u32 = 32768;

/// How many bytes to read for a request of `len` bytes.
pub fn read_chunk_len(len: u32) -> (r: u32)
    ensures
        r == if len < MAX_READ_CHUNK { len } else { MAX_READ_CHUNK },
{
    if len < MAX_READ_CHUNK {
        len
    } else {
        MAX_READ_CHUNK
    }
}

/// What closing a handle, or finishing an upload, records in the audit log.
#[derive(Clone, Copy, Debug, PartialEq, Eq, Structural)]
pub enum UploadRecord {
    Nothing,
    /// A new file was written.
    Upload,
    /// A file that existed before was written.
    Update,
}

/// A file handle that received data is recorded when it is closed: as an update of a
/// file that existed before it was opened, else as an upload. Directory handles and
/// handles nothing was written to are not recorded.
pub fn close_record(is_dir: bool, written_bytes: u64, existed: bool) -> (r: UploadRecord)
    ensures
        r == if is_dir || written_bytes == 0 {
            UploadRecord::Nothing
        } else if existed {
            UploadRecord::Update
        } else {
            UploadRecord::Upload
        },
{
    if is_dir || written_bytes == 0 {
        UploadRecord::Nothing
    } else if existed {
        UploadRecord::Update
    } else {
        UploadRecord::Upload
    }
}

/// The permission a write at `offset` needs: appending past the start needs append
/// permission, a write at the start write permission. `None`: allowed.
pub open spec fn spec_write_refusal(perms: Option<Permissions>, offset: u64) -> Option<Seq<char>> {
    if offset > 0 {
        if perms matches Some(p) && p.can_append {
            None
        } else {
            Some("Permission denied (append)"@)
        }
    } else {
        if perms matches Some(p) && p.can_write {
            None
        } else {
            Some("Permission denied"@)
        }
    }
}

pub fn write_refusal(perms: Option<Permissions>, id: u32, offset: u64) -> (r: Option<Vec<u8>>)
    ensures
        match spec_write_refusal(perms, offset) {
            None => r is None,
            Some(m) => r matches Some(t) && t@ == status_reply(id, SSH_FX_PERMISSION_DENIED, m),
        },
{
    if offset > 0 {
        match perms {
            Some(p) => if p.can_append {
                return None;
            },
            None => {},
        }
        Some(status(id, SSH_FX_PERMISSION_DENIED, "Permission denied (append)"))
    } else {
        match perms {
            Some(p) => if p.can_write {
                return None;
            },
            None => {},
        }
        Some(status(id, SSH_FX_PERMISSION_DENIED, "Permission denied"))
    }
}

pub open spec fn sat_add(a: u64, b: u64) -> u64 {
    if a + b > u64::MAX {
        u64::MAX
    } else {
        (a + b) as u64
    }
}

pub open spec fn sat_sub(a: u64, b: u64) -> u64 {
    if a >= b {
        (a - b) as u64
    } else {
        0
    }
}

pub open spec fn sat_mul(a: u64, b: u64) -> u64 {
    if a * b > u64::MAX {
        u64::MAX
    } else {
        (a * b) as u64
    }
}

/// Bytes a write adds to the file: how far it reaches past the file's current length.
pub fn additional_bytes(current_len: u64, offset: u64, len: u64) -> (r: u64)
    ensures
        r == sat_sub(sat_add(offset, len), current_len),
{
    offset.saturating_add(len).saturating_sub(current_len)
}

/// Whether `additional` more bytes fit in the user's quota, the home directory now
/// using `usage` bytes: always when nothing is added or no positive quota is set;
/// otherwise the new usage (saturating) must not exceed the quota in bytes
/// (saturating).
pub open spec fn spec_quota_allows(perms: Option<Permissions>, additional: u64, usage: u64) -> bool {
    if additional == 0 {
        true
    } else {
        match perms {
            Some(p) => match p.quota_mb {
                Some(q) => if q > 0 {
                    sat_add(usage, additional) <= sat_mul(q, 1048576u64)
                } else {
                    true
                },
                None => true,
            },
            None => true,
        }
    }
}

/// Whether the quota must be looked up at all (the usage is only needed then).
pub open spec fn spec_quota_applies(perms: Option<Permissions>, additional: u64) -> bool {
    &&& additional != 0
    &&& perms is Some
    &&& perms->0.quota_mb is Some
    &&& perms->0.quota_mb->0 > 0
}

pub fn quota_applies(perms: Option<Permissions>, additional: u64) -> (r: bool)
    ensures
        r == spec_quota_applies(perms, additional),
{
    if additional == 0 {
        return false;
    }
    match perms {
        Some(p) => match p.quota_mb {
            Some(q) => q > 0,
            None => false,
        },
        None => false,
    }
}

pub fn quota_allows(perms: Option<Permissions>, additional: u64, usage: u64) -> (r: bool)
    ensures
        r == spec_quota_allows(perms, additional, usage),
{
    if additional == 0 {
        return true;
    }
    match perms {
        Some(p) => match p.quota_mb {
            Some(q) => if q > 0 {
                let cap: u64 = if q > u64::MAX / 1048576 {
                    assert(q * 1048576 > u64::MAX) by (nonlinear_arith)
                        requires
                            q > u64::MAX / 1048576,
                    ;
                    u64::MAX
                } else {
                    assert(q * 1048576 <= u64::MAX) by (nonlinear_arith)
                        requires
                            q <= u64::MAX / 1048576,
                    ;
                    q * 1048576
                };
                usage.saturating_add(additional) <= cap
            } else {
                true
            },
            None => true,
        },
        None => true,
    }
}

/// The speed limit of an SFTP session: the user's limit when positive.
pub fn session_speed_limit(perms: Option<Permissions>) -> (r: Option<u64>)
    ensures
        r == match perms {
            Some(p) => match p.speed_limit_kbps {
                Some(l) => if l > 0 {
                    Some(l)
                } else {
                    None::<u64>
                },
                None => None::<u64>,
            },
            None => None::<u64>,
        },
{
    match perms {
        Some(p) => match p.speed_limit_kbps {
            Some(l) => if l > 0 {
                Some(l)
            } else {
                None
            },
            None => None,
        },
        None => None,
    }
}

} // verus!
