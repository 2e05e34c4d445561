//! The order in which SFTP requests on paths and open handles are decided: what is
//! read from the packet, which permission is checked, when the path is resolved or the
//! handle looked up and the file system asked, and which reply each outcome gets.

use vstd::prelude::*;
use crate::bytes::be_u32_at;
use crate::packet::{
    build_data_packet, spec_build_packet, spec_data_payload, SSH_FX_EOF, parse_string_checked, parse_u32_checked, string_bytes_at, string_fits, PacketError, SSH_FX_FAILURE, SSH_FX_OK,
    SSH_FX_PERMISSION_DENIED,
};
use crate::text::{chars_to_string, push_str, utf8_lossy};
use crate::sftp::requests::{status, status_reply};
use crate::sftp::access::{
    check_permission, close_record, grants, parse_read, UploadRecord, parse_write, read_chunk_len, ReadParse, ReadRequest, MAX_READ_CHUNK, spec_write_parse_ok, spec_write_refusal, write_refusal, Permission,
    Permissions, WriteParse, WriteRequest,
};
use crate::sftp::extended::HandleTarget;
use crate::sftp::handles::{HandleTable, HandleView};

verus! {

/// Requests that act on one path.
#[derive(Clone, Copy, Debug, PartialEq, Eq, Structural)]
pub enum PathOp {
    /// `SSH_FXP_REMOVE`: remove a file.
    Remove,
    /// `SSH_FXP_MKDIR`: create a directory, with its parents.
    Mkdir,
    /// `SSH_FXP_RMDIR`: remove a directory, with what it holds.
    Rmdir,
}

pub open spec fn op_permission(op: PathOp) -> Permission {
    match op {
        PathOp::Remove => Permission::Delete,
        PathOp::Mkdir => Permission::Mkdir,
        PathOp::Rmdir => Permission::Rmdir,
    }
}

/// How a path request goes on.
pub enum PathStep {
    Reply(Vec<u8>),
    /// Resolve this client path for the request with this id.
    Resolve(u32, String),
}

/// A path request: the id at 1 and the path at 5 must be readable (else the packet is
/// an error); without the permission the operation needs it is refused; otherwise the
/// path is resolved.
pub fn path_request_step(op: PathOp, data: &[u8], perms: Option<Permissions>) -> (r: Result<PathStep, PacketError>)
    ensures
        (data@.len() < 5 || !string_fits(data@, 5)) ==> r is Err,
        data@.len() >= 5 && string_fits(data@, 5) ==> match r {
            Err(_) => false,
            Ok(PathStep::Reply(t)) => !(perms matches Some(p) && grants(p, op_permission(op))) && t@ == status_reply(
                be_u32_at(data@, 1),
                SSH_FX_PERMISSION_DENIED,
                "Permission denied"@,
            ),
            Ok(PathStep::Resolve(id, path)) => (perms matches Some(p) && grants(p, op_permission(op))) && id == be_u32_at(
                data@,
                1,
            ) && path@ == utf8_lossy(string_bytes_at(data@, 5)),
        },
{
    let id = match parse_u32_checked(data, 1) {
        Ok(v) => v,
        Err(e) => {
            return Err(e);
        },
    };
    let path = match parse_string_checked(data, 5) {
        Ok((p, _)) => p,
        Err(e) => {
            return Err(e);
        },
    };
    let need = match op {
        PathOp::Remove => Permission::Delete,
        PathOp::Mkdir => Permission::Mkdir,
        PathOp::Rmdir => Permission::Rmdir,
    };
    if !check_permission(perms, need) {
        return Ok(PathStep::Reply(status(id, SSH_FX_PERMISSION_DENIED, "Permission denied")));
    }
    Ok(PathStep::Resolve(id, path))
}

/// The status after the path was resolved (`Err`: the reason it could not be) and,
/// when it was, the operation carried out (`outcome`, with the error's text when it
/// failed): `OK`, or a failure naming what went wrong.
pub open spec fn spec_path_outcome(
    op: PathOp,
    id: u32,
    resolved: Result<Seq<char>, Seq<char>>,
    outcome: Result<(), Seq<char>>,
) -> Seq<u8> {
    match resolved {
        Err(e) => status_reply(id, SSH_FX_FAILURE, "Path resolution failed: "@ + e),
        Ok(full) => match outcome {
            Ok(()) => status_reply(id, SSH_FX_OK, "OK"@),
            Err(e) => match op {
                PathOp::Remove => status_reply(id, SSH_FX_FAILURE, "Failed to remove file: "@ + e),
                PathOp::Mkdir => status_reply(
                    id,
                    SSH_FX_FAILURE,
                    "Failed to create directory: "@ + e + " (path: "@ + full + ")"@,
                ),
                PathOp::Rmdir => status_reply(id, SSH_FX_FAILURE, "Failed to remove directory"@),
            },
        },
    }
}

fn message(a: &str, b: &str) -> (r: String)
    ensures
        r@ == a@ + b@,
{
    let mut out: Vec<char> = Vec::new();
    push_str(&mut out, a);
    push_str(&mut out, b);
    chars_to_string(out.as_slice())
}

/// The status of a path request once its path was resolved and, when it was, the
/// operation carried out (see `spec_path_outcome`).
pub fn path_outcome(op: PathOp, id: u32, resolved: Result<&str, &str>, outcome: Result<(), &str>) -> (r: Vec<u8>)
    ensures
        r@ == spec_path_outcome(
            op,
            id,
            match resolved { Ok(p) => Ok(p@), Err(e) => Err(e@) },
            match outcome { Ok(()) => Ok(()), Err(e) => Err(e@) },
        ),
{
    match resolved {
        Err(e) => {
            let m = message("Path resolution failed: ", e);
            status(id, SSH_FX_FAILURE, m.as_str())
        },
        Ok(full) => match outcome {
            Ok(()) => status(id, SSH_FX_OK, "OK"),
            Err(e) => match op {
                PathOp::Remove => {
                    let m = message("Failed to remove file: ", e);
                    status(id, SSH_FX_FAILURE, m.as_str())
                },
                PathOp::Mkdir => {
                    let mut out: Vec<char> = Vec::new();
                    push_str(&mut out, "Failed to create directory: ");
                    push_str(&mut out, e);
                    push_str(&mut out, " (path: ");
                    push_str(&mut out, full);
                    push_str(&mut out, ")");
                    let m = chars_to_string(out.as_slice());
                    status(id, SSH_FX_FAILURE, m.as_str())
                },
                PathOp::Rmdir => status(id, SSH_FX_FAILURE, "Failed to remove directory"),
            },
        },
    }
}

/// How a write request goes on.
pub enum WriteStep {
    Reply(Vec<u8>),
    /// Write `data[data_start..][..len]` of the packet at the offset through the handle.
    Write(WriteRequest),
}

/// A write request, in order: the id and the handle must be readable (else the packet
/// is an error); a short or truncated request is refused; then the permission (to
/// append at a positive offset, to write at zero); then the handle must name an open
/// file.
pub fn write_step(data: &[u8], perms: Option<Permissions>, table: &HandleTable) -> (r: Result<WriteStep, PacketError>)
    requires
        table.wf(),
    ensures
        data@.len() < 9 || (5 <= data@.len() && !string_fits(data@, 5)) ==> r is Err,
        r matches Ok(WriteStep::Write(w)) ==> {
            &&& spec_write_parse_ok(data@)
            &&& w.matches(data@)
            &&& spec_write_refusal(perms, w.offset) is None
            &&& (table.handles().get(w.handle@) matches Some(h) && !h.is_dir)
        },
        r matches Ok(WriteStep::Reply(t)) ==> (spec_write_parse_ok(data@) ==> ({
            let id = be_u32_at(data@, 1);
            let w_off = crate::bytes::be_u64_at(data@, crate::sftp::access::write_offset_pos(data@));
            let handle = utf8_lossy(string_bytes_at(data@, 5));
            match spec_write_refusal(perms, w_off) {
                Some(m) => t@ == status_reply(id, SSH_FX_PERMISSION_DENIED, m),
                None => !(table.handles().get(handle) matches Some(h) && !h.is_dir) && t@ == status_reply(
                    id,
                    SSH_FX_FAILURE,
                    "Invalid handle"@,
                ),
            }
        })),
        data@.len() >= 9 && string_fits(data@, 5) ==> r is Ok,
{
    let w = match parse_write(data) {
        Err(e) => {
            return Err(e);
        },
        Ok(WriteParse::Reply(t)) => {
            return Ok(WriteStep::Reply(t));
        },
        Ok(WriteParse::Request(w)) => w,
    };
    match write_refusal(perms, w.id, w.offset) {
        Some(t) => {
            return Ok(WriteStep::Reply(t));
        },
        None => {},
    }
    match table.target(w.handle.as_str()) {
        HandleTarget::File => Ok(WriteStep::Write(w)),
        _ => Ok(WriteStep::Reply(status(w.id, SSH_FX_FAILURE, "Invalid handle"))),
    }
}

/// The bytes of a write went to the file: they are counted on the handle and `OK`
/// answered.
pub fn write_done(table: &mut HandleTable, w: &WriteRequest) -> (r: Vec<u8>)
    requires
        old(table).wf(),
        old(table).handles().contains_key(w.handle@) ==> old(table).handles()[w.handle@].written_bytes + w.len <= u64::MAX,
    ensures
        final(table).wf(),
        final(table).handles() == (match old(table).handles().get(w.handle@) {
            Some(h) => old(table).handles().insert(
                w.handle@,
                HandleView { written_bytes: (h.written_bytes + w.len) as u64, ..h },
            ),
            None => old(table).handles(),
        }),
        r@ == status_reply(w.id, SSH_FX_OK, "OK"@),
{
    table.add_written(w.handle.as_str(), w.len as u64);
    status(w.id, SSH_FX_OK, "OK")
}

/// How a read request goes on.
pub enum ReadStep {
    Reply(Vec<u8>),
    /// Read at most this many bytes at the request's offset through its handle.
    Read(ReadRequest, u32),
}

/// A read request, in order: the id and the handle must be readable (else the packet
/// is an error); a short request is refused; then the read permission; then the handle
/// must name an open file; then at most 32 KiB are read.
pub fn read_step(data: &[u8], perms: Option<Permissions>, table: &HandleTable) -> (r: Result<ReadStep, PacketError>)
    requires
        table.wf(),
    ensures
        data@.len() < 9 || (5 <= data@.len() && !string_fits(data@, 5)) ==> r is Err,
        data@.len() >= 9 && string_fits(data@, 5) ==> r is Ok,
        r matches Ok(ReadStep::Read(q, n)) ==> {
            &&& q.matches(data@)
            &&& (perms matches Some(p) && p.can_read)
            &&& (table.handles().get(q.handle@) matches Some(h) && !h.is_dir)
            &&& n == if q.len < MAX_READ_CHUNK { q.len } else { MAX_READ_CHUNK }
        },
        r matches Ok(ReadStep::Reply(t)) ==> (crate::sftp::access::write_offset_pos(data@) + 12 <= data@.len() ==> ({
            let id = be_u32_at(data@, 1);
            let handle = utf8_lossy(string_bytes_at(data@, 5));
            if !(perms matches Some(p) && p.can_read) {
                t@ == status_reply(id, SSH_FX_PERMISSION_DENIED, "Permission denied"@)
            } else {
                !(table.handles().get(handle) matches Some(h) && !h.is_dir) && t@ == status_reply(
                    id,
                    SSH_FX_FAILURE,
                    "Invalid handle"@,
                )
            }
        })),
{
    let q = match parse_read(data) {
        Err(e) => {
            return Err(e);
        },
        Ok(ReadParse::Reply(t)) => {
            return Ok(ReadStep::Reply(t));
        },
        Ok(ReadParse::Request(q)) => q,
    };
    if !check_permission(perms, Permission::Read) {
        return Ok(ReadStep::Reply(status(q.id, SSH_FX_PERMISSION_DENIED, "Permission denied")));
    }
    match table.target(q.handle.as_str()) {
        HandleTarget::File => {
            let n = read_chunk_len(q.len);
            Ok(ReadStep::Read(q, n))
        },
        _ => Ok(ReadStep::Reply(status(q.id, SSH_FX_FAILURE, "Invalid handle"))),
    }
}

/// What reading through a handle came to.
pub enum ReadOutcome {
    SeekFailed,
    ReadFailed,
    /// The bytes read; none at the end of the file.
    Bytes(Vec<u8>),
}

/// The reply to a read: a failure for a failed seek or read, `EOF` when nothing was
/// left, else the bytes read, which are counted on the handle.
pub fn read_done(table: &mut HandleTable, q: &ReadRequest, outcome: ReadOutcome) -> (r: Vec<u8>)
    requires
        old(table).wf(),
        outcome matches ReadOutcome::Bytes(b) ==> (old(table).handles().contains_key(q.handle@)
            ==> old(table).handles()[q.handle@].read_bytes + b@.len() <= u64::MAX),
    ensures
        final(table).wf(),
        match outcome {
            ReadOutcome::SeekFailed => r@ == status_reply(q.id, SSH_FX_FAILURE, "Seek failed"@) && final(table).handles()
                == old(table).handles(),
            ReadOutcome::ReadFailed => r@ == status_reply(q.id, SSH_FX_FAILURE, "Read failed"@) && final(table).handles()
                == old(table).handles(),
            ReadOutcome::Bytes(b) => if b@.len() == 0 {
                r@ == status_reply(q.id, SSH_FX_EOF, "End of file"@) && final(table).handles() == old(table).handles()
            } else {
                &&& r@ == spec_build_packet(spec_data_payload(q.id, b@))
                &&& final(table).handles() == (match old(table).handles().get(q.handle@) {
                    Some(h) => old(table).handles().insert(
                        q.handle@,
                        HandleView { read_bytes: (h.read_bytes + b@.len()) as u64, ..h },
                    ),
                    None => old(table).handles(),
                })
            },
        },
{
    match outcome {
        ReadOutcome::SeekFailed => status(q.id, SSH_FX_FAILURE, "Seek failed"),
        ReadOutcome::ReadFailed => status(q.id, SSH_FX_FAILURE, "Read failed"),
        ReadOutcome::Bytes(b) => {
            if b.len() == 0 {
                return status(q.id, SSH_FX_EOF, "End of file");
            }
            table.add_read(q.handle.as_str(), b.len() as u64);
            build_data_packet(q.id, b.as_slice())
        },
    }
}

/// A close request: the id and the handle must be readable (else the packet is an
/// error); the handle is closed if open, `OK` is answered either way, and a file
/// handle that received data is recorded (as an update of a file that existed before,
/// else as an upload) with the path it was opened at.
pub fn close_step(data: &[u8], table: &mut HandleTable) -> (r: Result<(Vec<u8>, UploadRecord, Option<String>), PacketError>)
    requires
        old(table).wf(),
    ensures
        final(table).wf(),
        (data@.len() < 5 || !string_fits(data@, 5)) ==> r is Err && final(table).handles() == old(table).handles(),
        data@.len() >= 5 && string_fits(data@, 5) ==> match r {
            Err(_) => false,
            Ok((t, rec, path)) => {
                let name = utf8_lossy(string_bytes_at(data@, 5));
                &&& t@ == status_reply(be_u32_at(data@, 1), SSH_FX_OK, "OK"@)
                &&& final(table).handles() == old(table).handles().remove(name)
                &&& match old(table).handles().get(name) {
                    Some(h) => rec == (if h.is_dir || h.written_bytes == 0 {
                        UploadRecord::Nothing
                    } else if h.existed {
                        UploadRecord::Update
                    } else {
                        UploadRecord::Upload
                    }) && (path matches Some(p) && p@ == h.path),
                    None => rec == UploadRecord::Nothing && path is None,
                }
            },
        },
{
    let id = match parse_u32_checked(data, 1) {
        Ok(v) => v,
        Err(e) => {
            return Err(e);
        },
    };
    let name = match parse_string_checked(data, 5) {
        Ok((n, _)) => n,
        Err(e) => {
            return Err(e);
        },
    };
    let (rec, path) = match table.remove(name.as_str()) {
        Some(h) => (close_record(h.is_dir, h.written_bytes, h.existed), Some(h.path)),
        None => (UploadRecord::Nothing, None),
    };
    Ok((status(id, SSH_FX_OK, "OK"), rec, path))
}

} // verus!
