//! `SSH_FXP_EXTENDED` requests: which extension is asked for, the arguments of
//! `copy-file` and of the file-hash extensions, and their replies.

use vstd::prelude::*;
use vstd::string::*;
use vstd::utf8::encode_utf8;
use crate::bytes::{be_u32_at, be_u32_bytes, push_string_field, push_u32_be, string_field};
use crate::packet::{
    build_packet, parse_string_checked, parse_u32, spec_build_packet, string_bytes_at,
    string_fits, PacketError, SSH_FX_FAILURE, SSH_FX_NO_SUCH_FILE, SSH_FX_OP_UNSUPPORTED,
    SSH_FX_PERMISSION_DENIED,
};
use crate::sftp::access::{sat_sub, Permissions};
use crate::sftp::status::ErrnoCodes;
use crate::sftp::requests::{hex_digit, status, status_reply};
use crate::text::{chars_to_string, push_str, str_eq, str_to_chars, utf8_lossy};

verus! {

/// The extensions served.
#[derive(Clone, Copy, Debug, PartialEq, Eq, Structural)]
pub enum Extension {
    Limits,
    Statvfs,
    Fstatvfs,
    Fsync,
    Md5sum,
    Sha256sum,
    CopyFile,
    Hardlink,
    PosixRename,
}

pub open spec fn spec_extension_of(name: Seq<char>) -> Option<Extension> {
    if name == "limits@openssh.com"@ {
        Some(Extension::Limits)
    } else if name == "statvfs@openssh.com"@ {
        Some(Extension::Statvfs)
    } else if name == "fstatvfs@openssh.com"@ {
        Some(Extension::Fstatvfs)
    } else if name == "fsync@openssh.com"@ {
        Some(Extension::Fsync)
    } else if name == "md5sum@openssh.com"@ || name == "md5-hash@openssh.com"@ {
        Some(Extension::Md5sum)
    } else if name == "sha256sum@openssh.com"@ || name == "sha256-hash@openssh.com"@ {
        Some(Extension::Sha256sum)
    } else if name == "copy-file"@ {
        Some(Extension::CopyFile)
    } else if name == "hardlink@openssh.com"@ {
        Some(Extension::Hardlink)
    } else if name == "posix-rename@openssh.com"@ {
        Some(Extension::PosixRename)
    } else {
        None
    }
}

fn extension_of(name: &str) -> (r: Option<Extension>)
    ensures
        r == spec_extension_of(name@),
{
    if str_eq(name, "limits@openssh.com") {
        Some(Extension::Limits)
    } else if str_eq(name, "statvfs@openssh.com") {
        Some(Extension::Statvfs)
    } else if str_eq(name, "fstatvfs@openssh.com") {
        Some(Extension::Fstatvfs)
    } else if str_eq(name, "fsync@openssh.com") {
        Some(Extension::Fsync)
    } else if str_eq(name, "md5sum@openssh.com") || str_eq(name, "md5-hash@openssh.com") {
        Some(Extension::Md5sum)
    } else if str_eq(name, "sha256sum@openssh.com") || str_eq(name, "sha256-hash@openssh.com") {
        Some(Extension::Sha256sum)
    } else if str_eq(name, "copy-file") {
        Some(Extension::CopyFile)
    } else if str_eq(name, "hardlink@openssh.com") {
        Some(Extension::Hardlink)
    } else if str_eq(name, "posix-rename@openssh.com") {
        Some(Extension::PosixRename)
    } else {
        None
    }
}

/// How an extended request is dealt with.
pub enum ExtendedStep {
    /// Serve the extension; its arguments start `ext_offset` bytes after the request id.
    Serve { ext: Extension, id: u32, ext_offset: usize },
    Reply(Vec<u8>),
}

pub open spec fn extended_view(s: ExtendedStep) -> (Option<(Extension, u32, int)>, Seq<u8>) {
    match s {
        ExtendedStep::Serve { ext, id, ext_offset } => (Some((ext, id, ext_offset as int)), Seq::empty()),
        ExtendedStep::Reply(r) => (None, r@),
    }
}

/// The name of the requested extension (meaningful when its field fits).
pub open spec fn extension_name(data: Seq<u8>) -> Seq<char> {
    utf8_lossy(string_bytes_at(data, 5))
}

/// An extended request needs at least nine bytes and a complete name; every extension
/// but `limits@openssh.com` needs at least four more bytes after the name; unknown
/// names are answered as unsupported.
pub open spec fn spec_extended(data: Seq<u8>) -> (Option<(Extension, u32, int)>, Seq<u8>) {
    if data.len() < 9 {
        (None, status_reply(0, SSH_FX_FAILURE, "Invalid extended packet: too short"@))
    } else {
        let id = be_u32_at(data, 1);
        if !string_fits(data, 5) {
            (
                None,
                status_reply(
                    id,
                    SSH_FX_FAILURE,
                    "Invalid extension name: "@ + PacketError::StringExceedsBuffer(5).spec_message(),
                ),
            )
        } else {
            let name = extension_name(data);
            let ext_total = 4 + be_u32_at(data, 5);
            let remaining = data.len() - (5 + ext_total);
            if remaining < 4 && name != "limits@openssh.com"@ {
                (None, status_reply(id, SSH_FX_FAILURE, "Invalid extended packet: missing data"@))
            } else {
                match spec_extension_of(name) {
                    Some(e) => (Some((e, id, ext_total)), Seq::empty()),
                    None => (
                        None,
                        status_reply(id, SSH_FX_OP_UNSUPPORTED, "Unsupported extension: "@ + name),
                    ),
                }
            }
        }
    }
}

fn status_with(id: u32, code: u32, prefix: &str, detail: &str) -> (r: Vec<u8>)
    ensures
        r@ == status_reply(id, code, prefix@ + detail@),
{
    let mut m: Vec<char> = Vec::new();
    push_str(&mut m, prefix);
    push_str(&mut m, detail);
    let msg = chars_to_string(m.as_slice());
    status(id, code, msg.as_str())
}

pub fn extended_step(data: &[u8]) -> (r: ExtendedStep)
    ensures
        extended_view(r) == spec_extended(data@),
{
    if data.len() < 9 {
        return ExtendedStep::Reply(status(0, SSH_FX_FAILURE, "Invalid extended packet: too short"));
    }
    let id = parse_u32(data, 1);
    let (name, ext_len) = match parse_string_checked(data, 5) {
        Ok(v) => v,
        Err(e) => {
            let m = e.message();
            return ExtendedStep::Reply(status_with(id, SSH_FX_FAILURE, "Invalid extension name: ", m.as_str()));
        },
    };
    assert(string_fits(data@, 5));
    let ext_total = 4 + ext_len;
    let remaining = data.len() - (5 + ext_total);
    if remaining < 4 && !str_eq(name.as_str(), "limits@openssh.com") {
        return ExtendedStep::Reply(status(id, SSH_FX_FAILURE, "Invalid extended packet: missing data"));
    }
    match extension_of(name.as_str()) {
        Some(ext) => ExtendedStep::Serve { ext, id, ext_offset: ext_total },
        None => ExtendedStep::Reply(status_with(id, SSH_FX_OP_UNSUPPORTED, "Unsupported extension: ", name.as_str())),
    }
}

/// The path argument of a file-hash request, or the reply refusing it.
pub enum PathArg {
    Path(String),
    Reply(Vec<u8>),
}

pub open spec fn path_arg_view(p: PathArg) -> (Option<Seq<char>>, Seq<u8>) {
    match p {
        PathArg::Path(s) => (Some(s@), Seq::empty()),
        PathArg::Reply(r) => (None, r@),
    }
}

/// The path of a `statvfs`, `md5sum` or `sha256sum` request (`kind` names it in the
/// message): its length must be there and its bytes complete.
pub open spec fn spec_path_arg(id: u32, data: Seq<u8>, ext_offset: int, kind: Seq<char>) -> (Option<Seq<char>>, Seq<u8>) {
    let at = 5 + ext_offset;
    if at + 4 > data.len() {
        (None, status_reply(id, SSH_FX_FAILURE, "Invalid "@ + kind + " packet: missing path length"@))
    } else if !string_fits(data, at) {
        (
            None,
            status_reply(
                id,
                SSH_FX_FAILURE,
                "Invalid path: "@ + PacketError::StringExceedsBuffer(at as usize).spec_message(),
            ),
        )
    } else {
        (Some(utf8_lossy(string_bytes_at(data, at))), Seq::empty())
    }
}

pub fn path_arg(id: u32, data: &[u8], ext_offset: usize, kind: &str) -> (r: PathArg)
    requires
        5 + ext_offset <= data.len(),
    ensures
        path_arg_view(r) == spec_path_arg(id, data@, ext_offset as int, kind@),
{
    let at = 5 + ext_offset;
    if at > data.len() || data.len() - at < 4 {
        let mut m: Vec<char> = Vec::new();
        push_str(&mut m, "Invalid ");
        push_str(&mut m, kind);
        push_str(&mut m, " packet: missing path length");
        let msg = chars_to_string(m.as_slice());
        return PathArg::Reply(status(id, SSH_FX_FAILURE, msg.as_str()));
    }
    match parse_string_checked(data, at) {
        Ok((p, _)) => PathArg::Path(p),
        Err(e) => {
            let m = e.message();
            PathArg::Reply(status_with(id, SSH_FX_FAILURE, "Invalid path: ", m.as_str()))
        },
    }
}

/// The handle of an `fsync`/`fstatvfs` request (`kind` names it in the message): its
/// length must be there and its bytes complete.
pub open spec fn spec_handle_arg(id: u32, data: Seq<u8>, ext_offset: int, kind: Seq<char>) -> (Option<Seq<char>>, Seq<u8>) {
    let at = 5 + ext_offset;
    if at + 4 > data.len() {
        (None, status_reply(id, SSH_FX_FAILURE, "Invalid "@ + kind + " packet: missing handle length"@))
    } else if !string_fits(data, at) {
        (
            None,
            status_reply(
                id,
                SSH_FX_FAILURE,
                "Invalid handle: "@ + PacketError::StringExceedsBuffer(at as usize).spec_message(),
            ),
        )
    } else {
        (Some(utf8_lossy(string_bytes_at(data, at))), Seq::empty())
    }
}

pub fn handle_arg(id: u32, data: &[u8], ext_offset: usize, kind: &str) -> (r: PathArg)
    requires
        5 + ext_offset <= data.len(),
    ensures
        path_arg_view(r) == spec_handle_arg(id, data@, ext_offset as int, kind@),
{
    let at = 5 + ext_offset;
    if data.len() - at < 4 {
        let mut m: Vec<char> = Vec::new();
        push_str(&mut m, "Invalid ");
        push_str(&mut m, kind);
        push_str(&mut m, " packet: missing handle length");
        let msg = chars_to_string(m.as_slice());
        return PathArg::Reply(status(id, SSH_FX_FAILURE, msg.as_str()));
    }
    match parse_string_checked(data, at) {
        Ok((h, _)) => PathArg::Path(h),
        Err(e) => {
            let m = e.message();
            PathArg::Reply(status_with(id, SSH_FX_FAILURE, "Invalid handle: ", m.as_str()))
        },
    }
}

/// What an open handle was found to be.
#[derive(Clone, Copy, Debug, PartialEq, Eq, Structural)]
pub enum HandleTarget {
    Missing,
    Directory,
    File,
}

/// `fsync` and `fstatvfs` work on the handle of an open file; any other handle is
/// refused with this reply.
pub open spec fn spec_file_handle_refusal(id: u32, t: HandleTarget) -> Option<Seq<u8>> {
    match t {
        HandleTarget::File => None,
        HandleTarget::Directory => Some(status_reply(id, SSH_FX_FAILURE, "Handle does not reference a file"@)),
        HandleTarget::Missing => Some(status_reply(id, SSH_FX_FAILURE, "Invalid handle"@)),
    }
}

pub fn file_handle_refusal(id: u32, t: HandleTarget) -> (r: Option<Vec<u8>>)
    ensures
        match r {
            Some(v) => spec_file_handle_refusal(id, t) == Some(v@),
            None => spec_file_handle_refusal(id, t) is None,
        },
{
    match t {
        HandleTarget::File => None,
        HandleTarget::Directory => Some(status(id, SSH_FX_FAILURE, "Handle does not reference a file")),
        HandleTarget::Missing => Some(status(id, SSH_FX_FAILURE, "Invalid handle")),
    }
}

/// The status answered when `statvfs` or `fstatvfs` fails with an `errno` value.
pub open spec fn spec_statvfs_error(errno: i32, c: ErrnoCodes) -> (u32, Seq<char>) {
    if errno == c.enoent {
        (SSH_FX_NO_SUCH_FILE, "No such file or directory"@)
    } else if errno == c.eacces {
        (SSH_FX_PERMISSION_DENIED, "Permission denied"@)
    } else if errno == c.enotdir {
        (SSH_FX_FAILURE, "Not a directory"@)
    } else {
        (SSH_FX_FAILURE, "Failed to get filesystem stats"@)
    }
}

pub fn statvfs_error(errno: i32, c: &ErrnoCodes) -> (r: (u32, &'static str))
    ensures
        (r.0, r.1@) == spec_statvfs_error(errno, *c),
{
    if errno == c.enoent {
        (SSH_FX_NO_SUCH_FILE, "No such file or directory")
    } else if errno == c.eacces {
        (SSH_FX_PERMISSION_DENIED, "Permission denied")
    } else if errno == c.enotdir {
        (SSH_FX_FAILURE, "Not a directory")
    } else {
        (SSH_FX_FAILURE, "Failed to get filesystem stats")
    }
}

/// The reply to a failed `statvfs` or `fstatvfs`, by the platform's `errno` values.
pub fn statvfs_error_reply(id: u32, errno: i32, codes: &ErrnoCodes) -> (r: Vec<u8>)
    ensures
        ({
            let (code, msg) = spec_statvfs_error(errno, *codes);
            r@ == status_reply(id, code, msg)
        }),
{
    let (code, msg) = statvfs_error(errno, codes);
    status(id, code, msg)
}

/// The lowercase hexadecimal text of bytes, two digits each.
pub open spec fn hex_text(b: Seq<u8>) -> Seq<char>
    decreases b.len(),
{
    if b.len() == 0 {
        Seq::empty()
    } else {
        hex_text(b.drop_last()) + seq![hex_digit((b.last() / 16) as nat), hex_digit((b.last() % 16) as nat)]
    }
}

/// Calls `hex::encode`: each byte as two lowercase hexadecimal digits, in order.
#[verifier::external_body]
fn hex_encode(bytes: &[u8]) -> (r: String)
    ensures
        r@ == hex_text(bytes@),
{
    hex::encode(bytes)
}

/// The MD5 digest of a byte sequence.
pub uninterp spec fn md5_of(data: Seq<u8>) -> Seq<u8>;

/// The SHA-256 digest of a byte sequence.
pub uninterp spec fn sha256_of(data: Seq<u8>) -> Seq<u8>;

/// Calls `md5::Md5::digest`: the 16-byte MD5 digest of `data`, named `md5_of(data)`.
#[verifier::external_body]
fn md5_digest(data: &[u8]) -> (r: Vec<u8>)
    ensures
        r@ == md5_of(data@),
        r@.len() == 16,
{
    <md5::Md5 as md5::Digest>::digest(data).to_vec()
}

/// Calls `sha2::Sha256::digest`: the 32-byte SHA-256 digest of `data`, named
/// `sha256_of(data)`.
#[verifier::external_body]
fn sha256_digest(data: &[u8]) -> (r: Vec<u8>)
    ensures
        r@ == sha256_of(data@),
        r@.len() == 32,
{
    <sha2::Sha256 as sha2::Digest>::digest(data).to_vec()
}

/// The extended reply carrying a digest in hexadecimal.
pub open spec fn spec_hash_reply(id: u32, digest: Seq<u8>) -> Seq<u8> {
    spec_build_packet(seq![201u8] + be_u32_bytes(id) + string_field(encode_utf8(hex_text(digest))))
}

/// The reply carrying `digest`.
pub fn hash_reply(id: u32, digest: &[u8]) -> (r: Vec<u8>)
    ensures
        r@ == spec_hash_reply(id, digest@),
{
    let hex = hex_encode(digest);
    let mut payload: Vec<u8> = Vec::new();
    payload.push(201u8);
    push_u32_be(&mut payload, id);
    push_string_field(&mut payload, hex.as_str().as_bytes());
    build_packet(payload.as_slice())
}

/// The `md5sum@openssh.com` reply for a file's contents.
pub fn md5sum_reply(id: u32, contents: &[u8]) -> (r: Vec<u8>)
    ensures
        r@ == spec_hash_reply(id, md5_of(contents@)),
{
    let d = md5_digest(contents);
    hash_reply(id, d.as_slice())
}

/// The `sha256sum@openssh.com` reply for a file's contents.
pub fn sha256sum_reply(id: u32, contents: &[u8]) -> (r: Vec<u8>)
    ensures
        r@ == spec_hash_reply(id, sha256_of(contents@)),
{
    let d = sha256_digest(contents);
    hash_reply(id, d.as_slice())
}

/// The arguments of `copy-file`: source, destination, and whether to overwrite.
pub struct CopyArgs {
    pub src: String,
    pub dst: String,
    pub overwrite: bool,
}

pub enum CopyParse {
    Args(CopyArgs),
    Reply(Vec<u8>),
}

/// How `copy-file` arguments are read: the source path, then the destination path,
/// then an optional overwrite byte (absent counts as no).
pub open spec fn spec_copy_parse(id: u32, data: Seq<u8>, ext_offset: int) -> (Option<(Seq<char>, Seq<char>, bool)>, Seq<u8>) {
    let at = 5 + ext_offset;
    if at + 4 > data.len() {
        (None, status_reply(id, SSH_FX_FAILURE, "Invalid copy-file packet: missing source path length"@))
    } else if !string_fits(data, at) {
        (
            None,
            status_reply(id, SSH_FX_FAILURE, "Invalid source path: "@ + PacketError::StringExceedsBuffer(at as usize).spec_message()),
        )
    } else {
        let dst_pos = at + 4 + be_u32_at(data, at);
        if dst_pos + 4 > data.len() {
            (None, status_reply(id, SSH_FX_FAILURE, "Invalid copy-file packet: missing destination path length"@))
        } else if !string_fits(data, dst_pos) {
            (
                None,
                status_reply(
                    id,
                    SSH_FX_FAILURE,
                    "Invalid destination path: "@ + PacketError::StringExceedsBuffer(dst_pos as usize).spec_message(),
                ),
            )
        } else {
            let dst_end = dst_pos + 4 + be_u32_at(data, dst_pos);
            let overwrite = dst_end < data.len() && data[dst_end] != 0;
            (
                Some((utf8_lossy(string_bytes_at(data, at)), utf8_lossy(string_bytes_at(data, dst_pos)), overwrite)),
                Seq::empty(),
            )
        }
    }
}

pub open spec fn copy_parse_view(p: CopyParse) -> (Option<(Seq<char>, Seq<char>, bool)>, Seq<u8>) {
    match p {
        CopyParse::Args(a) => (Some((a.src@, a.dst@, a.overwrite)), Seq::empty()),
        CopyParse::Reply(r) => (None, r@),
    }
}

pub fn parse_copy_args(id: u32, data: &[u8], ext_offset: usize) -> (r: CopyParse)
    requires
        5 + ext_offset <= data.len(),
    ensures
        copy_parse_view(r) == spec_copy_parse(id, data@, ext_offset as int),
{
    let at = 5 + ext_offset;
    if at > data.len() || data.len() - at < 4 {
        return CopyParse::Reply(status(id, SSH_FX_FAILURE, "Invalid copy-file packet: missing source path length"));
    }
    let (src, src_len) = match parse_string_checked(data, at) {
        Ok(v) => v,
        Err(e) => {
            let m = e.message();
            return CopyParse::Reply(status_with(id, SSH_FX_FAILURE, "Invalid source path: ", m.as_str()));
        },
    };
    assert(string_fits(data@, at as int));
    let dst_pos = at + 4 + src_len;
    if data.len() - dst_pos < 4 {
        return CopyParse::Reply(status(id, SSH_FX_FAILURE, "Invalid copy-file packet: missing destination path length"));
    }
    let (dst, dst_len) = match parse_string_checked(data, dst_pos) {
        Ok(v) => v,
        Err(e) => {
            let m = e.message();
            return CopyParse::Reply(status_with(id, SSH_FX_FAILURE, "Invalid destination path: ", m.as_str()));
        },
    };
    assert(string_fits(data@, dst_pos as int));
    let dst_end = dst_pos + 4 + dst_len;
    let overwrite = dst_end < data.len() && data[dst_end] != 0;
    CopyParse::Args(CopyArgs { src, dst, overwrite })
}

/// The two paths of a `hardlink` or `posix-rename` request, or the reply refusing them.
pub enum PairParse {
    Paths(String, String),
    Reply(Vec<u8>),
}

pub open spec fn pair_view(p: PairParse) -> (Option<(Seq<char>, Seq<char>)>, Seq<u8>) {
    match p {
        PairParse::Paths(a, b) => (Some((a@, b@)), Seq::empty()),
        PairParse::Reply(r) => (None, r@),
    }
}

/// How two path arguments are read: `kind` names the request and `first` and `second`
/// the paths in the messages (as `hardlink` with `source` and `destination`, or
/// `posix-rename` with `old` and `new`).
pub open spec fn spec_path_pair(
    id: u32,
    data: Seq<u8>,
    ext_offset: int,
    kind: Seq<char>,
    first: Seq<char>,
    second: Seq<char>,
) -> (Option<(Seq<char>, Seq<char>)>, Seq<u8>) {
    let at = 5 + ext_offset;
    if at + 4 > data.len() {
        (None, status_reply(id, SSH_FX_FAILURE, "Invalid "@ + kind + " packet: missing "@ + first + " path length"@))
    } else if !string_fits(data, at) {
        (
            None,
            status_reply(
                id,
                SSH_FX_FAILURE,
                "Invalid "@ + first + " path: "@ + PacketError::StringExceedsBuffer(at as usize).spec_message(),
            ),
        )
    } else {
        let pos = at + 4 + be_u32_at(data, at);
        if pos + 4 > data.len() {
            (None, status_reply(id, SSH_FX_FAILURE, "Invalid "@ + kind + " packet: missing "@ + second + " path length"@))
        } else if !string_fits(data, pos) {
            (
                None,
                status_reply(
                    id,
                    SSH_FX_FAILURE,
                    "Invalid "@ + second + " path: "@ + PacketError::StringExceedsBuffer(pos as usize).spec_message(),
                ),
            )
        } else {
            (Some((utf8_lossy(string_bytes_at(data, at)), utf8_lossy(string_bytes_at(data, pos)))), Seq::empty())
        }
    }
}

fn message3(a: &str, b: &str, c: &str, d: &str) -> (r: String)
    ensures
        r@ == a@ + b@ + c@ + d@,
{
    let mut m: Vec<char> = Vec::new();
    push_str(&mut m, a);
    push_str(&mut m, b);
    push_str(&mut m, c);
    push_str(&mut m, d);
    chars_to_string(m.as_slice())
}

fn missing_length(id: u32, kind: &str, which: &str) -> (r: Vec<u8>)
    ensures
        r@ == status_reply(id, SSH_FX_FAILURE, "Invalid "@ + kind@ + " packet: missing "@ + which@ + " path length"@),
{
    let mut m: Vec<char> = Vec::new();
    push_str(&mut m, "Invalid ");
    push_str(&mut m, kind);
    push_str(&mut m, " packet: missing ");
    push_str(&mut m, which);
    push_str(&mut m, " path length");
    let text = chars_to_string(m.as_slice());
    status(id, SSH_FX_FAILURE, text.as_str())
}

pub fn path_pair_arg(id: u32, data: &[u8], ext_offset: usize, kind: &str, first: &str, second: &str) -> (r: PairParse)
    requires
        5 + ext_offset <= data.len(),
    ensures
        pair_view(r) == spec_path_pair(id, data@, ext_offset as int, kind@, first@, second@),
{
    let at = 5 + ext_offset;
    if data.len() - at < 4 {
        return PairParse::Reply(missing_length(id, kind, first));
    }
    let (a, a_len) = match parse_string_checked(data, at) {
        Ok(v) => v,
        Err(e) => {
            let em = e.message();
            let m = message3("Invalid ", first, " path: ", em.as_str());
            return PairParse::Reply(status(id, SSH_FX_FAILURE, m.as_str()));
        },
    };
    assert(string_fits(data@, at as int));
    let pos = at + 4 + a_len;
    if data.len() - pos < 4 {
        return PairParse::Reply(missing_length(id, kind, second));
    }
    let (b, _) = match parse_string_checked(data, pos) {
        Ok(v) => v,
        Err(e) => {
            let em = e.message();
            let m = message3("Invalid ", second, " path: ", em.as_str());
            return PairParse::Reply(status(id, SSH_FX_FAILURE, m.as_str()));
        },
    };
    PairParse::Paths(a, b)
}

/// Whether a user may copy: it needs both read and write permission.
pub fn copy_permitted(perms: Option<Permissions>) -> (r: bool)
    ensures
        r == (perms matches Some(p) && p.can_read && p.can_write),
{
    match perms {
        Some(p) => p.can_read && p.can_write,
        None => false,
    }
}

/// The copy source must be a regular file.
pub open spec fn spec_copy_source_refusal(is_file: bool, is_dir: bool) -> Option<Seq<char>> {
    if is_file {
        None
    } else if is_dir {
        Some("Source is a directory, not a file"@)
    } else {
        Some("Source is not a regular file"@)
    }
}

pub fn copy_source_refusal(is_file: bool, is_dir: bool) -> (r: Option<&'static str>)
    ensures
        match r {
            Some(m) => spec_copy_source_refusal(is_file, is_dir) == Some(m@),
            None => spec_copy_source_refusal(is_file, is_dir) is None,
        },
{
    if is_file {
        None
    } else if is_dir {
        Some("Source is a directory, not a file")
    } else {
        Some("Source is not a regular file")
    }
}

/// What is found at the copy destination.
pub enum Destination {
    Missing,
    Directory,
    File(u64),
}

/// The bytes a copy adds, or why it is refused: a directory is never replaced, an
/// existing file only with the overwrite flag, and then only the growth counts.
pub open spec fn spec_copy_growth(dst: Destination, overwrite: bool, src_size: u64) -> Result<u64, Seq<char>> {
    match dst {
        Destination::Directory => Err("Destination is a directory"@),
        Destination::File(len) => if overwrite {
            Ok(sat_sub(src_size, len))
        } else {
            Err("Destination file already exists"@)
        },
        Destination::Missing => Ok(src_size),
    }
}

pub fn copy_growth(dst: Destination, overwrite: bool, src_size: u64) -> (r: Result<u64, &'static str>)
    ensures
        match r {
            Ok(v) => spec_copy_growth(dst, overwrite, src_size) == Ok::<u64, Seq<char>>(v),
            Err(m) => spec_copy_growth(dst, overwrite, src_size) == Err::<u64, Seq<char>>(m@),
        },
{
    match dst {
        Destination::Directory => Err("Destination is a directory"),
        Destination::File(len) => if overwrite {
            Ok(src_size.saturating_sub(len))
        } else {
            Err("Destination file already exists")
        },
        Destination::Missing => Ok(src_size),
    }
}

} // verus!
