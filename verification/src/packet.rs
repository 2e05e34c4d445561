//! SFTP wire format: field parsing and reply packet construction.

use vstd::prelude::*;
use vstd::string::*;
use vstd::utf8::{decode_utf8, valid_utf8};
use crate::bytes::{
    be_u32_at, be_u32_bytes, be_u64_bytes, copy_range, lemma_be_u32_roundtrip,
    lemma_be_u32_roundtrip_at, push_bytes, push_string_field, push_u32_be, push_u64_be, read_u32_be,
    read_u64_be, string_field, be_u64_at,
};
use crate::text::{bytes_to_string_lossy, utf8_lossy, chars_to_string, push_decimal, push_str, spec_decimal};

verus! {

pub const SSH_FX_OK: u32 = 0;
pub const SSH_FX_EOF: u32 = 1;
pub const SSH_FX_NO_SUCH_FILE: u32 = 2;
pub const SSH_FX_PERMISSION_DENIED: u32 = 3;
pub const SSH_FX_FAILURE: u32 = 4;
pub const SSH_FX_BAD_MESSAGE: u32 = 5;
pub const SSH_FX_NO_CONNECTION: u32 = 6;
pub const SSH_FX_CONNECTION_LOST: u32 = 7;
pub const SSH_FX_OP_UNSUPPORTED: u32 = 8;

pub const SSH_FXP_STATUS: u8 = 101;
pub const SSH_FXP_HANDLE: u8 = 102;
pub const SSH_FXP_DATA: u8 = 103;
pub const SSH_FXP_NAME: u8 = 104;
pub const SSH_FXP_ATTRS: u8 = 105;
pub const SSH_FXP_EXTENDED_REPLY: u8 = 201;

/// Why a checked field read failed.
#[derive(Debug, Clone, Copy, PartialEq, Eq, Structural)]
pub enum PacketError {
    /// Fewer than four bytes remain for a `u32` at this offset.
    InsufficientU32(usize),
    /// Fewer than eight bytes remain for a `u64` at this offset.
    InsufficientU64(usize),
    /// Fewer than four bytes remain for a string length at this offset.
    MissingStringLength(usize),
    /// The string announced at this offset runs past the end of the buffer.
    StringExceedsBuffer(usize),
}

/// `parse_u32`: the `u32` at `offset`, or 0 when it does not fit.
pub open spec fn spec_parse_u32(data: Seq<u8>, offset: int) -> u32 {
    if offset + 4 > data.len() { 0 } else { be_u32_at(data, offset) }
}

/// Does a complete string field start at `offset`?
pub open spec fn string_fits(data: Seq<u8>, offset: int) -> bool {
    offset + 4 <= data.len() && offset + 4 + be_u32_at(data, offset) <= data.len()
}

/// The raw bytes of the string field at `offset` (when it fits).
pub open spec fn string_bytes_at(data: Seq<u8>, offset: int) -> Seq<u8> {
    data.subrange(offset + 4, offset + 4 + be_u32_at(data, offset))
}

/// The payload wrapped with its 32-bit big-endian length.
pub open spec fn spec_build_packet(payload: Seq<u8>) -> Seq<u8> {
    be_u32_bytes(payload.len() as u32) + payload
}

pub open spec fn spec_status_payload(id: u32, status: u32, msg: Seq<u8>, lang: Seq<u8>) -> Seq<u8> {
    seq![SSH_FXP_STATUS] + be_u32_bytes(id) + be_u32_bytes(status) + string_field(msg)
        + string_field(lang)
}

pub open spec fn spec_handle_payload(id: u32, handle: Seq<u8>) -> Seq<u8> {
    seq![SSH_FXP_HANDLE] + be_u32_bytes(id) + string_field(handle)
}

pub open spec fn spec_data_payload(id: u32, data: Seq<u8>) -> Seq<u8> {
    seq![SSH_FXP_DATA] + be_u32_bytes(id) + string_field(data)
}

/// The attribute flags sent with every attribute block: size, uid/gid,
/// permissions, access/modify time and the extended bit.
pub const ATTR_FLAGS_ALL: u32 = 0x1f;
pub const DEFAULT_UID: u32 = 1000;
pub const DEFAULT_GID: u32 = 1000;
pub const DIR_MODE: u32 = 0o40755;
pub const FILE_MODE: u32 = 0o100644;

pub open spec fn spec_build_attrs(is_dir: bool, size: u64) -> Seq<u8> {
    be_u32_bytes(ATTR_FLAGS_ALL) + be_u64_bytes(size) + be_u32_bytes(DEFAULT_UID) + be_u32_bytes(
        DEFAULT_GID,
    ) + be_u32_bytes(if is_dir { DIR_MODE } else { FILE_MODE }) + be_u32_bytes(0)
        + be_u32_bytes(0)
}

/// Reads the big-endian `u32` at `offset`; yields 0 when fewer than four bytes remain.
pub fn parse_u32(data: &[u8], offset: usize) -> (r: u32)
    ensures
        r == spec_parse_u32(data@, offset as int),
{
    if offset > data.len() || data.len() - offset < 4 {
        0
    } else {
        read_u32_be(data, offset)
    }
}

/// Reads the big-endian `u32` at `offset`, failing when fewer than four bytes remain.
pub fn parse_u32_checked(data: &[u8], offset: usize) -> (r: Result<u32, PacketError>)
    ensures
        offset + 4 > data@.len() <==> r is Err,
        r is Err ==> r == Err::<u32, PacketError>(PacketError::InsufficientU32(offset)),
        r is Ok ==> r->Ok_0 == be_u32_at(data@, offset as int),
{
    if offset > data.len() || data.len() - offset < 4 {
        Err(PacketError::InsufficientU32(offset))
    } else {
        Ok(read_u32_be(data, offset))
    }
}

/// Reads the big-endian `u64` at `offset`, failing when fewer than eight bytes remain.
pub fn parse_u64_checked(data: &[u8], offset: usize) -> (r: Result<u64, PacketError>)
    ensures
        offset + 8 > data@.len() <==> r is Err,
        r is Err ==> r == Err::<u64, PacketError>(PacketError::InsufficientU64(offset)),
        r is Ok ==> r->Ok_0 == be_u64_at(data@, offset as int),
{
    if offset > data.len() || data.len() - offset < 8 {
        Err(PacketError::InsufficientU64(offset))
    } else {
        Ok(read_u64_be(data, offset))
    }
}

/// Reads the length-prefixed string at `offset`; yields the empty string when the
/// field is incomplete. Invalid UTF-8 is replaced as `String::from_utf8_lossy` does.
pub fn parse_string(data: &[u8], offset: usize) -> (r: String)
    ensures
        string_fits(data@, offset as int) ==> r@ == utf8_lossy(string_bytes_at(data@, offset as int)),
        string_fits(data@, offset as int) && valid_utf8(string_bytes_at(data@, offset as int)) ==> r@
            == decode_utf8(string_bytes_at(data@, offset as int)),
        !string_fits(data@, offset as int) ==> r@ == Seq::<char>::empty(),
{
    if offset > data.len() || data.len() - offset < 4 {
        return String::new();
    }
    let len = read_u32_be(data, offset) as usize;
    if data.len() - offset - 4 < len {
        return String::new();
    }
    let raw = copy_range(data, offset + 4, offset + 4 + len);
    bytes_to_string_lossy(raw.as_slice())
}

/// Reads the length-prefixed string at `offset` together with its byte length,
/// failing when the length or the bytes are missing.
pub fn parse_string_checked(data: &[u8], offset: usize) -> (r: Result<(String, usize), PacketError>)
    ensures
        offset + 4 > data@.len() ==> r == Err::<(String, usize), PacketError>(
            PacketError::MissingStringLength(offset),
        ),
        offset + 4 <= data@.len() && !string_fits(data@, offset as int) ==> r == Err::<
            (String, usize),
            PacketError,
        >(PacketError::StringExceedsBuffer(offset)),
        string_fits(data@, offset as int) ==> r is Ok && r->Ok_0.1 == be_u32_at(
            data@,
            offset as int,
        ) && r->Ok_0.0@ == utf8_lossy(string_bytes_at(data@, offset as int)),
        string_fits(data@, offset as int) && valid_utf8(string_bytes_at(data@, offset as int)) ==> r is Ok
            && r->Ok_0.0@ == decode_utf8(string_bytes_at(data@, offset as int)),
{
    if offset > data.len() || data.len() - offset < 4 {
        return Err(PacketError::MissingStringLength(offset));
    }
    let len32 = read_u32_be(data, offset);
    let len = len32 as usize;
    if data.len() - offset - 4 < len {
        return Err(PacketError::StringExceedsBuffer(offset));
    }
    let raw = copy_range(data, offset + 4, offset + 4 + len);
    Ok((bytes_to_string_lossy(raw.as_slice()), len))
}

/// Frames a payload with its 32-bit big-endian length.
pub fn build_packet(payload: &[u8]) -> (r: Vec<u8>)
    ensures
        r@ == spec_build_packet(payload@),
{
    let mut packet: Vec<u8> = Vec::new();
    push_u32_be(&mut packet, payload.len() as u32);
    push_bytes(&mut packet, payload);
    packet
}

/// An `SSH_FXP_STATUS` reply.
pub fn build_status_packet(id: u32, status: u32, msg: &str, lang: &str) -> (r: Vec<u8>)
    ensures
        r@ == spec_build_packet(spec_status_payload(id, status, msg.spec_bytes(), lang.spec_bytes())),
{
    let mut payload: Vec<u8> = Vec::new();
    payload.push(SSH_FXP_STATUS);
    push_u32_be(&mut payload, id);
    push_u32_be(&mut payload, status);
    push_string_field(&mut payload, msg.as_bytes());
    push_string_field(&mut payload, lang.as_bytes());
    assert(payload@ =~= spec_status_payload(id, status, msg.spec_bytes(), lang.spec_bytes()));
    build_packet(payload.as_slice())
}

/// An `SSH_FXP_HANDLE` reply.
pub fn build_handle_packet(id: u32, handle: &str) -> (r: Vec<u8>)
    ensures
        r@ == spec_build_packet(spec_handle_payload(id, handle.spec_bytes())),
{
    let mut payload: Vec<u8> = Vec::new();
    payload.push(SSH_FXP_HANDLE);
    push_u32_be(&mut payload, id);
    push_string_field(&mut payload, handle.as_bytes());
    assert(payload@ =~= spec_handle_payload(id, handle.spec_bytes()));
    build_packet(payload.as_slice())
}

/// An `SSH_FXP_DATA` reply.
pub fn build_data_packet(id: u32, data: &[u8]) -> (r: Vec<u8>)
    ensures
        r@ == spec_build_packet(spec_data_payload(id, data@)),
{
    let mut payload: Vec<u8> = Vec::new();
    payload.push(SSH_FXP_DATA);
    push_u32_be(&mut payload, id);
    push_string_field(&mut payload, data);
    assert(payload@ =~= spec_data_payload(id, data@));
    build_packet(payload.as_slice())
}

/// The attribute block sent for a file or directory of the given size.
pub fn build_attrs(is_dir: bool, size: u64) -> (r: Vec<u8>)
    ensures
        r@ == spec_build_attrs(is_dir, size),
{
    let mut attrs: Vec<u8> = Vec::new();
    push_u32_be(&mut attrs, ATTR_FLAGS_ALL);
    push_u64_be(&mut attrs, size);
    push_u32_be(&mut attrs, DEFAULT_UID);
    push_u32_be(&mut attrs, DEFAULT_GID);
    let permissions = if is_dir { DIR_MODE } else { FILE_MODE };
    push_u32_be(&mut attrs, permissions);
    push_u32_be(&mut attrs, 0);
    push_u32_be(&mut attrs, 0);
    assert(attrs@ =~= spec_build_attrs(is_dir, size));
    attrs
}

/// The metadata an attribute block reports of a file: its size, owner, group and
/// mode, and its access and modification times in seconds since the epoch (`None`
/// when unknown or before the epoch).
pub struct FileMeta {
    pub size: u64,
    pub uid: u32,
    pub gid: u32,
    pub mode: u32,
    pub atime: Option<u64>,
    pub mtime: Option<u64>,
}

/// A time as the attribute block carries it: the low 32 bits of the seconds, 0 when
/// unknown.
pub open spec fn attr_time(t: Option<u64>) -> u32 {
    match t {
        Some(s) => (s % 0x1_0000_0000) as u32,
        None => 0,
    }
}

/// The attribute block for a file's metadata: all fields present.
pub open spec fn spec_attrs_from_meta(m: FileMeta) -> Seq<u8> {
    be_u32_bytes(ATTR_FLAGS_ALL) + be_u64_bytes(m.size) + be_u32_bytes(m.uid) + be_u32_bytes(m.gid)
        + be_u32_bytes(m.mode) + be_u32_bytes(attr_time(m.atime)) + be_u32_bytes(attr_time(m.mtime))
}

fn low_u32(t: Option<u64>) -> (r: u32)
    ensures
        r == attr_time(t),
{
    match t {
        Some(s) => (s % 0x1_0000_0000) as u32,
        None => 0,
    }
}

pub fn build_attrs_from_metadata(m: &FileMeta) -> (r: Vec<u8>)
    ensures
        r@ == spec_attrs_from_meta(*m),
{
    let mut attrs: Vec<u8> = Vec::new();
    push_u32_be(&mut attrs, ATTR_FLAGS_ALL);
    push_u64_be(&mut attrs, m.size);
    push_u32_be(&mut attrs, m.uid);
    push_u32_be(&mut attrs, m.gid);
    push_u32_be(&mut attrs, m.mode);
    push_u32_be(&mut attrs, low_u32(m.atime));
    push_u32_be(&mut attrs, low_u32(m.mtime));
    assert(attrs@ =~= spec_attrs_from_meta(*m));
    attrs
}

/// A framed packet announces exactly the length of its payload, which follows the length.
pub proof fn lemma_build_packet_frames(payload: Seq<u8>)
    requires
        payload.len() <= u32::MAX,
    ensures
        be_u32_at(spec_build_packet(payload), 0) == payload.len(),
        spec_build_packet(payload).subrange(4, 4 + payload.len() as int) =~= payload,
        spec_build_packet(payload).len() == 4 + payload.len(),
{
    lemma_be_u32_roundtrip(payload.len() as u32);
}

/// A string field written at any position is read back whole: its length and its bytes.
pub proof fn lemma_string_field_roundtrip(pre: Seq<u8>, s: Seq<u8>, post: Seq<u8>)
    requires
        s.len() <= u32::MAX,
    ensures
        string_fits(pre + string_field(s) + post, pre.len() as int),
        be_u32_at(pre + string_field(s) + post, pre.len() as int) == s.len(),
        string_bytes_at(pre + string_field(s) + post, pre.len() as int) =~= s,
{
    let buf = pre + string_field(s) + post;
    assert(buf =~= pre + be_u32_bytes(s.len() as u32) + (s + post));
    lemma_be_u32_roundtrip_at(pre, s.len() as u32, s + post);
}

impl PacketError {
    pub open spec fn spec_message(&self) -> Seq<char> {
        match self {
            PacketError::InsufficientU32(o) => "Insufficient data for u32 at offset "@ + spec_decimal(*o as nat),
            PacketError::InsufficientU64(o) => "Insufficient data for u64 at offset "@ + spec_decimal(*o as nat),
            PacketError::MissingStringLength(o) => "Insufficient data for string length at offset "@
                + spec_decimal(*o as nat),
            PacketError::StringExceedsBuffer(o) => "String data exceeds buffer at offset "@ + spec_decimal(
                *o as nat,
            ),
        }
    }

    /// The text describing the failure.
    pub fn message(&self) -> (r: String)
        ensures
            r@ == self.spec_message(),
    {
        let mut out: Vec<char> = Vec::new();
        match self {
            PacketError::InsufficientU32(o) => {
                push_str(&mut out, "Insufficient data for u32 at offset ");
                push_decimal(&mut out, *o as u64);
            },
            PacketError::InsufficientU64(o) => {
                push_str(&mut out, "Insufficient data for u64 at offset ");
                push_decimal(&mut out, *o as u64);
            },
            PacketError::MissingStringLength(o) => {
                push_str(&mut out, "Insufficient data for string length at offset ");
                push_decimal(&mut out, *o as u64);
            },
            PacketError::StringExceedsBuffer(o) => {
                push_str(&mut out, "String data exceeds buffer at offset ");
                push_decimal(&mut out, *o as u64);
            },
        }
        chars_to_string(out.as_slice())
    }
}

} // verus!
