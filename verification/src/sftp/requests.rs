//! Reading SFTP requests and deciding what to answer: the request type, protocol
//! negotiation, file handles, opening modes and the permission each request needs.

use vstd::prelude::*;
use vstd::string::*;
use vstd::utf8::encode_utf8;
use crate::bytes::{be_u32_at, be_u32_bytes, push_bytes, push_string_field, push_u32_be, read_u32_be, string_field};
use crate::packet::{
    build_packet, build_status_packet, spec_build_packet, spec_status_payload, SSH_FX_FAILURE,
    SSH_FX_OP_UNSUPPORTED,
};
use crate::text::{chars_to_string, str_eq};

verus! {

/// The requests the server serves, by packet type.
#[derive(Clone, Copy, Debug, PartialEq, Eq, Structural)]
pub enum SftpRequest {
    Init,
    Open,
    Close,
    Read,
    Write,
    Lstat,
    Fstat,
    Setstat,
    Fsetstat,
    Opendir,
    Readdir,
    Remove,
    Mkdir,
    Rmdir,
    Realpath,
    Stat,
    Readlink,
    Symlink,
    Rename,
    Lock,
    Unlock,
    Extended,
}

pub open spec fn spec_request_of(t: u8) -> Option<SftpRequest> {
    if t == 1 { Some(SftpRequest::Init) }
    else if t == 3 { Some(SftpRequest::Open) }
    else if t == 4 { Some(SftpRequest::Close) }
    else if t == 5 { Some(SftpRequest::Read) }
    else if t == 6 { Some(SftpRequest::Write) }
    else if t == 7 { Some(SftpRequest::Lstat) }
    else if t == 8 { Some(SftpRequest::Fstat) }
    else if t == 9 { Some(SftpRequest::Setstat) }
    else if t == 10 { Some(SftpRequest::Fsetstat) }
    else if t == 11 { Some(SftpRequest::Opendir) }
    else if t == 12 { Some(SftpRequest::Readdir) }
    else if t == 13 { Some(SftpRequest::Remove) }
    else if t == 14 { Some(SftpRequest::Mkdir) }
    else if t == 15 { Some(SftpRequest::Rmdir) }
    else if t == 16 { Some(SftpRequest::Realpath) }
    else if t == 17 { Some(SftpRequest::Stat) }
    else if t == 18 { Some(SftpRequest::Readlink) }
    else if t == 19 { Some(SftpRequest::Symlink) }
    else if t == 20 { Some(SftpRequest::Rename) }
    else if t == 40 { Some(SftpRequest::Lock) }
    else if t == 41 { Some(SftpRequest::Unlock) }
    else if t == 200 { Some(SftpRequest::Extended) }
    else { None }
}

fn request_of(t: u8) -> (r: Option<SftpRequest>)
    ensures
        r == spec_request_of(t),
{
    match t {
        1 => Some(SftpRequest::Init),
        3 => Some(SftpRequest::Open),
        4 => Some(SftpRequest::Close),
        5 => Some(SftpRequest::Read),
        6 => Some(SftpRequest::Write),
        7 => Some(SftpRequest::Lstat),
        8 => Some(SftpRequest::Fstat),
        9 => Some(SftpRequest::Setstat),
        10 => Some(SftpRequest::Fsetstat),
        11 => Some(SftpRequest::Opendir),
        12 => Some(SftpRequest::Readdir),
        13 => Some(SftpRequest::Remove),
        14 => Some(SftpRequest::Mkdir),
        15 => Some(SftpRequest::Rmdir),
        16 => Some(SftpRequest::Realpath),
        17 => Some(SftpRequest::Stat),
        18 => Some(SftpRequest::Readlink),
        19 => Some(SftpRequest::Symlink),
        20 => Some(SftpRequest::Rename),
        40 => Some(SftpRequest::Lock),
        41 => Some(SftpRequest::Unlock),
        200 => Some(SftpRequest::Extended),
        _ => None,
    }
}

/// How a packet is dealt with.
pub enum Dispatch {
    /// Serve the request.
    Serve(SftpRequest),
    /// Answer this reply without looking further.
    Reply(Vec<u8>),
}

/// A status reply with an empty language tag.
pub open spec fn status_reply(id: u32, status: u32, msg: Seq<char>) -> Seq<u8> {
    spec_build_packet(spec_status_payload(id, status, encode_utf8(msg), encode_utf8(""@)))
}

/// `build_status_packet(id, status, msg, "")`.
pub fn status(id: u32, code: u32, msg: &str) -> (r: Vec<u8>)
    ensures
        r@ == status_reply(id, code, msg@),
{
    build_status_packet(id, code, msg, "")
}

pub open spec fn dispatch_view(d: Dispatch) -> (Option<SftpRequest>, Seq<u8>) {
    match d {
        Dispatch::Serve(k) => (Some(k), Seq::empty()),
        Dispatch::Reply(r) => (None, r@),
    }
}

/// A packet is refused when empty or shorter than a type and a request id; an unknown
/// type is answered as unsupported.
pub open spec fn spec_dispatch(data: Seq<u8>) -> (Option<SftpRequest>, Seq<u8>) {
    if data.len() == 0 {
        (None, status_reply(0, SSH_FX_FAILURE, "Bad packet: empty data"@))
    } else if data.len() < 5 {
        (None, status_reply(0, SSH_FX_FAILURE, "Bad packet: too short"@))
    } else {
        match spec_request_of(data[0]) {
            Some(k) => (Some(k), Seq::empty()),
            None => (None, status_reply(0, SSH_FX_OP_UNSUPPORTED, "Unsupported operation"@)),
        }
    }
}

pub fn dispatch(data: &[u8]) -> (r: Dispatch)
    ensures
        dispatch_view(r) == spec_dispatch(data@),
{
    if data.len() == 0 {
        return Dispatch::Reply(status(0, SSH_FX_FAILURE, "Bad packet: empty data"));
    }
    if data.len() < 5 {
        return Dispatch::Reply(status(0, SSH_FX_FAILURE, "Bad packet: too short"));
    }
    match request_of(data[0]) {
        Some(k) => Dispatch::Serve(k),
        None => Dispatch::Reply(status(0, SSH_FX_OP_UNSUPPORTED, "Unsupported operation")),
    }
}

/// The extensions announced in the version reply, with their versions.
pub open spec fn init_extensions_payload() -> Seq<u8> {
    string_field(encode_utf8("limits@openssh.com"@)) + string_field(encode_utf8("1"@))
        + string_field(encode_utf8("posix-rename@openssh.com"@)) + string_field(encode_utf8("1"@))
        + string_field(encode_utf8("statvfs@openssh.com"@)) + string_field(encode_utf8("2"@))
        + string_field(encode_utf8("fstatvfs@openssh.com"@)) + string_field(encode_utf8("2"@))
        + string_field(encode_utf8("hardlink@openssh.com"@)) + string_field(encode_utf8("1"@))
        + string_field(encode_utf8("fsync@openssh.com"@)) + string_field(encode_utf8("1"@))
        + string_field(encode_utf8("copy-file"@)) + string_field(encode_utf8("1"@))
        + string_field(encode_utf8("md5sum@openssh.com"@)) + string_field(encode_utf8("1"@))
        + string_field(encode_utf8("sha256sum@openssh.com"@)) + string_field(encode_utf8("1"@))
}

/// The version the client asks for: the `u32` after the packet type, 3 when absent.
pub open spec fn requested_version(data: Seq<u8>) -> u32 {
    if data.len() >= 5 {
        be_u32_at(data, 1)
    } else {
        3
    }
}

/// The protocol version agreed on: the client's, capped at 3.
pub open spec fn negotiated_version(data: Seq<u8>) -> u32 {
    if requested_version(data) < 3 {
        requested_version(data)
    } else {
        3
    }
}

pub open spec fn spec_version_reply(version: u32) -> Seq<u8> {
    spec_build_packet(seq![2u8] + be_u32_bytes(version) + init_extensions_payload())
}

/// The counters an SFTP session keeps across requests.
pub struct SftpSession {
    pub sftp_version: u32,
    pub next_handle_id: u32,
}

/// Lowercase hexadecimal digit.
pub open spec fn hex_digit(d: nat) -> char {
    if d < 10 {
        (('0' as nat) + d) as char
    } else {
        (('a' as nat) + d - 10) as char
    }
}

/// `{:08x}`: the eight lowercase hexadecimal digits of a `u32`.
pub open spec fn hex8(x: u32) -> Seq<char> {
    seq![
        hex_digit(((x / 0x1000_0000) % 16) as nat),
        hex_digit(((x / 0x100_0000) % 16) as nat),
        hex_digit(((x / 0x10_0000) % 16) as nat),
        hex_digit(((x / 0x1_0000) % 16) as nat),
        hex_digit(((x / 0x1000) % 16) as nat),
        hex_digit(((x / 0x100) % 16) as nat),
        hex_digit(((x / 0x10) % 16) as nat),
        hex_digit((x % 16) as nat),
    ]
}

/// The name of handle number `id`.
pub open spec fn handle_name(id: u32) -> Seq<char> {
    "h"@ + hex8(id)
}

pub open spec fn next_id(id: u32) -> u32 {
    if id == u32::MAX {
        0
    } else {
        (id + 1) as u32
    }
}

/// Handle allocation: numbers are tried from `id` upwards (wrapping); the first whose
/// name is not taken is used, and after a thousand taken names the next one is used
/// regardless. Gives the name and the next number to try.
pub open spec fn spec_generate(id: u32, taken: Seq<Seq<char>>, attempts: nat) -> (Seq<char>, u32)
    decreases 1000 - attempts,
{
    if !taken.contains(handle_name(id)) || attempts >= 1000 {
        (handle_name(id), next_id(id))
    } else {
        spec_generate(next_id(id), taken, attempts + 1)
    }
}

fn hex_digit_char(d: u32) -> (c: char)
    requires
        d < 16,
    ensures
        c == hex_digit(d as nat),
{
    if d < 10 {
        match d {
            0 => '0',
            1 => '1',
            2 => '2',
            3 => '3',
            4 => '4',
            5 => '5',
            6 => '6',
            7 => '7',
            8 => '8',
            _ => '9',
        }
    } else {
        match d {
            10 => 'a',
            11 => 'b',
            12 => 'c',
            13 => 'd',
            14 => 'e',
            _ => 'f',
        }
    }
}

fn handle_name_chars(id: u32) -> (r: Vec<char>)
    ensures
        r@ == handle_name(id),
{
    let mut v: Vec<char> = Vec::new();
    v.push('h');
    v.push(hex_digit_char((id / 0x1000_0000) % 16));
    v.push(hex_digit_char((id / 0x100_0000) % 16));
    v.push(hex_digit_char((id / 0x10_0000) % 16));
    v.push(hex_digit_char((id / 0x1_0000) % 16));
    v.push(hex_digit_char((id / 0x1000) % 16));
    v.push(hex_digit_char((id / 0x100) % 16));
    v.push(hex_digit_char((id / 0x10) % 16));
    v.push(hex_digit_char(id % 16));
    proof {
        reveal_strlit("h");
    }
    assert(v@ =~= handle_name(id));
    v
}

fn name_taken(taken: &Vec<String>, name: &String) -> (r: bool)
    ensures
        r == taken@.map_values(|s: String| s@).contains(name@),
{
    let ghost tv = taken@.map_values(|s: String| s@);
    let mut i: usize = 0;
    while i < taken.len()
        invariant
            i <= taken@.len(),
            tv == taken@.map_values(|s: String| s@),
            forall|j: int| 0 <= j < i ==> tv[j] != name@,
        decreases taken.len() - i,
    {
        if taken[i] == *name {
            assert(tv[i as int] == name@);
            return true;
        }
        i = i + 1;
    }
    false
}

fn push_extension(out: &mut Vec<u8>, name: &str, version: &str)
    ensures
        final(out)@ == old(out)@ + string_field(encode_utf8(name@)) + string_field(encode_utf8(version@)),
{
    push_string_field(out, name.as_bytes());
    push_string_field(out, version.as_bytes());
}

#[verifier::rlimit(40)]
fn init_extensions() -> (r: Vec<u8>)
    ensures
        r@ == init_extensions_payload(),
{
    let mut v: Vec<u8> = Vec::new();
    push_extension(&mut v, "limits@openssh.com", "1");
    assert(v@ =~= string_field(encode_utf8("limits@openssh.com"@)) + string_field(encode_utf8("1"@)));
    push_extension(&mut v, "posix-rename@openssh.com", "1");
    push_extension(&mut v, "statvfs@openssh.com", "2");
    push_extension(&mut v, "fstatvfs@openssh.com", "2");
    push_extension(&mut v, "hardlink@openssh.com", "1");
    push_extension(&mut v, "fsync@openssh.com", "1");
    push_extension(&mut v, "copy-file", "1");
    push_extension(&mut v, "md5sum@openssh.com", "1");
    push_extension(&mut v, "sha256sum@openssh.com", "1");
    v
}

impl SftpSession {
    /// A session before `INIT`: version 3, handles numbered from zero.
    pub fn new() -> (r: Self)
        ensures
            r.sftp_version == 3,
            r.next_handle_id == 0,
    {
        SftpSession { sftp_version: 3, next_handle_id: 0 }
    }

    /// `SSH_FXP_INIT`: agrees on the version and answers it with the supported
    /// extensions.
    #[verifier::rlimit(40)]
    pub fn handle_init(&mut self, data: &[u8]) -> (r: Vec<u8>)
        ensures
            final(self).sftp_version == negotiated_version(data@),
            final(self).next_handle_id == old(self).next_handle_id,
            r@ == spec_version_reply(negotiated_version(data@)),
    {
        let version = if data.len() >= 5 {
            read_u32_be(data, 1)
        } else {
            3
        };
        self.sftp_version = if version < 3 {
            version
        } else {
            3
        };
        let ext = init_extensions();
        let mut payload: Vec<u8> = Vec::new();
        payload.push(2u8);
        push_u32_be(&mut payload, self.sftp_version);
        push_bytes(&mut payload, ext.as_slice());
        assert(payload@ =~= seq![2u8] + be_u32_bytes(self.sftp_version) + init_extensions_payload());
        build_packet(payload.as_slice())
    }

    /// Allocates a handle name not among `taken` (see [`spec_generate`]).
    pub fn generate_handle(&mut self, taken: &Vec<String>) -> (r: String)
        ensures
            (r@, final(self).next_handle_id) == spec_generate(
                old(self).next_handle_id,
                taken@.map_values(|s: String| s@),
                0,
            ),
            final(self).sftp_version == old(self).sftp_version,
    {
        let ghost tv = taken@.map_values(|s: String| s@);
        let mut attempts: u32 = 0;
        loop
            invariant
                attempts <= 1000,
                tv == taken@.map_values(|s: String| s@),
                spec_generate(self.next_handle_id, tv, attempts as nat) == spec_generate(
                    old(self).next_handle_id,
                    tv,
                    0,
                ),
                self.sftp_version == old(self).sftp_version,
            decreases 1000 - attempts,
        {
            let name = chars_to_string(handle_name_chars(self.next_handle_id).as_slice());
            let id = self.next_handle_id;
            self.next_handle_id = if id == u32::MAX {
                0
            } else {
                id + 1
            };
            if !name_taken(taken, &name) || attempts >= 1000 {
                return name;
            }
            attempts = attempts + 1;
        }
    }
}

} // verus!
