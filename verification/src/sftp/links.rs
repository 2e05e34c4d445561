//! Requests on links and on locks: the two paths of `RENAME` and `SYMLINK`, where a
//! new link may point, the reply of `READLINK`, and when `LOCK` and `UNLOCK` act.

use vstd::prelude::*;
use vstd::string::*;
use vstd::utf8::encode_utf8;
use crate::bytes::{be_u32_at, be_u32_bytes, push_bytes, push_string_field, push_u32_be, string_field};
use crate::packet::{
    build_attrs, build_packet, parse_string_checked, parse_u32_checked, spec_build_attrs,
    spec_build_packet, string_bytes_at, string_fits, PacketError, SSH_FX_FAILURE, SSH_FX_OK,
    SSH_FX_OP_UNSUPPORTED,
};
use crate::paths::{components_of, parts_starts_with, spec_components, spec_starts_with};
use crate::sftp::extended::HandleTarget;
use crate::sftp::requests::{status, status_reply};
use crate::text::{str_to_chars, utf8_lossy};

verus! {

/// A request naming two paths, one after the other.
pub struct TwoPaths {
    pub id: u32,
    pub first: String,
    pub second: String,
}

pub enum TwoPathParse {
    Paths(TwoPaths),
    /// A request too short for its paths, answered with a status.
    Reply(Vec<u8>),
}

/// Where the second path of a request starts.
pub open spec fn second_pos(data: Seq<u8>) -> int {
    5 + 4 + be_u32_at(data, 5)
}

impl TwoPaths {
    pub open spec fn matches(&self, data: Seq<u8>) -> bool {
        &&& self.id == be_u32_at(data, 1)
        &&& self.first@ == utf8_lossy(string_bytes_at(data, 5))
        &&& self.second@ == utf8_lossy(string_bytes_at(data, second_pos(data)))
    }
}

/// `RENAME`: the id, then the old and the new path. A packet without room for the
/// first length, or for the second, is answered `Invalid packet`; a length that
/// overruns the packet is an error.
pub fn parse_rename(data: &[u8]) -> (r: Result<TwoPathParse, PacketError>)
    ensures
        data@.len() < 5 ==> r is Err,
        r matches Ok(TwoPathParse::Paths(p)) ==> string_fits(data@, 5) && string_fits(data@, second_pos(data@))
            && p.matches(data@),
        r matches Ok(TwoPathParse::Reply(t)) ==> t@ == status_reply(be_u32_at(data@, 1), SSH_FX_FAILURE, "Invalid packet"@)
            && (data@.len() < 9 || (string_fits(data@, 5) && second_pos(data@) + 4 > data@.len())),
        r is Err ==> data@.len() < 5 || (data@.len() >= 9 && !string_fits(data@, 5)) || (string_fits(data@, 5)
            && second_pos(data@) + 4 <= data@.len() && !string_fits(data@, second_pos(data@))),
        data@.len() >= 9 && string_fits(data@, 5) && second_pos(data@) + 4 <= data@.len() && string_fits(
            data@,
            second_pos(data@),
        ) ==> r matches Ok(TwoPathParse::Paths(_)),
{
    let id = match parse_u32_checked(data, 1) {
        Ok(v) => v,
        Err(e) => {
            return Err(e);
        },
    };
    if data.len() < 9 {
        return Ok(TwoPathParse::Reply(status(id, SSH_FX_FAILURE, "Invalid packet")));
    }
    let (first, first_len) = match parse_string_checked(data, 5) {
        Ok(v) => v,
        Err(e) => {
            return Err(e);
        },
    };
    let pos = 9 + first_len;
    if data.len() - 4 < pos {
        return Ok(TwoPathParse::Reply(status(id, SSH_FX_FAILURE, "Invalid packet")));
    }
    let (second, _) = match parse_string_checked(data, pos) {
        Ok(v) => v,
        Err(e) => {
            return Err(e);
        },
    };
    Ok(TwoPathParse::Paths(TwoPaths { id, first, second }))
}

/// `SYMLINK`: the id, the target, then the link path; any part that is missing or
/// overruns the packet is an error.
pub fn parse_symlink(data: &[u8]) -> (r: Result<TwoPaths, PacketError>)
    ensures
        r matches Ok(p) ==> string_fits(data@, 5) && string_fits(data@, second_pos(data@)) && p.matches(data@),
        r is Err ==> data@.len() < 9 || !string_fits(data@, 5) || !string_fits(data@, second_pos(data@)),
        data@.len() >= 9 && string_fits(data@, 5) && string_fits(data@, second_pos(data@)) ==> r is Ok,
{
    let id = match parse_u32_checked(data, 1) {
        Ok(v) => v,
        Err(e) => {
            return Err(e);
        },
    };
    let (first, first_len) = match parse_string_checked(data, 5) {
        Ok(v) => v,
        Err(e) => {
            return Err(e);
        },
    };
    assert(string_fits(data@, 5));
    assert(first_len == be_u32_at(data@, 5));
    assert(9 + first_len <= data.len());
    let pos = 9 + first_len;
    let (second, _) = match parse_string_checked(data, pos) {
        Ok(v) => v,
        Err(e) => {
            return Err(e);
        },
    };
    Ok(TwoPaths { id, first, second })
}

/// A new symbolic link may point anywhere relative, and to an absolute place only
/// within the canonical home directory (by components).
pub open spec fn spec_link_target_allowed(target: Seq<char>, home_canon: Seq<char>) -> bool {
    !(target.len() > 0 && target[0] == '/') || spec_starts_with(spec_components(target), spec_components(home_canon))
}

pub fn link_target_allowed(target: &str, home_canon: &str) -> (r: bool)
    ensures
        r == spec_link_target_allowed(target@, home_canon@),
{
    let t = str_to_chars(target);
    if t.len() == 0 || t[0] != '/' {
        return true;
    }
    let h = str_to_chars(home_canon);
    let tc = components_of(t.as_slice());
    let hc = components_of(h.as_slice());
    parts_starts_with(&tc, &hc)
}

/// The reply to `READLINK`: one name, the link's target, as name and long name, with
/// the attributes of an empty file.
pub open spec fn spec_readlink_reply(id: u32, target: Seq<char>) -> Seq<u8> {
    spec_build_packet(seq![104u8] + be_u32_bytes(id) + be_u32_bytes(1) + string_field(encode_utf8(target))
        + string_field(encode_utf8(target)) + spec_build_attrs(false, 0))
}

pub fn readlink_reply(id: u32, target: &str) -> (r: Vec<u8>)
    ensures
        r@ == spec_readlink_reply(id, target@),
{
    let mut payload: Vec<u8> = Vec::new();
    payload.push(104u8);
    push_u32_be(&mut payload, id);
    push_u32_be(&mut payload, 1);
    push_string_field(&mut payload, target.as_bytes());
    push_string_field(&mut payload, target.as_bytes());
    let attrs = build_attrs(false, 0);
    push_bytes(&mut payload, attrs.as_slice());
    assert(payload@ =~= seq![104u8] + be_u32_bytes(id) + be_u32_bytes(1) + string_field(encode_utf8(target@))
        + string_field(encode_utf8(target@)) + spec_build_attrs(false, 0));
    build_packet(payload.as_slice())
}

/// Whether a lock request goes ahead, or the reply that ends it.
pub enum LockStep {
    Proceed,
    Reply(Vec<u8>),
}

pub open spec fn lock_view(s: LockStep) -> Option<Seq<u8>> {
    match s {
        LockStep::Proceed => None,
        LockStep::Reply(r) => Some(r@),
    }
}

/// `LOCK` needs protocol version 5 and the handle of an open file; a locked file is
/// answered at once.
pub open spec fn spec_lock_step(id: u32, version: u32, target: HandleTarget, locked: bool) -> Option<Seq<u8>> {
    if version < 5 {
        Some(status_reply(id, SSH_FX_OP_UNSUPPORTED, "Lock requires SFTP v5+"@))
    } else if target != HandleTarget::File {
        Some(status_reply(id, SSH_FX_FAILURE, "Invalid handle"@))
    } else if locked {
        Some(status_reply(id, SSH_FX_OK, "Already locked"@))
    } else {
        None
    }
}

pub fn lock_step(id: u32, version: u32, target: HandleTarget, locked: bool) -> (r: LockStep)
    ensures
        lock_view(r) == spec_lock_step(id, version, target, locked),
{
    if version < 5 {
        LockStep::Reply(status(id, SSH_FX_OP_UNSUPPORTED, "Lock requires SFTP v5+"))
    } else if target != HandleTarget::File {
        LockStep::Reply(status(id, SSH_FX_FAILURE, "Invalid handle"))
    } else if locked {
        LockStep::Reply(status(id, SSH_FX_OK, "Already locked"))
    } else {
        LockStep::Proceed
    }
}

/// `UNLOCK` needs the handle of an open file; a file that is not locked is answered
/// at once.
pub open spec fn spec_unlock_step(id: u32, target: HandleTarget, locked: bool) -> Option<Seq<u8>> {
    if target != HandleTarget::File {
        Some(status_reply(id, SSH_FX_FAILURE, "Invalid handle"@))
    } else if !locked {
        Some(status_reply(id, SSH_FX_OK, "Not locked"@))
    } else {
        None
    }
}

pub fn unlock_step(id: u32, target: HandleTarget, locked: bool) -> (r: LockStep)
    ensures
        lock_view(r) == spec_unlock_step(id, target, locked),
{
    if target != HandleTarget::File {
        LockStep::Reply(status(id, SSH_FX_FAILURE, "Invalid handle"))
    } else if !locked {
        LockStep::Reply(status(id, SSH_FX_OK, "Not locked"))
    } else {
        LockStep::Proceed
    }
}

} // verus!
