//! Cutting the byte stream of an SFTP channel into packets.
//!
//! Each packet is a 32-bit big-endian length followed by that many bytes. A length of
//! zero or above [`MAX_PACKET_SIZE`] makes the whole buffered input worthless: it is
//! dropped and a failure status is answered.

use vstd::prelude::*;
use vstd::string::*;
use vstd::utf8::encode_utf8;
use crate::bytes::{be_u32_at, copy_range, lemma_be_u32_roundtrip, push_bytes, read_u32_be};
use crate::packet::{
    build_status_packet, spec_build_packet, spec_status_payload, SSH_FX_FAILURE,
};

verus! {

pub const MAX_PACKET_SIZE: usize = 262144;

/// What the buffered input yields next.
pub enum Frame {
    /// A complete packet body (without its length).
    Packet(Vec<u8>),
    /// The announced length is invalid: this status reply is answered and the
    /// buffered input is dropped.
    Invalid(Vec<u8>),
    /// More input is needed.
    Incomplete,
}

pub enum FrameView {
    Packet(Seq<u8>),
    Invalid(Seq<u8>),
    Incomplete,
}

pub open spec fn frame_view(f: Frame) -> FrameView {
    match f {
        Frame::Packet(p) => FrameView::Packet(p@),
        Frame::Invalid(s) => FrameView::Invalid(s@),
        Frame::Incomplete => FrameView::Incomplete,
    }
}

/// The status reply to an invalid packet length.
pub open spec fn invalid_length_reply() -> Seq<u8> {
    spec_build_packet(
        spec_status_payload(0, SSH_FX_FAILURE, encode_utf8("Invalid packet length"@), encode_utf8(""@)),
    )
}

/// What the next frame of `buf` is, and what stays buffered after it.
pub open spec fn spec_next_frame(buf: Seq<u8>) -> (FrameView, Seq<u8>) {
    if buf.len() < 4 {
        (FrameView::Incomplete, buf)
    } else {
        let n = be_u32_at(buf, 0);
        if n == 0 || n > MAX_PACKET_SIZE {
            (FrameView::Invalid(invalid_length_reply()), Seq::empty())
        } else if buf.len() < 4 + n {
            (FrameView::Incomplete, buf)
        } else {
            (FrameView::Packet(buf.subrange(4, 4 + n)), buf.skip(4 + n))
        }
    }
}

pub struct SftpFramer {
    buffer: Vec<u8>,
}

impl SftpFramer {
    /// The bytes received and not yet cut into packets.
    pub closed spec fn pending(&self) -> Seq<u8> {
        self.buffer@
    }

    pub fn new() -> (r: Self)
        ensures
            r.pending() == Seq::<u8>::empty(),
    {
        SftpFramer { buffer: Vec::new() }
    }

    /// Appends received bytes.
    pub fn push(&mut self, data: &[u8])
        ensures
            final(self).pending() == old(self).pending() + data@,
    {
        push_bytes(&mut self.buffer, data);
    }

    /// How many received bytes wait for the rest of their packet.
    pub fn pending_len(&self) -> (r: usize)
        ensures
            r == self.pending().len(),
    {
        self.buffer.len()
    }

    /// Drops an incomplete packet when the channel reaches its end or closes.
    pub fn discard_pending(&mut self)
        ensures
            final(self).pending() == Seq::<u8>::empty(),
    {
        self.buffer = Vec::new();
    }

    /// Cuts the next packet off the buffered input.
    pub fn next_frame(&mut self) -> (r: Frame)
        ensures
            (frame_view(r), final(self).pending()) == spec_next_frame(old(self).pending()),
    {
        if self.buffer.len() < 4 {
            return Frame::Incomplete;
        }
        let n = read_u32_be(self.buffer.as_slice(), 0) as usize;
        if n == 0 || n > MAX_PACKET_SIZE {
            self.buffer = Vec::new();
            let reply = build_status_packet(0, SSH_FX_FAILURE, "Invalid packet length", "");
            return Frame::Invalid(reply);
        }
        if self.buffer.len() - 4 < n {
            return Frame::Incomplete;
        }
        let body = copy_range(self.buffer.as_slice(), 4, 4 + n);
        let rest = copy_range(self.buffer.as_slice(), 4 + n, self.buffer.len());
        assert(rest@ =~= old(self).pending().skip(4 + n));
        self.buffer = rest;
        Frame::Packet(body)
    }
}

/// A framed packet is cut off whole from the front of the input, whatever follows it.
pub proof fn lemma_frame_roundtrip(payload: Seq<u8>, rest: Seq<u8>)
    requires
        0 < payload.len() <= MAX_PACKET_SIZE,
    ensures
        spec_next_frame(spec_build_packet(payload) + rest) == (FrameView::Packet(payload), rest),
{
    let buf = spec_build_packet(payload) + rest;
    lemma_be_u32_roundtrip(payload.len() as u32);
    let hdr = spec_build_packet(payload).subrange(0, 4);
    assert(buf[0] == hdr[0] && buf[1] == hdr[1] && buf[2] == hdr[2] && buf[3] == hdr[3]);
    assert(be_u32_at(buf, 0) == payload.len());
    assert(buf.subrange(4, 4 + payload.len() as int) =~= payload);
    assert(buf.skip(4 + payload.len() as int) =~= rest);
}

/// Input that stops inside a packet yields nothing yet and is kept as it is.
pub proof fn lemma_frame_waits(payload: Seq<u8>, k: int)
    requires
        0 < payload.len() <= MAX_PACKET_SIZE,
        0 <= k < spec_build_packet(payload).len(),
    ensures
        spec_next_frame(spec_build_packet(payload).take(k)) == (
            FrameView::Incomplete,
            spec_build_packet(payload).take(k),
        ),
{
    let full = spec_build_packet(payload);
    let buf = full.take(k);
    lemma_be_u32_roundtrip(payload.len() as u32);
    if k >= 4 {
        assert(buf[0] == full[0] && buf[1] == full[1] && buf[2] == full[2] && buf[3] == full[3]);
        assert(be_u32_at(buf, 0) == be_u32_at(full, 0));
    }
}

/// Cutting packets off `buf` until none is complete: the packets in order, what stays
/// buffered, and whether every length met on the way was valid (an invalid length
/// drops the input and ends the cutting).
pub open spec fn spec_drain(buf: Seq<u8>) -> (Seq<Seq<u8>>, Seq<u8>, bool)
    decreases buf.len(),
{
    match spec_next_frame(buf) {
        (FrameView::Packet(p), rest) => if rest.len() < buf.len() {
            let (ps, left, ok) = spec_drain(rest);
            (seq![p] + ps, left, ok)
        } else {
            (Seq::empty(), buf, false)
        },
        (FrameView::Incomplete, _) => (Seq::empty(), buf, true),
        (FrameView::Invalid(_), _) => (Seq::empty(), Seq::empty(), false),
    }
}

proof fn lemma_next_frame_extends(b: Seq<u8>, x: Seq<u8>)
    requires
        spec_next_frame(b).0 is Packet,
    ensures
        spec_next_frame(b + x).0 == spec_next_frame(b).0,
        spec_next_frame(b + x).1 == spec_next_frame(b).1 + x,
        spec_next_frame(b).1.len() < b.len(),
{
    let c = b + x;
    assert(c[0] == b[0] && c[1] == b[1] && c[2] == b[2] && c[3] == b[3]);
    assert(be_u32_at(c, 0) == be_u32_at(b, 0));
    let n = be_u32_at(b, 0);
    assert(c.subrange(4, 4 + n) =~= b.subrange(4, 4 + n));
    assert(c.skip(4 + n) =~= b.skip(4 + n) + x);
}

proof fn lemma_invalid_extends(b: Seq<u8>, x: Seq<u8>)
    requires
        spec_next_frame(b).0 is Invalid,
    ensures
        spec_next_frame(b + x).0 is Invalid,
{
    let c = b + x;
    assert(c[0] == b[0] && c[1] == b[1] && c[2] == b[2] && c[3] == b[3]);
    assert(be_u32_at(c, 0) == be_u32_at(b, 0));
}

/// Input that arrives in two parts is cut into the same packets, and leaves the same
/// bytes buffered, as the whole input at once: the packets of the first part, then
/// those of what it left buffered followed by the second part. Stated for input whose
/// lengths are all valid.
pub proof fn lemma_drain_split(d1: Seq<u8>, d2: Seq<u8>)
    requires
        spec_drain(d1 + d2).2,
    ensures
        ({
            let (ps1, left1, ok1) = spec_drain(d1);
            let (ps2, left2, ok2) = spec_drain(left1 + d2);
            &&& ok1 && ok2
            &&& spec_drain(d1 + d2) == (ps1 + ps2, left2, true)
        }),
    decreases d1.len(),
{
    let (f, rest) = spec_next_frame(d1);
    match f {
        FrameView::Packet(p) => {
            lemma_next_frame_extends(d1, d2);
            assert(spec_next_frame(d1 + d2).1 == rest + d2);
            assert((d1 + d2).len() > (rest + d2).len());
            lemma_drain_split(rest, d2);
            let (ps, left, ok) = spec_drain(rest);
            let (ps2, left2, ok2) = spec_drain(left + d2);
            assert(spec_drain(d1) == (seq![p] + ps, left, ok));
            assert(seq![p] + (ps + ps2) =~= (seq![p] + ps) + ps2);
        },
        FrameView::Incomplete => {
            assert(spec_drain(d1) == (Seq::<Seq<u8>>::empty(), d1, true));
            assert(Seq::<Seq<u8>>::empty() + spec_drain(d1 + d2).0 =~= spec_drain(d1 + d2).0);
        },
        FrameView::Invalid(_) => {
            lemma_invalid_extends(d1, d2);
        },
    }
}

} // verus!
