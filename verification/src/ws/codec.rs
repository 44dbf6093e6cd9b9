//! Opcode namespace and compact binary frame codec for the WS protocol.
//!
//! Every frame on the wire is `[opcode:u8][length:u32 big-endian][payload]`.

use bytes::BufMut;
use bytes::BytesMut;
use vstd::prelude::*;
use vstd::slice::slice_subrange;

verus! {

/// Protocol version negotiated at connect time.
pub const PROTOCOL_VERSION: u8 = 1;

/// Max on-wire payload (4 MiB); larger data must be chunked by the sender.
pub const MAX_PAYLOAD: usize = 4194304;

/// Length of the fixed frame header (opcode byte plus 4-byte length).
pub const HEADER_LEN: usize = 5;

#[verifier::external_type_specification]
#[verifier::external_body]
pub struct ExBytesMut(bytes::BytesMut);

/// The bytes a `BytesMut` buffer holds, in order.
pub uninterp spec fn buf_bytes(b: BytesMut) -> Seq<u8>;

/// `BytesMut::with_capacity`: a new, empty buffer. A capacity past
/// `isize::MAX` makes the allocation panic, so it is kept out.
#[verifier::external_body]
fn buf_with_capacity(cap: usize) -> (b: BytesMut)
    requires
        cap <= isize::MAX,
    ensures
        buf_bytes(b) == Seq::<u8>::empty(),
{
    BytesMut::with_capacity(cap)
}

/// `BufMut::put_u8` on a `BytesMut`: appends one byte.
#[verifier::external_body]
fn buf_put_u8(b: &mut BytesMut, v: u8)
    requires
        buf_bytes(*old(b)).len() + 1 <= isize::MAX,
    ensures
        buf_bytes(*final(b)) == buf_bytes(*old(b)).push(v),
{
    b.put_u8(v)
}

/// `BufMut::put_u32` on a `BytesMut`: appends the big-endian bytes of `v`.
#[verifier::external_body]
fn buf_put_u32(b: &mut BytesMut, v: u32)
    requires
        buf_bytes(*old(b)).len() + 4 <= isize::MAX,
    ensures
        buf_bytes(*final(b)) == buf_bytes(*old(b)) + be32_bytes(v),
{
    b.put_u32(v)
}

/// `BufMut::put_slice` on a `BytesMut`: appends the slice.
#[verifier::external_body]
fn buf_put_slice(b: &mut BytesMut, s: &[u8])
    requires
        buf_bytes(*old(b)).len() + s@.len() <= isize::MAX,
    ensures
        buf_bytes(*final(b)) == buf_bytes(*old(b)) + s@,
{
    b.put_slice(s)
}

/// `BytesMut::from(&[u8])`: a buffer holding a copy of the slice.
#[verifier::external_body]
fn buf_from_slice(s: &[u8]) -> (b: BytesMut)
    ensures
        buf_bytes(b) == s@,
{
    BytesMut::from(s)
}

/// `<BytesMut as AsRef<[u8]>>::as_ref`: the buffer's contents as a slice.
#[verifier::external_body]
pub(crate) fn buf_as_slice(b: &BytesMut) -> (s: &[u8])
    ensures
        s@ == buf_bytes(*b),
{
    b.as_ref()
}

/// `BytesMut::split_to`: removes and returns the first `at` bytes.
#[verifier::external_body]
fn buf_split_to(b: &mut BytesMut, at: usize) -> (front: BytesMut)
    requires
        at <= buf_bytes(*old(b)).len(),
    ensures
        buf_bytes(front) == buf_bytes(*old(b)).subrange(0, at as int),
        buf_bytes(*final(b)) == buf_bytes(*old(b)).subrange(at as int, buf_bytes(*old(b)).len() as int),
{
    b.split_to(at)
}

/// Big-endian bytes of a 32-bit value.
pub open spec fn be32_bytes(v: u32) -> Seq<u8> {
    seq![(v >> 24u32) as u8, (v >> 16u32) as u8, (v >> 8u32) as u8, v as u8]
}

/// The value of four big-endian bytes.
pub open spec fn be32_value(b0: u8, b1: u8, b2: u8, b3: u8) -> int {
    b0 * 16777216 + b1 * 65536 + b2 * 256 + b3
}

proof fn lemma_be32_roundtrip(v: u32)
    ensures
        be32_value(be32_bytes(v)[0], be32_bytes(v)[1], be32_bytes(v)[2], be32_bytes(v)[3]) == v,
{
    let b0 = (v >> 24u32) as u8;
    let b1 = (v >> 16u32) as u8;
    let b2 = (v >> 8u32) as u8;
    let b3 = v as u8;
    assert(b0 as u32 * 16777216u32 + b1 as u32 * 65536u32 + b2 as u32 * 256u32 + b3 as u32 == v
        && b0 as u32 <= 255 && b1 as u32 <= 255 && b2 as u32 <= 255) by (bit_vector)
        requires
            b0 == (v >> 24u32) as u8,
            b1 == (v >> 16u32) as u8,
            b2 == (v >> 8u32) as u8,
            b3 == v as u8,
    ;
}

/// Opcodes client to server.
#[derive(Debug, Clone, Copy, PartialEq, Eq, Structural)]
pub enum OpCode {
    /// Handshake: auth token, preferred language and voice.
    Hello,
    /// UTF-8 text prompt for the brain.
    Text,
    /// A chunk of audio to transcribe.
    Voice,
    /// Update runtime settings.
    Config,
    /// Client heartbeat; the server replies with `Pong`.
    Ping,
    /// Request conversation history for the session.
    History,
}

/// Opcodes server to client.
#[derive(Debug, Clone, Copy, PartialEq, Eq, Structural)]
pub enum OpReply {
    /// ACK for a completed handshake.
    Hello,
    /// One incremental text delta of the LLM answer.
    TextDelta,
    /// One chunk of synthesized voice ready to play.
    VoiceChunk,
    /// State transition notification.
    Status,
    /// Structured error (code and message).
    Error,
    /// Metadata update (active voice and language).
    Meta,
    /// Reply to a client `Ping`.
    Pong,
    /// Full conversation history.
    History,
    /// Final marker for a completed text reply.
    TextEnd,
}

/// The wire byte of each client opcode.
pub open spec fn opcode_byte(op: OpCode) -> u8 {
    match op {
        OpCode::Hello => 0x01,
        OpCode::Text => 0x02,
        OpCode::Voice => 0x03,
        OpCode::Config => 0x04,
        OpCode::Ping => 0x05,
        OpCode::History => 0x06,
    }
}

/// The wire byte of each server opcode.
pub open spec fn reply_byte(op: OpReply) -> u8 {
    match op {
        OpReply::Hello => 0x81,
        OpReply::TextDelta => 0x82,
        OpReply::VoiceChunk => 0x83,
        OpReply::Status => 0x84,
        OpReply::Error => 0x85,
        OpReply::Meta => 0x86,
        OpReply::Pong => 0x87,
        OpReply::History => 0x88,
        OpReply::TextEnd => 0x89,
    }
}

/// The client opcode a wire byte stands for, if any.
pub open spec fn opcode_of(b: u8) -> Option<OpCode> {
    if b == 0x01 {
        Some(OpCode::Hello)
    } else if b == 0x02 {
        Some(OpCode::Text)
    } else if b == 0x03 {
        Some(OpCode::Voice)
    } else if b == 0x04 {
        Some(OpCode::Config)
    } else if b == 0x05 {
        Some(OpCode::Ping)
    } else if b == 0x06 {
        Some(OpCode::History)
    } else {
        None
    }
}

impl OpCode {
    /// Parse a raw opcode byte against the known client set.
    pub fn from_byte(b: u8) -> (r: Option<OpCode>)
        ensures
            r == opcode_of(b),
            r matches Some(op) ==> opcode_byte(op) == b,
            r is None <==> !(0x01 <= b <= 0x06),
    {
        match b {
            0x01 => Some(OpCode::Hello),
            0x02 => Some(OpCode::Text),
            0x03 => Some(OpCode::Voice),
            0x04 => Some(OpCode::Config),
            0x05 => Some(OpCode::Ping),
            0x06 => Some(OpCode::History),
            _ => None,
        }
    }

    /// The wire byte of this opcode.
    pub fn to_byte(self) -> (b: u8)
        ensures
            b == opcode_byte(self),
    {
        match self {
            OpCode::Hello => 0x01,
            OpCode::Text => 0x02,
            OpCode::Voice => 0x03,
            OpCode::Config => 0x04,
            OpCode::Ping => 0x05,
            OpCode::History => 0x06,
        }
    }
}

/// The server's reply opcodes on the wire, as the protocol documents them
/// (Hello 0x81, TextDelta 0x82, VoiceChunk 0x83, Status 0x84, Error 0x85,
/// Meta 0x86, Pong 0x87, History 0x88, TextEnd 0x89): distinct replies
/// never share a byte, every reply byte has the high bit set, and none is
/// read as a client opcode.
pub proof fn lemma_reply_bytes(a: OpReply, b: OpReply)
    ensures
        reply_byte(a) == reply_byte(b) ==> a == b,
        0x81 <= reply_byte(a) <= 0x89,
        opcode_of(reply_byte(a)) is None,
        reply_byte(OpReply::Hello) == 0x81,
        reply_byte(OpReply::TextDelta) == 0x82,
        reply_byte(OpReply::VoiceChunk) == 0x83,
        reply_byte(OpReply::Status) == 0x84,
        reply_byte(OpReply::Error) == 0x85,
        reply_byte(OpReply::Meta) == 0x86,
        reply_byte(OpReply::Pong) == 0x87,
        reply_byte(OpReply::History) == 0x88,
        reply_byte(OpReply::TextEnd) == 0x89,
{
}

impl OpReply {
    /// The wire byte of this reply opcode.
    pub fn to_byte(self) -> (b: u8)
        ensures
            b == reply_byte(self),
    {
        match self {
            OpReply::Hello => 0x81,
            OpReply::TextDelta => 0x82,
            OpReply::VoiceChunk => 0x83,
            OpReply::Status => 0x84,
            OpReply::Error => 0x85,
            OpReply::Meta => 0x86,
            OpReply::Pong => 0x87,
            OpReply::History => 0x88,
            OpReply::TextEnd => 0x89,
        }
    }
}

/// The on-wire bytes of a frame.
pub open spec fn frame_bytes(op: u8, payload: Seq<u8>) -> Seq<u8> {
    seq![op] + be32_bytes(payload.len() as u32) + payload
}

/// What decoding a buffer yields: the opcode, the payload and the number of
/// bytes consumed, or nothing when no complete, admissible frame is at the
/// front of the buffer.
pub open spec fn spec_decode(buf: Seq<u8>) -> Option<(u8, Seq<u8>, int)> {
    if buf.len() < HEADER_LEN {
        None
    } else {
        let len = be32_value(buf[1], buf[2], buf[3], buf[4]);
        if len > MAX_PAYLOAD {
            None
        } else if buf.len() < HEADER_LEN + len {
            None
        } else {
            Some((buf[0], buf.subrange(HEADER_LEN as int, HEADER_LEN + len), HEADER_LEN + len))
        }
    }
}

/// A decoded frame: the raw opcode byte and its payload.
pub struct WsFrame {
    pub op: u8,
    pub payload: BytesMut,
}

impl WsFrame {
    /// Encode a response frame. Returns `None` if the payload exceeds the
    /// frame-size cap (the caller should chunk).
    pub fn encode(op: OpReply, payload: &[u8]) -> (r: Option<BytesMut>)
        ensures
            r is None <==> payload@.len() > MAX_PAYLOAD,
            r matches Some(b) ==> buf_bytes(b) == frame_bytes(reply_byte(op), payload@),
    {
        if payload.len() > MAX_PAYLOAD {
            return None;
        }
        let mut out = buf_with_capacity(HEADER_LEN + payload.len());
        buf_put_u8(&mut out, op.to_byte());
        buf_put_u32(&mut out, payload.len() as u32);
        buf_put_slice(&mut out, payload);
        Some(out)
    }

    /// Decode a single frame from the front of a byte slice. Returns the frame
    /// plus the number of bytes consumed, allowing pipelined buffers.
    pub fn decode(buf: &[u8]) -> (r: Option<(WsFrame, usize)>)
        ensures
            match spec_decode(buf@) {
                None => r is None,
                Some((op, payload, n)) => r matches Some((f, m)) && f.op == op && buf_bytes(
                    f.payload,
                ) == payload && m == n,
            },
    {
        if buf.len() < HEADER_LEN {
            return None;
        }
        let op = buf[0];
        let len: u64 = (buf[1] as u64) * 16777216 + (buf[2] as u64) * 65536 + (buf[3] as u64)
            * 256 + (buf[4] as u64);
        if len > MAX_PAYLOAD as u64 {
            return None;
        }
        let len = len as usize;
        let total = HEADER_LEN + len;
        if buf.len() < total {
            return None;
        }
        let payload = buf_from_slice(slice_subrange(buf, HEADER_LEN, total));
        Some((WsFrame { op, payload }, total))
    }
}

/// Decoding an encoded frame gives back its opcode and payload, and consumes
/// exactly the frame, whatever bytes follow it in the buffer.
pub proof fn lemma_decode_encoded(op: u8, payload: Seq<u8>, rest: Seq<u8>)
    requires
        payload.len() <= MAX_PAYLOAD,
    ensures
        spec_decode(frame_bytes(op, payload) + rest) == Some(
            (op, payload, HEADER_LEN + payload.len()),
        ),
{
    let buf = frame_bytes(op, payload) + rest;
    let hdr = be32_bytes(payload.len() as u32);
    lemma_be32_roundtrip(payload.len() as u32);
    assert(buf[0] == op);
    assert(buf[1] == hdr[0] && buf[2] == hdr[1] && buf[3] == hdr[2] && buf[4] == hdr[3]);
    assert(buf.subrange(HEADER_LEN as int, HEADER_LEN + payload.len()) =~= payload);
}

/// No strict prefix of an encoded frame decodes: a partially buffered frame
/// is never mistaken for a complete one.
pub proof fn lemma_prefix_not_decoded(op: u8, payload: Seq<u8>, k: int)
    requires
        payload.len() <= MAX_PAYLOAD,
        0 <= k < HEADER_LEN + payload.len(),
    ensures
        spec_decode(frame_bytes(op, payload).subrange(0, k)) is None,
{
    let full = frame_bytes(op, payload);
    let buf = full.subrange(0, k);
    if k >= HEADER_LEN {
        lemma_be32_roundtrip(payload.len() as u32);
        assert(buf[1] == full[1] && buf[2] == full[2] && buf[3] == full[3] && buf[4] == full[4]);
    }
}

/// The bytes of a sequence of encoded frames, one after the other.
pub open spec fn frames_bytes(fs: Seq<(u8, Seq<u8>)>) -> Seq<u8>
    decreases fs.len(),
{
    if fs.len() == 0 {
        Seq::empty()
    } else {
        frame_bytes(fs[0].0, fs[0].1) + frames_bytes(fs.drop_first())
    }
}

/// Pipelining: in a buffer holding several encoded frames followed by any
/// bytes, decoding yields the first frame and consumes exactly it, so the
/// rest of the buffer holds the remaining frames followed by those bytes.
#[verifier::spinoff_prover]
#[verifier::rlimit(40)]
pub proof fn lemma_pipelined_frames(fs: Seq<(u8, Seq<u8>)>, rest: Seq<u8>)
    requires
        fs.len() > 0,
        forall|i: int| 0 <= i < fs.len() ==> (#[trigger] fs[i]).1.len() <= MAX_PAYLOAD,
    ensures
        spec_decode(frames_bytes(fs) + rest) == Some(
            (fs[0].0, fs[0].1, HEADER_LEN + fs[0].1.len()),
        ),
        (frames_bytes(fs) + rest).subrange(
            HEADER_LEN + fs[0].1.len(),
            (frames_bytes(fs) + rest).len() as int,
        ) == frames_bytes(fs.drop_first()) + rest,
{
    let first = frame_bytes(fs[0].0, fs[0].1);
    let tail0 = frames_bytes(fs.drop_first());
    let tail = tail0 + rest;
    assert(fs[0].1.len() <= MAX_PAYLOAD);
    assert(frames_bytes(fs) == first + tail0);
    assert((first + tail0) + rest =~= first + tail);
    lemma_decode_encoded(fs[0].0, fs[0].1, tail);
    assert(first.len() == HEADER_LEN + fs[0].1.len());
    assert((first + tail).subrange(first.len() as int, (first + tail).len() as int) =~= tail);
}

/// Bytes received on a connection and not yet decoded into frames.
pub struct FrameBuffer {
    buf: BytesMut,
}

impl FrameBuffer {
    /// The bytes waiting to be decoded.
    pub closed spec fn pending(&self) -> Seq<u8> {
        buf_bytes(self.buf)
    }

    /// An empty buffer.
    pub fn new() -> (b: Self)
        ensures
            b.pending() == Seq::<u8>::empty(),
    {
        FrameBuffer { buf: buf_with_capacity(8192) }
    }

    /// The number of bytes waiting.
    pub fn len(&self) -> (n: usize)
        ensures
            n == self.pending().len(),
    {
        buf_as_slice(&self.buf).len()
    }

    /// Append received bytes.
    pub fn push(&mut self, data: &[u8])
        requires
            old(self).pending().len() + data@.len() <= isize::MAX,
        ensures
            final(self).pending() == old(self).pending() + data@,
    {
        buf_put_slice(&mut self.buf, data);
    }

    /// Take the next complete frame off the front of the buffer, if there is
    /// one; the buffer keeps the bytes after it.
    pub fn next_frame(&mut self) -> (r: Option<WsFrame>)
        ensures
            match spec_decode(old(self).pending()) {
                None => r is None && final(self).pending() == old(self).pending(),
                Some((op, payload, n)) => r matches Some(f) && f.op == op && buf_bytes(f.payload)
                    == payload && final(self).pending() == old(self).pending().subrange(
                    n,
                    old(self).pending().len() as int,
                ),
            },
    {
        let decoded = WsFrame::decode(buf_as_slice(&self.buf));
        match decoded {
            None => None,
            Some((frame, consumed)) => {
                let _ = buf_split_to(&mut self.buf, consumed);
                Some(frame)
            },
        }
    }
}

} // verus!
