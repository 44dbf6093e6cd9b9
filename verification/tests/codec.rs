use anubis_core::ws::codec::{FrameBuffer, OpCode, OpReply, WsFrame, MAX_PAYLOAD};
use bytes::{BufMut, BytesMut};

#[test]
fn frame_roundtrips() {
    let payload = b"hello world";
    let enc = WsFrame::encode(OpReply::TextDelta, payload).unwrap();
    let (frame, consumed) = WsFrame::decode(&enc).unwrap();
    assert_eq!(frame.op, OpReply::TextDelta.to_byte());
    assert_eq!(consumed, 5 + payload.len());
    assert_eq!(frame.payload.as_ref(), payload);

    // Client opcodes also round-trip through decode.
    let text = WsFrame::encode(OpReply::Status, b"thinking").unwrap();
    let (f2, c2) = WsFrame::decode(&text).unwrap();
    assert_eq!(f2.op, OpReply::Status.to_byte());
    assert_eq!(c2, text.len());
}

#[test]
fn frame_rejects_jumbo_length() {
    // A forged 8-byte header claiming a huge payload must be rejected.
    let mut buf = BytesMut::new();
    buf.put_u8(0x02);
    buf.put_u32(u32::MAX); // more than the 4 MiB cap
    buf.put_slice(b"x");
    assert!(WsFrame::decode(&buf).is_none());
}

#[test]
fn frame_decodes_partial_and_full() {
    let full = WsFrame::encode(OpReply::Pong, b"pong").unwrap();
    // Feeding it header+0 bytes: not decodable yet.
    assert!(WsFrame::decode(&full[..5]).is_none());
    // Full frame decodes.
    let (_, consumed) = WsFrame::decode(&full).unwrap();
    assert_eq!(consumed, full.len());
}

#[test]
fn encoded_header_is_opcode_then_big_endian_length() {
    let enc = WsFrame::encode(OpReply::Error, &[7u8; 300]).unwrap();
    assert_eq!(&enc[..5], &[0x85, 0, 0, 1, 44]);
    assert_eq!(enc.len(), 305);
}

#[test]
fn oversized_payload_is_not_encoded() {
    let big = vec![0u8; MAX_PAYLOAD + 1];
    assert!(WsFrame::encode(OpReply::VoiceChunk, &big).is_none());
    let max = vec![0u8; MAX_PAYLOAD];
    assert_eq!(WsFrame::encode(OpReply::VoiceChunk, &max).unwrap().len(), MAX_PAYLOAD + 5);
}

#[test]
fn every_prefix_of_a_frame_is_incomplete() {
    let full = WsFrame::encode(OpReply::Meta, b"{\"voice\":\"x\"}").unwrap();
    for k in 0..full.len() {
        assert!(WsFrame::decode(&full[..k]).is_none());
    }
}

#[test]
fn pipelined_frames_decode_in_order() {
    let mut buf = FrameBuffer::new();
    let a = WsFrame::encode(OpReply::TextDelta, b"ab").unwrap();
    let b = WsFrame::encode(OpReply::TextEnd, b"").unwrap();
    buf.push(&a);
    buf.push(&b[..3]);
    let f = buf.next_frame().unwrap();
    assert_eq!(f.op, 0x82);
    assert_eq!(f.payload.as_ref(), b"ab");
    assert!(buf.next_frame().is_none());
    buf.push(&b[3..]);
    let g = buf.next_frame().unwrap();
    assert_eq!(g.op, 0x89);
    assert!(g.payload.is_empty());
    assert!(buf.next_frame().is_none());
}

#[test]
fn opcode_bytes_map_both_ways() {
    for b in 0u8..=255 {
        match OpCode::from_byte(b) {
            Some(op) => assert_eq!(op.to_byte(), b),
            None => assert!(b == 0 || b > 6),
        }
    }
    assert_eq!(OpCode::from_byte(0x04), Some(OpCode::Config));
    assert_eq!(OpReply::History.to_byte(), 0x88);
}
