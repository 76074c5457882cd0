//! Tests of the wire protocol: header layout, payload encodings, the
//! decode of each kind, and the codec's framing and memory ceiling.

use pow::codec::Codec;
use pow::message::{
    Challenge, CodecError, DeserializedMessage, Header, Message, MessageKind, Request, Response,
    Serializeable, Solution,
};

#[test]
fn header_layout_is_fixed() {
    let h = Header { length: 0x01020304, kind: MessageKind::Solution };
    let bytes = h.encode();
    assert_eq!(bytes, vec![0x04, 0x03, 0x02, 0x01, 2]);
    let back = Header::decode(&bytes).unwrap();
    assert_eq!(back.length, 0x01020304);
    assert_eq!(back.kind, MessageKind::Solution);
}

#[test]
fn header_rejects_unknown_tag() {
    let bytes = vec![0, 0, 0, 0, 9];
    assert_eq!(Header::decode(&bytes).unwrap_err(), CodecError::Decode);
    // and a wrong byte count
    assert_eq!(Header::decode(&[0, 0, 0, 0]).unwrap_err(), CodecError::Decode);
}

#[test]
fn request_round_trip() {
    for number in [None, Some(0usize), Some(7), Some(usize::MAX)] {
        let r = Request { number };
        let bytes = r.encode();
        match MessageKind::Request.parse_from_bytes(&bytes).unwrap() {
            DeserializedMessage::Request(back) => assert_eq!(back.number, number),
            _ => panic!("wrong kind"),
        }
    }
}

#[test]
fn challenge_round_trip() {
    let c = Challenge { session: 3, string: vec![5, 6, 7, 8, 9], target: u128::MAX >> 13 };
    let bytes = c.encode();
    match MessageKind::Challenge.parse_from_bytes(&bytes).unwrap() {
        DeserializedMessage::Challenge(back) => {
            assert_eq!(back.session, 3);
            assert_eq!(back.string, vec![5, 6, 7, 8, 9]);
            assert_eq!(back.target, u128::MAX >> 13);
        }
        _ => panic!("wrong kind"),
    }
}

#[test]
fn solution_round_trip() {
    let s = Solution { session: 11, nonce: 0xfeedface_deadbeef_0123456789abcdefu128 };
    let bytes = s.encode();
    match MessageKind::Solution.parse_from_bytes(&bytes).unwrap() {
        DeserializedMessage::Solution(back) => {
            assert_eq!(back.session, 11);
            assert_eq!(back.nonce, 0xfeedface_deadbeef_0123456789abcdefu128);
        }
        _ => panic!("wrong kind"),
    }
}

#[test]
fn response_round_trip() {
    let ok = Response { session: 1, result: Ok(String::from("w\u{00f6}rd \u{03c0}")) };
    let bytes = ok.encode();
    match MessageKind::Response.parse_from_bytes(&bytes).unwrap() {
        DeserializedMessage::Response(back) => {
            assert_eq!(back.session, 1);
            assert_eq!(back.result, Ok(String::from("w\u{00f6}rd \u{03c0}")));
        }
        _ => panic!("wrong kind"),
    }
    let err = Response { session: 2, result: Err(String::from("no")) };
    let bytes = err.encode();
    match MessageKind::Response.parse_from_bytes(&bytes).unwrap() {
        DeserializedMessage::Response(back) => {
            assert_eq!(back.session, 2);
            assert_eq!(back.result, Err(String::from("no")));
        }
        _ => panic!("wrong kind"),
    }
}

#[test]
fn decode_rejects_malformed_payloads() {
    // truncated challenge
    let r = MessageKind::Challenge.parse_from_bytes(&[1, 2, 3]);
    assert_eq!(r.unwrap_err(), CodecError::Decode);
    // solution with a stray trailing byte
    let mut bytes = Solution { session: 0, nonce: 0 }.encode();
    bytes.push(0);
    assert_eq!(MessageKind::Solution.parse_from_bytes(&bytes).unwrap_err(), CodecError::Decode);
    // request with a bad presence flag
    assert_eq!(MessageKind::Request.parse_from_bytes(&[2]).unwrap_err(), CodecError::Decode);
    // challenge whose length prefix disagrees with the byte count
    let mut c = Challenge { session: 0, string: vec![1, 2, 3], target: 0 }.encode();
    c.pop();
    assert_eq!(MessageKind::Challenge.parse_from_bytes(&c).unwrap_err(), CodecError::Decode);
}

#[test]
fn decode_rejects_bad_utf8_and_bad_result_tag() {
    // session 0, Ok tag, declared length 2, invalid UTF-8 bytes
    let mut bytes = vec![0, 0, 0, 0, 0];
    bytes.extend_from_slice(&2u64.to_le_bytes());
    bytes.extend_from_slice(&[0xff, 0xfe]);
    assert_eq!(MessageKind::Response.parse_from_bytes(&bytes).unwrap_err(), CodecError::Decode);
    // a result tag other than 0 or 1
    let mut bytes = vec![0, 0, 0, 0, 5];
    bytes.extend_from_slice(&0u64.to_le_bytes());
    assert_eq!(MessageKind::Response.parse_from_bytes(&bytes).unwrap_err(), CodecError::Decode);
}

#[test]
fn message_header_counts_payload_bytes() {
    let payload = Request { number: Some(1) };
    let encoded_len = payload.encode().len();
    let msg = Message::new(payload);
    assert_eq!(msg.header().length as usize, encoded_len);
    assert_eq!(msg.header().kind, MessageKind::Request);
    assert_eq!(msg.payload().number, Some(1));
}

#[test]
fn codec_frames_and_reads_back() {
    let mut writer = Codec::new(1024);
    let frame = writer.write(Message::new(Challenge {
        session: 9,
        string: vec![1, 2, 3],
        target: 77,
    }));
    // the peer reads the five header bytes, then the payload
    let header = Header::decode(&frame[0..5]).unwrap();
    assert_eq!(header.kind, MessageKind::Challenge);
    assert_eq!(header.length as usize, frame.len() - 5);
    let mut reader = Codec::new(1024);
    reader.begin_read();
    reader.accept(&frame[5..]).unwrap();
    match reader.finish_read(&header).unwrap() {
        DeserializedMessage::Challenge(back) => {
            assert_eq!(back.session, 9);
            assert_eq!(back.string, vec![1, 2, 3]);
            assert_eq!(back.target, 77);
        }
        _ => panic!("wrong kind"),
    }
}

#[test]
fn memory_ceiling_is_enforced() {
    // a declared payload of 1000 bytes against a 16-byte ceiling fails with
    // resource exhaustion as soon as the buffer would overflow
    let declared: usize = 1000;
    let mut codec = Codec::new(16);
    codec.begin_read();
    let mut remaining = declared;
    let mut failed = None;
    while remaining > 0 {
        let chunk = vec![0u8; remaining.min(256)];
        match codec.accept(&chunk) {
            Ok(()) => remaining -= chunk.len(),
            Err(e) => {
                failed = Some(e);
                break;
            }
        }
    }
    assert_eq!(failed, Some(CodecError::MemoryLimit));
}

#[test]
fn ceiling_admits_fitting_payloads() {
    let mut codec = Codec::new(16);
    codec.begin_read();
    codec.accept(&[0u8; 10]).unwrap();
    codec.accept(&[0u8; 6]).unwrap();
    assert_eq!(codec.accept(&[0u8; 1]).unwrap_err(), CodecError::MemoryLimit);
}

#[test]
fn finish_read_requires_exact_length() {
    let mut codec = Codec::new(64);
    codec.begin_read();
    let bytes = Solution { session: 1, nonce: 2 }.encode();
    codec.accept(&bytes).unwrap();
    let short = Header { length: bytes.len() as u32 + 1, kind: MessageKind::Solution };
    assert_eq!(codec.finish_read(&short).unwrap_err(), CodecError::Decode);
    let exact = Header { length: bytes.len() as u32, kind: MessageKind::Solution };
    assert!(codec.finish_read(&exact).is_ok());
}
