use awproto::message::{decode_message, encode_message, DecodeError, DecodeStage, Message};
use awproto::opcodes::{ClientMessage, MessageType, ServiceClass, SyncMessage, UserMessage};

#[test]
fn empty_header_frame() {
    // Length 1, payload 0100_0000: gsf_null = 0, header_null = 1.
    let msg = decode_message(&[0x01, 0x40]).unwrap();
    assert_eq!(msg.gsf_null, false);
    assert!(msg.header.is_none());
}

#[test]
fn empty_header_frame_preserves_gsf() {
    // Payload 1100_0000: gsf_null = 1, header_null = 1.
    let msg = decode_message(&[0x01, 0xC0]).unwrap();
    assert_eq!(msg.gsf_null, true);
    assert!(msg.header.is_none());
}

#[test]
fn user_server_login_frame() {
    // flags = 0, service_class = 18, opcode = 15 (Login), request_id = 42.
    let frame = [0x06, 0x20, 0xC2, 0x58, 0x3F, 0x15, 0x00];
    let msg = decode_message(&frame).unwrap();
    assert_eq!(msg.gsf_null, false);
    let h = msg.header.unwrap();
    assert_eq!(h.flags, 0);
    assert_eq!(h.message_type, MessageType::User(UserMessage::Login));
    assert_eq!(h.request_id, 42);
    // The encoder builds exactly this minimal frame.
    assert_eq!(encode_message(0, 18, 15, 42), frame.to_vec());
}

#[test]
fn client_add_object_frame() {
    // service_class = -1, opcode = 1 (AddObject).
    let frame = [0x04, 0x20, 0xBE, 0x19, 0xC0];
    let msg = decode_message(&frame).unwrap();
    let h = msg.header.unwrap();
    assert_eq!(h.message_type, MessageType::Client(ClientMessage::AddObject));
    assert_eq!(h.request_id, 7);
    assert_eq!(encode_message(0, -1, 1, 7), frame.to_vec());
}

#[test]
fn sync_village_handoff_query_frame() {
    // service_class = 19, opcode = 5 (VillageHandoffQuery).
    let frame = [0x04, 0x20, 0xC2, 0x72, 0xCE];
    let msg = decode_message(&frame).unwrap();
    let h = msg.header.unwrap();
    assert_eq!(h.message_type, MessageType::Sync(SyncMessage::VillageHandoffQuery));
    assert_eq!(h.request_id, 7);
    assert_eq!(encode_message(0, 19, 5, 7), frame.to_vec());
}

#[test]
fn unknown_opcode_frame() {
    // service_class = 18, opcode = 9999: not in the UserServer table.
    let frame = [0x06, 0x20, 0xC2, 0x5C, 0x4E, 0x1F, 0x08];
    assert_eq!(
        decode_message(&frame),
        Err(DecodeError::UnknownOpcode(ServiceClass::UserServer, 9999))
    );
    assert_eq!(encode_message(0, 18, 9999, 1), frame.to_vec());
}

#[test]
fn length_overrun_frame() {
    // Length prefix 5, payload only 2 bytes.
    assert_eq!(decode_message(&[0x05, 0xAA, 0xBB]), Err(DecodeError::LengthOverrun));
}

#[test]
fn truncated_length() {
    assert_eq!(decode_message(&[]), Err(DecodeError::Truncated(DecodeStage::Length)));
}

#[test]
fn truncated_presence() {
    // Length 0: no payload bits at all.
    assert_eq!(decode_message(&[0x00]), Err(DecodeError::Truncated(DecodeStage::Presence)));
}

#[test]
fn truncated_flags() {
    // Presence bits demand a header; the flags selector picks the full
    // 32-bit form, but only 6 payload bits remain.
    assert_eq!(decode_message(&[0x01, 0x00]), Err(DecodeError::Truncated(DecodeStage::Flags)));
}

#[test]
fn truncated_service_class() {
    // flags = 0 ends exactly at the payload end.
    assert_eq!(decode_message(&[0x01, 0x20]), Err(DecodeError::Truncated(DecodeStage::SvcClass)));
}

#[test]
fn truncated_opcode() {
    // flags and service class fit; the opcode field does not.
    assert_eq!(
        decode_message(&[0x03, 0x20, 0xC2, 0x40]),
        Err(DecodeError::Truncated(DecodeStage::Opcode))
    );
}

#[test]
fn truncated_request_id() {
    // flags, service class 18 and opcode 15 fit; the request id does not.
    assert_eq!(
        decode_message(&[0x04, 0x20, 0xC2, 0x58, 0x3C]),
        Err(DecodeError::Truncated(DecodeStage::RequestId))
    );
}

#[test]
fn unsupported_width_frame() {
    // The flags field selects a 24-bit width (a run of three set bits).
    assert_eq!(
        decode_message(&[0x04, 0x3C, 0x00, 0x00, 0x00]),
        Err(DecodeError::UnsupportedWidth(24))
    );
}

#[test]
fn width_exceeds_max_frame() {
    // The flags field carries a run of five set bits: past the 4-byte cap.
    assert_eq!(decode_message(&[0x02, 0x3F, 0x00]), Err(DecodeError::WidthExceedsMax));
}

#[test]
fn unknown_service_class_frame() {
    let frame = encode_message(0, 99, 1, 0);
    assert_eq!(decode_message(&frame), Err(DecodeError::UnknownServiceClass(99)));
}

#[test]
fn location_class_unimplemented() {
    let frame = encode_message(0, 20, 1, 0);
    assert_eq!(decode_message(&frame), Err(DecodeError::Unimplemented));
}

#[test]
fn trailing_body_bits_are_not_an_error() {
    // The same header with extra body bytes after it still decodes.
    let mut frame = encode_message(7, 18, 15, 42);
    let l = frame[0] as usize;
    frame[0] = (l + 2) as u8;
    frame.push(0xDE);
    frame.push(0xAD);
    let msg = decode_message(&frame).unwrap();
    let h = msg.header.unwrap();
    assert_eq!(h.flags, 7);
    assert_eq!(h.message_type, MessageType::User(UserMessage::Login));
    assert_eq!(h.request_id, 42);
}

#[test]
fn bytes_after_the_frame_are_ignored() {
    let msg = decode_message(&[0x01, 0x40, 0xFF, 0xFF]).unwrap();
    assert!(msg.header.is_none());
}

#[test]
fn roundtrip_large_fields() {
    // Values that need the full 32-bit width, including a flags word
    // with the sign bit set.
    let frame = encode_message(0xDEAD_BEEF, 18, 577, 0xFFFF_FFFF);
    let msg = decode_message(&frame).unwrap();
    let h = msg.header.unwrap();
    assert_eq!(h.flags, 0xDEAD_BEEF);
    assert_eq!(h.message_type, MessageType::User(UserMessage::EnhanceRecipe));
    assert_eq!(h.request_id, 0xFFFF_FFFF);
}

#[test]
fn frame_boundary_safety_on_arbitrary_bytes() {
    // Pseudo-random byte strings: decoding always returns a result and
    // never panics.
    let mut state: u64 = 0x243F_6A88_85A3_08D3;
    let mut oks: u32 = 0;
    let mut errs: u32 = 0;
    for _ in 0..5000 {
        state ^= state << 13;
        state ^= state >> 7;
        state ^= state << 17;
        let len = (state % 24) as usize;
        let mut buf = Vec::new();
        for _ in 0..len {
            state ^= state << 13;
            state ^= state >> 7;
            state ^= state << 17;
            buf.push((state & 0xFF) as u8);
        }
        match decode_message(&buf) {
            Ok(_) => oks += 1,
            Err(_) => errs += 1,
        }
    }
    assert_eq!(oks + errs, 5000);
}

#[test]
fn message_equality_uses_all_fields() {
    let a = decode_message(&[0x01, 0x40]).unwrap();
    let b = decode_message(&[0x01, 0xC0]).unwrap();
    assert_ne!(a, b);
    let c: Message = decode_message(&[0x01, 0x40]).unwrap();
    assert_eq!(a, c);
}
