use vesa::event::{Axis, ButtonState, InputEvent, KeyState, Position};
use vesa::proto::{check_len, decode, encode, frame, DecodeError, Message, TAG_ACK};

fn roundtrip(msg: Message) {
    let encoded = encode(&msg);
    let decoded = decode(&encoded).unwrap();
    assert_eq!(msg, decoded);
}

#[test]
fn enter() {
    roundtrip(Message::Enter(Position::Left));
    roundtrip(Message::Enter(Position::Right));
    roundtrip(Message::Enter(Position::Top));
    roundtrip(Message::Enter(Position::Bottom));
}

#[test]
fn leave() {
    roundtrip(Message::Leave(0.0f64.to_bits()));
    roundtrip(Message::Leave(0.5f64.to_bits()));
    roundtrip(Message::Leave(1.0f64.to_bits()));
}

#[test]
fn ack() {
    roundtrip(Message::Ack(0));
    roundtrip(Message::Ack(42));
    roundtrip(Message::Ack(u32::MAX));
}

#[test]
fn pointer_motion() {
    roundtrip(Message::PointerMotion { time: 1000, dx: (-1.5f64).to_bits(), dy: 2.75f64.to_bits() });
}

#[test]
fn pointer_button() {
    roundtrip(Message::PointerButton { time: 500, button: 272, state: 1 });
}

#[test]
fn pointer_axis() {
    roundtrip(Message::PointerAxis { time: 800, axis: 0, value: (-15.0f64).to_bits() });
}

#[test]
fn keyboard_key() {
    roundtrip(Message::KeyboardKey { time: 1200, key: 30, state: 1 });
}

#[test]
fn keyboard_modifiers() {
    roundtrip(Message::KeyboardModifiers { depressed: 1, latched: 2, locked: 3, group: 4 });
}

#[test]
fn ping_pong() {
    roundtrip(Message::Ping);
    roundtrip(Message::Pong);
}

#[test]
fn assign_position() {
    roundtrip(Message::AssignPosition(Position::Left));
    roundtrip(Message::AssignPosition(Position::Right));
    roundtrip(Message::AssignPosition(Position::Top));
    roundtrip(Message::AssignPosition(Position::Bottom));
}

#[test]
fn decode_empty() {
    assert!(matches!(decode(&[]), Err(DecodeError::Empty)));
}

#[test]
fn decode_unknown_tag() {
    assert!(matches!(decode(&[0xFF]), Err(DecodeError::UnknownTag(0xFF))));
}

#[test]
fn decode_too_short() {
    assert!(matches!(decode(&[TAG_ACK, 0x00]), Err(DecodeError::TooShort { .. })));
}

#[test]
fn input_event_roundtrip() {
    let event = InputEvent::PointerMotion { time: 100, dx: 1.0f64.to_bits(), dy: (-1.0f64).to_bits() };
    let msg = Message::from_input_event(&event);
    let back = msg.to_input_event().unwrap();
    match (event, back) {
        (
            InputEvent::PointerMotion { time: t1, dx: dx1, dy: dy1 },
            InputEvent::PointerMotion { time: t2, dx: dx2, dy: dy2 },
        ) => {
            assert_eq!(t1, t2);
            assert_eq!(f64::from_bits(dx1), f64::from_bits(dx2));
            assert_eq!(f64::from_bits(dy1), f64::from_bits(dy2));
        }
        _ => panic!("mismatch"),
    }
}

#[test]
fn non_input_messages_return_none() {
    assert!(Message::Enter(Position::Left).to_input_event().is_none());
    assert!(Message::Leave(0.5f64.to_bits()).to_input_event().is_none());
    assert!(Message::Ack(0).to_input_event().is_none());
    assert!(Message::Ping.to_input_event().is_none());
    assert!(Message::Pong.to_input_event().is_none());
    assert!(Message::AssignPosition(Position::Right).to_input_event().is_none());
}

#[test]
fn encoded_sizes() {
    assert_eq!(encode(&Message::Enter(Position::Left)).len(), 2);
    assert_eq!(encode(&Message::Leave(0.0f64.to_bits())).len(), 9);
    assert_eq!(encode(&Message::Ack(0)).len(), 5);
    assert_eq!(encode(&Message::PointerMotion { time: 0, dx: 0, dy: 0 }).len(), 21);
    assert_eq!(encode(&Message::PointerButton { time: 0, button: 0, state: 0 }).len(), 13);
    assert_eq!(encode(&Message::PointerAxis { time: 0, axis: 0, value: 0 }).len(), 14);
    assert_eq!(encode(&Message::KeyboardKey { time: 0, key: 0, state: 0 }).len(), 10);
    assert_eq!(
        encode(&Message::KeyboardModifiers { depressed: 0, latched: 0, locked: 0, group: 0 }).len(),
        17
    );
    assert_eq!(encode(&Message::Ping).len(), 1);
    assert_eq!(encode(&Message::Pong).len(), 1);
    assert_eq!(encode(&Message::AssignPosition(Position::Right)).len(), 2);
}

#[test]
fn encoding_is_big_endian() {
    assert_eq!(encode(&Message::Ack(0x0102_0304)), vec![0x03, 0x01, 0x02, 0x03, 0x04]);
    assert_eq!(encode(&Message::Enter(Position::Bottom)), vec![0x01, 0x03]);
    assert_eq!(encode(&Message::AssignPosition(Position::Top)), vec![0x0B, 0x02]);
    assert_eq!(
        encode(&Message::Leave(0.5f64.to_bits())),
        vec![0x02, 0x3F, 0xE0, 0, 0, 0, 0, 0, 0]
    );
    assert_eq!(
        encode(&Message::PointerAxis { time: 7, axis: 1, value: 1.0f64.to_bits() }),
        vec![0x06, 0, 0, 0, 7, 1, 0x3F, 0xF0, 0, 0, 0, 0, 0, 0]
    );
    assert_eq!(
        encode(&Message::KeyboardKey { time: 0x0A0B0C0D, key: 30, state: 2 }),
        vec![0x07, 0x0A, 0x0B, 0x0C, 0x0D, 0, 0, 0, 30, 2]
    );
}

#[test]
fn decode_reads_big_endian_fields() {
    let buf = [0x05, 0, 0, 1, 0, 0, 0, 1, 0x10, 0, 0, 0, 1];
    assert_eq!(
        decode(&buf),
        Ok(Message::PointerButton { time: 256, button: 272, state: 1 })
    );
    let buf = [0x08, 0, 0, 0, 1, 0, 0, 0, 2, 0, 0, 0, 3, 0, 0, 0, 4];
    assert_eq!(
        decode(&buf),
        Ok(Message::KeyboardModifiers { depressed: 1, latched: 2, locked: 3, group: 4 })
    );
}

#[test]
fn decode_errors_are_exact() {
    assert_eq!(decode(&[0x00]), Err(DecodeError::UnknownTag(0)));
    assert_eq!(decode(&[0x0C]), Err(DecodeError::UnknownTag(0x0C)));
    assert_eq!(decode(&[0x01]), Err(DecodeError::TooShort { expected: 2, got: 1 }));
    assert_eq!(decode(&[0x04, 0, 0]), Err(DecodeError::TooShort { expected: 21, got: 3 }));
    assert_eq!(decode(&[0x01, 4]), Err(DecodeError::InvalidPosition(4)));
    assert_eq!(decode(&[0x0B, 9]), Err(DecodeError::InvalidPosition(9)));
    assert_eq!(check_len(&[1, 2, 3], 3), Ok(()));
    assert_eq!(check_len(&[1, 2], 3), Err(DecodeError::TooShort { expected: 3, got: 2 }));
}

#[test]
fn trailing_bytes_are_ignored() {
    assert_eq!(decode(&[0x09, 0xAA, 0xBB]), Ok(Message::Ping));
    assert_eq!(decode(&[0x03, 0, 0, 0, 9, 0xFF]), Ok(Message::Ack(9)));
}

#[test]
fn input_messages_convert_states() {
    let button = InputEvent::PointerButton { time: 5, button: 0x110, state: ButtonState::Press };
    assert_eq!(
        Message::from_input_event(&button),
        Message::PointerButton { time: 5, button: 0x110, state: 1 }
    );
    let axis = InputEvent::PointerAxis { time: 6, axis: Axis::Horizontal, value: 3 };
    assert_eq!(Message::from_input_event(&axis), Message::PointerAxis { time: 6, axis: 1, value: 3 });
    let key = InputEvent::KeyboardKey { time: 7, key: 30, state: KeyState::Repeat };
    assert_eq!(Message::from_input_event(&key), Message::KeyboardKey { time: 7, key: 30, state: 2 });
    assert_eq!(Message::KeyboardKey { time: 7, key: 30, state: 2 }.to_input_event(), Some(key));
    assert_eq!(Message::KeyboardKey { time: 7, key: 30, state: 3 }.to_input_event(), None);
    assert_eq!(Message::PointerButton { time: 5, button: 1, state: 2 }.to_input_event(), None);
    assert_eq!(Message::PointerAxis { time: 5, axis: 2, value: 0 }.to_input_event(), None);
}

#[test]
fn frame_prefixes_the_length() {
    let framed = frame(&Message::Ack(7));
    assert_eq!(framed, vec![5, 0x03, 0, 0, 0, 7]);
    let framed = frame(&Message::Ping);
    assert_eq!(framed, vec![1, 0x09]);
    let msg = Message::PointerMotion { time: 1, dx: 2, dy: 3 };
    let framed = frame(&msg);
    assert_eq!(framed[0] as usize, framed.len() - 1);
    assert_eq!(decode(&framed[1..]), Ok(msg));
}

#[test]
fn decoded_buffers_start_with_the_encoding() {
    let bufs: [&[u8]; 4] = [
        &[0x09, 1, 2],
        &[0x03, 0, 0, 1, 2, 7, 7],
        &[0x0B, 3, 0],
        &[0x06, 0, 0, 0, 1, 5, 1, 2, 3, 4, 5, 6, 7, 8, 9],
    ];
    for buf in bufs {
        let m = decode(buf).unwrap();
        let e = encode(&m);
        assert_eq!(&buf[..e.len()], &e[..]);
    }
}

#[test]
fn message_equality_compares_floats_as_numbers() {
    let nan = f64::NAN.to_bits();
    assert_ne!(Message::Leave(nan), Message::Leave(nan));
    assert_eq!(Message::Leave(0.0f64.to_bits()), Message::Leave((-0.0f64).to_bits()));
    assert_ne!(Message::Leave(0.25f64.to_bits()), Message::Leave(0.5f64.to_bits()));
    let motion = |dx: f64| Message::PointerMotion { time: 1, dx: dx.to_bits(), dy: 2.0f64.to_bits() };
    assert_eq!(motion(1.5), motion(1.5));
    assert_eq!(motion(0.0), motion(-0.0));
    assert_ne!(motion(f64::NAN), motion(f64::NAN));
    let axis = |value: f64| Message::PointerAxis { time: 1, axis: 0, value: value.to_bits() };
    assert_eq!(axis(-0.0), axis(0.0));
    assert_ne!(axis(f64::NAN), axis(f64::NAN));
    assert_ne!(Message::Ping, Message::Pong);
    assert_eq!(Message::Ack(7), Message::Ack(7));
    assert_ne!(Message::Enter(Position::Left), Message::AssignPosition(Position::Left));
}
