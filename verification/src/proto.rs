//! The binary wire protocol: one tag byte followed by fixed-width big-endian
//! fields. No message is longer than 21 bytes.
use vstd::prelude::*;
use crate::bytes::{
    be32, be64, lemma_be32_bytes, lemma_be32_value, lemma_be64_bytes, lemma_be64_value,
    push_u32_be, push_u64_be, read_u32_be, read_u64_be, u32_at, u64_of_be,
};
use crate::event::{
    axis_code, axis_of_code, button_state_code, button_state_of_code, f64_bits_eq,
    f64_bits_eq_spec, is_nan_bits, key_state_code, key_state_of_code, position_byte, position_of_byte, Axis,
    ButtonState, InputEvent, KeyState, Position,
};

verus! {

/// A protocol message. `Leave`'s ratio, `dx`, `dy` and `value` are the bit
/// patterns of binary64 floating-point numbers, and `==` compares them as
/// numbers (see `message_eq`).
#[derive(Debug, Clone, Copy)]
#[allow(inconsistent_fields)]
pub enum Message {
    Enter(Position),
    Leave(u64),
    Ack(u32),
    PointerMotion { time: u32, dx: u64, dy: u64 },
    PointerButton { time: u32, button: u32, state: u32 },
    PointerAxis { time: u32, axis: u8, value: u64 },
    KeyboardKey { time: u32, key: u32, state: u8 },
    KeyboardModifiers { depressed: u32, latched: u32, locked: u32, group: u32 },
    Ping,
    Pong,
    AssignPosition(Position),
}

/// Equality of messages: the floating-point fields compare as numbers (a
/// NaN equals nothing, the two zeros are equal), every other field exactly.
pub open spec fn message_eq(a: Message, b: Message) -> bool {
    match (a, b) {
        (Message::Leave(x), Message::Leave(y)) => f64_bits_eq_spec(x, y),
        (
            Message::PointerMotion { time: t1, dx: x1, dy: y1 },
            Message::PointerMotion { time: t2, dx: x2, dy: y2 },
        ) => t1 == t2 && f64_bits_eq_spec(x1, x2) && f64_bits_eq_spec(y1, y2),
        (
            Message::PointerAxis { time: t1, axis: a1, value: v1 },
            Message::PointerAxis { time: t2, axis: a2, value: v2 },
        ) => t1 == t2 && a1 == a2 && f64_bits_eq_spec(v1, v2),
        _ => a == b,
    }
}

/// The message holds a floating-point field that is a NaN.
pub open spec fn message_has_nan(m: Message) -> bool {
    match m {
        Message::Leave(x) => is_nan_bits(x),
        Message::PointerMotion { dx, dy, .. } => is_nan_bits(dx) || is_nan_bits(dy),
        Message::PointerAxis { value, .. } => is_nan_bits(value),
        _ => false,
    }
}

/// A message equals itself exactly when none of its floating-point fields
/// is a NaN.
pub proof fn lemma_message_eq_reflexive(m: Message)
    ensures
        message_eq(m, m) <==> !message_has_nan(m),
{
}

impl PartialEq for Message {
    fn eq(&self, other: &Self) -> (r: bool) {
        match (*self, *other) {
            (Message::Enter(a), Message::Enter(b)) => a == b,
            (Message::Leave(x), Message::Leave(y)) => f64_bits_eq(x, y),
            (Message::Ack(a), Message::Ack(b)) => a == b,
            (
                Message::PointerMotion { time: t1, dx: x1, dy: y1 },
                Message::PointerMotion { time: t2, dx: x2, dy: y2 },
            ) => t1 == t2 && f64_bits_eq(x1, x2) && f64_bits_eq(y1, y2),
            (
                Message::PointerButton { time: t1, button: b1, state: s1 },
                Message::PointerButton { time: t2, button: b2, state: s2 },
            ) => t1 == t2 && b1 == b2 && s1 == s2,
            (
                Message::PointerAxis { time: t1, axis: a1, value: v1 },
                Message::PointerAxis { time: t2, axis: a2, value: v2 },
            ) => t1 == t2 && a1 == a2 && f64_bits_eq(v1, v2),
            (
                Message::KeyboardKey { time: t1, key: k1, state: s1 },
                Message::KeyboardKey { time: t2, key: k2, state: s2 },
            ) => t1 == t2 && k1 == k2 && s1 == s2,
            (
                Message::KeyboardModifiers { depressed: d1, latched: l1, locked: k1, group: g1 },
                Message::KeyboardModifiers { depressed: d2, latched: l2, locked: k2, group: g2 },
            ) => d1 == d2 && l1 == l2 && k1 == k2 && g1 == g2,
            (Message::Ping, Message::Ping) => true,
            (Message::Pong, Message::Pong) => true,
            (Message::AssignPosition(a), Message::AssignPosition(b)) => a == b,
            _ => false,
        }
    }
}

impl vstd::std_specs::cmp::PartialEqSpecImpl for Message {
    open spec fn obeys_eq_spec() -> bool {
        true
    }

    open spec fn eq_spec(&self, other: &Self) -> bool {
        message_eq(*self, *other)
    }
}

pub const TAG_ENTER: u8 = 0x01;
pub const TAG_LEAVE: u8 = 0x02;
pub const TAG_ACK: u8 = 0x03;
pub const TAG_POINTER_MOTION: u8 = 0x04;
pub const TAG_POINTER_BUTTON: u8 = 0x05;
pub const TAG_POINTER_AXIS: u8 = 0x06;
pub const TAG_KEYBOARD_KEY: u8 = 0x07;
pub const TAG_KEYBOARD_MODIFIERS: u8 = 0x08;
pub const TAG_PING: u8 = 0x09;
pub const TAG_PONG: u8 = 0x0A;
pub const TAG_ASSIGN_POSITION: u8 = 0x0B;

/// Why a buffer is not a message.
#[derive(Debug, Clone, Copy, PartialEq, Eq, Structural)]
pub enum DecodeError {
    Empty,
    UnknownTag(u8),
    TooShort { expected: usize, got: usize },
    InvalidPosition(u8),
}

/// The bytes of a message on the wire.
pub open spec fn encode_spec(m: Message) -> Seq<u8> {
    match m {
        Message::Enter(p) => seq![TAG_ENTER, position_byte(p)],
        Message::Leave(y) => seq![TAG_LEAVE] + be64(y),
        Message::Ack(s) => seq![TAG_ACK] + be32(s),
        Message::PointerMotion { time, dx, dy } => seq![TAG_POINTER_MOTION] + be32(time) + be64(dx)
            + be64(dy),
        Message::PointerButton { time, button, state } => seq![TAG_POINTER_BUTTON] + be32(time)
            + be32(button) + be32(state),
        Message::PointerAxis { time, axis, value } => seq![TAG_POINTER_AXIS] + be32(time) + seq![
            axis,
        ] + be64(value),
        Message::KeyboardKey { time, key, state } => seq![TAG_KEYBOARD_KEY] + be32(time) + be32(key)
            + seq![state],
        Message::KeyboardModifiers { depressed, latched, locked, group } => seq![
            TAG_KEYBOARD_MODIFIERS,
        ] + be32(depressed) + be32(latched) + be32(locked) + be32(group),
        Message::Ping => seq![TAG_PING],
        Message::Pong => seq![TAG_PONG],
        Message::AssignPosition(p) => seq![TAG_ASSIGN_POSITION, position_byte(p)],
    }
}

/// The number of bytes a message with tag `tag` occupies, for the tags that
/// name a message.
pub open spec fn tag_len(tag: u8) -> Option<nat> {
    if tag == TAG_ENTER || tag == TAG_ASSIGN_POSITION {
        Some(2)
    } else if tag == TAG_LEAVE {
        Some(9)
    } else if tag == TAG_ACK {
        Some(5)
    } else if tag == TAG_POINTER_MOTION {
        Some(21)
    } else if tag == TAG_POINTER_BUTTON {
        Some(13)
    } else if tag == TAG_POINTER_AXIS {
        Some(14)
    } else if tag == TAG_KEYBOARD_KEY {
        Some(10)
    } else if tag == TAG_KEYBOARD_MODIFIERS {
        Some(17)
    } else if tag == TAG_PING || tag == TAG_PONG {
        Some(1)
    } else {
        None
    }
}

/// The message whose bytes begin `b`, given that `b` holds at least as many
/// bytes as its tag asks for, and the tag is known.
pub open spec fn message_at(b: Seq<u8>) -> Result<Message, DecodeError>
    recommends
        b.len() > 0,
        tag_len(b[0]) matches Some(n) && b.len() >= n,
{
    let tag = b[0];
    if tag == TAG_ENTER || tag == TAG_ASSIGN_POSITION {
        match position_of_byte(b[1]) {
            Some(p) => if tag == TAG_ENTER {
                Ok(Message::Enter(p))
            } else {
                Ok(Message::AssignPosition(p))
            },
            None => Err(DecodeError::InvalidPosition(b[1])),
        }
    } else if tag == TAG_LEAVE {
        Ok(Message::Leave(u64_of_be(b, 1)))
    } else if tag == TAG_ACK {
        Ok(Message::Ack(u32_at(b, 1)))
    } else if tag == TAG_POINTER_MOTION {
        Ok(Message::PointerMotion { time: u32_at(b, 1), dx: u64_of_be(b, 5), dy: u64_of_be(b, 13) })
    } else if tag == TAG_POINTER_BUTTON {
        Ok(
            Message::PointerButton {
                time: u32_at(b, 1),
                button: u32_at(b, 5),
                state: u32_at(b, 9),
            },
        )
    } else if tag == TAG_POINTER_AXIS {
        Ok(Message::PointerAxis { time: u32_at(b, 1), axis: b[5], value: u64_of_be(b, 6) })
    } else if tag == TAG_KEYBOARD_KEY {
        Ok(Message::KeyboardKey { time: u32_at(b, 1), key: u32_at(b, 5), state: b[9] })
    } else if tag == TAG_KEYBOARD_MODIFIERS {
        Ok(
            Message::KeyboardModifiers {
                depressed: u32_at(b, 1),
                latched: u32_at(b, 5),
                locked: u32_at(b, 9),
                group: u32_at(b, 13),
            },
        )
    } else if tag == TAG_PING {
        Ok(Message::Ping)
    } else {
        Ok(Message::Pong)
    }
}

/// What decoding a buffer gives: an empty buffer and an unknown tag are
/// refused, a buffer shorter than its tag asks for is too short, and bytes
/// after the message are ignored.
pub open spec fn decode_spec(b: Seq<u8>) -> Result<Message, DecodeError> {
    if b.len() == 0 {
        Err(DecodeError::Empty)
    } else {
        match tag_len(b[0]) {
            None => Err(DecodeError::UnknownTag(b[0])),
            Some(n) => if b.len() < n {
                Err(DecodeError::TooShort { expected: n as usize, got: b.len() as usize })
            } else {
                message_at(b)
            },
        }
    }
}

/// Encodes a message into its wire bytes.
pub fn encode(msg: &Message) -> (buf: Vec<u8>)
    ensures
        buf@ == encode_spec(*msg),
{
    match *msg {
        Message::Enter(pos) => vec![TAG_ENTER, pos.to_byte()],
        Message::Leave(y_ratio) => {
            let mut buf = Vec::with_capacity(9);
            buf.push(TAG_LEAVE);
            push_u64_be(&mut buf, y_ratio);
            buf
        },
        Message::Ack(seq) => {
            let mut buf = Vec::with_capacity(5);
            buf.push(TAG_ACK);
            push_u32_be(&mut buf, seq);
            buf
        },
        Message::PointerMotion { time, dx, dy } => {
            let mut buf = Vec::with_capacity(21);
            buf.push(TAG_POINTER_MOTION);
            push_u32_be(&mut buf, time);
            push_u64_be(&mut buf, dx);
            push_u64_be(&mut buf, dy);
            buf
        },
        Message::PointerButton { time, button, state } => {
            let mut buf = Vec::with_capacity(13);
            buf.push(TAG_POINTER_BUTTON);
            push_u32_be(&mut buf, time);
            push_u32_be(&mut buf, button);
            push_u32_be(&mut buf, state);
            buf
        },
        Message::PointerAxis { time, axis, value } => {
            let mut buf = Vec::with_capacity(14);
            buf.push(TAG_POINTER_AXIS);
            push_u32_be(&mut buf, time);
            buf.push(axis);
            push_u64_be(&mut buf, value);
            buf
        },
        Message::KeyboardKey { time, key, state } => {
            let mut buf = Vec::with_capacity(10);
            buf.push(TAG_KEYBOARD_KEY);
            push_u32_be(&mut buf, time);
            push_u32_be(&mut buf, key);
            buf.push(state);
            buf
        },
        Message::KeyboardModifiers { depressed, latched, locked, group } => {
            let mut buf = Vec::with_capacity(17);
            buf.push(TAG_KEYBOARD_MODIFIERS);
            push_u32_be(&mut buf, depressed);
            push_u32_be(&mut buf, latched);
            push_u32_be(&mut buf, locked);
            push_u32_be(&mut buf, group);
            buf
        },
        Message::Ping => vec![TAG_PING],
        Message::Pong => vec![TAG_PONG],
        Message::AssignPosition(pos) => vec![TAG_ASSIGN_POSITION, pos.to_byte()],
    }
}

/// Refuses a buffer shorter than `expected` bytes.
pub fn check_len(buf: &[u8], expected: usize) -> (r: Result<(), DecodeError>)
    ensures
        r is Ok <==> buf@.len() >= expected,
        r is Err ==> r == Err::<(), DecodeError>(
            DecodeError::TooShort { expected, got: buf@.len() as usize },
        ),
{
    if buf.len() < expected {
        return Err(DecodeError::TooShort { expected, got: buf.len() });
    }
    Ok(())
}

/// Decodes the message at the start of `buf`.
pub fn decode(buf: &[u8]) -> (r: Result<Message, DecodeError>)
    ensures
        r == decode_spec(buf@),
{
    if buf.len() == 0 {
        return Err(DecodeError::Empty);
    }
    let tag = buf[0];
    if tag == TAG_ENTER || tag == TAG_ASSIGN_POSITION {
        check_len(buf, 2)?;
        match Position::from_byte(buf[1]) {
            Some(pos) => if tag == TAG_ENTER {
                Ok(Message::Enter(pos))
            } else {
                Ok(Message::AssignPosition(pos))
            },
            None => Err(DecodeError::InvalidPosition(buf[1])),
        }
    } else if tag == TAG_LEAVE {
        check_len(buf, 9)?;
        Ok(Message::Leave(read_u64_be(buf, 1)))
    } else if tag == TAG_ACK {
        check_len(buf, 5)?;
        Ok(Message::Ack(read_u32_be(buf, 1)))
    } else if tag == TAG_POINTER_MOTION {
        check_len(buf, 21)?;
        let time = read_u32_be(buf, 1);
        let dx = read_u64_be(buf, 5);
        let dy = read_u64_be(buf, 13);
        Ok(Message::PointerMotion { time, dx, dy })
    } else if tag == TAG_POINTER_BUTTON {
        check_len(buf, 13)?;
        let time = read_u32_be(buf, 1);
        let button = read_u32_be(buf, 5);
        let state = read_u32_be(buf, 9);
        Ok(Message::PointerButton { time, button, state })
    } else if tag == TAG_POINTER_AXIS {
        check_len(buf, 14)?;
        let time = read_u32_be(buf, 1);
        let axis = buf[5];
        let value = read_u64_be(buf, 6);
        Ok(Message::PointerAxis { time, axis, value })
    } else if tag == TAG_KEYBOARD_KEY {
        check_len(buf, 10)?;
        let time = read_u32_be(buf, 1);
        let key = read_u32_be(buf, 5);
        let state = buf[9];
        Ok(Message::KeyboardKey { time, key, state })
    } else if tag == TAG_KEYBOARD_MODIFIERS {
        check_len(buf, 17)?;
        let depressed = read_u32_be(buf, 1);
        let latched = read_u32_be(buf, 5);
        let locked = read_u32_be(buf, 9);
        let group = read_u32_be(buf, 13);
        Ok(Message::KeyboardModifiers { depressed, latched, locked, group })
    } else if tag == TAG_PING {
        Ok(Message::Ping)
    } else if tag == TAG_PONG {
        Ok(Message::Pong)
    } else {
        Err(DecodeError::UnknownTag(tag))
    }
}


/// Every message encodes to between 1 and 21 bytes: the length its tag
/// announces. (Such a length fits the one-byte stream frame header.)
pub proof fn lemma_encode_len(m: Message)
    ensures
        1 <= encode_spec(m).len() <= 21,
        tag_len(encode_spec(m)[0]) == Some(encode_spec(m).len()),
{
}

proof fn lemma_u32_field(s: Seq<u8>, i: int, x: u32)
    requires
        0 <= i,
        i + 4 <= s.len(),
        s.subrange(i, i + 4) == be32(x),
    ensures
        u32_at(s, i) == x,
{
    assert(s[i] == be32(x)[0] && s[i + 1] == be32(x)[1] && s[i + 2] == be32(x)[2] && s[i + 3]
        == be32(x)[3]) by {
        assert(s.subrange(i, i + 4)[0] == s[i]);
        assert(s.subrange(i, i + 4)[1] == s[i + 1]);
        assert(s.subrange(i, i + 4)[2] == s[i + 2]);
        assert(s.subrange(i, i + 4)[3] == s[i + 3]);
    }
    lemma_be32_value(x);
}

proof fn lemma_u64_field(s: Seq<u8>, i: int, x: u64)
    requires
        0 <= i,
        i + 8 <= s.len(),
        s.subrange(i, i + 8) == be64(x),
    ensures
        u64_of_be(s, i) == x,
{
    let t = s.subrange(i, i + 8);
    assert forall|k: int| 0 <= k < 8 implies s[i + k] == be64(x)[k] by {
        assert(t[k] == s[i + k]);
    }
    lemma_be64_value(x);
    assert(u64_of_be(s, i) == u64_of_be(be64(x), 0));
}

/// Decoding the encoding of a message gives the message back.
pub proof fn lemma_decode_encode(m: Message)
    ensures
        decode_spec(encode_spec(m)) == Ok::<Message, DecodeError>(m),
{
    let b = encode_spec(m);
    lemma_encode_len(m);
    match m {
        Message::Enter(p) => {},
        Message::AssignPosition(p) => {},
        Message::Leave(y) => {
            assert(b.subrange(1, 9) =~= be64(y));
            lemma_u64_field(b, 1, y);
        },
        Message::Ack(x) => {
            assert(b.subrange(1, 5) =~= be32(x));
            lemma_u32_field(b, 1, x);
        },
        Message::PointerMotion { time, dx, dy } => {
            assert(b.subrange(1, 5) =~= be32(time));
            assert(b.subrange(5, 13) =~= be64(dx));
            assert(b.subrange(13, 21) =~= be64(dy));
            lemma_u32_field(b, 1, time);
            lemma_u64_field(b, 5, dx);
            lemma_u64_field(b, 13, dy);
        },
        Message::PointerButton { time, button, state } => {
            assert(b.subrange(1, 5) =~= be32(time));
            assert(b.subrange(5, 9) =~= be32(button));
            assert(b.subrange(9, 13) =~= be32(state));
            lemma_u32_field(b, 1, time);
            lemma_u32_field(b, 5, button);
            lemma_u32_field(b, 9, state);
        },
        Message::PointerAxis { time, axis, value } => {
            assert(b.subrange(1, 5) =~= be32(time));
            assert(b.subrange(6, 14) =~= be64(value));
            lemma_u32_field(b, 1, time);
            lemma_u64_field(b, 6, value);
        },
        Message::KeyboardKey { time, key, state } => {
            assert(b.subrange(1, 5) =~= be32(time));
            assert(b.subrange(5, 9) =~= be32(key));
            lemma_u32_field(b, 1, time);
            lemma_u32_field(b, 5, key);
        },
        Message::KeyboardModifiers { depressed, latched, locked, group } => {
            assert(b.subrange(1, 5) =~= be32(depressed));
            assert(b.subrange(5, 9) =~= be32(latched));
            assert(b.subrange(9, 13) =~= be32(locked));
            assert(b.subrange(13, 17) =~= be32(group));
            lemma_u32_field(b, 1, depressed);
            lemma_u32_field(b, 5, latched);
            lemma_u32_field(b, 9, locked);
            lemma_u32_field(b, 13, group);
        },
        Message::Ping => {},
        Message::Pong => {},
    }
}

proof fn lemma_u32_field_bytes(s: Seq<u8>, i: int)
    requires
        0 <= i,
        i + 4 <= s.len(),
    ensures
        be32(u32_at(s, i)) == s.subrange(i, i + 4),
{
    lemma_be32_bytes(s[i], s[i + 1], s[i + 2], s[i + 3]);
    assert(s.subrange(i, i + 4) =~= seq![s[i], s[i + 1], s[i + 2], s[i + 3]]);
}

/// A message is written in exactly one way: when a buffer decodes to a
/// message, the buffer begins with that message's encoding.
pub proof fn lemma_decode_canonical(b: Seq<u8>)
    ensures
        decode_spec(b) matches Ok(m) ==> encode_spec(m).len() <= b.len() && encode_spec(m)
            == b.subrange(0, encode_spec(m).len() as int),
{
    if let Ok(m) = decode_spec(b) {
        let e = encode_spec(m);
        lemma_encode_len(m);
        match m {
            Message::Enter(p) => {
                assert(e =~= b.subrange(0, 2));
            },
            Message::AssignPosition(p) => {
                assert(e =~= b.subrange(0, 2));
            },
            Message::Leave(y) => {
                lemma_be64_bytes(b, 1);
                assert(e =~= b.subrange(0, 1) + b.subrange(1, 9));
                assert(e =~= b.subrange(0, 9));
            },
            Message::Ack(x) => {
                lemma_u32_field_bytes(b, 1);
                assert(e =~= b.subrange(0, 1) + b.subrange(1, 5));
                assert(e =~= b.subrange(0, 5));
            },
            Message::PointerMotion { time, dx, dy } => {
                lemma_u32_field_bytes(b, 1);
                lemma_be64_bytes(b, 5);
                lemma_be64_bytes(b, 13);
                assert(e =~= b.subrange(0, 1) + b.subrange(1, 5) + b.subrange(5, 13) + b.subrange(
                    13,
                    21,
                ));
                assert(e =~= b.subrange(0, 21));
            },
            Message::PointerButton { time, button, state } => {
                lemma_u32_field_bytes(b, 1);
                lemma_u32_field_bytes(b, 5);
                lemma_u32_field_bytes(b, 9);
                assert(e =~= b.subrange(0, 1) + b.subrange(1, 5) + b.subrange(5, 9) + b.subrange(
                    9,
                    13,
                ));
                assert(e =~= b.subrange(0, 13));
            },
            Message::PointerAxis { time, axis, value } => {
                lemma_u32_field_bytes(b, 1);
                lemma_be64_bytes(b, 6);
                assert(e =~= b.subrange(0, 1) + b.subrange(1, 5) + b.subrange(5, 6) + b.subrange(
                    6,
                    14,
                ));
                assert(e =~= b.subrange(0, 14));
            },
            Message::KeyboardKey { time, key, state } => {
                lemma_u32_field_bytes(b, 1);
                lemma_u32_field_bytes(b, 5);
                assert(e =~= b.subrange(0, 1) + b.subrange(1, 5) + b.subrange(5, 9) + b.subrange(
                    9,
                    10,
                ));
                assert(e =~= b.subrange(0, 10));
            },
            Message::KeyboardModifiers { depressed, latched, locked, group } => {
                lemma_u32_field_bytes(b, 1);
                lemma_u32_field_bytes(b, 5);
                lemma_u32_field_bytes(b, 9);
                lemma_u32_field_bytes(b, 13);
                assert(e =~= b.subrange(0, 1) + b.subrange(1, 5) + b.subrange(5, 9) + b.subrange(
                    9,
                    13,
                ) + b.subrange(13, 17));
                assert(e =~= b.subrange(0, 17));
            },
            Message::Ping => {
                assert(e =~= b.subrange(0, 1));
            },
            Message::Pong => {
                assert(e =~= b.subrange(0, 1));
            },
        }
    }
}

/// The message that carries an input event.
pub open spec fn message_of_event(e: InputEvent) -> Message {
    match e {
        InputEvent::PointerMotion { time, dx, dy } => Message::PointerMotion { time, dx, dy },
        InputEvent::PointerButton { time, button, state } => Message::PointerButton {
            time,
            button,
            state: button_state_code(state),
        },
        InputEvent::PointerAxis { time, axis, value } => Message::PointerAxis {
            time,
            axis: axis_code(axis),
            value,
        },
        InputEvent::KeyboardKey { time, key, state } => Message::KeyboardKey {
            time,
            key,
            state: key_state_code(state),
        },
        InputEvent::KeyboardModifiers { depressed, latched, locked, group } => {
            Message::KeyboardModifiers { depressed, latched, locked, group }
        },
    }
}

/// The input event a message carries: none for control messages, and none
/// when a state or axis code names nothing.
pub open spec fn event_of_message(m: Message) -> Option<InputEvent> {
    match m {
        Message::PointerMotion { time, dx, dy } => Some(InputEvent::PointerMotion { time, dx, dy }),
        Message::PointerButton { time, button, state } => match button_state_of_code(state) {
            Some(s) => Some(InputEvent::PointerButton { time, button, state: s }),
            None => None,
        },
        Message::PointerAxis { time, axis, value } => match axis_of_code(axis) {
            Some(a) => Some(InputEvent::PointerAxis { time, axis: a, value }),
            None => None,
        },
        Message::KeyboardKey { time, key, state } => match key_state_of_code(state) {
            Some(s) => Some(InputEvent::KeyboardKey { time, key, state: s }),
            None => None,
        },
        Message::KeyboardModifiers { depressed, latched, locked, group } => Some(
            InputEvent::KeyboardModifiers { depressed, latched, locked, group },
        ),
        _ => None,
    }
}

impl Message {
    pub fn from_input_event(event: &InputEvent) -> (m: Message)
        ensures
            m == message_of_event(*event),
    {
        match *event {
            InputEvent::PointerMotion { time, dx, dy } => Message::PointerMotion { time, dx, dy },
            InputEvent::PointerButton { time, button, state } => Message::PointerButton {
                time,
                button,
                state: state.to_u32(),
            },
            InputEvent::PointerAxis { time, axis, value } => Message::PointerAxis {
                time,
                axis: axis.to_u8(),
                value,
            },
            InputEvent::KeyboardKey { time, key, state } => Message::KeyboardKey {
                time,
                key,
                state: state.to_u8(),
            },
            InputEvent::KeyboardModifiers { depressed, latched, locked, group } => {
                Message::KeyboardModifiers { depressed, latched, locked, group }
            },
        }
    }

    pub fn to_input_event(&self) -> (r: Option<InputEvent>)
        ensures
            r == event_of_message(*self),
    {
        match *self {
            Message::PointerMotion { time, dx, dy } => Some(
                InputEvent::PointerMotion { time, dx, dy },
            ),
            Message::PointerButton { time, button, state } => {
                let state = ButtonState::from_u32(state)?;
                Some(InputEvent::PointerButton { time, button, state })
            },
            Message::PointerAxis { time, axis, value } => {
                let axis = Axis::from_u8(axis)?;
                Some(InputEvent::PointerAxis { time, axis, value })
            },
            Message::KeyboardKey { time, key, state } => {
                let state = KeyState::from_u8(state)?;
                Some(InputEvent::KeyboardKey { time, key, state })
            },
            Message::KeyboardModifiers { depressed, latched, locked, group } => Some(
                InputEvent::KeyboardModifiers { depressed, latched, locked, group },
            ),
            _ => None,
        }
    }
}

/// An input event survives the trip through a message, and a message that
/// carries an event is exactly the message of that event.
pub proof fn lemma_event_message_roundtrip(e: InputEvent, m: Message)
    ensures
        event_of_message(message_of_event(e)) == Some(e),
        event_of_message(m) matches Some(f) ==> message_of_event(f) == m,
{
}

/// The bytes of a message on a stream: one length byte, then the message.
pub open spec fn frame_spec(m: Message) -> Seq<u8> {
    seq![encode_spec(m).len() as u8] + encode_spec(m)
}

/// Frames a message for a reliable stream.
pub fn frame(msg: &Message) -> (buf: Vec<u8>)
    ensures
        buf@ == frame_spec(*msg),
{
    let data = encode(msg);
    proof {
        lemma_encode_len(*msg);
    }
    let mut buf = Vec::with_capacity(data.len() + 1);
    buf.push(data.len() as u8);
    let mut i: usize = 0;
    while i < data.len()
        invariant
            0 <= i <= data@.len(),
            data@ == encode_spec(*msg),
            buf@ == seq![data@.len() as u8] + data@.subrange(0, i as int),
        decreases data@.len() - i,
    {
        buf.push(data[i]);
        i = i + 1;
        assert(data@.subrange(0, i as int) =~= data@.subrange(0, i - 1) + seq![data@[i - 1]]);
    }
    assert(data@.subrange(0, data@.len() as int) =~= data@);
    buf
}

/// Reading a frame back: its first byte is the number of bytes that follow,
/// and decoding those bytes gives the framed message.
pub proof fn lemma_frame_roundtrip(m: Message)
    ensures
        frame_spec(m).len() == frame_spec(m)[0] + 1,
        decode_spec(frame_spec(m).subrange(1, frame_spec(m).len() as int)) == Ok::<
            Message,
            DecodeError,
        >(m),
{
    lemma_encode_len(m);
    lemma_decode_encode(m);
    assert(frame_spec(m).subrange(1, frame_spec(m).len() as int) =~= encode_spec(m));
}

} // verus!
