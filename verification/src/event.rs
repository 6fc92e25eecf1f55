//! Input events shared by capture, emulation and the wire protocol.
//!
//! Floating-point quantities (pointer deltas, scroll amounts) are carried as
//! their IEEE-754 binary64 bit patterns (`f64::to_bits`), so every value here
//! is an integer and the protocol can move them bit for bit.
use vstd::prelude::*;

verus! {

/// A screen edge, and the side of the server on which a client sits.
#[derive(Debug, Clone, Copy, PartialEq, Eq, Structural)]
pub enum Position {
    Left,
    Right,
    Top,
    Bottom,
}

/// The wire byte of a position.
pub open spec fn position_byte(p: Position) -> u8 {
    match p {
        Position::Left => 0,
        Position::Right => 1,
        Position::Top => 2,
        Position::Bottom => 3,
    }
}

/// The position whose wire byte is `b`, if any.
pub open spec fn position_of_byte(b: u8) -> Option<Position> {
    if b == 0 {
        Some(Position::Left)
    } else if b == 1 {
        Some(Position::Right)
    } else if b == 2 {
        Some(Position::Top)
    } else if b == 3 {
        Some(Position::Bottom)
    } else {
        None
    }
}

/// The edge facing `p` across the screen.
pub open spec fn opposite_position(p: Position) -> Position {
    match p {
        Position::Left => Position::Right,
        Position::Right => Position::Left,
        Position::Top => Position::Bottom,
        Position::Bottom => Position::Top,
    }
}

impl Position {
    pub fn to_byte(self) -> (b: u8)
        ensures
            b == position_byte(self),
    {
        match self {
            Position::Left => 0,
            Position::Right => 1,
            Position::Top => 2,
            Position::Bottom => 3,
        }
    }

    /// Inverse of `to_byte`; bytes 4 and above name no position.
    pub fn from_byte(b: u8) -> (r: Option<Self>)
        ensures
            r == position_of_byte(b),
            r is None <==> b >= 4,
            r matches Some(p) ==> position_byte(p) == b,
    {
        match b {
            0 => Some(Position::Left),
            1 => Some(Position::Right),
            2 => Some(Position::Top),
            3 => Some(Position::Bottom),
            _ => None,
        }
    }

    pub fn opposite(self) -> (r: Self)
        ensures
            r == opposite_position(self),
            r != self,
    {
        match self {
            Position::Left => Position::Right,
            Position::Right => Position::Left,
            Position::Top => Position::Bottom,
            Position::Bottom => Position::Top,
        }
    }
}

/// Reading back the byte of a position gives the position again, and a byte
/// that names a position is that position's byte.
pub proof fn lemma_position_byte_roundtrip(p: Position, b: u8)
    ensures
        position_of_byte(position_byte(p)) == Some(p),
        position_of_byte(b) matches Some(q) ==> position_byte(q) == b,
{
}

/// Taking the opposite twice returns the original edge, and no edge is its
/// own opposite.
pub proof fn lemma_opposite_involution(p: Position)
    ensures
        opposite_position(opposite_position(p)) == p,
        opposite_position(p) != p,
{
}

#[derive(Debug, Clone, Copy, PartialEq, Eq, Structural)]
pub enum ButtonState {
    Press,
    Release,
}

pub open spec fn button_state_code(s: ButtonState) -> u32 {
    match s {
        ButtonState::Press => 1,
        ButtonState::Release => 0,
    }
}

pub open spec fn button_state_of_code(v: u32) -> Option<ButtonState> {
    if v == 1 {
        Some(ButtonState::Press)
    } else if v == 0 {
        Some(ButtonState::Release)
    } else {
        None
    }
}

impl ButtonState {
    pub fn to_u32(self) -> (v: u32)
        ensures
            v == button_state_code(self),
    {
        match self {
            ButtonState::Press => 1,
            ButtonState::Release => 0,
        }
    }

    /// Inverse of `to_u32`; only 0 and 1 name a state.
    pub fn from_u32(v: u32) -> (r: Option<Self>)
        ensures
            r == button_state_of_code(v),
            r is None <==> v >= 2,
            r matches Some(s) ==> button_state_code(s) == v,
    {
        match v {
            1 => Some(ButtonState::Press),
            0 => Some(ButtonState::Release),
            _ => None,
        }
    }
}

/// `from_u32` undoes `to_u32`, and accepts exactly the codes `to_u32` gives.
pub proof fn lemma_button_state_roundtrip(s: ButtonState, v: u32)
    ensures
        button_state_of_code(button_state_code(s)) == Some(s),
        button_state_of_code(v) matches Some(t) ==> button_state_code(t) == v,
{
}

#[derive(Debug, Clone, Copy, PartialEq, Eq, Structural)]
pub enum KeyState {
    Press,
    Release,
    Repeat,
}

pub open spec fn key_state_code(s: KeyState) -> u8 {
    match s {
        KeyState::Press => 1,
        KeyState::Release => 0,
        KeyState::Repeat => 2,
    }
}

pub open spec fn key_state_of_code(v: u8) -> Option<KeyState> {
    if v == 1 {
        Some(KeyState::Press)
    } else if v == 0 {
        Some(KeyState::Release)
    } else if v == 2 {
        Some(KeyState::Repeat)
    } else {
        None
    }
}

impl KeyState {
    pub fn to_u8(self) -> (v: u8)
        ensures
            v == key_state_code(self),
    {
        match self {
            KeyState::Press => 1,
            KeyState::Release => 0,
            KeyState::Repeat => 2,
        }
    }

    /// Inverse of `to_u8`; only 0, 1 and 2 name a state.
    pub fn from_u8(v: u8) -> (r: Option<Self>)
        ensures
            r == key_state_of_code(v),
            r is None <==> v >= 3,
            r matches Some(s) ==> key_state_code(s) == v,
    {
        match v {
            1 => Some(KeyState::Press),
            0 => Some(KeyState::Release),
            2 => Some(KeyState::Repeat),
            _ => None,
        }
    }
}

/// `from_u8` undoes `to_u8`, and accepts exactly the codes `to_u8` gives.
pub proof fn lemma_key_state_roundtrip(s: KeyState, v: u8)
    ensures
        key_state_of_code(key_state_code(s)) == Some(s),
        key_state_of_code(v) matches Some(t) ==> key_state_code(t) == v,
{
}

#[derive(Debug, Clone, Copy, PartialEq, Eq, Structural)]
pub enum Axis {
    Vertical,
    Horizontal,
}

pub open spec fn axis_code(a: Axis) -> u8 {
    match a {
        Axis::Vertical => 0,
        Axis::Horizontal => 1,
    }
}

pub open spec fn axis_of_code(v: u8) -> Option<Axis> {
    if v == 0 {
        Some(Axis::Vertical)
    } else if v == 1 {
        Some(Axis::Horizontal)
    } else {
        None
    }
}

impl Axis {
    pub fn to_u8(self) -> (v: u8)
        ensures
            v == axis_code(self),
    {
        match self {
            Axis::Vertical => 0,
            Axis::Horizontal => 1,
        }
    }

    /// Inverse of `to_u8`; only 0 and 1 name an axis.
    pub fn from_u8(v: u8) -> (r: Option<Self>)
        ensures
            r == axis_of_code(v),
            r is None <==> v >= 2,
            r matches Some(a) ==> axis_code(a) == v,
    {
        match v {
            0 => Some(Axis::Vertical),
            1 => Some(Axis::Horizontal),
            _ => None,
        }
    }
}

/// `from_u8` undoes `to_u8`, and accepts exactly the codes `to_u8` gives.
pub proof fn lemma_axis_roundtrip(a: Axis, v: u8)
    ensures
        axis_of_code(axis_code(a)) == Some(a),
        axis_of_code(v) matches Some(b) ==> axis_code(b) == v,
{
}

/// One captured or emulated input event. `dx`, `dy` and `value` are the bit
/// patterns of binary64 floating-point numbers.
#[derive(Debug, Clone, Copy, PartialEq, Eq, Structural)]
pub enum InputEvent {
    PointerMotion { time: u32, dx: u64, dy: u64 },
    PointerButton { time: u32, button: u32, state: ButtonState },
    PointerAxis { time: u32, axis: Axis, value: u64 },
    KeyboardKey { time: u32, key: u32, state: KeyState },
    KeyboardModifiers { depressed: u32, latched: u32, locked: u32, group: u32 },
}

impl InputEvent {
    pub fn is_pointer_motion(&self) -> (b: bool)
        ensures
            b <==> *self is PointerMotion,
    {
        match self {
            InputEvent::PointerMotion { .. } => true,
            _ => false,
        }
    }
}

/// The rectangle of a screen in global coordinates.
#[derive(Debug, Clone, Copy, PartialEq, Eq, Structural)]
pub struct ScreenBounds {
    pub x: i32,
    pub y: i32,
    pub width: u32,
    pub height: u32,
}

/// The bit pattern is a NaN: all exponent bits set and a fraction that is
/// not zero.
pub open spec fn is_nan_bits(a: u64) -> bool {
    a & 0x7ff0_0000_0000_0000 == 0x7ff0_0000_0000_0000 && a & 0x000f_ffff_ffff_ffff != 0
}

/// The bit pattern is positive or negative zero.
pub open spec fn is_zero_bits(a: u64) -> bool {
    a & 0x7fff_ffff_ffff_ffff == 0
}

/// Whether the binary64 numbers with bit patterns `a` and `b` are equal as
/// numbers: a NaN equals nothing, not even itself, the two zeros are equal,
/// and otherwise equal numbers have equal bit patterns.
pub open spec fn f64_bits_eq_spec(a: u64, b: u64) -> bool {
    !is_nan_bits(a) && !is_nan_bits(b) && (a == b || (is_zero_bits(a) && is_zero_bits(b)))
}

pub fn f64_bits_eq(a: u64, b: u64) -> (r: bool)
    ensures
        r == f64_bits_eq_spec(a, b),
{
    let a_nan = a & 0x7ff0_0000_0000_0000 == 0x7ff0_0000_0000_0000 && a & 0x000f_ffff_ffff_ffff
        != 0;
    let b_nan = b & 0x7ff0_0000_0000_0000 == 0x7ff0_0000_0000_0000 && b & 0x000f_ffff_ffff_ffff
        != 0;
    let zeros = a & 0x7fff_ffff_ffff_ffff == 0 && b & 0x7fff_ffff_ffff_ffff == 0;
    !a_nan && !b_nan && (a == b || zeros)
}

} // verus!
