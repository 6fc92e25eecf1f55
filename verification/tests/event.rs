use vesa::event::{Axis, ButtonState, InputEvent, KeyState, Position, ScreenBounds};

#[test]
fn position_byte_roundtrip() {
    for pos in [Position::Left, Position::Right, Position::Top, Position::Bottom] {
        assert_eq!(Position::from_byte(pos.to_byte()), Some(pos));
    }
}

#[test]
fn position_from_invalid_byte() {
    assert_eq!(Position::from_byte(4), None);
    assert_eq!(Position::from_byte(255), None);
}

#[test]
fn position_opposite() {
    assert_eq!(Position::Left.opposite(), Position::Right);
    assert_eq!(Position::Right.opposite(), Position::Left);
    assert_eq!(Position::Top.opposite(), Position::Bottom);
    assert_eq!(Position::Bottom.opposite(), Position::Top);
}

#[test]
fn position_opposite_is_involution() {
    for pos in [Position::Left, Position::Right, Position::Top, Position::Bottom] {
        assert_eq!(pos.opposite().opposite(), pos);
    }
}

#[test]
fn button_state_roundtrip() {
    assert_eq!(ButtonState::from_u32(ButtonState::Press.to_u32()), Some(ButtonState::Press));
    assert_eq!(ButtonState::from_u32(ButtonState::Release.to_u32()), Some(ButtonState::Release));
}

#[test]
fn button_state_from_invalid() {
    assert_eq!(ButtonState::from_u32(2), None);
    assert_eq!(ButtonState::from_u32(u32::MAX), None);
}

#[test]
fn key_state_roundtrip() {
    for state in [KeyState::Press, KeyState::Release, KeyState::Repeat] {
        assert_eq!(KeyState::from_u8(state.to_u8()), Some(state));
    }
}

#[test]
fn key_state_from_invalid() {
    assert_eq!(KeyState::from_u8(3), None);
    assert_eq!(KeyState::from_u8(255), None);
}

#[test]
fn axis_roundtrip() {
    assert_eq!(Axis::from_u8(Axis::Vertical.to_u8()), Some(Axis::Vertical));
    assert_eq!(Axis::from_u8(Axis::Horizontal.to_u8()), Some(Axis::Horizontal));
}

#[test]
fn axis_from_invalid() {
    assert_eq!(Axis::from_u8(2), None);
}

#[test]
fn wire_codes_are_fixed() {
    assert_eq!(Position::Left.to_byte(), 0);
    assert_eq!(Position::Right.to_byte(), 1);
    assert_eq!(Position::Top.to_byte(), 2);
    assert_eq!(Position::Bottom.to_byte(), 3);
    assert_eq!(Position::from_byte(2), Some(Position::Top));
    assert_eq!(ButtonState::Press.to_u32(), 1);
    assert_eq!(ButtonState::Release.to_u32(), 0);
    assert_eq!(KeyState::Release.to_u8(), 0);
    assert_eq!(KeyState::Press.to_u8(), 1);
    assert_eq!(KeyState::Repeat.to_u8(), 2);
    assert_eq!(KeyState::from_u8(2), Some(KeyState::Repeat));
    assert_eq!(Axis::Vertical.to_u8(), 0);
    assert_eq!(Axis::Horizontal.to_u8(), 1);
}

#[test]
fn every_byte_decodes_to_its_own_position() {
    for b in 0u8..=255 {
        match Position::from_byte(b) {
            Some(p) => assert_eq!(p.to_byte(), b),
            None => assert!(b >= 4),
        }
    }
}

#[test]
fn pointer_motion_is_recognised() {
    let motion = InputEvent::PointerMotion { time: 1, dx: 1.0f64.to_bits(), dy: 0 };
    let key = InputEvent::KeyboardKey { time: 1, key: 30, state: KeyState::Press };
    assert!(motion.is_pointer_motion());
    assert!(!key.is_pointer_motion());
}

#[test]
fn screen_bounds_fields() {
    let bounds = ScreenBounds { x: -100, y: 0, width: 1920, height: 1080 };
    let copy = bounds;
    assert_eq!(copy, bounds);
    assert_eq!(copy.x, -100);
    assert_eq!(copy.width, 1920);
}
