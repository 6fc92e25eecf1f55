use vesa::capture::{
    evdev_key_event, grab_step, key_down_state, keyboard_event, modifiers_from_flags, mouse_button_event,
    other_mouse_button, wheel_delta, GrabAction, MotionTracker, WM_KEYDOWN, WM_KEYUP, WM_LBUTTONDOWN,
    WM_MBUTTONUP, WM_MOUSEMOVE, WM_RBUTTONUP, WM_SYSKEYUP, WM_XBUTTONDOWN, WM_XBUTTONUP,
};
use vesa::emulate::{
    MacButton, MacButtons, MacMoveKind, WindowsEmulate, KEYEVENTF_KEYUP, KEYEVENTF_SCANCODE,
    MOUSEEVENTF_HWHEEL, MOUSEEVENTF_LEFTDOWN, MOUSEEVENTF_MIDDLEUP, MOUSEEVENTF_RIGHTDOWN,
    MOUSEEVENTF_WHEEL,
};
use vesa::event::{Axis, ButtonState, InputEvent, KeyState};
use vesa::keymap::{evdev_to_scancode, vk_to_evdev};

#[test]
fn virtual_keys_map_to_evdev() {
    assert_eq!(vk_to_evdev(0x1B), 1); // Escape
    assert_eq!(vk_to_evdev(0x70), 59); // F1
    assert_eq!(vk_to_evdev(0x79), 68); // F10
    assert_eq!(vk_to_evdev(0x7A), 87); // F11
    assert_eq!(vk_to_evdev(0x7B), 88); // F12
    assert_eq!(vk_to_evdev(0x7C), 183); // F13
    assert_eq!(vk_to_evdev(0x87), 194); // F24
    assert_eq!(vk_to_evdev(0x30), 11); // 0
    assert_eq!(vk_to_evdev(0x31), 2); // 1
    assert_eq!(vk_to_evdev(0x39), 10); // 9
    assert_eq!(vk_to_evdev(0x41), 30); // A
    assert_eq!(vk_to_evdev(0x51), 16); // Q
    assert_eq!(vk_to_evdev(0x5A), 44); // Z
    assert_eq!(vk_to_evdev(0x20), 57); // Space
    assert_eq!(vk_to_evdev(0xA3), 97); // right Control
    assert_eq!(vk_to_evdev(0x25), 105); // Left arrow
    assert_eq!(vk_to_evdev(0xDE), 40); // quote
    assert_eq!(vk_to_evdev(0xFF), 0xFF); // unknown keys pass through
}

#[test]
fn scancode_is_low_word() {
    assert_eq!(evdev_to_scancode(30), 30);
    assert_eq!(evdev_to_scancode(0x1_0005), 5);
}

#[test]
fn evdev_reports_become_events() {
    assert_eq!(
        evdev_key_event(0x110, 1, 7),
        Some(InputEvent::PointerButton { time: 7, button: 0x110, state: ButtonState::Press })
    );
    assert_eq!(
        evdev_key_event(0x117, 0, 7),
        Some(InputEvent::PointerButton { time: 7, button: 0x117, state: ButtonState::Release })
    );
    assert_eq!(
        evdev_key_event(0x111, 2, 7),
        Some(InputEvent::PointerButton { time: 7, button: 0x111, state: ButtonState::Press })
    );
    assert_eq!(
        evdev_key_event(30, 2, 8),
        Some(InputEvent::KeyboardKey { time: 8, key: 30, state: KeyState::Repeat })
    );
    assert_eq!(
        evdev_key_event(30, 0, 8),
        Some(InputEvent::KeyboardKey { time: 8, key: 30, state: KeyState::Release })
    );
    assert_eq!(evdev_key_event(30, 3, 8), None);
    assert_eq!(evdev_key_event(0x118, -1, 8), None);
}

#[test]
fn windows_mouse_messages() {
    assert_eq!(
        mouse_button_event(WM_LBUTTONDOWN, 0, 3),
        Some(InputEvent::PointerButton { time: 3, button: 0x110, state: ButtonState::Press })
    );
    assert_eq!(
        mouse_button_event(WM_RBUTTONUP, 0, 3),
        Some(InputEvent::PointerButton { time: 3, button: 0x111, state: ButtonState::Release })
    );
    assert_eq!(
        mouse_button_event(WM_MBUTTONUP, 0, 3),
        Some(InputEvent::PointerButton { time: 3, button: 0x112, state: ButtonState::Release })
    );
    assert_eq!(
        mouse_button_event(WM_XBUTTONDOWN, 1 << 16, 3),
        Some(InputEvent::PointerButton { time: 3, button: 0x113, state: ButtonState::Press })
    );
    assert_eq!(
        mouse_button_event(WM_XBUTTONUP, 2 << 16, 3),
        Some(InputEvent::PointerButton { time: 3, button: 0x114, state: ButtonState::Release })
    );
    assert_eq!(
        mouse_button_event(WM_XBUTTONUP, 0, 3),
        Some(InputEvent::PointerButton { time: 3, button: 0x113, state: ButtonState::Release })
    );
    assert_eq!(mouse_button_event(WM_MOUSEMOVE, 0, 3), None);
    assert_eq!(wheel_delta(0xFF88_0000), -120);
    assert_eq!(wheel_delta(120 << 16), 120);
}

#[test]
fn windows_keyboard_messages() {
    assert_eq!(
        keyboard_event(WM_KEYDOWN, 0x41, 4),
        InputEvent::KeyboardKey { time: 4, key: 30, state: KeyState::Press }
    );
    assert_eq!(
        keyboard_event(WM_KEYUP, 0x1B, 4),
        InputEvent::KeyboardKey { time: 4, key: 1, state: KeyState::Release }
    );
    assert_eq!(
        keyboard_event(WM_SYSKEYUP, 0x12, 4),
        InputEvent::KeyboardKey { time: 4, key: 56, state: KeyState::Release }
    );
    assert_eq!(
        keyboard_event(0x0999, 0x20, 4),
        InputEvent::KeyboardKey { time: 4, key: 57, state: KeyState::Press }
    );
}

#[test]
fn motion_tracker_reports_deltas() {
    let mut t = MotionTracker::new();
    assert_eq!(t.observe(100, 200), None);
    assert_eq!(t.observe(103, 198), Some((3, -2)));
    assert_eq!(t.observe(103, 198), None);
    assert_eq!(t.observe(90, 198), Some((-13, 0)));
    let mut fresh = MotionTracker::new();
    assert_eq!(fresh.last, (i32::MIN, i32::MIN));
    assert!(fresh.observe_in_range(i32::MAX, 0));
    assert_eq!(fresh.observe(i32::MIN, 5), None);
    assert_eq!(fresh.observe(i32::MIN, 7), None);
    assert_eq!(fresh.observe(1, 7), None);
    assert!(!fresh.observe_in_range(i32::MIN, 7));
    assert_eq!(fresh.observe(-1, 9), Some((-2, 2)));
}

#[test]
fn macos_conversions() {
    assert_eq!(other_mouse_button(2), 0x112);
    assert_eq!(other_mouse_button(3), 0x113);
    assert_eq!(key_down_state(0), KeyState::Press);
    assert_eq!(key_down_state(1), KeyState::Repeat);
    assert_eq!(
        modifiers_from_flags(0x0013_0100),
        InputEvent::KeyboardModifiers { depressed: 0x0013_0000, latched: 0, locked: 1, group: 0 }
    );
    assert_eq!(
        modifiers_from_flags(0x0002_0000),
        InputEvent::KeyboardModifiers { depressed: 0x0002_0000, latched: 0, locked: 0, group: 0 }
    );
}

#[test]
fn windows_pointer_motion_is_clamped_and_scaled() {
    let mut e = WindowsEmulate::new(100, 100, 1920, 1080);
    assert_eq!(e.emit_pointer_motion(10, -20), (110 * 65535 / 1920, 80 * 65535 / 1080));
    assert_eq!((e.mouse_x, e.mouse_y), (110, 80));
    assert_eq!(e.emit_pointer_motion(5000, -5000), (1919 * 65535 / 1920, 0));
    assert_eq!((e.mouse_x, e.mouse_y), (1919, 0));
}

#[test]
fn windows_motion_range() {
    let e = WindowsEmulate::new(100, 100, 1920, 1080);
    assert!(e.motion_in_range(10, -20));
    assert!(e.motion_in_range(i32::MAX - 100, i32::MIN + 100));
    assert!(!e.motion_in_range(i32::MAX, 0));
    assert!(!WindowsEmulate::new(0, 0, 0, 1080).motion_in_range(0, 0));
    let mut wide = WindowsEmulate::new(0, 0, 40000, 1080);
    assert!(wide.motion_in_range(32768, 0));
    assert!(!wide.motion_in_range(32769, 0));
    assert_eq!(wide.emit_pointer_motion(32768, 0), (32768 * 65535 / 40000, 0));
}

#[test]
fn windows_buttons_keys_and_wheel() {
    let e = WindowsEmulate::new(0, 0, 800, 600);
    assert_eq!(e.emit_pointer_button(0x110, ButtonState::Press), Some(MOUSEEVENTF_LEFTDOWN));
    assert_eq!(e.emit_pointer_button(0x111, ButtonState::Press), Some(MOUSEEVENTF_RIGHTDOWN));
    assert_eq!(e.emit_pointer_button(0x112, ButtonState::Release), Some(MOUSEEVENTF_MIDDLEUP));
    assert_eq!(e.emit_pointer_button(0x113, ButtonState::Press), None);
    assert_eq!(e.emit_keyboard_key(30, KeyState::Press), (30, KEYEVENTF_SCANCODE));
    assert_eq!(
        e.emit_keyboard_key(30, KeyState::Release),
        (30, KEYEVENTF_SCANCODE | KEYEVENTF_KEYUP)
    );
    assert_eq!(e.emit_keyboard_key(30, KeyState::Repeat), (30, KEYEVENTF_SCANCODE));
    assert_eq!(WindowsEmulate::wheel_flags(Axis::Vertical), MOUSEEVENTF_WHEEL);
    assert_eq!(WindowsEmulate::wheel_flags(Axis::Horizontal), MOUSEEVENTF_HWHEEL);
}

#[test]
fn macos_button_tracking() {
    let mut b = MacButtons::new();
    assert_eq!(b.move_kind(), MacMoveKind::Moved);
    assert_eq!(b.press(0x111, ButtonState::Press), Some(MacButton::Right));
    assert_eq!(b.move_kind(), MacMoveKind::RightDragged);
    assert_eq!(b.press(0x110, ButtonState::Press), Some(MacButton::Left));
    assert_eq!(b.move_kind(), MacMoveKind::LeftDragged);
    assert_eq!(b.press(0x110, ButtonState::Release), Some(MacButton::Left));
    assert_eq!(b.press(0x111, ButtonState::Release), Some(MacButton::Right));
    assert_eq!(b.press(0x112, ButtonState::Press), Some(MacButton::Center));
    assert_eq!(b.move_kind(), MacMoveKind::OtherDragged);
    assert_eq!(b.press(0x115, ButtonState::Press), None);
}

#[test]
fn key_blocks_map_to_distinct_codes() {
    for block in [0x70u32..=0x87, 0x30..=0x39, 0x41..=0x5A] {
        let codes: Vec<u32> = block.map(vk_to_evdev).collect();
        for i in 0..codes.len() {
            for j in (i + 1)..codes.len() {
                assert_ne!(codes[i], codes[j]);
            }
        }
    }
}

#[test]
fn evdev_grab_follows_capture_flag() {
    assert_eq!(grab_step(false, true), (true, GrabAction::Grab));
    assert_eq!(grab_step(true, true), (true, GrabAction::Nothing));
    assert_eq!(grab_step(true, false), (false, GrabAction::Ungrab));
    assert_eq!(grab_step(false, false), (false, GrabAction::Nothing));
}
