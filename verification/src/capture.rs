//! Turning platform input reports into input events. The parts that carry
//! floating-point values (pointer deltas, wheel amounts) are converted by the
//! platform layer; the decisions on codes, buttons and states are here.
use vstd::prelude::*;
use crate::event::{key_state_code, ButtonState, InputEvent, KeyState};
use crate::keymap::{vk_to_evdev, vk_to_evdev_spec};

verus! {

/// Why input capture could not start or stop.
#[derive(Debug, Clone, PartialEq, Eq)]
pub enum CaptureError {
    AccessibilityNotGranted,
    EventTapCreationFailed,
    RunLoopSourceFailed,
    AlreadyRunning,
    NotRunning,
    HookInstallFailed(String),
    DeviceOpenFailed(String),
    NoInputDevices,
    ThreadFailed,
    PlatformNotSupported,
}

/// evdev code of the first mouse button (BTN_LEFT).
pub const BTN_LEFT: u32 = 0x110;
/// evdev code of the secondary mouse button (BTN_RIGHT).
pub const BTN_RIGHT: u32 = 0x111;
/// evdev code of the middle mouse button (BTN_MIDDLE).
pub const BTN_MIDDLE: u32 = 0x112;
/// evdev code of the last mouse button (BTN_TASK).
pub const BTN_TASK: u32 = 0x117;

/// The event of an evdev key report: codes BTN_LEFT..=BTN_TASK are mouse
/// buttons (any nonzero value presses), other codes are keys with values 0,
/// 1 and 2 for release, press and repeat; other key values are dropped.
pub open spec fn evdev_key_event_spec(code: u16, value: i32, time: u32) -> Option<InputEvent> {
    if BTN_LEFT <= code <= BTN_TASK {
        Some(
            InputEvent::PointerButton {
                time,
                button: code as u32,
                state: if value == 0 {
                    ButtonState::Release
                } else {
                    ButtonState::Press
                },
            },
        )
    } else if value == 0 {
        Some(InputEvent::KeyboardKey { time, key: code as u32, state: KeyState::Release })
    } else if value == 1 {
        Some(InputEvent::KeyboardKey { time, key: code as u32, state: KeyState::Press })
    } else if value == 2 {
        Some(InputEvent::KeyboardKey { time, key: code as u32, state: KeyState::Repeat })
    } else {
        None
    }
}

/// Converts an evdev key report.
pub fn evdev_key_event(code: u16, value: i32, time: u32) -> (r: Option<InputEvent>)
    ensures
        r == evdev_key_event_spec(code, value, time),
{
    let code32 = code as u32;
    if BTN_LEFT <= code32 && code32 <= BTN_TASK {
        let state = if value == 0 {
            ButtonState::Release
        } else {
            ButtonState::Press
        };
        Some(InputEvent::PointerButton { time, button: code32, state })
    } else {
        let state = match value {
            0 => KeyState::Release,
            1 => KeyState::Press,
            2 => KeyState::Repeat,
            _ => return None,
        };
        Some(InputEvent::KeyboardKey { time, key: code32, state })
    }
}

pub const WM_KEYDOWN: u32 = 0x0100;
pub const WM_KEYUP: u32 = 0x0101;
pub const WM_SYSKEYDOWN: u32 = 0x0104;
pub const WM_SYSKEYUP: u32 = 0x0105;
pub const WM_MOUSEMOVE: u32 = 0x0200;
pub const WM_LBUTTONDOWN: u32 = 0x0201;
pub const WM_LBUTTONUP: u32 = 0x0202;
pub const WM_RBUTTONDOWN: u32 = 0x0204;
pub const WM_RBUTTONUP: u32 = 0x0205;
pub const WM_MBUTTONDOWN: u32 = 0x0207;
pub const WM_MBUTTONUP: u32 = 0x0208;
pub const WM_MOUSEWHEEL: u32 = 0x020A;
pub const WM_XBUTTONDOWN: u32 = 0x020B;
pub const WM_XBUTTONUP: u32 = 0x020C;
pub const WM_MOUSEHWHEEL: u32 = 0x020E;

/// The evdev button of an extended (X) mouse button report: X1 is BTN_SIDE.
pub open spec fn xbutton_code(mouse_data: u32) -> u32 {
    let x = (mouse_data >> 16u32) & 0xffffu32;
    (0x113 + if x >= 1 {
        x - 1
    } else {
        0
    }) as u32
}

/// The button event of a low-level mouse message; messages that are not
/// button presses or releases give none.
pub open spec fn mouse_button_event_spec(msg: u32, mouse_data: u32, time: u32) -> Option<
    InputEvent,
> {
    if msg == WM_LBUTTONDOWN {
        Some(InputEvent::PointerButton { time, button: BTN_LEFT, state: ButtonState::Press })
    } else if msg == WM_LBUTTONUP {
        Some(InputEvent::PointerButton { time, button: BTN_LEFT, state: ButtonState::Release })
    } else if msg == WM_RBUTTONDOWN {
        Some(InputEvent::PointerButton { time, button: BTN_RIGHT, state: ButtonState::Press })
    } else if msg == WM_RBUTTONUP {
        Some(InputEvent::PointerButton { time, button: BTN_RIGHT, state: ButtonState::Release })
    } else if msg == WM_MBUTTONDOWN {
        Some(InputEvent::PointerButton { time, button: BTN_MIDDLE, state: ButtonState::Press })
    } else if msg == WM_MBUTTONUP {
        Some(InputEvent::PointerButton { time, button: BTN_MIDDLE, state: ButtonState::Release })
    } else if msg == WM_XBUTTONDOWN {
        Some(
            InputEvent::PointerButton {
                time,
                button: xbutton_code(mouse_data),
                state: ButtonState::Press,
            },
        )
    } else if msg == WM_XBUTTONUP {
        Some(
            InputEvent::PointerButton {
                time,
                button: xbutton_code(mouse_data),
                state: ButtonState::Release,
            },
        )
    } else {
        None
    }
}

/// Converts a low-level mouse button message.
pub fn mouse_button_event(msg: u32, mouse_data: u32, time: u32) -> (r: Option<InputEvent>)
    ensures
        r == mouse_button_event_spec(msg, mouse_data, time),
{
    let (button, state) = if msg == WM_LBUTTONDOWN {
        (BTN_LEFT, ButtonState::Press)
    } else if msg == WM_LBUTTONUP {
        (BTN_LEFT, ButtonState::Release)
    } else if msg == WM_RBUTTONDOWN {
        (BTN_RIGHT, ButtonState::Press)
    } else if msg == WM_RBUTTONUP {
        (BTN_RIGHT, ButtonState::Release)
    } else if msg == WM_MBUTTONDOWN {
        (BTN_MIDDLE, ButtonState::Press)
    } else if msg == WM_MBUTTONUP {
        (BTN_MIDDLE, ButtonState::Release)
    } else if msg == WM_XBUTTONDOWN || msg == WM_XBUTTONUP {
        let xbutton = (mouse_data >> 16u32) & 0xffffu32;
        proof {
            assert(((mouse_data >> 16u32) & 0xffffu32) <= 0xffffu32) by (bit_vector);
        }
        let button = 0x113 + xbutton.saturating_sub(1);
        let state = if msg == WM_XBUTTONDOWN {
            ButtonState::Press
        } else {
            ButtonState::Release
        };
        (button, state)
    } else {
        return None;
    };
    Some(InputEvent::PointerButton { time, button, state })
}

/// The signed wheel delta carried in the high word of a wheel message.
pub fn wheel_delta(mouse_data: u32) -> (r: i16)
    ensures
        r == (mouse_data >> 16u32) as i16,
{
    (mouse_data >> 16u32) as i16
}

/// The key event of a low-level keyboard message: key-down messages press,
/// key-up messages release, anything else counts as a press.
pub open spec fn keyboard_event_spec(msg: u32, vk: u32, time: u32) -> InputEvent {
    InputEvent::KeyboardKey {
        time,
        key: vk_to_evdev_spec(vk),
        state: if msg == WM_KEYUP || msg == WM_SYSKEYUP {
            KeyState::Release
        } else {
            KeyState::Press
        },
    }
}

/// Converts a low-level keyboard message.
pub fn keyboard_event(msg: u32, vk: u32, time: u32) -> (r: InputEvent)
    ensures
        r == keyboard_event_spec(msg, vk, time),
{
    let key = vk_to_evdev(vk);
    let state = if msg == WM_KEYDOWN || msg == WM_SYSKEYDOWN {
        KeyState::Press
    } else if msg == WM_KEYUP || msg == WM_SYSKEYUP {
        KeyState::Release
    } else {
        KeyState::Press
    };
    InputEvent::KeyboardKey { time, key, state }
}

/// Turns absolute cursor reports into relative motion. `last` is the
/// previous report, with an x of `i32::MIN` standing for none yet: a report
/// after that only sets the reference point.
#[derive(Debug, Clone, Copy)]
pub struct MotionTracker {
    pub last: (i32, i32),
}

/// The x coordinate of `MotionTracker::last` that stands for "no report yet".
pub const NO_POSITION: i32 = i32::MIN;

/// The movement from the previous report `last` to a report at (`x`, `y`):
/// none before the first report or when the cursor stayed put.
pub open spec fn motion_since(last: (i32, i32), x: i32, y: i32) -> Option<(i32, i32)> {
    let (lx, ly) = last;
    if lx != NO_POSITION && (x != lx || y != ly) {
        Some(((x - lx) as i32, (y - ly) as i32))
    } else {
        None
    }
}

/// A reported movement carries the cursor from the previous report to the
/// new one and is never zero; every change of position after a first report
/// is reported, and the first report (or a report at the same place) gives
/// none.
pub proof fn lemma_motion_since(last: (i32, i32), x: i32, y: i32)
    requires
        last.0 != NO_POSITION ==> i32::MIN <= x - last.0 <= i32::MAX && i32::MIN <= y - last.1
            <= i32::MAX,
    ensures
        motion_since(last, x, y) matches Some((dx, dy)) ==> last.0 + dx == x && last.1 + dy == y
            && (dx != 0 || dy != 0),
        last.0 != NO_POSITION && (x, y) != last ==> motion_since(last, x, y) is Some,
        (last.0 == NO_POSITION || (x, y) == last) ==> motion_since(last, x, y) is None,
{
}

impl MotionTracker {
    pub fn new() -> (t: Self)
        ensures
            t.last == (NO_POSITION, NO_POSITION),
    {
        MotionTracker { last: (NO_POSITION, NO_POSITION) }
    }

    /// Whether a report at (`x`, `y`) can be taken: the movement since a
    /// previous report fits in 32 bits.
    pub open spec fn observe_ok(self, x: i32, y: i32) -> bool {
        self.last.0 != NO_POSITION ==> i32::MIN <= x - self.last.0 <= i32::MAX && i32::MIN <= y
            - self.last.1 <= i32::MAX
    }

    /// Whether `observe` can take a report at (`x`, `y`).
    pub fn observe_in_range(&self, x: i32, y: i32) -> (b: bool)
        ensures
            b == self.observe_ok(x, y),
    {
        if self.last.0 == NO_POSITION {
            return true;
        }
        let dx: i64 = x as i64 - self.last.0 as i64;
        let dy: i64 = y as i64 - self.last.1 as i64;
        i32::MIN as i64 <= dx && dx <= i32::MAX as i64 && i32::MIN as i64 <= dy && dy
            <= i32::MAX as i64
    }

    /// Records the cursor at (`x`, `y`) and gives the movement since the
    /// previous report, if there was one and the cursor moved.
    pub fn observe(&mut self, x: i32, y: i32) -> (r: Option<(i32, i32)>)
        requires
            old(self).observe_ok(x, y),
        ensures
            final(self).last == (x, y),
            r == motion_since(old(self).last, x, y),
    {
        let (lx, ly) = self.last;
        let r = if lx != NO_POSITION {
            let dx = x - lx;
            let dy = y - ly;
            if dx != 0 || dy != 0 {
                Some((dx, dy))
            } else {
                None
            }
        } else {
            None
        };
        self.last = (x, y);
        r
    }
}

/// The evdev button of a macOS "other" mouse button number: button 2 is the
/// middle button, button n is BTN_LEFT + n.
pub open spec fn other_mouse_button_spec(btn: u32) -> u32 {
    if btn == 2 {
        BTN_MIDDLE
    } else {
        (BTN_LEFT + btn) as u32
    }
}

pub fn other_mouse_button(btn: u32) -> (r: u32)
    requires
        btn + BTN_LEFT <= u32::MAX,
    ensures
        r == other_mouse_button_spec(btn),
{
    if btn == 2 {
        BTN_MIDDLE
    } else {
        BTN_LEFT + btn
    }
}

/// The state of a macOS key-down report: a repeat when it auto-repeats.
pub fn key_down_state(autorepeat: i64) -> (s: KeyState)
    ensures
        s == (if autorepeat != 0 {
            KeyState::Repeat
        } else {
            KeyState::Press
        }),
{
    if autorepeat != 0 {
        KeyState::Repeat
    } else {
        KeyState::Press
    }
}

/// The modifier event of macOS event flags: the device-independent modifier
/// bits are the depressed set, Caps Lock (bit 16) is the locked state.
pub open spec fn modifiers_from_flags_spec(bits: u64) -> InputEvent {
    InputEvent::KeyboardModifiers {
        depressed: (bits & 0x00FF_0000u64) as u32,
        latched: 0,
        locked: if bits & 0x0001_0000u64 != 0 {
            1
        } else {
            0
        },
        group: 0,
    }
}

pub fn modifiers_from_flags(bits: u64) -> (r: InputEvent)
    ensures
        r == modifiers_from_flags_spec(bits),
{
    let depressed = (bits & 0x00FF_0000u64) as u32;
    let locked = if bits & 0x0001_0000u64 != 0 {
        1
    } else {
        0
    };
    InputEvent::KeyboardModifiers { depressed, latched: 0, locked, group: 0 }
}

/// What the evdev capture does with its devices after a poll round.
#[derive(Debug, Clone, Copy, PartialEq, Eq, Structural)]
pub enum GrabAction {
    Nothing,
    /// Grab every device: input goes only to the capture.
    Grab,
    /// Release every device.
    Ungrab,
}

/// Grabbing follows the capture flag, acting only when it changed: from
/// whether the devices are grabbed and whether they should be, the new
/// grabbed state and what to do.
pub fn grab_step(grabbed: bool, should_grab: bool) -> (r: (bool, GrabAction))
    ensures
        r.0 == should_grab,
        r.1 == (if should_grab && !grabbed {
            GrabAction::Grab
        } else if !should_grab && grabbed {
            GrabAction::Ungrab
        } else {
            GrabAction::Nothing
        }),
{
    if should_grab && !grabbed {
        (true, GrabAction::Grab)
    } else if !should_grab && grabbed {
        (false, GrabAction::Ungrab)
    } else {
        (grabbed, GrabAction::Nothing)
    }
}

/// evdev key reports keep their code and time; a key report (outside the
/// mouse buttons) is kept exactly when its value is one of the key state
/// codes, and then its state is the one whose code is that value: 0
/// releases, 1 presses, 2 repeats. A mouse button report is always kept,
/// pressed exactly when its value is not 0.
pub proof fn lemma_evdev_key_event(code: u16, value: i32, time: u32)
    ensures
        ({
            let r = evdev_key_event_spec(code, value, time);
            &&& !(BTN_LEFT <= code <= BTN_TASK) ==> (r is Some <==> 0 <= value <= 2)
            &&& !(BTN_LEFT <= code <= BTN_TASK) && 0 <= value <= 2 ==> (r matches Some(
                InputEvent::KeyboardKey { time: t, key, state },
            ) && t == time && key == code as u32 && key_state_code(state) == value)
            &&& BTN_LEFT <= code <= BTN_TASK ==> (r matches Some(
                InputEvent::PointerButton { time: t, button, state },
            ) && t == time && button == code as u32 && (state == ButtonState::Press <==> value
                != 0))
        }),
{
}

/// Each button-down message presses and its button-up message releases the
/// same button: left, right and middle messages their evdev buttons, X
/// button messages BTN_SIDE onwards by the X button number in the high word
/// (X1 is BTN_SIDE, X2 BTN_EXTRA). The time is kept, and every other
/// message gives no button event.
pub proof fn lemma_mouse_button_event(mouse_data: u32, time: u32, msg: u32)
    ensures
        ({
            let pairs = seq![
                (WM_LBUTTONDOWN, WM_LBUTTONUP),
                (WM_RBUTTONDOWN, WM_RBUTTONUP),
                (WM_MBUTTONDOWN, WM_MBUTTONUP),
                (WM_XBUTTONDOWN, WM_XBUTTONUP),
            ];
            forall|i: int|
                0 <= i < 4 ==> {
                    let down = mouse_button_event_spec(#[trigger] pairs[i].0, mouse_data, time);
                    let up = mouse_button_event_spec(pairs[i].1, mouse_data, time);
                    &&& down matches Some(InputEvent::PointerButton { time: t, button, state })
                        && t == time && state == ButtonState::Press
                    &&& up == Some(
                        InputEvent::PointerButton {
                            time,
                            button: down->Some_0->PointerButton_button,
                            state: ButtonState::Release,
                        },
                    )
                }
        }),
        mouse_button_event_spec(WM_LBUTTONDOWN, mouse_data, time)->Some_0->PointerButton_button
            == BTN_LEFT,
        mouse_button_event_spec(WM_RBUTTONDOWN, mouse_data, time)->Some_0->PointerButton_button
            == BTN_RIGHT,
        mouse_button_event_spec(WM_MBUTTONDOWN, mouse_data, time)->Some_0->PointerButton_button
            == BTN_MIDDLE,
        (mouse_data >> 16u32) == 1 ==> mouse_button_event_spec(
            WM_XBUTTONDOWN,
            mouse_data,
            time,
        )->Some_0->PointerButton_button == 0x113,
        (mouse_data >> 16u32) == 2 ==> mouse_button_event_spec(
            WM_XBUTTONDOWN,
            mouse_data,
            time,
        )->Some_0->PointerButton_button == 0x114,
        !(msg == WM_LBUTTONDOWN || msg == WM_LBUTTONUP || msg == WM_RBUTTONDOWN || msg
            == WM_RBUTTONUP || msg == WM_MBUTTONDOWN || msg == WM_MBUTTONUP || msg
            == WM_XBUTTONDOWN || msg == WM_XBUTTONUP) ==> mouse_button_event_spec(
            msg,
            mouse_data,
            time,
        ) is None,
{
    if (mouse_data >> 16u32) == 1 {
        assert((mouse_data >> 16u32) == 1 ==> ((mouse_data >> 16u32) & 0xffffu32) == 1)
            by (bit_vector);
    }
    if (mouse_data >> 16u32) == 2 {
        assert((mouse_data >> 16u32) == 2 ==> ((mouse_data >> 16u32) & 0xffffu32) == 2)
            by (bit_vector);
    }
}

/// A key-down message (plain or system) presses and the matching key-up
/// message releases the same key, the evdev key of the virtual key; the
/// time is kept.
pub proof fn lemma_keyboard_event(vk: u32, time: u32)
    ensures
        ({
            let down = keyboard_event_spec(WM_KEYDOWN, vk, time);
            &&& down == InputEvent::KeyboardKey {
                time,
                key: vk_to_evdev_spec(vk),
                state: KeyState::Press,
            }
            &&& keyboard_event_spec(WM_SYSKEYDOWN, vk, time) == down
            &&& keyboard_event_spec(WM_KEYUP, vk, time) == InputEvent::KeyboardKey {
                time,
                key: vk_to_evdev_spec(vk),
                state: KeyState::Release,
            }
            &&& keyboard_event_spec(WM_SYSKEYUP, vk, time) == keyboard_event_spec(
                WM_KEYUP,
                vk,
                time,
            )
        }),
{
}

/// The modifier event of macOS flags: the depressed set is exactly the
/// device-independent modifier bits (16 to 23) of the flags, the lock state
/// is 1 exactly when Caps Lock (bit 16) is set and 0 otherwise, and nothing
/// is latched or grouped.
pub proof fn lemma_modifiers_from_flags(bits: u64)
    ensures
        modifiers_from_flags_spec(bits) matches InputEvent::KeyboardModifiers {
            depressed,
            latched,
            locked,
            group,
        } && depressed as u64 == bits & 0x00FF_0000u64 && latched == 0 && group == 0 && (locked
            == 1 <==> bits & 0x0001_0000u64 != 0) && (locked == 0 <==> bits & 0x0001_0000u64 == 0),
{
    assert(bits & 0x00FF_0000u64 <= 0x00FF_0000u64) by (bit_vector);
}

} // verus!
