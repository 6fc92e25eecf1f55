//! Injecting input: what the platform layers send for each event. The
//! calls into the operating system stay with the platform layer.
use vstd::prelude::*;
use crate::capture::{BTN_LEFT, BTN_MIDDLE, BTN_RIGHT};
use crate::event::{Axis, ButtonState, KeyState};
use crate::keymap::evdev_to_scancode;

verus! {

/// Why input could not be injected.
#[derive(Debug, Clone, PartialEq, Eq)]
pub enum EmulateError {
    EventSourceCreation,
    EventCreation(String),
    VirtualDeviceCreation(String),
    SendInputFailed(String),
    Unsupported,
}

pub const MOUSEEVENTF_MOVE: u32 = 0x0001;
pub const MOUSEEVENTF_LEFTDOWN: u32 = 0x0002;
pub const MOUSEEVENTF_LEFTUP: u32 = 0x0004;
pub const MOUSEEVENTF_RIGHTDOWN: u32 = 0x0008;
pub const MOUSEEVENTF_RIGHTUP: u32 = 0x0010;
pub const MOUSEEVENTF_MIDDLEDOWN: u32 = 0x0020;
pub const MOUSEEVENTF_MIDDLEUP: u32 = 0x0040;
pub const MOUSEEVENTF_WHEEL: u32 = 0x0800;
pub const MOUSEEVENTF_HWHEEL: u32 = 0x1000;
pub const MOUSEEVENTF_ABSOLUTE: u32 = 0x8000;
pub const KEYEVENTF_KEYUP: u32 = 0x0002;
pub const KEYEVENTF_SCANCODE: u32 = 0x0008;

/// Full scale of absolute mouse coordinates in a Windows mouse input.
pub const ABSOLUTE_SCALE: i32 = 65535;

pub open spec fn clamp_spec(v: int, lo: int, hi: int) -> int {
    if v < lo {
        lo
    } else if v > hi {
        hi
    } else {
        v
    }
}

/// The state of the Windows injector: where it has put the cursor, and the
/// size of the primary screen.
#[derive(Debug, Clone, Copy, PartialEq, Eq, Structural)]
pub struct WindowsEmulate {
    pub mouse_x: i32,
    pub mouse_y: i32,
    pub screen_width: i32,
    pub screen_height: i32,
}

impl WindowsEmulate {
    /// An injector starting from the cursor at (`mouse_x`, `mouse_y`) on a
    /// screen of the given size.
    pub fn new(mouse_x: i32, mouse_y: i32, screen_width: i32, screen_height: i32) -> (e: Self)
        ensures
            e == (WindowsEmulate { mouse_x, mouse_y, screen_width, screen_height }),
    {
        WindowsEmulate { mouse_x, mouse_y, screen_width, screen_height }
    }

    /// The inputs on which a motion is computed without overflow or panic:
    /// a screen of at least one unit each way (the cursor is clamped to
    /// `0..=side - 1`), sums of position and delta within 32 bits, and each
    /// clamped coordinate times the absolute scale within 32 bits.
    pub open spec fn motion_ok(self, dx: i32, dy: i32) -> bool {
        &&& self.screen_width >= 1
        &&& self.screen_height >= 1
        &&& i32::MIN <= self.mouse_x + dx <= i32::MAX
        &&& i32::MIN <= self.mouse_y + dy <= i32::MAX
        &&& clamp_spec(self.mouse_x + dx, 0, self.screen_width - 1) * 65535 <= i32::MAX
        &&& clamp_spec(self.mouse_y + dy, 0, self.screen_height - 1) * 65535 <= i32::MAX
    }

    /// Whether `emit_pointer_motion` can take this motion.
    pub fn motion_in_range(&self, dx: i32, dy: i32) -> (b: bool)
        ensures
            b == self.motion_ok(dx, dy),
    {
        if self.screen_width < 1 || self.screen_height < 1 {
            return false;
        }
        let x: i64 = self.mouse_x as i64 + dx as i64;
        let y: i64 = self.mouse_y as i64 + dy as i64;
        if x < i32::MIN as i64 || x > i32::MAX as i64 || y < i32::MIN as i64 || y > i32::MAX as i64 {
            return false;
        }
        let w: i64 = self.screen_width as i64;
        let h: i64 = self.screen_height as i64;
        let cx: i64 = if x < 0 {
            0
        } else if x > w - 1 {
            w - 1
        } else {
            x
        };
        let cy: i64 = if y < 0 {
            0
        } else if y > h - 1 {
            h - 1
        } else {
            y
        };
        cx * 65535 <= i32::MAX as i64 && cy * 65535 <= i32::MAX as i64
    }

    /// Moves the cursor by (`dx`, `dy`) whole units, kept on the screen, and
    /// gives the absolute coordinates to send (0..=65535 across the screen)
    /// with the flags `MOUSEEVENTF_MOVE | MOUSEEVENTF_ABSOLUTE`.
    pub fn emit_pointer_motion(&mut self, dx: i32, dy: i32) -> (r: (i32, i32))
        requires
            old(self).motion_ok(dx, dy),
        ensures
            final(self).screen_width == old(self).screen_width,
            final(self).screen_height == old(self).screen_height,
            final(self).mouse_x == clamp_spec(
                old(self).mouse_x + dx,
                0,
                old(self).screen_width - 1,
            ),
            final(self).mouse_y == clamp_spec(
                old(self).mouse_y + dy,
                0,
                old(self).screen_height - 1,
            ),
            r.0 == final(self).mouse_x * 65535 / (old(self).screen_width as int),
            r.1 == final(self).mouse_y * 65535 / (old(self).screen_height as int),
            0 <= r.0 <= 65535,
            0 <= r.1 <= 65535,
    {
        let x = self.mouse_x + dx;
        let y = self.mouse_y + dy;
        self.mouse_x = if x < 0 {
            0
        } else if x > self.screen_width - 1 {
            self.screen_width - 1
        } else {
            x
        };
        self.mouse_y = if y < 0 {
            0
        } else if y > self.screen_height - 1 {
            self.screen_height - 1
        } else {
            y
        };
        let w = self.screen_width;
        let h = self.screen_height;
        let mx = self.mouse_x;
        let my = self.mouse_y;
        proof {
            assert(0 <= mx * 65535) by (nonlinear_arith)
                requires
                    0 <= mx,
            ;
            assert(0 <= my * 65535) by (nonlinear_arith)
                requires
                    0 <= my,
            ;
            assert((mx * 65535) / (w as int) <= 65535) by (nonlinear_arith)
                requires
                    0 <= mx <= w - 1,
                    w >= 1,
            ;
            assert((my * 65535) / (h as int) <= 65535) by (nonlinear_arith)
                requires
                    0 <= my <= h - 1,
                    h >= 1,
            ;
        }
        let abs_x = (mx * ABSOLUTE_SCALE) / w;
        let abs_y = (my * ABSOLUTE_SCALE) / h;
        (abs_x, abs_y)
    }

    /// The mouse input flags for a button change: left, right and middle
    /// buttons only; other buttons are not sent.
    pub fn emit_pointer_button(&self, button: u32, state: ButtonState) -> (r: Option<u32>)
        ensures
            r == (if button == BTN_LEFT {
                Some(
                    if state == ButtonState::Press {
                        MOUSEEVENTF_LEFTDOWN
                    } else {
                        MOUSEEVENTF_LEFTUP
                    },
                )
            } else if button == BTN_RIGHT {
                Some(
                    if state == ButtonState::Press {
                        MOUSEEVENTF_RIGHTDOWN
                    } else {
                        MOUSEEVENTF_RIGHTUP
                    },
                )
            } else if button == BTN_MIDDLE {
                Some(
                    if state == ButtonState::Press {
                        MOUSEEVENTF_MIDDLEDOWN
                    } else {
                        MOUSEEVENTF_MIDDLEUP
                    },
                )
            } else {
                None
            }),
    {
        let pressed = match state {
            ButtonState::Press => true,
            ButtonState::Release => false,
        };
        if button == BTN_LEFT {
            Some(
                if pressed {
                    MOUSEEVENTF_LEFTDOWN
                } else {
                    MOUSEEVENTF_LEFTUP
                },
            )
        } else if button == BTN_RIGHT {
            Some(
                if pressed {
                    MOUSEEVENTF_RIGHTDOWN
                } else {
                    MOUSEEVENTF_RIGHTUP
                },
            )
        } else if button == BTN_MIDDLE {
            Some(
                if pressed {
                    MOUSEEVENTF_MIDDLEDOWN
                } else {
                    MOUSEEVENTF_MIDDLEUP
                },
            )
        } else {
            None
        }
    }

    /// The wheel flag for an axis.
    pub fn wheel_flags(axis: Axis) -> (f: u32)
        ensures
            f == (if axis == Axis::Vertical {
                MOUSEEVENTF_WHEEL
            } else {
                MOUSEEVENTF_HWHEEL
            }),
    {
        match axis {
            Axis::Vertical => MOUSEEVENTF_WHEEL,
            Axis::Horizontal => MOUSEEVENTF_HWHEEL,
        }
    }

    /// The keyboard input for a key change: the key's scan code, sent as a
    /// scan code, with the key-up flag on release (a repeat presses again).
    pub fn emit_keyboard_key(&self, key: u32, state: KeyState) -> (r: (u16, u32))
        ensures
            r.0 == key as u16,
            r.1 == (if state == KeyState::Release {
                KEYEVENTF_SCANCODE | KEYEVENTF_KEYUP
            } else {
                KEYEVENTF_SCANCODE
            }),
    {
        let scan = evdev_to_scancode(key);
        let keyup = match state {
            KeyState::Release => true,
            _ => false,
        };
        let mut flags = KEYEVENTF_SCANCODE;
        if keyup {
            flags = flags | KEYEVENTF_KEYUP;
        }
        (scan, flags)
    }
}

/// A mouse button as macOS knows it.
#[derive(Debug, Clone, Copy, PartialEq, Eq, Structural)]
pub enum MacButton {
    Left,
    Right,
    Center,
}

/// The kind of macOS event a pointer motion is posted as.
#[derive(Debug, Clone, Copy, PartialEq, Eq, Structural)]
pub enum MacMoveKind {
    LeftDragged,
    RightDragged,
    OtherDragged,
    Moved,
}

/// Which mouse buttons the macOS injector holds down.
#[derive(Debug, Clone, Copy, PartialEq, Eq, Structural)]
pub struct MacButtons {
    pub left: bool,
    pub right: bool,
    pub middle: bool,
}

/// Whether `button` (an evdev button code) is held in `b`; only left, right
/// and middle are tracked.
pub open spec fn mac_held(b: MacButtons, button: u32) -> bool {
    if button == BTN_LEFT {
        b.left
    } else if button == BTN_RIGHT {
        b.right
    } else if button == BTN_MIDDLE {
        b.middle
    } else {
        false
    }
}

/// The buttons held after a button change, and the macOS button posted for
/// it.
pub open spec fn mac_press_spec(b: MacButtons, button: u32, state: ButtonState) -> (
    MacButtons,
    Option<MacButton>,
) {
    let pressed = state == ButtonState::Press;
    if button == BTN_LEFT {
        (MacButtons { left: pressed, ..b }, Some(MacButton::Left))
    } else if button == BTN_RIGHT {
        (MacButtons { right: pressed, ..b }, Some(MacButton::Right))
    } else if button == BTN_MIDDLE {
        (MacButtons { middle: pressed, ..b }, Some(MacButton::Center))
    } else {
        (b, None)
    }
}

/// The kind of event a motion is posted as, given the held buttons.
pub open spec fn mac_move_kind_spec(b: MacButtons) -> MacMoveKind {
    if b.left {
        MacMoveKind::LeftDragged
    } else if b.right {
        MacMoveKind::RightDragged
    } else if b.middle {
        MacMoveKind::OtherDragged
    } else {
        MacMoveKind::Moved
    }
}

/// Button tracking of the macOS injector: a change of left, right or middle
/// is posted and sets that button's held flag to whether it was a press,
/// leaving the other buttons as they were; any other button is not posted
/// and changes nothing. Motions drag with the held button first in left,
/// right, middle order, and are plain moves exactly when none is held; so a
/// motion after a press of a tracked button always drags.
pub proof fn lemma_mac_button_tracking(b: MacButtons, button: u32, state: ButtonState)
    ensures
        ({
            let (n, r) = mac_press_spec(b, button, state);
            &&& (button == BTN_LEFT || button == BTN_RIGHT || button == BTN_MIDDLE) ==> r is Some
                && mac_held(n, button) == (state == ButtonState::Press) && (forall|other: u32|
                other != button ==> mac_held(n, other) == mac_held(b, other))
            &&& !(button == BTN_LEFT || button == BTN_RIGHT || button == BTN_MIDDLE) ==> r is None
                && n == b
            &&& (mac_move_kind_spec(n) == MacMoveKind::LeftDragged <==> mac_held(n, BTN_LEFT))
            &&& (mac_move_kind_spec(n) == MacMoveKind::RightDragged <==> !mac_held(n, BTN_LEFT)
                && mac_held(n, BTN_RIGHT))
            &&& (mac_move_kind_spec(n) == MacMoveKind::OtherDragged <==> !mac_held(n, BTN_LEFT)
                && !mac_held(n, BTN_RIGHT) && mac_held(n, BTN_MIDDLE))
            &&& (mac_move_kind_spec(n) == MacMoveKind::Moved <==> forall|x: u32| !mac_held(n, x))
            &&& ((button == BTN_LEFT || button == BTN_RIGHT || button == BTN_MIDDLE) && state
                == ButtonState::Press ==> mac_move_kind_spec(n) != MacMoveKind::Moved)
        }),
{
    let (n, r) = mac_press_spec(b, button, state);
    if mac_move_kind_spec(n) != MacMoveKind::Moved {
        if n.left {
            assert(mac_held(n, BTN_LEFT));
        } else if n.right {
            assert(mac_held(n, BTN_RIGHT));
        } else {
            assert(mac_held(n, BTN_MIDDLE));
        }
    }
}

impl MacButtons {
    pub fn new() -> (b: Self)
        ensures
            !b.left && !b.right && !b.middle,
    {
        MacButtons { left: false, right: false, middle: false }
    }

    /// Records a button change and gives the macOS button to post it for;
    /// buttons other than left, right and middle are not posted.
    pub fn press(&mut self, button: u32, state: ButtonState) -> (r: Option<MacButton>)
        ensures
            (*final(self), r) == mac_press_spec(*old(self), button, state),
    {
        let pressed = match state {
            ButtonState::Press => true,
            ButtonState::Release => false,
        };
        if button == BTN_LEFT {
            self.left = pressed;
            Some(MacButton::Left)
        } else if button == BTN_RIGHT {
            self.right = pressed;
            Some(MacButton::Right)
        } else if button == BTN_MIDDLE {
            self.middle = pressed;
            Some(MacButton::Center)
        } else {
            None
        }
    }

    /// A motion drags with the first held button in left, right, middle
    /// order, and is a plain move when none is held.
    pub fn move_kind(&self) -> (k: MacMoveKind)
        ensures
            k == mac_move_kind_spec(*self),
    {
        if self.left {
            MacMoveKind::LeftDragged
        } else if self.right {
            MacMoveKind::RightDragged
        } else if self.middle {
            MacMoveKind::OtherDragged
        } else {
            MacMoveKind::Moved
        }
    }
}

} // verus!
