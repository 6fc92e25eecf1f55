//! Edge-push detection: deciding when the pointer is being pushed against a
//! screen edge, and recognising the key that releases a capture.
use vstd::prelude::*;
use crate::event::{InputEvent, KeyState, Position};

verus! {

/// Consecutive pushes against an edge needed to cross it.
pub const EDGE_PUSH_THRESHOLD: u32 = 3;

/// Key code of Escape on macOS (a virtual key code).
pub const RELEASE_KEY_MACOS: u32 = 53;

/// Key code of Escape under evdev.
pub const RELEASE_KEY_EVDEV: u32 = 1;

/// Key code of Scroll Lock under evdev (Windows captures translate
/// `VK_SCROLL` to it).
pub const SCROLL_LOCK_EVDEV: u32 = 70;

/// The key that releases a capture, by the codes under which captures
/// report it: its evdev code (Linux, and Windows after translation) and its
/// macOS virtual key code. Keys that macOS keyboards lack (Scroll Lock,
/// Pause) are stood in for by Escape there, so a macOS server can always be
/// released.
#[derive(Debug, Clone, Copy, PartialEq, Eq, Structural)]
pub struct ReleaseKey {
    pub evdev: u32,
    pub macos: u32,
}

pub open spec fn escape_key() -> ReleaseKey {
    ReleaseKey { evdev: RELEASE_KEY_EVDEV, macos: RELEASE_KEY_MACOS }
}

pub open spec fn scroll_lock_key() -> ReleaseKey {
    ReleaseKey { evdev: SCROLL_LOCK_EVDEV, macos: RELEASE_KEY_MACOS }
}

/// The release key a configuration names: "Escape", "ScrollLock", "Pause"
/// or one of the function keys "F1" to "F12".
pub open spec fn release_key_of_name(name: Seq<char>) -> Option<ReleaseKey> {
    if name == "Escape"@ {
        Some(escape_key())
    } else if name == "ScrollLock"@ {
        Some(scroll_lock_key())
    } else if name == "Pause"@ {
        Some(ReleaseKey { evdev: 119, macos: RELEASE_KEY_MACOS })
    } else if name == "F1"@ {
        Some(ReleaseKey { evdev: 59, macos: 122 })
    } else if name == "F2"@ {
        Some(ReleaseKey { evdev: 60, macos: 120 })
    } else if name == "F3"@ {
        Some(ReleaseKey { evdev: 61, macos: 99 })
    } else if name == "F4"@ {
        Some(ReleaseKey { evdev: 62, macos: 118 })
    } else if name == "F5"@ {
        Some(ReleaseKey { evdev: 63, macos: 96 })
    } else if name == "F6"@ {
        Some(ReleaseKey { evdev: 64, macos: 97 })
    } else if name == "F7"@ {
        Some(ReleaseKey { evdev: 65, macos: 98 })
    } else if name == "F8"@ {
        Some(ReleaseKey { evdev: 66, macos: 100 })
    } else if name == "F9"@ {
        Some(ReleaseKey { evdev: 67, macos: 101 })
    } else if name == "F10"@ {
        Some(ReleaseKey { evdev: 68, macos: 109 })
    } else if name == "F11"@ {
        Some(ReleaseKey { evdev: 87, macos: 103 })
    } else if name == "F12"@ {
        Some(ReleaseKey { evdev: 88, macos: 111 })
    } else {
        None
    }
}

/// The release key of a configured name, with Escape for a name that names
/// no known key.
pub open spec fn release_key_or_default_spec(name: Seq<char>) -> ReleaseKey {
    match release_key_of_name(name) {
        Some(k) => k,
        None => escape_key(),
    }
}

impl ReleaseKey {
    pub fn escape() -> (k: Self)
        ensures
            k == escape_key(),
    {
        ReleaseKey { evdev: RELEASE_KEY_EVDEV, macos: RELEASE_KEY_MACOS }
    }

    pub fn scroll_lock() -> (k: Self)
        ensures
            k == scroll_lock_key(),
    {
        ReleaseKey { evdev: SCROLL_LOCK_EVDEV, macos: RELEASE_KEY_MACOS }
    }

    /// The release key named `name` (see `release_key_of_name`), if any.
    pub fn named(name: &str) -> (r: Option<Self>)
        ensures
            r == release_key_of_name(name@),
    {
        let name = name.to_owned();
        if name == "Escape".to_owned() {
            Some(Self::escape())
        } else if name == "ScrollLock".to_owned() {
            Some(Self::scroll_lock())
        } else if name == "Pause".to_owned() {
            Some(ReleaseKey { evdev: 119, macos: RELEASE_KEY_MACOS })
        } else if name == "F1".to_owned() {
            Some(ReleaseKey { evdev: 59, macos: 122 })
        } else if name == "F2".to_owned() {
            Some(ReleaseKey { evdev: 60, macos: 120 })
        } else if name == "F3".to_owned() {
            Some(ReleaseKey { evdev: 61, macos: 99 })
        } else if name == "F4".to_owned() {
            Some(ReleaseKey { evdev: 62, macos: 118 })
        } else if name == "F5".to_owned() {
            Some(ReleaseKey { evdev: 63, macos: 96 })
        } else if name == "F6".to_owned() {
            Some(ReleaseKey { evdev: 64, macos: 97 })
        } else if name == "F7".to_owned() {
            Some(ReleaseKey { evdev: 65, macos: 98 })
        } else if name == "F8".to_owned() {
            Some(ReleaseKey { evdev: 66, macos: 100 })
        } else if name == "F9".to_owned() {
            Some(ReleaseKey { evdev: 67, macos: 101 })
        } else if name == "F10".to_owned() {
            Some(ReleaseKey { evdev: 68, macos: 109 })
        } else if name == "F11".to_owned() {
            Some(ReleaseKey { evdev: 87, macos: 103 })
        } else if name == "F12".to_owned() {
            Some(ReleaseKey { evdev: 88, macos: 111 })
        } else {
            None
        }
    }

    /// The release key named `name`, or Escape when the name is unknown.
    pub fn named_or_default(name: &str) -> (k: Self)
        ensures
            k == release_key_or_default_spec(name@),
    {
        match Self::named(name) {
            Some(k) => k,
            None => Self::escape(),
        }
    }
}

/// The default release key, the one `default_hotkey` names, is Escape.
pub proof fn lemma_default_release_key()
    ensures
        release_key_of_name("Escape"@) == Some(escape_key()),
        release_key_of_name("ScrollLock"@) == Some(scroll_lock_key()),
{
    reveal_strlit("Escape");
    reveal_strlit("ScrollLock");
    assert("ScrollLock"@[0] != "Escape"@[0]);
}

/// The comparisons that decide an edge push, taken on the motion deltas and
/// on the cursor position relative to the screen (cursor within the edge
/// margin of 2 units of an edge; sign of each delta; which delta has the
/// larger magnitude; both magnitudes below one half).
#[derive(Debug, Clone, Copy, PartialEq, Eq, Structural)]
pub struct EdgeSample {
    pub at_left: bool,
    pub at_right: bool,
    pub at_top: bool,
    pub at_bottom: bool,
    pub dx_negative: bool,
    pub dx_positive: bool,
    pub dy_negative: bool,
    pub dy_positive: bool,
    pub horizontal_dominant: bool,
    pub vertical_dominant: bool,
    pub negligible: bool,
}

/// The edge a pointer motion pushes against: only a motion that is not
/// negligible pushes, along its dominant axis, towards an edge the cursor is
/// at. When several edges qualify, right wins over left over bottom over top.
pub open spec fn edge_push_spec(event: InputEvent, s: EdgeSample) -> Option<Position> {
    if !(event is PointerMotion) || s.negligible {
        None
    } else if s.at_right && s.dx_positive && s.horizontal_dominant {
        Some(Position::Right)
    } else if s.at_left && s.dx_negative && s.horizontal_dominant {
        Some(Position::Left)
    } else if s.at_bottom && s.dy_positive && s.vertical_dominant {
        Some(Position::Bottom)
    } else if s.at_top && s.dy_negative && s.vertical_dominant {
        Some(Position::Top)
    } else {
        None
    }
}

/// Decides which edge, if any, `event` pushes against.
pub fn edge_push_direction(event: &InputEvent, s: &EdgeSample) -> (r: Option<Position>)
    ensures
        r == edge_push_spec(*event, *s),
{
    if !event.is_pointer_motion() || s.negligible {
        return None;
    }
    if s.at_right && s.dx_positive && s.horizontal_dominant {
        return Some(Position::Right);
    }
    if s.at_left && s.dx_negative && s.horizontal_dominant {
        return Some(Position::Left);
    }
    if s.at_bottom && s.dy_positive && s.vertical_dominant {
        return Some(Position::Bottom);
    }
    if s.at_top && s.dy_negative && s.vertical_dominant {
        return Some(Position::Top);
    }
    None
}

/// A push is always a motion towards the edge it names, along the axis that
/// dominates the motion, with the cursor at that edge.
pub proof fn lemma_edge_push_sound(event: InputEvent, s: EdgeSample)
    ensures
        edge_push_spec(event, s) is Some ==> event is PointerMotion && !s.negligible,
        edge_push_spec(event, s) == Some(Position::Right) ==> s.at_right && s.dx_positive
            && s.horizontal_dominant,
        edge_push_spec(event, s) == Some(Position::Left) ==> s.at_left && s.dx_negative
            && s.horizontal_dominant,
        edge_push_spec(event, s) == Some(Position::Bottom) ==> s.at_bottom && s.dy_positive
            && s.vertical_dominant,
        edge_push_spec(event, s) == Some(Position::Top) ==> s.at_top && s.dy_negative
            && s.vertical_dominant,
{
}

/// The release hotkey: the configured key pressed (repeats and releases
/// do not count), reported under its evdev code or its macOS code.
pub open spec fn is_release_hotkey_spec(event: InputEvent, k: ReleaseKey) -> bool {
    match event {
        InputEvent::KeyboardKey { key, state, .. } => state == KeyState::Press && (key == k.evdev
            || key == k.macos),
        _ => false,
    }
}

pub fn is_release_hotkey(event: &InputEvent, release_key: &ReleaseKey) -> (b: bool)
    ensures
        b == is_release_hotkey_spec(*event, *release_key),
{
    if let InputEvent::KeyboardKey { key, state, .. } = event {
        if let KeyState::Press = state {
            return *key == release_key.evdev || *key == release_key.macos;
        }
    }
    false
}

/// The flags of a sample taken from real numbers are consistent: a delta is
/// not both negative and positive, and at most one axis dominates.
pub open spec fn sample_consistent(s: EdgeSample) -> bool {
    &&& !(s.dx_negative && s.dx_positive)
    &&& !(s.dy_negative && s.dy_positive)
    &&& !(s.horizontal_dominant && s.vertical_dominant)
}

/// Completeness of the push decision: for a consistent sample of a motion
/// that is not negligible, a motion towards an edge the cursor is at, along
/// the dominant axis, pushes against that edge (whatever the other delta),
/// and a motion that meets no edge's conditions pushes against none.
pub proof fn lemma_edge_push_complete(event: InputEvent, s: EdgeSample)
    requires
        event is PointerMotion,
        !s.negligible,
        sample_consistent(s),
    ensures
        s.at_right && s.dx_positive && s.horizontal_dominant ==> edge_push_spec(event, s) == Some(
            Position::Right,
        ),
        s.at_left && s.dx_negative && s.horizontal_dominant ==> edge_push_spec(event, s) == Some(
            Position::Left,
        ),
        s.at_bottom && s.dy_positive && s.vertical_dominant ==> edge_push_spec(event, s) == Some(
            Position::Bottom,
        ),
        s.at_top && s.dy_negative && s.vertical_dominant ==> edge_push_spec(event, s) == Some(
            Position::Top,
        ),
        !(s.at_right && s.dx_positive && s.horizontal_dominant) && !(s.at_left && s.dx_negative
            && s.horizontal_dominant) && !(s.at_bottom && s.dy_positive && s.vertical_dominant)
            && !(s.at_top && s.dy_negative && s.vertical_dominant) ==> edge_push_spec(event, s)
            is None,
{
}

} // verus!
