//! Key code translation between Windows virtual keys, evdev key codes and
//! Windows scan codes.
use vstd::prelude::*;

verus! {

/// The evdev code of the `i`-th letter of the alphabet (A is 0).
pub open spec fn letter_code(i: u32) -> u32 {
    if i == 0 { 30 } else if i == 1 { 48 } else if i == 2 { 46 } else if i == 3 { 32 }
    else if i == 4 { 18 } else if i == 5 { 33 } else if i == 6 { 34 } else if i == 7 { 35 }
    else if i == 8 { 23 } else if i == 9 { 36 } else if i == 10 { 37 } else if i == 11 { 38 }
    else if i == 12 { 50 } else if i == 13 { 49 } else if i == 14 { 24 } else if i == 15 { 25 }
    else if i == 16 { 16 } else if i == 17 { 19 } else if i == 18 { 31 } else if i == 19 { 20 }
    else if i == 20 { 22 } else if i == 21 { 47 } else if i == 22 { 17 } else if i == 23 { 45 }
    else if i == 24 { 21 } else { 44 }
}

/// The evdev code of a Windows virtual key that is neither a function key,
/// a digit nor a letter; keys without a counterpart keep their code.
pub open spec fn other_key_code(vk: u32) -> u32 {
    if vk == 0x1B { 1 } else if vk == 0x08 { 14 } else if vk == 0x09 { 15 }
    else if vk == 0x0D { 28 } else if vk == 0x20 { 57 } else if vk == 0x10 { 42 }
    else if vk == 0xA0 { 42 } else if vk == 0xA1 { 54 } else if vk == 0x11 { 29 }
    else if vk == 0xA2 { 29 } else if vk == 0xA3 { 97 } else if vk == 0x12 { 56 }
    else if vk == 0xA4 { 56 } else if vk == 0xA5 { 100 } else if vk == 0x5B { 125 }
    else if vk == 0x5C { 126 } else if vk == 0x14 { 58 } else if vk == 0x25 { 105 }
    else if vk == 0x26 { 103 } else if vk == 0x27 { 106 } else if vk == 0x28 { 108 }
    else if vk == 0x2D { 110 } else if vk == 0x2E { 111 } else if vk == 0x24 { 102 }
    else if vk == 0x23 { 107 } else if vk == 0x21 { 104 } else if vk == 0x22 { 109 }
    else if vk == 0x90 { 69 } else if vk == 0x91 { 70 } else if vk == 0xBA { 39 }
    else if vk == 0xBB { 13 } else if vk == 0xBC { 51 } else if vk == 0xBD { 12 }
    else if vk == 0xBE { 52 } else if vk == 0xBF { 53 } else if vk == 0xC0 { 41 }
    else if vk == 0xDB { 26 } else if vk == 0xDC { 43 } else if vk == 0xDD { 27 }
    else if vk == 0xDE { 40 } else { vk }
}

/// The evdev key code of a Windows virtual key code: F1–F10 are 59–68, F11
/// and F12 are 87 and 88, F13–F24 are 183–194; the digit row is 2–11 with 0
/// last; letters follow the QWERTY layout.
pub open spec fn vk_to_evdev_spec(vk: u32) -> u32 {
    if 0x70 <= vk <= 0x87 {
        let f = (vk - 0x70) as u32;
        if f <= 9 {
            (59 + f) as u32
        } else if f == 10 {
            87
        } else if f == 11 {
            88
        } else {
            (183 + (f - 12)) as u32
        }
    } else if 0x30 <= vk <= 0x39 {
        let n = (vk - 0x30) as u32;
        if n == 0 {
            11
        } else {
            (n + 1) as u32
        }
    } else if 0x41 <= vk <= 0x5A {
        letter_code((vk - 0x41) as u32)
    } else {
        other_key_code(vk)
    }
}

fn letter_to_evdev(i: u32) -> (r: u32)
    requires
        i < 26,
    ensures
        r == letter_code(i),
{
    match i {
        0 => 30, 1 => 48, 2 => 46, 3 => 32, 4 => 18, 5 => 33, 6 => 34, 7 => 35, 8 => 23,
        9 => 36, 10 => 37, 11 => 38, 12 => 50, 13 => 49, 14 => 24, 15 => 25, 16 => 16,
        17 => 19, 18 => 31, 19 => 20, 20 => 22, 21 => 47, 22 => 17, 23 => 45, 24 => 21,
        _ => 44,
    }
}

fn other_to_evdev(vk: u32) -> (r: u32)
    ensures
        r == other_key_code(vk),
{
    match vk {
        0x1B => 1, 0x08 => 14, 0x09 => 15, 0x0D => 28, 0x20 => 57, 0x10 => 42, 0xA0 => 42,
        0xA1 => 54, 0x11 => 29, 0xA2 => 29, 0xA3 => 97, 0x12 => 56, 0xA4 => 56, 0xA5 => 100,
        0x5B => 125, 0x5C => 126, 0x14 => 58, 0x25 => 105, 0x26 => 103, 0x27 => 106,
        0x28 => 108, 0x2D => 110, 0x2E => 111, 0x24 => 102, 0x23 => 107, 0x21 => 104,
        0x22 => 109, 0x90 => 69, 0x91 => 70, 0xBA => 39, 0xBB => 13, 0xBC => 51, 0xBD => 12,
        0xBE => 52, 0xBF => 53, 0xC0 => 41, 0xDB => 26, 0xDC => 43, 0xDD => 27, 0xDE => 40,
        _ => vk,
    }
}

/// Translates a Windows virtual key code into an evdev key code.
pub fn vk_to_evdev(vk: u32) -> (r: u32)
    ensures
        r == vk_to_evdev_spec(vk),
{
    if 0x70 <= vk && vk <= 0x87 {
        let f = vk - 0x70;
        if f <= 9 {
            59 + f
        } else if f == 10 {
            87
        } else if f == 11 {
            88
        } else {
            183 + (f - 12)
        }
    } else if 0x30 <= vk && vk <= 0x39 {
        let n = vk - 0x30;
        if n == 0 {
            11
        } else {
            n + 1
        }
    } else if 0x41 <= vk && vk <= 0x5A {
        letter_to_evdev(vk - 0x41)
    } else {
        other_to_evdev(vk)
    }
}

/// The function keys F1–F24 go to distinct evdev codes, and so do the ten
/// digits and the 26 letters.
pub proof fn lemma_vk_blocks_injective(a: u32, b: u32)
    requires
        a != b,
        (0x70 <= a <= 0x87 && 0x70 <= b <= 0x87) || (0x30 <= a <= 0x39 && 0x30 <= b <= 0x39) || (
        0x41 <= a <= 0x5A && 0x41 <= b <= 0x5A),
    ensures
        vk_to_evdev_spec(a) != vk_to_evdev_spec(b),
{
}

/// The Windows scan code sent for an evdev key code: its low 16 bits.
pub fn evdev_to_scancode(evdev: u32) -> (r: u16)
    ensures
        r == evdev as u16,
        r == evdev % 0x10000,
{
    proof {
        assert(evdev as u16 == evdev % 0x10000) by (bit_vector);
    }
    evdev as u16
}

} // verus!
