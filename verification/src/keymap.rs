use vstd::prelude::*;
use crate::machine::Chip8;

verus! {

/// Scancode of the key `1`.
pub const SCANCODE_1: i32 = 30;

/// Scancode of the key `2`.
pub const SCANCODE_2: i32 = 31;

/// Scancode of the key `3`.
pub const SCANCODE_3: i32 = 32;

/// Scancode of the key `4`.
pub const SCANCODE_4: i32 = 33;

/// Scancode of the key `Q`.
pub const SCANCODE_Q: i32 = 20;

/// Scancode of the key `W`.
pub const SCANCODE_W: i32 = 26;

/// Scancode of the key `E`.
pub const SCANCODE_E: i32 = 8;

/// Scancode of the key `R`.
pub const SCANCODE_R: i32 = 21;

/// Scancode of the key `A`.
pub const SCANCODE_A: i32 = 4;

/// Scancode of the key `S`.
pub const SCANCODE_S: i32 = 22;

/// Scancode of the key `D`.
pub const SCANCODE_D: i32 = 7;

/// Scancode of the key `F`.
pub const SCANCODE_F: i32 = 9;

/// Scancode of the key `Z`.
pub const SCANCODE_Z: i32 = 29;

/// Scancode of the key `X`.
pub const SCANCODE_X: i32 = 27;

/// Scancode of the key `C`.
pub const SCANCODE_C: i32 = 6;

/// Scancode of the key `V`.
pub const SCANCODE_V: i32 = 25;

/// The key of the machine that a key of the keyboard stands for. The
/// keyboard key is named by its scancode, the number of its position.
///
/// The four by four block with `1` at its top left corner and `V` at its
/// bottom right corner is laid out like the keypad of the machine:
///
/// ```text
/// 1 2 3 4      1 2 3 C
/// Q W E R      4 5 6 D
/// A S D F      7 8 9 E
/// Z X C V      A 0 B F
/// ```
pub open spec fn key_of_scancode(scancode: i32) -> Option<u8> {
    if scancode == SCANCODE_1 {
        Some(0x1u8)
    } else if scancode == SCANCODE_2 {
        Some(0x2u8)
    } else if scancode == SCANCODE_3 {
        Some(0x3u8)
    } else if scancode == SCANCODE_4 {
        Some(0xCu8)
    } else if scancode == SCANCODE_Q {
        Some(0x4u8)
    } else if scancode == SCANCODE_W {
        Some(0x5u8)
    } else if scancode == SCANCODE_E {
        Some(0x6u8)
    } else if scancode == SCANCODE_R {
        Some(0xDu8)
    } else if scancode == SCANCODE_A {
        Some(0x7u8)
    } else if scancode == SCANCODE_S {
        Some(0x8u8)
    } else if scancode == SCANCODE_D {
        Some(0x9u8)
    } else if scancode == SCANCODE_F {
        Some(0xEu8)
    } else if scancode == SCANCODE_Z {
        Some(0xAu8)
    } else if scancode == SCANCODE_X {
        Some(0x0u8)
    } else if scancode == SCANCODE_C {
        Some(0xBu8)
    } else if scancode == SCANCODE_V {
        Some(0xFu8)
    } else {
        None
    }
}

/// The scancode of the keyboard key that stands for `key`.
pub open spec fn scancode_of_key(key: u8) -> i32 {
    if key == 0x0 {
        SCANCODE_X
    } else if key == 0x1 {
        SCANCODE_1
    } else if key == 0x2 {
        SCANCODE_2
    } else if key == 0x3 {
        SCANCODE_3
    } else if key == 0x4 {
        SCANCODE_Q
    } else if key == 0x5 {
        SCANCODE_W
    } else if key == 0x6 {
        SCANCODE_E
    } else if key == 0x7 {
        SCANCODE_A
    } else if key == 0x8 {
        SCANCODE_S
    } else if key == 0x9 {
        SCANCODE_D
    } else if key == 0xA {
        SCANCODE_Z
    } else if key == 0xB {
        SCANCODE_C
    } else if key == 0xC {
        SCANCODE_4
    } else if key == 0xD {
        SCANCODE_R
    } else if key == 0xE {
        SCANCODE_F
    } else {
        SCANCODE_V
    }
}

/// Every mapped keyboard key stands for a key of the machine, and no two
/// keyboard keys stand for the same one.
pub proof fn law_keymap_injective(a: i32, b: i32)
    requires
        key_of_scancode(a) is Some,
        key_of_scancode(a) == key_of_scancode(b),
    ensures
        a == b,
        key_of_scancode(a)->Some_0 < 16,
{
}

/// Every key of the machine has its keyboard key.
pub proof fn law_keymap_onto(key: u8)
    requires
        key < 16,
    ensures
        key_of_scancode(scancode_of_key(key)) == Some(key),
{
}

impl Chip8 {
    /// The key of the machine that the keyboard key with the given
    /// scancode stands for, if it stands for one.
    pub fn map_scancode_to_chip8_key(scancode: i32) -> (key: Option<u8>)
        ensures
            key == key_of_scancode(scancode),
    {
        match scancode {
            SCANCODE_1 => Some(0x1),
            SCANCODE_2 => Some(0x2),
            SCANCODE_3 => Some(0x3),
            SCANCODE_4 => Some(0xC),
            SCANCODE_Q => Some(0x4),
            SCANCODE_W => Some(0x5),
            SCANCODE_E => Some(0x6),
            SCANCODE_R => Some(0xD),
            SCANCODE_A => Some(0x7),
            SCANCODE_S => Some(0x8),
            SCANCODE_D => Some(0x9),
            SCANCODE_F => Some(0xE),
            SCANCODE_Z => Some(0xA),
            SCANCODE_X => Some(0x0),
            SCANCODE_C => Some(0xB),
            SCANCODE_V => Some(0xF),
            _ => None,
        }
    }
}

} // verus!
