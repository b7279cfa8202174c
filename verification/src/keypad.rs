//! The keypad: sixteen keys, numbered `0` to `F`, and the keys of a host
//! keyboard that stand for them.
//!
//! The keypad is laid out in four rows, `1 2 3 C`, `4 5 6 D`, `7 8 9 E` and
//! `A 0 B F`. On the host keyboard the block `1 2 3 4`, `Q W E R`,
//! `A S D F`, `Z X C V` takes its place, key for key.

use vstd::prelude::*;

verus! {

/// A key of the host keyboard.
#[derive(Clone, Copy, Debug, PartialEq, Eq, Structural)]
pub enum Keycode {
    Num1,
    Num2,
    Num3,
    Num4,
    Q,
    W,
    E,
    R,
    A,
    S,
    D,
    F,
    Z,
    X,
    C,
    V,
    /// Any key that stands for no key of the keypad.
    Other,
}

/// The key of the keypad that a key of the host keyboard stands for.
pub open spec fn keypad_key(key: Keycode) -> Option<u8> {
    match key {
        Keycode::Num1 => Some(0x1u8),
        Keycode::Num2 => Some(0x2u8),
        Keycode::Num3 => Some(0x3u8),
        Keycode::Num4 => Some(0xCu8),
        Keycode::Q => Some(0x4u8),
        Keycode::W => Some(0x5u8),
        Keycode::E => Some(0x6u8),
        Keycode::R => Some(0xDu8),
        Keycode::A => Some(0x7u8),
        Keycode::S => Some(0x8u8),
        Keycode::D => Some(0x9u8),
        Keycode::F => Some(0xEu8),
        Keycode::Z => Some(0xAu8),
        Keycode::X => Some(0x0u8),
        Keycode::C => Some(0xBu8),
        Keycode::V => Some(0xFu8),
        Keycode::Other => None,
    }
}

/// Finds the key of the keypad that a key of the host keyboard stands for.
pub fn key_index(key: Keycode) -> (index: Option<u8>)
    ensures
        index == keypad_key(key),
        index matches Some(number) ==> number < 16,
{
    match key {
        Keycode::Num1 => Some(0x1),
        Keycode::Num2 => Some(0x2),
        Keycode::Num3 => Some(0x3),
        Keycode::Num4 => Some(0xC),
        Keycode::Q => Some(0x4),
        Keycode::W => Some(0x5),
        Keycode::E => Some(0x6),
        Keycode::R => Some(0xD),
        Keycode::A => Some(0x7),
        Keycode::S => Some(0x8),
        Keycode::D => Some(0x9),
        Keycode::F => Some(0xE),
        Keycode::Z => Some(0xA),
        Keycode::X => Some(0x0),
        Keycode::C => Some(0xB),
        Keycode::V => Some(0xF),
        Keycode::Other => None,
    }
}

} // verus!
