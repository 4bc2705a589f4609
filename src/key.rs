use vstd::prelude::*;

verus! {

// Keypad layout:
// 1 2 3 C
// 4 5 6 D
// 7 8 9 E
// A 0 B F
/// One key of the hexadecimal keypad.
#[derive(Clone, Copy, Debug, PartialEq, Eq, Structural)]
pub enum Key {
    ZERO,
    ONE,
    TWO,
    THREE,
    FOUR,
    FIVE,
    SIX,
    SEVEN,
    EIGHT,
    NINE,
    A,
    B,
    C,
    D,
    E,
    F,
}

/// The hexadecimal digit a key stands for.
pub open spec fn key_value(k: Key) -> u8 {
    match k {
        Key::ZERO => 0,
        Key::ONE => 1,
        Key::TWO => 2,
        Key::THREE => 3,
        Key::FOUR => 4,
        Key::FIVE => 5,
        Key::SIX => 6,
        Key::SEVEN => 7,
        Key::EIGHT => 8,
        Key::NINE => 9,
        Key::A => 10,
        Key::B => 11,
        Key::C => 12,
        Key::D => 13,
        Key::E => 14,
        Key::F => 15,
    }
}

impl Key {
    /// The hexadecimal digit this key stands for.
    pub fn value(&self) -> (r: u8)
        ensures
            r == key_value(*self),
            r < 16,
    {
        match self {
            Key::ZERO => 0,
            Key::ONE => 1,
            Key::TWO => 2,
            Key::THREE => 3,
            Key::FOUR => 4,
            Key::FIVE => 5,
            Key::SIX => 6,
            Key::SEVEN => 7,
            Key::EIGHT => 8,
            Key::NINE => 9,
            Key::A => 10,
            Key::B => 11,
            Key::C => 12,
            Key::D => 13,
            Key::E => 14,
            Key::F => 15,
        }
    }

    /// The key for a hexadecimal digit, if the digit is below 16.
    pub fn from_value(d: u8) -> (r: Option<Key>)
        ensures
            d < 16 <==> r.is_some(),
            r.is_some() ==> key_value(r.unwrap()) == d,
    {
        match d {
            0 => Some(Key::ZERO),
            1 => Some(Key::ONE),
            2 => Some(Key::TWO),
            3 => Some(Key::THREE),
            4 => Some(Key::FOUR),
            5 => Some(Key::FIVE),
            6 => Some(Key::SIX),
            7 => Some(Key::SEVEN),
            8 => Some(Key::EIGHT),
            9 => Some(Key::NINE),
            10 => Some(Key::A),
            11 => Some(Key::B),
            12 => Some(Key::C),
            13 => Some(Key::D),
            14 => Some(Key::E),
            15 => Some(Key::F),
            _ => None,
        }
    }
}

} // verus!
