//! The sixteen-key keypad and the host keys that stand for it.

use vstd::prelude::*;

verus! {

/// Number of keys on the keypad.
pub const KEY_COUNT: usize = 16;

/// The keypad: `keys[k]` is `true` while key `k` is held down.
///
/// The host writes it; the interpreter only reads it.
#[derive(Clone, Copy, Debug, PartialEq, Eq)]
pub struct Keyboard {
    pub keys: [bool; 16],
}

/// The keypad with every key released.
pub open spec fn all_released() -> Seq<bool> {
    Seq::new(16, |k: int| false)
}

impl View for Keyboard {
    type V = Seq<bool>;

    open spec fn view(&self) -> Seq<bool> {
        self.keys@
    }
}

impl Keyboard {
    /// A keypad with every key released.
    pub fn new() -> (keyboard: Keyboard)
        ensures
            keyboard@ == all_released(),
    {
        Keyboard { keys: [false; 16] }
    }

    /// Releases every key.
    pub fn reset(&mut self)
        ensures
            final(self)@ == all_released(),
    {
        self.keys = [false; 16];
    }

    /// Marks `key` as held down; the other keys keep their state.
    pub fn press_key(&mut self, key: u8)
        requires
            key < 16,
        ensures
            final(self)@ == old(self)@.update(key as int, true),
    {
        self.keys[key as usize] = true;
    }

    /// Marks `key` as released; the other keys keep their state.
    pub fn un_press_key(&mut self, key: u8)
        requires
            key < 16,
        ensures
            final(self)@ == old(self)@.update(key as int, false),
    {
        self.keys[key as usize] = false;
    }

    /// Whether `key` names a key that is held down. A value above 15 names
    /// no key, so it is never held down.
    pub fn key_is_pressed(&self, key: u8) -> (pressed: bool)
        ensures
            pressed == is_pressed(self@, key),
    {
        (key as usize) < KEY_COUNT && self.keys[key as usize]
    }

    /// The key that a decimal digit character names, if it is one.
    pub fn char_to_key(key: char) -> (code: Option<u8>)
        ensures
            code == (if '0' <= key <= '9' {
                Some((key as u32 - '0' as u32) as u8)
            } else {
                None
            }),
    {
        if key >= '0' && key <= '9' {
            Some((key as u32 - '0' as u32) as u8)
        } else {
            None
        }
    }
}

/// Whether `key` names a key that is held down on the keypad `keys`.
pub open spec fn is_pressed(keys: Seq<bool>, key: u8) -> bool {
    key < 16 && keys[key as int]
}

/// A key of the host keyboard that stands for a key of the keypad. The
/// sixteen keys form the block
///
/// ```text
/// 1 2 3 4
/// Q W E R
/// A S D F
/// Z X C V
/// ```
#[derive(Clone, Copy, Debug, PartialEq, Eq, Structural)]
pub enum Key {
    Key1,
    Key2,
    Key3,
    Key4,
    Q,
    W,
    E,
    R,
    A,
    S,
    D,
    F,
    Z,
    X,
    C,
    V,
}

/// The keypad, row by row, as it is laid out on the machine.
pub open spec fn keypad_layout() -> Seq<u8> {
    seq![0x1, 0x2, 0x3, 0xC, 0x4, 0x5, 0x6, 0xD, 0x7, 0x8, 0x9, 0xE, 0xA, 0x0, 0xB, 0xF]
}

/// The position of a host key in its block, counted row by row.
pub open spec fn position_of(key: Key) -> int {
    match key {
        Key::Key1 => 0,
        Key::Key2 => 1,
        Key::Key3 => 2,
        Key::Key4 => 3,
        Key::Q => 4,
        Key::W => 5,
        Key::E => 6,
        Key::R => 7,
        Key::A => 8,
        Key::S => 9,
        Key::D => 10,
        Key::F => 11,
        Key::Z => 12,
        Key::X => 13,
        Key::C => 14,
        Key::V => 15,
    }
}

/// The keypad key that a host key stands for: the one at the same position
/// of the keypad.
pub fn get_chip8_keycode_for(key: Option<Key>) -> (code: Option<u8>)
    ensures
        code == match key {
            Some(k) => Some(keypad_layout()[position_of(k)]),
            None => None,
        },
        code matches Some(c) ==> c < 16,
{
    match key {
        Some(Key::Key1) => Some(0x1),
        Some(Key::Key2) => Some(0x2),
        Some(Key::Key3) => Some(0x3),
        Some(Key::Key4) => Some(0xC),
        Some(Key::Q) => Some(0x4),
        Some(Key::W) => Some(0x5),
        Some(Key::E) => Some(0x6),
        Some(Key::R) => Some(0xD),
        Some(Key::A) => Some(0x7),
        Some(Key::S) => Some(0x8),
        Some(Key::D) => Some(0x9),
        Some(Key::F) => Some(0xE),
        Some(Key::Z) => Some(0xA),
        Some(Key::X) => Some(0x0),
        Some(Key::C) => Some(0xB),
        Some(Key::V) => Some(0xF),
        None => None,
    }
}

} // verus!
