use vstd::prelude::*;

verus! {

/// Event class of synchronisation markers.
pub const EV_SYN: u16 = 0x00;

/// Event class of key presses, releases and autorepeats.
pub const EV_KEY: u16 = 0x01;

/// Event class of relative axis motion.
pub const EV_REL: u16 = 0x02;

/// Event class of absolute axis positions.
pub const EV_ABS: u16 = 0x03;

pub const KEY_LEFTCTRL: u16 = 29;

pub const KEY_CAPSLOCK: u16 = 58;

pub const KEY_H: u16 = 35;

pub const KEY_J: u16 = 36;

pub const KEY_K: u16 = 37;

pub const KEY_L: u16 = 38;

pub const KEY_UP: u16 = 103;

pub const KEY_LEFT: u16 = 105;

pub const KEY_RIGHT: u16 = 106;

pub const KEY_DOWN: u16 = 108;

/// Key event value of a release.
pub const VALUE_RELEASE: i32 = 0;

/// Key event value of a press.
pub const VALUE_PRESS: i32 = 1;

/// One input event as the kernel delivers it, without its timestamp:
/// the event class, the key or axis code, and the signed value.
#[derive(Clone, Copy, Debug, PartialEq, Eq, Structural)]
pub struct InputEvent {
    pub kind: u16,
    pub code: u16,
    pub value: i32,
}

impl InputEvent {
    pub fn new(kind: u16, code: u16, value: i32) -> (r: InputEvent)
        ensures
            r == (InputEvent { kind, code, value }),
    {
        InputEvent { kind, code, value }
    }

    /// A key event with the given code and value.
    pub fn key(code: u16, value: i32) -> (r: InputEvent)
        ensures
            r == (InputEvent { kind: EV_KEY, code, value }),
    {
        InputEvent { kind: EV_KEY, code, value }
    }

    pub open spec fn is_key_with(self, code: u16) -> bool {
        self.kind == EV_KEY && self.code == code
    }

    pub fn is_key_event_with(&self, code: u16) -> (r: bool)
        ensures
            r == self.is_key_with(code),
    {
        self.kind == EV_KEY && self.code == code
    }
}

} // verus!
