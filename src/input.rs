use vstd::prelude::*;
use crate::error::Error;

verus! {

/// Receives changes of the keyboard state.
pub trait InputEventListener {
    fn on_keystate_change(&mut self, keystate: u32, oldstate: u32);
}

/// Keys that the keyboard state tracks; every other key is `Other`.
#[derive(Clone, Copy, Debug, PartialEq, Eq, Structural)]
pub enum Key {
    Left,
    Right,
    Up,
    Down,
    LeftCtrl,
    LeftShift,
    Other,
}

/// The keyboard state: one bit per tracked key that is down.
pub struct Input {
    keyboard_state: u32,
}

impl Input {
    pub const KEYFLAG_NONE: u32 = 0x0;
    pub const KEYFLAG_LEFT: u32 = 0x1;
    pub const KEYFLAG_RIGHT: u32 = 0x2;
    pub const KEYFLAG_UP: u32 = 0x4;
    pub const KEYFLAG_DOWN: u32 = 0x8;
    pub const KEYFLAG_BUTTON1: u32 = 0x10;
    pub const KEYFLAG_BUTTON2: u32 = 0x20;
    pub const KEYFLAG_BUTTON3: u32 = 0x40;
    pub const KEYFLAG_BUTTON4: u32 = 0x80;

    pub closed spec fn spec_state(&self) -> u32 {
        self.keyboard_state
    }

    /// The state bit of a key: the arrows, then control and shift as the
    /// first two buttons; none for other keys.
    pub open spec fn spec_key_mask(key: Key) -> u32 {
        match key {
            Key::Left => Input::KEYFLAG_LEFT,
            Key::Right => Input::KEYFLAG_RIGHT,
            Key::Up => Input::KEYFLAG_UP,
            Key::Down => Input::KEYFLAG_DOWN,
            Key::LeftCtrl => Input::KEYFLAG_BUTTON1,
            Key::LeftShift => Input::KEYFLAG_BUTTON2,
            Key::Other => Input::KEYFLAG_NONE,
        }
    }

    /// The state after a key went down or up.
    pub open spec fn spec_next_state(state: u32, key: Key, key_down: bool) -> u32 {
        let mask = Input::spec_key_mask(key);
        if mask == Input::KEYFLAG_NONE {
            state
        } else if key_down {
            state | mask
        } else {
            state & !mask
        }
    }

    pub fn new() -> (r: Result<Input, Error>)
        ensures
            r.is_ok(),
            r.unwrap().spec_state() == Input::KEYFLAG_NONE,
    {
        Ok(Input { keyboard_state: Input::KEYFLAG_NONE })
    }

    pub fn key_mask(key: Key) -> (r: u32)
        ensures
            r == Input::spec_key_mask(key),
    {
        match key {
            Key::Left => Input::KEYFLAG_LEFT,
            Key::Right => Input::KEYFLAG_RIGHT,
            Key::Up => Input::KEYFLAG_UP,
            Key::Down => Input::KEYFLAG_DOWN,
            Key::LeftCtrl => Input::KEYFLAG_BUTTON1,
            Key::LeftShift => Input::KEYFLAG_BUTTON2,
            Key::Other => Input::KEYFLAG_NONE,
        }
    }

    /// Applies a key event; the listener hears of it only when the state changed.
    /// Returns whether it changed.
    pub fn dispatch_key<T: InputEventListener>(&mut self, key: Key, key_down: bool, listener: &mut T) -> (changed: bool)
        ensures
            final(self).spec_state() == Input::spec_next_state(old(self).spec_state(), key, key_down),
            changed == (final(self).spec_state() != old(self).spec_state()),
    {
        let mask = Input::key_mask(key);
        if mask == Input::KEYFLAG_NONE {
            return false;
        }
        let old_state = self.keyboard_state;
        if key_down {
            self.keyboard_state = self.keyboard_state | mask;
        } else {
            self.keyboard_state = self.keyboard_state & !mask;
        }
        if old_state != self.keyboard_state {
            listener.on_keystate_change(self.keyboard_state, old_state);
            true
        } else {
            false
        }
    }

    pub fn keyboard_state(&self) -> (r: u32)
        ensures
            r == self.spec_state(),
    {
        self.keyboard_state
    }
}

} // verus!
