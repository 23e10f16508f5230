//! Key input: from keys of the keyboard to the sixteen keys of the keypad,
//! and the events that the host delivers.

use vstd::prelude::*;
use crate::machine::Chip8;
use crate::state::{Mode, State};

verus! {

/// A key of the host's keyboard, as far as the machine tells keys apart.
#[derive(Clone, Copy, Debug, PartialEq, Eq, Structural)]
pub enum Key {
    Num1,
    Num2,
    Num3,
    Num4,
    Q,
    W,
    E,
    R,
    A,
    S,
    D,
    F,
    Z,
    X,
    C,
    V,
    Escape,
    /// Any other key.
    Other,
}

/// What the host polled from its event queue.
#[derive(Clone, Copy, Debug, PartialEq, Eq, Structural)]
pub enum HostEvent {
    /// The queue is empty.
    Idle,
    /// The user asked to quit.
    Quit,
    /// A key went down (`pressed`) or up.
    Key { key: Key, pressed: bool },
    /// Anything else.
    Other,
}

/// What the host does after it delivered an event.
#[derive(Clone, Copy, Debug, PartialEq, Eq, Structural)]
pub enum Control {
    /// Poll the next event.
    Continue,
    /// The queue is drained: go on with the next cycle.
    Drained,
    /// Leave the run loop.
    Stop,
}

/// The key of the keypad that a key of the keyboard stands for.
///
/// ```text
/// keypad      keyboard
/// 1 2 3 C     1 2 3 4
/// 4 5 6 D     Q W E R
/// 7 8 9 E     A S D F
/// A 0 B F     Z X C V
/// ```
pub open spec fn keypad_index(key: Key) -> Option<u8> {
    match key {
        Key::Num1 => Some(0x1u8),
        Key::Num2 => Some(0x2u8),
        Key::Num3 => Some(0x3u8),
        Key::Num4 => Some(0xCu8),
        Key::Q => Some(0x4u8),
        Key::W => Some(0x5u8),
        Key::E => Some(0x6u8),
        Key::R => Some(0xDu8),
        Key::A => Some(0x7u8),
        Key::S => Some(0x8u8),
        Key::D => Some(0x9u8),
        Key::F => Some(0xEu8),
        Key::Z => Some(0xAu8),
        Key::X => Some(0x0u8),
        Key::C => Some(0xBu8),
        Key::V => Some(0xFu8),
        Key::Escape => None,
        Key::Other => None,
    }
}

/// What the host does after it delivered `event`: it stops on a quit request
/// or on Escape, goes on with the next cycle when the queue is empty, and
/// polls again otherwise.
pub open spec fn control_after(event: HostEvent) -> Control {
    match event {
        HostEvent::Idle => Control::Drained,
        HostEvent::Quit => Control::Stop,
        HostEvent::Key { key, pressed } => if key == Key::Escape {
            Control::Stop
        } else {
            Control::Continue
        },
        HostEvent::Other => Control::Continue,
    }
}

impl State {
    /// The state after a key went down or up: a key of the keypad is
    /// recorded, any other key changes nothing.
    pub open spec fn keypress(self, key: Key, pressed: bool) -> State {
        match keypad_index(key) {
            Some(k) => self.set_key(k as int, pressed),
            None => self,
        }
    }

    /// The state after a key event was delivered. The key is recorded. If the
    /// machine waits for a key and the key went down, the wait ends: a key of
    /// the keypad is stored in the waiting register, `pc` moves past the
    /// instruction and both timers count down once.
    pub open spec fn key_event(self, key: Key, pressed: bool) -> State {
        let recorded = self.keypress(key, pressed);
        match recorded.mode {
            Mode::AwaitingKey { register } if pressed => {
                let stored = match keypad_index(key) {
                    Some(k) => recorded.set_v(register as int, k),
                    None => recorded,
                };
                State { mode: Mode::Running, ..stored }.advance(1).tick()
            },
            _ => recorded,
        }
    }

    /// The state after `event` was delivered: a key event of any key but
    /// Escape reaches the machine, every other event changes nothing.
    pub open spec fn host_event(self, event: HostEvent) -> State {
        match event {
            HostEvent::Key { key, pressed } => if key == Key::Escape {
                self
            } else {
                self.key_event(key, pressed)
            },
            _ => self,
        }
    }
}

impl Chip8 {
    /// The key of the keypad that a key of the keyboard stands for.
    pub fn map_key(key: Key) -> (index: Option<u8>)
        ensures
            index == keypad_index(key),
            index matches Some(k) ==> k < 16,
    {
        match key {
            Key::Num1 => Some(0x1),
            Key::Num2 => Some(0x2),
            Key::Num3 => Some(0x3),
            Key::Num4 => Some(0xC),
            Key::Q => Some(0x4),
            Key::W => Some(0x5),
            Key::E => Some(0x6),
            Key::R => Some(0xD),
            Key::A => Some(0x7),
            Key::S => Some(0x8),
            Key::D => Some(0x9),
            Key::F => Some(0xE),
            Key::Z => Some(0xA),
            Key::X => Some(0x0),
            Key::C => Some(0xB),
            Key::V => Some(0xF),
            _ => None,
        }
    }

    /// Records that a key went down or up.
    pub fn handle_keypress(&mut self, key: Key, pressed: bool)
        ensures
            final(self)@ == old(self)@.keypress(key, pressed),
    {
        match Chip8::map_key(key) {
            Some(k) => self.set_key(k as usize, pressed),
            None => {},
        }
    }

    /// Delivers a key event: the key is recorded, and a machine that waits
    /// for a key resumes if the key went down.
    pub fn key_event(&mut self, key: Key, pressed: bool)
        ensures
            final(self)@ == old(self)@.key_event(key, pressed),
    {
        self.handle_keypress(key, pressed);
        match self.mode() {
            Mode::AwaitingKey { register } => {
                if pressed {
                    match Chip8::map_key(key) {
                        Some(mkey) => {
                            self.set_register(register, mkey);
                        },
                        None => {},
                    }
                    self.set_mode(Mode::Running);
                    self.advance_pc(1);
                    self.tick_timers();
                }
            },
            Mode::Running => {},
        }
    }

    /// Delivers what the host polled and says how the host goes on.
    pub fn handle_event(&mut self, event: HostEvent) -> (control: Control)
        ensures
            control == control_after(event),
            final(self)@ == old(self)@.host_event(event),
    {
        match event {
            HostEvent::Quit => Control::Stop,
            HostEvent::Idle => Control::Drained,
            HostEvent::Key { key, pressed } => {
                match key {
                    Key::Escape => Control::Stop,
                    _ => {
                        self.key_event(key, pressed);
                        Control::Continue
                    },
                }
            },
            HostEvent::Other => Control::Continue,
        }
    }
}

} // verus!
