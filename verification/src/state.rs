//! The mathematical model of the machine: what a `Chip8` is, as plain values.

use vstd::prelude::*;

verus! {

/// Number of bytes of addressable memory.
pub const MEMORY_SIZE: usize = 4096;

/// Number of general registers `V0` to `VF`.
pub const REGISTER_COUNT: usize = 16;

/// Number of return addresses the call stack holds.
pub const STACK_SIZE: usize = 16;

/// Width of the display in pixels.
pub const SCREEN_WIDTH: usize = 64;

/// Height of the display in pixels.
pub const SCREEN_HEIGHT: usize = 32;

/// Number of cells of the frame buffer, one per pixel, row by row.
pub const SCREEN_SIZE: usize = SCREEN_WIDTH * SCREEN_HEIGHT;

/// Number of keys of the keypad.
pub const KEY_COUNT: usize = 16;

/// Number of bytes of the built-in font.
pub const FONTSET_SIZE: usize = 80;

/// Number of bytes of one glyph of the built-in font.
pub const FONT_DIGIT_SIZE: u16 = 5;

/// Index of `VF`, the register that several operations use as a flag.
pub const FLAG_REGISTER: usize = 15;

/// Address at which a program is loaded and at which execution starts.
pub const PROGRAM_START: u16 = 0x200;

/// Length in bytes of the longest program that is accepted.
pub const MAX_PROGRAM_SIZE: usize = 0xFFF - 0x200;

/// Whether the machine is executing or suspended until a key is pressed.
#[derive(Clone, Copy, Debug, PartialEq, Eq, Structural)]
pub enum Mode {
    /// The next cycle executes the instruction at `pc`.
    Running,
    /// Suspended in a wait-for-key instruction whose target is the register.
    AwaitingKey { register: usize },
}

/// The glyphs of the hexadecimal digits `0` to `F`, five bytes each.
pub open spec fn font_data() -> Seq<u8> {
    seq![
        0xF0u8, 0x90u8, 0x90u8, 0x90u8, 0xF0u8,
        0x20u8, 0x60u8, 0x20u8, 0x20u8, 0x70u8,
        0xF0u8, 0x10u8, 0xF0u8, 0x80u8, 0xF0u8,
        0xF0u8, 0x10u8, 0xF0u8, 0x10u8, 0xF0u8,
        0x90u8, 0x90u8, 0xF0u8, 0x10u8, 0x10u8,
        0xF0u8, 0x80u8, 0xF0u8, 0x10u8, 0xF0u8,
        0xF0u8, 0x80u8, 0xF0u8, 0x90u8, 0xF0u8,
        0xF0u8, 0x10u8, 0x20u8, 0x40u8, 0x40u8,
        0xF0u8, 0x90u8, 0xF0u8, 0x90u8, 0xF0u8,
        0xF0u8, 0x90u8, 0xF0u8, 0x10u8, 0xF0u8,
        0xF0u8, 0x90u8, 0xF0u8, 0x90u8, 0x90u8,
        0xE0u8, 0x90u8, 0xE0u8, 0x90u8, 0xE0u8,
        0xF0u8, 0x80u8, 0x80u8, 0x80u8, 0xF0u8,
        0xE0u8, 0x90u8, 0x90u8, 0x90u8, 0xE0u8,
        0xF0u8, 0x80u8, 0xF0u8, 0x80u8, 0xF0u8,
        0xF0u8, 0x80u8, 0xF0u8, 0x80u8, 0x80u8,
    ]
}

/// The whole state of the machine as mathematical values.
#[verifier::ext_equal]
pub struct State {
    /// Address of the next instruction.
    pub pc: u16,
    /// The index register `I`.
    pub i: u16,
    /// Number of return addresses on the stack.
    pub sp: u8,
    pub delay_timer: u8,
    pub sound_timer: u8,
    /// The registers `V0` to `VF`.
    pub v: Seq<u8>,
    pub mem: Seq<u8>,
    /// The frame buffer, row by row: pixel `(x, y)` is cell `x + 64 * y`.
    pub gfx: Seq<u8>,
    pub stack: Seq<u16>,
    /// Which keys of the keypad are held down.
    pub key: Seq<bool>,
    /// Whether the frame buffer changed since it was last presented.
    pub gfx_update: bool,
    pub mode: Mode,
    /// Whether a cycle refuses an unknown opcode in place of skipping it.
    pub strict: bool,
}

impl State {
    /// The invariants of the data model: every table has its fixed size, the
    /// stack pointer never exceeds the stack, pixels are 0 or 1, and a
    /// suspended machine waits for one of the sixteen registers.
    pub open spec fn wf(self) -> bool {
        &&& self.v.len() == REGISTER_COUNT
        &&& self.mem.len() == MEMORY_SIZE
        &&& self.gfx.len() == SCREEN_SIZE
        &&& self.stack.len() == STACK_SIZE
        &&& self.key.len() == KEY_COUNT
        &&& self.sp <= STACK_SIZE
        &&& forall|k: int| 0 <= k < SCREEN_SIZE ==> self.gfx[k] == 0 || self.gfx[k] == 1
        &&& (self.mode matches Mode::AwaitingKey { register } ==> register < REGISTER_COUNT)
    }

    /// A machine with everything zero but `pc`, which is at the program start.
    pub open spec fn blank() -> State {
        State {
            pc: PROGRAM_START,
            i: 0,
            sp: 0,
            delay_timer: 0,
            sound_timer: 0,
            v: Seq::new(REGISTER_COUNT as nat, |k: int| 0u8),
            mem: Seq::new(MEMORY_SIZE as nat, |k: int| 0u8),
            gfx: Seq::new(SCREEN_SIZE as nat, |k: int| 0u8),
            stack: Seq::new(STACK_SIZE as nat, |k: int| 0u16),
            key: Seq::new(KEY_COUNT as nat, |k: int| false),
            gfx_update: false,
            mode: Mode::Running,
            strict: false,
        }
    }

    /// The machine at start-up: blank, with the font in the first 80 bytes.
    pub open spec fn initial() -> State {
        State {
            mem: Seq::new(
                MEMORY_SIZE as nat,
                |k: int| if k < FONTSET_SIZE { font_data()[k] } else { 0u8 },
            ),
            ..State::blank()
        }
    }

    /// The state with the bytes of `data` in memory from the program start on.
    pub open spec fn load(self, data: Seq<u8>) -> State {
        State {
            mem: Seq::new(
                MEMORY_SIZE as nat,
                |k: int|
                    if PROGRAM_START <= k < PROGRAM_START + data.len() {
                        data[k - PROGRAM_START]
                    } else {
                        self.mem[k]
                    },
            ),
            ..self
        }
    }

    /// The state with register `x` holding `val`.
    pub open spec fn set_v(self, x: int, val: u8) -> State {
        State { v: self.v.update(x, val), ..self }
    }

    /// The state with the memory byte at `addr` holding `val`.
    pub open spec fn set_mem(self, addr: int, val: u8) -> State {
        State { mem: self.mem.update(addr, val), ..self }
    }

    /// The state with frame buffer cell `k` lit or dark.
    pub open spec fn set_pixel(self, k: int, lit: bool) -> State {
        State { gfx: self.gfx.update(k, if lit { 1u8 } else { 0u8 }), ..self }
    }

    /// The state with key `k` held down or released.
    pub open spec fn set_key(self, k: int, pressed: bool) -> State {
        State { key: self.key.update(k, pressed), ..self }
    }

    /// The state with `pc` moved forward by `n` instructions of two bytes,
    /// wrapping at sixteen bits.
    pub open spec fn advance(self, n: int) -> State {
        State { pc: ((self.pc + 2 * n) % 0x10000) as u16, ..self }
    }

    /// The state with `val` pushed on the call stack.
    pub open spec fn push(self, val: u16) -> State
        recommends
            self.sp < STACK_SIZE,
    {
        State { stack: self.stack.update(self.sp as int, val), sp: (self.sp + 1) as u8, ..self }
    }

    /// The return address on top of the call stack.
    pub open spec fn top(self) -> u16
        recommends
            self.sp > 0,
    {
        self.stack[self.sp - 1]
    }

    /// The state with the top of the call stack removed.
    pub open spec fn pop(self) -> State
        recommends
            self.sp > 0,
    {
        State { sp: (self.sp - 1) as u8, ..self }
    }

    /// The instruction word at `pc`: two bytes, the high one first.
    pub open spec fn opcode(self) -> u16
        recommends
            self.pc + 1 < MEMORY_SIZE,
    {
        (self.mem[self.pc as int] * 256 + self.mem[self.pc + 1]) as u16
    }

    /// The state after both timers counted down once, stopping at zero.
    pub open spec fn tick(self) -> State {
        State {
            delay_timer: if self.delay_timer > 0 {
                (self.delay_timer - 1) as u8
            } else {
                0
            },
            sound_timer: if self.sound_timer > 0 {
                (self.sound_timer - 1) as u8
            } else {
                0
            },
            ..self
        }
    }
}

} // verus!
