//! The executable machine and the primitive accesses to its state.

use vstd::prelude::*;
use crate::state::{
    Mode, State, FONTSET_SIZE, KEY_COUNT, MAX_PROGRAM_SIZE, MEMORY_SIZE, PROGRAM_START,
    REGISTER_COUNT, SCREEN_SIZE, STACK_SIZE, font_data,
};

verus! {

/// A CHIP-8 virtual machine. Its view is the `State` it stands for.
pub struct Chip8 {
    pc: u16,
    i: u16,
    delay_timer: u8,
    sound_timer: u8,
    sp: u8,
    v: [u8; REGISTER_COUNT],
    mem: [u8; MEMORY_SIZE],
    gfx: [u8; SCREEN_SIZE],
    stack: [u16; STACK_SIZE],
    key: [bool; KEY_COUNT],
    gfx_update: bool,
    mode: Mode,
    strict: bool,
}

impl View for Chip8 {
    type V = State;

    closed spec fn view(&self) -> State {
        State {
            pc: self.pc,
            i: self.i,
            sp: self.sp,
            delay_timer: self.delay_timer,
            sound_timer: self.sound_timer,
            v: self.v@,
            mem: self.mem@,
            gfx: self.gfx@,
            stack: self.stack@,
            key: self.key@,
            gfx_update: self.gfx_update,
            mode: self.mode,
            strict: self.strict,
        }
    }
}

/// The bytes of the built-in font.
fn fontset() -> (font: [u8; FONTSET_SIZE])
    ensures
        font@ == font_data(),
{
    let font: [u8; FONTSET_SIZE] = [
        0xF0, 0x90, 0x90, 0x90, 0xF0,
        0x20, 0x60, 0x20, 0x20, 0x70,
        0xF0, 0x10, 0xF0, 0x80, 0xF0,
        0xF0, 0x10, 0xF0, 0x10, 0xF0,
        0x90, 0x90, 0xF0, 0x10, 0x10,
        0xF0, 0x80, 0xF0, 0x10, 0xF0,
        0xF0, 0x80, 0xF0, 0x90, 0xF0,
        0xF0, 0x10, 0x20, 0x40, 0x40,
        0xF0, 0x90, 0xF0, 0x90, 0xF0,
        0xF0, 0x90, 0xF0, 0x10, 0xF0,
        0xF0, 0x90, 0xF0, 0x90, 0x90,
        0xE0, 0x90, 0xE0, 0x90, 0xE0,
        0xF0, 0x80, 0x80, 0x80, 0xF0,
        0xE0, 0x90, 0x90, 0x90, 0xE0,
        0xF0, 0x80, 0xF0, 0x80, 0xF0,
        0xF0, 0x80, 0xF0, 0x80, 0x80,
    ];
    assert(font@ =~= font_data());
    font
}

impl Default for Chip8 {
    /// A machine with everything zero but `pc`, and no font in memory.
    fn default() -> (emu: Chip8)
        ensures
            emu@ == State::blank(),
    {
        Chip8 {
            pc: PROGRAM_START,
            i: 0,
            delay_timer: 0,
            sound_timer: 0,
            sp: 0,
            v: [0; REGISTER_COUNT],
            mem: [0; MEMORY_SIZE],
            gfx: [0; SCREEN_SIZE],
            stack: [0; STACK_SIZE],
            key: [false; KEY_COUNT],
            gfx_update: false,
            mode: Mode::Running,
            strict: false,
        }
    }
}

impl Chip8 {
    /// Every machine stands for a well-formed state.
    #[verifier::type_invariant]
    pub open spec fn inv(self) -> bool {
        self@.wf()
    }

    /// A machine at start-up: `pc` at the program start and the font loaded.
    pub fn new() -> (emu: Chip8)
        ensures
            emu@ == State::initial(),
    {
        let mut rv: Chip8 = Default::default();
        let font = fontset();
        let mut k: usize = 0;
        while k < FONTSET_SIZE
            invariant
                k <= FONTSET_SIZE,
                font@ == font_data(),
                rv@ == (State { mem: rv.mem@, ..State::blank() }),
                forall|j: int| 0 <= j < k ==> rv.mem@[j] == font_data()[j],
                forall|j: int| k <= j < MEMORY_SIZE ==> rv.mem@[j] == 0,
            decreases FONTSET_SIZE - k,
        {
            rv.mem[k] = font[k];
            k += 1;
        }
        rv
    }

    /// Copies a program image into memory from the program start on. An image
    /// longer than `MAX_PROGRAM_SIZE` is refused and nothing is written.
    pub fn load_program(&mut self, data: &[u8]) -> (loaded: bool)
        ensures
            loaded == (data@.len() <= MAX_PROGRAM_SIZE),
            loaded ==> final(self)@ == old(self)@.load(data@),
            !loaded ==> final(self)@ == old(self)@,
    {
        proof {
            use_type_invariant(&*self);
        }
        if data.len() > MAX_PROGRAM_SIZE {
            return false;
        }
        let start: usize = PROGRAM_START as usize;
        let mut k: usize = 0;
        while k < data.len()
            invariant
                k <= data@.len() <= MAX_PROGRAM_SIZE,
                start == PROGRAM_START,
                self@ == (State { mem: self.mem@, ..old(self)@ }),
                forall|j: int| start <= j < start + k ==> self.mem@[j] == data@[j - start],
                forall|j: int|
                    0 <= j < MEMORY_SIZE && !(start <= j < start + k) ==> self.mem@[j] == old(
                        self,
                    ).mem@[j],
            decreases data@.len() - k,
        {
            proof {
                use_type_invariant(&*self);
            }
            self.mem[start + k] = data[k];
            k += 1;
        }
        true
    }

    /// The address of the next instruction.
    pub fn pc(&self) -> (val: u16)
        ensures
            val == self@.pc,
    {
        self.pc
    }

    /// The index register `I`.
    pub fn i(&self) -> (val: u16)
        ensures
            val == self@.i,
    {
        self.i
    }

    /// The number of return addresses on the call stack.
    pub fn sp(&self) -> (val: u8)
        ensures
            val == self@.sp,
    {
        self.sp
    }

    /// The delay timer.
    pub fn delay_timer(&self) -> (val: u8)
        ensures
            val == self@.delay_timer,
    {
        self.delay_timer
    }

    /// The sound timer.
    pub fn sound_timer(&self) -> (val: u8)
        ensures
            val == self@.sound_timer,
    {
        self.sound_timer
    }

    /// Whether a tone is to be heard: the sound timer has not run out.
    pub fn is_audible(&self) -> (audible: bool)
        ensures
            audible == (self@.sound_timer > 0),
    {
        self.sound_timer > 0
    }

    /// The value of register `x`.
    pub fn register(&self, x: usize) -> (val: u8)
        requires
            x < REGISTER_COUNT,
        ensures
            val == self@.v[x as int],
    {
        self.v[x]
    }

    /// The memory byte at `addr`.
    pub fn memory(&self, addr: usize) -> (val: u8)
        requires
            addr < MEMORY_SIZE,
        ensures
            val == self@.mem[addr as int],
    {
        self.mem[addr]
    }

    /// Frame buffer cell `k`: 1 for a lit pixel, 0 for a dark one.
    pub fn pixel(&self, k: usize) -> (val: u8)
        requires
            k < SCREEN_SIZE,
        ensures
            val == self@.gfx[k as int],
            val == 0 || val == 1,
    {
        proof {
            use_type_invariant(self);
        }
        self.gfx[k]
    }

    /// Whether key `k` of the keypad is held down.
    pub fn key(&self, k: usize) -> (pressed: bool)
        requires
            k < KEY_COUNT,
        ensures
            pressed == self@.key[k as int],
    {
        self.key[k]
    }

    /// Whether the frame buffer changed since it was last presented.
    pub fn gfx_update(&self) -> (dirty: bool)
        ensures
            dirty == self@.gfx_update,
    {
        self.gfx_update
    }

    /// Whether the machine is running or waits for a key.
    pub fn mode(&self) -> (mode: Mode)
        ensures
            mode == self@.mode,
            mode matches Mode::AwaitingKey { register } ==> register < REGISTER_COUNT,
    {
        proof {
            use_type_invariant(self);
        }
        self.mode
    }

    /// Whether a cycle refuses an unknown opcode in place of skipping it.
    pub fn strict(&self) -> (strict: bool)
        ensures
            strict == self@.strict,
    {
        self.strict
    }

    /// Sets `pc`.
    pub fn set_pc(&mut self, val: u16)
        ensures
            final(self)@ == (State { pc: val, ..old(self)@ }),
    {
        proof {
            use_type_invariant(&*self);
        }
        self.pc = val;
    }

    /// Sets the index register `I`.
    pub fn set_i(&mut self, val: u16)
        ensures
            final(self)@ == (State { i: val, ..old(self)@ }),
    {
        proof {
            use_type_invariant(&*self);
        }
        self.i = val;
    }

    /// Sets the delay timer.
    pub fn set_delay_timer(&mut self, val: u8)
        ensures
            final(self)@ == (State { delay_timer: val, ..old(self)@ }),
    {
        proof {
            use_type_invariant(&*self);
        }
        self.delay_timer = val;
    }

    /// Sets the sound timer.
    pub fn set_sound_timer(&mut self, val: u8)
        ensures
            final(self)@ == (State { sound_timer: val, ..old(self)@ }),
    {
        proof {
            use_type_invariant(&*self);
        }
        self.sound_timer = val;
    }

    /// Stores `val` in register `x`.
    pub fn set_register(&mut self, x: usize, val: u8)
        requires
            x < REGISTER_COUNT,
        ensures
            final(self)@ == old(self)@.set_v(x as int, val),
    {
        proof {
            use_type_invariant(&*self);
        }
        self.v[x] = val;
    }

    /// Stores `val` in the memory byte at `addr`.
    pub fn set_memory(&mut self, addr: usize, val: u8)
        requires
            addr < MEMORY_SIZE,
        ensures
            final(self)@ == old(self)@.set_mem(addr as int, val),
    {
        proof {
            use_type_invariant(&*self);
        }
        self.mem[addr] = val;
    }

    /// Lights or darkens frame buffer cell `k`.
    pub fn set_pixel(&mut self, k: usize, lit: bool)
        requires
            k < SCREEN_SIZE,
        ensures
            final(self)@ == old(self)@.set_pixel(k as int, lit),
    {
        proof {
            use_type_invariant(&*self);
        }
        self.gfx[k] = if lit { 1 } else { 0 };
    }

    /// Darkens every pixel of the frame buffer.
    pub fn clear_pixels(&mut self)
        ensures
            final(self)@ == (State {
                gfx: Seq::new(SCREEN_SIZE as nat, |k: int| 0u8),
                ..old(self)@
            }),
    {
        proof {
            use_type_invariant(&*self);
        }
        self.gfx = [0; SCREEN_SIZE];
    }

    /// Records that key `k` is held down or released.
    pub fn set_key(&mut self, k: usize, pressed: bool)
        requires
            k < KEY_COUNT,
        ensures
            final(self)@ == old(self)@.set_key(k as int, pressed),
    {
        proof {
            use_type_invariant(&*self);
        }
        self.key[k] = pressed;
    }

    /// Marks the frame buffer as changed, or as presented.
    pub fn set_gfx_update(&mut self, dirty: bool)
        ensures
            final(self)@ == (State { gfx_update: dirty, ..old(self)@ }),
    {
        proof {
            use_type_invariant(&*self);
        }
        self.gfx_update = dirty;
    }

    /// Chooses whether a cycle refuses an unknown opcode (`true`) or skips it
    /// (`false`, as a new machine does).
    pub fn set_strict(&mut self, strict: bool)
        ensures
            final(self)@ == (State { strict, ..old(self)@ }),
    {
        proof {
            use_type_invariant(&*self);
        }
        self.strict = strict;
    }

    /// Suspends or resumes the machine.
    pub(crate) fn set_mode(&mut self, mode: Mode)
        requires
            mode matches Mode::AwaitingKey { register } ==> register < REGISTER_COUNT,
        ensures
            final(self)@ == (State { mode, ..old(self)@ }),
    {
        proof {
            use_type_invariant(&*self);
        }
        self.mode = mode;
    }

    /// Counts both timers down once; a timer at zero stays there.
    pub fn tick_timers(&mut self)
        ensures
            final(self)@ == old(self)@.tick(),
    {
        proof {
            use_type_invariant(&*self);
        }
        if self.delay_timer > 0 {
            self.delay_timer -= 1;
        }
        if self.sound_timer > 0 {
            self.sound_timer -= 1;
        }
    }

    /// The instruction word at `pc`: the byte at `pc` is its high half.
    pub fn fetch_opcode(&self) -> (opcode: u16)
        requires
            self@.pc + 1 < MEMORY_SIZE,
        ensures
            opcode == self@.opcode(),
    {
        let hi: u16 = self.mem[self.pc as usize] as u16;
        let lo: u16 = self.mem[self.pc as usize + 1] as u16;
        assert((hi << 8) | lo == hi * 256 + lo) by (bit_vector)
            requires
                hi < 256,
                lo < 256,
        ;
        (hi << 8) | lo
    }

    /// Moves `pc` forward by `instruction_count` instructions of two bytes.
    pub fn advance_pc(&mut self, instruction_count: u16)
        ensures
            final(self)@ == old(self)@.advance(instruction_count as int),
    {
        proof {
            use_type_invariant(&*self);
        }
        self.pc = self.pc.wrapping_add(instruction_count.wrapping_mul(2));
    }

    /// Pushes a return address on the call stack.
    pub fn stack_push(&mut self, val: u16)
        requires
            old(self)@.sp < STACK_SIZE,
        ensures
            final(self)@ == old(self)@.push(val),
    {
        proof {
            use_type_invariant(&*self);
        }
        self.stack[self.sp as usize] = val;
        self.sp += 1;
    }

    /// Removes the return address on top of the call stack and returns it.
    pub fn stack_pop(&mut self) -> (val: u16)
        requires
            old(self)@.sp > 0,
        ensures
            val == old(self)@.top(),
            final(self)@ == old(self)@.pop(),
    {
        proof {
            use_type_invariant(&*self);
        }
        self.sp -= 1;
        self.stack[self.sp as usize]
    }
}

} // verus!
