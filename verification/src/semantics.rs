//! What each instruction does to the state, and what one cycle does.

use vstd::prelude::*;
use crate::decode::{is_known, op_family, op_kk, op_n, op_nnn, op_x, op_y};
use crate::state::{
    Mode, State, FLAG_REGISTER, FONT_DIGIT_SIZE, KEY_COUNT, MEMORY_SIZE, REGISTER_COUNT,
    SCREEN_SIZE, SCREEN_WIDTH, STACK_SIZE,
};

verus! {

/// Why an instruction cannot be executed. The program is malformed: the
/// machine is left as it was and its user decides whether to halt or reset.
#[derive(Clone, Copy, Debug, PartialEq, Eq, Structural)]
pub enum Fault {
    /// The instruction word at `pc` does not lie within memory.
    PcOutOfBounds,
    /// A call with sixteen return addresses already on the stack.
    StackOverflow,
    /// A return with no return address on the stack.
    StackUnderflow,
    /// A font address was asked for a value above `0xF`.
    InvalidDigit,
    /// A key was tested whose number is above `0xF`.
    InvalidKey,
    /// An instruction reaches memory beyond its last byte.
    MemoryOutOfBounds,
    /// The opcode matches no instruction and the machine is strict.
    UnknownOpcode,
}

/// How one cycle ended.
#[derive(Clone, Copy, Debug, PartialEq, Eq, Structural)]
pub enum Step {
    /// One instruction was executed and the timers counted down.
    Executed,
    /// The opcode matched no instruction and was skipped; the timers counted
    /// down.
    UnknownOpcode,
    /// The machine is suspended until a key is pressed.
    AwaitingKey,
}

/// Whether bit `col` of a sprite row is set, column 0 being the most
/// significant bit.
pub open spec fn sprite_bit(bits: u8, col: u8) -> bool {
    bits & (0x80u8 >> col) != 0
}

/// The value that stands for a flag in `VF`.
pub open spec fn flag(b: bool) -> u8 {
    if b {
        1
    } else {
        0
    }
}

impl State {
    /// Jump: `pc` is the target.
    pub open spec fn jump(self, dst: u16) -> State {
        State { pc: dst, ..self }
    }

    /// Call: the current `pc` is pushed and `pc` is the target.
    pub open spec fn call(self, dst: u16) -> State
        recommends
            self.sp < STACK_SIZE,
    {
        self.push(self.pc).jump(dst)
    }

    /// Return: `pc` is popped and moved past the call.
    pub open spec fn ret(self) -> State
        recommends
            self.sp > 0,
    {
        self.pop().jump(self.top()).advance(1)
    }

    /// Skip the next instruction if `Vx` equals `val`.
    pub open spec fn skip_if_eq(self, x: int, val: u8) -> State {
        self.advance(if self.v[x] == val { 2 } else { 1 })
    }

    /// Skip the next instruction if `Vx` differs from `val`.
    pub open spec fn skip_if_neq(self, x: int, val: u8) -> State {
        self.advance(if self.v[x] != val { 2 } else { 1 })
    }

    /// Skip the next instruction if `Vx` equals `Vy`.
    pub open spec fn skip_if_eq_reg(self, x: int, y: int) -> State {
        self.advance(if self.v[x] == self.v[y] { 2 } else { 1 })
    }

    /// Skip the next instruction if `Vx` differs from `Vy`.
    pub open spec fn skip_if_neq_reg(self, x: int, y: int) -> State {
        self.advance(if self.v[x] != self.v[y] { 2 } else { 1 })
    }

    /// `Vx = val`.
    pub open spec fn load_const(self, x: int, val: u8) -> State {
        self.set_v(x, val).advance(1)
    }

    /// `Vx = Vx + val` modulo 256; `VF` is not a flag here.
    pub open spec fn add_const(self, x: int, val: u8) -> State {
        self.set_v(x, ((self.v[x] + val) % 256) as u8).advance(1)
    }

    /// Clear the screen: every pixel dark, the frame buffer marked changed.
    pub open spec fn clear_screen(self) -> State {
        State {
            gfx: Seq::new(SCREEN_SIZE as nat, |k: int| 0u8),
            gfx_update: true,
            ..self
        }.advance(1)
    }

    /// `I = val`.
    pub open spec fn load_index(self, val: u16) -> State {
        State { i: val, ..self }.advance(1)
    }

    /// Jump to `V0 + val`, modulo 2^16.
    pub open spec fn jump_v0(self, val: u16) -> State {
        self.jump(((self.v[0] + val) % 0x10000) as u16)
    }

    /// `Vx = val & byte`, where `byte` is the random byte that was drawn.
    pub open spec fn rand_and(self, x: int, val: u8, byte: u8) -> State {
        self.set_v(x, val & byte).advance(1)
    }

    /// Whether a sprite of `rows` rows, read from memory at `I` and placed
    /// with its top left corner at `(x0, y0)`, has a set bit on frame buffer
    /// cell `k`. Sprite pixels beyond the right or lower edge hit no cell.
    pub open spec fn sprite_hits(self, x0: int, y0: int, rows: int, k: int) -> bool {
        let x = k % (SCREEN_WIDTH as int);
        let y = k / (SCREEN_WIDTH as int);
        &&& 0 <= k < SCREEN_SIZE
        &&& x0 <= x < x0 + 8
        &&& y0 <= y < y0 + rows
        &&& sprite_bit(self.mem[self.i + (y - y0)], (x - x0) as u8)
    }

    /// Whether drawing the sprite turns a lit pixel dark.
    pub open spec fn sprite_collides(self, x0: int, y0: int, rows: int) -> bool {
        exists|k: int| self.sprite_hits(x0, y0, rows, k) && self.gfx[k] == 1
    }

    /// The frame buffer after the sprite was XORed onto it.
    pub open spec fn sprite_drawn(self, x0: int, y0: int, rows: int) -> Seq<u8> {
        Seq::new(
            SCREEN_SIZE as nat,
            |k: int|
                if self.sprite_hits(x0, y0, rows, k) {
                    self.gfx[k] ^ 1
                } else {
                    self.gfx[k]
                },
        )
    }

    /// Draw a sprite of `rows` rows at `(Vx, Vy)`: the sprite is XORed onto
    /// the frame buffer, clipped at the edges; `VF` is 1 if a lit pixel went
    /// dark and 0 if none did; the frame buffer is marked changed.
    pub open spec fn draw(self, x: int, y: int, rows: int) -> State
        recommends
            rows > 0 ==> self.i + rows <= MEMORY_SIZE,
    {
        let x0 = self.v[x] as int;
        let y0 = self.v[y] as int;
        State {
            gfx: self.sprite_drawn(x0, y0, rows),
            v: self.v.update(FLAG_REGISTER as int, flag(self.sprite_collides(x0, y0, rows))),
            gfx_update: true,
            ..self
        }.advance(1)
    }

    /// `Vx = delay timer`.
    pub open spec fn load_delay(self, x: int) -> State {
        self.set_v(x, self.delay_timer).advance(1)
    }

    /// Wait for a key: the machine is suspended, `pc` stays on the
    /// instruction until a key press completes it.
    pub open spec fn wait_key(self, x: int) -> State {
        State { mode: Mode::AwaitingKey { register: x as usize }, ..self }
    }

    /// `delay timer = Vx`.
    pub open spec fn set_delay(self, x: int) -> State {
        State { delay_timer: self.v[x], ..self }.advance(1)
    }

    /// `sound timer = Vx`.
    pub open spec fn set_sound(self, x: int) -> State {
        State { sound_timer: self.v[x], ..self }.advance(1)
    }

    /// `I = I + Vx` modulo 2^16; `VF` is not a flag here.
    pub open spec fn add_index(self, x: int) -> State {
        State { i: ((self.i + self.v[x]) % 0x10000) as u16, ..self }.advance(1)
    }

    /// `I` = address of the glyph of the digit in `Vx`.
    pub open spec fn font_index(self, x: int) -> State
        recommends
            self.v[x] <= 0xF,
    {
        State { i: (self.v[x] * FONT_DIGIT_SIZE) as u16, ..self }.advance(1)
    }

    /// The hundreds, tens and ones of `Vx` go to memory at `I`, `I + 1` and
    /// `I + 2`.
    pub open spec fn store_bcd(self, x: int) -> State
        recommends
            self.i + 2 < MEMORY_SIZE,
    {
        let val = self.v[x] as int;
        self.set_mem(self.i as int, (val / 100) as u8).set_mem(
            self.i + 1,
            ((val / 10) % 10) as u8,
        ).set_mem(self.i + 2, (val % 10) as u8).advance(1)
    }

    /// `V0` to `Vx`, `Vx` included, go to memory from `I` on; `I` stays.
    pub open spec fn store_regs(self, x: int) -> State
        recommends
            self.i + x < MEMORY_SIZE,
    {
        State {
            mem: Seq::new(
                MEMORY_SIZE as nat,
                |k: int|
                    if self.i <= k <= self.i + x {
                        self.v[k - self.i]
                    } else {
                        self.mem[k]
                    },
            ),
            ..self
        }.advance(1)
    }

    /// `V0` to `Vx`, `Vx` included, are read from memory from `I` on; `I`
    /// stays.
    pub open spec fn load_regs(self, x: int) -> State
        recommends
            self.i + x < MEMORY_SIZE,
    {
        State {
            v: Seq::new(
                REGISTER_COUNT as nat,
                |k: int|
                    if k <= x {
                        self.mem[self.i + k]
                    } else {
                        self.v[k]
                    },
            ),
            ..self
        }.advance(1)
    }

    /// Skip the next instruction if the key whose number is in `Vx` is down.
    pub open spec fn skip_if_key(self, x: int) -> State
        recommends
            self.v[x] < KEY_COUNT,
    {
        self.advance(if self.key[self.v[x] as int] { 2 } else { 1 })
    }

    /// Skip the next instruction if the key whose number is in `Vx` is up.
    pub open spec fn skip_if_not_key(self, x: int) -> State
        recommends
            self.v[x] < KEY_COUNT,
    {
        self.advance(if !self.key[self.v[x] as int] { 2 } else { 1 })
    }

    /// `Vx = Vy`.
    pub open spec fn copy_reg(self, x: int, y: int) -> State {
        self.set_v(x, self.v[y]).advance(1)
    }

    /// `Vx = Vx | Vy`.
    pub open spec fn or_reg(self, x: int, y: int) -> State {
        self.set_v(x, self.v[x] | self.v[y]).advance(1)
    }

    /// `Vx = Vx & Vy`.
    pub open spec fn and_reg(self, x: int, y: int) -> State {
        self.set_v(x, self.v[x] & self.v[y]).advance(1)
    }

    /// `Vx = Vx ^ Vy`.
    pub open spec fn xor_reg(self, x: int, y: int) -> State {
        self.set_v(x, self.v[x] ^ self.v[y]).advance(1)
    }

    /// `Vx = Vx + Vy` modulo 256, then `VF` = carry.
    pub open spec fn add_reg(self, x: int, y: int) -> State {
        let sum = self.v[x] + self.v[y];
        self.set_v(x, (sum % 256) as u8).set_v(FLAG_REGISTER as int, flag(sum > 255)).advance(1)
    }

    /// `VF` = no borrow, then `Vx = Vx - Vy` modulo 256, read after `VF` was
    /// written.
    pub open spec fn sub_reg(self, x: int, y: int) -> State {
        let flagged = self.set_v(FLAG_REGISTER as int, flag(!(self.v[y] > self.v[x])));
        flagged.set_v(x, ((flagged.v[x] - flagged.v[y]) % 256) as u8).advance(1)
    }

    /// `VF` = no borrow, then `Vx = Vy - Vx` modulo 256, read after `VF` was
    /// written.
    pub open spec fn subn_reg(self, x: int, y: int) -> State {
        let flagged = self.set_v(FLAG_REGISTER as int, flag(!(self.v[x] > self.v[y])));
        flagged.set_v(x, ((flagged.v[y] - flagged.v[x]) % 256) as u8).advance(1)
    }

    /// `VF` = lowest bit of `Vx`, then `Vx` is halved, read after `VF` was
    /// written.
    pub open spec fn shr_reg(self, x: int) -> State {
        let flagged = self.set_v(FLAG_REGISTER as int, (self.v[x] % 2) as u8);
        flagged.set_v(x, (flagged.v[x] / 2) as u8).advance(1)
    }

    /// `VF` = highest bit of `Vx`, then `Vx` is doubled modulo 256, read after
    /// `VF` was written.
    pub open spec fn shl_reg(self, x: int) -> State {
        let flagged = self.set_v(FLAG_REGISTER as int, (self.v[x] / 128) as u8);
        flagged.set_v(x, ((flagged.v[x] * 2) % 256) as u8).advance(1)
    }

    /// What executing `opcode` does, `byte` being the random byte that the
    /// random instruction draws. An unknown opcode is skipped.
    pub open spec fn execute(self, opcode: u16, byte: u8) -> State {
        let family = op_family(opcode);
        let nnn = op_nnn(opcode) as u16;
        let x = op_x(opcode);
        let y = op_y(opcode);
        let kk = op_kk(opcode) as u8;
        let n = op_n(opcode);
        if opcode == 0x00E0 {
            self.clear_screen()
        } else if opcode == 0x00EE {
            self.ret()
        } else if family == 0x1 {
            self.jump(nnn)
        } else if family == 0x2 {
            self.call(nnn)
        } else if family == 0x3 {
            self.skip_if_eq(x, kk)
        } else if family == 0x4 {
            self.skip_if_neq(x, kk)
        } else if family == 0x5 {
            self.skip_if_eq_reg(x, y)
        } else if family == 0x6 {
            self.load_const(x, kk)
        } else if family == 0x7 {
            self.add_const(x, kk)
        } else if family == 0x8 && n == 0x0 {
            self.copy_reg(x, y)
        } else if family == 0x8 && n == 0x1 {
            self.or_reg(x, y)
        } else if family == 0x8 && n == 0x2 {
            self.and_reg(x, y)
        } else if family == 0x8 && n == 0x3 {
            self.xor_reg(x, y)
        } else if family == 0x8 && n == 0x4 {
            self.add_reg(x, y)
        } else if family == 0x8 && n == 0x5 {
            self.sub_reg(x, y)
        } else if family == 0x8 && n == 0x6 {
            self.shr_reg(x)
        } else if family == 0x8 && n == 0x7 {
            self.subn_reg(x, y)
        } else if family == 0x8 && n == 0xE {
            self.shl_reg(x)
        } else if family == 0x9 {
            self.skip_if_neq_reg(x, y)
        } else if family == 0xA {
            self.load_index(nnn)
        } else if family == 0xB {
            self.jump_v0(nnn)
        } else if family == 0xC {
            self.rand_and(x, kk, byte)
        } else if family == 0xD {
            self.draw(x, y, n)
        } else if family == 0xE && kk == 0x9E {
            self.skip_if_key(x)
        } else if family == 0xE && kk == 0xA1 {
            self.skip_if_not_key(x)
        } else if family == 0xF && kk == 0x07 {
            self.load_delay(x)
        } else if family == 0xF && kk == 0x0A {
            self.wait_key(x)
        } else if family == 0xF && kk == 0x15 {
            self.set_delay(x)
        } else if family == 0xF && kk == 0x18 {
            self.set_sound(x)
        } else if family == 0xF && kk == 0x1E {
            self.add_index(x)
        } else if family == 0xF && kk == 0x29 {
            self.font_index(x)
        } else if family == 0xF && kk == 0x33 {
            self.store_bcd(x)
        } else if family == 0xF && kk == 0x55 {
            self.store_regs(x)
        } else if family == 0xF && kk == 0x65 {
            self.load_regs(x)
        } else {
            self.advance(1)
        }
    }

    /// Why `opcode` cannot be executed in this state, if it cannot.
    pub open spec fn fault_of(self, opcode: u16) -> Option<Fault> {
        let family = op_family(opcode);
        let x = op_x(opcode);
        let kk = op_kk(opcode);
        let n = op_n(opcode);
        if opcode == 0x00EE && self.sp == 0 {
            Some(Fault::StackUnderflow)
        } else if family == 0x2 && self.sp >= STACK_SIZE {
            Some(Fault::StackOverflow)
        } else if family == 0xD && n > 0 && self.i + n > MEMORY_SIZE {
            Some(Fault::MemoryOutOfBounds)
        } else if family == 0xE && (kk == 0x9E || kk == 0xA1) && self.v[x] >= KEY_COUNT {
            Some(Fault::InvalidKey)
        } else if family == 0xF && kk == 0x29 && self.v[x] > 0xF {
            Some(Fault::InvalidDigit)
        } else if family == 0xF && kk == 0x33 && self.i + 2 >= MEMORY_SIZE {
            Some(Fault::MemoryOutOfBounds)
        } else if family == 0xF && (kk == 0x55 || kk == 0x65) && self.i + x >= MEMORY_SIZE {
            Some(Fault::MemoryOutOfBounds)
        } else {
            None
        }
    }

    /// Why the next cycle cannot execute, if it cannot.
    pub open spec fn cycle_fault(self) -> Option<Fault> {
        if self.pc + 1 >= MEMORY_SIZE {
            Some(Fault::PcOutOfBounds)
        } else if self.strict && !is_known(self.opcode()) {
            Some(Fault::UnknownOpcode)
        } else {
            self.fault_of(self.opcode())
        }
    }

    /// What one cycle does to a running machine that has no fault: the
    /// instruction at `pc` executes fully, then both timers count down once,
    /// unless the instruction suspended the machine.
    pub open spec fn step(self, byte: u8) -> State {
        let next = self.execute(self.opcode(), byte);
        if next.mode is AwaitingKey {
            next
        } else {
            next.tick()
        }
    }

    /// How that cycle is reported.
    pub open spec fn step_outcome(self) -> Step {
        let opcode = self.opcode();
        if !is_known(opcode) {
            Step::UnknownOpcode
        } else if op_family(opcode) == 0xF && op_kk(opcode) == 0x0A {
            Step::AwaitingKey
        } else {
            Step::Executed
        }
    }
}

} // verus!
