//! The execution unit: one operation per instruction.

use vstd::prelude::*;
use crate::machine::Chip8;
use crate::random::random_byte;
use crate::state::{
    Mode, State, FLAG_REGISTER, FONT_DIGIT_SIZE, KEY_COUNT, MEMORY_SIZE, REGISTER_COUNT,
    STACK_SIZE,
};

verus! {

impl Chip8 {
    /// Instruction: jump to `dst`.
    pub fn execute_jump(&mut self, dst: u16)
        ensures
            final(self)@ == old(self)@.jump(dst),
    {
        self.set_pc(dst);
    }

    /// Instruction: call the subroutine at `dst`.
    pub fn execute_call(&mut self, dst: u16)
        requires
            old(self)@.sp < STACK_SIZE,
        ensures
            final(self)@ == old(self)@.call(dst),
    {
        let currpc = self.pc();
        self.stack_push(currpc);
        self.set_pc(dst);
    }

    /// Instruction: return from the current subroutine.
    pub fn execute_return(&mut self)
        requires
            old(self)@.sp > 0,
        ensures
            final(self)@ == old(self)@.ret(),
    {
        let dst = self.stack_pop();
        self.set_pc(dst);
        self.advance_pc(1);
    }

    /// Instruction: skip the next instruction if `Vx == val`.
    pub fn execute_skipifeq(&mut self, vx: usize, val: u8)
        requires
            vx < REGISTER_COUNT,
        ensures
            final(self)@ == old(self)@.skip_if_eq(vx as int, val),
    {
        let numinstr: u16 = if self.register(vx) == val { 2 } else { 1 };
        self.advance_pc(numinstr);
    }

    /// Instruction: skip the next instruction if `Vx != val`.
    pub fn execute_skipifneq(&mut self, vx: usize, val: u8)
        requires
            vx < REGISTER_COUNT,
        ensures
            final(self)@ == old(self)@.skip_if_neq(vx as int, val),
    {
        let numinstr: u16 = if self.register(vx) != val { 2 } else { 1 };
        self.advance_pc(numinstr);
    }

    /// Instruction: `Vx = val`.
    pub fn execute_setregister_const(&mut self, vx: usize, val: u8)
        requires
            vx < REGISTER_COUNT,
        ensures
            final(self)@ == old(self)@.load_const(vx as int, val),
    {
        self.set_register(vx, val);
        self.advance_pc(1);
    }

    /// Instruction: `Vx = Vx + val`, wrapping.
    pub fn execute_addregister(&mut self, vx: usize, val: u8)
        requires
            vx < REGISTER_COUNT,
        ensures
            final(self)@ == old(self)@.add_const(vx as int, val),
    {
        let sum = self.register(vx).wrapping_add(val);
        self.set_register(vx, sum);
        self.advance_pc(1);
    }

    /// Instruction: skip the next instruction if `Vx == Vy`.
    pub fn execute_skipifeq_register(&mut self, vx: usize, vy: usize)
        requires
            vx < REGISTER_COUNT,
            vy < REGISTER_COUNT,
        ensures
            final(self)@ == old(self)@.skip_if_eq_reg(vx as int, vy as int),
    {
        let numinstr: u16 = if self.register(vx) == self.register(vy) { 2 } else { 1 };
        self.advance_pc(numinstr);
    }

    /// Instruction: skip the next instruction if `Vx != Vy`.
    pub fn execute_skipifneq_register(&mut self, vx: usize, vy: usize)
        requires
            vx < REGISTER_COUNT,
            vy < REGISTER_COUNT,
        ensures
            final(self)@ == old(self)@.skip_if_neq_reg(vx as int, vy as int),
    {
        let numinstr: u16 = if self.register(vx) != self.register(vy) { 2 } else { 1 };
        self.advance_pc(numinstr);
    }

    /// Instruction: clear the display.
    pub fn execute_clearscreen(&mut self)
        ensures
            final(self)@ == old(self)@.clear_screen(),
    {
        self.clear_pixels();
        self.set_gfx_update(true);
        self.advance_pc(1);
    }

    /// Instruction: `I = val`.
    pub fn execute_seti(&mut self, val: u16)
        ensures
            final(self)@ == old(self)@.load_index(val),
    {
        self.set_i(val);
        self.advance_pc(1);
    }

    /// Instruction: jump to `V0 + val`, wrapping.
    pub fn execute_jumpv0(&mut self, val: u16)
        ensures
            final(self)@ == old(self)@.jump_v0(val),
    {
        let dst = (self.register(0) as u16).wrapping_add(val);
        self.set_pc(dst);
    }

    /// Instruction: `Vx = val & byte`, for a random byte that is handed in.
    pub fn execute_setrandand_with(&mut self, vx: usize, val: u8, byte: u8)
        requires
            vx < REGISTER_COUNT,
        ensures
            final(self)@ == old(self)@.rand_and(vx as int, val, byte),
    {
        self.set_register(vx, val & byte);
        self.advance_pc(1);
    }

    /// Instruction: `Vx = val & byte`, for a random byte that is drawn here.
    pub fn execute_setrandand(&mut self, vx: usize, val: u8)
        requires
            vx < REGISTER_COUNT,
        ensures
            exists|byte: u8| final(self)@ == old(self)@.rand_and(vx as int, val, byte),
    {
        let byte = random_byte();
        self.execute_setrandand_with(vx, val, byte);
    }

    /// Instruction: `Vx = delay timer`.
    pub fn execute_loaddtimer(&mut self, vx: usize)
        requires
            vx < REGISTER_COUNT,
        ensures
            final(self)@ == old(self)@.load_delay(vx as int),
    {
        let val = self.delay_timer();
        self.set_register(vx, val);
        self.advance_pc(1);
    }

    /// Instruction: wait for a key press and store the key in `Vx`. The
    /// machine is suspended here; `key_event` completes the instruction.
    pub fn execute_waitkey(&mut self, vx: usize)
        requires
            vx < REGISTER_COUNT,
        ensures
            final(self)@ == old(self)@.wait_key(vx as int),
    {
        self.set_mode(Mode::AwaitingKey { register: vx });
    }

    /// Instruction: `delay timer = Vx`.
    pub fn execute_setdtimer(&mut self, vx: usize)
        requires
            vx < REGISTER_COUNT,
        ensures
            final(self)@ == old(self)@.set_delay(vx as int),
    {
        let val = self.register(vx);
        self.set_delay_timer(val);
        self.advance_pc(1);
    }

    /// Instruction: `sound timer = Vx`.
    pub fn execute_setstimer(&mut self, vx: usize)
        requires
            vx < REGISTER_COUNT,
        ensures
            final(self)@ == old(self)@.set_sound(vx as int),
    {
        let val = self.register(vx);
        self.set_sound_timer(val);
        self.advance_pc(1);
    }

    /// Instruction: `I = I + Vx`, wrapping.
    pub fn execute_addi(&mut self, vx: usize)
        requires
            vx < REGISTER_COUNT,
        ensures
            final(self)@ == old(self)@.add_index(vx as int),
    {
        let val = self.i().wrapping_add(self.register(vx) as u16);
        self.set_i(val);
        self.advance_pc(1);
    }

    /// Instruction: `I` = address of the glyph of the digit in `Vx`.
    pub fn execute_setifont(&mut self, vx: usize)
        requires
            vx < REGISTER_COUNT,
            old(self)@.v[vx as int] <= 0xF,
        ensures
            final(self)@ == old(self)@.font_index(vx as int),
    {
        let val = self.register(vx) as u16 * FONT_DIGIT_SIZE;
        self.set_i(val);
        self.advance_pc(1);
    }

    /// Instruction: store the decimal digits of `Vx` at `I`, `I + 1` and
    /// `I + 2`.
    pub fn execute_storebcd(&mut self, vx: usize)
        requires
            vx < REGISTER_COUNT,
            old(self)@.i + 2 < MEMORY_SIZE,
        ensures
            final(self)@ == old(self)@.store_bcd(vx as int),
    {
        let val = self.register(vx);
        let hundreds = val / 100;
        let tens = (val - hundreds * 100) / 10;
        let ones = val - hundreds * 100 - tens * 10;
        let addr = self.i() as usize;
        self.set_memory(addr, hundreds);
        self.set_memory(addr + 1, tens);
        self.set_memory(addr + 2, ones);
        self.advance_pc(1);
    }

    /// Instruction: store `V0` to `Vx`, `Vx` included, in memory from `I` on.
    pub fn execute_storeregs(&mut self, vx: usize)
        requires
            vx < REGISTER_COUNT,
            old(self)@.i + vx < MEMORY_SIZE,
        ensures
            final(self)@ == old(self)@.store_regs(vx as int),
    {
        proof {
            use_type_invariant(&*self);
        }
        let base = self.i() as usize;
        let mut vi: usize = 0;
        while vi <= vx
            invariant
                vi <= vx + 1,
                vx < REGISTER_COUNT,
                base == old(self)@.i,
                base + vx < MEMORY_SIZE,
                old(self)@.wf(),
                self@ == (State { mem: self@.mem, ..old(self)@ }),
                self@.mem.len() == MEMORY_SIZE,
                forall|k: int|
                    0 <= k < MEMORY_SIZE ==> self@.mem[k] == if base <= k < base + vi {
                        old(self)@.v[k - base]
                    } else {
                        old(self)@.mem[k]
                    },
            decreases vx + 1 - vi,
        {
            let val = self.register(vi);
            self.set_memory(base + vi, val);
            vi += 1;
        }
        self.advance_pc(1);
    }

    /// Instruction: read `V0` to `Vx`, `Vx` included, from memory from `I` on.
    pub fn execute_loadregs(&mut self, vx: usize)
        requires
            vx < REGISTER_COUNT,
            old(self)@.i + vx < MEMORY_SIZE,
        ensures
            final(self)@ == old(self)@.load_regs(vx as int),
    {
        proof {
            use_type_invariant(&*self);
        }
        let base = self.i() as usize;
        let mut vi: usize = 0;
        while vi <= vx
            invariant
                vi <= vx + 1,
                vx < REGISTER_COUNT,
                base == old(self)@.i,
                base + vx < MEMORY_SIZE,
                old(self)@.wf(),
                self@ == (State { v: self@.v, ..old(self)@ }),
                self@.v.len() == REGISTER_COUNT,
                forall|k: int|
                    0 <= k < REGISTER_COUNT ==> self@.v[k] == if k < vi {
                        old(self)@.mem[base + k]
                    } else {
                        old(self)@.v[k]
                    },
            decreases vx + 1 - vi,
        {
            let val = self.memory(base + vi);
            self.set_register(vi, val);
            vi += 1;
        }
        self.advance_pc(1);
    }

    /// Instruction: skip the next instruction if the key in `Vx` is pressed.
    pub fn execute_skipifkeypress(&mut self, vx: usize)
        requires
            vx < REGISTER_COUNT,
            old(self)@.v[vx as int] < KEY_COUNT,
        ensures
            final(self)@ == old(self)@.skip_if_key(vx as int),
    {
        let instrcount: u16 = if self.key(self.register(vx) as usize) { 2 } else { 1 };
        self.advance_pc(instrcount);
    }

    /// Instruction: skip the next instruction if the key in `Vx` is not
    /// pressed.
    pub fn execute_skipifnkeypress(&mut self, vx: usize)
        requires
            vx < REGISTER_COUNT,
            old(self)@.v[vx as int] < KEY_COUNT,
        ensures
            final(self)@ == old(self)@.skip_if_not_key(vx as int),
    {
        let instrcount: u16 = if !self.key(self.register(vx) as usize) { 2 } else { 1 };
        self.advance_pc(instrcount);
    }

    /// Instruction: `Vx = Vy`.
    pub fn execute_setregister_reg(&mut self, vx: usize, vy: usize)
        requires
            vx < REGISTER_COUNT,
            vy < REGISTER_COUNT,
        ensures
            final(self)@ == old(self)@.copy_reg(vx as int, vy as int),
    {
        let val = self.register(vy);
        self.set_register(vx, val);
        self.advance_pc(1);
    }

    /// Instruction: `Vx = Vx | Vy`.
    pub fn execute_bitor(&mut self, vx: usize, vy: usize)
        requires
            vx < REGISTER_COUNT,
            vy < REGISTER_COUNT,
        ensures
            final(self)@ == old(self)@.or_reg(vx as int, vy as int),
    {
        let val = self.register(vx) | self.register(vy);
        self.set_register(vx, val);
        self.advance_pc(1);
    }

    /// Instruction: `Vx = Vx & Vy`.
    pub fn execute_bitand(&mut self, vx: usize, vy: usize)
        requires
            vx < REGISTER_COUNT,
            vy < REGISTER_COUNT,
        ensures
            final(self)@ == old(self)@.and_reg(vx as int, vy as int),
    {
        let val = self.register(vx) & self.register(vy);
        self.set_register(vx, val);
        self.advance_pc(1);
    }

    /// Instruction: `Vx = Vx ^ Vy`.
    pub fn execute_bitxor(&mut self, vx: usize, vy: usize)
        requires
            vx < REGISTER_COUNT,
            vy < REGISTER_COUNT,
        ensures
            final(self)@ == old(self)@.xor_reg(vx as int, vy as int),
    {
        let val = self.register(vx) ^ self.register(vy);
        self.set_register(vx, val);
        self.advance_pc(1);
    }

    /// Instruction: `Vx = Vx + Vy`, `VF` = carry.
    pub fn execute_add(&mut self, vx: usize, vy: usize)
        requires
            vx < REGISTER_COUNT,
            vy < REGISTER_COUNT,
        ensures
            final(self)@ == old(self)@.add_reg(vx as int, vy as int),
    {
        let result: u16 = self.register(vx) as u16 + self.register(vy) as u16;
        let carry: u8 = if result > 255 { 1 } else { 0 };
        self.set_register(vx, (result % 256) as u8);
        self.set_register(FLAG_REGISTER, carry);
        self.advance_pc(1);
    }

    /// Instruction: `Vx = Vx - Vy`, `VF` = no borrow.
    pub fn execute_sub(&mut self, vx: usize, vy: usize)
        requires
            vx < REGISTER_COUNT,
            vy < REGISTER_COUNT,
        ensures
            final(self)@ == old(self)@.sub_reg(vx as int, vy as int),
    {
        let no_borrow: u8 = if self.register(vy) > self.register(vx) { 0 } else { 1 };
        self.set_register(FLAG_REGISTER, no_borrow);
        let val = self.register(vx).wrapping_sub(self.register(vy));
        self.set_register(vx, val);
        self.advance_pc(1);
    }

    /// Instruction: `Vx = Vx >> 1`, `VF` = lowest bit of `Vx` before.
    pub fn execute_shr(&mut self, vx: usize)
        requires
            vx < REGISTER_COUNT,
        ensures
            final(self)@ == old(self)@.shr_reg(vx as int),
    {
        let before = self.register(vx);
        assert(before & 1 == before % 2) by (bit_vector);
        self.set_register(FLAG_REGISTER, before & 1);
        let current = self.register(vx);
        assert(current >> 1 == current / 2) by (bit_vector);
        self.set_register(vx, current >> 1);
        self.advance_pc(1);
    }

    /// Instruction: `Vx = Vx << 1`, `VF` = highest bit of `Vx` before.
    pub fn execute_shl(&mut self, vx: usize)
        requires
            vx < REGISTER_COUNT,
        ensures
            final(self)@ == old(self)@.shl_reg(vx as int),
    {
        let before = self.register(vx);
        assert(before >> 7 == before / 128) by (bit_vector);
        self.set_register(FLAG_REGISTER, before >> 7);
        let current = self.register(vx);
        assert(current << 1 == (current * 2) % 256) by (bit_vector);
        self.set_register(vx, current << 1);
        self.advance_pc(1);
    }

    /// Instruction: `Vx = Vy - Vx`, `VF` = no borrow.
    pub fn execute_sub_inverse(&mut self, vx: usize, vy: usize)
        requires
            vx < REGISTER_COUNT,
            vy < REGISTER_COUNT,
        ensures
            final(self)@ == old(self)@.subn_reg(vx as int, vy as int),
    {
        let no_borrow: u8 = if self.register(vx) > self.register(vy) { 0 } else { 1 };
        self.set_register(FLAG_REGISTER, no_borrow);
        let val = self.register(vy).wrapping_sub(self.register(vx));
        self.set_register(vx, val);
        self.advance_pc(1);
    }
}

} // verus!
