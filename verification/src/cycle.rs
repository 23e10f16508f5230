//! The cycle driver: fetch, decode, dispatch, then the timers.

use vstd::prelude::*;
use crate::decode::{decode, is_known, opcode_is_known};
use crate::machine::Chip8;
use crate::semantics::{Fault, Step};
use crate::state::{Mode, KEY_COUNT, MEMORY_SIZE, STACK_SIZE};

verus! {

/// Length of one cycle in milliseconds, for 120 cycles in a second.
pub const TARGET_CYCLE_MS: u64 = 1000 / 120;

/// How long the host sleeps after a cycle that took `elapsed_ms`
/// milliseconds, so that the cycle lasts `TARGET_CYCLE_MS`.
pub fn frame_delay_ms(elapsed_ms: u64) -> (delay: u64)
    ensures
        delay == if elapsed_ms < TARGET_CYCLE_MS {
            TARGET_CYCLE_MS - elapsed_ms
        } else {
            0
        },
{
    if elapsed_ms < TARGET_CYCLE_MS {
        TARGET_CYCLE_MS - elapsed_ms
    } else {
        0
    }
}

impl Chip8 {
    /// Why `opcode` cannot be executed in the machine's present state, if it
    /// cannot.
    pub fn fault_of(&self, opcode: u16) -> (fault: Option<Fault>)
        ensures
            fault == self@.fault_of(opcode),
    {
        let f = decode(opcode);
        if opcode == 0x00EE {
            if self.sp() == 0 {
                return Some(Fault::StackUnderflow);
            }
        } else if f.family == 0x2 {
            if self.sp() as usize >= STACK_SIZE {
                return Some(Fault::StackOverflow);
            }
        } else if f.family == 0xD {
            if f.n > 0 && self.i() as usize + f.n as usize > MEMORY_SIZE {
                return Some(Fault::MemoryOutOfBounds);
            }
        } else if f.family == 0xE {
            if (f.kk == 0x9E || f.kk == 0xA1) && self.register(f.x) as usize >= KEY_COUNT {
                return Some(Fault::InvalidKey);
            }
        } else if f.family == 0xF {
            if f.kk == 0x29 {
                if self.register(f.x) > 0xF {
                    return Some(Fault::InvalidDigit);
                }
            } else if f.kk == 0x33 {
                if self.i() as usize + 2 >= MEMORY_SIZE {
                    return Some(Fault::MemoryOutOfBounds);
                }
            } else if f.kk == 0x55 || f.kk == 0x65 {
                if self.i() as usize + f.x >= MEMORY_SIZE {
                    return Some(Fault::MemoryOutOfBounds);
                }
            }
        }
        None
    }

    /// Executes one opcode. An opcode that matches no instruction is skipped:
    /// `pc` moves on by one instruction, and the result is `false` so that
    /// the caller can report it.
    pub fn decode_and_execute(&mut self, opcode: u16) -> (known: bool)
        requires
            old(self)@.fault_of(opcode) is None,
        ensures
            known == is_known(opcode),
            exists|byte: u8| final(self)@ == old(self)@.execute(opcode, byte),
    {
        let f = decode(opcode);
        let short = f.nnn;
        let vx = f.x;
        let vy = f.y;
        let byte = f.kk;
        let nibble = f.n;
        let ghost m = old(self)@;
        let ghost mut drawn: u8 = 0;
        let mut known = true;

        match opcode {
            0x00E0 => self.execute_clearscreen(),
            0x00EE => self.execute_return(),
            _ => match f.family {
                0x1 => self.execute_jump(short),
                0x2 => self.execute_call(short),
                0x3 => self.execute_skipifeq(vx, byte),
                0x4 => self.execute_skipifneq(vx, byte),
                0x5 => self.execute_skipifeq_register(vx, vy),
                0x6 => self.execute_setregister_const(vx, byte),
                0x7 => self.execute_addregister(vx, byte),
                0x8 => match nibble {
                    0x0 => self.execute_setregister_reg(vx, vy),
                    0x1 => self.execute_bitor(vx, vy),
                    0x2 => self.execute_bitand(vx, vy),
                    0x3 => self.execute_bitxor(vx, vy),
                    0x4 => self.execute_add(vx, vy),
                    0x5 => self.execute_sub(vx, vy),
                    0x6 => self.execute_shr(vx),
                    0x7 => self.execute_sub_inverse(vx, vy),
                    0xE => self.execute_shl(vx),
                    _ => {
                        known = false;
                        self.advance_pc(1)
                    },
                },
                0x9 => self.execute_skipifneq_register(vx, vy),
                0xA => self.execute_seti(short),
                0xB => self.execute_jumpv0(short),
                0xC => {
                    self.execute_setrandand(vx, byte);
                    proof {
                        drawn = choose|b: u8| self@ == m.rand_and(vx as int, byte, b);
                    }
                },
                0xD => self.execute_draw(vx, vy, nibble),
                0xE => match byte {
                    0x9E => self.execute_skipifkeypress(vx),
                    0xA1 => self.execute_skipifnkeypress(vx),
                    _ => {
                        known = false;
                        self.advance_pc(1)
                    },
                },
                0xF => match byte {
                    0x07 => self.execute_loaddtimer(vx),
                    0x0A => self.execute_waitkey(vx),
                    0x15 => self.execute_setdtimer(vx),
                    0x18 => self.execute_setstimer(vx),
                    0x1E => self.execute_addi(vx),
                    0x29 => self.execute_setifont(vx),
                    0x33 => self.execute_storebcd(vx),
                    0x55 => self.execute_storeregs(vx),
                    0x65 => self.execute_loadregs(vx),
                    _ => {
                        known = false;
                        self.advance_pc(1)
                    },
                },
                _ => {
                    known = false;
                    self.advance_pc(1)
                },
            },
        }
        assert(self@ == m.execute(opcode, drawn));
        known
    }

    /// Runs one cycle. A suspended machine stays as it is. A running machine
    /// whose next instruction cannot be executed reports the fault and stays
    /// as it is. Otherwise the instruction at `pc` is executed, and then both
    /// timers count down once, unless the instruction suspended the machine.
    pub fn cycle(&mut self) -> (result: Result<Step, Fault>)
        ensures
            old(self)@.mode is AwaitingKey ==> result == Ok::<Step, Fault>(Step::AwaitingKey)
                && final(self)@ == old(self)@,
            old(self)@.mode is Running ==> match old(self)@.cycle_fault() {
                Some(fault) => result == Err::<Step, Fault>(fault) && final(self)@ == old(self)@,
                None => result == Ok::<Step, Fault>(old(self)@.step_outcome()) && exists|byte: u8|
                    final(self)@ == old(self)@.step(byte),
            },
    {
        match self.mode() {
            Mode::AwaitingKey { register: _ } => {
                return Ok(Step::AwaitingKey);
            },
            Mode::Running => {},
        }
        if self.pc() as usize + 1 >= MEMORY_SIZE {
            return Err(Fault::PcOutOfBounds);
        }
        let opcode = self.fetch_opcode();
        if self.strict() && !opcode_is_known(opcode) {
            return Err(Fault::UnknownOpcode);
        }
        match self.fault_of(opcode) {
            Some(fault) => {
                return Err(fault);
            },
            None => {},
        }
        let ghost m = old(self)@;
        let known = self.decode_and_execute(opcode);
        let ghost drawn = choose|b: u8| self@ == m.execute(opcode, b);
        match self.mode() {
            Mode::AwaitingKey { register: _ } => {
                assert(self@ == m.step(drawn));
                Ok(Step::AwaitingKey)
            },
            Mode::Running => {
                self.tick_timers();
                assert(self@ == m.step(drawn));
                if known {
                    Ok(Step::Executed)
                } else {
                    Ok(Step::UnknownOpcode)
                }
            },
        }
    }
}

} // verus!
