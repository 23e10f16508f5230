//! Laws that relate the operations of the machine to each other.

use vstd::prelude::*;
use crate::decode::{is_known, op_family, op_kk, op_n, op_nnn, op_x, op_y};
use crate::keypad::Key;
use crate::state::{
    State, FLAG_REGISTER, KEY_COUNT, MAX_PROGRAM_SIZE, MEMORY_SIZE, REGISTER_COUNT, STACK_SIZE,
};

verus! {

impl State {
    /// The state after the values of `vals` were pushed, the first one first.
    pub open spec fn push_all(self, vals: Seq<u16>) -> State
        decreases vals.len(),
    {
        if vals.len() == 0 {
            self
        } else {
            self.push_all(vals.drop_last()).push(vals.last())
        }
    }

    /// The values that `n` pops return, in the order in which they come.
    pub open spec fn popped(self, n: nat) -> Seq<u16>
        decreases n,
    {
        if n == 0 {
            Seq::empty()
        } else {
            seq![self.top()] + self.pop().popped((n - 1) as nat)
        }
    }

    /// The state after `n` pops.
    pub open spec fn pop_n(self, n: nat) -> State
        decreases n,
    {
        if n == 0 {
            self
        } else {
            self.pop().pop_n((n - 1) as nat)
        }
    }
}

/// Pushing `vals` raises the stack pointer by their number and keeps the
/// state well-formed.
proof fn lemma_push_all(m: State, vals: Seq<u16>)
    requires
        m.wf(),
        m.sp + vals.len() <= STACK_SIZE,
    ensures
        m.push_all(vals).wf(),
        m.push_all(vals).sp == m.sp + vals.len(),
        forall|j: int| 0 <= j < m.sp ==> m.push_all(vals).stack[j] == m.stack[j],
    decreases vals.len(),
{
    if vals.len() > 0 {
        lemma_push_all(m, vals.drop_last());
    }
}

/// What pops return depends on the stack below the stack pointer alone.
proof fn lemma_popped_below(a: State, b: State, n: nat)
    requires
        a.sp == b.sp,
        n <= a.sp,
        forall|j: int| 0 <= j < a.sp ==> a.stack[j] == b.stack[j],
    ensures
        a.popped(n) == b.popped(n),
        a.pop_n(n).sp == a.sp - n,
    decreases n,
{
    if n > 0 {
        lemma_popped_below(a.pop(), b.pop(), (n - 1) as nat);
    }
}

/// Stack discipline: after the values of `vals` were pushed, as many pops
/// return them in reverse order, and leave the stack pointer where it was
/// before the pushes.
pub proof fn lemma_stack_discipline(m: State, vals: Seq<u16>)
    requires
        m.wf(),
        m.sp + vals.len() <= STACK_SIZE,
    ensures
        m.push_all(vals).popped(vals.len()) == vals.reverse(),
        m.push_all(vals).pop_n(vals.len()).sp == m.sp,
    decreases vals.len(),
{
    let n = vals.len();
    lemma_push_all(m, vals);
    lemma_popped_below(m.push_all(vals), m.push_all(vals), n);
    if n > 0 {
        let init = vals.drop_last();
        let below = m.push_all(init);
        let full = below.push(vals.last());
        lemma_push_all(m, init);
        lemma_stack_discipline(m, init);
        lemma_popped_below(full.pop(), below, (n - 1) as nat);
        assert(full.top() == vals.last());
        assert(vals.reverse() =~= seq![vals.last()] + init.reverse());
    }
}

/// Call and return: a return right after a call leaves the stack pointer
/// where it was and `pc` one instruction behind the call.
pub proof fn lemma_call_return(m: State, dst: u16)
    requires
        m.wf(),
        m.sp < STACK_SIZE,
    ensures
        m.call(dst).pc == dst,
        m.call(dst).sp == m.sp + 1,
        m.call(dst).ret().sp == m.sp,
        m.call(dst).ret().pc == m.advance(1).pc,
{
}

/// Carry flag: an addition of two registers leaves 1 in `VF` if and only if
/// the sum is above 255, and 0 otherwise; a target other than `VF` holds the
/// sum modulo 256.
pub proof fn lemma_add_carry(m: State, x: int, y: int)
    requires
        m.wf(),
        0 <= x < REGISTER_COUNT,
        0 <= y < REGISTER_COUNT,
    ensures
        m.add_reg(x, y).v[FLAG_REGISTER as int] == 1 <==> m.v[x] + m.v[y] > 255,
        m.add_reg(x, y).v[FLAG_REGISTER as int] == 0 <==> m.v[x] + m.v[y] <= 255,
        x != FLAG_REGISTER ==> m.add_reg(x, y).v[x] == (m.v[x] + m.v[y]) % 256,
{
}

/// Borrow flag: a subtraction `Vx = Vx - Vy` whose target is not `VF` leaves
/// 0 in `VF` if and only if `Vy` was above `Vx`, and 1 otherwise; if `Vy` is
/// not `VF` either, the target holds the difference modulo 256.
pub proof fn lemma_sub_borrow(m: State, x: int, y: int)
    requires
        m.wf(),
        0 <= x < REGISTER_COUNT,
        0 <= y < REGISTER_COUNT,
        x != FLAG_REGISTER,
    ensures
        m.sub_reg(x, y).v[FLAG_REGISTER as int] == 0 <==> m.v[y] > m.v[x],
        m.sub_reg(x, y).v[FLAG_REGISTER as int] == 1 <==> m.v[y] <= m.v[x],
        y != FLAG_REGISTER ==> m.sub_reg(x, y).v[x] == (m.v[x] - m.v[y]) % 256,
{
}

/// Binary-coded decimal: the three bytes stored are decimal digits, and they
/// spell the value of `Vx`.
pub proof fn lemma_bcd_digits(m: State, x: int)
    requires
        m.wf(),
        0 <= x < REGISTER_COUNT,
        m.i + 2 < m.mem.len(),
    ensures
        ({
            let after = m.store_bcd(x);
            let hundreds = after.mem[m.i as int];
            let tens = after.mem[m.i + 1];
            let ones = after.mem[m.i + 2];
            &&& hundreds <= 9 && tens <= 9 && ones <= 9
            &&& 100 * hundreds + 10 * tens + ones == m.v[x]
        }),
{
}

/// XOR with 1 swaps 0 and 1.
proof fn lemma_toggle(g: u8)
    requires
        g == 0 || g == 1,
    ensures
        g ^ 1 == 1 - g,
{
    assert(g ^ 1 == (if g == 1 { 0u8 } else { 1u8 })) by (bit_vector)
        requires
            g == 0 || g == 1,
    ;
}

/// Drawing twice: a sprite drawn a second time at the same place, from
/// registers other than `VF`, restores the frame buffer, so every pixel that
/// the first draw lit is dark again; and the second draw leaves 1 in `VF` if
/// and only if the first draw lit a pixel.
pub proof fn lemma_draw_twice(m: State, x: int, y: int, rows: int)
    requires
        m.wf(),
        0 <= x < REGISTER_COUNT,
        0 <= y < REGISTER_COUNT,
        x != FLAG_REGISTER,
        y != FLAG_REGISTER,
        0 <= rows,
    ensures
        m.draw(x, y, rows).draw(x, y, rows).gfx == m.gfx,
        forall|k: int|
            0 <= k < m.gfx.len() && m.gfx[k] == 0 && #[trigger] m.draw(x, y, rows).gfx[k] == 1
                ==> m.draw(x, y, rows).draw(x, y, rows).gfx[k] == 0 && m.draw(x, y, rows).draw(
                x,
                y,
                rows,
            ).v[FLAG_REGISTER as int] == 1,
        m.draw(x, y, rows).draw(x, y, rows).v[FLAG_REGISTER as int] == 1 <==> exists|k: int|
            0 <= k < m.gfx.len() && m.gfx[k] == 0 && #[trigger] m.draw(x, y, rows).gfx[k] == 1,
{
    let once = m.draw(x, y, rows);
    let twice = once.draw(x, y, rows);
    let x0 = m.v[x] as int;
    let y0 = m.v[y] as int;
    assert(once.v[x] == m.v[x] && once.v[y] == m.v[y]);
    assert forall|k: int| 0 <= k < m.gfx.len() implies once.sprite_hits(x0, y0, rows, k)
        == m.sprite_hits(x0, y0, rows, k) && #[trigger] once.gfx[k] == (if m.sprite_hits(
        x0,
        y0,
        rows,
        k,
    ) {
        1 - m.gfx[k]
    } else {
        m.gfx[k] as int
    }) by {
        lemma_toggle(m.gfx[k]);
    }
    assert forall|k: int| 0 <= k < m.gfx.len() implies #[trigger] twice.gfx[k] == m.gfx[k] by {
        lemma_toggle(m.gfx[k]);
        lemma_toggle(once.gfx[k]);
    }
    assert(twice.gfx =~= m.gfx);
    if once.sprite_collides(x0, y0, rows) {
        let k = choose|k: int| once.sprite_hits(x0, y0, rows, k) && once.gfx[k] == 1;
        assert(m.gfx[k] == 0 && once.gfx[k] == 1);
    }
    assert forall|k: int|
        0 <= k < m.gfx.len() && m.gfx[k] == 0 && #[trigger] once.gfx[k] == 1 implies twice.gfx[k]
        == 0 && twice.v[FLAG_REGISTER as int] == 1 by {
        assert(once.sprite_hits(x0, y0, rows, k));
    }
}

/// Skip semantics: skip-if-equal moves `pc` on by two instructions when the
/// condition holds and by one otherwise, with a constant and with a register
/// alike, and skip-if-not-equal does the opposite: one of the two skips, never
/// both.
pub proof fn lemma_skip(m: State, x: int, y: int, val: u8)
    ensures
        m.skip_if_eq(x, val) == if m.v[x] == val {
            m.advance(2)
        } else {
            m.advance(1)
        },
        m.skip_if_neq(x, val) == if m.v[x] == val {
            m.advance(1)
        } else {
            m.advance(2)
        },
        m.skip_if_eq_reg(x, y) == if m.v[x] == m.v[y] {
            m.advance(2)
        } else {
            m.advance(1)
        },
        m.skip_if_neq_reg(x, y) == if m.v[x] == m.v[y] {
            m.advance(1)
        } else {
            m.advance(2)
        },
        m.advance(1) != m.advance(2),
        m.pc + 4 <= u16::MAX ==> m.advance(1).pc == m.pc + 2 && m.advance(2).pc == m.pc + 4,
        (m.skip_if_eq(x, val) == m.advance(2)) <==> (m.skip_if_neq(x, val) == m.advance(1)),
        (m.skip_if_eq_reg(x, y) == m.advance(2)) <==> (m.skip_if_neq_reg(x, y) == m.advance(1)),
{
    assert(m.advance(1).pc != m.advance(2).pc);
}

/// Key skips are opposites too: of skip-if-pressed and skip-if-not-pressed
/// one skips, never both.
pub proof fn lemma_key_skip(m: State, x: int)
    ensures
        (m.skip_if_key(x) == m.advance(2)) <==> (m.skip_if_not_key(x) == m.advance(1)),
        (m.skip_if_key(x) == m.advance(1)) <==> (m.skip_if_not_key(x) == m.advance(2)),
{
    assert(m.advance(1).pc != m.advance(2).pc);
}

/// The random byte matters to the random instruction alone.
pub proof fn lemma_execute_deterministic(m: State, opcode: u16, byte1: u8, byte2: u8)
    requires
        op_family(opcode) != 0xC,
    ensures
        m.execute(opcode, byte1) == m.execute(opcode, byte2),
{
}

/// Forward progress: an opcode that matches no instruction moves `pc` on by
/// one instruction and changes nothing else.
pub proof fn lemma_unknown_opcode_skipped(m: State, opcode: u16, byte: u8)
    requires
        !is_known(opcode),
    ensures
        m.execute(opcode, byte) == m.advance(1),
{
}

/// The invariants, kept folded while the instructions are told apart.
#[verifier::opaque]
spec fn kept(m: State) -> bool {
    m.wf()
}

/// Instructions that write registers keep the invariants.
proof fn lemma_register_ops_wf(m: State, x: int, y: int, val: u8, byte: u8)
    requires
        m.wf(),
        0 <= x < REGISTER_COUNT,
        0 <= y < REGISTER_COUNT,
    ensures
        kept(m.load_const(x, val)),
        kept(m.add_const(x, val)),
        kept(m.rand_and(x, val, byte)),
        kept(m.load_delay(x)),
        kept(m.copy_reg(x, y)),
        kept(m.or_reg(x, y)),
        kept(m.and_reg(x, y)),
        kept(m.xor_reg(x, y)),
        kept(m.add_reg(x, y)),
        kept(m.sub_reg(x, y)),
        kept(m.subn_reg(x, y)),
        kept(m.shr_reg(x)),
        kept(m.shl_reg(x)),
        m.i + x < MEMORY_SIZE ==> kept(m.load_regs(x)),
{
    reveal(kept);
}

/// Instructions that move `pc` or touch the stack keep the invariants.
proof fn lemma_control_ops_wf(m: State, x: int, y: int, val: u8, dst: u16)
    requires
        m.wf(),
    ensures
        kept(m.advance(1)),
        kept(m.jump(dst)),
        kept(m.jump_v0(dst)),
        m.sp < STACK_SIZE ==> kept(m.call(dst)),
        m.sp > 0 ==> kept(m.ret()),
        kept(m.skip_if_eq(x, val)),
        kept(m.skip_if_neq(x, val)),
        kept(m.skip_if_eq_reg(x, y)),
        kept(m.skip_if_neq_reg(x, y)),
        m.v[x] < KEY_COUNT ==> kept(m.skip_if_key(x)),
        m.v[x] < KEY_COUNT ==> kept(m.skip_if_not_key(x)),
{
    reveal(kept);
}

/// Instructions that write memory, `I`, the timers or the mode keep the
/// invariants.
proof fn lemma_memory_ops_wf(m: State, x: int, val: u16)
    requires
        m.wf(),
        0 <= x < REGISTER_COUNT,
    ensures
        kept(m.clear_screen()),
        kept(m.load_index(val)),
        kept(m.add_index(x)),
        m.v[x] <= 0xF ==> kept(m.font_index(x)),
        kept(m.set_delay(x)),
        kept(m.set_sound(x)),
        kept(m.wait_key(x)),
        m.i + 2 < MEMORY_SIZE ==> kept(m.store_bcd(x)),
        m.i + x < MEMORY_SIZE ==> kept(m.store_regs(x)),
{
    reveal(kept);
}

/// Drawing keeps the invariants: a pixel that is XORed stays 0 or 1.
proof fn lemma_draw_wf(m: State, x: int, y: int, rows: int)
    requires
        m.wf(),
    ensures
        kept(m.draw(x, y, rows)),
{
    reveal(kept);
    let after = m.draw(x, y, rows);
    assert forall|k: int| 0 <= k < after.gfx.len() implies after.gfx[k] == 0 || after.gfx[k]
        == 1 by {
        lemma_toggle(m.gfx[k]);
    }
}

/// The invariants of the data model are kept by every instruction that has
/// no fault: the stack pointer never exceeds the stack and pixels stay 0 or
/// 1.
pub proof fn lemma_execute_preserves_wf(m: State, opcode: u16, byte: u8)
    requires
        m.wf(),
        m.fault_of(opcode) is None,
    ensures
        m.execute(opcode, byte).wf(),
{
    let nnn = op_nnn(opcode) as u16;
    let x = op_x(opcode);
    let y = op_y(opcode);
    let kk = op_kk(opcode) as u8;
    lemma_register_ops_wf(m, x, y, kk, byte);
    lemma_control_ops_wf(m, x, y, kk, nnn);
    lemma_memory_ops_wf(m, x, nnn);
    lemma_draw_wf(m, x, y, op_n(opcode));
    assert(kept(m.execute(opcode, byte)));
    reveal(kept);
}

/// The invariants of the data model are kept by every cycle that has no
/// fault.
pub proof fn lemma_step_preserves_wf(m: State, byte: u8)
    requires
        m.wf(),
        m.cycle_fault() is None,
    ensures
        m.step(byte).wf(),
{
    lemma_execute_preserves_wf(m, m.opcode(), byte);
}

/// The invariants of the data model are kept by every key event.
pub proof fn lemma_key_event_preserves_wf(m: State, key: Key, pressed: bool)
    requires
        m.wf(),
    ensures
        m.key_event(key, pressed).wf(),
{
}

/// The invariants of the data model are kept by loading a program, which
/// changes nothing but the memory from the program start on.
pub proof fn lemma_load_preserves_wf(m: State, data: Seq<u8>)
    requires
        m.wf(),
        data.len() <= MAX_PROGRAM_SIZE,
    ensures
        m.load(data).wf(),
        forall|k: int| 0 <= k < 0x200 ==> m.load(data).mem[k] == m.mem[k],
{
}

} // verus!
