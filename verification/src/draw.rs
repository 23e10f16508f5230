//! The draw instruction: a sprite is XORed onto the frame buffer.

use vstd::prelude::*;
use crate::machine::Chip8;
use crate::semantics::{flag, sprite_bit};
use crate::state::{
    State, FLAG_REGISTER, MEMORY_SIZE, REGISTER_COUNT, SCREEN_HEIGHT, SCREEN_SIZE, SCREEN_WIDTH,
};

verus! {

/// Whether the sprite hits cell `k` with one of its pixels that come before
/// column `c` of row `r`, rows taken from the top and columns from the left.
spec fn hits_before(m: State, x0: int, y0: int, rows: int, r: int, c: int, k: int) -> bool {
    let x = k % (SCREEN_WIDTH as int);
    let y = k / (SCREEN_WIDTH as int);
    m.sprite_hits(x0, y0, rows, k) && (y - y0 < r || (y - y0 == r && x - x0 < c))
}

/// Whether one of those pixels falls on a lit cell.
spec fn collides_before(m: State, x0: int, y0: int, rows: int, r: int, c: int) -> bool {
    exists|k: int| hits_before(m, x0, y0, rows, r, c, k) && m.gfx[k] == 1
}

/// What the machine is while the sprite is being drawn: the pixels before
/// column `c` of row `r` are XORed onto the frame buffer, and `VF` tells
/// whether one of them fell on a lit cell.
spec fn drawn_before(now: State, m: State, x0: int, y0: int, rows: int, r: int, c: int) -> bool {
    &&& now == (State { gfx: now.gfx, v: now.v, ..m })
    &&& now.v =~= m.v.update(FLAG_REGISTER as int, flag(collides_before(m, x0, y0, rows, r, c)))
    &&& now.gfx.len() == SCREEN_SIZE
    &&& forall|k: int|
        0 <= k < SCREEN_SIZE ==> now.gfx[k] == if hits_before(m, x0, y0, rows, r, c, k) {
            m.gfx[k] ^ 1
        } else {
            m.gfx[k]
        }
}

/// A sprite pixel that is dark or off the screen changes nothing.
proof fn lemma_pixel_skipped(m: State, x0: int, y0: int, rows: int, r: int, c: int)
    requires
        m.wf(),
        0 <= x0,
        0 <= y0,
        0 <= r < rows,
        0 <= c < 8,
        !sprite_bit(m.mem[m.i + r], c as u8) || x0 + c >= SCREEN_WIDTH || y0 + r >= SCREEN_HEIGHT,
    ensures
        forall|k: int|
            #[trigger] hits_before(m, x0, y0, rows, r, c + 1, k) == hits_before(
                m,
                x0,
                y0,
                rows,
                r,
                c,
                k,
            ),
        collides_before(m, x0, y0, rows, r, c + 1) == collides_before(m, x0, y0, rows, r, c),
{
    assert forall|k: int|
        #[trigger] hits_before(m, x0, y0, rows, r, c + 1, k) == hits_before(
            m,
            x0,
            y0,
            rows,
            r,
            c,
            k,
        ) by {
        let x = k % (SCREEN_WIDTH as int);
        let y = k / (SCREEN_WIDTH as int);
        if m.sprite_hits(x0, y0, rows, k) && y - y0 == r && x - x0 == c {
            assert(false);
        }
    }
    if collides_before(m, x0, y0, rows, r, c + 1) {
        let k = choose|k: int| hits_before(m, x0, y0, rows, r, c + 1, k) && m.gfx[k] == 1;
        assert(hits_before(m, x0, y0, rows, r, c, k));
    }
    if collides_before(m, x0, y0, rows, r, c) {
        let k = choose|k: int| hits_before(m, x0, y0, rows, r, c, k) && m.gfx[k] == 1;
        assert(hits_before(m, x0, y0, rows, r, c + 1, k));
    }
}

/// A set sprite pixel on the screen hits exactly its own cell.
proof fn lemma_pixel_drawn(m: State, x0: int, y0: int, rows: int, r: int, c: int)
    requires
        m.wf(),
        0 <= x0,
        0 <= y0,
        0 <= r < rows,
        0 <= c < 8,
        sprite_bit(m.mem[m.i + r], c as u8),
        x0 + c < SCREEN_WIDTH,
        y0 + r < SCREEN_HEIGHT,
    ensures
        forall|k: int|
            #[trigger] hits_before(m, x0, y0, rows, r, c + 1, k) == (hits_before(
                m,
                x0,
                y0,
                rows,
                r,
                c,
                k,
            ) || k == x0 + c + (y0 + r) * SCREEN_WIDTH),
        !hits_before(m, x0, y0, rows, r, c, x0 + c + (y0 + r) * SCREEN_WIDTH),
        collides_before(m, x0, y0, rows, r, c + 1) == (collides_before(m, x0, y0, rows, r, c)
            || m.gfx[x0 + c + (y0 + r) * SCREEN_WIDTH] == 1),
{
    let k0 = x0 + c + (y0 + r) * SCREEN_WIDTH;
    assert(k0 % (SCREEN_WIDTH as int) == x0 + c && k0 / (SCREEN_WIDTH as int) == y0 + r);
    assert(m.sprite_hits(x0, y0, rows, k0));
    assert forall|k: int|
        #[trigger] hits_before(m, x0, y0, rows, r, c + 1, k) == (hits_before(
            m,
            x0,
            y0,
            rows,
            r,
            c,
            k,
        ) || k == k0) by {
        let x = k % (SCREEN_WIDTH as int);
        let y = k / (SCREEN_WIDTH as int);
        if y - y0 == r && x - x0 == c {
            assert(k == k0);
        }
    }
    if collides_before(m, x0, y0, rows, r, c + 1) {
        let k = choose|k: int| hits_before(m, x0, y0, rows, r, c + 1, k) && m.gfx[k] == 1;
        if k != k0 {
            assert(hits_before(m, x0, y0, rows, r, c, k));
        }
    }
    if collides_before(m, x0, y0, rows, r, c) {
        let k = choose|k: int| hits_before(m, x0, y0, rows, r, c, k) && m.gfx[k] == 1;
        assert(hits_before(m, x0, y0, rows, r, c + 1, k));
    }
    if m.gfx[k0] == 1 {
        assert(hits_before(m, x0, y0, rows, r, c + 1, k0));
    }
}

/// The pixels before the end of a row are those before the start of the
/// next.
proof fn lemma_row_done(m: State, x0: int, y0: int, rows: int, r: int)
    ensures
        forall|k: int|
            hits_before(m, x0, y0, rows, r, 8, k) == #[trigger] hits_before(
                m,
                x0,
                y0,
                rows,
                r + 1,
                0,
                k,
            ),
        collides_before(m, x0, y0, rows, r, 8) == collides_before(m, x0, y0, rows, r + 1, 0),
{
    if collides_before(m, x0, y0, rows, r, 8) {
        let k = choose|k: int| hits_before(m, x0, y0, rows, r, 8, k) && m.gfx[k] == 1;
        assert(hits_before(m, x0, y0, rows, r + 1, 0, k));
    }
    if collides_before(m, x0, y0, rows, r + 1, 0) {
        let k = choose|k: int| hits_before(m, x0, y0, rows, r + 1, 0, k) && m.gfx[k] == 1;
        assert(hits_before(m, x0, y0, rows, r, 8, k));
    }
}

/// The pixels before the row after the last are the whole sprite.
proof fn lemma_sprite_done(m: State, x0: int, y0: int, rows: int)
    ensures
        forall|k: int|
            hits_before(m, x0, y0, rows, rows, 0, k) == #[trigger] m.sprite_hits(x0, y0, rows, k),
        collides_before(m, x0, y0, rows, rows, 0) == m.sprite_collides(x0, y0, rows),
{
    if collides_before(m, x0, y0, rows, rows, 0) {
        let k = choose|k: int| hits_before(m, x0, y0, rows, rows, 0, k) && m.gfx[k] == 1;
        assert(m.sprite_hits(x0, y0, rows, k));
    }
    if m.sprite_collides(x0, y0, rows) {
        let k = choose|k: int| m.sprite_hits(x0, y0, rows, k) && m.gfx[k] == 1;
        assert(hits_before(m, x0, y0, rows, rows, 0, k));
    }
}

/// No pixel comes before the first.
proof fn lemma_sprite_start(m: State, x0: int, y0: int, rows: int)
    ensures
        forall|k: int| !hits_before(m, x0, y0, rows, 0, 0, k),
        !collides_before(m, x0, y0, rows, 0, 0),
{
}

impl Chip8 {
    /// Instruction: draw the sprite of `rows` rows that memory holds at `I`
    /// at `(Vx, Vy)`, and set `VF` to 1 if a lit pixel went dark, else to 0.
    pub fn execute_draw(&mut self, vx: usize, vy: usize, rows: u8)
        requires
            vx < REGISTER_COUNT,
            vy < REGISTER_COUNT,
            rows > 0 ==> old(self)@.i + rows <= MEMORY_SIZE,
        ensures
            final(self)@ == old(self)@.draw(vx as int, vy as int, rows as int),
    {
        proof {
            use_type_invariant(&*self);
        }
        let xcoord = self.register(vx) as usize;
        let ycoord = self.register(vy) as usize;
        let base = self.i() as usize;
        let ghost m = old(self)@;

        self.set_register(FLAG_REGISTER, 0);
        proof {
            lemma_sprite_start(m, xcoord as int, ycoord as int, rows as int);
        }
        let mut rowidx: u8 = 0;
        while rowidx < rows
            invariant
                rowidx <= rows,
                m.wf(),
                m == old(self)@,
                base == m.i,
                rows > 0 ==> m.i + rows <= MEMORY_SIZE,
                xcoord < 256,
                ycoord < 256,
                drawn_before(self@, m, xcoord as int, ycoord as int, rows as int, rowidx as int, 0),
            decreases rows - rowidx,
        {
            let spriterow = self.memory(base + rowidx as usize);
            let mut colidx: u8 = 0;
            while colidx < 8
                invariant
                    colidx <= 8,
                    rowidx < rows,
                    m.wf(),
                    base == m.i,
                    m.i + rows <= MEMORY_SIZE,
                    xcoord < 256,
                    ycoord < 256,
                    spriterow == m.mem[m.i + rowidx],
                    drawn_before(
                        self@,
                        m,
                        xcoord as int,
                        ycoord as int,
                        rows as int,
                        rowidx as int,
                        colidx as int,
                    ),
                decreases 8 - colidx,
            {
                let x = xcoord + colidx as usize;
                let y = ycoord + rowidx as usize;
                if spriterow & (0x80u8 >> colidx) != 0 && x < SCREEN_WIDTH && y < SCREEN_HEIGHT {
                    let idx = x + y * SCREEN_WIDTH;
                    proof {
                        lemma_pixel_drawn(
                            m,
                            xcoord as int,
                            ycoord as int,
                            rows as int,
                            rowidx as int,
                            colidx as int,
                        );
                    }
                    let lit = self.pixel(idx) == 1;
                    if lit {
                        self.set_register(FLAG_REGISTER, 1);
                    }
                    self.set_pixel(idx, !lit);
                    proof {
                        let g = m.gfx[idx as int];
                        assert(g ^ 1 == (if g == 1 { 0u8 } else { 1u8 })) by (bit_vector)
                            requires
                                g == 0 || g == 1,
                        ;
                    }
                } else {
                    proof {
                        lemma_pixel_skipped(
                            m,
                            xcoord as int,
                            ycoord as int,
                            rows as int,
                            rowidx as int,
                            colidx as int,
                        );
                    }
                }
                colidx += 1;
            }
            proof {
                lemma_row_done(m, xcoord as int, ycoord as int, rows as int, rowidx as int);
            }
            rowidx += 1;
        }
        proof {
            lemma_sprite_done(m, xcoord as int, ycoord as int, rows as int);
        }
        self.set_gfx_update(true);
        self.advance_pc(1);
    }
}

} // verus!
