//! Presenting the frame buffer: one filled square per pixel.

use vstd::prelude::*;
use crate::machine::Chip8;
use crate::state::{State, SCREEN_HEIGHT, SCREEN_SIZE, SCREEN_WIDTH};

verus! {

/// Side of the square that stands for one pixel, in units of the host's
/// surface.
pub const PIXEL_SIZE: u16 = 8;

/// A colour as red, green and blue.
#[derive(Clone, Copy, Debug, PartialEq, Eq, Structural)]
pub struct Rgb {
    pub r: u8,
    pub g: u8,
    pub b: u8,
}

/// A square to fill on the host's surface.
#[derive(Clone, Copy, Debug, PartialEq, Eq, Structural)]
pub struct PixelRect {
    pub x: i16,
    pub y: i16,
    pub w: u16,
    pub h: u16,
    pub color: Rgb,
}

/// The colour of a lit pixel.
pub open spec fn white() -> Rgb {
    Rgb { r: 0xFF, g: 0xFF, b: 0xFF }
}

/// The colour of a dark pixel.
pub open spec fn black() -> Rgb {
    Rgb { r: 0, g: 0, b: 0 }
}

impl State {
    /// The square that presents frame buffer cell `k`: pixel `(x, y)` fills
    /// the square of side `PIXEL_SIZE` at `(x * PIXEL_SIZE, y * PIXEL_SIZE)`,
    /// white if it is lit and black if it is dark.
    pub open spec fn pixel_rect(self, k: int) -> PixelRect {
        PixelRect {
            x: ((k % (SCREEN_WIDTH as int)) * PIXEL_SIZE) as i16,
            y: ((k / (SCREEN_WIDTH as int)) * PIXEL_SIZE) as i16,
            w: PIXEL_SIZE,
            h: PIXEL_SIZE,
            color: if self.gfx[k] == 1 {
                white()
            } else {
                black()
            },
        }
    }

    /// The squares that present the whole frame buffer, row by row.
    pub open spec fn screen_rects(self) -> Seq<PixelRect> {
        Seq::new(SCREEN_SIZE as nat, |k: int| self.pixel_rect(k))
    }
}

impl Chip8 {
    /// The squares to fill, in this order, to present the frame buffer.
    pub fn draw_screen(&self) -> (rects: Vec<PixelRect>)
        ensures
            rects@ == self@.screen_rects(),
    {
        let mut rects: Vec<PixelRect> = Vec::new();
        let mut row: usize = 0;
        while row < SCREEN_HEIGHT
            invariant
                row <= SCREEN_HEIGHT,
                rects@.len() == row * SCREEN_WIDTH,
                forall|k: int| 0 <= k < rects@.len() ==> rects@[k] == self@.pixel_rect(k),
            decreases SCREEN_HEIGHT - row,
        {
            let mut col: usize = 0;
            while col < SCREEN_WIDTH
                invariant
                    col <= SCREEN_WIDTH,
                    row < SCREEN_HEIGHT,
                    rects@.len() == row * SCREEN_WIDTH + col,
                    forall|k: int| 0 <= k < rects@.len() ==> rects@[k] == self@.pixel_rect(k),
                decreases SCREEN_WIDTH - col,
            {
                let lit = self.pixel(col + row * SCREEN_WIDTH) == 1;
                let color = if lit {
                    Rgb { r: 0xFF, g: 0xFF, b: 0xFF }
                } else {
                    Rgb { r: 0, g: 0, b: 0 }
                };
                let ghost k = col + row * SCREEN_WIDTH;
                assert(k % (SCREEN_WIDTH as int) == col && k / (SCREEN_WIDTH as int) == row);
                rects.push(
                    PixelRect {
                        x: (col as i16) * (PIXEL_SIZE as i16),
                        y: (row as i16) * (PIXEL_SIZE as i16),
                        w: PIXEL_SIZE,
                        h: PIXEL_SIZE,
                        color,
                    },
                );
                col += 1;
            }
            row += 1;
        }
        rects
    }

    /// Says whether the frame buffer changed since it was last presented, and
    /// marks it as presented.
    pub fn take_gfx_update(&mut self) -> (dirty: bool)
        ensures
            dirty == old(self)@.gfx_update,
            final(self)@ == (State { gfx_update: false, ..old(self)@ }),
    {
        let dirty = self.gfx_update();
        self.set_gfx_update(false);
        dirty
    }
}

} // verus!
