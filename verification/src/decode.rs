//! The instruction decoder: the operand fields of a 16-bit opcode.

use vstd::prelude::*;

verus! {

/// The highest nibble of an opcode, which selects the instruction family.
pub open spec fn op_family(opcode: u16) -> int {
    opcode as int / 0x1000
}

/// The 12-bit address field `nnn`: the lowest three nibbles.
pub open spec fn op_nnn(opcode: u16) -> int {
    opcode as int % 0x1000
}

/// The register index `x`: bits 8 to 11.
pub open spec fn op_x(opcode: u16) -> int {
    (opcode as int / 0x100) % 0x10
}

/// The register index `y`: bits 4 to 7.
pub open spec fn op_y(opcode: u16) -> int {
    (opcode as int / 0x10) % 0x10
}

/// The 8-bit immediate `kk`: the low byte.
pub open spec fn op_kk(opcode: u16) -> int {
    opcode as int % 0x100
}

/// The 4-bit immediate `n`: the lowest nibble.
pub open spec fn op_n(opcode: u16) -> int {
    opcode as int % 0x10
}

/// Whether an opcode matches one of the defined instruction patterns.
pub open spec fn is_known(opcode: u16) -> bool {
    let family = op_family(opcode);
    let kk = op_kk(opcode);
    let n = op_n(opcode);
    if family == 0 {
        opcode == 0x00E0 || opcode == 0x00EE
    } else if family == 8 {
        n <= 7 || n == 0xE
    } else if family == 0xE {
        kk == 0x9E || kk == 0xA1
    } else if family == 0xF {
        kk == 0x07 || kk == 0x0A || kk == 0x15 || kk == 0x18 || kk == 0x1E || kk == 0x29 || kk
            == 0x33 || kk == 0x55 || kk == 0x65
    } else {
        true
    }
}

/// The operand fields of one opcode.
#[derive(Clone, Copy, Debug, PartialEq, Eq, Structural)]
pub struct Operands {
    /// The instruction family, `0x0` to `0xF`.
    pub family: u8,
    /// The address field.
    pub nnn: u16,
    /// The first register index.
    pub x: usize,
    /// The second register index.
    pub y: usize,
    /// The low byte.
    pub kk: u8,
    /// The lowest nibble.
    pub n: u8,
}

/// Splits an opcode into its operand fields.
pub fn decode(opcode: u16) -> (f: Operands)
    ensures
        f.family == op_family(opcode),
        f.nnn == op_nnn(opcode),
        f.x == op_x(opcode),
        f.y == op_y(opcode),
        f.kk == op_kk(opcode),
        f.n == op_n(opcode),
        f.family < 16,
        f.nnn < 0x1000,
        f.x < 16,
        f.y < 16,
        f.n < 16,
{
    let family: u16 = (opcode & 0xF000) >> 12;
    let nnn: u16 = opcode & 0x0FFF;
    let x: u16 = (opcode & 0x0F00) >> 8;
    let y: u16 = (opcode & 0x00F0) >> 4;
    let kk: u16 = opcode & 0xFF;
    let n: u16 = opcode & 0xF;
    assert((opcode & 0xF000) >> 12 == opcode / 0x1000) by (bit_vector);
    assert(opcode & 0x0FFF == opcode % 0x1000) by (bit_vector);
    assert((opcode & 0x0F00) >> 8 == (opcode / 0x100) % 0x10) by (bit_vector);
    assert((opcode & 0x00F0) >> 4 == (opcode / 0x10) % 0x10) by (bit_vector);
    assert(opcode & 0xFF == opcode % 0x100) by (bit_vector);
    assert(opcode & 0xF == opcode % 0x10) by (bit_vector);
    Operands {
        family: family as u8,
        nnn,
        x: x as usize,
        y: y as usize,
        kk: kk as u8,
        n: n as u8,
    }
}

/// Whether an opcode matches one of the defined instruction patterns.
pub fn opcode_is_known(opcode: u16) -> (known: bool)
    ensures
        known == is_known(opcode),
{
    let f = decode(opcode);
    if f.family == 0 {
        opcode == 0x00E0 || opcode == 0x00EE
    } else if f.family == 8 {
        f.n <= 7 || f.n == 0xE
    } else if f.family == 0xE {
        f.kk == 0x9E || f.kk == 0xA1
    } else if f.family == 0xF {
        f.kk == 0x07 || f.kk == 0x0A || f.kk == 0x15 || f.kk == 0x18 || f.kk == 0x1E || f.kk
            == 0x29 || f.kk == 0x33 || f.kk == 0x55 || f.kk == 0x65
    } else {
        true
    }
}

} // verus!
