//! A CHIP-8 virtual machine whose instruction semantics are stated over a
//! mathematical model of the machine and proved of the executable engine.

pub mod state;
pub mod cycle;
pub mod decode;
pub mod draw;
pub mod instructions;
pub mod keypad;
pub mod laws;
pub mod machine;
pub mod screen;
pub mod random;
pub mod semantics;

pub use crate::cycle::frame_delay_ms;
pub use crate::decode::{decode, opcode_is_known, Operands};
pub use crate::keypad::{Control, HostEvent, Key};
pub use crate::machine::Chip8;
pub use crate::screen::{PixelRect, Rgb};
pub use crate::semantics::{Fault, Step};
pub use crate::state::{Mode, State};
