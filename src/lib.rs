mod decode;
mod emu;
pub mod laws;
pub mod model;

pub use decode::decode_op;
pub use emu::{outcome, Emu};
pub use model::{EmuError, EmuState, Instr, H, W};
