//! Disassembler for Game Boy machine code: decodes the bytes of one operation
//! into a symbolic form and renders it in RGBDS syntax.
pub mod bus;
pub mod decode;
pub mod laws;
pub mod render;
pub mod text;
pub mod types;

pub use bus::{MemoryBus, SimpleBus};
pub use decode::{decode, decode_fetched};
pub use render::{disass, disassemble, next_offset, render};
pub use types::{Mnemonic, Operand, Operation, Preferences};
