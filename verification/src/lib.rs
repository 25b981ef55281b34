//! A multi-pass assembler core for the MOS 6502, producing Commodore-style
//! `.prg` images: a two-byte little-endian load address followed by the
//! assembled byte stream.

pub mod assembler;
pub mod errors;
pub mod instructions;
pub mod laws;
pub mod opcodes;
pub mod pseudo;
pub mod symbols;
pub mod target;
pub mod utility;
