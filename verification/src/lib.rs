//! An emulator core for a small teaching computer: a 32-bit word machine with
//! eight general registers, a flat bounds-checked memory, three addressing
//! modes and a compact instruction set, together with the loader for its
//! textual object modules.

pub mod decimal;
pub mod b91;
pub mod vm;
