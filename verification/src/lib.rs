//! The processor core of a Game Boy style emulator: the register file
//! (the accumulator/flags pair and the three general purpose pairs), a flat
//! 64 KiB memory bus, the single instructions, and the fetch/decode/execute
//! step that ties them together.

pub mod bus;
pub mod registers;
pub mod cpu;
pub mod laws;
pub mod effects;
