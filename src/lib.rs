//! Core of an 8-bit LR35902-style processor: register file, flat memory,
//! arithmetic helpers and the fetch/decode/execute engine.
pub mod alu;
pub mod mem;
pub mod regfile;
pub mod cpu;
