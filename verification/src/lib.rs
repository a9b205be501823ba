//! A verified core for an 8-bit CPU emulator: a register file with packed
//! status flags and 16-bit register-pair views, a flat byte-addressable
//! memory, a closed decoded instruction set, and the fetch-decode-execute
//! engine that drives a program counter until a halt instruction.

pub mod cpu;
pub mod registers;
