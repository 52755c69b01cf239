//! A verified emulator core for a 16-bit machine with eight general registers,
//! a 64K-word memory with memory-mapped keyboard registers, sixteen opcodes and
//! trap-based console calls.

pub mod image;
pub mod instruction;
pub mod register;
pub mod trap;
pub mod vm;
