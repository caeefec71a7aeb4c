//! A verified emulator core for the LC-3 educational computer: a 16-bit
//! machine with eight general registers, a program counter, a condition
//! register and 65,536 words of memory.
pub mod constant;
pub mod instruction;
pub mod cpu;
pub mod engine;
pub mod trap;
pub mod laws;
pub mod image;
