use vstd::prelude::*;

verus! {

/// Number of addressable 16-bit memory cells.
pub const MEMORY_MAX: usize = 65536;

/// Number of registers: R0..R7, the program counter and the condition register.
pub const CPU_REGISTER_COUNT: usize = 10;

/// Address of the first instruction when nothing else is known; low memory is
/// left to the trap routines.
pub const PROGRAM_COUNTER_START: u16 = 0x3000;

/// General-purpose registers.
pub const R0: u16 = 0;
pub const R1: u16 = 1;
pub const R2: u16 = 2;
pub const R3: u16 = 3;
pub const R4: u16 = 4;
pub const R5: u16 = 5;
pub const R6: u16 = 6;
pub const R7: u16 = 7;

/// Program counter.
pub const PC: u16 = 8;

/// Condition register.
pub const COND: u16 = 9;

/// Condition flags, stored as the bit set `nzp`.
pub const FL_POS: u16 = 1;
pub const FL_ZRO: u16 = 2;
pub const FL_NEG: u16 = 4;

/// Keyboard status register (memory mapped): bit 15 set when a key is waiting.
pub const KBSR: u16 = 0xFE00;

/// Keyboard data register (memory mapped): the last character read.
pub const KBDR: u16 = 0xFE02;

} // verus!
