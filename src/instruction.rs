use vstd::arithmetic::power2::{lemma2_to64, pow2};
use vstd::bits::{lemma_u16_pow2_no_overflow, lemma_u16_shl_is_mul};
use vstd::prelude::*;

verus! {

/// The sixteen operations of the instruction set, one per 4-bit opcode.
#[derive(Clone, Copy, Debug, PartialEq, Eq, Structural)]
pub enum LC3Instruction {
    ADD,
    AND,
    BR,
    LD,
    ST,
    JSR,
    LDR,
    STR,
    RTI,
    NOT,
    LDI,
    STI,
    JMP,
    RES,
    LEA,
    TRAP,
}

/// The opcode of an instruction word: its top four bits.
pub open spec fn opcode(word: u16) -> int {
    word as int / 4096
}

/// The decoding table, keyed by the 4-bit opcode.
pub open spec fn instruction_for(op: int) -> LC3Instruction {
    if op == 0 {
        LC3Instruction::BR
    } else if op == 1 {
        LC3Instruction::ADD
    } else if op == 2 {
        LC3Instruction::LD
    } else if op == 3 {
        LC3Instruction::ST
    } else if op == 4 {
        LC3Instruction::JSR
    } else if op == 5 {
        LC3Instruction::AND
    } else if op == 6 {
        LC3Instruction::LDR
    } else if op == 7 {
        LC3Instruction::STR
    } else if op == 8 {
        LC3Instruction::RTI
    } else if op == 9 {
        LC3Instruction::NOT
    } else if op == 10 {
        LC3Instruction::LDI
    } else if op == 11 {
        LC3Instruction::STI
    } else if op == 12 {
        LC3Instruction::JMP
    } else if op == 13 {
        LC3Instruction::RES
    } else if op == 14 {
        LC3Instruction::LEA
    } else {
        LC3Instruction::TRAP
    }
}

/// The operation that an instruction word encodes.
pub open spec fn decode(word: u16) -> LC3Instruction {
    instruction_for(opcode(word))
}

impl LC3Instruction {
    /// Decodes an instruction word by its top four bits. Every word decodes.
    pub fn from_bytes(instruction_bytes: u16) -> (r: Option<Self>)
        ensures
            r == Some(decode(instruction_bytes)),
    {
        let opcode: u16 = instruction_bytes >> 12u16;
        assert(instruction_bytes >> 12u16 == instruction_bytes / 4096) by (bit_vector);
        Some(
            match opcode {
                0 => LC3Instruction::BR,
                1 => LC3Instruction::ADD,
                2 => LC3Instruction::LD,
                3 => LC3Instruction::ST,
                4 => LC3Instruction::JSR,
                5 => LC3Instruction::AND,
                6 => LC3Instruction::LDR,
                7 => LC3Instruction::STR,
                8 => LC3Instruction::RTI,
                9 => LC3Instruction::NOT,
                10 => LC3Instruction::LDI,
                11 => LC3Instruction::STI,
                12 => LC3Instruction::JMP,
                13 => LC3Instruction::RES,
                14 => LC3Instruction::LEA,
                _ => LC3Instruction::TRAP,
            },
        )
    }
}

/// A 16-bit word read as a two's-complement number.
pub open spec fn signed16(v: u16) -> int {
    if v < 0x8000 {
        v as int
    } else {
        v as int - 0x10000
    }
}

/// An `n`-bit field `x` read as a two's-complement number.
pub open spec fn field_signed(x: int, n: nat) -> int {
    if x < pow2((n - 1) as nat) {
        x
    } else {
        x - pow2(n)
    }
}

/// The 16-bit word whose two's-complement value is that of the `n`-bit
/// field `x`.
pub open spec fn extend(x: int, n: nat) -> u16 {
    if x < pow2((n - 1) as nat) {
        x as u16
    } else {
        (x + 0x10000 - pow2(n)) as u16
    }
}

/// Widens the `bit_count`-bit two's-complement field `x` to 16 bits by
/// copying its sign bit into every higher bit.
pub fn sign_extend(x: u16, bit_count: i32) -> (r: u16)
    requires
        1 <= bit_count <= 15,
        (x as int) < pow2(bit_count as nat),
    ensures
        signed16(r) == field_signed(x as int, bit_count as nat),
        r == extend(x as int, bit_count as nat),
{
    let n: u16 = bit_count as u16;
    proof {
        lemma_u16_pow2_no_overflow(n as nat);
        lemma_u16_pow2_no_overflow((n - 1) as nat);
        lemma_u16_shl_is_mul(1, n);
        lemma_u16_shl_is_mul(1, (n - 1) as u16);
        assert(1 <= n <= 15 && x < (1u16 << n) ==> (((x >> (n - 1) as u16) & 1 == 1) == (x >= (
        1u16 << (n - 1) as u16)))) by (bit_vector);
        assert(1 <= n <= 15 ==> (1u16 << (n - 1) as u16) <= 0x4000) by (bit_vector);
        assert(1 <= n <= 15 && x < (1u16 << n) && x >= (1u16 << (n - 1) as u16) ==> (x | (0xFFFFu16
            << n)) >= 0x8000 && (x | (0xFFFFu16 << n)) + (1u16 << n) == x + 0x10000)
            by (bit_vector);
    }
    let mut r = x;
    if (x >> (n - 1)) & 1 == 1 {
        r = x | (0xFFFFu16 << n);
    }
    r
}


/// Bits 11..9: the destination or source register, or BR's `nzp` bits.
pub open spec fn dr_field(w: u16) -> int {
    (w as int / 512) % 8
}

/// Bits 8..6: the first source or base register.
pub open spec fn sr1_field(w: u16) -> int {
    (w as int / 64) % 8
}

/// Bits 2..0: the second source register.
pub open spec fn sr2_field(w: u16) -> int {
    w as int % 8
}

/// Bit 5: ADD and AND take an immediate operand.
pub open spec fn imm_mode(w: u16) -> bool {
    (w as int / 32) % 2 == 1
}

/// Bit 11: JSR takes a PC-relative offset rather than a base register.
pub open spec fn jsr_mode(w: u16) -> bool {
    (w as int / 2048) % 2 == 1
}

pub open spec fn imm5(w: u16) -> u16 {
    extend(w as int % 32, 5)
}

pub open spec fn offset6(w: u16) -> u16 {
    extend(w as int % 64, 6)
}

pub open spec fn offset9(w: u16) -> u16 {
    extend(w as int % 512, 9)
}

pub open spec fn offset11(w: u16) -> u16 {
    extend(w as int % 2048, 11)
}

/// Bits 7..0: the trap vector.
pub open spec fn trap_vector(w: u16) -> u16 {
    (w as int % 256) as u16
}

pub fn dr_of(w: u16) -> (r: u16)
    ensures
        r as int == dr_field(w),
        r < 8,
{
    assert((w >> 9u16) & 7 == (w / 512) % 8) by (bit_vector);
    (w >> 9u16) & 7
}

pub fn sr1_of(w: u16) -> (r: u16)
    ensures
        r as int == sr1_field(w),
        r < 8,
{
    assert((w >> 6u16) & 7 == (w / 64) % 8) by (bit_vector);
    (w >> 6u16) & 7
}

pub fn sr2_of(w: u16) -> (r: u16)
    ensures
        r as int == sr2_field(w),
        r < 8,
{
    assert(w & 7 == w % 8) by (bit_vector);
    w & 7
}

pub fn imm_mode_of(w: u16) -> (r: bool)
    ensures
        r == imm_mode(w),
{
    assert((w >> 5u16) & 1 == (w / 32) % 2) by (bit_vector);
    (w >> 5u16) & 1 == 1
}

pub fn jsr_mode_of(w: u16) -> (r: bool)
    ensures
        r == jsr_mode(w),
{
    assert((w >> 11u16) & 1 == (w / 2048) % 2) by (bit_vector);
    (w >> 11u16) & 1 == 1
}

pub fn imm5_of(w: u16) -> (r: u16)
    ensures
        r == imm5(w),
{
    assert(w & 0x1F == w % 32) by (bit_vector);
    proof {
        lemma2_to64();
    }
    sign_extend(w & 0x1F, 5)
}

pub fn offset6_of(w: u16) -> (r: u16)
    ensures
        r == offset6(w),
{
    assert(w & 0x3F == w % 64) by (bit_vector);
    proof {
        lemma2_to64();
    }
    sign_extend(w & 0x3F, 6)
}

pub fn offset9_of(w: u16) -> (r: u16)
    ensures
        r == offset9(w),
{
    assert(w & 0x1FF == w % 512) by (bit_vector);
    proof {
        lemma2_to64();
    }
    sign_extend(w & 0x1FF, 9)
}

pub fn offset11_of(w: u16) -> (r: u16)
    ensures
        r == offset11(w),
{
    assert(w & 0x7FF == w % 2048) by (bit_vector);
    proof {
        lemma2_to64();
    }
    sign_extend(w & 0x7FF, 11)
}

pub fn trap_vector_of(w: u16) -> (r: u16)
    ensures
        r == trap_vector(w),
{
    assert(w & 0xFF == w % 256) by (bit_vector);
    w & 0xFF
}

} // verus!
