use crate::constant::{COND, FL_NEG, FL_POS, FL_ZRO, KBSR, MEMORY_MAX, PC, R0};
use crate::cpu::{flag_of, Machine};
use crate::engine::{
    add16, after_execute, after_step, fetched, fetched_word, reads_keyboard, run_spec, step_outcome,
    Fault, Flow,
};
use crate::instruction::{decode, dr_field, field_signed, offset9, trap_vector, LC3Instruction};
use crate::trap::{after_trap, chars_from};
use vstd::arithmetic::power2::lemma2_to64;
use vstd::prelude::*;

verus! {

/// The register whose value an instruction word defines the flags from, if
/// it defines them at all.
pub open spec fn flag_destination(w: u16) -> Option<int> {
    match decode(w) {
        LC3Instruction::ADD | LC3Instruction::AND | LC3Instruction::NOT | LC3Instruction::LD
        | LC3Instruction::LDI | LC3Instruction::LDR | LC3Instruction::LEA => Some(dr_field(w)),
        LC3Instruction::TRAP => if trap_vector(w) == 0x20 || trap_vector(w) == 0x23 {
            Some(R0 as int)
        } else {
            None
        },
        _ => None,
    }
}

/// Exactly one of Positive, Zero and Negative describes a value: Zero for 0,
/// Negative when bit 15 is set, Positive otherwise.
pub proof fn lemma_flag_exactly_one(v: u16)
    ensures
        flag_of(v) == FL_POS || flag_of(v) == FL_ZRO || flag_of(v) == FL_NEG,
        flag_of(v) == FL_ZRO <==> v == 0,
        flag_of(v) == FL_NEG <==> v >= 0x8000,
        flag_of(v) == FL_POS <==> 0 < v < 0x8000,
{
}

/// After every instruction that defines the flags, the condition register
/// holds exactly one flag, the one of the destination register's new value.
pub proof fn lemma_flags_follow_destination(m: Machine, w: u16)
    requires
        m.wf(),
        flag_destination(w) is Some,
    ensures
        ({
            let m2 = after_execute(m, w);
            let d = flag_destination(w).unwrap();
            &&& m2.reg(COND as int) == flag_of(m2.reg(d))
            &&& m2.reg(COND as int) == FL_POS || m2.reg(COND as int) == FL_ZRO || m2.reg(
                COND as int,
            ) == FL_NEG
        }),
{
    let m2 = after_execute(m, w);
    lemma_flag_exactly_one(m2.reg(flag_destination(w).unwrap()));
}

/// A branch is taken exactly when one of its `nzp` bits matches the
/// condition register; taken, it moves the (already incremented) program
/// counter by the sign-extended 9-bit offset; either way nothing else changes.
pub proof fn lemma_branch(m: Machine, w: u16)
    requires
        m.wf(),
        decode(w) == LC3Instruction::BR,
    ensures
        ({
            let m2 = after_execute(m, w);
            let pc = m.reg(PC as int);
            &&& (dr_field(w) as u16) & m.reg(COND as int) != 0 ==> m2.regs == m.regs.update(
                PC as int,
                add16(pc, offset9(w)),
            ) && m2.reg(PC as int) as int == (pc as int + field_signed(w as int % 512, 9))
                % 0x10000
            &&& (dr_field(w) as u16) & m.reg(COND as int) == 0 ==> m2.regs == m.regs
            &&& m2.mem == m.mem
            &&& m2.input == m.input
            &&& m2.output == m.output
        }),
{
    lemma2_to64();
}

/// LDI follows two pointers: with the cell at PC + offset9 holding P and the
/// cell at P holding V, the destination register receives V. Neither read
/// may be of the keyboard status address, whose read polls the keyboard.
pub proof fn lemma_load_indirect(m: Machine, w: u16)
    requires
        m.wf(),
        decode(w) == LC3Instruction::LDI,
        add16(m.reg(PC as int), offset9(w)) != KBSR,
        m.mem[add16(m.reg(PC as int), offset9(w)) as int] != KBSR,
    ensures
        after_execute(m, w).reg(dr_field(w)) == m.mem[m.mem[add16(
            m.reg(PC as int),
            offset9(w),
        ) as int] as int],
{
}

proof fn lemma_chars_from_string(mem: Seq<u16>, a: int, s: Seq<u8>, i: int)
    requires
        mem.len() == MEMORY_MAX,
        0 <= a,
        0 <= i <= s.len(),
        a + s.len() < MEMORY_MAX,
        forall|j: int| 0 <= j < s.len() ==> s[j] != 0 && mem[a + j] == s[j] as u16,
        mem[a + s.len()] == 0,
    ensures
        chars_from(mem, a + i) == s.subrange(i, s.len() as int),
    decreases s.len() - i,
{
    if i < s.len() {
        lemma_chars_from_string(mem, a, s, i + 1);
        assert(s.subrange(i, s.len() as int) =~= seq![s[i]] + s.subrange(i + 1, s.len() as int));
    } else {
        assert(s.subrange(i, s.len() as int) =~= Seq::<u8>::empty());
    }
}

/// A zero-terminated string of character codes stored at R0 comes out of
/// PUTS exactly, without its terminator. The string and its terminator must
/// not cover the keyboard status address.
pub proof fn lemma_puts_round_trip(m: Machine, s: Seq<u8>)
    requires
        m.wf(),
        m.reg(R0 as int) + s.len() < MEMORY_MAX,
        m.reg(R0 as int) + s.len() < KBSR || m.reg(R0 as int) > KBSR,
        forall|j: int|
            0 <= j < s.len() ==> s[j] != 0 && m.mem[m.reg(R0 as int) + j] == s[j] as u16,
        m.mem[m.reg(R0 as int) + s.len()] == 0,
    ensures
        after_trap(m, 0x22).output == m.output + s,
        after_trap(m, 0x22).mem == m.mem,
        after_trap(m, 0x22).regs == m.regs,
{
    let a = m.reg(R0 as int) as int;
    lemma_chars_from_string(m.mem, a, s, 0);
    assert(s.subrange(0, s.len() as int) =~= s);
    if a <= KBSR {
        assert(m.mem[a + s.len()] == 0);
    }
}

/// HALT ends the run at once: the cycle that fetches it signals the stop,
/// keeps every character written so far, and no later instruction runs
/// however many cycles remain.
pub proof fn lemma_halt_stops(m: Machine, n: nat)
    requires
        m.wf(),
        n > 0,
        decode(fetched_word(m)) == LC3Instruction::TRAP,
        trap_vector(fetched_word(m)) == 0x25,
    ensures
        step_outcome(m) == Ok::<Flow, Fault>(Flow::Halt),
        after_step(m) == fetched(m),
        after_step(m).output == m.output,
        run_spec(m, n) == (fetched(m), Ok::<Flow, Fault>(Flow::Halt)),
{
    reveal(after_step);
    reveal(step_outcome);
}

/// Once a run has halted, more cycles change nothing: the halt is signalled
/// once and the state stays as the HALT left it.
pub proof fn lemma_halt_is_final(m: Machine, n: nat, extra: nat)
    requires
        run_spec(m, n).1 == Ok::<Flow, Fault>(Flow::Halt),
    ensures
        run_spec(m, n + extra) == run_spec(m, n),
    decreases n,
{
    if n > 0 && step_outcome(m) == Ok::<Flow, Fault>(Flow::Continue) {
        lemma_halt_is_final(after_step(m), (n - 1) as nat, extra);
        assert((n + extra - 1) as nat == (n - 1) as nat + extra);
    }
}

/// A cycle that does not read the keyboard leaves the waiting input alone,
/// so a console need supply a character only before a cycle that does.
pub proof fn lemma_input_only_when_reading(m: Machine)
    requires
        m.wf(),
        !reads_keyboard(m),
    ensures
        after_step(m).input == m.input,
{
    reveal(after_step);
}

} // verus!
