use crate::constant::{COND, KBSR, PC, R0, R7};
use crate::cpu::{LC3Cpu, Machine};
use crate::instruction::{
    decode, dr_field, dr_of, imm5, imm5_of, imm_mode, imm_mode_of, jsr_mode, jsr_mode_of, offset11,
    offset11_of, offset6, offset6_of, offset9, offset9_of, sr1_field, sr1_of, sr2_field, sr2_of,
    trap_vector, trap_vector_of, LC3Instruction,
};
use crate::trap::{after_trap, scan_reaches_kbsr, trap_for, trap_outcome, TrapRoutine};
use vstd::prelude::*;

verus! {

/// What the machine does after an instruction: fetch the next one, or stop.
#[derive(Clone, Copy, Debug, PartialEq, Eq, Structural)]
pub enum Flow {
    Continue,
    Halt,
}

/// The fatal conditions: an unused opcode executed, or a trap vector with no
/// routine.
#[derive(Clone, Copy, Debug, PartialEq, Eq, Structural)]
pub enum Fault {
    UnsupportedOpcode(LC3Instruction),
    UnsupportedTrap(u16),
}

/// 16-bit two's-complement addition.
pub open spec fn add16(a: u16, b: u16) -> u16 {
    ((a as int + b as int) % 0x10000) as u16
}

/// Loads register `dr` with what a read of address `a` returns, and sets the
/// flags from it.
pub open spec fn load(m: Machine, dr: int, a: u16) -> Machine {
    m.after_read(a).set_reg(dr, m.read_value(a)).with_flags(dr)
}

/// The state after executing instruction word `w`, the program counter
/// already past it.
pub open spec fn after_execute(m: Machine, w: u16) -> Machine {
    let pc = m.reg(PC as int);
    let dr = dr_field(w);
    let sr1 = sr1_field(w);
    match decode(w) {
        LC3Instruction::ADD => {
            let b = if imm_mode(w) {
                imm5(w)
            } else {
                m.reg(sr2_field(w))
            };
            m.set_reg(dr, add16(m.reg(sr1), b)).with_flags(dr)
        },
        LC3Instruction::AND => {
            let b = if imm_mode(w) {
                imm5(w)
            } else {
                m.reg(sr2_field(w))
            };
            m.set_reg(dr, m.reg(sr1) & b).with_flags(dr)
        },
        LC3Instruction::NOT => m.set_reg(dr, !m.reg(sr1)).with_flags(dr),
        LC3Instruction::BR => {
            if (dr as u16) & m.reg(COND as int) != 0 {
                m.set_reg(PC as int, add16(pc, offset9(w)))
            } else {
                m
            }
        },
        LC3Instruction::JMP => m.set_reg(PC as int, m.reg(sr1)),
        LC3Instruction::JSR => {
            let l = m.set_reg(R7 as int, pc);
            if jsr_mode(w) {
                l.set_reg(PC as int, add16(pc, offset11(w)))
            } else {
                l.set_reg(PC as int, add16(pc, l.reg(sr1)))
            }
        },
        LC3Instruction::LD => load(m, dr, add16(pc, offset9(w))),
        LC3Instruction::LDI => {
            let a = add16(pc, offset9(w));
            load(m.after_read(a), dr, m.read_value(a))
        },
        LC3Instruction::LDR => load(m, dr, add16(m.reg(sr1), offset6(w))),
        LC3Instruction::LEA => m.set_reg(dr, add16(pc, offset9(w))).with_flags(dr),
        LC3Instruction::ST => m.set_mem(add16(pc, offset9(w)) as int, m.reg(dr)),
        LC3Instruction::STI => {
            let a = add16(pc, offset9(w));
            m.after_read(a).set_mem(m.read_value(a) as int, m.reg(dr))
        },
        LC3Instruction::STR => m.set_mem(add16(m.reg(sr1), offset6(w)) as int, m.reg(dr)),
        LC3Instruction::TRAP => after_trap(m, trap_vector(w)),
        LC3Instruction::RTI | LC3Instruction::RES => m,
    }
}

/// What executing instruction word `w` signals.
pub open spec fn execute_outcome(w: u16) -> Result<Flow, Fault> {
    match decode(w) {
        LC3Instruction::TRAP => trap_outcome(trap_vector(w)),
        LC3Instruction::RTI => Err(Fault::UnsupportedOpcode(LC3Instruction::RTI)),
        LC3Instruction::RES => Err(Fault::UnsupportedOpcode(LC3Instruction::RES)),
        _ => Ok(Flow::Continue),
    }
}

/// The word that the next fetch reads.
pub open spec fn fetched_word(m: Machine) -> u16 {
    m.read_value(m.reg(PC as int))
}

/// The state after the fetch: the read done, the program counter advanced.
pub open spec fn fetched(m: Machine) -> Machine {
    m.after_read(m.reg(PC as int)).set_reg(PC as int, add16(m.reg(PC as int), 1))
}

/// The state after one fetch-decode-execute cycle.
#[verifier::opaque]
pub open spec fn after_step(m: Machine) -> Machine {
    after_execute(fetched(m), fetched_word(m))
}

/// What one cycle signals.
#[verifier::opaque]
pub open spec fn step_outcome(m: Machine) -> Result<Flow, Fault> {
    execute_outcome(fetched_word(m))
}

/// The state and signal after at most `n` cycles: the run stops at the first
/// cycle that halts or faults.
pub open spec fn run_spec(m: Machine, n: nat) -> (Machine, Result<Flow, Fault>)
    decreases n,
{
    if n == 0 {
        (m, Ok(Flow::Continue))
    } else if step_outcome(m) == Ok::<Flow, Fault>(Flow::Continue) {
        run_spec(after_step(m), (n - 1) as nat)
    } else {
        (after_step(m), step_outcome(m))
    }
}

/// Whether the next cycle reads the keyboard: by a read of the status
/// address (fetch, load, or string scan) or by a character trap.
pub open spec fn reads_keyboard(m: Machine) -> bool {
    let pc = m.reg(PC as int);
    let w = m.mem[pc as int];
    let npc = add16(pc, 1);
    if pc == KBSR {
        true
    } else {
        match decode(w) {
            LC3Instruction::LD | LC3Instruction::STI => add16(npc, offset9(w)) == KBSR,
            LC3Instruction::LDR => add16(m.reg(sr1_field(w)), offset6(w)) == KBSR,
            LC3Instruction::LDI => {
                let a = add16(npc, offset9(w));
                a == KBSR || m.mem[a as int] == KBSR
            },
            LC3Instruction::TRAP => match trap_for(trap_vector(w)) {
                Some(TrapRoutine::GETC) | Some(TrapRoutine::IN) => true,
                Some(TrapRoutine::PUTS) | Some(TrapRoutine::PUTSP) => scan_reaches_kbsr(
                    m.mem,
                    m.reg(R0 as int) as int,
                ),
                _ => false,
            },
            _ => false,
        }
    }
}

impl LC3Cpu {
    /// Whether the next cycle reads the keyboard, so that a console can
    /// supply a character first.
    pub fn reads_keyboard(&self) -> (r: bool)
        requires
            self.wf(),
        ensures
            r == reads_keyboard(self@),
    {
        let pc = self.registers[PC as usize];
        if pc == KBSR {
            return true;
        }
        let w = self.memory[pc as usize];
        let npc = pc.wrapping_add(1);
        match LC3Instruction::from_bytes(w).unwrap() {
            LC3Instruction::LD | LC3Instruction::STI => npc.wrapping_add(offset9_of(w)) == KBSR,
            LC3Instruction::LDR => {
                let base = self.registers[sr1_of(w) as usize];
                base.wrapping_add(offset6_of(w)) == KBSR
            },
            LC3Instruction::LDI => {
                let a = npc.wrapping_add(offset9_of(w));
                a == KBSR || self.memory[a as usize] == KBSR
            },
            LC3Instruction::TRAP => match TrapRoutine::from_bytes(trap_vector_of(w)) {
                Some(TrapRoutine::GETC) | Some(TrapRoutine::IN) => true,
                Some(TrapRoutine::PUTS) | Some(TrapRoutine::PUTSP) => {
                    let start = self.registers[R0 as usize];
                    self.string_reaches_kbsr(start)
                },
                _ => false,
            },
            _ => false,
        }
    }

    /// Sets register `dr` to `v` and the flags from it.
    fn write_result(&mut self, dr: u16, v: u16)
        requires
            old(self).wf(),
            dr < 8,
        ensures
            final(self)@ == old(self)@.set_reg(dr as int, v).with_flags(dr as int),
    {
        self.registers.set(dr as usize, v);
        self.update_flags(dr);
    }

    /// ADD, AND and NOT.
    fn execute_operate(&mut self, instr: u16)
        requires
            old(self).wf(),
            decode(instr) == LC3Instruction::ADD || decode(instr) == LC3Instruction::AND
                || decode(instr) == LC3Instruction::NOT,
        ensures
            final(self)@ == after_execute(old(self)@, instr),
    {
        let dr = dr_of(instr);
        let sr1 = sr1_of(instr);
        let a = self.registers[sr1 as usize];
        let op = LC3Instruction::from_bytes(instr).unwrap();
        if op == LC3Instruction::NOT {
            self.write_result(dr, !a);
        } else {
            let b = if imm_mode_of(instr) {
                imm5_of(instr)
            } else {
                self.registers[sr2_of(instr) as usize]
            };
            if op == LC3Instruction::ADD {
                self.write_result(dr, a.wrapping_add(b));
            } else {
                self.write_result(dr, a & b);
            }
        }
    }

    /// BR, JMP and JSR.
    fn execute_control(&mut self, instr: u16)
        requires
            old(self).wf(),
            decode(instr) == LC3Instruction::BR || decode(instr) == LC3Instruction::JMP
                || decode(instr) == LC3Instruction::JSR,
        ensures
            final(self)@ == after_execute(old(self)@, instr),
    {
        let pc = self.registers[PC as usize];
        let dr = dr_of(instr);
        let sr1 = sr1_of(instr);
        match LC3Instruction::from_bytes(instr).unwrap() {
            LC3Instruction::BR => {
                if dr & self.registers[COND as usize] != 0 {
                    self.registers.set(PC as usize, pc.wrapping_add(offset9_of(instr)));
                }
            },
            LC3Instruction::JMP => {
                let target = self.registers[sr1 as usize];
                self.registers.set(PC as usize, target);
            },
            _ => {
                self.registers.set(R7 as usize, pc);
                if jsr_mode_of(instr) {
                    self.registers.set(PC as usize, pc.wrapping_add(offset11_of(instr)));
                } else {
                    let base = self.registers[sr1 as usize];
                    self.registers.set(PC as usize, pc.wrapping_add(base));
                }
            },
        }
    }

    /// LD, LDI, LDR and LEA.
    fn execute_load(&mut self, instr: u16)
        requires
            old(self).wf(),
            decode(instr) == LC3Instruction::LD || decode(instr) == LC3Instruction::LDI
                || decode(instr) == LC3Instruction::LDR || decode(instr) == LC3Instruction::LEA,
        ensures
            final(self)@ == after_execute(old(self)@, instr),
    {
        let pc = self.registers[PC as usize];
        let dr = dr_of(instr);
        let sr1 = sr1_of(instr);
        match LC3Instruction::from_bytes(instr).unwrap() {
            LC3Instruction::LD => {
                let v = self.mem_read(pc.wrapping_add(offset9_of(instr)));
                self.write_result(dr, v);
            },
            LC3Instruction::LDI => {
                let p = self.mem_read(pc.wrapping_add(offset9_of(instr)));
                let v = self.mem_read(p);
                self.write_result(dr, v);
            },
            LC3Instruction::LDR => {
                let base = self.registers[sr1 as usize];
                let v = self.mem_read(base.wrapping_add(offset6_of(instr)));
                self.write_result(dr, v);
            },
            _ => {
                self.write_result(dr, pc.wrapping_add(offset9_of(instr)));
            },
        }
    }

    /// ST, STI and STR.
    fn execute_store(&mut self, instr: u16)
        requires
            old(self).wf(),
            decode(instr) == LC3Instruction::ST || decode(instr) == LC3Instruction::STI
                || decode(instr) == LC3Instruction::STR,
        ensures
            final(self)@ == after_execute(old(self)@, instr),
    {
        let pc = self.registers[PC as usize];
        let sr = dr_of(instr);
        let sr1 = sr1_of(instr);
        match LC3Instruction::from_bytes(instr).unwrap() {
            LC3Instruction::ST => {
                let v = self.registers[sr as usize];
                self.mem_write(pc.wrapping_add(offset9_of(instr)), v);
            },
            LC3Instruction::STI => {
                let p = self.mem_read(pc.wrapping_add(offset9_of(instr)));
                let v = self.registers[sr as usize];
                self.mem_write(p, v);
            },
            _ => {
                let base = self.registers[sr1 as usize];
                let v = self.registers[sr as usize];
                self.mem_write(base.wrapping_add(offset6_of(instr)), v);
            },
        }
    }

    /// Executes one instruction word whose fetch is done: the program
    /// counter already points past it.
    pub fn execute(&mut self, instr: u16) -> (r: Result<Flow, Fault>)
        requires
            old(self).wf(),
        ensures
            final(self).wf(),
            final(self)@ == after_execute(old(self)@, instr),
            r == execute_outcome(instr),
    {
        match LC3Instruction::from_bytes(instr).unwrap() {
            LC3Instruction::ADD | LC3Instruction::AND | LC3Instruction::NOT => {
                self.execute_operate(instr);
            },
            LC3Instruction::BR | LC3Instruction::JMP | LC3Instruction::JSR => {
                self.execute_control(instr);
            },
            LC3Instruction::LD | LC3Instruction::LDI | LC3Instruction::LDR
            | LC3Instruction::LEA => {
                self.execute_load(instr);
            },
            LC3Instruction::ST | LC3Instruction::STI | LC3Instruction::STR => {
                self.execute_store(instr);
            },
            LC3Instruction::TRAP => {
                return TrapRoutine::execute(self, trap_vector_of(instr));
            },
            LC3Instruction::RTI => {
                return Err(Fault::UnsupportedOpcode(LC3Instruction::RTI));
            },
            LC3Instruction::RES => {
                return Err(Fault::UnsupportedOpcode(LC3Instruction::RES));
            },
        }
        Ok(Flow::Continue)
    }

    /// One fetch-decode-execute cycle: read the word at the program counter,
    /// advance the counter, then execute the word.
    pub fn step(&mut self) -> (r: Result<Flow, Fault>)
        requires
            old(self).wf(),
        ensures
            final(self).wf(),
            final(self)@ == after_step(old(self)@),
            r == step_outcome(old(self)@),
    {
        proof {
            reveal(after_step);
            reveal(step_outcome);
        }
        let pc = self.registers[PC as usize];
        let instr = self.mem_read(pc);
        self.registers.set(PC as usize, pc.wrapping_add(1));
        self.execute(instr)
    }

    /// Runs up to `max_steps` cycles. Returns `Ok(Flow::Halt)` at a HALT,
    /// the fault at a fatal condition, and `Ok(Flow::Continue)` when the
    /// cycles run out first.
    pub fn run(&mut self, max_steps: u64) -> (r: Result<Flow, Fault>)
        requires
            old(self).wf(),
        ensures
            final(self).wf(),
            (final(self)@, r) == run_spec(old(self)@, max_steps as nat),
    {
        let ghost start = self@;
        let mut i: u64 = 0;
        while i < max_steps
            invariant
                self.wf(),
                i <= max_steps,
                run_spec(self@, (max_steps - i) as nat) == run_spec(start, max_steps as nat),
                start == old(self)@,
            decreases max_steps - i,
        {
            let ghost before = self@;
            let o = self.step();
            assert(run_spec(before, (max_steps - i) as nat) == if o == Ok::<Flow, Fault>(
                Flow::Continue,
            ) {
                run_spec(self@, (max_steps - i - 1) as nat)
            } else {
                (self@, o)
            });
            match o {
                Ok(Flow::Continue) => {},
                _ => {
                    assert(run_spec(start, max_steps as nat) == (self@, o));
                    return o;
                },
            }
            i = i + 1;
        }
        Ok(Flow::Continue)
    }
}

} // verus!
