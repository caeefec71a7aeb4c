use crate::constant::{KBSR, MEMORY_MAX, R0};
use crate::cpu::{LC3Cpu, Machine};
use crate::engine::{Fault, Flow};
use vstd::prelude::*;

verus! {

/// The routines that the TRAP instruction reaches, by vector 0x20 to 0x25.
#[derive(Clone, Copy, Debug, PartialEq, Eq, Structural)]
pub enum TrapRoutine {
    GETC,
    OUT,
    PUTS,
    IN,
    PUTSP,
    HALT,
}

/// The routine of a trap vector, if it has one.
pub open spec fn trap_for(code: u16) -> Option<TrapRoutine> {
    if code == 0x20 {
        Some(TrapRoutine::GETC)
    } else if code == 0x21 {
        Some(TrapRoutine::OUT)
    } else if code == 0x22 {
        Some(TrapRoutine::PUTS)
    } else if code == 0x23 {
        Some(TrapRoutine::IN)
    } else if code == 0x24 {
        Some(TrapRoutine::PUTSP)
    } else if code == 0x25 {
        Some(TrapRoutine::HALT)
    } else {
        None
    }
}

/// The characters of the zero-terminated string at `a`, one per cell (its low
/// byte), up to the terminator or the end of memory.
pub open spec fn chars_from(mem: Seq<u16>, a: int) -> Seq<u8>
    decreases MEMORY_MAX - a,
{
    if a < 0 || a >= MEMORY_MAX || mem[a] == 0 {
        Seq::empty()
    } else {
        seq![mem[a] as u8] + chars_from(mem, a + 1)
    }
}

/// The characters of one packed cell: low byte, then high byte unless it is 0.
pub open spec fn packed_pair(w: u16) -> Seq<u8> {
    if w / 256 == 0 {
        seq![(w % 256) as u8]
    } else {
        seq![(w % 256) as u8, (w / 256) as u8]
    }
}

/// The characters of the zero-terminated packed string at `a`.
pub open spec fn packed_chars_from(mem: Seq<u16>, a: int) -> Seq<u8>
    decreases MEMORY_MAX - a,
{
    if a < 0 || a >= MEMORY_MAX || mem[a] == 0 {
        Seq::empty()
    } else {
        packed_pair(mem[a]) + packed_chars_from(mem, a + 1)
    }
}

/// Whether a string scan from `a` reads the keyboard status address: every
/// cell before it is non-zero.
pub open spec fn scan_reaches_kbsr(mem: Seq<u16>, a: int) -> bool {
    a <= KBSR && forall|j: int| a <= j < KBSR ==> mem[j] != 0
}

/// The state once a string scan from R0 has done its reads: the keyboard is
/// polled if the scan gets to the status address. Cells before that address
/// are unaffected, so the scan sees this memory throughout.
pub open spec fn scanned(m: Machine) -> Machine {
    if scan_reaches_kbsr(m.mem, m.reg(R0 as int) as int) {
        m.poll()
    } else {
        m
    }
}

/// The state after a trap routine.
pub open spec fn after_routine(m: Machine, t: TrapRoutine) -> Machine {
    match t {
        TrapRoutine::GETC => m.after_take().set_reg(R0 as int, m.next_char()).with_flags(R0 as int),
        TrapRoutine::IN => {
            let echo = if m.input.len() > 0 {
                seq![m.next_char() as u8]
            } else {
                Seq::empty()
            };
            m.after_take().emit(echo).set_reg(R0 as int, m.next_char()).with_flags(R0 as int)
        },
        TrapRoutine::OUT => m.emit(seq![m.reg(R0 as int) as u8]),
        TrapRoutine::PUTS => {
            let s = scanned(m);
            s.emit(chars_from(s.mem, m.reg(R0 as int) as int))
        },
        TrapRoutine::PUTSP => {
            let s = scanned(m);
            s.emit(packed_chars_from(s.mem, m.reg(R0 as int) as int))
        },
        TrapRoutine::HALT => m,
    }
}

/// The state after TRAP with vector `code`.
pub open spec fn after_trap(m: Machine, code: u16) -> Machine {
    match trap_for(code) {
        Some(t) => after_routine(m, t),
        None => m,
    }
}

/// What TRAP with vector `code` signals.
pub open spec fn trap_outcome(code: u16) -> Result<Flow, Fault> {
    match trap_for(code) {
        Some(TrapRoutine::HALT) => Ok(Flow::Halt),
        Some(_) => Ok(Flow::Continue),
        None => Err(Fault::UnsupportedTrap(code)),
    }
}

impl LC3Cpu {
    /// Whether a string scan from `start` reads the keyboard status address.
    pub(crate) fn string_reaches_kbsr(&self, start: u16) -> (r: bool)
        requires
            self.wf(),
        ensures
            r == scan_reaches_kbsr(self@.mem, start as int),
    {
        if start > KBSR {
            return false;
        }
        let mut a: u16 = start;
        while a < KBSR
            invariant
                self.wf(),
                start <= a <= KBSR,
                forall|j: int| start <= j < a ==> self@.mem[j] != 0,
            decreases KBSR - a,
        {
            if self.memory[a as usize] == 0 {
                return false;
            }
            a = a + 1;
        }
        true
    }

    /// Writes the zero-terminated string at R0, one character per cell.
    fn put_string(&mut self)
        requires
            old(self).wf(),
        ensures
            final(self)@ == after_routine(old(self)@, TrapRoutine::PUTS),
    {
        let start = self.registers[R0 as usize];
        if self.string_reaches_kbsr(start) {
            self.handle_keyboard();
        }
        let ghost s = self@;
        let mut i: usize = start as usize;
        while i < MEMORY_MAX && self.memory[i] != 0
            invariant
                self.wf(),
                self@.mem == s.mem,
                self@.regs == s.regs,
                self@.input == s.input,
                start <= i <= MEMORY_MAX,
                s.output + chars_from(s.mem, start as int) == self@.output + chars_from(s.mem, i as int),
            decreases MEMORY_MAX - i,
        {
            let c = self.memory[i];
            let ghost before = self@.output;
            self.output.push(#[verifier::truncate] (c as u8));
            proof {
                assert(chars_from(s.mem, i as int) == seq![c as u8] + chars_from(s.mem, i + 1));
                assert(before + chars_from(s.mem, i as int) =~= self@.output + chars_from(s.mem, i + 1));
            }
            i = i + 1;
        }
        assert(chars_from(s.mem, i as int) =~= Seq::<u8>::empty());
        assert(self@ =~= s.emit(chars_from(s.mem, start as int)));
    }

    /// Writes the zero-terminated packed string at R0, two characters per cell.
    fn put_packed_string(&mut self)
        requires
            old(self).wf(),
        ensures
            final(self)@ == after_routine(old(self)@, TrapRoutine::PUTSP),
    {
        let start = self.registers[R0 as usize];
        if self.string_reaches_kbsr(start) {
            self.handle_keyboard();
        }
        let ghost s = self@;
        let mut i: usize = start as usize;
        while i < MEMORY_MAX && self.memory[i] != 0
            invariant
                self.wf(),
                self@.mem == s.mem,
                self@.regs == s.regs,
                self@.input == s.input,
                start <= i <= MEMORY_MAX,
                s.output + packed_chars_from(s.mem, start as int) == self@.output
                    + packed_chars_from(s.mem, i as int),
            decreases MEMORY_MAX - i,
        {
            let c = self.memory[i];
            let ghost before = self@.output;
            let lo = #[verifier::truncate] ((c & 0xFF) as u8);
            let hi = #[verifier::truncate] ((c >> 8u16) as u8);
            assert(c & 0xFF == c % 256) by (bit_vector);
            assert(c >> 8u16 == c / 256) by (bit_vector);
            self.output.push(lo);
            if hi != 0 {
                self.output.push(hi);
            }
            proof {
                assert(packed_chars_from(s.mem, i as int) == packed_pair(c) + packed_chars_from(
                    s.mem,
                    i + 1,
                ));
                assert(self@.output =~= before + packed_pair(c));
                assert(before + packed_chars_from(s.mem, i as int) =~= self@.output
                    + packed_chars_from(s.mem, i + 1));
            }
            i = i + 1;
        }
        assert(packed_chars_from(s.mem, i as int) =~= Seq::<u8>::empty());
        assert(self@ =~= s.emit(packed_chars_from(s.mem, start as int)));
    }
}

impl TrapRoutine {
    /// The routine of a trap vector; `None` for a vector with no routine.
    pub fn from_bytes(trap_code_bytes: u16) -> (r: Option<Self>)
        ensures
            r == trap_for(trap_code_bytes),
    {
        match trap_code_bytes {
            0x20 => Some(TrapRoutine::GETC),
            0x21 => Some(TrapRoutine::OUT),
            0x22 => Some(TrapRoutine::PUTS),
            0x23 => Some(TrapRoutine::IN),
            0x24 => Some(TrapRoutine::PUTSP),
            0x25 => Some(TrapRoutine::HALT),
            _ => None,
        }
    }

    /// Runs the routine of trap vector `trap_code_bytes` against the machine.
    /// HALT changes nothing and signals the stop; a vector with no routine is
    /// a fault and changes nothing.
    pub fn execute(cpu: &mut LC3Cpu, trap_code_bytes: u16) -> (r: Result<Flow, Fault>)
        requires
            old(cpu).wf(),
        ensures
            final(cpu)@ == after_trap(old(cpu)@, trap_code_bytes),
            r == trap_outcome(trap_code_bytes),
    {
        match TrapRoutine::from_bytes(trap_code_bytes) {
            Some(TrapRoutine::GETC) => {
                let c = cpu.take_char();
                cpu.registers.set(R0 as usize, c);
                cpu.update_flags(R0);
                Ok(Flow::Continue)
            },
            Some(TrapRoutine::IN) => {
                let had = cpu.input.len() > 0;
                let c = cpu.take_char();
                if had {
                    cpu.output.push(#[verifier::truncate] (c as u8));
                }
                cpu.registers.set(R0 as usize, c);
                cpu.update_flags(R0);
                proof {
                    let m = old(cpu)@;
                    let echo = if m.input.len() > 0 {
                        seq![m.next_char() as u8]
                    } else {
                        Seq::empty()
                    };
                    assert(cpu@.output =~= m.output + echo);
                }
                Ok(Flow::Continue)
            },
            Some(TrapRoutine::OUT) => {
                let c = #[verifier::truncate] (cpu.registers[R0 as usize] as u8);
                cpu.output.push(c);
                assert(cpu@.output =~= old(cpu)@.output + seq![c]);
                Ok(Flow::Continue)
            },
            Some(TrapRoutine::PUTS) => {
                cpu.put_string();
                Ok(Flow::Continue)
            },
            Some(TrapRoutine::PUTSP) => {
                cpu.put_packed_string();
                Ok(Flow::Continue)
            },
            Some(TrapRoutine::HALT) => Ok(Flow::Halt),
            None => Err(Fault::UnsupportedTrap(trap_code_bytes)),
        }
    }
}

} // verus!
