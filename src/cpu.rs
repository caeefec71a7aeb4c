use crate::constant::{
    CPU_REGISTER_COUNT, COND, FL_NEG, FL_POS, FL_ZRO, KBDR, KBSR, MEMORY_MAX, PC,
    PROGRAM_COUNTER_START,
};
use std::collections::VecDeque;
use vstd::prelude::*;

verus! {

/// The machine state: register file, memory, and the two character queues
/// that stand for the console (bytes typed and not yet read, bytes written
/// and not yet shown).
pub struct LC3Cpu {
    pub registers: Vec<u16>,
    pub memory: Vec<u16>,
    pub input: VecDeque<u8>,
    pub output: Vec<u8>,
}

/// The mathematical view of a machine.
pub struct Machine {
    pub regs: Seq<u16>,
    pub mem: Seq<u16>,
    pub input: Seq<u8>,
    pub output: Seq<u8>,
}

impl View for LC3Cpu {
    type V = Machine;

    open spec fn view(&self) -> Machine {
        Machine {
            regs: self.registers@,
            mem: self.memory@,
            input: self.input@,
            output: self.output@,
        }
    }
}

impl Machine {
    /// Ten registers and the full address space.
    pub open spec fn wf(self) -> bool {
        &&& self.regs.len() == CPU_REGISTER_COUNT
        &&& self.mem.len() == MEMORY_MAX
    }

    /// The state before any program runs: memory and registers zeroed but
    /// for the condition register at Zero and the program counter at the
    /// start address; nothing typed, nothing written.
    pub open spec fn is_start(self) -> bool {
        &&& self.wf()
        &&& self.mem == Seq::new(MEMORY_MAX as nat, |i: int| 0u16)
        &&& self.regs == Seq::new(CPU_REGISTER_COUNT as nat, |i: int| 0u16).update(
            COND as int,
            FL_ZRO,
        ).update(PC as int, PROGRAM_COUNTER_START)
        &&& self.input.len() == 0
        &&& self.output.len() == 0
    }

    pub open spec fn reg(self, r: int) -> u16 {
        self.regs[r]
    }

    pub open spec fn set_reg(self, r: int, v: u16) -> Machine {
        Machine { regs: self.regs.update(r, v), ..self }
    }

    pub open spec fn set_mem(self, a: int, v: u16) -> Machine {
        Machine { mem: self.mem.update(a, v), ..self }
    }

    /// Recomputes the condition register from register `r`.
    pub open spec fn with_flags(self, r: int) -> Machine {
        self.set_reg(COND as int, flag_of(self.reg(r)))
    }

    /// Polls the keyboard: a waiting byte sets the status bit and lands in
    /// the data register; with none the status bit is cleared.
    pub open spec fn poll(self) -> Machine {
        if self.input.len() > 0 {
            Machine {
                mem: self.mem.update(KBSR as int, 0x8000).update(KBDR as int, self.input[0] as u16),
                input: self.input.drop_first(),
                ..self
            }
        } else {
            self.set_mem(KBSR as int, 0)
        }
    }

    /// The state after a read of address `a`: only the status address polls.
    pub open spec fn after_read(self, a: u16) -> Machine {
        if a == KBSR {
            self.poll()
        } else {
            self
        }
    }

    /// The value a read of address `a` returns.
    pub open spec fn read_value(self, a: u16) -> u16 {
        self.after_read(a).mem[a as int]
    }
}

/// The condition flag that a value sets: zero, negative (bit 15), or positive.
pub open spec fn flag_of(v: u16) -> u16 {
    if v == 0 {
        FL_ZRO
    } else if v >= 0x8000 {
        FL_NEG
    } else {
        FL_POS
    }
}

impl Default for LC3Cpu {
    /// The start state, as `LC3Cpu::new`.
    fn default() -> (r: LC3Cpu)
        ensures
            r@.is_start(),
    {
        LC3Cpu::new()
    }
}

impl LC3Cpu {
    pub open spec fn wf(&self) -> bool {
        self@.wf()
    }

    /// A machine with zeroed memory and registers, the condition register at
    /// Zero, the program counter at the start address, and empty queues.
    pub fn new() -> (r: LC3Cpu)
        ensures
            r@.is_start(),
    {
        let mut registers: Vec<u16> = vec![0u16; CPU_REGISTER_COUNT];
        registers.set(COND as usize, FL_ZRO);
        registers.set(PC as usize, PROGRAM_COUNTER_START);
        let memory: Vec<u16> = vec![0u16; MEMORY_MAX];
        let r = LC3Cpu { registers, memory, input: VecDeque::new(), output: Vec::new() };
        assert(r@.mem =~= Seq::new(MEMORY_MAX as nat, |i: int| 0u16));
        assert(r@.regs =~= Seq::new(CPU_REGISTER_COUNT as nat, |i: int| 0u16).update(
            COND as int,
            FL_ZRO,
        ).update(PC as int, PROGRAM_COUNTER_START));
        r
    }

    /// Sets the condition register from the value of `register`.
    pub fn update_flags(&mut self, register: u16)
        requires
            old(self).wf(),
            register < CPU_REGISTER_COUNT,
        ensures
            final(self)@ == old(self)@.with_flags(register as int),
    {
        let v = self.registers[register as usize];
        if v == 0 {
            self.registers.set(COND as usize, FL_ZRO);
        } else if v >> 15u16 == 1 {
            assert(v >> 15u16 == 1 <==> v >= 0x8000) by (bit_vector);
            self.registers.set(COND as usize, FL_NEG);
        } else {
            assert(v >> 15u16 == 1 <==> v >= 0x8000) by (bit_vector);
            self.registers.set(COND as usize, FL_POS);
        }
    }

    pub(crate) fn handle_keyboard(&mut self)
        requires
            old(self).wf(),
        ensures
            final(self)@ == old(self)@.poll(),
    {
        match self.input.pop_front() {
            Some(b) => {
                self.mem_write(KBSR, 0x8000);
                self.mem_write(KBDR, b as u16);
            },
            None => {
                self.mem_write(KBSR, 0);
            },
        }
    }

    /// Reads a memory cell; a read of the keyboard status address first polls
    /// the keyboard.
    pub fn mem_read(&mut self, address: u16) -> (r: u16)
        requires
            old(self).wf(),
        ensures
            final(self)@ == old(self)@.after_read(address),
            r == old(self)@.read_value(address),
    {
        if address == KBSR {
            self.handle_keyboard();
        }
        self.memory[address as usize]
    }

    /// Stores a value at an address, mapped addresses included.
    pub fn mem_write(&mut self, address: u16, data: u16)
        requires
            old(self).wf(),
        ensures
            final(self)@ == old(self)@.set_mem(address as int, data),
    {
        self.memory.set(address as usize, data);
    }
}

} // verus!

verus! {

impl Machine {
    /// The character that a blocking character read returns: the first
    /// waiting byte, or 0 once input is exhausted.
    pub open spec fn next_char(self) -> u16 {
        if self.input.len() > 0 {
            self.input[0] as u16
        } else {
            0
        }
    }

    /// The state after a blocking character read.
    pub open spec fn after_take(self) -> Machine {
        if self.input.len() > 0 {
            Machine { input: self.input.drop_first(), ..self }
        } else {
            self
        }
    }

    pub open spec fn emit(self, s: Seq<u8>) -> Machine {
        Machine { output: self.output + s, ..self }
    }
}

impl LC3Cpu {
    /// Takes one character from the input, 0 when none is left.
    pub fn take_char(&mut self) -> (r: u16)
        requires
            old(self).wf(),
        ensures
            r == old(self)@.next_char(),
            final(self)@ == old(self)@.after_take(),
    {
        match self.input.pop_front() {
            Some(b) => b as u16,
            None => 0,
        }
    }
}

} // verus!
