use lc3_vm::constant::{
    COND, FL_NEG, FL_POS, FL_ZRO, KBDR, KBSR, PC, PROGRAM_COUNTER_START, R0, R1, R2, R3, R7,
};
use lc3_vm::cpu::LC3Cpu;
use lc3_vm::engine::{Fault, Flow};
use lc3_vm::image::ImageError;
use lc3_vm::instruction::{sign_extend, LC3Instruction};
use lc3_vm::trap::TrapRoutine;

fn machine_with(program: &[u16]) -> LC3Cpu {
    let mut cpu = LC3Cpu::new();
    for (i, w) in program.iter().enumerate() {
        cpu.mem_write(PROGRAM_COUNTER_START + i as u16, *w);
    }
    cpu
}

fn reg(cpu: &LC3Cpu, r: u16) -> u16 {
    cpu.registers[r as usize]
}

#[test]
fn sign_extend_five_bits() {
    assert_eq!(sign_extend(0b11111, 5), 0xFFFF);
    assert_eq!(sign_extend(0b01111, 5), 0x000F);
    assert_eq!(sign_extend(0b10000, 5), 0xFFF0);
    assert_eq!(sign_extend(0, 5), 0);
}

#[test]
fn sign_extend_other_widths() {
    assert_eq!(sign_extend(0b111111, 6), 0xFFFF);
    assert_eq!(sign_extend(0b011111, 6), 0x001F);
    assert_eq!(sign_extend(0x1FF, 9), 0xFFFF);
    assert_eq!(sign_extend(0x100, 9), 0xFF00);
    assert_eq!(sign_extend(0x0FF, 9), 0x00FF);
    assert_eq!(sign_extend(0x7FF, 11), 0xFFFF);
    assert_eq!(sign_extend(0x400, 11), 0xFC00);
    assert_eq!(sign_extend(0x3FF, 11), 0x03FF);
}

#[test]
fn sign_extend_every_field_value() {
    for n in [5i32, 6, 9, 11] {
        for x in 0u16..(1u16 << n) {
            let r = sign_extend(x, n) as i16 as i32;
            let expected = if x < (1 << (n - 1)) { x as i32 } else { x as i32 - (1 << n) };
            assert_eq!(r, expected);
        }
    }
}

#[test]
fn decode_is_total() {
    let table = [
        LC3Instruction::BR,
        LC3Instruction::ADD,
        LC3Instruction::LD,
        LC3Instruction::ST,
        LC3Instruction::JSR,
        LC3Instruction::AND,
        LC3Instruction::LDR,
        LC3Instruction::STR,
        LC3Instruction::RTI,
        LC3Instruction::NOT,
        LC3Instruction::LDI,
        LC3Instruction::STI,
        LC3Instruction::JMP,
        LC3Instruction::RES,
        LC3Instruction::LEA,
        LC3Instruction::TRAP,
    ];
    for op in 0u16..16 {
        assert_eq!(LC3Instruction::from_bytes(op << 12), Some(table[op as usize]));
        assert_eq!(LC3Instruction::from_bytes((op << 12) | 0x0FFF), Some(table[op as usize]));
    }
}

#[test]
fn trap_vectors() {
    assert_eq!(TrapRoutine::from_bytes(0x20), Some(TrapRoutine::GETC));
    assert_eq!(TrapRoutine::from_bytes(0x21), Some(TrapRoutine::OUT));
    assert_eq!(TrapRoutine::from_bytes(0x22), Some(TrapRoutine::PUTS));
    assert_eq!(TrapRoutine::from_bytes(0x23), Some(TrapRoutine::IN));
    assert_eq!(TrapRoutine::from_bytes(0x24), Some(TrapRoutine::PUTSP));
    assert_eq!(TrapRoutine::from_bytes(0x25), Some(TrapRoutine::HALT));
    assert_eq!(TrapRoutine::from_bytes(0x1F), None);
    assert_eq!(TrapRoutine::from_bytes(0x26), None);
}

#[test]
fn new_machine_state() {
    let cpu = LC3Cpu::new();
    assert_eq!(reg(&cpu, PC), 0x3000);
    assert_eq!(reg(&cpu, COND), FL_ZRO);
    assert_eq!(cpu.memory.len(), 65536);
    assert_eq!(cpu.registers.len(), 10);
}

#[test]
fn flags_zero_negative_positive() {
    let mut cpu = LC3Cpu::new();
    cpu.registers[3] = 0;
    cpu.update_flags(3);
    assert_eq!(reg(&cpu, COND), FL_ZRO);
    cpu.registers[3] = 0x8000;
    cpu.update_flags(3);
    assert_eq!(reg(&cpu, COND), FL_NEG);
    cpu.registers[3] = 0xFFFF;
    cpu.update_flags(3);
    assert_eq!(reg(&cpu, COND), FL_NEG);
    cpu.registers[3] = 0x7FFF;
    cpu.update_flags(3);
    assert_eq!(reg(&cpu, COND), FL_POS);
    cpu.registers[3] = 1;
    cpu.update_flags(3);
    assert_eq!(reg(&cpu, COND), FL_POS);
}

#[test]
fn add_immediate_and_register_and() {
    // ADD R2, R1, #5 ; AND R2, R1, R3
    let mut cpu = machine_with(&[0x1465]);
    cpu.registers[R1 as usize] = 10;
    assert_eq!(cpu.step(), Ok(Flow::Continue));
    assert_eq!(reg(&cpu, R2), 15);
    assert_eq!(reg(&cpu, COND), FL_POS);
    assert_eq!(reg(&cpu, PC), 0x3001);

    let mut cpu = machine_with(&[0x5443]);
    cpu.registers[R1 as usize] = 0b1100;
    cpu.registers[R3 as usize] = 0b1010;
    assert_eq!(cpu.step(), Ok(Flow::Continue));
    assert_eq!(reg(&cpu, R2), 0b1000);
    assert_eq!(reg(&cpu, COND), FL_POS);
}

#[test]
fn add_wraps_and_sets_flags() {
    // ADD R2, R1, #-1 with R1 = 0 gives 0xFFFF, Negative
    let mut cpu = machine_with(&[0x147F]);
    assert_eq!(cpu.step(), Ok(Flow::Continue));
    assert_eq!(reg(&cpu, R2), 0xFFFF);
    assert_eq!(reg(&cpu, COND), FL_NEG);
    // ADD R2, R1, #1 with R1 = 0xFFFF wraps to 0, Zero
    let mut cpu = machine_with(&[0x1461]);
    cpu.registers[R1 as usize] = 0xFFFF;
    assert_eq!(cpu.step(), Ok(Flow::Continue));
    assert_eq!(reg(&cpu, R2), 0);
    assert_eq!(reg(&cpu, COND), FL_ZRO);
    // ADD R2, R1, R3 in register mode
    let mut cpu = machine_with(&[0x1443]);
    cpu.registers[R1 as usize] = 7;
    cpu.registers[R3 as usize] = 0xFFFE;
    assert_eq!(cpu.step(), Ok(Flow::Continue));
    assert_eq!(reg(&cpu, R2), 5);
}

#[test]
fn and_immediate_and_not() {
    // AND R2, R1, #0 clears
    let mut cpu = machine_with(&[0x5460, 0x967F]);
    cpu.registers[R1 as usize] = 0x1234;
    assert_eq!(cpu.step(), Ok(Flow::Continue));
    assert_eq!(reg(&cpu, R2), 0);
    assert_eq!(reg(&cpu, COND), FL_ZRO);
    // NOT R3, R1
    assert_eq!(cpu.step(), Ok(Flow::Continue));
    assert_eq!(reg(&cpu, R3), 0xEDCB);
    assert_eq!(reg(&cpu, COND), FL_NEG);
}

#[test]
fn branch_taken_and_not_taken() {
    // BRz #5 with COND = Zero: taken
    let mut cpu = machine_with(&[0x0405]);
    assert_eq!(cpu.step(), Ok(Flow::Continue));
    assert_eq!(reg(&cpu, PC), 0x3006);
    // BRp #5 with COND = Zero: not taken
    let mut cpu = machine_with(&[0x0205]);
    assert_eq!(cpu.step(), Ok(Flow::Continue));
    assert_eq!(reg(&cpu, PC), 0x3001);
    // BRn #-2 with COND = Negative: taken backwards
    let mut cpu = machine_with(&[0x09FE]);
    cpu.registers[COND as usize] = FL_NEG;
    assert_eq!(cpu.step(), Ok(Flow::Continue));
    assert_eq!(reg(&cpu, PC), 0x2FFF);
    // BR with no condition bits: never taken
    let mut cpu = machine_with(&[0x0005]);
    assert_eq!(cpu.step(), Ok(Flow::Continue));
    assert_eq!(reg(&cpu, PC), 0x3001);
}

#[test]
fn jumps_and_subroutines() {
    // JMP R2
    let mut cpu = machine_with(&[0xC080]);
    cpu.registers[R2 as usize] = 0x4000;
    assert_eq!(cpu.step(), Ok(Flow::Continue));
    assert_eq!(reg(&cpu, PC), 0x4000);
    // JSR #16
    let mut cpu = machine_with(&[0x4810]);
    assert_eq!(cpu.step(), Ok(Flow::Continue));
    assert_eq!(reg(&cpu, R7), 0x3001);
    assert_eq!(reg(&cpu, PC), 0x3011);
    // JSRR R2: PC plus the base register
    let mut cpu = machine_with(&[0x4080]);
    cpu.registers[R2 as usize] = 0x0100;
    assert_eq!(cpu.step(), Ok(Flow::Continue));
    assert_eq!(reg(&cpu, R7), 0x3001);
    assert_eq!(reg(&cpu, PC), 0x3101);
}

#[test]
fn loads_and_effective_address() {
    // LD R0, #2 ; LDR R1, R2, #-1 ; LEA R3, #-4
    let mut cpu = machine_with(&[0x2002, 0x62BF, 0xE7FC, 0x0000]);
    cpu.mem_write(0x3003, 0x8001);
    cpu.registers[R2 as usize] = 0x5001;
    cpu.mem_write(0x5000, 42);
    assert_eq!(cpu.step(), Ok(Flow::Continue));
    assert_eq!(reg(&cpu, R0), 0x8001);
    assert_eq!(reg(&cpu, COND), FL_NEG);
    assert_eq!(cpu.step(), Ok(Flow::Continue));
    assert_eq!(reg(&cpu, R1), 42);
    assert_eq!(reg(&cpu, COND), FL_POS);
    assert_eq!(cpu.step(), Ok(Flow::Continue));
    assert_eq!(reg(&cpu, R3), 0x2FFF);
    assert_eq!(reg(&cpu, COND), FL_POS);
}

#[test]
fn load_indirect_follows_two_pointers() {
    // LDI R1, #4: the cell at 0x3005 holds 0x4000, which holds 0x1234
    let mut cpu = machine_with(&[0xA204]);
    cpu.mem_write(0x3005, 0x4000);
    cpu.mem_write(0x4000, 0x1234);
    assert_eq!(cpu.step(), Ok(Flow::Continue));
    assert_eq!(reg(&cpu, R1), 0x1234);
    assert_eq!(reg(&cpu, COND), FL_POS);
}

#[test]
fn stores() {
    // ST R1, #3 ; STI R1, #3 ; STR R1, R2, #2
    let mut cpu = machine_with(&[0x3203, 0xB203, 0x7282]);
    cpu.registers[R1 as usize] = 0xBEEF;
    cpu.registers[R2 as usize] = 0x6000;
    cpu.mem_write(0x3005, 0x5000);
    assert_eq!(cpu.step(), Ok(Flow::Continue));
    assert_eq!(cpu.memory[0x3004], 0xBEEF);
    assert_eq!(cpu.step(), Ok(Flow::Continue));
    assert_eq!(cpu.memory[0x5000], 0xBEEF);
    assert_eq!(cpu.step(), Ok(Flow::Continue));
    assert_eq!(cpu.memory[0x6002], 0xBEEF);
    assert_eq!(reg(&cpu, COND), FL_ZRO);
}

#[test]
fn unsupported_opcodes_fault() {
    let mut cpu = machine_with(&[0x8000]);
    assert_eq!(cpu.step(), Err(Fault::UnsupportedOpcode(LC3Instruction::RTI)));
    let mut cpu = machine_with(&[0xD000]);
    assert_eq!(cpu.step(), Err(Fault::UnsupportedOpcode(LC3Instruction::RES)));
}

#[test]
fn unsupported_trap_faults() {
    let mut cpu = machine_with(&[0xF026]);
    assert_eq!(cpu.step(), Err(Fault::UnsupportedTrap(0x26)));
}

#[test]
fn puts_writes_string() {
    // LEA R0, #2 ; PUTS ; HALT ; "Hi!" 0
    let mut cpu = machine_with(&[0xE002, 0xF022, 0xF025, 'H' as u16, 'i' as u16, '!' as u16, 0]);
    assert_eq!(cpu.run(100), Ok(Flow::Halt));
    assert_eq!(cpu.output, b"Hi!".to_vec());
}

#[test]
fn puts_empty_string() {
    let mut cpu = machine_with(&[0xF022]);
    cpu.registers[R0 as usize] = 0x4000;
    assert_eq!(cpu.step(), Ok(Flow::Continue));
    assert!(cpu.output.is_empty());
}

#[test]
fn putsp_writes_packed_string() {
    // "abc": cells 'b'<<8|'a', 'c', 0
    let mut cpu = machine_with(&[0xF024]);
    cpu.registers[R0 as usize] = 0x4000;
    cpu.mem_write(0x4000, (('b' as u16) << 8) | 'a' as u16);
    cpu.mem_write(0x4001, 'c' as u16);
    assert_eq!(cpu.step(), Ok(Flow::Continue));
    assert_eq!(cpu.output, b"abc".to_vec());
}

#[test]
fn out_writes_low_byte() {
    let mut cpu = machine_with(&[0xF021]);
    cpu.registers[R0 as usize] = 0x1241;
    assert_eq!(cpu.step(), Ok(Flow::Continue));
    assert_eq!(cpu.output, vec![0x41]);
}

#[test]
fn getc_and_in_read_input() {
    let mut cpu = machine_with(&[0xF020, 0xF023, 0xF020]);
    cpu.input.push_back(b'x');
    cpu.input.push_back(b'y');
    assert_eq!(cpu.step(), Ok(Flow::Continue));
    assert_eq!(reg(&cpu, R0), b'x' as u16);
    assert_eq!(reg(&cpu, COND), FL_POS);
    assert!(cpu.output.is_empty());
    assert_eq!(cpu.step(), Ok(Flow::Continue));
    assert_eq!(reg(&cpu, R0), b'y' as u16);
    assert_eq!(cpu.output, vec![b'y']);
    // input exhausted: no character, R0 = 0
    assert_eq!(cpu.step(), Ok(Flow::Continue));
    assert_eq!(reg(&cpu, R0), 0);
    assert_eq!(reg(&cpu, COND), FL_ZRO);
}

#[test]
fn keyboard_status_polls_input() {
    let mut cpu = LC3Cpu::new();
    cpu.input.push_back(b'k');
    assert_eq!(cpu.mem_read(KBSR), 0x8000);
    assert_eq!(cpu.mem_read(KBDR), b'k' as u16);
    assert!(cpu.input.is_empty());
    assert_eq!(cpu.mem_read(KBSR), 0);
}

#[test]
fn plain_reads_have_no_side_effect() {
    let mut cpu = LC3Cpu::new();
    cpu.input.push_back(b'k');
    cpu.mem_write(0x1234, 77);
    assert_eq!(cpu.mem_read(0x1234), 77);
    assert_eq!(cpu.mem_read(KBDR), 0);
    assert_eq!(cpu.input.len(), 1);
}

#[test]
fn reads_keyboard_before_input_instructions() {
    // GETC
    let cpu = machine_with(&[0xF020]);
    assert!(cpu.reads_keyboard());
    // OUT
    let cpu = machine_with(&[0xF021]);
    assert!(!cpu.reads_keyboard());
    // LDI R0, #0 with the cell at 0x3001 pointing at the status register
    let cpu = machine_with(&[0xA000, KBSR]);
    assert!(cpu.reads_keyboard());
    // LD R0, #0
    let cpu = machine_with(&[0x2000, KBSR]);
    assert!(!cpu.reads_keyboard());
    // PUTS of a string that stops short of the status register
    let mut cpu = machine_with(&[0xF022]);
    cpu.registers[R0 as usize] = 0x4000;
    assert!(!cpu.reads_keyboard());
}

#[test]
fn halt_stops_the_run_once() {
    // OUT 'A' ; HALT ; OUT (never reached)
    let mut cpu = machine_with(&[0xF021, 0xF025, 0xF021]);
    cpu.registers[R0 as usize] = 'A' as u16;
    assert_eq!(cpu.run(1000), Ok(Flow::Halt));
    assert_eq!(cpu.output, vec![b'A']);
    assert_eq!(reg(&cpu, PC), 0x3002);
}

#[test]
fn run_stops_when_steps_run_out() {
    // BR #-1 loops forever (BRnzp to itself)
    let mut cpu = machine_with(&[0x0FFF]);
    assert_eq!(cpu.run(50), Ok(Flow::Continue));
    assert_eq!(reg(&cpu, PC), 0x3000);
}

#[test]
fn run_stops_at_fault() {
    let mut cpu = machine_with(&[0x1021, 0x8000, 0x1021]);
    assert_eq!(cpu.run(10), Err(Fault::UnsupportedOpcode(LC3Instruction::RTI)));
    assert_eq!(reg(&cpu, R0), 1);
}

#[test]
fn load_image_big_endian() {
    let mut cpu = LC3Cpu::new();
    let image = [0x30u8, 0x00, 0x12, 0x34, 0xAB, 0xCD, 0x99];
    assert_eq!(cpu.load_image(&image), Ok(0x3000));
    assert_eq!(cpu.memory[0x3000], 0x1234);
    assert_eq!(cpu.memory[0x3001], 0xABCD);
    assert_eq!(cpu.memory[0x3002], 0);
}

#[test]
fn load_image_errors() {
    let mut cpu = LC3Cpu::new();
    assert_eq!(cpu.load_image(&[0x30]), Err(ImageError::MissingOrigin));
    assert_eq!(cpu.load_image(&[]), Err(ImageError::MissingOrigin));
    assert_eq!(cpu.load_image(&[0xFF, 0xFF, 0, 1, 0, 2]), Err(ImageError::TooLarge));
    assert_eq!(cpu.memory[0xFFFF], 0);
    assert_eq!(cpu.load_image(&[0xFF, 0xFF, 0, 1]), Ok(0xFFFF));
    assert_eq!(cpu.memory[0xFFFF], 1);
}

#[test]
fn loaded_program_runs() {
    let mut cpu = LC3Cpu::new();
    // origin 0x3000: LEA R0, #2 ; PUTS ; HALT ; "ok" 0
    let words = [0x3000u16, 0xE002, 0xF022, 0xF025, 'o' as u16, 'k' as u16, 0];
    let mut image = Vec::new();
    for w in words {
        image.push((w >> 8) as u8);
        image.push(w as u8);
    }
    assert_eq!(cpu.load_image(&image), Ok(0x3000));
    assert_eq!(cpu.run(100), Ok(Flow::Halt));
    assert_eq!(cpu.output, b"ok".to_vec());
}

#[test]
fn default_is_start_state() {
    let cpu = LC3Cpu::default();
    assert_eq!(reg(&cpu, PC), PROGRAM_COUNTER_START);
    assert_eq!(reg(&cpu, COND), FL_ZRO);
    assert!(cpu.memory.iter().all(|w| *w == 0));
    assert!(cpu.input.is_empty());
    assert!(cpu.output.is_empty());
}

#[test]
fn fetch_at_last_address_wraps() {
    // ADD R0, R0, #1 at 0xFFFF: the program counter wraps to 0
    let mut cpu = LC3Cpu::new();
    cpu.registers[PC as usize] = 0xFFFF;
    cpu.mem_write(0xFFFF, 0x1021);
    assert_eq!(cpu.step(), Ok(Flow::Continue));
    assert_eq!(reg(&cpu, PC), 0);
    assert_eq!(reg(&cpu, R0), 1);
}
