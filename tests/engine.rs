use gbc::cpu::{State, CPU};
use gbc::instructions::{Condition, Instruction, Pair, Pointer, Reg8, ShiftOp};
use gbc::memory::{pad_program, Memory, MemoryError};

/// An engine whose program starts at the power-on program counter.
fn engine_with(program: &[u8]) -> CPU {
    let mut image = vec![0u8; 0x100];
    image.extend_from_slice(program);
    CPU::new(Memory::new(pad_program(&image)))
}

fn flags(cpu: &CPU) -> u8 {
    (cpu.registers.af & 0xFF) as u8
}

#[test]
fn load_immediate_into_b() {
    let mut cpu = engine_with(&[0x06, 0xDD]);
    let before = cpu.registers;
    let step = cpu.step().unwrap();
    assert_eq!(step.instruction, Instruction::LoadImm8(Reg8::B));
    assert_eq!(step.cycles, 2);
    assert_eq!(cpu.registers.get8(Reg8::B), 0xDD);
    assert_eq!(cpu.registers.get8(Reg8::C), 0x00);
    assert_eq!(cpu.clock.cycles, 2);
    assert_eq!(cpu.registers.pc, before.pc + 2);
}

#[test]
fn nop_changes_nothing_but_time() {
    let mut cpu = engine_with(&[0x00]);
    let before = cpu.registers;
    let step = cpu.step().unwrap();
    assert_eq!(step.instruction, Instruction::Nop);
    assert_eq!(cpu.clock.cycles, 1);
    assert_eq!(cpu.registers.af, before.af);
    assert_eq!(cpu.registers.bc, before.bc);
    assert_eq!(cpu.registers.de, before.de);
    assert_eq!(cpu.registers.hl, before.hl);
    assert_eq!(cpu.registers.sp, before.sp);
    assert_eq!(cpu.registers.pc, before.pc + 1);
}

#[test]
fn stop_ends_the_run() {
    let mut cpu = engine_with(&[0x10, 0x00, 0x00]);
    let step = cpu.step().unwrap();
    assert_eq!(step.instruction, Instruction::Stop);
    assert_eq!(step.cycles, 0);
    assert_eq!(cpu.clock.cycles, 0);
    assert_eq!(cpu.state, State::Stopped);
    let pc = cpu.registers.pc;
    let cycles = cpu.clock.cycles;
    assert_eq!(cpu.init(100), Ok(0));
    assert_eq!(cpu.registers.pc, pc);
    assert_eq!(cpu.clock.cycles, cycles);
}

#[test]
fn run_stops_at_stop() {
    let mut cpu = engine_with(&[0x00, 0x04, 0x0C, 0x10, 0x04]);
    assert_eq!(cpu.init(100), Ok(4));
    assert_eq!(cpu.state, State::Stopped);
    assert_eq!(cpu.registers.bc, 0x0101);
    assert_eq!(cpu.clock.cycles, 3);
}

#[test]
fn run_respects_step_budget() {
    let mut cpu = engine_with(&[0x00, 0x00, 0x00, 0x00]);
    assert_eq!(cpu.init(3), Ok(3));
    assert_eq!(cpu.state, State::Running);
    assert_eq!(cpu.registers.pc, 0x0103);
}

#[test]
fn increment_low_byte_of_bc_wraps() {
    // LD BC,0xFFFF ; INC C
    let mut cpu = engine_with(&[0x01, 0xFF, 0xFF, 0x0C]);
    cpu.step().unwrap();
    assert_eq!(cpu.registers.bc, 0xFFFF);
    cpu.step().unwrap();
    assert_eq!(cpu.registers.bc, 0xFF00);
    assert!(flags(&cpu) & 0x80 != 0);
    assert!(flags(&cpu) & 0x20 != 0);
    assert!(flags(&cpu) & 0x40 == 0);
}

#[test]
fn sixteen_bit_steps_keep_flags() {
    // LD DE,0xFFFF ; INC DE ; DEC DE ; DEC DE
    let mut cpu = engine_with(&[0x11, 0xFF, 0xFF, 0x13, 0x1B, 0x1B]);
    let f = flags(&cpu);
    cpu.step().unwrap();
    let step = cpu.step().unwrap();
    assert_eq!(step.instruction, Instruction::Inc16(Pair::DE));
    assert_eq!(step.cycles, 2);
    assert_eq!(cpu.registers.de, 0x0000);
    assert_eq!(flags(&cpu), f);
    cpu.step().unwrap();
    assert_eq!(cpu.registers.de, 0xFFFF);
    assert_eq!(flags(&cpu), f);
    cpu.step().unwrap();
    assert_eq!(cpu.registers.de, 0xFFFE);
    assert_eq!(flags(&cpu), f);
}

#[test]
fn store_to_rom_is_refused() {
    // LD BC,0x1234 ; LD (BC),A
    let mut cpu = engine_with(&[0x01, 0x34, 0x12, 0x02]);
    cpu.step().unwrap();
    let before = cpu.registers;
    assert_eq!(cpu.step(), Err(MemoryError::WriteToRom(0x1234)));
    assert_eq!(cpu.state, State::Stopped);
    assert_eq!(cpu.registers, before);
    assert_eq!(cpu.clock.cycles, 3);
}

#[test]
fn store_and_load_through_hl_increment() {
    // LD HL,0xC000 ; LD A,0x5A ; LD (HL+),A ; DEC HL ; LD A,0x00 ; LD A,(HL+)
    let mut cpu = engine_with(&[0x21, 0x00, 0xC0, 0x3E, 0x5A, 0x22, 0x2B, 0x3E, 0x00, 0x2A]);
    for _ in 0..5 {
        cpu.step().unwrap();
    }
    assert_eq!(cpu.memory.read(0xC000), 0x5A);
    assert_eq!(cpu.registers.get8(Reg8::A), 0x00);
    let step = cpu.step().unwrap();
    assert_eq!(step.instruction, Instruction::LoadA(Pointer::HLInc));
    assert_eq!(cpu.registers.get8(Reg8::A), 0x5A);
    assert_eq!(cpu.registers.hl, 0xC001);
}

#[test]
fn add_hl_sets_half_carry_and_carry() {
    // LD HL,0x8FFF ; LD BC,0x7001 ; ADD HL,BC
    let mut cpu = engine_with(&[0x21, 0xFF, 0x8F, 0x01, 0x01, 0x70, 0x09]);
    cpu.registers.af = 0x0080;
    cpu.step().unwrap();
    cpu.step().unwrap();
    let step = cpu.step().unwrap();
    assert_eq!(step.instruction, Instruction::AddHl(Pair::BC));
    assert_eq!(cpu.registers.hl, 0x0000);
    // Zero kept, Half-Carry and Carry set.
    assert_eq!(flags(&cpu), 0xB0);
}

#[test]
fn rotate_accumulator_left() {
    // LD A,0x85 ; RLCA ; RLA
    let mut cpu = engine_with(&[0x3E, 0x85, 0x07, 0x17]);
    cpu.registers.af = 0x0080;
    cpu.step().unwrap();
    cpu.step().unwrap();
    assert_eq!(cpu.registers.get8(Reg8::A), 0x0B);
    assert_eq!(flags(&cpu), 0x10);
    cpu.step().unwrap();
    assert_eq!(cpu.registers.get8(Reg8::A), 0x17);
    assert_eq!(flags(&cpu), 0x00);
}

#[test]
fn relative_jumps() {
    // JR +2 ; (skipped 2 bytes) ; JR NZ,-4 with Zero set is not taken
    let mut cpu = engine_with(&[0x18, 0x02, 0x00, 0x00, 0x20, 0xFC]);
    cpu.registers.af = 0x0080;
    let step = cpu.step().unwrap();
    assert_eq!(step.instruction, Instruction::JumpRelative(Condition::Always));
    assert_eq!(cpu.registers.pc, 0x0104);
    cpu.step().unwrap();
    assert_eq!(cpu.registers.pc, 0x0106);
    cpu.registers.af = 0x0000;
    cpu.registers.pc = 0x0104;
    cpu.step().unwrap();
    assert_eq!(cpu.registers.pc, 0x0102);
}

#[test]
fn absolute_jump() {
    let mut cpu = engine_with(&[0xC3, 0x50, 0x01]);
    let step = cpu.step().unwrap();
    assert_eq!(step.cycles, 4);
    assert_eq!(cpu.registers.pc, 0x0150);
}

#[test]
fn extended_table_swap_and_bits() {
    // LD B,0xF1 ; SWAP B ; BIT 7,B ; SET 0,B ; RES 4,B
    let mut cpu = engine_with(&[0x06, 0xF1, 0xCB, 0x30, 0xCB, 0x78, 0xCB, 0xC0, 0xCB, 0xA0]);
    cpu.step().unwrap();
    let step = cpu.step().unwrap();
    assert_eq!(step.instruction, Instruction::Shift(ShiftOp::Swap, Reg8::B));
    assert_eq!(step.cycles, 2);
    assert_eq!(cpu.registers.get8(Reg8::B), 0x1F);
    assert_eq!(cpu.registers.pc, 0x0104);
    let step = cpu.step().unwrap();
    assert_eq!(step.instruction, Instruction::TestBit(7, Reg8::B));
    // bit 7 of 0x1F is clear: Zero set, Half-Carry set.
    assert_eq!(flags(&cpu) & 0xE0, 0xA0);
    cpu.step().unwrap();
    assert_eq!(cpu.registers.get8(Reg8::B), 0x1F);
    cpu.step().unwrap();
    assert_eq!(cpu.registers.get8(Reg8::B), 0x0F);
}

#[test]
fn store_stack_pointer() {
    let mut cpu = engine_with(&[0x08, 0x00, 0xC1]);
    cpu.step().unwrap();
    assert_eq!(cpu.memory.read(0xC100), 0xFE);
    assert_eq!(cpu.memory.read(0xC101), 0xFF);
    assert_eq!(cpu.clock.cycles, 5);
}

#[test]
fn invalid_opcode_is_a_reported_no_op() {
    let mut cpu = engine_with(&[0xD3]);
    let before = cpu.registers;
    let step = cpu.step().unwrap();
    assert_eq!(step.instruction, Instruction::Invalid);
    assert_eq!(cpu.state, State::Running);
    assert_eq!(cpu.registers.af, before.af);
    assert_eq!(cpu.registers.pc, before.pc + 1);
}

#[test]
fn fetch_from_unmapped_address_stops() {
    let mut cpu = engine_with(&[]);
    cpu.registers.pc = 0xE000;
    assert_eq!(cpu.step(), Err(MemoryError::UnmappedRead(0xE000)));
    assert_eq!(cpu.state, State::Stopped);
    assert_eq!(cpu.registers.pc, 0xE000);
    assert_eq!(cpu.clock.cycles, 0);
}

#[test]
fn decode_covers_every_byte() {
    for b in 0..=255u8 {
        let ins = Instruction::decode(b);
        assert_eq!(ins == Instruction::Prefix, b == 0xCB);
        let ext = Instruction::decode_extended(b);
        assert!(ext != Instruction::Invalid && ext != Instruction::Prefix);
    }
    assert_eq!(Instruction::decode(0x06), Instruction::LoadImm8(Reg8::B));
    assert_eq!(Instruction::decode(0x2A), Instruction::LoadA(Pointer::HLInc));
    assert_eq!(Instruction::decode(0x3A), Instruction::LoadA(Pointer::HLDec));
    assert_eq!(Instruction::decode(0x10), Instruction::Stop);
    assert_eq!(Instruction::decode(0x76), Instruction::Invalid);
    assert_eq!(Instruction::decode(0x41), Instruction::Load(Reg8::B, Reg8::C));
    assert_eq!(Instruction::decode_extended(0x11), Instruction::Shift(ShiftOp::Rl, Reg8::C));
    assert_eq!(Instruction::decode_extended(0xFE), Instruction::SetBit(7, Reg8::AtHL));
}

#[test]
fn decimal_adjust_after_addition_and_subtraction() {
    let mut cpu = engine_with(&[0x27, 0x27, 0x27]);
    cpu.registers.af = 0x7D00;
    let step = cpu.step().unwrap();
    assert_eq!(step.instruction, Instruction::Daa);
    assert_eq!(cpu.registers.af, 0x8300);
    cpu.registers.af = 0x9A00;
    cpu.step().unwrap();
    assert_eq!(cpu.registers.af, 0x0090);
    cpu.registers.af = 0x4860;
    cpu.step().unwrap();
    assert_eq!(cpu.registers.af, 0x4240);
}

#[test]
fn store_to_unmapped_address_is_refused() {
    // LD DE,0xFE00 ; LD (DE),A
    let mut cpu = engine_with(&[0x11, 0x00, 0xFE, 0x12]);
    cpu.step().unwrap();
    assert_eq!(cpu.step(), Err(MemoryError::UnmappedWrite(0xFE00)));
    assert_eq!(cpu.state, State::Stopped);
}

#[test]
fn execute_charges_the_tag_cost() {
    let mut cpu = engine_with(&[0xDD, 0x02, 0xCB, 0x37]);
    assert_eq!(cpu.execute(Instruction::Nop).unwrap().cycles, 1);
    assert_eq!(cpu.clock.cycles, 1);
    cpu.execute(Instruction::LoadImm8(Reg8::B)).unwrap();
    assert_eq!(cpu.registers.get8(Reg8::B), 0xDD);
    assert_eq!(cpu.clock.cycles, 3);
    cpu.execute(Instruction::Inc16(Pair::BC)).unwrap();
    assert_eq!(cpu.clock.cycles, 5);
    cpu.execute(Instruction::Dec16(Pair::BC)).unwrap();
    assert_eq!(cpu.clock.cycles, 7);
    cpu.execute(Instruction::Inc8(Reg8::B)).unwrap();
    assert_eq!(cpu.registers.get8(Reg8::B), 0xDE);
    assert_eq!(cpu.clock.cycles, 8);
    cpu.execute(Instruction::Stop).unwrap();
    assert_eq!(cpu.clock.cycles, 8);
}

#[test]
fn execute_resolves_the_escape() {
    // the escape reads SWAP A (0xCB 0x37) from the bytes at PC
    let mut cpu = engine_with(&[0x37]);
    cpu.registers.af = 0x1200;
    let step = cpu.execute(Instruction::Prefix).unwrap();
    assert_eq!(step.instruction, Instruction::Shift(ShiftOp::Swap, Reg8::A));
    assert_eq!(step.cycles, 2);
    assert_eq!(cpu.registers.af, 0x2100);
    assert_eq!(cpu.registers.pc, 0x0101);
    assert_eq!(cpu.clock.cycles, 2);
}
