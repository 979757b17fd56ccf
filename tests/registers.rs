use gbc::cpu::{Clock, Register, Registers, State, CPU};
use gbc::instructions::Reg8;
use gbc::memory::{Memory, ROM_SIZE};
use gbc::{as_u16, Splitable};

fn new_test_cpu() -> CPU {
    CPU {
        memory: Memory::new([0; ROM_SIZE]),
        clock: Clock { cycles: 0, clock_speed: 0 },
        registers: Registers { af: 0x0000, bc: 0x0000, de: 0x0000, hl: 0x0000, sp: 0x0000, pc: 0x0000 },
        state: State::Running,
    }
}

fn flags(cpu: &CPU) -> u8 {
    (cpu.registers.af & 0xFF) as u8
}

#[test]
fn test_alu_r8() {
    let mut cpu = new_test_cpu();
    assert_eq!(cpu.registers.bc, 0x0000);
    cpu.inc_r8_lsb(Register::BC);
    assert_eq!(cpu.registers.bc, 0x0001);
    cpu.inc_r8_msb(Register::BC);
    assert_eq!(cpu.registers.bc, 0x0101);
    cpu.dec_r8_msb(Register::BC);
    assert_eq!(cpu.registers.bc, 0x0001);
    cpu.dec_r8_lsb(Register::BC);
    assert_eq!(cpu.registers.bc, 0x0000);
}

#[test]
fn register_helpers_charge_cycles() {
    let mut cpu = new_test_cpu();
    cpu.inc_r8_lsb(Register::BC);
    assert_eq!(cpu.clock.cycles, 1);
    cpu.dec_r8_msb(Register::DE);
    assert_eq!(cpu.clock.cycles, 2);
    cpu.load_r8_msb(Register::HL).unwrap();
    assert_eq!(cpu.clock.cycles, 4);
    assert_eq!(cpu.registers.pc, 1);
    cpu.load_r16(Register::DE).unwrap();
    assert_eq!(cpu.clock.cycles, 7);
    assert_eq!(cpu.registers.pc, 3);
}

#[test]
fn test_alu_r8_overflow() {
    let mut cpu = new_test_cpu();
    let bc = cpu.registers.from_enum(Register::BC);
    *bc = 0xFFFF;
    assert_eq!(cpu.registers.bc, 0xFFFF);
    cpu.inc_r8_lsb(Register::BC);
    assert_eq!(cpu.registers.bc, 0xFF00);
    cpu.inc_r8_msb(Register::BC);
    assert_eq!(cpu.registers.bc, 0x0000);
    cpu.dec_r8_lsb(Register::BC);
    assert_eq!(cpu.registers.bc, 0x00FF);
    cpu.dec_r8_msb(Register::BC);
    assert_eq!(cpu.registers.bc, 0xFFFF);
}

#[test]
fn test_from_enum() {
    let mut cpu = new_test_cpu();
    cpu.registers = Registers { af: 0x0001, bc: 0x0002, de: 0x0003, hl: 0x0004, sp: 0x0005, pc: 0x0006 };
    assert_eq!(*cpu.registers.from_enum(Register::AF), 0x0001);
    assert_eq!(*cpu.registers.from_enum(Register::BC), 0x0002);
    assert_eq!(*cpu.registers.from_enum(Register::DE), 0x0003);
    assert_eq!(*cpu.registers.from_enum(Register::HL), 0x0004);
    assert_eq!(*cpu.registers.from_enum(Register::SP), 0x0005);
    assert_eq!(*cpu.registers.from_enum(Register::PC), 0x0006);
}

#[test]
fn test_as_u16() {
    let lsb: u8 = 0x1F;
    let msb: u8 = 0x25;
    let word: u16 = as_u16(lsb, msb);
    assert_eq!(word, 0x251F);
}

#[test]
fn test_split_u16() {
    let lsb: u8 = 0x1F;
    let msb: u8 = 0x25;
    let word: u16 = as_u16(lsb, msb);
    assert_eq!((0x1F, 0x25), word.split());
}

#[test]
fn split_then_join_round_trips() {
    for v in [0x0000u16, 0x0001, 0x00FF, 0x0100, 0x1234, 0xFF00, 0xFFFF] {
        let (lsb, msb) = v.split();
        assert_eq!(as_u16(lsb, msb), v);
    }
}

#[test]
fn pair_write_reads_back_as_halves() {
    let mut regs = Registers { af: 0, bc: 0, de: 0, hl: 0, sp: 0, pc: 0 };
    *regs.from_enum(Register::BC) = 0xABCD;
    *regs.from_enum(Register::DE) = 0x1234;
    *regs.from_enum(Register::HL) = 0x8001;
    *regs.from_enum(Register::AF) = 0x7FF0;
    assert_eq!(regs.get8(Reg8::B), 0xAB);
    assert_eq!(regs.get8(Reg8::C), 0xCD);
    assert_eq!(regs.get8(Reg8::D), 0x12);
    assert_eq!(regs.get8(Reg8::E), 0x34);
    assert_eq!(regs.get8(Reg8::H), 0x80);
    assert_eq!(regs.get8(Reg8::L), 0x01);
    assert_eq!(regs.get8(Reg8::A), 0x7F);
}

#[test]
fn half_writes_read_back_as_pair() {
    let mut regs = Registers { af: 0, bc: 0, de: 0, hl: 0, sp: 0, pc: 0 };
    regs.set8(Reg8::H, 0xC0);
    regs.set8(Reg8::L, 0x12);
    assert_eq!(regs.pair(Register::HL), 0xC012);
    regs.set8(Reg8::L, 0x34);
    assert_eq!(regs.hl, 0xC034);
}

#[test]
fn power_on_values() {
    let regs = Registers::init();
    assert_eq!(regs, Registers { af: 0x1180, bc: 0x0000, de: 0xFF56, hl: 0x000D, sp: 0xFFFE, pc: 0x0100 });
    let cpu = CPU::new(Memory::new([0; ROM_SIZE]));
    assert_eq!(cpu.clock.cycles, 0);
    assert_eq!(cpu.state, State::Running);
    assert_eq!(cpu.registers.pc, 0x0100);
}

#[test]
fn set_flags_is_tri_state() {
    let mut regs = Registers { af: 0x12F0, bc: 0, de: 0, hl: 0, sp: 0, pc: 0 };
    regs.set_flags(None, Some(false), None, None);
    assert_eq!(regs.af, 0x12B0);
    regs.set_flags(Some(false), None, None, Some(false));
    assert_eq!(regs.af, 0x1220);
    regs.set_flags(None, None, None, None);
    assert_eq!(regs.af, 0x1220);
    regs.af = 0x120F;
    regs.set_flags(Some(true), None, None, None);
    assert_eq!(regs.af, 0x1280);
}

#[test]
fn increment_of_ff_sets_zero_and_half_carry() {
    let mut cpu = new_test_cpu();
    cpu.registers.bc = 0x00FF;
    cpu.registers.af = 0x0050;
    cpu.inc_r8_lsb(Register::BC);
    assert_eq!(cpu.registers.bc, 0x0000);
    // Zero and Half-Carry set, Subtract clear, Carry kept.
    assert_eq!(flags(&cpu), 0xB0);
}

#[test]
fn increment_without_low_nibble_carry_clears_half_carry() {
    let mut cpu = new_test_cpu();
    cpu.registers.bc = 0x0E00;
    cpu.registers.af = 0x00F0;
    cpu.inc_r8_msb(Register::BC);
    assert_eq!(cpu.registers.bc, 0x0F00);
    assert_eq!(flags(&cpu), 0x10);
    cpu.inc_r8_msb(Register::BC);
    assert_eq!(cpu.registers.bc, 0x1000);
    assert_eq!(flags(&cpu), 0x30);
}

#[test]
fn decrement_of_zero_wraps_with_half_carry() {
    let mut cpu = new_test_cpu();
    cpu.dec_r8_lsb(Register::DE);
    assert_eq!(cpu.registers.de, 0x00FF);
    // Subtract and Half-Carry set, Zero clear.
    assert_eq!(flags(&cpu), 0x60);
    cpu.registers.de = 0x0100;
    cpu.dec_r8_msb(Register::DE);
    assert_eq!(cpu.registers.de, 0x0000);
    // Zero and Subtract set, no borrow from bit 4.
    assert_eq!(flags(&cpu), 0xC0);
}

#[test]
fn low_byte_increment_leaves_high_byte() {
    let mut cpu = new_test_cpu();
    *cpu.registers.from_enum(Register::BC) = 0xFFFF;
    cpu.inc_r8_lsb(Register::BC);
    assert_eq!(cpu.registers.bc, 0xFF00);
    let f = flags(&cpu);
    assert!(f & 0x80 != 0);
    assert!(f & 0x20 != 0);
}
