use vstd::prelude::*;

use crate::instructions::{Condition, Instruction, Pair, Pointer, Reg8, ShiftOp};
use crate::instructions::cycles_spec;
use crate::isa::{
    condition_holds, daa, dec_flags, execute_spec, home, immediate16, inc_flags, jump_target, mask,
    operand_value, operand_written, operation_spec, pointer_stepped, rotated_a, shift, step_spec, with_bit, Outcome,
};
use crate::memory::{bus_read, bus_write, region, region_of, Memory, MemoryError, Region};
use crate::{as_u16, high_byte, low_byte, word, Splitable};

verus! {

/// A 16-bit register: one of the four pairs, the stack pointer or the
/// program counter.
#[derive(Debug, Clone, Copy, PartialEq, Eq, Structural)]
pub enum Register {
    AF,
    BC,
    DE,
    HL,
    SP,
    PC,
}

/// The register file. Each pair holds its first-named register in the high
/// byte (A in AF, B in BC, D in DE, H in HL); the low byte of AF is the flag
/// register F, with Zero in bit 7, Subtract in bit 6, Half-Carry in bit 5
/// and Carry in bit 4.
#[derive(Debug, Clone, Copy, PartialEq, Eq, Structural)]
pub struct Registers {
    /// Accumulator and flags.
    pub af: u16,
    pub bc: u16,
    pub de: u16,
    pub hl: u16,
    /// Stack pointer.
    pub sp: u16,
    /// Program counter.
    pub pc: u16,
}

/// Bit 7 of a flag byte.
pub open spec fn zero_bit(f: u8) -> bool {
    (f / 128) % 2 == 1
}

/// Bit 6 of a flag byte.
pub open spec fn subtract_bit(f: u8) -> bool {
    (f / 64) % 2 == 1
}

/// Bit 5 of a flag byte.
pub open spec fn half_carry_bit(f: u8) -> bool {
    (f / 32) % 2 == 1
}

/// Bit 4 of a flag byte.
pub open spec fn carry_bit(f: u8) -> bool {
    (f / 16) % 2 == 1
}

/// The flag byte with the four given flags and its low four bits clear.
pub open spec fn flag_byte(z: bool, n: bool, h: bool, c: bool) -> u8 {
    ((if z { 128int } else { 0 }) + (if n { 64int } else { 0 }) + (if h { 32int } else { 0 }) + (if c {
        16int
    } else {
        0
    })) as u8
}

/// A tri-state flag update: `Some(b)` forces the flag to `b`, `None` keeps `current`.
pub open spec fn updated(choice: Option<bool>, current: bool) -> bool {
    match choice {
        Some(b) => b,
        None => current,
    }
}

impl Registers {
    /// The value of a 16-bit register.
    pub open spec fn get(self, reg: Register) -> u16 {
        match reg {
            Register::AF => self.af,
            Register::BC => self.bc,
            Register::DE => self.de,
            Register::HL => self.hl,
            Register::SP => self.sp,
            Register::PC => self.pc,
        }
    }

    /// The register file with one 16-bit register replaced.
    pub open spec fn with(self, reg: Register, v: u16) -> Registers {
        match reg {
            Register::AF => Registers { af: v, ..self },
            Register::BC => Registers { bc: v, ..self },
            Register::DE => Registers { de: v, ..self },
            Register::HL => Registers { hl: v, ..self },
            Register::SP => Registers { sp: v, ..self },
            Register::PC => Registers { pc: v, ..self },
        }
    }

    /// The register file with the low byte of `reg` replaced.
    pub open spec fn with_low(self, reg: Register, v: u8) -> Registers {
        self.with(reg, word(v, high_byte(self.get(reg))))
    }

    /// The register file with the high byte of `reg` replaced.
    pub open spec fn with_high(self, reg: Register, v: u8) -> Registers {
        self.with(reg, word(low_byte(self.get(reg)), v))
    }

    /// The flag register F.
    pub open spec fn f(self) -> u8 {
        low_byte(self.af)
    }

    /// The accumulator A.
    pub open spec fn a(self) -> u8 {
        high_byte(self.af)
    }

    pub open spec fn zero(self) -> bool {
        zero_bit(self.f())
    }

    pub open spec fn subtract(self) -> bool {
        subtract_bit(self.f())
    }

    pub open spec fn half_carry(self) -> bool {
        half_carry_bit(self.f())
    }

    pub open spec fn carry(self) -> bool {
        carry_bit(self.f())
    }

    /// The register file after one atomic tri-state update of the four flags;
    /// the low four bits of F end up clear and A is kept.
    pub open spec fn with_flags(
        self,
        z: Option<bool>,
        n: Option<bool>,
        h: Option<bool>,
        c: Option<bool>,
    ) -> Registers {
        Registers {
            af: word(
                flag_byte(
                    updated(z, self.zero()),
                    updated(n, self.subtract()),
                    updated(h, self.half_carry()),
                    updated(c, self.carry()),
                ),
                self.a(),
            ),
            ..self
        }
    }
}

/// Reading the four flags back from a flag byte gives the flags it was built from.
pub proof fn lemma_flag_byte(z: bool, n: bool, h: bool, c: bool)
    ensures
        zero_bit(flag_byte(z, n, h, c)) == z,
        subtract_bit(flag_byte(z, n, h, c)) == n,
        half_carry_bit(flag_byte(z, n, h, c)) == h,
        carry_bit(flag_byte(z, n, h, c)) == c,
        flag_byte(z, n, h, c) % 16 == 0,
{
}

impl Registers {
    /// Power-on values (colour model), with the program counter at the start
    /// of cartridge code, past the boot ROM.
    pub fn init() -> (r: Registers)
        ensures
            r == (Registers { af: 0x1180, bc: 0x0000, de: 0xFF56, hl: 0x000D, sp: 0xFFFE, pc: 0x0100 }),
    {
        Registers { af: 0x1180, bc: 0x0000, de: 0xFF56, hl: 0x000D, pc: 0x0100, sp: 0xFFFE }
    }

    /// Updates the four flags at once: `Some(true)` sets a flag,
    /// `Some(false)` clears it, `None` leaves it as it is.
    pub fn set_flags(&mut self, z: Option<bool>, n: Option<bool>, h: Option<bool>, c: Option<bool>)
        ensures
            *final(self) == old(self).with_flags(z, n, h, c),
    {
        let f: u8 = (self.af % 256) as u8;
        let a: u8 = (self.af / 256) as u8;
        let zero = match z {
            Some(b) => b,
            None => (f / 128) % 2 == 1,
        };
        let subtract = match n {
            Some(b) => b,
            None => (f / 64) % 2 == 1,
        };
        let half_carry = match h {
            Some(b) => b,
            None => (f / 32) % 2 == 1,
        };
        let carry = match c {
            Some(b) => b,
            None => (f / 16) % 2 == 1,
        };
        let mut new_state: u8 = 0x00;
        if zero {
            new_state = new_state + 0x80;
        }
        if subtract {
            new_state = new_state + 0x40;
        }
        if half_carry {
            new_state = new_state + 0x20;
        }
        if carry {
            new_state = new_state + 0x10;
        }
        self.af = as_u16(new_state, a);
    }

    /// Hands out the 16-bit register `reg` for reading and writing.
    pub fn from_enum(&mut self, reg: Register) -> (r: &mut u16)
        ensures
            *r == old(self).get(reg),
            *final(self) == old(self).with(reg, *final(r)),
    {
        match reg {
            Register::AF => &mut self.af,
            Register::BC => &mut self.bc,
            Register::DE => &mut self.de,
            Register::HL => &mut self.hl,
            Register::SP => &mut self.sp,
            Register::PC => &mut self.pc,
        }
    }
}

impl Registers {
    /// Reads an 8-bit register (not the memory operand).
    pub fn get8(&self, r: Reg8) -> (v: u8)
        requires
            r != Reg8::AtHL,
        ensures
            v == self.reg8(r),
    {
        let (lsb, msb) = match r {
            Reg8::B | Reg8::C => self.bc.split(),
            Reg8::D | Reg8::E => self.de.split(),
            Reg8::H | Reg8::L => self.hl.split(),
            _ => self.af.split(),
        };
        match r {
            Reg8::B | Reg8::D | Reg8::H | Reg8::A => msb,
            _ => lsb,
        }
    }

    /// Writes an 8-bit register (not the memory operand); the other byte of
    /// its pair is kept.
    pub fn set8(&mut self, r: Reg8, v: u8)
        requires
            r != Reg8::AtHL,
        ensures
            *final(self) == old(self).with_reg8(r, v),
    {
        let (pair, high) = match r {
            Reg8::B => (Register::BC, true),
            Reg8::C => (Register::BC, false),
            Reg8::D => (Register::DE, true),
            Reg8::E => (Register::DE, false),
            Reg8::H => (Register::HL, true),
            Reg8::L => (Register::HL, false),
            _ => (Register::AF, true),
        };
        let slot = self.from_enum(pair);
        let (lsb, msb) = slot.split();
        if high {
            *slot = as_u16(lsb, v);
        } else {
            *slot = as_u16(v, msb);
        }
    }
}

impl Registers {
    /// Reads a 16-bit register.
    pub fn pair(&self, reg: Register) -> (v: u16)
        ensures
            v == self.get(reg),
    {
        match reg {
            Register::AF => self.af,
            Register::BC => self.bc,
            Register::DE => self.de,
            Register::HL => self.hl,
            Register::SP => self.sp,
            Register::PC => self.pc,
        }
    }

    /// The Zero flag.
    pub fn zero_flag(&self) -> (b: bool)
        ensures
            b == self.zero(),
    {
        ((self.af % 256) as u8 / 128) % 2 == 1
    }

    /// The Carry flag.
    pub fn carry_flag(&self) -> (b: bool)
        ensures
            b == self.carry(),
    {
        ((self.af % 256) as u8 / 16) % 2 == 1
    }

    /// Whether a jump condition holds for the current flags.
    pub fn holds(&self, c: Condition) -> (b: bool)
        ensures
            b == condition_holds(c, *self),
    {
        match c {
            Condition::Always => true,
            Condition::NotZero => !self.zero_flag(),
            Condition::Zero => self.zero_flag(),
            Condition::NotCarry => !self.carry_flag(),
            Condition::Carry => self.carry_flag(),
        }
    }
}

/// The pair and the half (high or not) that hold an 8-bit register.
fn home_of(t: Reg8) -> (r: (Register, bool))
    requires
        t != Reg8::AtHL,
    ensures
        r == home(t),
{
    match t {
        Reg8::B => (Register::BC, true),
        Reg8::C => (Register::BC, false),
        Reg8::D => (Register::DE, true),
        Reg8::E => (Register::DE, false),
        Reg8::H => (Register::HL, true),
        Reg8::L => (Register::HL, false),
        _ => (Register::AF, true),
    }
}

/// The program counter after a relative jump by the signed displacement `d`.
fn relative_target(pc: u16, d: u8) -> (r: u16)
    ensures
        r == jump_target(pc, d),
{
    if d < 128 {
        pc.wrapping_add(d as u16)
    } else {
        pc.wrapping_sub(256u16 - d as u16)
    }
}

/// The machine cycles counted so far.
#[derive(Debug, Clone, Copy, PartialEq, Eq, Structural)]
pub struct Clock {
    /// Elapsed machine cycles; wraps around at the top of `u64`.
    pub cycles: u64,
    /// Clock frequency in hertz.
    pub clock_speed: u64,
}

/// Frequency of the double-speed system clock, in hertz.
pub const CLOCK_SPEED: u64 = 8_388_608;

impl Clock {
    /// A clock at zero cycles.
    pub fn init() -> (r: Clock)
        ensures
            r == (Clock { cycles: 0, clock_speed: CLOCK_SPEED }),
    {
        Clock { cycles: 0, clock_speed: CLOCK_SPEED }
    }
}

/// Whether the engine fetches further instructions.
#[derive(Debug, Clone, Copy, PartialEq, Eq, Structural)]
pub enum State {
    Running,
    Stopped,
}

/// What one step did: the operation performed and the cycles charged.
#[derive(Debug, Clone, Copy, PartialEq, Eq, Structural)]
pub struct Step {
    pub instruction: Instruction,
    pub cycles: u8,
}

/// The execution engine: it owns the register file, the bus and the clock.
#[derive(Debug)]
pub struct CPU {
    pub memory: Memory,
    pub registers: Registers,
    pub clock: Clock,
    pub state: State,
}

/// `after` is `before` with `outcome` applied and `cost` machine cycles
/// charged, and `res` reports it; the run state is kept. On an error nothing
/// is charged and the bus is untouched.
pub open spec fn applied(before: CPU, after: CPU, outcome: Outcome, res: Result<(), MemoryError>, cost: u8) -> bool {
    &&& after.clock.clock_speed == before.clock.clock_speed
    &&& after.state == before.state
    &&& match outcome {
        Ok((r, m)) => {
            &&& res is Ok
            &&& after.registers == r
            &&& after.memory@ == m
            &&& after.clock.cycles == before.clock.cycles.wrapping_add(cost as u64)
        },
        Err(e) => {
            &&& res == Err::<(), MemoryError>(e)
            &&& after.memory@ == before.memory@
            &&& after.clock == before.clock
        },
    }
}

/// Only the register file changed, to `r`, and `cost` machine cycles were charged.
pub open spec fn registers_became(before: CPU, after: CPU, r: Registers, cost: u8) -> bool {
    &&& after.registers == r
    &&& after.memory == before.memory
    &&& after.clock.cycles == before.clock.cycles.wrapping_add(cost as u64)
    &&& after.clock.clock_speed == before.clock.clock_speed
    &&& after.state == before.state
}

/// A run of at most `fuel` steps from registers `r`, bus contents `m`,
/// cycle count `cycles` and run state `state`: how many steps were made (or
/// the bus error that ended the run), and the registers, bus contents, cycle
/// count and run state it ends with. A run ends at STOP, at a bus error, or
/// when the fuel is spent; a stopped engine makes no step.
pub open spec fn run_spec(r: Registers, m: Seq<u8>, cycles: u64, state: State, fuel: nat) -> (
    Result<nat, MemoryError>,
    Registers,
    Seq<u8>,
    u64,
    State,
)
    decreases fuel,
{
    if fuel == 0 || state == State::Stopped {
        (Ok(0), r, m, cycles, state)
    } else {
        match step_spec(r, m) {
            Err(e) => (Err(e), r, m, cycles, State::Stopped),
            Ok((ins, r2, m2)) => counted(
                1,
                run_spec(
                    r2,
                    m2,
                    cycles.wrapping_add(cycles_spec(ins) as u64),
                    if ins == Instruction::Stop {
                        State::Stopped
                    } else {
                        state
                    },
                    (fuel - 1) as nat,
                ),
            ),
        }
    }
}

/// A run's outcome with `n` more steps counted.
pub open spec fn counted(
    n: nat,
    run: (Result<nat, MemoryError>, Registers, Seq<u8>, u64, State),
) -> (Result<nat, MemoryError>, Registers, Seq<u8>, u64, State) {
    (
        match run.0 {
            Ok(k) => Ok(k + n),
            Err(e) => Err(e),
        },
        run.1,
        run.2,
        run.3,
        run.4,
    )
}

/// A run of at most `fuel` steps from the engine's current state.
pub open spec fn run_from(cpu: CPU, fuel: nat) -> (Result<nat, MemoryError>, Registers, Seq<u8>, u64, State) {
    run_spec(cpu.registers, cpu.memory@, cpu.clock.cycles, cpu.state, fuel)
}

/// A step count as a mathematical number.
pub open spec fn counted_result(r: Result<u64, MemoryError>) -> Result<nat, MemoryError> {
    match r {
        Ok(n) => Ok(n as nat),
        Err(e) => Err(e),
    }
}

impl CPU {
    /// An engine at the power-on register values, with the clock at zero, running.
    pub fn new(memory: Memory) -> (r: CPU)
        ensures
            r.memory == memory,
            r.registers == (Registers {
                af: 0x1180,
                bc: 0x0000,
                de: 0xFF56,
                hl: 0x000D,
                sp: 0xFFFE,
                pc: 0x0100,
            }),
            r.clock == (Clock { cycles: 0, clock_speed: CLOCK_SPEED }),
            r.state == State::Running,
    {
        CPU { memory, registers: Registers::init(), clock: Clock::init(), state: State::Running }
    }

    /// Adds `n` machine cycles to the clock.
    fn charge(&mut self, n: u8)
        ensures
            registers_became(*old(self), *final(self), old(self).registers, n),
    {
        self.clock.cycles = self.clock.cycles.wrapping_add(n as u64);
    }

    /// Reads the bus, first refusing an address that no region owns.
    fn read_bus(&self, address: u16) -> (r: Result<u8, MemoryError>)
        ensures
            r == bus_read(self.memory@, address),
    {
        match region(address) {
            Region::Unmapped => Err(MemoryError::UnmappedRead(address)),
            _ => Ok(self.memory.read(address)),
        }
    }

    /// Checks that a write to `address` is allowed, with the error it gets if
    /// not (a refusal depends on the address alone, whatever the bus holds).
    fn check_write(address: u16) -> (r: Result<(), MemoryError>)
        ensures
            match r {
                Ok(()) => region_of(address) != Region::Rom && region_of(address) != Region::Unmapped,
                Err(e) => bus_write(Seq::empty(), address, 0) == Err::<Seq<u8>, MemoryError>(e),
            },
    {
        match region(address) {
            Region::Rom => Err(MemoryError::WriteToRom(address)),
            Region::Unmapped => Err(MemoryError::UnmappedWrite(address)),
            _ => Ok(()),
        }
    }

    /// Writes the bus, first refusing the program image and the unmapped gaps.
    fn write_bus(&mut self, address: u16, data: u8) -> (r: Result<(), MemoryError>)
        ensures
            match bus_write(old(self).memory@, address, data) {
                Ok(m) => r is Ok && final(self).memory@ == m,
                Err(e) => r == Err::<(), MemoryError>(e) && final(self).memory@ == old(self).memory@,
            },
            final(self).registers == old(self).registers,
            final(self).clock == old(self).clock,
            final(self).state == old(self).state,
    {
        Self::check_write(address)?;
        self.memory.write(address, data);
        Ok(())
    }

    /// Increments the low byte of a register pair, the high byte kept, sets
    /// the flags of an 8-bit increment and charges one machine cycle.
    pub fn inc_r8_lsb(&mut self, reg: Register)
        ensures
            registers_became(
                *old(self),
                *final(self),
                inc_flags(
                    old(self).registers.with_low(reg, low_byte(old(self).registers.get(reg)).wrapping_add(1)),
                    low_byte(old(self).registers.get(reg)),
                ),
                1,
            ),
    {
        let register = self.registers.from_enum(reg);
        let (lsb, msb) = register.split();
        *register = as_u16(lsb.wrapping_add(1), msb);
        self.registers.set_flags(Some(lsb.wrapping_add(1) == 0), Some(false), Some(lsb % 16 == 15), None);
        self.charge(1);
    }

    /// Increments the high byte of a register pair, the low byte kept, sets
    /// the flags of an 8-bit increment and charges one machine cycle.
    pub fn inc_r8_msb(&mut self, reg: Register)
        ensures
            registers_became(
                *old(self),
                *final(self),
                inc_flags(
                    old(self).registers.with_high(reg, high_byte(old(self).registers.get(reg)).wrapping_add(1)),
                    high_byte(old(self).registers.get(reg)),
                ),
                1,
            ),
    {
        let register = self.registers.from_enum(reg);
        let (lsb, msb) = register.split();
        *register = as_u16(lsb, msb.wrapping_add(1));
        self.registers.set_flags(Some(msb.wrapping_add(1) == 0), Some(false), Some(msb % 16 == 15), None);
        self.charge(1);
    }

    /// Decrements the low byte of a register pair, the high byte kept, sets
    /// the flags of an 8-bit decrement and charges one machine cycle.
    pub fn dec_r8_lsb(&mut self, reg: Register)
        ensures
            registers_became(
                *old(self),
                *final(self),
                dec_flags(
                    old(self).registers.with_low(reg, low_byte(old(self).registers.get(reg)).wrapping_sub(1)),
                    low_byte(old(self).registers.get(reg)),
                ),
                1,
            ),
    {
        let register = self.registers.from_enum(reg);
        let (lsb, msb) = register.split();
        *register = as_u16(lsb.wrapping_sub(1), msb);
        self.registers.set_flags(Some(lsb.wrapping_sub(1) == 0), Some(true), Some(lsb % 16 == 0), None);
        self.charge(1);
    }

    /// Decrements the high byte of a register pair, the low byte kept, sets
    /// the flags of an 8-bit decrement and charges one machine cycle.
    pub fn dec_r8_msb(&mut self, reg: Register)
        ensures
            registers_became(
                *old(self),
                *final(self),
                dec_flags(
                    old(self).registers.with_high(reg, high_byte(old(self).registers.get(reg)).wrapping_sub(1)),
                    high_byte(old(self).registers.get(reg)),
                ),
                1,
            ),
    {
        let register = self.registers.from_enum(reg);
        let (lsb, msb) = register.split();
        *register = as_u16(lsb, msb.wrapping_sub(1));
        self.registers.set_flags(Some(msb.wrapping_sub(1) == 0), Some(true), Some(msb % 16 == 0), None);
        self.charge(1);
    }

    /// Reads the byte at the program counter and advances the program
    /// counter past it; charges nothing. On a bus error nothing changes.
    pub fn fetch(&mut self) -> (r: Result<u8, MemoryError>)
        ensures
            r == bus_read(old(self).memory@, old(self).registers.pc),
            registers_became(
                *old(self),
                *final(self),
                if r is Ok {
                    old(self).registers.with(Register::PC, old(self).registers.pc.wrapping_add(1))
                } else {
                    old(self).registers
                },
                0,
            ),
    {
        let data = self.read_bus(self.registers.pc)?;
        self.registers.pc = self.registers.pc.wrapping_add(1);
        Ok(data)
    }

    /// Reads the next byte into the low byte of a register pair and charges
    /// two machine cycles.
    pub fn load_r8_lsb(&mut self, reg: Register) -> (r: Result<(), MemoryError>)
        ensures
            match bus_read(old(self).memory@, old(self).registers.pc) {
                Ok(d) => r is Ok && registers_became(
                    *old(self),
                    *final(self),
                    old(self).registers.with(Register::PC, old(self).registers.pc.wrapping_add(1)).with_low(reg, d),
                    2,
                ),
                Err(e) => r == Err::<(), MemoryError>(e) && registers_became(*old(self), *final(self), old(self).registers, 0),
            },
    {
        let data = self.fetch()?;
        let register = self.registers.from_enum(reg);
        let (_, msb) = register.split();
        *register = as_u16(data, msb);
        self.charge(2);
        Ok(())
    }

    /// Reads the next byte into the high byte of a register pair and charges
    /// two machine cycles.
    pub fn load_r8_msb(&mut self, reg: Register) -> (r: Result<(), MemoryError>)
        ensures
            match bus_read(old(self).memory@, old(self).registers.pc) {
                Ok(d) => r is Ok && registers_became(
                    *old(self),
                    *final(self),
                    old(self).registers.with(Register::PC, old(self).registers.pc.wrapping_add(1)).with_high(reg, d),
                    2,
                ),
                Err(e) => r == Err::<(), MemoryError>(e) && registers_became(*old(self), *final(self), old(self).registers, 0),
            },
    {
        let data = self.fetch()?;
        let register = self.registers.from_enum(reg);
        let (lsb, _) = register.split();
        *register = as_u16(lsb, data);
        self.charge(2);
        Ok(())
    }

    /// Reads the next two bytes, low byte first, into a register pair and
    /// charges three machine cycles.
    pub fn load_r16(&mut self, reg: Register) -> (r: Result<(), MemoryError>)
        ensures
            match immediate16(old(self).registers, old(self).memory@) {
                Ok(w) => r is Ok && registers_became(
                    *old(self),
                    *final(self),
                    old(self).registers.with(
                        Register::PC,
                        old(self).registers.pc.wrapping_add(1).wrapping_add(1),
                    ).with(reg, w),
                    3,
                ),
                Err(e) => r == Err::<(), MemoryError>(e) && registers_became(*old(self), *final(self), old(self).registers, 0),
            },
    {
        let saved = self.registers.pc;
        let lsb = self.fetch()?;
        let msb = match self.fetch() {
            Ok(b) => b,
            Err(e) => {
                self.registers.pc = saved;
                return Err(e);
            },
        };
        let register = self.registers.from_enum(reg);
        *register = as_u16(lsb, msb);
        self.charge(3);
        Ok(())
    }

    /// One fetch-decode-execute cycle: the opcode at PC is fetched, PC
    /// advanced, and the decoded tag executed (which charges its cycles).
    /// STOP moves the engine to `Stopped`. A bus error stops the engine and
    /// leaves registers, bus and clock as they were.
    pub fn step(&mut self) -> (r: Result<Step, MemoryError>)
        ensures
            match step_spec(old(self).registers, old(self).memory@) {
                Ok((ins, regs, mem)) => {
                    &&& r == Ok::<Step, MemoryError>(Step { instruction: ins, cycles: cycles_spec(ins) })
                    &&& final(self).registers == regs
                    &&& final(self).memory@ == mem
                    &&& final(self).clock.cycles == old(self).clock.cycles.wrapping_add(cycles_spec(ins) as u64)
                    &&& final(self).clock.clock_speed == old(self).clock.clock_speed
                    &&& final(self).state == (if ins == Instruction::Stop {
                        State::Stopped
                    } else {
                        old(self).state
                    })
                },
                Err(e) => {
                    &&& r == Err::<Step, MemoryError>(e)
                    &&& final(self).registers == old(self).registers
                    &&& final(self).memory@ == old(self).memory@
                    &&& final(self).clock == old(self).clock
                    &&& final(self).state == State::Stopped
                },
            },
    {
        reveal(step_spec);
        let saved = self.registers;
        let opcode = match self.fetch() {
            Ok(b) => b,
            Err(e) => {
                self.state = State::Stopped;
                return Err(e);
            },
        };
        match self.execute(Instruction::decode(opcode)) {
            Ok(step) => {
                if step.instruction == Instruction::Stop {
                    self.state = State::Stopped;
                }
                Ok(step)
            },
            Err(e) => {
                self.registers = saved;
                self.state = State::Stopped;
                Err(e)
            },
        }
    }

    /// Runs the fetch loop: steps while the engine is running, at most
    /// `max_steps` times, and returns how many steps it made. A stopped
    /// engine makes no step. A bus error ends the loop with that error.
    pub fn init(&mut self, max_steps: u64) -> (r: Result<u64, MemoryError>)
        ensures
            counted_result(r) == run_from(*old(self), max_steps as nat).0,
            final(self).registers == run_from(*old(self), max_steps as nat).1,
            final(self).memory@ == run_from(*old(self), max_steps as nat).2,
            final(self).clock.cycles == run_from(*old(self), max_steps as nat).3,
            final(self).clock.clock_speed == old(self).clock.clock_speed,
            final(self).state == run_from(*old(self), max_steps as nat).4,
            old(self).state == State::Stopped ==> r == Ok::<u64, MemoryError>(0) && *final(self) == *old(self),
            match r {
                Ok(n) => n <= max_steps && (final(self).state == State::Stopped || n == max_steps),
                Err(_) => final(self).state == State::Stopped,
            },
    {
        let mut n: u64 = 0;
        while n < max_steps && self.state == State::Running
            invariant
                n <= max_steps,
                old(self).state == State::Stopped ==> n == 0 && *self == *old(self),
                self.clock.clock_speed == old(self).clock.clock_speed,
                run_from(*old(self), max_steps as nat) == counted(
                    n as nat,
                    run_spec(
                        self.registers,
                        self.memory@,
                        self.clock.cycles,
                        self.state,
                        (max_steps - n) as nat,
                    ),
                ),
            decreases max_steps - n,
        {
            let ghost fuel = (max_steps - n) as nat;
            let ghost regs = self.registers;
            let ghost mem = self.memory@;
            let ghost cycles = self.clock.cycles;
            let ghost state = self.state;
            match self.step() {
                Ok(_) => {},
                Err(e) => {
                    assert(run_spec(regs, mem, cycles, state, fuel) == (
                        Err::<nat, MemoryError>(e),
                        regs,
                        mem,
                        cycles,
                        State::Stopped,
                    ));
                    return Err(e);
                },
            }
            n = n + 1;
        }
        assert(run_spec(self.registers, self.memory@, self.clock.cycles, self.state, (max_steps - n) as nat).0
            == Ok::<nat, MemoryError>(0));
        Ok(n)
    }

    /// Reads an 8-bit operand.
    fn read_operand(&self, t: Reg8) -> (r: Result<u8, MemoryError>)
        ensures
            r == operand_value(self.registers, self.memory@, t),
    {
        if t == Reg8::AtHL {
            self.read_bus(self.registers.hl)
        } else {
            Ok(self.registers.get8(t))
        }
    }

    /// Stores into an 8-bit operand; charges nothing.
    fn write_operand(&mut self, t: Reg8, v: u8) -> (r: Result<(), MemoryError>)
        ensures
            applied(*old(self), *final(self), operand_written(old(self).registers, old(self).memory@, t, v), r, 0),
    {
        if t == Reg8::AtHL {
            self.write_bus(self.registers.hl, v)
        } else {
            self.registers.set8(t, v);
            Ok(())
        }
    }

    /// Executes one decoded tag and charges its machine cycles. The escape
    /// tag reads one more byte at PC and executes the extended operation it
    /// names instead. Returns the operation performed and its cost. On a bus
    /// error nothing is charged and the bus is left as it was.
    pub fn execute(&mut self, ins: Instruction) -> (r: Result<Step, MemoryError>)
        ensures
            final(self).clock.clock_speed == old(self).clock.clock_speed,
            final(self).state == old(self).state,
            match execute_spec(ins, old(self).registers, old(self).memory@) {
                Ok((leaf, regs, mem)) => {
                    &&& r == Ok::<Step, MemoryError>(Step { instruction: leaf, cycles: cycles_spec(leaf) })
                    &&& final(self).registers == regs
                    &&& final(self).memory@ == mem
                    &&& final(self).clock.cycles == old(self).clock.cycles.wrapping_add(cycles_spec(leaf) as u64)
                },
                Err(e) => {
                    &&& r == Err::<Step, MemoryError>(e)
                    &&& final(self).memory@ == old(self).memory@
                    &&& final(self).clock == old(self).clock
                },
            },
    {
        let leaf = if ins == Instruction::Prefix {
            let extended = self.fetch()?;
            Instruction::decode_extended(extended)
        } else {
            ins
        };
        self.perform(leaf)?;
        Ok(Step { instruction: leaf, cycles: leaf.cycles() })
    }

    /// Performs one leaf operation and charges its machine cycles.
    fn perform(&mut self, ins: Instruction) -> (r: Result<(), MemoryError>)
        ensures
            applied(*old(self), *final(self), operation_spec(ins, old(self).registers, old(self).memory@), r, cycles_spec(ins)),
    {
        match ins {
            Instruction::Nop | Instruction::Invalid => {
                self.charge(1);
                Ok(())
            },
            Instruction::Stop | Instruction::Prefix => Ok(()),
            Instruction::LoadImm8(t) => self.load_imm8(t),
            Instruction::LoadImm16(p) => self.load_r16(p.register()),
            Instruction::Load(d, s) => self.load(d, s),
            Instruction::StoreA(p) => self.store_a(p),
            Instruction::LoadA(p) => self.load_a(p),
            Instruction::StoreSp => self.store_sp(),
            Instruction::Inc8(t) => self.inc8(t),
            Instruction::Dec8(t) => self.dec8(t),
            Instruction::Inc16(p) => self.inc16(p),
            Instruction::Dec16(p) => self.dec16(p),
            Instruction::AddHl(p) => self.add_hl(p),
            Instruction::Rlca => self.rotate_a(ShiftOp::Rlc),
            Instruction::Rrca => self.rotate_a(ShiftOp::Rrc),
            Instruction::Rla => self.rotate_a(ShiftOp::Rl),
            Instruction::Rra => self.rotate_a(ShiftOp::Rr),
            Instruction::Daa => self.daa(),
            Instruction::Cpl => self.cpl(),
            Instruction::Scf => self.scf(),
            Instruction::Ccf => self.ccf(),
            Instruction::JumpRelative(c) => self.jump_relative(c),
            Instruction::JumpAbsolute => self.jump_absolute(),
            Instruction::Shift(op, t) => self.shift_operand(op, t),
            Instruction::TestBit(n, t) => self.test_bit(n, t),
            Instruction::ResetBit(n, t) => self.write_bit(n, t, false),
            Instruction::SetBit(n, t) => self.write_bit(n, t, true),
        }
    }

    /// INC rr: the pair plus one, wrapping; no flag changes.
    fn inc16(&mut self, p: Pair) -> (r: Result<(), MemoryError>)
        ensures
            applied(*old(self), *final(self), operation_spec(Instruction::Inc16(p), old(self).registers, old(self).memory@), r, cycles_spec(Instruction::Inc16(p))),
    {
        let register = self.registers.from_enum(p.register());
        *register = register.wrapping_add(1);
        self.charge(2);
        Ok(())
    }

    /// DEC rr: the pair minus one, wrapping; no flag changes.
    fn dec16(&mut self, p: Pair) -> (r: Result<(), MemoryError>)
        ensures
            applied(*old(self), *final(self), operation_spec(Instruction::Dec16(p), old(self).registers, old(self).memory@), r, cycles_spec(Instruction::Dec16(p))),
    {
        let register = self.registers.from_enum(p.register());
        *register = register.wrapping_sub(1);
        self.charge(2);
        Ok(())
    }

    /// DAA: decimal-adjust A; Zero reflects the result, Half-Carry cleared.
    fn daa(&mut self) -> (r: Result<(), MemoryError>)
        ensures
            applied(*old(self), *final(self), operation_spec(Instruction::Daa, old(self).registers, old(self).memory@), r, cycles_spec(Instruction::Daa)),
    {
        let a = self.registers.get8(Reg8::A);
        let f = (self.registers.af % 256) as u8;
        let (res, carry) = daa(a, (f / 64) % 2 == 1, (f / 32) % 2 == 1, (f / 16) % 2 == 1);
        self.registers.set8(Reg8::A, res);
        self.registers.set_flags(Some(res == 0), None, Some(false), Some(carry));
        self.charge(1);
        Ok(())
    }

    /// CPL: complement A; sets Subtract and Half-Carry.
    fn cpl(&mut self) -> (r: Result<(), MemoryError>)
        ensures
            applied(*old(self), *final(self), operation_spec(Instruction::Cpl, old(self).registers, old(self).memory@), r, cycles_spec(Instruction::Cpl)),
    {
        let a = self.registers.get8(Reg8::A);
        self.registers.set8(Reg8::A, 255 - a);
        self.registers.set_flags(None, Some(true), Some(true), None);
        self.charge(1);
        Ok(())
    }

    /// SCF: set Carry; clears Subtract and Half-Carry.
    fn scf(&mut self) -> (r: Result<(), MemoryError>)
        ensures
            applied(*old(self), *final(self), operation_spec(Instruction::Scf, old(self).registers, old(self).memory@), r, cycles_spec(Instruction::Scf)),
    {
        self.registers.set_flags(None, Some(false), Some(false), Some(true));
        self.charge(1);
        Ok(())
    }

    /// CCF: complement Carry; clears Subtract and Half-Carry.
    fn ccf(&mut self) -> (r: Result<(), MemoryError>)
        ensures
            applied(*old(self), *final(self), operation_spec(Instruction::Ccf, old(self).registers, old(self).memory@), r, cycles_spec(Instruction::Ccf)),
    {
        let carry = self.registers.carry_flag();
        self.registers.set_flags(None, Some(false), Some(false), Some(!carry));
        self.charge(1);
        Ok(())
    }

    /// JP a16: jump to the address in the next two bytes.
    fn jump_absolute(&mut self) -> (r: Result<(), MemoryError>)
        ensures
            applied(*old(self), *final(self), operation_spec(Instruction::JumpAbsolute, old(self).registers, old(self).memory@), r, cycles_spec(Instruction::JumpAbsolute)),
    {
        let lsb = self.fetch()?;
        let msb = self.fetch()?;
        self.registers.pc = as_u16(lsb, msb);
        self.charge(4);
        Ok(())
    }

    /// BIT n,r: Zero set when bit `n` is clear; sets Half-Carry, clears Subtract.
    fn test_bit(&mut self, n: u8, t: Reg8) -> (r: Result<(), MemoryError>)
        ensures
            applied(*old(self), *final(self), operation_spec(Instruction::TestBit(n, t), old(self).registers, old(self).memory@), r, cycles_spec(Instruction::TestBit(n, t))),
    {
        let v = self.read_operand(t)?;
        let set = (v / mask(n)) % 2 == 1;
        self.registers.set_flags(Some(!set), Some(false), Some(true), None);
        self.charge(Instruction::TestBit(n, t).cycles());
        Ok(())
    }

    /// RES n,r or SET n,r: clear or set bit `n`; no flag changes.
    fn write_bit(&mut self, n: u8, t: Reg8, set: bool) -> (r: Result<(), MemoryError>)
        ensures
            ({
                let ins = if set {
                    Instruction::SetBit(n, t)
                } else {
                    Instruction::ResetBit(n, t)
                };
                applied(*old(self), *final(self), operation_spec(ins, old(self).registers, old(self).memory@), r, cycles_spec(ins))
            }),
    {
        let v = self.read_operand(t)?;
        self.write_operand(t, with_bit(v, n, set))?;
        let ins = if set {
            Instruction::SetBit(n, t)
        } else {
            Instruction::ResetBit(n, t)
        };
        self.charge(ins.cycles());
        Ok(())
    }

    /// LD r,d8: the next byte into an 8-bit operand.
    fn load_imm8(&mut self, t: Reg8) -> (r: Result<(), MemoryError>)
        ensures
            applied(*old(self), *final(self), operation_spec(Instruction::LoadImm8(t), old(self).registers, old(self).memory@), r, cycles_spec(Instruction::LoadImm8(t))),
    {
        if t == Reg8::AtHL {
            let d = self.fetch()?;
            self.write_operand(t, d)?;
            self.charge(3);
            Ok(())
        } else {
            let (pair, high) = home_of(t);
            if high {
                self.load_r8_msb(pair)
            } else {
                self.load_r8_lsb(pair)
            }
        }
    }

    /// LD r,r': copy one 8-bit operand into another.
    fn load(&mut self, d: Reg8, s: Reg8) -> (r: Result<(), MemoryError>)
        ensures
            applied(*old(self), *final(self), operation_spec(Instruction::Load(d, s), old(self).registers, old(self).memory@), r, cycles_spec(Instruction::Load(d, s))),
    {
        let v = self.read_operand(s)?;
        self.write_operand(d, v)?;
        self.charge(Instruction::Load(d, s).cycles());
        Ok(())
    }

    /// LD (rr),A: store A through a pointer, then step HL for HL+ and HL-.
    fn store_a(&mut self, p: Pointer) -> (r: Result<(), MemoryError>)
        ensures
            applied(*old(self), *final(self), operation_spec(Instruction::StoreA(p), old(self).registers, old(self).memory@), r, cycles_spec(Instruction::StoreA(p))),
    {
        let address = match p {
            Pointer::BC => self.registers.bc,
            Pointer::DE => self.registers.de,
            _ => self.registers.hl,
        };
        self.write_bus(address, self.registers.af.split().1)?;
        self.step_pointer(p);
        self.charge(2);
        Ok(())
    }

    /// LD A,(rr): load A through a pointer, then step HL for HL+ and HL-.
    fn load_a(&mut self, p: Pointer) -> (r: Result<(), MemoryError>)
        ensures
            applied(*old(self), *final(self), operation_spec(Instruction::LoadA(p), old(self).registers, old(self).memory@), r, cycles_spec(Instruction::LoadA(p))),
    {
        let address = match p {
            Pointer::BC => self.registers.bc,
            Pointer::DE => self.registers.de,
            _ => self.registers.hl,
        };
        let v = self.read_bus(address)?;
        self.step_pointer(p);
        self.registers.set8(Reg8::A, v);
        self.charge(2);
        Ok(())
    }

    /// LD (a16),SP: store SP, low byte first, at the address in the next two
    /// bytes. Both target addresses are checked before either byte is written.
    fn store_sp(&mut self) -> (r: Result<(), MemoryError>)
        ensures
            applied(*old(self), *final(self), operation_spec(Instruction::StoreSp, old(self).registers, old(self).memory@), r, cycles_spec(Instruction::StoreSp)),
    {
        let lsb = self.fetch()?;
        let msb = self.fetch()?;
        let address = as_u16(lsb, msb);
        let next = address.wrapping_add(1);
        Self::check_write(address)?;
        Self::check_write(next)?;
        let (sp_lsb, sp_msb) = self.registers.sp.split();
        self.memory.write(address, sp_lsb);
        self.memory.write(next, sp_msb);
        self.charge(5);
        Ok(())
    }

    /// INC r: 8-bit increment of a register or of the byte at HL.
    fn inc8(&mut self, t: Reg8) -> (r: Result<(), MemoryError>)
        ensures
            applied(*old(self), *final(self), operation_spec(Instruction::Inc8(t), old(self).registers, old(self).memory@), r, cycles_spec(Instruction::Inc8(t))),
    {
        if t == Reg8::AtHL {
            let v = self.read_bus(self.registers.hl)?;
            self.write_bus(self.registers.hl, v.wrapping_add(1))?;
            self.registers.set_flags(Some(v.wrapping_add(1) == 0), Some(false), Some(v % 16 == 15), None);
            self.charge(3);
        } else {
            let (pair, high) = home_of(t);
            if high {
                self.inc_r8_msb(pair);
            } else {
                self.inc_r8_lsb(pair);
            }
        }
        Ok(())
    }

    /// DEC r: 8-bit decrement of a register or of the byte at HL.
    fn dec8(&mut self, t: Reg8) -> (r: Result<(), MemoryError>)
        ensures
            applied(*old(self), *final(self), operation_spec(Instruction::Dec8(t), old(self).registers, old(self).memory@), r, cycles_spec(Instruction::Dec8(t))),
    {
        if t == Reg8::AtHL {
            let v = self.read_bus(self.registers.hl)?;
            self.write_bus(self.registers.hl, v.wrapping_sub(1))?;
            self.registers.set_flags(Some(v.wrapping_sub(1) == 0), Some(true), Some(v % 16 == 0), None);
            self.charge(3);
        } else {
            let (pair, high) = home_of(t);
            if high {
                self.dec_r8_msb(pair);
            } else {
                self.dec_r8_lsb(pair);
            }
        }
        Ok(())
    }

    /// ADD HL,rr: Half-Carry from bit 11, Carry from bit 15, Zero kept.
    fn add_hl(&mut self, p: Pair) -> (r: Result<(), MemoryError>)
        ensures
            applied(*old(self), *final(self), operation_spec(Instruction::AddHl(p), old(self).registers, old(self).memory@), r, cycles_spec(Instruction::AddHl(p))),
    {
        let hl = self.registers.hl;
        let v = self.registers.pair(p.register());
        let half_carry = hl % 4096 + v % 4096 >= 4096;
        let carry = hl as u32 + v as u32 >= 65536;
        self.registers.hl = hl.wrapping_add(v);
        self.registers.set_flags(None, Some(false), Some(half_carry), Some(carry));
        self.charge(2);
        Ok(())
    }

    /// JR cc,r8: add the signed displacement to PC when the condition holds.
    fn jump_relative(&mut self, c: Condition) -> (r: Result<(), MemoryError>)
        ensures
            applied(*old(self), *final(self), operation_spec(Instruction::JumpRelative(c), old(self).registers, old(self).memory@), r, cycles_spec(Instruction::JumpRelative(c))),
    {
        let taken = self.registers.holds(c);
        let d = self.fetch()?;
        if taken {
            self.registers.pc = relative_target(self.registers.pc, d);
        }
        self.charge(Instruction::JumpRelative(c).cycles());
        Ok(())
    }

    /// The extended-table shifts and rotates; Zero reflects the result.
    fn shift_operand(&mut self, op: ShiftOp, t: Reg8) -> (r: Result<(), MemoryError>)
        ensures
            applied(*old(self), *final(self), operation_spec(Instruction::Shift(op, t), old(self).registers, old(self).memory@), r, cycles_spec(Instruction::Shift(op, t))),
    {
        let v = self.read_operand(t)?;
        let (res, out) = shift(op, v, self.registers.carry_flag());
        self.write_operand(t, res)?;
        self.registers.set_flags(Some(res == 0), Some(false), Some(false), Some(out));
        self.charge(Instruction::Shift(op, t).cycles());
        Ok(())
    }

    /// Moves HL on after an accumulator transfer through HL+ or HL-.
    fn step_pointer(&mut self, p: Pointer)
        ensures
            registers_became(*old(self), *final(self), pointer_stepped(old(self).registers, p), 0),
    {
        match p {
            Pointer::HLInc => {
                self.registers.hl = self.registers.hl.wrapping_add(1);
            },
            Pointer::HLDec => {
                self.registers.hl = self.registers.hl.wrapping_sub(1);
            },
            _ => {},
        }
    }

    /// RLCA, RRCA, RLA, RRA: rotate the accumulator; Zero, Subtract and
    /// Half-Carry end up clear; one machine cycle.
    fn rotate_a(&mut self, op: ShiftOp) -> (r: Result<(), MemoryError>)
        ensures
            r is Ok,
            registers_became(*old(self), *final(self), rotated_a(old(self).registers, op), 1),
    {
        let a = self.registers.get8(Reg8::A);
        let (res, out) = shift(op, a, self.registers.carry_flag());
        self.registers.set8(Reg8::A, res);
        self.registers.set_flags(Some(false), Some(false), Some(false), Some(out));
        self.charge(1);
        Ok(())
    }
}

} // verus!
