use vstd::prelude::*;

use crate::cpu::Register;

verus! {

/// An 8-bit operand: one of the seven 8-bit registers, or the byte at the
/// address held in HL. Listed in the order of the opcode encoding.
#[derive(Debug, Clone, Copy, PartialEq, Eq, Structural)]
pub enum Reg8 {
    B,
    C,
    D,
    E,
    H,
    L,
    AtHL,
    A,
}

/// A register pair that 16-bit loads, increments, decrements and additions
/// into HL name: AF and PC are never their operand.
#[derive(Debug, Clone, Copy, PartialEq, Eq, Structural)]
pub enum Pair {
    BC,
    DE,
    HL,
    SP,
}

/// The 16-bit register that a pair operand names.
pub open spec fn pair_register(p: Pair) -> Register {
    match p {
        Pair::BC => Register::BC,
        Pair::DE => Register::DE,
        Pair::HL => Register::HL,
        Pair::SP => Register::SP,
    }
}

impl Pair {
    /// The 16-bit register that this pair operand names.
    pub fn register(self) -> (r: Register)
        ensures
            r == pair_register(self),
    {
        match self {
            Pair::BC => Register::BC,
            Pair::DE => Register::DE,
            Pair::HL => Register::HL,
            Pair::SP => Register::SP,
        }
    }
}

/// The address register of an accumulator load or store through memory.
#[derive(Debug, Clone, Copy, PartialEq, Eq, Structural)]
pub enum Pointer {
    BC,
    DE,
    /// HL, incremented after the transfer.
    HLInc,
    /// HL, decremented after the transfer.
    HLDec,
}

/// The shifts and rotates of the extended table, in encoding order.
#[derive(Debug, Clone, Copy, PartialEq, Eq, Structural)]
pub enum ShiftOp {
    /// Rotate left; bit 7 goes to Carry and to bit 0.
    Rlc,
    /// Rotate right; bit 0 goes to Carry and to bit 7.
    Rrc,
    /// Rotate left through Carry.
    Rl,
    /// Rotate right through Carry.
    Rr,
    /// Shift left; bit 7 goes to Carry.
    Sla,
    /// Shift right keeping bit 7; bit 0 goes to Carry.
    Sra,
    /// Exchange the two nibbles; Carry cleared.
    Swap,
    /// Shift right; bit 0 goes to Carry.
    Srl,
}

/// The shift with encoding index `i` (0 to 7).
pub open spec fn shift_at(i: u8) -> ShiftOp {
    if i == 0 {
        ShiftOp::Rlc
    } else if i == 1 {
        ShiftOp::Rrc
    } else if i == 2 {
        ShiftOp::Rl
    } else if i == 3 {
        ShiftOp::Rr
    } else if i == 4 {
        ShiftOp::Sla
    } else if i == 5 {
        ShiftOp::Sra
    } else if i == 6 {
        ShiftOp::Swap
    } else {
        ShiftOp::Srl
    }
}

/// The condition of a relative jump.
#[derive(Debug, Clone, Copy, PartialEq, Eq, Structural)]
pub enum Condition {
    Always,
    NotZero,
    Zero,
    NotCarry,
    Carry,
}

/// A decoded operation. It names what to do and which registers take part;
/// immediate operands are read from the bus by the engine.
#[derive(Debug, Clone, Copy, PartialEq, Eq, Structural)]
pub enum Instruction {
    /// No operation.
    Nop,
    /// Stop the fetch loop.
    Stop,
    /// Escape: one more byte follows, decoded against the extended table.
    Prefix,
    /// Load the next byte into an 8-bit operand.
    LoadImm8(Reg8),
    /// Load the next two bytes (low byte first) into a register pair.
    LoadImm16(Pair),
    /// Copy one 8-bit operand into another: `Load(destination, source)`.
    Load(Reg8, Reg8),
    /// Store A at the address in a register pair.
    StoreA(Pointer),
    /// Load A from the address in a register pair.
    LoadA(Pointer),
    /// Store SP at the address given by the next two bytes.
    StoreSp,
    /// 8-bit increment.
    Inc8(Reg8),
    /// 8-bit decrement.
    Dec8(Reg8),
    /// 16-bit increment of a register pair; no flag changes.
    Inc16(Pair),
    /// 16-bit decrement of a register pair; no flag changes.
    Dec16(Pair),
    /// Add a register pair into HL.
    AddHl(Pair),
    /// Rotate A left; bit 7 goes to Carry and to bit 0.
    Rlca,
    /// Rotate A right; bit 0 goes to Carry and to bit 7.
    Rrca,
    /// Rotate A left through Carry.
    Rla,
    /// Rotate A right through Carry.
    Rra,
    /// Decimal-adjust A after a BCD addition or subtraction.
    Daa,
    /// Complement A.
    Cpl,
    /// Set Carry.
    Scf,
    /// Complement Carry.
    Ccf,
    /// Add the next byte, read as a signed displacement, to PC when the
    /// condition holds.
    JumpRelative(Condition),
    /// Jump to the address given by the next two bytes.
    JumpAbsolute,
    /// Extended table: a shift, rotate or nibble swap of an 8-bit operand.
    Shift(ShiftOp, Reg8),
    /// Extended table: test bit `n` (0 to 7).
    TestBit(u8, Reg8),
    /// Extended table: clear bit `n` (0 to 7).
    ResetBit(u8, Reg8),
    /// Extended table: set bit `n` (0 to 7).
    SetBit(u8, Reg8),
    /// An opcode that is not modelled (such as HALT) or not legal.
    /// It is tolerated: it executes as a no-op charged one machine cycle, and
    /// the engine reports it so that it can be told apart from NOP.
    Invalid,
}

/// The 8-bit operand with encoding index `i` (0 to 7).
pub open spec fn reg8_at(i: u8) -> Reg8 {
    if i == 0 {
        Reg8::B
    } else if i == 1 {
        Reg8::C
    } else if i == 2 {
        Reg8::D
    } else if i == 3 {
        Reg8::E
    } else if i == 4 {
        Reg8::H
    } else if i == 5 {
        Reg8::L
    } else if i == 6 {
        Reg8::AtHL
    } else {
        Reg8::A
    }
}

/// The register pair with encoding index `i` (0 to 3).
pub open spec fn pair_at(i: u8) -> Pair {
    if i == 0 {
        Pair::BC
    } else if i == 1 {
        Pair::DE
    } else if i == 2 {
        Pair::HL
    } else {
        Pair::SP
    }
}

/// The pointer with encoding index `i` (0 to 3).
pub open spec fn pointer_at(i: u8) -> Pointer {
    if i == 0 {
        Pointer::BC
    } else if i == 1 {
        Pointer::DE
    } else if i == 2 {
        Pointer::HLInc
    } else {
        Pointer::HLDec
    }
}

/// The jump condition with encoding index `i` (0 to 3).
pub open spec fn condition_at(i: u8) -> Condition {
    if i == 0 {
        Condition::NotZero
    } else if i == 1 {
        Condition::Zero
    } else if i == 2 {
        Condition::NotCarry
    } else {
        Condition::Carry
    }
}

/// The main opcode table. An opcode splits into x (bits 7-6), y (bits 5-3)
/// and z (bits 2-0); the rows of 0x00-0x3F are picked by z, 0x40-0x7F are
/// register copies (0x76, HALT, is not modelled), and of 0x80-0xFF only the
/// absolute jump and the extended-table escape are modelled.
pub open spec fn decode_spec(byte: u8) -> Instruction {
    let x = byte / 64;
    let y = (byte / 8) % 8;
    let z = byte % 8;
    if x == 0 {
        if z == 0 {
            if y == 0 {
                Instruction::Nop
            } else if y == 1 {
                Instruction::StoreSp
            } else if y == 2 {
                Instruction::Stop
            } else if y == 3 {
                Instruction::JumpRelative(Condition::Always)
            } else {
                Instruction::JumpRelative(condition_at((y - 4) as u8))
            }
        } else if z == 1 {
            if y % 2 == 0 {
                Instruction::LoadImm16(pair_at((y / 2) as u8))
            } else {
                Instruction::AddHl(pair_at((y / 2) as u8))
            }
        } else if z == 2 {
            if y % 2 == 0 {
                Instruction::StoreA(pointer_at((y / 2) as u8))
            } else {
                Instruction::LoadA(pointer_at((y / 2) as u8))
            }
        } else if z == 3 {
            if y % 2 == 0 {
                Instruction::Inc16(pair_at((y / 2) as u8))
            } else {
                Instruction::Dec16(pair_at((y / 2) as u8))
            }
        } else if z == 4 {
            Instruction::Inc8(reg8_at(y as u8))
        } else if z == 5 {
            Instruction::Dec8(reg8_at(y as u8))
        } else if z == 6 {
            Instruction::LoadImm8(reg8_at(y as u8))
        } else if y == 0 {
            Instruction::Rlca
        } else if y == 1 {
            Instruction::Rrca
        } else if y == 2 {
            Instruction::Rla
        } else if y == 3 {
            Instruction::Rra
        } else if y == 4 {
            Instruction::Daa
        } else if y == 5 {
            Instruction::Cpl
        } else if y == 6 {
            Instruction::Scf
        } else {
            Instruction::Ccf
        }
    } else if x == 1 {
        if byte == 0x76 {
            Instruction::Invalid
        } else {
            Instruction::Load(reg8_at(y as u8), reg8_at(z as u8))
        }
    } else if byte == 0xC3 {
        Instruction::JumpAbsolute
    } else if byte == 0xCB {
        Instruction::Prefix
    } else {
        Instruction::Invalid
    }
}

/// The extended opcode table, reached through the 0xCB escape: every byte
/// names a shift, rotate or bit operation on an 8-bit operand.
pub open spec fn decode_extended_spec(byte: u8) -> Instruction {
    let x = byte / 64;
    let y = (byte / 8) % 8;
    let r = reg8_at(byte % 8);
    if x == 0 {
        Instruction::Shift(shift_at(y as u8), r)
    } else if x == 1 {
        Instruction::TestBit(y, r)
    } else if x == 2 {
        Instruction::ResetBit(y, r)
    } else {
        Instruction::SetBit(y, r)
    }
}

/// Machine cycles charged for an 8-bit operand access: more for memory.
pub open spec fn operand_cost(r: Reg8, register_cost: u8, memory_cost: u8) -> u8 {
    if r == Reg8::AtHL {
        memory_cost
    } else {
        register_cost
    }
}

/// Machine cycles that an operation costs; a function of the tag alone.
/// Extended operations include the escape byte's fetch, so the escape itself
/// costs nothing; STOP ends the run and costs nothing. A conditional jump is
/// charged its not-taken cost whether or not it is taken.
pub open spec fn cycles_spec(ins: Instruction) -> u8 {
    match ins {
        Instruction::Nop => 1,
        Instruction::Stop => 0,
        Instruction::Prefix => 0,
        Instruction::LoadImm8(r) => operand_cost(r, 2, 3),
        Instruction::LoadImm16(_) => 3,
        Instruction::Load(d, s) => if d == Reg8::AtHL || s == Reg8::AtHL {
            2
        } else {
            1
        },
        Instruction::StoreA(_) => 2,
        Instruction::LoadA(_) => 2,
        Instruction::StoreSp => 5,
        Instruction::Inc8(r) => operand_cost(r, 1, 3),
        Instruction::Dec8(r) => operand_cost(r, 1, 3),
        Instruction::Inc16(_) => 2,
        Instruction::Dec16(_) => 2,
        Instruction::AddHl(_) => 2,
        Instruction::Rlca => 1,
        Instruction::Rrca => 1,
        Instruction::Rla => 1,
        Instruction::Rra => 1,
        Instruction::Daa => 1,
        Instruction::Cpl => 1,
        Instruction::Scf => 1,
        Instruction::Ccf => 1,
        Instruction::JumpRelative(c) => if c == Condition::Always {
            3
        } else {
            2
        },
        Instruction::JumpAbsolute => 4,
        Instruction::Shift(_, r) => operand_cost(r, 2, 4),
        Instruction::TestBit(_, r) => operand_cost(r, 2, 3),
        Instruction::ResetBit(_, r) => operand_cost(r, 2, 4),
        Instruction::SetBit(_, r) => operand_cost(r, 2, 4),
        Instruction::Invalid => 1,
    }
}

impl Reg8 {
    /// The 8-bit operand with encoding index `i % 8`.
    pub fn from_index(i: u8) -> (r: Reg8)
        ensures
            r == reg8_at(i % 8),
    {
        let i = i % 8;
        if i == 0 {
            Reg8::B
        } else if i == 1 {
            Reg8::C
        } else if i == 2 {
            Reg8::D
        } else if i == 3 {
            Reg8::E
        } else if i == 4 {
            Reg8::H
        } else if i == 5 {
            Reg8::L
        } else if i == 6 {
            Reg8::AtHL
        } else {
            Reg8::A
        }
    }
}

fn shift_from_index(i: u8) -> (r: ShiftOp)
    requires
        i < 8,
    ensures
        r == shift_at(i),
{
    if i == 0 {
        ShiftOp::Rlc
    } else if i == 1 {
        ShiftOp::Rrc
    } else if i == 2 {
        ShiftOp::Rl
    } else if i == 3 {
        ShiftOp::Rr
    } else if i == 4 {
        ShiftOp::Sla
    } else if i == 5 {
        ShiftOp::Sra
    } else if i == 6 {
        ShiftOp::Swap
    } else {
        ShiftOp::Srl
    }
}

fn pair_from_index(i: u8) -> (r: Pair)
    requires
        i < 4,
    ensures
        r == pair_at(i),
{
    if i == 0 {
        Pair::BC
    } else if i == 1 {
        Pair::DE
    } else if i == 2 {
        Pair::HL
    } else {
        Pair::SP
    }
}

fn pointer_from_index(i: u8) -> (r: Pointer)
    requires
        i < 4,
    ensures
        r == pointer_at(i),
{
    if i == 0 {
        Pointer::BC
    } else if i == 1 {
        Pointer::DE
    } else if i == 2 {
        Pointer::HLInc
    } else {
        Pointer::HLDec
    }
}

fn condition_from_index(i: u8) -> (r: Condition)
    requires
        i < 4,
    ensures
        r == condition_at(i),
{
    if i == 0 {
        Condition::NotZero
    } else if i == 1 {
        Condition::Zero
    } else if i == 2 {
        Condition::NotCarry
    } else {
        Condition::Carry
    }
}

impl Instruction {
    /// Decodes one opcode of the main table. Total: every byte gives a tag,
    /// `Invalid` for opcodes that are not modelled.
    pub fn decode(byte: u8) -> (r: Instruction)
        ensures
            r == decode_spec(byte),
    {
        let x: u8 = byte / 64;
        let y: u8 = (byte / 8) % 8;
        let z: u8 = byte % 8;
        if x == 0 {
            if z == 0 {
                if y == 0 {
                    Instruction::Nop
                } else if y == 1 {
                    Instruction::StoreSp
                } else if y == 2 {
                    Instruction::Stop
                } else if y == 3 {
                    Instruction::JumpRelative(Condition::Always)
                } else {
                    Instruction::JumpRelative(condition_from_index(y - 4))
                }
            } else if z == 1 {
                if y % 2 == 0 {
                    Instruction::LoadImm16(pair_from_index(y / 2))
                } else {
                    Instruction::AddHl(pair_from_index(y / 2))
                }
            } else if z == 2 {
                if y % 2 == 0 {
                    Instruction::StoreA(pointer_from_index(y / 2))
                } else {
                    Instruction::LoadA(pointer_from_index(y / 2))
                }
            } else if z == 3 {
                if y % 2 == 0 {
                    Instruction::Inc16(pair_from_index(y / 2))
                } else {
                    Instruction::Dec16(pair_from_index(y / 2))
                }
            } else if z == 4 {
                Instruction::Inc8(Reg8::from_index(y))
            } else if z == 5 {
                Instruction::Dec8(Reg8::from_index(y))
            } else if z == 6 {
                Instruction::LoadImm8(Reg8::from_index(y))
            } else if y == 0 {
                Instruction::Rlca
            } else if y == 1 {
                Instruction::Rrca
            } else if y == 2 {
                Instruction::Rla
            } else if y == 3 {
                Instruction::Rra
            } else if y == 4 {
                Instruction::Daa
            } else if y == 5 {
                Instruction::Cpl
            } else if y == 6 {
                Instruction::Scf
            } else {
                Instruction::Ccf
            }
        } else if x == 1 {
            if byte == 0x76 {
                Instruction::Invalid
            } else {
                Instruction::Load(Reg8::from_index(y), Reg8::from_index(z))
            }
        } else if byte == 0xC3 {
            Instruction::JumpAbsolute
        } else if byte == 0xCB {
            Instruction::Prefix
        } else {
            Instruction::Invalid
        }
    }

    /// Decodes the byte that follows the escape against the extended table.
    /// Total: every byte gives a leaf operation.
    pub fn decode_extended(byte: u8) -> (r: Instruction)
        ensures
            r == decode_extended_spec(byte),
    {
        let x: u8 = byte / 64;
        let y: u8 = (byte / 8) % 8;
        let r = Reg8::from_index(byte);
        if x == 0 {
            Instruction::Shift(shift_from_index(y), r)
        } else if x == 1 {
            Instruction::TestBit(y, r)
        } else if x == 2 {
            Instruction::ResetBit(y, r)
        } else {
            Instruction::SetBit(y, r)
        }
    }

    /// Machine cycles that this operation costs.
    pub fn cycles(&self) -> (r: u8)
        ensures
            r == cycles_spec(*self),
    {
        match *self {
            Instruction::Stop | Instruction::Prefix => 0,
            Instruction::Nop | Instruction::Invalid => 1,
            Instruction::Rlca | Instruction::Rrca | Instruction::Rla | Instruction::Rra => 1,
            Instruction::Daa | Instruction::Cpl | Instruction::Scf | Instruction::Ccf => 1,
            Instruction::LoadImm8(r) => operand_cycles(r, 2, 3),
            Instruction::LoadImm16(_) => 3,
            Instruction::Load(d, s) => {
                if d == Reg8::AtHL || s == Reg8::AtHL {
                    2
                } else {
                    1
                }
            },
            Instruction::StoreA(_) | Instruction::LoadA(_) => 2,
            Instruction::StoreSp => 5,
            Instruction::Inc8(r) | Instruction::Dec8(r) => operand_cycles(r, 1, 3),
            Instruction::Inc16(_) | Instruction::Dec16(_) | Instruction::AddHl(_) => 2,
            Instruction::JumpRelative(c) => {
                if c == Condition::Always {
                    3
                } else {
                    2
                }
            },
            Instruction::JumpAbsolute => 4,
            Instruction::Shift(_, r) => operand_cycles(r, 2, 4),
            Instruction::TestBit(_, r) => operand_cycles(r, 2, 3),
            Instruction::ResetBit(_, r) | Instruction::SetBit(_, r) => operand_cycles(r, 2, 4),
        }
    }
}

/// Machine cycles for an 8-bit operand access.
fn operand_cycles(r: Reg8, register_cost: u8, memory_cost: u8) -> (c: u8)
    ensures
        c == operand_cost(r, register_cost, memory_cost),
{
    if r == Reg8::AtHL {
        memory_cost
    } else {
        register_cost
    }
}

/// Decoding is total and keeps the extended table behind exactly one escape
/// byte: the escape is the only opcode that decodes to `Prefix`, and no
/// extended opcode decodes to `Prefix` or `Invalid`.
pub proof fn lemma_decode_total(byte: u8)
    ensures
        decode_spec(byte) == Instruction::Prefix <==> byte == 0xCB,
        decode_extended_spec(byte) != Instruction::Prefix,
        decode_extended_spec(byte) != Instruction::Invalid,
{
}

} // verus!
