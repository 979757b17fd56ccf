//! What each operation does to the register file and the bus, stated over
//! plain values, and the arithmetic-logic helpers that compute it.
use vstd::prelude::*;

use crate::cpu::{flag_byte, lemma_flag_byte, updated, Register, Registers};
use crate::instructions::{
    decode_extended_spec, decode_spec, pair_register, Condition, Instruction, Pointer, Reg8, ShiftOp,
};
use crate::memory::{bus_read, bus_write, MemoryError};
use crate::{high_byte, low_byte, word};

verus! {

/// The state an operation can change: the register file and the bus contents,
/// or the bus error that stops it.
pub type Outcome = Result<(Registers, Seq<u8>), MemoryError>;

/// Where an 8-bit register lives: its pair, and whether it is the high byte.
/// (The memory operand has no home; it is never asked for one.)
pub open spec fn home(r: Reg8) -> (Register, bool) {
    match r {
        Reg8::B => (Register::BC, true),
        Reg8::C => (Register::BC, false),
        Reg8::D => (Register::DE, true),
        Reg8::E => (Register::DE, false),
        Reg8::H => (Register::HL, true),
        Reg8::L => (Register::HL, false),
        Reg8::A => (Register::AF, true),
        Reg8::AtHL => (Register::HL, false),
    }
}

impl Registers {
    /// The value of an 8-bit register.
    pub open spec fn reg8(self, r: Reg8) -> u8 {
        let (pair, high) = home(r);
        if high {
            high_byte(self.get(pair))
        } else {
            low_byte(self.get(pair))
        }
    }

    /// The register file with one 8-bit register replaced.
    pub open spec fn with_reg8(self, r: Reg8, v: u8) -> Registers {
        let (pair, high) = home(r);
        if high {
            self.with_high(pair, v)
        } else {
            self.with_low(pair, v)
        }
    }
}

/// The value of an 8-bit operand.
pub open spec fn operand_value(r: Registers, m: Seq<u8>, t: Reg8) -> Result<u8, MemoryError> {
    if t == Reg8::AtHL {
        bus_read(m, r.hl)
    } else {
        Ok(r.reg8(t))
    }
}

/// The state after storing `v` into an 8-bit operand.
pub open spec fn operand_written(r: Registers, m: Seq<u8>, t: Reg8, v: u8) -> Outcome {
    if t == Reg8::AtHL {
        match bus_write(m, r.hl, v) {
            Ok(m2) => Ok((r, m2)),
            Err(e) => Err(e),
        }
    } else {
        Ok((r.with_reg8(t, v), m))
    }
}

/// The two bytes at the program counter, low byte first.
pub open spec fn immediate16(r: Registers, m: Seq<u8>) -> Result<u16, MemoryError> {
    match bus_read(m, r.pc) {
        Err(e) => Err(e),
        Ok(lo) => match bus_read(m, r.pc.wrapping_add(1)) {
            Err(e) => Err(e),
            Ok(hi) => Ok(word(lo, hi)),
        },
    }
}

/// Flags after an 8-bit increment of `v`; Carry is kept.
pub open spec fn inc_flags(r: Registers, v: u8) -> Registers {
    r.with_flags(Some(v.wrapping_add(1) == 0), Some(false), Some(v % 16 == 15), None)
}

/// Flags after an 8-bit decrement of `v`; Carry is kept.
pub open spec fn dec_flags(r: Registers, v: u8) -> Registers {
    r.with_flags(Some(v.wrapping_sub(1) == 0), Some(true), Some(v % 16 == 0), None)
}

/// The result and the Carry out of a shift or rotate of `v` with Carry in `c`.
pub open spec fn shift_spec(op: ShiftOp, v: u8, c: bool) -> (u8, bool) {
    match op {
        ShiftOp::Rlc => (((v * 2) % 256 + v / 128) as u8, v >= 128),
        ShiftOp::Rrc => ((v / 2 + (v % 2) * 128) as u8, v % 2 == 1),
        ShiftOp::Rl => (((v * 2) % 256 + (if c { 1int } else { 0 })) as u8, v >= 128),
        ShiftOp::Rr => ((v / 2 + (if c { 128int } else { 0 })) as u8, v % 2 == 1),
        ShiftOp::Sla => (((v * 2) % 256) as u8, v >= 128),
        ShiftOp::Sra => ((v / 2 + (v / 128) * 128) as u8, v % 2 == 1),
        ShiftOp::Swap => (((v % 16) * 16 + v / 16) as u8, false),
        ShiftOp::Srl => ((v / 2) as u8, v % 2 == 1),
    }
}

/// Decimal adjustment of `a` after a BCD operation with flags Subtract `n`,
/// Half-Carry `h` and Carry `c`: the adjusted value and the new Carry.
pub open spec fn daa_spec(a: u8, n: bool, h: bool, c: bool) -> (u8, bool) {
    if !n {
        let high = c || a > 0x99;
        let low = h || a % 16 > 9;
        let adjust = (if high { 0x60int } else { 0 }) + (if low { 6int } else { 0 });
        (((a + adjust) % 256) as u8, high)
    } else {
        let adjust = (if c { 0x60int } else { 0 }) + (if h { 6int } else { 0 });
        (((a - adjust + 256) % 256) as u8, c)
    }
}

/// The value of bit `n` (taken modulo 8) in the byte `v` as a power of two.
pub open spec fn bit_mask(n: u8) -> u8 {
    let k = n % 8;
    if k == 0 {
        1
    } else if k == 1 {
        2
    } else if k == 2 {
        4
    } else if k == 3 {
        8
    } else if k == 4 {
        16
    } else if k == 5 {
        32
    } else if k == 6 {
        64
    } else {
        128
    }
}

/// Whether bit `n` (taken modulo 8) of `v` is set.
pub open spec fn bit_set(v: u8, n: u8) -> bool {
    (v / bit_mask(n)) % 2 == 1
}

/// Whether a jump condition holds for the current flags.
pub open spec fn condition_holds(c: Condition, r: Registers) -> bool {
    match c {
        Condition::Always => true,
        Condition::NotZero => !r.zero(),
        Condition::Zero => r.zero(),
        Condition::NotCarry => !r.carry(),
        Condition::Carry => r.carry(),
    }
}

/// The program counter after a relative jump by the signed displacement `d`.
pub open spec fn jump_target(pc: u16, d: u8) -> u16 {
    if d < 128 {
        pc.wrapping_add(d as u16)
    } else {
        pc.wrapping_sub((256 - d) as u16)
    }
}

/// The address that an accumulator load or store goes through.
pub open spec fn pointer_address(r: Registers, p: Pointer) -> u16 {
    match p {
        Pointer::BC => r.bc,
        Pointer::DE => r.de,
        _ => r.hl,
    }
}

/// The register file after the pointer's own increment or decrement.
pub open spec fn pointer_stepped(r: Registers, p: Pointer) -> Registers {
    match p {
        Pointer::HLInc => Registers { hl: r.hl.wrapping_add(1), ..r },
        Pointer::HLDec => Registers { hl: r.hl.wrapping_sub(1), ..r },
        _ => r,
    }
}

/// The state after an 8-bit increment or decrement of an operand.
pub open spec fn step_operand(r: Registers, m: Seq<u8>, t: Reg8, up: bool) -> Outcome {
    match operand_value(r, m, t) {
        Err(e) => Err(e),
        Ok(v) => match operand_written(r, m, t, if up { v.wrapping_add(1) } else { v.wrapping_sub(1) }) {
            Err(e) => Err(e),
            Ok((r2, m2)) => Ok((if up { inc_flags(r2, v) } else { dec_flags(r2, v) }, m2)),
        },
    }
}

/// The state after a shift or rotate of an operand.
pub open spec fn shifted(r: Registers, m: Seq<u8>, op: ShiftOp, t: Reg8) -> Outcome {
    match operand_value(r, m, t) {
        Err(e) => Err(e),
        Ok(v) => {
            let (res, out) = shift_spec(op, v, r.carry());
            match operand_written(r, m, t, res) {
                Err(e) => Err(e),
                Ok((r2, m2)) => Ok((r2.with_flags(Some(res == 0), Some(false), Some(false), Some(out)), m2)),
            }
        },
    }
}

/// The state after a rotate of the accumulator: like the extended-table
/// rotate of A, but Zero is always cleared.
pub open spec fn rotated_a(r: Registers, op: ShiftOp) -> Registers {
    let (res, out) = shift_spec(op, r.a(), r.carry());
    r.with_reg8(Reg8::A, res).with_flags(Some(false), Some(false), Some(false), Some(out))
}

/// The state after clearing (`set == false`) or setting bit `n` of an operand.
pub open spec fn bit_written(r: Registers, m: Seq<u8>, n: u8, t: Reg8, set: bool) -> Outcome {
    match operand_value(r, m, t) {
        Err(e) => Err(e),
        Ok(v) => operand_written(
            r,
            m,
            t,
            if bit_set(v, n) == set {
                v
            } else if set {
                (v + bit_mask(n)) as u8
            } else {
                (v - bit_mask(n)) as u8
            },
        ),
    }
}

/// What one leaf operation does, starting from the register file `r`
/// (whose program counter already points past the opcode) and bus contents
/// `m`. The escape is no leaf: `execute_spec` resolves it first.
pub open spec fn operation_spec(ins: Instruction, r: Registers, m: Seq<u8>) -> Outcome {
    match ins {
        Instruction::Nop | Instruction::Stop | Instruction::Prefix | Instruction::Invalid => Ok((r, m)),
        Instruction::LoadImm8(t) => match bus_read(m, r.pc) {
            Err(e) => Err(e),
            Ok(d) => operand_written(r.with(Register::PC, r.pc.wrapping_add(1)), m, t, d),
        },
        Instruction::LoadImm16(p) => match immediate16(r, m) {
            Err(e) => Err(e),
            Ok(w) => Ok(
                (r.with(Register::PC, r.pc.wrapping_add(1).wrapping_add(1)).with(pair_register(p), w), m),
            ),
        },
        Instruction::Load(d, s) => match operand_value(r, m, s) {
            Err(e) => Err(e),
            Ok(v) => operand_written(r, m, d, v),
        },
        Instruction::StoreA(p) => match bus_write(m, pointer_address(r, p), r.a()) {
            Err(e) => Err(e),
            Ok(m2) => Ok((pointer_stepped(r, p), m2)),
        },
        Instruction::LoadA(p) => match bus_read(m, pointer_address(r, p)) {
            Err(e) => Err(e),
            Ok(v) => Ok((pointer_stepped(r, p).with_reg8(Reg8::A, v), m)),
        },
        Instruction::StoreSp => match immediate16(r, m) {
            Err(e) => Err(e),
            Ok(a) => match bus_write(m, a, low_byte(r.sp)) {
                Err(e) => Err(e),
                Ok(m1) => match bus_write(m1, a.wrapping_add(1), high_byte(r.sp)) {
                    Err(e) => Err(e),
                    Ok(m2) => Ok((r.with(Register::PC, r.pc.wrapping_add(1).wrapping_add(1)), m2)),
                },
            },
        },
        Instruction::Inc8(t) => step_operand(r, m, t, true),
        Instruction::Dec8(t) => step_operand(r, m, t, false),
        Instruction::Inc16(p) => Ok(
            (r.with(pair_register(p), r.get(pair_register(p)).wrapping_add(1)), m),
        ),
        Instruction::Dec16(p) => Ok(
            (r.with(pair_register(p), r.get(pair_register(p)).wrapping_sub(1)), m),
        ),
        Instruction::AddHl(p) => {
            let hl = r.hl;
            let v = r.get(pair_register(p));
            Ok(
                (
                    r.with(Register::HL, hl.wrapping_add(v)).with_flags(
                        None,
                        Some(false),
                        Some(hl % 4096 + v % 4096 >= 4096),
                        Some(hl + v >= 65536),
                    ),
                    m,
                ),
            )
        },
        Instruction::Rlca => Ok((rotated_a(r, ShiftOp::Rlc), m)),
        Instruction::Rrca => Ok((rotated_a(r, ShiftOp::Rrc), m)),
        Instruction::Rla => Ok((rotated_a(r, ShiftOp::Rl), m)),
        Instruction::Rra => Ok((rotated_a(r, ShiftOp::Rr), m)),
        Instruction::Daa => {
            let (res, carry) = daa_spec(r.a(), r.subtract(), r.half_carry(), r.carry());
            Ok((r.with_reg8(Reg8::A, res).with_flags(Some(res == 0), None, Some(false), Some(carry)), m))
        },
        Instruction::Cpl => Ok(
            (r.with_reg8(Reg8::A, (255 - r.a()) as u8).with_flags(None, Some(true), Some(true), None), m),
        ),
        Instruction::Scf => Ok((r.with_flags(None, Some(false), Some(false), Some(true)), m)),
        Instruction::Ccf => Ok((r.with_flags(None, Some(false), Some(false), Some(!r.carry())), m)),
        Instruction::JumpRelative(c) => match bus_read(m, r.pc) {
            Err(e) => Err(e),
            Ok(d) => {
                let next = r.pc.wrapping_add(1);
                Ok(
                    (
                        r.with(
                            Register::PC,
                            if condition_holds(c, r) {
                                jump_target(next, d)
                            } else {
                                next
                            },
                        ),
                        m,
                    ),
                )
            },
        },
        Instruction::JumpAbsolute => match immediate16(r, m) {
            Err(e) => Err(e),
            Ok(a) => Ok((r.with(Register::PC, a), m)),
        },
        Instruction::Shift(op, t) => shifted(r, m, op, t),
        Instruction::TestBit(n, t) => match operand_value(r, m, t) {
            Err(e) => Err(e),
            Ok(v) => Ok((r.with_flags(Some(!bit_set(v, n)), Some(false), Some(true), None), m)),
        },
        Instruction::ResetBit(n, t) => bit_written(r, m, n, t, false),
        Instruction::SetBit(n, t) => bit_written(r, m, n, t, true),
    }
}

/// Executing a decoded tag: the escape reads one more byte at the program
/// counter and is replaced by the extended operation it names. Gives the
/// leaf operation performed and the state it leaves.
pub open spec fn execute_spec(ins: Instruction, r: Registers, m: Seq<u8>) -> Result<(Instruction, Registers, Seq<u8>), MemoryError> {
    if ins == Instruction::Prefix {
        match bus_read(m, r.pc) {
            Err(e) => Err(e),
            Ok(extended) => {
                let leaf = decode_extended_spec(extended);
                match operation_spec(leaf, r.with(Register::PC, r.pc.wrapping_add(1)), m) {
                    Err(e) => Err(e),
                    Ok((r2, m2)) => Ok((leaf, r2, m2)),
                }
            },
        }
    } else {
        match operation_spec(ins, r, m) {
            Err(e) => Err(e),
            Ok((r2, m2)) => Ok((ins, r2, m2)),
        }
    }
}

/// One fetch-decode-execute cycle: the opcode at the program counter is
/// read, the program counter advanced and the decoded tag executed.
#[verifier::opaque]
pub open spec fn step_spec(r: Registers, m: Seq<u8>) -> Result<(Instruction, Registers, Seq<u8>), MemoryError> {
    match bus_read(m, r.pc) {
        Err(e) => Err(e),
        Ok(op) => execute_spec(decode_spec(op), r.with(Register::PC, r.pc.wrapping_add(1)), m),
    }
}

/// Shifts or rotates `v` with Carry in `c`; returns the result and the Carry out.
pub fn shift(op: ShiftOp, v: u8, c: bool) -> (r: (u8, bool))
    ensures
        r == shift_spec(op, v, c),
{
    match op {
        ShiftOp::Rlc => (((v as u16 * 2) % 256 + v as u16 / 128) as u8, v >= 128),
        ShiftOp::Rrc => ((v / 2 + (v % 2) * 128), v % 2 == 1),
        ShiftOp::Rl => (((v as u16 * 2) % 256 + (if c { 1 } else { 0 })) as u8, v >= 128),
        ShiftOp::Rr => ((v / 2 + (if c { 128 } else { 0 })), v % 2 == 1),
        ShiftOp::Sla => (((v as u16 * 2) % 256) as u8, v >= 128),
        ShiftOp::Sra => ((v / 2 + (v / 128) * 128), v % 2 == 1),
        ShiftOp::Swap => (((v % 16) * 16 + v / 16), false),
        ShiftOp::Srl => ((v / 2), v % 2 == 1),
    }
}

/// Decimal-adjusts `a`; returns the adjusted value and the new Carry.
pub fn daa(a: u8, n: bool, h: bool, c: bool) -> (r: (u8, bool))
    ensures
        r == daa_spec(a, n, h, c),
{
    if !n {
        let high = c || a > 0x99;
        let low = h || a % 16 > 9;
        let adjust: u16 = (if high { 0x60 } else { 0 }) + (if low { 6 } else { 0 });
        (((a as u16 + adjust) % 256) as u8, high)
    } else {
        let adjust: u16 = (if c { 0x60 } else { 0 }) + (if h { 6 } else { 0 });
        (((a as u16 + 256 - adjust) % 256) as u8, c)
    }
}

/// The power of two of bit `n` (taken modulo 8).
pub fn mask(n: u8) -> (r: u8)
    ensures
        r == bit_mask(n),
{
    let k = n % 8;
    if k == 0 {
        1
    } else if k == 1 {
        2
    } else if k == 2 {
        4
    } else if k == 3 {
        8
    } else if k == 4 {
        16
    } else if k == 5 {
        32
    } else if k == 6 {
        64
    } else {
        128
    }
}

/// `v` with bit `n` (taken modulo 8) cleared or set.
pub fn with_bit(v: u8, n: u8, set: bool) -> (r: u8)
    ensures
        r == (if bit_set(v, n) == set {
            v
        } else if set {
            (v + bit_mask(n)) as u8
        } else {
            (v - bit_mask(n)) as u8
        }),
{
    let k = mask(n);
    let is_set = (v / k) % 2 == 1;
    if is_set == set {
        v
    } else if set {
        assert(v as int + k <= 255) by (nonlinear_arith)
            requires
                (v / k) % 2 == 0,
                k == 1 || k == 2 || k == 4 || k == 8 || k == 16 || k == 32 || k == 64 || k == 128,
        ;
        v + k
    } else {
        assert(v >= k) by (nonlinear_arith)
            requires
                (v / k) % 2 == 1,
                k > 0,
        ;
        v - k
    }
}

} // verus!

verus! {

/// Writing a register pair and then reading its halves gives the high byte
/// in the first-named register and the low byte in the second (F for AF).
pub proof fn lemma_pair_halves(r: Registers, v: u16)
    ensures
        r.with(Register::BC, v).reg8(Reg8::B) == high_byte(v),
        r.with(Register::BC, v).reg8(Reg8::C) == low_byte(v),
        r.with(Register::DE, v).reg8(Reg8::D) == high_byte(v),
        r.with(Register::DE, v).reg8(Reg8::E) == low_byte(v),
        r.with(Register::HL, v).reg8(Reg8::H) == high_byte(v),
        r.with(Register::HL, v).reg8(Reg8::L) == low_byte(v),
        r.with(Register::AF, v).reg8(Reg8::A) == high_byte(v),
        r.with(Register::AF, v).f() == low_byte(v),
{
}

/// Writing the two halves of a pair and then reading the pair gives the
/// word with the first-named register as its high byte.
pub proof fn lemma_halves_pair(r: Registers, hi: u8, lo: u8)
    ensures
        r.with_reg8(Reg8::B, hi).with_reg8(Reg8::C, lo).bc == word(lo, hi),
        r.with_reg8(Reg8::D, hi).with_reg8(Reg8::E, lo).de == word(lo, hi),
        r.with_reg8(Reg8::H, hi).with_reg8(Reg8::L, lo).hl == word(lo, hi),
{
    crate::lemma_join_split(lo, hi);
    crate::lemma_split_join(r.bc);
}

/// Reading an 8-bit register or the flags after a flag update.
proof fn lemma_with_flags(r: Registers, z: Option<bool>, n: Option<bool>, h: Option<bool>, c: Option<bool>, t: Reg8)
    requires
        t != Reg8::AtHL,
    ensures
        r.with_flags(z, n, h, c).reg8(t) == r.reg8(t),
        r.with_flags(z, n, h, c).zero() == updated(z, r.zero()),
        r.with_flags(z, n, h, c).subtract() == updated(n, r.subtract()),
        r.with_flags(z, n, h, c).half_carry() == updated(h, r.half_carry()),
        r.with_flags(z, n, h, c).carry() == updated(c, r.carry()),
{
    let fb = flag_byte(updated(z, r.zero()), updated(n, r.subtract()), updated(h, r.half_carry()), updated(c, r.carry()));
    crate::lemma_join_split(fb, r.a());
    lemma_flag_byte(updated(z, r.zero()), updated(n, r.subtract()), updated(h, r.half_carry()), updated(c, r.carry()));
}

/// Writing an 8-bit register keeps the flags (F is the low byte of AF, which
/// no 8-bit register is) and the register reads back as written.
proof fn lemma_with_reg8_keeps_flags(r: Registers, t: Reg8, v: u8)
    requires
        t != Reg8::AtHL,
    ensures
        r.with_reg8(t, v).f() == r.f(),
        r.with_reg8(t, v).reg8(t) == v,
{
    crate::lemma_join_split(v, high_byte(r.get(home(t).0)));
    crate::lemma_join_split(low_byte(r.get(home(t).0)), v);
}

/// An 8-bit increment of a register wraps 0xFF to 0x00, sets Zero exactly
/// when the result is zero, clears Subtract, sets Half-Carry exactly when the
/// low nibble was 0xF, and keeps Carry and the bus.
pub proof fn lemma_inc8(r: Registers, m: Seq<u8>, t: Reg8)
    requires
        t != Reg8::AtHL,
    ensures
        operation_spec(Instruction::Inc8(t), r, m) is Ok,
        ({
            let (r2, m2) = operation_spec(Instruction::Inc8(t), r, m)->Ok_0;
            &&& r2.reg8(t) == r.reg8(t).wrapping_add(1)
            &&& r2.zero() == (r2.reg8(t) == 0)
            &&& !r2.subtract()
            &&& r2.half_carry() == (r.reg8(t) % 16 == 15)
            &&& r2.carry() == r.carry()
            &&& m2 == m
            &&& (r.reg8(t) == 0xFF ==> r2.reg8(t) == 0 && r2.zero() && r2.half_carry())
        }),
{
    let v = r.reg8(t);
    let r1 = r.with_reg8(t, v.wrapping_add(1));
    lemma_with_reg8_keeps_flags(r, t, v.wrapping_add(1));
    lemma_with_flags(r1, Some(v.wrapping_add(1) == 0), Some(false), Some(v % 16 == 15), None, t);
}

/// An 8-bit decrement of a register wraps 0x00 to 0xFF, sets Zero exactly
/// when the result is zero, sets Subtract, sets Half-Carry exactly when the
/// low nibble borrowed (was 0x0), and keeps Carry and the bus.
pub proof fn lemma_dec8(r: Registers, m: Seq<u8>, t: Reg8)
    requires
        t != Reg8::AtHL,
    ensures
        operation_spec(Instruction::Dec8(t), r, m) is Ok,
        ({
            let (r2, m2) = operation_spec(Instruction::Dec8(t), r, m)->Ok_0;
            &&& r2.reg8(t) == r.reg8(t).wrapping_sub(1)
            &&& r2.zero() == (r2.reg8(t) == 0)
            &&& r2.subtract()
            &&& r2.half_carry() == (r.reg8(t) % 16 == 0)
            &&& r2.carry() == r.carry()
            &&& m2 == m
            &&& (r.reg8(t) == 0 ==> r2.reg8(t) == 0xFF && r2.half_carry() && !r2.zero())
        }),
{
    let v = r.reg8(t);
    let r1 = r.with_reg8(t, v.wrapping_sub(1));
    lemma_with_reg8_keeps_flags(r, t, v.wrapping_sub(1));
    lemma_with_flags(r1, Some(v.wrapping_sub(1) == 0), Some(true), Some(v % 16 == 0), None, t);
}

/// Every decoded 16-bit increment or decrement changes only its register
/// pair (never AF or PC), by one with wraparound (0xFFFF to 0x0000 and
/// back), and never the flags or the bus.
pub proof fn lemma_inc16_dec16(op: u8, r: Registers, m: Seq<u8>)
    requires
        decode_spec(op) is Inc16 || decode_spec(op) is Dec16,
    ensures
        match decode_spec(op) {
            Instruction::Inc16(p) => {
                &&& pair_register(p) != Register::AF && pair_register(p) != Register::PC
                &&& operation_spec(decode_spec(op), r, m) == Ok::<(Registers, Seq<u8>), MemoryError>(
                    (r.with(pair_register(p), r.get(pair_register(p)).wrapping_add(1)), m),
                )
            },
            Instruction::Dec16(p) => {
                &&& pair_register(p) != Register::AF && pair_register(p) != Register::PC
                &&& operation_spec(decode_spec(op), r, m) == Ok::<(Registers, Seq<u8>), MemoryError>(
                    (r.with(pair_register(p), r.get(pair_register(p)).wrapping_sub(1)), m),
                )
            },
            _ => false,
        },
        operation_spec(decode_spec(op), r, m)->Ok_0.0.af == r.af,
{
}

} // verus!
