//! Instruction-execution core of a Game Boy family emulator: register file,
//! segmented memory bus, opcode decoder and a cycle-counting execution engine.
use vstd::prelude::*;

pub mod cpu;
pub mod instructions;
pub mod isa;
pub mod memory;

verus! {

/// The least-significant byte of a 16-bit word.
pub open spec fn low_byte(v: u16) -> u8 {
    (v % 256) as u8
}

/// The most-significant byte of a 16-bit word.
pub open spec fn high_byte(v: u16) -> u8 {
    (v / 256) as u8
}

/// The 16-bit word whose low byte is `lsb` and whose high byte is `msb`.
pub open spec fn word(lsb: u8, msb: u8) -> u16 {
    (msb as int * 256 + lsb as int) as u16
}

/// Combines a low and a high byte into one 16-bit word.
pub fn as_u16(lsb: u8, msb: u8) -> (r: u16)
    ensures
        r == word(lsb, msb),
        low_byte(r) == lsb,
        high_byte(r) == msb,
{
    let value: u16 = 0x0000;
    let r = (value | (lsb as u16)) | ((msb as u16) << 8u16);
    assert(r == (msb as int * 256 + lsb as int) as u16) by (bit_vector)
        requires
            value == 0u16,
            r == (value | (lsb as u16)) | ((msb as u16) << 8u16),
    ;
    r
}

/// A value that can be cut into its low and high bytes.
pub trait Splitable {
    /// The pair (low byte, high byte) of the value.
    spec fn split_spec(&self) -> (u8, u8);

    /// Returns the pair (low byte, high byte).
    fn split(&self) -> (r: (u8, u8))
        ensures
            r == self.split_spec(),
    ;
}

impl Splitable for u16 {
    open spec fn split_spec(&self) -> (u8, u8) {
        (low_byte(*self), high_byte(*self))
    }

    fn split(&self) -> (r: (u8, u8)) {
        let v: u16 = *self;
        let msb: u8 = (v >> 8u16) as u8;
        let lsb: u8 = v as u8;
        assert(msb == (v / 256) as u8 && lsb == (v % 256) as u8) by (bit_vector)
            requires
                msb == (v >> 8u16) as u8,
                lsb == v as u8,
        ;
        (lsb, msb)
    }
}

/// Splitting a word into its two bytes and joining them again gives the word back.
pub proof fn lemma_split_join(v: u16)
    ensures
        word(low_byte(v), high_byte(v)) == v,
{
}

/// Joining two bytes into a word and splitting it again gives the two bytes back.
pub proof fn lemma_join_split(lsb: u8, msb: u8)
    ensures
        low_byte(word(lsb, msb)) == lsb,
        high_byte(word(lsb, msb)) == msb,
{
}

} // verus!
