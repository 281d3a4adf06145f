//! The addressing-mode resolver.
//!
//! Given an addressing mode, the two bytes that follow the opcode, the index
//! registers and the memory, the resolver says what the instruction operates
//! on: an immediate value, an effective address, a branch displacement, or
//! nothing.
//!
//! Sums on a byte wrap modulo 256 and sums on an address wrap modulo 65536.
//! The one sum that is made in 16 bits on byte-sized terms is the indexed
//! zero-page address: it is the plain sum of operand and index register, so
//! it reaches into page one where the sum passes 0xFF.

use vstd::prelude::*;
use crate::address::{make_address, spec_make_address};
use crate::instruction::AddressingModes;
use crate::memory::MEMORY;

verus! {

/// What an instruction operates on.
#[derive(Clone, Copy, Debug, PartialEq, Eq, Structural)]
pub enum Operand {
    /// No operand beyond the registers the instruction names.
    Implied,
    /// A value given in the instruction itself.
    Value(u8),
    /// The effective address in memory to read or write.
    Address(u16),
    /// The signed distance of a branch.
    Displacement(i8),
}

/// `n` reduced to a byte, as a sum on a byte wraps.
pub open spec fn spec_wrap_byte(n: int) -> u8 {
    (n % 256) as u8
}

/// `n` reduced to an address, as a sum on an address wraps.
pub open spec fn spec_wrap_word(n: int) -> u16 {
    (n % 65536) as u16
}

/// The signed value of a byte read as two's complement.
pub open spec fn spec_displacement(byte: u8) -> i8 {
    if byte < 128 {
        byte as i8
    } else {
        (byte - 256) as i8
    }
}

/// The address stored at `at`: the byte there is its high byte and the byte
/// at the following address, which wraps from 0xFFFF to 0, its low byte.
pub open spec fn spec_read_word(mem: Seq<u8>, at: u16) -> u16 {
    spec_make_address(mem[at as int], mem[spec_wrap_word(at + 1) as int])
}

/// The address stored in page zero at offset `at`: the byte there is its
/// high byte and the byte at the following offset, which wraps from 0xFF to
/// 0 and so stays in page zero, its low byte.
pub open spec fn spec_read_zero_page_word(mem: Seq<u8>, at: u8) -> u16 {
    spec_make_address(mem[at as int], mem[spec_wrap_byte(at + 1) as int])
}

/// The operand that `mode` yields from the operand bytes `operand1` and
/// `operand2`, the index registers `x` and `y` and the memory `mem`.
pub open spec fn spec_resolve(
    mode: AddressingModes,
    operand1: u8,
    operand2: u8,
    x: u8,
    y: u8,
    mem: Seq<u8>,
) -> Operand {
    match mode {
        AddressingModes::Accumulator => Operand::Implied,
        AddressingModes::Implied => Operand::Implied,
        AddressingModes::Immediate => Operand::Value(operand1),
        AddressingModes::Relative => Operand::Displacement(spec_displacement(operand1)),
        AddressingModes::ZeroPage => Operand::Address(spec_make_address(0, operand1)),
        AddressingModes::ZeroPageX => Operand::Address((operand1 + x) as u16),
        AddressingModes::ZeroPageY => Operand::Address((operand1 + y) as u16),
        AddressingModes::Absolute => Operand::Address(spec_make_address(operand1, operand2)),
        AddressingModes::AbsoluteX => Operand::Address(
            spec_wrap_word(spec_make_address(operand1, operand2) + x),
        ),
        AddressingModes::AbsoluteY => Operand::Address(
            spec_wrap_word(spec_make_address(operand1, operand2) + y),
        ),
        AddressingModes::Indirect => Operand::Address(
            spec_read_word(mem, spec_make_address(operand1, operand2)),
        ),
        AddressingModes::IndexedIndirectX => Operand::Address(
            spec_read_zero_page_word(mem, spec_wrap_byte(operand1 + x)),
        ),
        AddressingModes::IndirectIndexedY => Operand::Address(
            spec_wrap_word(spec_read_zero_page_word(mem, operand1) + y),
        ),
    }
}

/// Reads a byte as a signed displacement.
pub fn displacement(byte: u8) -> (distance: i8)
    ensures
        distance == spec_displacement(byte),
        byte < 128 ==> distance == byte,
        byte >= 128 ==> distance == byte - 256,
{
    if byte < 128 {
        byte as i8
    } else {
        let below: u8 = 255 - byte;
        -1i8 - (below as i8)
    }
}

/// Reads the address stored at `at`, high byte first.
pub fn read_word(memory: &MEMORY, at: u16) -> (word: u16)
    ensures
        word == spec_read_word(memory@, at),
{
    let high = memory.get_byte(at);
    let low = memory.get_byte(at.wrapping_add(1));
    make_address(high, low)
}

/// Reads the address stored in page zero at offset `at`, high byte first.
pub fn read_zero_page_word(memory: &MEMORY, at: u8) -> (word: u16)
    ensures
        word == spec_read_zero_page_word(memory@, at),
{
    let high = memory.get_byte(at as u16);
    let low = memory.get_byte(at.wrapping_add(1) as u16);
    make_address(high, low)
}

/// Resolves the operand of an instruction in the given addressing mode.
pub fn resolve(
    mode: AddressingModes,
    operand1: u8,
    operand2: u8,
    x: u8,
    y: u8,
    memory: &MEMORY,
) -> (operand: Operand)
    ensures
        operand == spec_resolve(mode, operand1, operand2, x, y, memory@),
{
    match mode {
        AddressingModes::Accumulator | AddressingModes::Implied => Operand::Implied,
        AddressingModes::Immediate => Operand::Value(operand1),
        AddressingModes::Relative => Operand::Displacement(displacement(operand1)),
        AddressingModes::ZeroPage => Operand::Address(make_address(0x00, operand1)),
        AddressingModes::ZeroPageX => Operand::Address(make_address(0x00, operand1) + x as u16),
        AddressingModes::ZeroPageY => Operand::Address(make_address(0x00, operand1) + y as u16),
        AddressingModes::Absolute => Operand::Address(make_address(operand1, operand2)),
        AddressingModes::AbsoluteX => Operand::Address(
            make_address(operand1, operand2).wrapping_add(x as u16),
        ),
        AddressingModes::AbsoluteY => Operand::Address(
            make_address(operand1, operand2).wrapping_add(y as u16),
        ),
        AddressingModes::Indirect => Operand::Address(
            read_word(memory, make_address(operand1, operand2)),
        ),
        AddressingModes::IndexedIndirectX => Operand::Address(
            read_zero_page_word(memory, operand1.wrapping_add(x)),
        ),
        AddressingModes::IndirectIndexedY => Operand::Address(
            read_zero_page_word(memory, operand1).wrapping_add(y as u16),
        ),
    }
}

/// The kind of an operand goes by the addressing mode alone, whatever the
/// operand bytes, the registers and the memory hold: the accumulator and
/// implied modes have no operand, the immediate mode has a value, the
/// relative mode a displacement, and every other mode an effective address.
pub proof fn lemma_operand_kind(
    mode: AddressingModes,
    operand1: u8,
    operand2: u8,
    x: u8,
    y: u8,
    mem: Seq<u8>,
)
    ensures
        spec_resolve(mode, operand1, operand2, x, y, mem) is Implied <==> (mode
            == AddressingModes::Accumulator || mode == AddressingModes::Implied),
        spec_resolve(mode, operand1, operand2, x, y, mem) is Value <==> mode
            == AddressingModes::Immediate,
        spec_resolve(mode, operand1, operand2, x, y, mem) is Displacement <==> mode
            == AddressingModes::Relative,
        spec_resolve(mode, operand1, operand2, x, y, mem) is Address <==> mode.spec_operand_bytes()
            > 0 && mode != AddressingModes::Immediate && mode != AddressingModes::Relative,
{
}

/// An indexed zero-page address is the plain sum of operand byte and index
/// register, so it lies in page zero or page one and never passes 0x01FE.
pub proof fn lemma_indexed_zero_page_range(operand1: u8, x: u8, mem: Seq<u8>)
    ensures
        spec_resolve(AddressingModes::ZeroPageX, operand1, 0, x, 0, mem) == Operand::Address(
            (operand1 + x) as u16,
        ),
        operand1 + x <= 0x01FE,
{
}

} // verus!
