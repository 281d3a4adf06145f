//! Composition and decomposition of 16-bit addresses.
//!
//! Addresses are written high byte first throughout the emulator: the first
//! of two bytes is the page, the second the offset within the page.

use vstd::prelude::*;

verus! {

/// The address whose high byte is `hi` and whose low byte is `lo`.
pub open spec fn spec_make_address(hi: u8, lo: u8) -> u16 {
    (hi * 256 + lo) as u16
}

/// The high and low byte of `addr`, in that order.
pub open spec fn spec_split_address(addr: u16) -> (u8, u8) {
    ((addr / 256) as u8, (addr % 256) as u8)
}

/// Widens a byte to a word without changing its value.
pub fn xextend(x: u8) -> (word: u16)
    ensures
        word == x,
{
    x as u16
}

/// Joins two bytes into an address, high byte first.
pub fn make_address(o1: u8, o2: u8) -> (address: u16)
    ensures
        address == spec_make_address(o1, o2),
        address == o1 * 256 + o2,
{
    let high: u16 = o1 as u16;
    let low: u16 = o2 as u16;
    assert((high << 8) | low == high * 256 + low) by (bit_vector)
        requires
            high < 256,
            low < 256,
    ;
    (high << 8) | low
}

/// Splits an address into its high and low byte, in that order.
pub fn split_address(addr: u16) -> (bytes: (u8, u8))
    ensures
        bytes == spec_split_address(addr),
        bytes.0 == addr / 256,
        bytes.1 == addr % 256,
{
    assert(addr >> 8 == addr / 256 && (addr >> 8) < 256) by (bit_vector);
    assert(addr & 0xff == addr % 256 && (addr & 0xff) < 256) by (bit_vector);
    let high_byte: u8 = (addr >> 8) as u8;
    let low_byte: u8 = (addr & 0xff) as u8;
    (high_byte, low_byte)
}

/// Splitting undoes joining: the two bytes that made an address are the
/// bytes it splits into.
pub proof fn lemma_split_of_make(hi: u8, lo: u8)
    ensures
        spec_split_address(spec_make_address(hi, lo)) == (hi, lo),
{
}

/// Joining undoes splitting: every address is the join of its own two bytes.
pub proof fn lemma_make_of_split(addr: u16)
    ensures
        spec_make_address(spec_split_address(addr).0, spec_split_address(addr).1) == addr,
{
}

} // verus!
