//! The processor status flags and their packing into one byte.
//!
//! The flags occupy the bits of the status byte in a fixed order, from bit 0
//! upwards: negative, overflow, unused, break, decimal, interrupt-disable,
//! zero, carry.

use vstd::prelude::*;

verus! {

/// The eight status flags of the processor.
#[derive(Clone, Copy, Debug, PartialEq, Eq)]
pub struct Status {
    /// Negative.
    pub n: bool,
    /// Overflow.
    pub v: bool,
    /// Unused.
    pub u: bool,
    /// Break.
    pub b: bool,
    /// Decimal.
    pub d: bool,
    /// Interrupt-disable.
    pub i: bool,
    /// Zero.
    pub z: bool,
    /// Carry.
    pub c: bool,
}

/// What a flag adds to the status byte: its weight when set, else nothing.
pub open spec fn spec_weight(flag: bool, weight: int) -> int {
    if flag {
        weight
    } else {
        0
    }
}

/// Whether a byte counts as zero for the zero flag.
pub open spec fn spec_is_zero(value: u8) -> bool {
    value == 0
}

/// Whether a byte counts as negative: whether its bit 7 is set.
pub open spec fn spec_is_negative(value: u8) -> bool {
    value >= 128
}

impl Status {
    /// The flags with every one of them clear.
    pub open spec fn spec_cleared() -> Status {
        Status { n: false, v: false, u: false, b: false, d: false, i: false, z: false, c: false }
    }

    /// The status byte: each set flag contributes the weight of its bit.
    pub open spec fn spec_to_byte(self) -> u8 {
        (spec_weight(self.n, 1) + spec_weight(self.v, 2) + spec_weight(self.u, 4) + spec_weight(
            self.b,
            8,
        ) + spec_weight(self.d, 16) + spec_weight(self.i, 32) + spec_weight(self.z, 64)
            + spec_weight(self.c, 128)) as u8
    }

    /// The flags that a status byte describes: each flag is the state of
    /// its bit.
    pub open spec fn spec_from_byte(byte: u8) -> Status {
        Status {
            n: byte % 2 == 1,
            v: (byte / 2) % 2 == 1,
            u: (byte / 4) % 2 == 1,
            b: (byte / 8) % 2 == 1,
            d: (byte / 16) % 2 == 1,
            i: (byte / 32) % 2 == 1,
            z: (byte / 64) % 2 == 1,
            c: (byte / 128) % 2 == 1,
        }
    }

    /// The flags after a value has reached a register: zero and negative
    /// follow the value, the others stay.
    pub open spec fn spec_with_value(self, value: u8) -> Status {
        Status { z: spec_is_zero(value), n: spec_is_negative(value), ..self }
    }

    /// Packs the flags into the status byte.
    pub fn to_byte(&self) -> (byte: u8)
        ensures
            byte == self.spec_to_byte(),
    {
        let mut byte: u8 = 0x00;
        if self.n {
            byte = byte + 0b0000_0001;
        }
        if self.v {
            byte = byte + 0b0000_0010;
        }
        if self.u {
            byte = byte + 0b0000_0100;
        }
        if self.b {
            byte = byte + 0b0000_1000;
        }
        if self.d {
            byte = byte + 0b0001_0000;
        }
        if self.i {
            byte = byte + 0b0010_0000;
        }
        if self.z {
            byte = byte + 0b0100_0000;
        }
        if self.c {
            byte = byte + 0b1000_0000;
        }
        byte
    }

    /// Unpacks a status byte into the flags.
    pub fn from_byte(byte: u8) -> (status: Status)
        ensures
            status == Status::spec_from_byte(byte),
    {
        proof {
            lemma_mask_is_bit(byte);
        }
        Status {
            n: (byte & 0b0000_0001) != 0,
            v: (byte & 0b0000_0010) != 0,
            u: (byte & 0b0000_0100) != 0,
            b: (byte & 0b0000_1000) != 0,
            d: (byte & 0b0001_0000) != 0,
            i: (byte & 0b0010_0000) != 0,
            z: (byte & 0b0100_0000) != 0,
            c: (byte & 0b1000_0000) != 0,
        }
    }

    /// Sets the zero and negative flags from `value` and leaves the other
    /// flags alone.
    pub fn update_for(&mut self, value: u8)
        ensures
            *final(self) == old(self).spec_with_value(value),
    {
        self.z = value == 0;
        self.n = value >= 0x80;
    }
}

impl Default for Status {
    fn default() -> (status: Self)
        ensures
            status == Status::spec_cleared(),
    {
        Self { n: false, v: false, u: false, b: false, d: false, i: false, z: false, c: false }
    }
}

/// Masking a byte with a single bit is non-zero exactly where that bit,
/// read off by division, is one.
proof fn lemma_mask_is_bit(byte: u8)
    ensures
        (byte & 0b0000_0001 != 0) == (byte % 2 == 1),
        (byte & 0b0000_0010 != 0) == ((byte / 2) % 2 == 1),
        (byte & 0b0000_0100 != 0) == ((byte / 4) % 2 == 1),
        (byte & 0b0000_1000 != 0) == ((byte / 8) % 2 == 1),
        (byte & 0b0001_0000 != 0) == ((byte / 16) % 2 == 1),
        (byte & 0b0010_0000 != 0) == ((byte / 32) % 2 == 1),
        (byte & 0b0100_0000 != 0) == ((byte / 64) % 2 == 1),
        (byte & 0b1000_0000 != 0) == ((byte / 128) % 2 == 1),
{
    assert((byte & 0b0000_0001 != 0) == (byte % 2 == 1)) by (bit_vector);
    assert((byte & 0b0000_0010 != 0) == ((byte / 2) % 2 == 1)) by (bit_vector);
    assert((byte & 0b0000_0100 != 0) == ((byte / 4) % 2 == 1)) by (bit_vector);
    assert((byte & 0b0000_1000 != 0) == ((byte / 8) % 2 == 1)) by (bit_vector);
    assert((byte & 0b0001_0000 != 0) == ((byte / 16) % 2 == 1)) by (bit_vector);
    assert((byte & 0b0010_0000 != 0) == ((byte / 32) % 2 == 1)) by (bit_vector);
    assert((byte & 0b0100_0000 != 0) == ((byte / 64) % 2 == 1)) by (bit_vector);
    assert((byte & 0b1000_0000 != 0) == ((byte / 128) % 2 == 1)) by (bit_vector);
}

/// Packing undoes unpacking: the flags read from a status byte pack to that
/// very byte, for each of the 256 bytes.
pub proof fn lemma_pack_of_unpack(byte: u8)
    ensures
        Status::spec_from_byte(byte).spec_to_byte() == byte,
{
    assert((if byte % 2 == 1 {
        1u16
    } else {
        0u16
    }) + (if (byte / 2) % 2 == 1 {
        2u16
    } else {
        0u16
    }) + (if (byte / 4) % 2 == 1 {
        4u16
    } else {
        0u16
    }) + (if (byte / 8) % 2 == 1 {
        8u16
    } else {
        0u16
    }) + (if (byte / 16) % 2 == 1 {
        16u16
    } else {
        0u16
    }) + (if (byte / 32) % 2 == 1 {
        32u16
    } else {
        0u16
    }) + (if (byte / 64) % 2 == 1 {
        64u16
    } else {
        0u16
    }) + (if (byte / 128) % 2 == 1 {
        128u16
    } else {
        0u16
    }) == byte) by (bit_vector);
}

/// Unpacking undoes packing: the byte that a set of flags packs to unpacks
/// to those very flags.
pub proof fn lemma_unpack_of_pack(status: Status)
    ensures
        Status::spec_from_byte(status.spec_to_byte()) == status,
{
}

/// The negative flag of a value is the state of its bit 7.
pub proof fn lemma_negative_is_bit_seven(value: u8)
    ensures
        spec_is_negative(value) == (value & 0x80 != 0),
{
    assert((value >= 128) == (value & 0x80 != 0)) by (bit_vector);
}

} // verus!
