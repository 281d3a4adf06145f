//! The memory bus: a flat address space of 65536 byte cells.
//!
//! The model of a memory is the sequence of its cells, cell `i` at index `i`.
//! A memory image is the same sequence written out as bytes, with no header.

use vstd::prelude::*;

verus! {

/// The number of cells on the bus.
pub const MEMORY_RANGE: usize = 65536;

/// The lowest address on the bus.
pub const ADDRESS_LOW: u16 = 0x0000;

/// The highest address on the bus.
pub const ADDRESS_HIGH: u16 = 0xFFFF;

/// Why a bulk operation on the memory was refused.
#[derive(Clone, Copy, Debug, PartialEq, Eq)]
pub enum MemoryError {
    /// A run of `len` bytes starting at `start` would pass the last cell.
    OutOfRange { start: u16, len: usize },
    /// An image of only `len` bytes cannot fill the memory.
    TruncatedImage { len: usize },
}

/// The 64 KiB memory that the processor reads and writes.
#[derive(Debug)]
pub struct MEMORY {
    /// The cells, cell `i` at address `i`.
    pub data: [u8; MEMORY_RANGE],
}

/// The contents of a memory in which every cell is zero.
pub open spec fn spec_zeroed() -> Seq<u8> {
    Seq::new(65536, |i: int| 0u8)
}

/// The contents `mem` after the run `values` has been written from cell
/// `start` on; cells outside the run keep their value.
pub open spec fn spec_write_run(mem: Seq<u8>, start: int, values: Seq<u8>) -> Seq<u8> {
    Seq::new(
        mem.len(),
        |i: int|
            if start <= i < start + values.len() {
                values[i - start]
            } else {
                mem[i]
            },
    )
}

/// The image that holds the contents `mem`: the cells themselves, in order.
pub open spec fn spec_image(mem: Seq<u8>) -> Seq<u8> {
    mem
}

/// The contents that the image `bytes` describes: its first 65536 bytes, or
/// nothing where it holds fewer.
pub open spec fn spec_from_image(bytes: Seq<u8>) -> Option<Seq<u8>> {
    if bytes.len() >= 65536 {
        Some(bytes.take(65536))
    } else {
        None
    }
}

impl MEMORY {
    /// The cells of the memory, in address order.
    pub open spec fn view(&self) -> Seq<u8> {
        self.data@
    }

    /// The byte stored at `address`.
    pub open spec fn spec_get_byte(&self, address: u16) -> u8 {
        self@[address as int]
    }

    /// A memory with every cell zero.
    pub fn new() -> (memory: Self)
        ensures
            memory@ == spec_zeroed(),
    {
        let memory = Self { data: [0u8; 65536] };
        assert(memory@ =~= spec_zeroed());
        memory
    }

    /// Overwrites every cell with zero.
    pub fn reset(&mut self)
        ensures
            final(self)@ == spec_zeroed(),
    {
        let mut i: usize = 0;
        while i < 65536
            invariant
                i <= 65536,
                forall|j: int| 0 <= j < i ==> self.data@[j] == 0u8,
            decreases 65536 - i,
        {
            self.data[i] = 0x00;
            i = i + 1;
        }
        assert(self@ =~= spec_zeroed());
    }

    /// Reads the byte at `address`.
    pub fn get_byte(&self, address: u16) -> (byte: u8)
        ensures
            byte == self@[address as int],
    {
        self.data[address as usize]
    }

    /// Writes `value` at `address` and leaves every other cell alone.
    pub fn set_byte(&mut self, address: u16, value: u8)
        ensures
            final(self)@ == old(self)@.update(address as int, value),
            final(self).spec_get_byte(address) == value,
            forall|other: u16|
                other != address ==> final(self).spec_get_byte(other) == old(self).spec_get_byte(
                    other,
                ),
    {
        self.data[address as usize] = value;
    }

    /// Writes the run `values` from `start` on, if it fits below the end of
    /// the address space; a run that does not fit is refused and nothing is
    /// written.
    pub fn set_bytes(&mut self, start: u16, values: &[u8]) -> (done: Result<(), MemoryError>)
        ensures
            start + values@.len() <= 65536 ==> done == Ok::<(), MemoryError>(()) && final(self)@
                == spec_write_run(old(self)@, start as int, values@),
            start + values@.len() > 65536 ==> done == Err::<(), MemoryError>(
                MemoryError::OutOfRange { start, len: values.len() },
            ) && final(self)@ == old(self)@,
    {
        let len = values.len();
        let first: usize = start as usize;
        if len > 65536 - first {
            return Err(MemoryError::OutOfRange { start, len });
        }
        let mut i: usize = 0;
        while i < len
            invariant
                len == values@.len(),
                first == start,
                first + len <= 65536,
                i <= len,
                forall|j: int|
                    0 <= j < 65536 ==> self.data@[j] == (if first <= j < first + i {
                        values@[j - first]
                    } else {
                        old(self).data@[j]
                    }),
            decreases len - i,
        {
            self.data[first + i] = values[i];
            i = i + 1;
        }
        assert(self@ =~= spec_write_run(old(self)@, start as int, values@));
        Ok(())
    }

    /// Replaces the whole contents by the image `bytes`, which must hold at
    /// least 65536 bytes; a shorter image is refused and nothing changes.
    /// Bytes past the first 65536 are not read.
    pub fn load(&mut self, bytes: &[u8]) -> (done: Result<(), MemoryError>)
        ensures
            (match spec_from_image(bytes@) {
                Some(contents) => done == Ok::<(), MemoryError>(()) && final(self)@ == contents,
                None => done == Err::<(), MemoryError>(
                    MemoryError::TruncatedImage { len: bytes.len() },
                ) && final(self)@ == old(self)@,
            }),
    {
        let len = bytes.len();
        if len < 65536 {
            return Err(MemoryError::TruncatedImage { len });
        }
        let mut i: usize = 0;
        while i < 65536
            invariant
                bytes@.len() >= 65536,
                i <= 65536,
                forall|j: int| 0 <= j < i ==> self.data@[j] == bytes@[j],
            decreases 65536 - i,
        {
            self.data[i] = bytes[i];
            i = i + 1;
        }
        assert(self@ =~= bytes@.take(65536));
        Ok(())
    }

    /// The image of the memory: exactly 65536 bytes, cell `i` at offset `i`.
    pub fn save(&self) -> (image: Vec<u8>)
        ensures
            image@ == spec_image(self@),
            image@.len() == 65536,
    {
        let mut image: Vec<u8> = Vec::with_capacity(65536);
        let mut i: usize = 0;
        while i < 65536
            invariant
                i <= 65536,
                image@.len() == i,
                forall|j: int| 0 <= j < i ==> image@[j] == self.data@[j],
            decreases 65536 - i,
        {
            image.push(self.data[i]);
            i = i + 1;
        }
        assert(image@ =~= self@);
        image
    }
}

impl Default for MEMORY {
    fn default() -> (memory: Self)
        ensures
            memory@ == spec_zeroed(),
    {
        Self::new()
    }
}

/// Reading a cell that was just written gives the written value, and
/// reading any other cell gives what it held before.
pub proof fn lemma_get_after_set(mem: Seq<u8>, address: u16, value: u8, other: u16)
    requires
        mem.len() == 65536,
    ensures
        mem.update(address as int, value)[address as int] == value,
        other != address ==> mem.update(address as int, value)[other as int] == mem[other as int],
{
}

/// Saving a memory and loading the image into any memory reproduces the
/// saved contents cell for cell.
pub proof fn lemma_load_of_save(memory: MEMORY)
    ensures
        spec_from_image(spec_image(memory@)) == Some(memory@),
{
    assert(memory@.take(65536) =~= memory@);
}

/// A zeroed memory has all 65536 cells, and every one of them reads zero.
pub proof fn lemma_zeroed_reads_zero(address: u16)
    ensures
        spec_zeroed().len() == 65536,
        spec_zeroed()[address as int] == 0,
{
}

} // verus!
