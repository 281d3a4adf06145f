//! The processor: its register file, the operations of the instruction set
//! on it, and the stack discipline.
//!
//! The processor does not own the memory. Every operation that touches
//! memory takes it as an argument, as a device on a shared bus would.
//!
//! Each operation is specified by a function on the register file, and on
//! the memory contents where it writes them. A function named after an
//! instruction does what the instruction does to registers, flags, stack
//! and memory. Called by hand, most of them also step the program counter,
//! by one where the instruction has no operand and by two where the
//! function takes one; each contract says whether and by how much, and the
//! count wraps at the top of the address space. The engine does not rely on
//! these steps: it places the program counter itself, by the length of the
//! instruction it decoded.
//!
//! The stack lives in page one. The low byte of the stack pointer is the
//! offset of the next free slot in that page, and every push and pull
//! addresses the page by that offset alone, so the stack wraps within its
//! page and never reaches other memory.

use vstd::prelude::*;
use crate::address::{make_address, split_address};
use crate::instruction::AddressingModes;
use crate::memory::MEMORY;
use crate::resolver::{spec_wrap_byte, spec_wrap_word};
use crate::status::Status;

verus! {

/// The lowest address of the stack page.
pub const STACK_LOW: u16 = 0x0100;

/// The highest address of the stack page, where an empty stack begins.
pub const STACK_HIGH: u16 = 0x01FF;

/// The register file of the processor.
#[derive(Clone, Copy, Debug, PartialEq, Eq)]
pub struct CPU {
    /// The accumulator.
    pub acc: u8,
    /// The index register X.
    pub x: u8,
    /// The index register Y.
    pub y: u8,
    /// The stack pointer. Its low byte is the offset of the next free slot
    /// in the stack page.
    pub stkptr: u16,
    /// The program counter.
    pub prgmctr: u16,
    /// The status flags.
    pub status: Status,
    /// The addressing mode of the instruction executed last.
    pub mode: AddressingModes,
}

/// The address in the stack page at the offset that is the low byte of `n`.
pub open spec fn spec_stack_slot(n: int) -> u16 {
    (STACK_LOW + n % 256) as u16
}

impl CPU {
    /// The register file of a processor that was just built or reset: the
    /// stack pointer at the top of the stack page, all else zero or clear.
    pub open spec fn spec_new() -> CPU {
        CPU {
            acc: 0,
            x: 0,
            y: 0,
            stkptr: STACK_HIGH,
            prgmctr: 0,
            status: Status::spec_cleared(),
            mode: AddressingModes::spec_default(),
        }
    }

    /// The register file after a reset: the initial one, whatever it was.
    pub open spec fn spec_reset(self) -> CPU {
        CPU::spec_new()
    }

    /// The program counter moved on by `bytes`, round the top of the
    /// address space. All else stays.
    pub open spec fn spec_skip(self, bytes: int) -> CPU {
        CPU { prgmctr: spec_wrap_word(self.prgmctr + bytes), ..self }
    }

    /// The accumulator holding `data`, with the zero and negative flags set
    /// from it. All else stays.
    pub open spec fn spec_with_acc(self, data: u8) -> CPU {
        CPU { acc: data, status: self.status.spec_with_value(data), ..self }
    }

    /// The register X holding `data`, with the zero and negative flags set
    /// from it. All else stays.
    pub open spec fn spec_with_x(self, data: u8) -> CPU {
        CPU { x: data, status: self.status.spec_with_value(data), ..self }
    }

    /// The register Y holding `data`, with the zero and negative flags set
    /// from it. All else stays.
    pub open spec fn spec_with_y(self, data: u8) -> CPU {
        CPU { y: data, status: self.status.spec_with_value(data), ..self }
    }

    /// The state after `lda`: the accumulator loaded with `data` and the
    /// program counter two bytes on.
    pub open spec fn spec_lda(self, data: u8) -> CPU {
        self.spec_with_acc(data).spec_skip(2)
    }

    /// The state after `ldx`: the register X loaded with `data` and the
    /// program counter two bytes on.
    pub open spec fn spec_ldx(self, data: u8) -> CPU {
        self.spec_with_x(data).spec_skip(2)
    }

    /// The state after `ldy`: the register Y loaded with `data` and the
    /// program counter two bytes on.
    pub open spec fn spec_ldy(self, data: u8) -> CPU {
        self.spec_with_y(data).spec_skip(2)
    }

    /// The state after `stx` or `sty`: the program counter two bytes on.
    /// Registers and flags stay.
    pub open spec fn spec_stored(self) -> CPU {
        self.spec_skip(2)
    }

    /// The state after `tax`: X holds the accumulator and the program
    /// counter is one byte on.
    pub open spec fn spec_tax(self) -> CPU {
        self.spec_with_x(self.acc).spec_skip(1)
    }

    /// The state after `txa`: the accumulator holds X and the program
    /// counter is one byte on.
    pub open spec fn spec_txa(self) -> CPU {
        self.spec_with_acc(self.x).spec_skip(1)
    }

    /// The state after `tay`: Y holds the accumulator and the program
    /// counter is one byte on.
    pub open spec fn spec_tay(self) -> CPU {
        self.spec_with_y(self.acc).spec_skip(1)
    }

    /// The state after `tya`: the accumulator holds Y and the program
    /// counter is one byte on.
    pub open spec fn spec_tya(self) -> CPU {
        self.spec_with_acc(self.y).spec_skip(1)
    }

    /// The state after `tsx`: X holds the low byte of the stack pointer
    /// and the program counter is one byte on.
    pub open spec fn spec_tsx(self) -> CPU {
        self.spec_with_x(spec_wrap_byte(self.stkptr as int)).spec_skip(1)
    }

    /// The state after `txs`: the stack pointer designates the slot of the
    /// stack page whose offset is X. The flags and the program counter
    /// stay.
    pub open spec fn spec_txs(self) -> CPU {
        CPU { stkptr: spec_stack_slot(self.x as int), ..self }
    }

    /// The state after `inx`: X is one more, from 0xFF round to 0, and the
    /// program counter is one byte on.
    pub open spec fn spec_inx(self) -> CPU {
        self.spec_with_x(spec_wrap_byte(self.x + 1)).spec_skip(1)
    }

    /// The state after `iny`: Y is one more, from 0xFF round to 0, and the
    /// program counter is one byte on.
    pub open spec fn spec_iny(self) -> CPU {
        self.spec_with_y(spec_wrap_byte(self.y + 1)).spec_skip(1)
    }

    /// The state after `dex`: X is one less, from 0 round to 0xFF, and the
    /// program counter is one byte on.
    pub open spec fn spec_dex(self) -> CPU {
        self.spec_with_x(spec_wrap_byte(self.x - 1)).spec_skip(1)
    }

    /// The state after `dey`: Y is one less, from 0 round to 0xFF, and the
    /// program counter is one byte on.
    pub open spec fn spec_dey(self) -> CPU {
        self.spec_with_y(spec_wrap_byte(self.y - 1)).spec_skip(1)
    }

    /// The state after `nop`: the program counter is one byte on.
    pub open spec fn spec_nop(self) -> CPU {
        self.spec_skip(1)
    }

    /// The state after `brk`: the break flag is set and the program counter
    /// is one byte on.
    pub open spec fn spec_brk(self) -> CPU {
        CPU { status: Status { b: true, ..self.status }, ..self }.spec_skip(1)
    }

    /// The program counter set to `data`.
    pub open spec fn spec_jmp(self, data: u16) -> CPU {
        CPU { prgmctr: data, ..self }
    }

    /// The address of the slot that the next push writes.
    pub open spec fn spec_stack_address(self) -> u16 {
        spec_stack_slot(self.stkptr as int)
    }

    /// The state after `data` is pushed: the byte stands in the slot the
    /// stack pointer designated, and the pointer has moved one slot down,
    /// from the bottom of the stack page round to its top.
    pub open spec fn spec_push(self, mem: Seq<u8>, data: u8) -> (CPU, Seq<u8>) {
        (
            CPU { stkptr: spec_stack_slot(self.stkptr - 1), ..self },
            mem.update(self.spec_stack_address() as int, data),
        )
    }

    /// The state after a pull and the byte pulled: the pointer has moved one
    /// slot up, from the top of the stack page round to its bottom, and the
    /// byte is the one in the slot it then designates.
    pub open spec fn spec_pull(self, mem: Seq<u8>) -> (CPU, u8) {
        let cpu = CPU { stkptr: spec_stack_slot(self.stkptr + 1), ..self };
        (cpu, mem[cpu.stkptr as int])
    }

    /// The state after `pha`: the accumulator is pushed and the program
    /// counter is one byte on.
    pub open spec fn spec_pha(self, mem: Seq<u8>) -> (CPU, Seq<u8>) {
        let (cpu, pushed) = self.spec_push(mem, self.acc);
        (cpu.spec_skip(1), pushed)
    }

    /// The state after `php`: the status byte is pushed and the program
    /// counter is one byte on. The flags stay.
    pub open spec fn spec_php(self, mem: Seq<u8>) -> (CPU, Seq<u8>) {
        let (cpu, pushed) = self.spec_push(mem, self.status.spec_to_byte());
        (cpu.spec_skip(1), pushed)
    }

    /// The state after `pla`: the accumulator holds the pulled byte and the
    /// program counter is one byte on.
    pub open spec fn spec_pla(self, mem: Seq<u8>) -> CPU {
        let (cpu, data) = self.spec_pull(mem);
        cpu.spec_with_acc(data).spec_skip(1)
    }

    /// The state after `plp`: the flags are those that the pulled byte
    /// describes. The program counter stays.
    pub open spec fn spec_plp(self, mem: Seq<u8>) -> CPU {
        let (cpu, data) = self.spec_pull(mem);
        CPU { status: Status::spec_from_byte(data), ..cpu }
    }

    /// A processor in its initial state.
    pub fn new() -> (cpu: Self)
        ensures
            cpu == CPU::spec_new(),
    {
        Self {
            acc: 0,
            x: 0,
            y: 0,
            stkptr: STACK_HIGH,
            prgmctr: 0,
            status: Status::default(),
            mode: AddressingModes::default(),
        }
    }

    /// Returns the processor to its initial state, whatever state it is in.
    pub fn reset(&mut self)
        ensures
            *final(self) == old(self).spec_reset(),
            *final(self) == CPU::spec_new(),
    {
        self.acc = 0;
        self.x = 0;
        self.y = 0;
        self.stkptr = STACK_HIGH;
        self.prgmctr = 0;
        self.status = Status::default();
        self.mode = AddressingModes::default();
    }

    /// Moves the program counter on by `bytes`, round the top of the
    /// address space.
    fn skip(&mut self, bytes: u16)
        ensures
            *final(self) == old(self).spec_skip(bytes as int),
    {
        self.prgmctr = self.prgmctr.wrapping_add(bytes);
    }

    /// Puts `data` in the accumulator and sets the zero and negative flags
    /// from it.
    fn set_acc(&mut self, data: u8)
        ensures
            *final(self) == old(self).spec_with_acc(data),
    {
        self.acc = data;
        self.status.update_for(data);
    }

    /// Puts `data` in X and sets the zero and negative flags from it.
    fn set_x(&mut self, data: u8)
        ensures
            *final(self) == old(self).spec_with_x(data),
    {
        self.x = data;
        self.status.update_for(data);
    }

    /// Puts `data` in Y and sets the zero and negative flags from it.
    fn set_y(&mut self, data: u8)
        ensures
            *final(self) == old(self).spec_with_y(data),
    {
        self.y = data;
        self.status.update_for(data);
    }

    /// Loads the accumulator, sets the zero and negative flags from the
    /// loaded value and steps the program counter by two.
    pub fn lda(&mut self, data: u8)
        ensures
            *final(self) == old(self).spec_lda(data),
            final(self).acc == data,
            final(self).prgmctr == spec_wrap_word(old(self).prgmctr + 2),
    {
        self.set_acc(data);
        self.skip(2);
    }

    /// Loads the register X, sets the zero and negative flags from the
    /// loaded value and steps the program counter by two.
    pub fn ldx(&mut self, data: u8)
        ensures
            *final(self) == old(self).spec_ldx(data),
            final(self).x == data,
            final(self).prgmctr == spec_wrap_word(old(self).prgmctr + 2),
    {
        self.set_x(data);
        self.skip(2);
    }

    /// Loads the register Y, sets the zero and negative flags from the
    /// loaded value and steps the program counter by two.
    pub fn ldy(&mut self, data: u8)
        ensures
            *final(self) == old(self).spec_ldy(data),
            final(self).y == data,
            final(self).prgmctr == spec_wrap_word(old(self).prgmctr + 2),
    {
        self.set_y(data);
        self.skip(2);
    }

    /// Stores the accumulator at `address`. Registers, flags and the
    /// program counter stay.
    pub fn sta(&mut self, memory: &mut MEMORY, address: u16)
        ensures
            *final(self) == *old(self),
            final(memory)@ == old(memory)@.update(address as int, old(self).acc),
    {
        memory.set_byte(address, self.acc);
    }

    /// Stores the register X at `address` and steps the program counter by
    /// two. Registers and flags stay.
    pub fn stx(&mut self, memory: &mut MEMORY, address: u16)
        ensures
            *final(self) == old(self).spec_stored(),
            final(self).prgmctr == spec_wrap_word(old(self).prgmctr + 2),
            final(memory)@ == old(memory)@.update(address as int, old(self).x),
    {
        memory.set_byte(address, self.x);
        self.skip(2);
    }

    /// Stores the register Y at `address` and steps the program counter by
    /// two. Registers and flags stay.
    pub fn sty(&mut self, memory: &mut MEMORY, address: u16)
        ensures
            *final(self) == old(self).spec_stored(),
            final(self).prgmctr == spec_wrap_word(old(self).prgmctr + 2),
            final(memory)@ == old(memory)@.update(address as int, old(self).y),
    {
        memory.set_byte(address, self.y);
        self.skip(2);
    }

    /// Copies the accumulator to X, sets the zero and negative flags from
    /// it and steps the program counter by one.
    pub fn tax(&mut self)
        ensures
            *final(self) == old(self).spec_tax(),
            final(self).x == old(self).acc,
            final(self).prgmctr == spec_wrap_word(old(self).prgmctr + 1),
    {
        self.set_x(self.acc);
        self.skip(1);
    }

    /// Copies X to the accumulator, sets the zero and negative flags from
    /// it and steps the program counter by one.
    pub fn txa(&mut self)
        ensures
            *final(self) == old(self).spec_txa(),
            final(self).acc == old(self).x,
            final(self).prgmctr == spec_wrap_word(old(self).prgmctr + 1),
    {
        self.set_acc(self.x);
        self.skip(1);
    }

    /// Copies the accumulator to Y, sets the zero and negative flags from
    /// it and steps the program counter by one.
    pub fn tay(&mut self)
        ensures
            *final(self) == old(self).spec_tay(),
            final(self).y == old(self).acc,
            final(self).prgmctr == spec_wrap_word(old(self).prgmctr + 1),
    {
        self.set_y(self.acc);
        self.skip(1);
    }

    /// Copies Y to the accumulator, sets the zero and negative flags from
    /// it and steps the program counter by one.
    pub fn tya(&mut self)
        ensures
            *final(self) == old(self).spec_tya(),
            final(self).acc == old(self).y,
            final(self).prgmctr == spec_wrap_word(old(self).prgmctr + 1),
    {
        self.set_acc(self.y);
        self.skip(1);
    }

    /// Copies the low byte of the stack pointer to X, sets the zero and
    /// negative flags from it and steps the program counter by one. The
    /// stack pointer stays.
    pub fn tsx(&mut self)
        ensures
            *final(self) == old(self).spec_tsx(),
            final(self).x == old(self).stkptr % 256,
            final(self).prgmctr == spec_wrap_word(old(self).prgmctr + 1),
    {
        let offset = split_address(self.stkptr).1;
        self.set_x(offset);
        self.skip(1);
    }

    /// Points the stack pointer at the slot of the stack page whose offset
    /// is X. The flags and the program counter stay.
    pub fn txs(&mut self)
        ensures
            *final(self) == old(self).spec_txs(),
    {
        self.stkptr = make_address(0x01, self.x);
    }

    /// Adds one to X, from 0xFF round to 0, sets the zero and negative
    /// flags from the result and steps the program counter by one.
    pub fn inx(&mut self)
        ensures
            *final(self) == old(self).spec_inx(),
            final(self).x == spec_wrap_byte(old(self).x + 1),
            final(self).prgmctr == spec_wrap_word(old(self).prgmctr + 1),
    {
        self.set_x(self.x.wrapping_add(1));
        self.skip(1);
    }

    /// Adds one to Y, from 0xFF round to 0, sets the zero and negative
    /// flags from the result and steps the program counter by one.
    pub fn iny(&mut self)
        ensures
            *final(self) == old(self).spec_iny(),
            final(self).y == spec_wrap_byte(old(self).y + 1),
            final(self).prgmctr == spec_wrap_word(old(self).prgmctr + 1),
    {
        self.set_y(self.y.wrapping_add(1));
        self.skip(1);
    }

    /// Takes one from X, from 0 round to 0xFF, sets the zero and negative
    /// flags from the result and steps the program counter by one.
    pub fn dex(&mut self)
        ensures
            *final(self) == old(self).spec_dex(),
            final(self).x == spec_wrap_byte(old(self).x - 1),
            final(self).prgmctr == spec_wrap_word(old(self).prgmctr + 1),
    {
        self.set_x(self.x.wrapping_sub(1));
        self.skip(1);
    }

    /// Takes one from Y, from 0 round to 0xFF, sets the zero and negative
    /// flags from the result and steps the program counter by one.
    pub fn dey(&mut self)
        ensures
            *final(self) == old(self).spec_dey(),
            final(self).y == spec_wrap_byte(old(self).y - 1),
            final(self).prgmctr == spec_wrap_word(old(self).prgmctr + 1),
    {
        self.set_y(self.y.wrapping_sub(1));
        self.skip(1);
    }

    /// Pushes `data`: writes it to the slot of the stack page that the
    /// stack pointer designates, then moves the pointer one slot down. The
    /// program counter stays.
    pub fn push(&mut self, memory: &mut MEMORY, data: u8)
        ensures
            (*final(self), final(memory)@) == old(self).spec_push(old(memory)@, data),
            0x0100 <= final(self).stkptr <= 0x01FF,
    {
        let offset = split_address(self.stkptr).1;
        memory.set_byte(make_address(0x01, offset), data);
        self.stkptr = make_address(0x01, offset.wrapping_sub(1));
    }

    /// Pulls a byte: moves the stack pointer one slot up, then reads the
    /// slot of the stack page that it designates. The memory and the
    /// program counter stay.
    pub fn pull(&mut self, memory: &mut MEMORY) -> (data: u8)
        ensures
            (*final(self), data) == old(self).spec_pull(old(memory)@),
            final(memory)@ == old(memory)@,
            0x0100 <= final(self).stkptr <= 0x01FF,
    {
        let offset = split_address(self.stkptr).1;
        self.stkptr = make_address(0x01, offset.wrapping_add(1));
        memory.get_byte(self.stkptr)
    }

    /// Sets the program counter.
    pub fn jmp(&mut self, data: u16)
        ensures
            *final(self) == old(self).spec_jmp(data),
    {
        self.prgmctr = data;
    }

    /// Sets the program counter.
    pub fn set_ctr(&mut self, value: u16)
        ensures
            *final(self) == old(self).spec_jmp(value),
    {
        self.prgmctr = value;
    }

    /// Pushes the accumulator and steps the program counter by one. The
    /// other registers and the flags stay.
    pub fn pha(&mut self, memory: &mut MEMORY)
        ensures
            (*final(self), final(memory)@) == old(self).spec_pha(old(memory)@),
            final(self).prgmctr == spec_wrap_word(old(self).prgmctr + 1),
    {
        self.push(memory, self.acc);
        self.skip(1);
    }

    /// Pulls the accumulator, sets the zero and negative flags from the
    /// pulled value and steps the program counter by one. The pulled value
    /// is returned. The memory stays.
    pub fn pla(&mut self, memory: &mut MEMORY) -> (data: u8)
        ensures
            *final(self) == old(self).spec_pla(old(memory)@),
            data == old(self).spec_pull(old(memory)@).1,
            data == final(self).acc,
            final(self).prgmctr == spec_wrap_word(old(self).prgmctr + 1),
            final(memory)@ == old(memory)@,
    {
        let data = self.pull(memory);
        self.set_acc(data);
        self.skip(1);
        self.acc
    }

    /// Pushes the status byte and steps the program counter by one. The
    /// flags themselves stay.
    pub fn php(&mut self, memory: &mut MEMORY)
        ensures
            (*final(self), final(memory)@) == old(self).spec_php(old(memory)@),
            final(self).status == old(self).status,
            final(self).prgmctr == spec_wrap_word(old(self).prgmctr + 1),
    {
        let flags = self.status.to_byte();
        self.push(memory, flags);
        self.skip(1);
    }

    /// Pulls the status byte and sets all flags from it. The pulled byte is
    /// returned. The memory and the program counter stay.
    pub fn plp(&mut self, memory: &mut MEMORY) -> (data: u8)
        ensures
            *final(self) == old(self).spec_plp(old(memory)@),
            data == old(self).spec_pull(old(memory)@).1,
            final(memory)@ == old(memory)@,
    {
        let data = self.pull(memory);
        self.status = Status::from_byte(data);
        data
    }

    /// Steps the program counter by one and does nothing else.
    pub fn nop(&mut self)
        ensures
            *final(self) == old(self).spec_nop(),
            final(self).prgmctr == spec_wrap_word(old(self).prgmctr + 1),
    {
        self.skip(1);
    }

    /// Sets the break flag and steps the program counter by one.
    pub fn brk(&mut self)
        ensures
            *final(self) == old(self).spec_brk(),
            final(self).status.b,
            final(self).prgmctr == spec_wrap_word(old(self).prgmctr + 1),
    {
        self.status.b = true;
        self.skip(1);
    }
}

impl Default for CPU {
    fn default() -> (cpu: Self)
        ensures
            cpu == CPU::spec_new(),
    {
        Self::new()
    }
}

/// Resetting twice is resetting once: a reset leaves the initial register
/// file, stack pointer at the top of the stack page and all else zero or
/// clear, whatever the processor held before.
pub proof fn lemma_reset_idempotent(cpu: CPU)
    ensures
        cpu.spec_reset().spec_reset() == cpu.spec_reset(),
        cpu.spec_reset() == CPU::spec_new(),
        cpu.spec_reset().acc == 0 && cpu.spec_reset().x == 0 && cpu.spec_reset().y == 0,
        cpu.spec_reset().stkptr == 0x01FF && cpu.spec_reset().prgmctr == 0,
        cpu.spec_reset().status.spec_to_byte() == 0,
{
}

} // verus!
