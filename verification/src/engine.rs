//! The fetch-decode-execute engine.
//!
//! One step reads the opcode at the program counter and the two bytes after
//! it, decodes the opcode, resolves the operand, performs the instruction
//! and moves the program counter past it. A step is atomic: it is performed
//! whole, or it is refused and nothing has changed.

use vstd::prelude::*;
use crate::cpu::CPU;
use crate::instruction::{decode, spec_decode, AddressingModes, DecodedInstruction, Instruction};
use crate::memory::MEMORY;
use crate::resolver::{resolve, spec_resolve, spec_wrap_byte, spec_wrap_word, Operand};

verus! {

/// Why the engine did not execute an instruction.
#[derive(Clone, Copy, Debug, PartialEq, Eq)]
pub enum ExecuteError {
    /// The byte `opcode` at `address` is not assigned to any instruction.
    IllegalOpcode { address: u16, opcode: u8 },
    /// The byte `opcode` at `address` encodes an instruction that the
    /// engine does not execute.
    Unimplemented { address: u16, opcode: u8 },
}

/// The state that an instruction leaves behind and the byte it produced.
pub struct Step {
    pub cpu: CPU,
    pub memory: Seq<u8>,
    pub result: Option<u8>,
}

/// The byte that a load takes from its operand: the value itself, or the
/// byte at the effective address. Other operands hold no byte to load.
pub open spec fn spec_operand_value(operand: Operand, mem: Seq<u8>) -> Option<u8> {
    match operand {
        Operand::Value(value) => Some(value),
        Operand::Address(address) => Some(mem[address as int]),
        _ => None,
    }
}

/// Whether the engine executes the instructions of this mnemonic.
pub open spec fn spec_implemented(instr: Instruction) -> bool {
    match instr {
        Instruction::LDA | Instruction::LDX | Instruction::LDY => true,
        Instruction::STA | Instruction::STX | Instruction::STY => true,
        Instruction::TAX | Instruction::TXA | Instruction::TAY | Instruction::TYA => true,
        Instruction::TSX | Instruction::TXS => true,
        Instruction::INX | Instruction::INY | Instruction::DEX | Instruction::DEY => true,
        Instruction::PHA | Instruction::PLA | Instruction::PHP | Instruction::PLP => true,
        Instruction::JMP | Instruction::NOP | Instruction::BRK => true,
        _ => false,
    }
}

impl CPU {
    /// What the function of the instruction `instr` does to the registers
    /// and the memory when it operates on `operand`, and the byte that the
    /// instruction produces. The program counter is where that function
    /// leaves it. It is nothing where the engine does not execute the
    /// mnemonic, or where the operand is of a kind the mnemonic does not
    /// take.
    pub open spec fn spec_apply(
        self,
        mem: Seq<u8>,
        instr: Instruction,
        operand: Operand,
    ) -> Option<Step> {
        match instr {
            Instruction::LDA => match spec_operand_value(operand, mem) {
                Some(data) => Some(
                    Step { cpu: self.spec_lda(data), memory: mem, result: Some(data) },
                ),
                None => None,
            },
            Instruction::LDX => match spec_operand_value(operand, mem) {
                Some(data) => Some(
                    Step { cpu: self.spec_ldx(data), memory: mem, result: Some(data) },
                ),
                None => None,
            },
            Instruction::LDY => match spec_operand_value(operand, mem) {
                Some(data) => Some(
                    Step { cpu: self.spec_ldy(data), memory: mem, result: Some(data) },
                ),
                None => None,
            },
            Instruction::STA => match operand {
                Operand::Address(address) => Some(
                    Step {
                        cpu: self,
                        memory: mem.update(address as int, self.acc),
                        result: None,
                    },
                ),
                _ => None,
            },
            Instruction::STX => match operand {
                Operand::Address(address) => Some(
                    Step {
                        cpu: self.spec_stored(),
                        memory: mem.update(address as int, self.x),
                        result: None,
                    },
                ),
                _ => None,
            },
            Instruction::STY => match operand {
                Operand::Address(address) => Some(
                    Step {
                        cpu: self.spec_stored(),
                        memory: mem.update(address as int, self.y),
                        result: None,
                    },
                ),
                _ => None,
            },
            Instruction::JMP => match operand {
                Operand::Address(address) => Some(
                    Step { cpu: self.spec_jmp(address), memory: mem, result: None },
                ),
                _ => None,
            },
            _ => if operand is Implied {
                self.spec_apply_implied(mem, instr)
            } else {
                None
            },
        }
    }

    /// What the function of an instruction without an operand does: see
    /// `spec_apply`.
    pub open spec fn spec_apply_implied(self, mem: Seq<u8>, instr: Instruction) -> Option<Step> {
        match instr {
            Instruction::TAX => Some(Step { cpu: self.spec_tax(), memory: mem, result: None }),
            Instruction::TXA => Some(Step { cpu: self.spec_txa(), memory: mem, result: None }),
            Instruction::TAY => Some(Step { cpu: self.spec_tay(), memory: mem, result: None }),
            Instruction::TYA => Some(Step { cpu: self.spec_tya(), memory: mem, result: None }),
            Instruction::TSX => Some(Step { cpu: self.spec_tsx(), memory: mem, result: None }),
            Instruction::TXS => Some(Step { cpu: self.spec_txs(), memory: mem, result: None }),
            Instruction::INX => Some(Step { cpu: self.spec_inx(), memory: mem, result: None }),
            Instruction::INY => Some(Step { cpu: self.spec_iny(), memory: mem, result: None }),
            Instruction::DEX => Some(Step { cpu: self.spec_dex(), memory: mem, result: None }),
            Instruction::DEY => Some(Step { cpu: self.spec_dey(), memory: mem, result: None }),
            Instruction::PHA => Some(
                Step { cpu: self.spec_pha(mem).0, memory: self.spec_pha(mem).1, result: None },
            ),
            Instruction::PHP => Some(
                Step { cpu: self.spec_php(mem).0, memory: self.spec_php(mem).1, result: None },
            ),
            Instruction::PLA => Some(
                Step {
                    cpu: self.spec_pla(mem),
                    memory: mem,
                    result: Some(self.spec_pull(mem).1),
                },
            ),
            Instruction::PLP => Some(
                Step {
                    cpu: self.spec_plp(mem),
                    memory: mem,
                    result: Some(self.spec_pull(mem).1),
                },
            ),
            Instruction::NOP => Some(Step { cpu: self.spec_nop(), memory: mem, result: None }),
            Instruction::BRK => Some(Step { cpu: self.spec_brk(), memory: mem, result: None }),
            _ => None,
        }
    }

    /// The registers once the engine has placed the program counter after
    /// an instruction of mnemonic `instr` in addressing mode `mode` that
    /// stood at `before`: a jump has set the counter, and for every other
    /// instruction it stands past the instruction, at `before` plus the
    /// length of the instruction, round the top of the address space. The
    /// addressing mode is recorded.
    pub open spec fn spec_advance(
        self,
        before: u16,
        instr: Instruction,
        mode: AddressingModes,
    ) -> CPU {
        CPU {
            prgmctr: if instr == Instruction::JMP {
                self.prgmctr
            } else {
                spec_wrap_word(before + mode.spec_length())
            },
            mode,
            ..self
        }
    }

    /// What the instruction of mnemonic `instr` in addressing mode `mode`
    /// with the operand bytes `operand1` and `operand2` does as a whole: its
    /// operand resolved, the instruction applied to it, and the program
    /// counter placed past it. It is nothing where `spec_apply` is.
    pub open spec fn spec_perform(
        self,
        mem: Seq<u8>,
        instr: Instruction,
        mode: AddressingModes,
        operand1: u8,
        operand2: u8,
    ) -> Option<Step> {
        let operand = spec_resolve(mode, operand1, operand2, self.x, self.y, mem);
        match self.spec_apply(mem, instr, operand) {
            None => None,
            Some(step) => Some(
                Step {
                    cpu: step.cpu.spec_advance(self.prgmctr, instr, mode),
                    memory: step.memory,
                    result: step.result,
                },
            ),
        }
    }

    /// What a step comes to once the opcode at the program counter has been
    /// looked up and found to encode `decoded`. The operand bytes are the
    /// two bytes after the opcode, at addresses that wrap at the top of the
    /// address space.
    pub open spec fn spec_dispatch(
        self,
        mem: Seq<u8>,
        decoded: Option<DecodedInstruction>,
    ) -> Result<Step, ExecuteError> {
        let opcode = mem[self.prgmctr as int];
        let operand1 = mem[spec_wrap_word(self.prgmctr + 1) as int];
        let operand2 = mem[spec_wrap_word(self.prgmctr + 2) as int];
        match decoded {
            None => Err(ExecuteError::IllegalOpcode { address: self.prgmctr, opcode }),
            Some((instr, mode)) => match self.spec_perform(mem, instr, mode, operand1, operand2) {
                None => Err(ExecuteError::Unimplemented { address: self.prgmctr, opcode }),
                Some(step) => Ok(step),
            },
        }
    }

    /// One step of the engine from the registers `self` and the memory
    /// `mem`: the opcode at the program counter is looked up in the opcode
    /// table and what it encodes is dispatched.
    pub open spec fn spec_step(self, mem: Seq<u8>) -> Result<Step, ExecuteError> {
        self.spec_dispatch(mem, spec_decode(mem[self.prgmctr as int]))
    }

    /// Calls the function of the instruction `instr` on `operand` and
    /// returns the byte that the instruction produced, if it produces one:
    /// a load the loaded value, a pull the pulled byte. The program counter
    /// is left where that function leaves it. Where the engine does not
    /// execute the mnemonic, or the operand is of a kind the mnemonic does
    /// not take, nothing is performed, nothing changes and `None` is
    /// returned.
    pub fn apply(
        &mut self,
        memory: &mut MEMORY,
        instr: Instruction,
        operand: Operand,
    ) -> (done: Option<Option<u8>>)
        ensures
            (match old(self).spec_apply(old(memory)@, instr, operand) {
                Some(step) => {
                    &&& done == Some(step.result)
                    &&& *final(self) == step.cpu
                    &&& final(memory)@ == step.memory
                },
                None => {
                    &&& done.is_none()
                    &&& *final(self) == *old(self)
                    &&& final(memory)@ == old(memory)@
                },
            }),
    {
        match instr {
            Instruction::LDA => match operand_value(operand, memory) {
                Some(data) => {
                    self.lda(data);
                    Some(Some(data))
                },
                None => None,
            },
            Instruction::LDX => match operand_value(operand, memory) {
                Some(data) => {
                    self.ldx(data);
                    Some(Some(data))
                },
                None => None,
            },
            Instruction::LDY => match operand_value(operand, memory) {
                Some(data) => {
                    self.ldy(data);
                    Some(Some(data))
                },
                None => None,
            },
            Instruction::STA => match operand {
                Operand::Address(address) => {
                    self.sta(memory, address);
                    Some(None)
                },
                _ => None,
            },
            Instruction::STX => match operand {
                Operand::Address(address) => {
                    self.stx(memory, address);
                    Some(None)
                },
                _ => None,
            },
            Instruction::STY => match operand {
                Operand::Address(address) => {
                    self.sty(memory, address);
                    Some(None)
                },
                _ => None,
            },
            Instruction::JMP => match operand {
                Operand::Address(address) => {
                    self.jmp(address);
                    Some(None)
                },
                _ => None,
            },
            _ => match operand {
                Operand::Implied => self.apply_implied(memory, instr),
                _ => None,
            },
        }
    }

    /// Performs an instruction that has no operand: see `apply`.
    fn apply_implied(&mut self, memory: &mut MEMORY, instr: Instruction) -> (done: Option<
        Option<u8>,
    >)
        ensures
            (match old(self).spec_apply_implied(old(memory)@, instr) {
                Some(step) => {
                    &&& done == Some(step.result)
                    &&& *final(self) == step.cpu
                    &&& final(memory)@ == step.memory
                },
                None => {
                    &&& done.is_none()
                    &&& *final(self) == *old(self)
                    &&& final(memory)@ == old(memory)@
                },
            }),
    {
        match instr {
            Instruction::TAX => {
                self.tax();
                Some(None)
            },
            Instruction::TXA => {
                self.txa();
                Some(None)
            },
            Instruction::TAY => {
                self.tay();
                Some(None)
            },
            Instruction::TYA => {
                self.tya();
                Some(None)
            },
            Instruction::TSX => {
                self.tsx();
                Some(None)
            },
            Instruction::TXS => {
                self.txs();
                Some(None)
            },
            Instruction::INX => {
                self.inx();
                Some(None)
            },
            Instruction::INY => {
                self.iny();
                Some(None)
            },
            Instruction::DEX => {
                self.dex();
                Some(None)
            },
            Instruction::DEY => {
                self.dey();
                Some(None)
            },
            Instruction::PHA => {
                self.pha(memory);
                Some(None)
            },
            Instruction::PHP => {
                self.php(memory);
                Some(None)
            },
            Instruction::PLA => {
                let data = self.pla(memory);
                Some(Some(data))
            },
            Instruction::PLP => {
                let data = self.plp(memory);
                Some(Some(data))
            },
            Instruction::NOP => {
                self.nop();
                Some(None)
            },
            Instruction::BRK => {
                self.brk();
                Some(None)
            },
            _ => None,
        }
    }

    /// Places the program counter after an executed instruction that stood
    /// at `before`, unless the instruction was a jump, and records its
    /// addressing mode.
    fn advance(&mut self, before: u16, instr: Instruction, mode: AddressingModes)
        ensures
            *final(self) == old(self).spec_advance(before, instr, mode),
    {
        match instr {
            Instruction::JMP => {},
            _ => {
                self.prgmctr = before.wrapping_add(mode.length());
            },
        }
        self.mode = mode;
    }

    /// Performs the instruction of mnemonic `instr` in addressing mode
    /// `mode` whose operand bytes are `operand1` and `operand2`: resolves
    /// its operand, applies the instruction and places the program counter
    /// past it, at its former value plus the length of the instruction. The
    /// byte that the instruction produced is returned, if it produces one.
    /// Where the engine does not execute the instruction, nothing changes
    /// and `None` is returned.
    pub fn perform(
        &mut self,
        memory: &mut MEMORY,
        instr: Instruction,
        mode: AddressingModes,
        operand1: u8,
        operand2: u8,
    ) -> (done: Option<Option<u8>>)
        ensures
            (match old(self).spec_perform(old(memory)@, instr, mode, operand1, operand2) {
                Some(step) => {
                    &&& done == Some(step.result)
                    &&& *final(self) == step.cpu
                    &&& final(memory)@ == step.memory
                },
                None => {
                    &&& done.is_none()
                    &&& *final(self) == *old(self)
                    &&& final(memory)@ == old(memory)@
                },
            }),
    {
        let before = self.prgmctr;
        let operand = resolve(mode, operand1, operand2, self.x, self.y, memory);
        match self.apply(memory, instr, operand) {
            None => None,
            Some(result) => {
                self.advance(before, instr, mode);
                Some(result)
            },
        }
    }

    /// Executes the instruction at the program counter, given what its
    /// opcode encodes, or says why it was not executed.
    fn dispatch(
        &mut self,
        memory: &mut MEMORY,
        decoded: Option<DecodedInstruction>,
    ) -> (done: Result<Option<u8>, ExecuteError>)
        ensures
            (match old(self).spec_dispatch(old(memory)@, decoded) {
                Ok(step) => {
                    &&& done == Ok::<Option<u8>, ExecuteError>(step.result)
                    &&& *final(self) == step.cpu
                    &&& final(memory)@ == step.memory
                },
                Err(error) => {
                    &&& done == Err::<Option<u8>, ExecuteError>(error)
                    &&& *final(self) == *old(self)
                    &&& final(memory)@ == old(memory)@
                },
            }),
    {
        let address = self.prgmctr;
        let opcode = memory.get_byte(address);
        let operand1 = memory.get_byte(address.wrapping_add(1));
        let operand2 = memory.get_byte(address.wrapping_add(2));
        assert(operand1 == memory@[spec_wrap_word(address + 1) as int]);
        assert(operand2 == memory@[spec_wrap_word(address + 2) as int]);
        match decoded {
            None => Err(ExecuteError::IllegalOpcode { address, opcode }),
            Some((instr, mode)) => match self.perform(memory, instr, mode, operand1, operand2) {
                None => Err(ExecuteError::Unimplemented { address, opcode }),
                Some(result) => Ok(result),
            },
        }
    }

    /// Executes the instruction at the program counter, or says why it was
    /// not executed.
    ///
    /// The engine reads the opcode and the two bytes after it, decodes the
    /// opcode, resolves the operand, performs the instruction and moves the
    /// program counter past it. On success the byte that the instruction
    /// produced is returned, if it produces one. An unassigned opcode, and
    /// one whose instruction the engine does not execute, is reported with
    /// its address, and then neither the processor nor the memory has
    /// changed.
    pub fn step(&mut self, memory: &mut MEMORY) -> (done: Result<Option<u8>, ExecuteError>)
        ensures
            (match old(self).spec_step(old(memory)@) {
                Ok(step) => {
                    &&& done == Ok::<Option<u8>, ExecuteError>(step.result)
                    &&& *final(self) == step.cpu
                    &&& final(memory)@ == step.memory
                },
                Err(error) => {
                    &&& done == Err::<Option<u8>, ExecuteError>(error)
                    &&& *final(self) == *old(self)
                    &&& final(memory)@ == old(memory)@
                },
            }),
    {
        let decoded = decode(memory.get_byte(self.prgmctr));
        self.dispatch(memory, decoded)
    }

    /// Executes the instruction at the program counter and returns the byte
    /// it produced, if it produces one. Where the opcode is unassigned, or
    /// its instruction is one the engine does not execute, nothing changes,
    /// the program counter stays on the opcode and `None` is returned.
    pub fn execute(&mut self, m: &mut MEMORY) -> (result: Option<u8>)
        ensures
            (match old(self).spec_step(old(m)@) {
                Ok(step) => {
                    &&& result == step.result
                    &&& *final(self) == step.cpu
                    &&& final(m)@ == step.memory
                },
                Err(_) => {
                    &&& result.is_none()
                    &&& *final(self) == *old(self)
                    &&& final(m)@ == old(m)@
                },
            }),
    {
        match self.step(m) {
            Ok(result) => result,
            Err(_) => None,
        }
    }
}

/// The byte that a load takes from its operand, if the operand holds one.
pub fn operand_value(operand: Operand, memory: &MEMORY) -> (value: Option<u8>)
    ensures
        value == spec_operand_value(operand, memory@),
{
    match operand {
        Operand::Value(value) => Some(value),
        Operand::Address(address) => Some(memory.get_byte(address)),
        _ => None,
    }
}

/// The opcode table and the engine agree: an opcode of the table is
/// performed exactly where its mnemonic is one that the engine executes,
/// whatever the operand bytes, the registers and the memory hold. So no
/// opcode of an executed mnemonic comes with an operand that the mnemonic
/// does not take.
#[verifier::rlimit(40)]
pub proof fn lemma_table_matches_engine(
    cpu: CPU,
    mem: Seq<u8>,
    opcode: u8,
    operand1: u8,
    operand2: u8,
)
    ensures
        (match spec_decode(opcode) {
            Some((instr, mode)) => cpu.spec_apply(
                mem,
                instr,
                spec_resolve(mode, operand1, operand2, cpu.x, cpu.y, mem),
            ) is Some <==> spec_implemented(instr),
            None => true,
        }),
{
}

/// What a step comes to, by the opcode at the program counter. An
/// unassigned opcode is refused as illegal. An assigned opcode of a
/// mnemonic that the engine does not execute is refused as unimplemented.
/// Every other opcode is executed: its addressing mode is recorded, and the
/// program counter stands at the target of a jump, or else past the
/// instruction, its length added modulo 65536.
pub proof fn lemma_step_outcome(cpu: CPU, mem: Seq<u8>)
    ensures
        (match spec_decode(mem[cpu.prgmctr as int]) {
            None => cpu.spec_step(mem) == Err::<Step, ExecuteError>(
                ExecuteError::IllegalOpcode {
                    address: cpu.prgmctr,
                    opcode: mem[cpu.prgmctr as int],
                },
            ),
            Some((instr, mode)) => if spec_implemented(instr) {
                &&& cpu.spec_step(mem) is Ok
                &&& cpu.spec_step(mem)->Ok_0.cpu.mode == mode
                &&& instr != Instruction::JMP ==> cpu.spec_step(mem)->Ok_0.cpu.prgmctr
                    == spec_wrap_word(cpu.prgmctr + mode.spec_length())
                &&& instr == Instruction::JMP ==> Operand::Address(
                    cpu.spec_step(mem)->Ok_0.cpu.prgmctr,
                ) == spec_resolve(
                    mode,
                    mem[spec_wrap_word(cpu.prgmctr + 1) as int],
                    mem[spec_wrap_word(cpu.prgmctr + 2) as int],
                    cpu.x,
                    cpu.y,
                    mem,
                )
            } else {
                cpu.spec_step(mem) == Err::<Step, ExecuteError>(
                    ExecuteError::Unimplemented {
                        address: cpu.prgmctr,
                        opcode: mem[cpu.prgmctr as int],
                    },
                )
            },
        }),
{
    lemma_table_matches_engine(
        cpu,
        mem,
        mem[cpu.prgmctr as int],
        mem[spec_wrap_word(cpu.prgmctr + 1) as int],
        mem[spec_wrap_word(cpu.prgmctr + 2) as int],
    );
}

/// A step changes at most one cell of the memory.
pub proof fn lemma_step_writes_one_cell(cpu: CPU, mem: Seq<u8>)
    requires
        mem.len() == 65536,
    ensures
        (match cpu.spec_step(mem) {
            Ok(step) => step.memory == mem || exists|address: u16, value: u8|
                step.memory == mem.update(address as int, value),
            Err(_) => true,
        }),
{
    match cpu.spec_step(mem) {
        Ok(step) => {
            let opcode = mem[cpu.prgmctr as int];
            let operand1 = mem[spec_wrap_word(cpu.prgmctr + 1) as int];
            let operand2 = mem[spec_wrap_word(cpu.prgmctr + 2) as int];
            let (instr, mode) = spec_decode(opcode).unwrap();
            let operand = spec_resolve(mode, operand1, operand2, cpu.x, cpu.y, mem);
            match instr {
                Instruction::STA => {
                    assert(step.memory == mem.update(operand->Address_0 as int, cpu.acc));
                },
                Instruction::STX => {
                    assert(step.memory == mem.update(operand->Address_0 as int, cpu.x));
                },
                Instruction::STY => {
                    assert(step.memory == mem.update(operand->Address_0 as int, cpu.y));
                },
                Instruction::PHA => {
                    assert(step.memory == mem.update(cpu.spec_stack_address() as int, cpu.acc));
                },
                Instruction::PHP => {
                    assert(step.memory == mem.update(
                        cpu.spec_stack_address() as int,
                        cpu.status.spec_to_byte(),
                    ));
                },
                _ => {
                    assert(step.memory == mem);
                },
            }
        },
        Err(_) => {},
    }
}

} // verus!
