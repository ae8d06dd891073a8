//! The processor: fetches the opcode at the program counter, decodes it and
//! applies the instruction to the register file and the address space.

use vstd::prelude::*;
use super::instruction::CallCondition;
use super::instruction::Instruction;
use super::instruction::JumpCondition;
use super::instruction::LoadSource16;
use super::instruction::LoadSource8;
use super::instruction::LoadTarget16;
use super::instruction::LoadTarget8;
use super::instruction::Register8;
use super::machine::add_flags;
use super::machine::after_bit_test;
use super::machine::after_compare;
use super::machine::after_rotate;
use super::machine::jump_target;
use super::machine::rotated_left;
use super::machine::signed;
use super::machine::sum_8;
use super::machine::xor_flags;
use super::machine::Machine;
use super::machine::PREFIX;
use super::memory::Memory;
use super::registers::Registers;

verus! {

/// Why a step could not be carried out.
#[derive(Debug, Clone, Copy, PartialEq, Eq, Structural)]
pub enum CpuError {
    /// The opcode at `address` has no entry in its table. `prefixed` says
    /// that it followed the escape byte.
    UnknownInstruction { address: u16, opcode: u8, prefixed: bool },
    /// The instruction takes a word operand at `address`, the last address:
    /// the second byte of the word would lie past the address space.
    WordOutOfRange { address: u16 },
}

/// The processor. It owns the register file; the address space is lent to it
/// for each step.
pub struct CPU {
    pub registers: Registers,
}

impl CPU {
    /// The machine that this processor forms with an address space that
    /// holds `memory`.
    pub open spec fn with(self, memory: Seq<u8>) -> Machine {
        Machine { registers: self.registers, memory }
    }

    /// A processor with the register file at power-up.
    pub fn new() -> (cpu: CPU)
        ensures
            cpu.registers == Registers::initial(),
    {
        CPU { registers: Registers::new() }
    }

    /// Carries out one step: fetches the opcode at the program counter (and,
    /// behind the escape byte, the opcode that follows), decodes it, executes
    /// the instruction and stores the next program counter.
    pub fn cycle(&mut self, memory: &mut Memory) -> (outcome: Result<(), CpuError>)
        ensures
            final(self).with(final(memory)@) == old(self).with(old(memory)@).step().0,
            outcome == old(self).with(old(memory)@).step().1,
    {
        let mut instruction_byte = memory.read_8(self.registers.pc);
        let prefixed = instruction_byte == PREFIX;
        if prefixed {
            self.registers.pc = self.registers.pc.wrapping_add(1);
            instruction_byte = memory.read_8(self.registers.pc);
        }
        match Instruction::decode(instruction_byte, prefixed) {
            Some(instruction) => {
                match self.execute(instruction, memory) {
                    Ok(next_pc) => {
                        self.registers.pc = next_pc;
                        Ok(())
                    },
                    Err(error) => Err(error),
                }
            },
            None => Err(
                CpuError::UnknownInstruction {
                    address: self.registers.pc,
                    opcode: instruction_byte,
                    prefixed,
                },
            ),
        }
    }

    /// Applies `instruction` to the register file and the address space and
    /// returns the value that the program counter takes next. Where the
    /// instruction takes a word operand that would lie past the address
    /// space, nothing is changed and the error says so.
    #[verifier::rlimit(40)]
    pub fn execute(&mut self, instruction: Instruction, memory: &mut Memory) -> (next: Result<
        u16,
        CpuError,
    >)
        requires
            instruction.executable(),
        ensures
            match old(self).with(old(memory)@).fault(instruction) {
                Some(error) => {
                    &&& next == Err::<u16, CpuError>(error)
                    &&& final(self).with(final(memory)@) == old(self).with(old(memory)@)
                },
                None => {
                    &&& next == Ok::<u16, CpuError>(
                        old(self).with(old(memory)@).after(instruction).1,
                    )
                    &&& final(self).with(final(memory)@) == old(self).with(old(memory)@).after(
                        instruction,
                    ).0
                },
            },
    {
        match instruction {
            Instruction::ADD8(register) => {
                let new_value = self.add8(register);
                self.registers.a = new_value;
                Ok(self.registers.pc.wrapping_add(1))
            },
            Instruction::NOP => Ok(self.registers.pc.wrapping_add(1)),
            Instruction::LD16(source, target) => self.load_16(source, target, memory),
            Instruction::LD8(source, target) => self.load_8(source, target, memory),
            Instruction::XOR8(register) => {
                let new_value = self.xor8(register);
                self.registers.a = new_value;
                Ok(self.registers.pc.wrapping_add(1))
            },
            Instruction::BIT(source, index) => {
                match source {
                    LoadSource8::Reg(register) => self.bit_test(register, index),
                    _ => unreached(),
                }
                Ok(self.registers.pc.wrapping_add(1))
            },
            Instruction::JR(condition, source) => {
                let source_val: i8 = match source {
                    LoadSource8::D8 => {
                        let operand = memory.read_8(self.registers.pc.wrapping_add(1));
                        assert(operand as i8 == signed(operand)) by (bit_vector);
                        operand as i8
                    },
                    _ => unreached(),
                };
                let should_jump = match condition {
                    JumpCondition::NZ => !self.registers.f.zero,
                    JumpCondition::Z => self.registers.f.zero,
                };
                Ok(self.jr(should_jump, source_val))
            },
            Instruction::INC8(register) => {
                self.registers.set_8(register, self.registers.get_8(register).wrapping_add(1));
                Ok(self.registers.pc.wrapping_add(1))
            },
            Instruction::INC16(register) => {
                self.registers.set_16(register, self.registers.get_16(register).wrapping_add(1));
                Ok(self.registers.pc.wrapping_add(1))
            },
            Instruction::CALL(condition) => {
                match condition {
                    CallCondition::Unconditional => {
                        if self.registers.pc.wrapping_add(1) == 0xFFFF {
                            return Err(CpuError::WordOutOfRange { address: 0xFFFF });
                        }
                        self.push16(self.registers.pc, memory);
                        self.read_operand_16(memory)
                    },
                }
            },
            Instruction::RET => Ok(self.pop16(memory).wrapping_add(3)),
            Instruction::PUSH(register) => {
                let source_val = self.registers.get_16(register);
                self.push16(source_val, memory);
                Ok(self.registers.pc.wrapping_add(1))
            },
            Instruction::RL(source) => {
                match source {
                    LoadSource8::Reg(register) => {
                        let mut source_val = self.registers.get_8(register);
                        source_val = self.rl(source_val);
                        self.registers.set_8(register, source_val);
                        Ok(self.registers.pc.wrapping_add(1))
                    },
                    _ => unreached(),
                }
            },
            Instruction::POP(register) => {
                let new_val = self.pop16(memory);
                self.registers.set_16(register, new_val);
                Ok(self.registers.pc.wrapping_add(1))
            },
            Instruction::DEC8(register) => {
                self.registers.set_8(register, self.registers.get_8(register).wrapping_sub(1));
                Ok(self.registers.pc.wrapping_add(1))
            },
            Instruction::CP(source) => {
                let source_val = match source {
                    LoadSource8::D8 => memory.read_8(self.registers.pc.wrapping_add(1)),
                    _ => unreached(),
                };
                self.cp(source_val);
                Ok(self.registers.pc.wrapping_add(2))
            },
        }
    }

    /// Copies a 16-bit value from `source` to `target` and returns the next
    /// program counter.
    fn load_16(&mut self, source: LoadSource16, target: LoadTarget16, memory: &Memory) -> (next:
        Result<u16, CpuError>)
        ensures
            final(self).with(memory@) == old(self).with(memory@).execute(
                Instruction::LD16(source, target),
            ).0,
            next == old(self).with(memory@).execute(Instruction::LD16(source, target)).1,
    {
        let source_val = match source {
            LoadSource16::D16 => match self.read_operand_16(memory) {
                Ok(value) => value,
                Err(error) => {
                    return Err(error);
                },
            },
            LoadSource16::Reg(register) => self.registers.get_16(register),
        };
        match target {
            LoadTarget16::Reg(register) => {
                self.registers.set_16(register, source_val);
            },
        }
        match source {
            LoadSource16::D16 => Ok(self.registers.pc.wrapping_add(3)),
            _ => Ok(self.registers.pc.wrapping_add(1)),
        }
    }

    /// Reads the value that an 8-bit load takes from `source`.
    fn read_source_8(&self, source: LoadSource8, memory: &Memory) -> (value: u8)
        ensures
            value == self.with(memory@).source_8(source),
    {
        match source {
            LoadSource8::D8 => memory.read_8(self.registers.pc.wrapping_add(1)),
            LoadSource8::Reg(register) => self.registers.get_8(register),
            LoadSource8::Address(register) => memory.read_8(self.registers.get_16(register)),
        }
    }

    /// Writes the value of an 8-bit load to `target`.
    fn write_target_8(&mut self, target: LoadTarget8, source_val: u8, memory: &mut Memory) -> (done:
        Result<(), CpuError>)
        ensures
            done is Err <==> target is AddressD8 && old(self).registers.pc.wrapping_add(1)
                == 0xFFFF,
            done is Err ==> done == Err::<(), CpuError>(
                CpuError::WordOutOfRange { address: 0xFFFF },
            ) && *final(self) == *old(self) && final(memory)@ == old(memory)@,
            done is Ok ==> final(self).with(final(memory)@) == old(self).with(
                old(memory)@,
            ).write_target_8(target, source_val),
    {
        match target {
            LoadTarget8::Address(register) => {
                memory.write_8(self.registers.get_16(register), source_val);
            },
            LoadTarget8::Reg(register) => {
                self.registers.set_8(register, source_val);
            },
            LoadTarget8::AddressDec(register) => {
                let curr_address = self.registers.get_16(register);
                memory.write_8(curr_address, source_val);
                self.registers.set_16(register, curr_address.wrapping_sub(1));
            },
            LoadTarget8::OffsetAddress(register) => {
                let curr_address = 0xFF00 + self.registers.get_8(register) as u16;
                memory.write_8(curr_address, source_val)
            },
            LoadTarget8::OffsetA8 => {
                let curr_address = 0xFF00 + memory.read_8(self.registers.pc.wrapping_add(1)) as u16;
                memory.write_8(curr_address, source_val)
            },
            LoadTarget8::AddressInc(register) => {
                let curr_address = self.registers.get_16(register);
                memory.write_8(curr_address, source_val);
                self.registers.set_16(register, curr_address.wrapping_add(1));
            },
            LoadTarget8::AddressD8 => {
                match self.read_operand_16(memory) {
                    Ok(curr_address) => memory.write_8(curr_address, source_val),
                    Err(error) => {
                        return Err(error);
                    },
                }
            },
        }
        Ok(())
    }

    /// Copies an 8-bit value from `source` to `target` and returns the next
    /// program counter.
    fn load_8(&mut self, source: LoadSource8, target: LoadTarget8, memory: &mut Memory) -> (next:
        Result<u16, CpuError>)
        ensures
            final(self).with(final(memory)@) == old(self).with(old(memory)@).execute(
                Instruction::LD8(source, target),
            ).0,
            next == old(self).with(old(memory)@).execute(Instruction::LD8(source, target)).1,
    {
        let source_val = self.read_source_8(source, memory);
        match self.write_target_8(target, source_val, memory) {
            Ok(()) => {},
            Err(error) => {
                return Err(error);
            },
        }
        match source {
            LoadSource8::D8 => Ok(self.registers.pc.wrapping_add(2)),
            _ => {
                match target {
                    LoadTarget8::OffsetA8 => Ok(self.registers.pc.wrapping_add(2)),
                    LoadTarget8::AddressD8 => Ok(self.registers.pc.wrapping_add(3)),
                    _ => Ok(self.registers.pc.wrapping_add(1)),
                }
            },
        }
    }

    /// Reads the word that follows the opcode at the program counter.
    fn read_operand_16(&self, memory: &Memory) -> (value: Result<u16, CpuError>)
        ensures
            self.registers.pc.wrapping_add(1) < 0xFFFF ==> value == Ok::<u16, CpuError>(
                self.with(memory@).operand_16(),
            ),
            self.registers.pc.wrapping_add(1) == 0xFFFF ==> value == Err::<u16, CpuError>(
                CpuError::WordOutOfRange { address: 0xFFFF },
            ),
    {
        let address = self.registers.pc.wrapping_add(1);
        match memory.read_16(address) {
            Ok(value) => Ok(value),
            Err(_) => Err(CpuError::WordOutOfRange { address }),
        }
    }

    /// Compares `value` with A: the zero flag says whether they are equal.
    pub fn cp(&mut self, value: u8)
        ensures
            final(self).registers == after_compare(old(self).registers, value),
    {
        self.registers.f.zero = value == self.registers.a;
    }

    /// Pops one byte from the stack.
    pub fn pop8(&mut self, memory: &Memory) -> (value: u8)
        ensures
            final(self).with(memory@) == old(self).with(memory@).pop_byte().0,
            value == old(self).with(memory@).pop_byte().1,
    {
        let value = memory.read_8(self.registers.sp);
        self.registers.sp = self.registers.sp.wrapping_add(1);
        value
    }

    /// Pops one word from the stack: its low byte, then its high byte.
    pub fn pop16(&mut self, memory: &Memory) -> (value: u16)
        ensures
            final(self).with(memory@) == old(self).with(memory@).pop_word().0,
            value == old(self).with(memory@).pop_word().1,
    {
        let lower = self.pop8(memory);
        let upper = self.pop8(memory);
        assert((upper as u16) << 8 | lower as u16 == upper * 256 + lower) by (bit_vector);
        (upper as u16) << 8 | lower as u16
    }

    /// Rotates `val` left by one bit through the carry flag and sets the
    /// carry and zero flags by the result.
    pub fn rl(&mut self, val: u8) -> (rotated_val: u8)
        ensures
            rotated_val == rotated_left(val, old(self).registers.f.carry),
            final(self).registers == after_rotate(old(self).registers, val),
    {
        let mut rotated_val = val << 1;
        assert({
            &&& val << 1u8 == (val * 2) % 0x100
            &&& val << 1u8 <= 0xFE
            &&& (val & 0x80 != 0) == (val >= 0x80)
        }) by (bit_vector);
        if self.registers.f.carry {
            rotated_val += 1;
        }
        self.registers.f.carry = val & 0x80 != 0;
        self.registers.f.zero = rotated_val == 0;
        rotated_val
    }

    /// Pushes one byte onto the stack.
    pub fn push8(&mut self, value: u8, memory: &mut Memory)
        ensures
            final(self).with(final(memory)@) == old(self).with(old(memory)@).push_byte(value),
    {
        self.registers.sp = self.registers.sp.wrapping_sub(1);
        memory.write_8(self.registers.sp, value);
    }

    /// Pushes one word onto the stack: its high byte, then its low byte.
    pub fn push16(&mut self, value: u16, memory: &mut Memory)
        ensures
            final(self).with(final(memory)@) == old(self).with(old(memory)@).push_word(value),
    {
        assert((value >> 8u16) == value / 256 && (value & 0x00FF) == value % 256) by (bit_vector);
        self.push8((value >> 8) as u8, memory);
        self.push8((value & 0x00FF) as u8, memory);
    }

    /// The program counter after a relative jump with operand `value`: the
    /// target if `should_jump`, else the address behind the jump.
    pub fn jr(&mut self, should_jump: bool, value: i8) -> (next: u16)
        ensures
            *final(self) == *old(self),
            should_jump ==> next == jump_target(old(self).registers.pc, value),
            !should_jump ==> next == old(self).registers.pc.wrapping_add(2),
    {
        if should_jump {
            if value < 0 {
                self.registers.pc.wrapping_sub((-(value as i16)) as u16).wrapping_add(2)
            } else {
                self.registers.pc.wrapping_add(value as u16).wrapping_add(2)
            }
        } else {
            self.registers.pc.wrapping_add(2)
        }
    }

    /// Exclusive-or of A and `register`. Sets the flags by the result and
    /// returns it; A itself is left to the caller.
    pub fn xor8(&mut self, register: Register8) -> (new_value: u8)
        ensures
            new_value == old(self).registers.a ^ old(self).registers.value_8(register),
            final(self).registers == (Registers { f: xor_flags(new_value), ..old(self).registers }),
    {
        let value = self.registers.get_8(register);
        let new_value = self.registers.a ^ value;
        self.registers.f.zero = new_value == 0;
        self.registers.f.subtract = false;
        self.registers.f.carry = false;
        self.registers.f.half_carry = false;
        new_value
    }

    /// Tests bit `index` of `register`: the zero flag says that the bit is 0.
    pub fn bit_test(&mut self, register: Register8, index: u8)
        requires
            index < 8,
        ensures
            final(self).registers == after_bit_test(old(self).registers, register, index),
    {
        let bit_value = (self.registers.get_8(register) >> index) & 0x01;
        self.registers.f.zero = bit_value == 0;
    }

    /// Sum of A and `register`, reduced to a byte. Sets the flags by the
    /// addition and returns the sum; A itself is left to the caller.
    pub fn add8(&mut self, register: Register8) -> (new_value: u8)
        ensures
            new_value == sum_8(old(self).registers.a, old(self).registers.value_8(register)),
            final(self).registers == (Registers {
                f: add_flags(old(self).registers.a, old(self).registers.value_8(register)),
                ..old(self).registers
            }),
    {
        let value = self.registers.get_8(register);
        let a = self.registers.a;
        let new_value = a.wrapping_add(value);
        let did_overflow = new_value < a;
        assert(a & 0xF == a % 0x10 && value & 0xF == value % 0x10) by (bit_vector);
        self.registers.f.zero = new_value == 0;
        self.registers.f.subtract = false;
        self.registers.f.carry = did_overflow;
        self.registers.f.half_carry = (a & 0xF) + (value & 0xF) > 0xF;
        new_value
    }
}

} // verus!
