//! The machine as a mathematical value, and what an instruction, a step and a
//! run of steps make of it. The executor in `cpu` is verified against these
//! definitions.

use vstd::prelude::*;
use super::cpu::CpuError;
use super::instruction::CallCondition;
use super::instruction::Instruction;
use super::instruction::JumpCondition;
use super::instruction::LoadSource16;
use super::instruction::LoadSource8;
use super::instruction::LoadTarget16;
use super::instruction::LoadTarget8;
use super::instruction::Register16;
use super::instruction::Register8;
use super::memory::word_at;
use super::memory::zeroed;
use super::registers::high_byte;
use super::registers::low_byte;
use super::registers::pair;
use super::registers::FlagsRegister;
use super::registers::Registers;

verus! {

/// The byte that escapes to the table of prefixed opcodes.
pub const PREFIX: u8 = 0xCB;

/// A byte read as a signed number in two's complement.
pub open spec fn signed(byte: u8) -> i8 {
    if byte < 0x80 {
        byte as i8
    } else {
        (byte - 0x100) as i8
    }
}

/// `value` rotated left by one bit through the carry: bit 0 takes the carry
/// that came in, bit 7 leaves.
pub open spec fn rotated_left(value: u8, carry_in: bool) -> u8 {
    ((value * 2) % 0x100 + if carry_in { 1int } else { 0 }) as u8
}

/// The register file after `value` has been rotated left through the carry:
/// the carry takes bit 7 of `value`, zero says whether the result is 0.
pub open spec fn after_rotate(registers: Registers, value: u8) -> Registers {
    Registers {
        f: FlagsRegister {
            carry: value >= 0x80,
            zero: rotated_left(value, registers.f.carry) == 0,
            ..registers.f
        },
        ..registers
    }
}

/// The flags that an exclusive-or with result `result` leaves.
pub open spec fn xor_flags(result: u8) -> FlagsRegister {
    FlagsRegister { zero: result == 0, subtract: false, half_carry: false, carry: false }
}

/// The sum of two bytes, reduced to a byte.
pub open spec fn sum_8(left: u8, right: u8) -> u8 {
    ((left + right) % 0x100) as u8
}

/// The flags that the addition of `left` and `right` leaves: carry says that
/// the sum left the byte, half-carry that the sum of the low nibbles left the
/// nibble.
pub open spec fn add_flags(left: u8, right: u8) -> FlagsRegister {
    FlagsRegister {
        zero: sum_8(left, right) == 0,
        subtract: false,
        half_carry: left % 0x10 + right % 0x10 > 0xF,
        carry: left + right > 0xFF,
    }
}

/// The register file after `value` has been held against A: zero says
/// whether they are equal.
pub open spec fn after_compare(registers: Registers, value: u8) -> Registers {
    Registers { f: FlagsRegister { zero: value == registers.a, ..registers.f }, ..registers }
}

/// The register file after bit `index` of register `name` has been tested:
/// zero says that the bit is 0.
pub open spec fn after_bit_test(registers: Registers, name: Register8, index: u8) -> Registers {
    Registers {
        f: FlagsRegister { zero: (registers.value_8(name) >> index) & 0x01 == 0, ..registers.f },
        ..registers
    }
}

/// Where a taken relative jump at `pc` with operand `offset` leads: past the
/// two bytes of the jump, then `offset` bytes on or back, within 16 bits.
pub open spec fn jump_target(pc: u16, offset: i8) -> u16 {
    ((pc + offset + 2) % 0x10000) as u16
}

/// Number of bytes that an 8-bit load occupies, its opcode included.
pub open spec fn load_8_length(source: LoadSource8, target: LoadTarget8) -> u16 {
    if source is D8 {
        2
    } else {
        match target {
            LoadTarget8::OffsetA8 => 2,
            LoadTarget8::AddressD8 => 3,
            _ => 1,
        }
    }
}

/// Register file and address space together.
pub struct Machine {
    pub registers: Registers,
    pub memory: Seq<u8>,
}

impl Machine {
    /// The address space has one byte for each 16-bit address.
    pub open spec fn wf(self) -> bool {
        self.memory.len() == 0x10000
    }

    /// The machine at power-up: bring-up registers over zeroed memory.
    pub open spec fn initial() -> Machine {
        Machine { registers: Registers::initial(), memory: zeroed() }
    }

    /// The byte at `address`.
    pub open spec fn byte(self, address: u16) -> u8 {
        self.memory[address as int]
    }

    /// The byte that follows the opcode at the program counter.
    pub open spec fn operand_8(self) -> u8 {
        self.byte(self.registers.pc.wrapping_add(1))
    }

    /// The word that follows the opcode at the program counter.
    pub open spec fn operand_16(self) -> u16 {
        word_at(self.memory, self.registers.pc.wrapping_add(1) as int)
    }

    /// The machine with `value` stored at `address`.
    pub open spec fn store(self, address: u16, value: u8) -> Machine {
        Machine { memory: self.memory.update(address as int, value), ..self }
    }

    /// The machine with 8-bit register `name` set to `value`.
    pub open spec fn set_8(self, name: Register8, value: u8) -> Machine {
        Machine { registers: self.registers.with_8(name, value), ..self }
    }

    /// The machine with 16-bit register `name` set to `value`.
    pub open spec fn set_16(self, name: Register16, value: u16) -> Machine {
        Machine { registers: self.registers.with_16(name, value), ..self }
    }

    /// The machine after a byte is pushed: the stack pointer goes down by
    /// one, then the byte is stored where it points.
    pub open spec fn push_byte(self, value: u8) -> Machine {
        let sp = self.registers.sp.wrapping_sub(1);
        Machine {
            registers: Registers { sp, ..self.registers },
            memory: self.memory.update(sp as int, value),
        }
    }

    /// The machine after a word is pushed: high byte first, then low byte.
    pub open spec fn push_word(self, value: u16) -> Machine {
        self.push_byte(high_byte(value)).push_byte(low_byte(value))
    }

    /// The machine after a byte is popped, and that byte: it is read where
    /// the stack pointer points, then the stack pointer goes up by one.
    pub open spec fn pop_byte(self) -> (Machine, u8) {
        (
            Machine {
                registers: Registers { sp: self.registers.sp.wrapping_add(1), ..self.registers },
                ..self
            },
            self.byte(self.registers.sp),
        )
    }

    /// The machine after a word is popped, and that word: low byte first,
    /// then high byte.
    pub open spec fn pop_word(self) -> (Machine, u16) {
        let (first, low) = self.pop_byte();
        let (second, high) = first.pop_byte();
        (second, pair(high, low))
    }

    /// The value that an 8-bit load reads.
    pub open spec fn source_8(self, source: LoadSource8) -> u8 {
        match source {
            LoadSource8::D8 => self.operand_8(),
            LoadSource8::Reg(name) => self.registers.value_8(name),
            LoadSource8::Address(name) => self.byte(self.registers.value_16(name)),
        }
    }

    /// The value that a 16-bit load reads.
    pub open spec fn source_16(self, source: LoadSource16) -> u16 {
        match source {
            LoadSource16::D16 => self.operand_16(),
            LoadSource16::Reg(name) => self.registers.value_16(name),
        }
    }

    /// The machine after an 8-bit load has written `value` to `target`.
    pub open spec fn write_target_8(self, target: LoadTarget8, value: u8) -> Machine {
        match target {
            LoadTarget8::Reg(name) => self.set_8(name, value),
            LoadTarget8::Address(name) => self.store(self.registers.value_16(name), value),
            LoadTarget8::AddressDec(name) => {
                let address = self.registers.value_16(name);
                self.store(address, value).set_16(name, address.wrapping_sub(1))
            },
            LoadTarget8::AddressInc(name) => {
                let address = self.registers.value_16(name);
                self.store(address, value).set_16(name, address.wrapping_add(1))
            },
            LoadTarget8::OffsetAddress(name) => self.store(
                (0xFF00 + self.registers.value_8(name)) as u16,
                value,
            ),
            LoadTarget8::OffsetA8 => self.store((0xFF00 + self.operand_8()) as u16, value),
            LoadTarget8::AddressD8 => self.store(self.operand_16(), value),
        }
    }

    /// The program counter moved on by `length` bytes, within 16 bits.
    pub open spec fn past(self, length: u16) -> u16 {
        self.registers.pc.wrapping_add(length)
    }

    /// Why `instruction` cannot be executed in this state, if it cannot: it
    /// takes a word operand and the second byte of that word would lie past
    /// the last address.
    pub open spec fn fault(self, instruction: Instruction) -> Option<CpuError> {
        if instruction.takes_word_operand() && self.registers.pc.wrapping_add(1) == 0xFFFF {
            Some(CpuError::WordOutOfRange { address: 0xFFFF })
        } else {
            None
        }
    }

    /// What executing `instruction` makes of the machine, and the value that
    /// the program counter takes next. The program counter in the result is
    /// still the one the instruction found or wrote itself; a step stores the
    /// next value afterwards.
    ///
    /// Meant for an instruction that is `executable()` in a state without
    /// `fault`.
    pub open spec fn after(self, instruction: Instruction) -> (Machine, u16) {
        match instruction {
            Instruction::NOP => (self, self.past(1)),
            Instruction::ADD8(name) => {
                let operand = self.registers.value_8(name);
                let done = Machine {
                    registers: Registers {
                        a: sum_8(self.registers.a, operand),
                        f: add_flags(self.registers.a, operand),
                        ..self.registers
                    },
                    ..self
                };
                (done, done.past(1))
            },
            Instruction::XOR8(name) => {
                let result = self.registers.a ^ self.registers.value_8(name);
                let done = Machine {
                    registers: Registers { a: result, f: xor_flags(result), ..self.registers },
                    ..self
                };
                (done, done.past(1))
            },
            Instruction::LD16(source, LoadTarget16::Reg(name)) => {
                let done = self.set_16(name, self.source_16(source));
                (done, done.past(if source is D16 { 3 } else { 1 }))
            },
            Instruction::LD8(source, target) => {
                let done = self.write_target_8(target, self.source_8(source));
                (done, done.past(load_8_length(source, target)))
            },
            Instruction::BIT(source, index) => {
                let done = Machine {
                    registers: after_bit_test(self.registers, source->Reg_0, index),
                    ..self
                };
                (done, done.past(1))
            },
            Instruction::JR(condition, _) => {
                let taken = match condition {
                    JumpCondition::NZ => !self.registers.f.zero,
                    JumpCondition::Z => self.registers.f.zero,
                };
                (
                    self,
                    if taken {
                        jump_target(self.registers.pc, signed(self.operand_8()))
                    } else {
                        self.past(2)
                    },
                )
            },
            Instruction::INC8(name) => {
                let done = self.set_8(name, self.registers.value_8(name).wrapping_add(1));
                (done, done.past(1))
            },
            Instruction::DEC8(name) => {
                let done = self.set_8(name, self.registers.value_8(name).wrapping_sub(1));
                (done, done.past(1))
            },
            Instruction::INC16(name) => {
                let done = self.set_16(name, self.registers.value_16(name).wrapping_add(1));
                (done, done.past(1))
            },
            Instruction::CALL(CallCondition::Unconditional) => {
                let done = self.push_word(self.registers.pc);
                (done, done.operand_16())
            },
            Instruction::RET => {
                let (done, address) = self.pop_word();
                (done, address.wrapping_add(3))
            },
            Instruction::PUSH(name) => {
                let done = self.push_word(self.registers.value_16(name));
                (done, done.past(1))
            },
            Instruction::POP(name) => {
                let (popped, value) = self.pop_word();
                let done = popped.set_16(name, value);
                (done, done.past(1))
            },
            Instruction::RL(source) => {
                let name = source->Reg_0;
                let value = self.registers.value_8(name);
                let done = Machine {
                    registers: after_rotate(self.registers, value).with_8(
                        name,
                        rotated_left(value, self.registers.f.carry),
                    ),
                    ..self
                };
                (done, done.past(1))
            },
            Instruction::CP(_) => (
                Machine { registers: after_compare(self.registers, self.operand_8()), ..self },
                self.past(2),
            ),
        }
    }

    /// The result of executing `instruction`: the machine afterwards with the
    /// value that the program counter takes next or, where the instruction
    /// cannot be executed, the machine as it was with the reason.
    pub open spec fn execute(self, instruction: Instruction) -> (Machine, Result<u16, CpuError>) {
        match self.fault(instruction) {
            Some(error) => (self, Err(error)),
            None => (self.after(instruction).0, Ok(self.after(instruction).1)),
        }
    }

    /// The machine with the program counter set to `pc`.
    pub open spec fn at(self, pc: u16) -> Machine {
        Machine { registers: Registers { pc, ..self.registers }, ..self }
    }

    /// The machine once the opcode at the program counter has been fetched,
    /// that opcode, and whether it followed the escape byte. The escape byte
    /// is consumed: the program counter then stands at the opcode behind it.
    pub open spec fn fetch(self) -> (Machine, u8, bool) {
        let first = self.byte(self.registers.pc);
        if first == PREFIX {
            let fetched = self.at(self.past(1));
            (fetched, fetched.byte(fetched.registers.pc), true)
        } else {
            (self, first, false)
        }
    }

    /// One step: fetch, decode, execute, store the next program counter.
    /// Where the opcode has no entry in its table, or the instruction cannot
    /// be executed, the machine stays as the fetch left it and the error says
    /// why.
    pub open spec fn step(self) -> (Machine, Result<(), CpuError>) {
        let (fetched, opcode, prefixed) = self.fetch();
        match Instruction::lookup(opcode, prefixed) {
            None => (
                fetched,
                Err(
                    CpuError::UnknownInstruction {
                        address: fetched.registers.pc,
                        opcode,
                        prefixed,
                    },
                ),
            ),
            Some(instruction) => match fetched.execute(instruction) {
                (done, Ok(next)) => (done.at(next), Ok(())),
                (same, Err(error)) => (same, Err(error)),
            },
        }
    }

    /// Up to `steps` steps, one after the other; the first step that fails
    /// ends the run with its error.
    pub open spec fn run(self, steps: nat) -> (Machine, Result<(), CpuError>)
        decreases steps,
    {
        if steps == 0 {
            (self, Ok(()))
        } else {
            let (next, outcome) = self.step();
            if outcome is Ok {
                next.run((steps - 1) as nat)
            } else {
                (next, outcome)
            }
        }
    }
}

/// A no-op changes neither register nor memory, and the program counter
/// that follows it is one further. A step that finds the opcode `0x00`
/// therefore changes the program counter alone.
pub proof fn lemma_no_op(machine: Machine)
    ensures
        Instruction::lookup(0x00, false) == Some(Instruction::NOP),
        machine.after(Instruction::NOP) == (machine, machine.registers.pc.wrapping_add(1)),
        machine.byte(machine.registers.pc) == 0x00 ==> machine.step() == (
            machine.at(machine.registers.pc.wrapping_add(1)),
            Ok::<(), CpuError>(()),
        ),
{
}

/// The opcode `0xAF` is the exclusive-or of A with itself. Whatever A held,
/// it clears A, sets the zero flag, clears the other three flags and leaves
/// everything else; the program counter that follows is one further.
pub proof fn lemma_xor_a(machine: Machine)
    ensures
        Instruction::lookup(0xAF, false) == Some(Instruction::XOR8(Register8::A)),
        machine.after(Instruction::XOR8(Register8::A)) == (
            Machine {
                registers: Registers {
                    a: 0,
                    f: FlagsRegister {
                        zero: true,
                        subtract: false,
                        half_carry: false,
                        carry: false,
                    },
                    ..machine.registers
                },
                ..machine
            },
            machine.registers.pc.wrapping_add(1),
        ),
{
    let a = machine.registers.a;
    assert(a ^ a == 0) by (bit_vector);
}

/// The prefixed opcode `0x7C` tests bit 7 of H. Afterwards the zero flag says
/// that H is below `0x80`: it is clear for `0x80`, set for `0x00`. The other
/// flags, the registers and the memory stay as they were.
pub proof fn lemma_bit_7_h(machine: Machine)
    ensures
        Instruction::lookup(0x7C, true) == Some(
            Instruction::BIT(LoadSource8::Reg(Register8::H), 7),
        ),
        machine.after(Instruction::BIT(LoadSource8::Reg(Register8::H), 7)) == (
            Machine {
                registers: Registers {
                    f: FlagsRegister { zero: machine.registers.h < 0x80, ..machine.registers.f },
                    ..machine.registers
                },
                ..machine
            },
            machine.registers.pc.wrapping_add(1),
        ),
{
    let h = machine.registers.h;
    assert(((h >> 7u8) & 0x01 == 0) == (h < 0x80)) by (bit_vector);
}

/// Rotating `0x80` left with the carry clear gives `0x00` and sets carry and
/// zero; rotating `0x00` left after that gives `0x01` and clears both.
pub proof fn lemma_rotate_twice(registers: Registers)
    requires
        !registers.f.carry,
    ensures
        rotated_left(0x80, registers.f.carry) == 0x00,
        after_rotate(registers, 0x80).f.carry,
        after_rotate(registers, 0x80).f.zero,
        rotated_left(0x00, after_rotate(registers, 0x80).f.carry) == 0x01,
        !after_rotate(after_rotate(registers, 0x80), 0x00).f.carry,
        !after_rotate(after_rotate(registers, 0x80), 0x00).f.zero,
{
}

/// A push of a 16-bit register that is followed at once by a pop of the same
/// register restores the whole register file, the stack pointer and the
/// register itself included.
pub proof fn lemma_push_pop(machine: Machine, name: Register16)
    requires
        machine.wf(),
    ensures
        machine.after(Instruction::PUSH(name)).0.after(Instruction::POP(name)).0.registers
            == machine.registers,
{
    let value = machine.registers.value_16(name);
    let (popped, word) = machine.push_word(value).pop_word();
    assert(word == value);
    assert(popped.registers == machine.registers);
    assert(machine.registers.with_16(name, value) == machine.registers) by {
        FlagsRegister::lemma_unpack_packed(machine.registers.f);
    }
}

/// A run is a function of the state it starts from: two machines that agree
/// on every register and on the byte at every address end a run of the same
/// number of steps in the same state and with the same outcome.
pub proof fn lemma_run_deterministic(first: Machine, second: Machine, steps: nat)
    requires
        first.registers == second.registers,
        first.memory.len() == second.memory.len(),
        forall|address: int|
            0 <= address < first.memory.len() ==> first.memory[address] == second.memory[address],
    ensures
        first.step() == second.step(),
        first.run(steps) == second.run(steps),
{
    assert(first.memory =~= second.memory);
}

/// No instruction changes the size of the address space.
pub proof fn lemma_instruction_keeps_size(machine: Machine, instruction: Instruction)
    requires
        machine.wf(),
    ensures
        machine.after(instruction).0.wf(),
{
}

/// Neither a step nor a run changes the size of the address space.
pub proof fn lemma_run_keeps_size(machine: Machine, steps: nat)
    requires
        machine.wf(),
    ensures
        machine.step().0.wf(),
        machine.run(steps).0.wf(),
    decreases steps,
{
    let (fetched, opcode, prefixed) = machine.fetch();
    if let Some(instruction) = Instruction::lookup(opcode, prefixed) {
        lemma_instruction_keeps_size(fetched, instruction);
    }
    if steps > 0 {
        lemma_run_keeps_size(machine.step().0, (steps - 1) as nat);
    }
}

} // verus!
