//! The instruction set: operand selectors, the decoded instruction type and the
//! two opcode tables that map a fetched byte to an instruction.

use vstd::prelude::*;

verus! {

/// Selector of one of the eight 8-bit registers.
#[derive(Debug, Clone, Copy, PartialEq, Eq, Structural)]
pub enum Register8 {
    A,
    F,
    B,
    C,
    D,
    E,
    H,
    L,
}

/// Selector of one of the six 16-bit registers or register pairs.
#[derive(Debug, Clone, Copy, PartialEq, Eq, Structural)]
pub enum Register16 {
    AF,
    BC,
    DE,
    HL,
    SP,
    PC,
}

/// When a call is taken.
#[derive(Debug, Clone, Copy, PartialEq, Eq, Structural)]
pub enum CallCondition {
    /// Always.
    Unconditional,
}

/// When a relative jump is taken.
#[derive(Debug, Clone, Copy, PartialEq, Eq, Structural)]
pub enum JumpCondition {
    /// The zero flag is clear.
    NZ,
    /// The zero flag is set.
    Z,
}

/// Where an 8-bit operand is read from.
#[derive(Debug, Clone, Copy, PartialEq, Eq, Structural)]
pub enum LoadSource8 {
    /// A register.
    Reg(Register8),
    /// The memory byte at the address held in a 16-bit register.
    Address(Register16),
    /// The byte that follows the opcode.
    D8,
}

/// Where an 8-bit value is written to.
#[derive(Debug, Clone, Copy, PartialEq, Eq, Structural)]
pub enum LoadTarget8 {
    /// A register.
    Reg(Register8),
    /// The memory byte at the address held in a 16-bit register.
    Address(Register16),
    /// As `Address`; the 16-bit register is decremented after the write.
    AddressDec(Register16),
    /// As `Address`; the 16-bit register is incremented after the write.
    AddressInc(Register16),
    /// The memory byte at `0xFF00` plus the value of an 8-bit register.
    OffsetAddress(Register8),
    /// The memory byte at `0xFF00` plus the byte that follows the opcode.
    OffsetA8,
    /// The memory byte at the 16-bit address that follows the opcode.
    AddressD8,
}

/// Where a 16-bit operand is read from.
#[derive(Debug, Clone, Copy, PartialEq, Eq, Structural)]
pub enum LoadSource16 {
    /// A 16-bit register.
    Reg(Register16),
    /// The two bytes that follow the opcode, low byte first.
    D16,
}

/// Where a 16-bit value is written to.
#[derive(Debug, Clone, Copy, PartialEq, Eq, Structural)]
pub enum LoadTarget16 {
    /// A 16-bit register.
    Reg(Register16),
}

/// A decoded instruction: one variant per opcode family, operands as
/// descriptors.
#[derive(Debug, Clone, Copy, PartialEq, Eq, Structural)]
pub enum Instruction {
    /// Add a register into A.
    ADD8(Register8),
    /// Do nothing.
    NOP,
    /// Copy a 16-bit value.
    LD16(LoadSource16, LoadTarget16),
    /// Exclusive-or a register into A.
    XOR8(Register8),
    /// Copy an 8-bit value.
    LD8(LoadSource8, LoadTarget8),
    /// Test one bit of an operand.
    BIT(LoadSource8, u8),
    /// Jump relative to the program counter if the condition holds.
    JR(JumpCondition, LoadSource8),
    /// Increment an 8-bit register.
    INC8(Register8),
    /// Call the subroutine at the address that follows the opcode.
    CALL(CallCondition),
    /// Push a 16-bit register onto the stack.
    PUSH(Register16),
    /// Return from a subroutine.
    RET,
    /// Rotate an operand left through the carry flag.
    RL(LoadSource8),
    /// Increment a 16-bit register.
    INC16(Register16),
    /// Pop a 16-bit register from the stack.
    POP(Register16),
    /// Decrement an 8-bit register.
    DEC8(Register8),
    /// Compare an operand with A.
    CP(LoadSource8),
}

/// The table of opcodes that follow the escape byte `0xCB`.
pub open spec fn prefixed_table(byte: u8) -> Option<Instruction> {
    match byte {
        0x7C => Some(Instruction::BIT(LoadSource8::Reg(Register8::H), 7)),
        0x11 => Some(Instruction::RL(LoadSource8::Reg(Register8::C))),
        _ => None,
    }
}

/// The table of opcodes that stand without a prefix.
pub open spec fn plain_table(byte: u8) -> Option<Instruction> {
    match byte {
        0x00 => Some(Instruction::NOP),
        0x05 => Some(Instruction::DEC8(Register8::B)),
        0x06 => Some(Instruction::LD8(LoadSource8::D8, LoadTarget8::Reg(Register8::B))),
        0x0C => Some(Instruction::INC8(Register8::C)),
        0x0E => Some(Instruction::LD8(LoadSource8::D8, LoadTarget8::Reg(Register8::C))),
        0x11 => Some(Instruction::LD16(LoadSource16::D16, LoadTarget16::Reg(Register16::DE))),
        0x13 => Some(Instruction::INC16(Register16::DE)),
        0x17 => Some(Instruction::RL(LoadSource8::Reg(Register8::A))),
        0x1A => Some(
            Instruction::LD8(LoadSource8::Address(Register16::DE), LoadTarget8::Reg(Register8::A)),
        ),
        0x20 => Some(Instruction::JR(JumpCondition::NZ, LoadSource8::D8)),
        0x21 => Some(Instruction::LD16(LoadSource16::D16, LoadTarget16::Reg(Register16::HL))),
        0x22 => Some(
            Instruction::LD8(
                LoadSource8::Reg(Register8::A),
                LoadTarget8::AddressInc(Register16::HL),
            ),
        ),
        0x23 => Some(Instruction::INC16(Register16::HL)),
        0x28 => Some(Instruction::JR(JumpCondition::Z, LoadSource8::D8)),
        0x31 => Some(Instruction::LD16(LoadSource16::D16, LoadTarget16::Reg(Register16::SP))),
        0x32 => Some(
            Instruction::LD8(
                LoadSource8::Reg(Register8::A),
                LoadTarget8::AddressDec(Register16::HL),
            ),
        ),
        0x3D => Some(Instruction::DEC8(Register8::A)),
        0x3E => Some(Instruction::LD8(LoadSource8::D8, LoadTarget8::Reg(Register8::A))),
        0x4F => Some(
            Instruction::LD8(LoadSource8::Reg(Register8::A), LoadTarget8::Reg(Register8::C)),
        ),
        0x57 => Some(
            Instruction::LD8(LoadSource8::Reg(Register8::A), LoadTarget8::Reg(Register8::D)),
        ),
        0x67 => Some(
            Instruction::LD8(LoadSource8::Reg(Register8::A), LoadTarget8::Reg(Register8::H)),
        ),
        0x77 => Some(
            Instruction::LD8(LoadSource8::Reg(Register8::A), LoadTarget8::Address(Register16::HL)),
        ),
        0x7B => Some(
            Instruction::LD8(LoadSource8::Reg(Register8::E), LoadTarget8::Reg(Register8::A)),
        ),
        0xAF => Some(Instruction::XOR8(Register8::A)),
        0xC1 => Some(Instruction::POP(Register16::BC)),
        0xC5 => Some(Instruction::PUSH(Register16::BC)),
        0xC9 => Some(Instruction::RET),
        0xCD => Some(Instruction::CALL(CallCondition::Unconditional)),
        0xE0 => Some(Instruction::LD8(LoadSource8::Reg(Register8::A), LoadTarget8::OffsetA8)),
        0xE2 => Some(
            Instruction::LD8(
                LoadSource8::Reg(Register8::A),
                LoadTarget8::OffsetAddress(Register8::C),
            ),
        ),
        0xEA => Some(Instruction::LD8(LoadSource8::Reg(Register8::A), LoadTarget8::AddressD8)),
        0xFE => Some(Instruction::CP(LoadSource8::D8)),
        _ => None,
    }
}

impl Instruction {
    /// The instruction that `byte` stands for: looked up among the prefixed
    /// opcodes if `prefixed`, among the plain ones otherwise. `None` where the
    /// table has no entry for the byte.
    pub open spec fn lookup(byte: u8, prefixed: bool) -> Option<Instruction> {
        if prefixed {
            prefixed_table(byte)
        } else {
            plain_table(byte)
        }
    }

    /// Whether the executor gives this operand shape a meaning: a bit test
    /// and a rotation read a register, the tested bit lies within the byte,
    /// and a jump and a comparison read the byte after the opcode.
    pub open spec fn executable(self) -> bool {
        match self {
            Instruction::BIT(source, index) => source is Reg && index < 8,
            Instruction::JR(_, source) => source is D8,
            Instruction::RL(source) => source is Reg,
            Instruction::CP(source) => source is D8,
            _ => true,
        }
    }

    /// Whether the instruction reads a 16-bit word from the two bytes that
    /// follow its opcode.
    pub open spec fn takes_word_operand(self) -> bool {
        match self {
            Instruction::LD16(LoadSource16::D16, _) => true,
            Instruction::LD8(_, LoadTarget8::AddressD8) => true,
            Instruction::CALL(_) => true,
            _ => false,
        }
    }

    /// Decodes an opcode byte. `prefixed` says that the byte followed the
    /// escape byte `0xCB`.
    pub fn decode(byte: u8, prefixed: bool) -> (decoded: Option<Instruction>)
        ensures
            decoded == Instruction::lookup(byte, prefixed),
            decoded matches Some(instruction) ==> instruction.executable(),
    {
        if prefixed {
            Instruction::decode_prefixed(byte)
        } else {
            Instruction::decode_not_prefixed(byte)
        }
    }

    /// Decodes a byte that followed the escape byte.
    pub fn decode_prefixed(byte: u8) -> (decoded: Option<Instruction>)
        ensures
            decoded == prefixed_table(byte),
            decoded matches Some(instruction) ==> instruction.executable(),
    {
        match byte {
            // BIT 7, H
            0x7C => Some(Instruction::BIT(LoadSource8::Reg(Register8::H), 7)),
            // RL C
            0x11 => Some(Instruction::RL(LoadSource8::Reg(Register8::C))),
            _ => None,
        }
    }

    /// Decodes a byte that stood without a prefix.
    pub fn decode_not_prefixed(byte: u8) -> (decoded: Option<Instruction>)
        ensures
            decoded == plain_table(byte),
            decoded matches Some(instruction) ==> instruction.executable(),
    {
        match byte {
            // NOP
            0x00 => Some(Instruction::NOP),
            // LD SP, d16
            0x31 => Some(Instruction::LD16(LoadSource16::D16, LoadTarget16::Reg(Register16::SP))),
            // XOR A
            0xAF => Some(Instruction::XOR8(Register8::A)),
            // LD HL, d16
            0x21 => Some(Instruction::LD16(LoadSource16::D16, LoadTarget16::Reg(Register16::HL))),
            // LD (HL-), A
            0x32 => Some(
                Instruction::LD8(
                    LoadSource8::Reg(Register8::A),
                    LoadTarget8::AddressDec(Register16::HL),
                ),
            ),
            // JR NZ, s8
            0x20 => Some(Instruction::JR(JumpCondition::NZ, LoadSource8::D8)),
            // LD C, d8
            0x0E => Some(Instruction::LD8(LoadSource8::D8, LoadTarget8::Reg(Register8::C))),
            // LD A, d8
            0x3E => Some(Instruction::LD8(LoadSource8::D8, LoadTarget8::Reg(Register8::A))),
            // LD (C), A
            0xE2 => Some(
                Instruction::LD8(
                    LoadSource8::Reg(Register8::A),
                    LoadTarget8::OffsetAddress(Register8::C),
                ),
            ),
            // INC C
            0x0C => Some(Instruction::INC8(Register8::C)),
            // LD (HL), A
            0x77 => Some(
                Instruction::LD8(
                    LoadSource8::Reg(Register8::A),
                    LoadTarget8::Address(Register16::HL),
                ),
            ),
            // LD (a8), A
            0xE0 => Some(Instruction::LD8(LoadSource8::Reg(Register8::A), LoadTarget8::OffsetA8)),
            // LD DE, d16
            0x11 => Some(Instruction::LD16(LoadSource16::D16, LoadTarget16::Reg(Register16::DE))),
            // LD A, (DE)
            0x1A => Some(
                Instruction::LD8(
                    LoadSource8::Address(Register16::DE),
                    LoadTarget8::Reg(Register8::A),
                ),
            ),
            // CALL a16
            0xCD => Some(Instruction::CALL(CallCondition::Unconditional)),
            // LD C, A
            0x4F => Some(
                Instruction::LD8(LoadSource8::Reg(Register8::A), LoadTarget8::Reg(Register8::C)),
            ),
            // LD B, d8
            0x06 => Some(Instruction::LD8(LoadSource8::D8, LoadTarget8::Reg(Register8::B))),
            // PUSH BC
            0xC5 => Some(Instruction::PUSH(Register16::BC)),
            // RLA
            0x17 => Some(Instruction::RL(LoadSource8::Reg(Register8::A))),
            // LD (HL+), A
            0x22 => Some(
                Instruction::LD8(
                    LoadSource8::Reg(Register8::A),
                    LoadTarget8::AddressInc(Register16::HL),
                ),
            ),
            // POP BC
            0xC1 => Some(Instruction::POP(Register16::BC)),
            // DEC B
            0x05 => Some(Instruction::DEC8(Register8::B)),
            // INC HL
            0x23 => Some(Instruction::INC16(Register16::HL)),
            // RET
            0xC9 => Some(Instruction::RET),
            // INC DE
            0x13 => Some(Instruction::INC16(Register16::DE)),
            // LD A, E
            0x7B => Some(
                Instruction::LD8(LoadSource8::Reg(Register8::E), LoadTarget8::Reg(Register8::A)),
            ),
            // CP d8
            0xFE => Some(Instruction::CP(LoadSource8::D8)),
            // LD (a16), A
            0xEA => Some(Instruction::LD8(LoadSource8::Reg(Register8::A), LoadTarget8::AddressD8)),
            // DEC A
            0x3D => Some(Instruction::DEC8(Register8::A)),
            // JR Z, s8
            0x28 => Some(Instruction::JR(JumpCondition::Z, LoadSource8::D8)),
            // LD H, A
            0x67 => Some(
                Instruction::LD8(LoadSource8::Reg(Register8::A), LoadTarget8::Reg(Register8::H)),
            ),
            // LD D, A
            0x57 => Some(
                Instruction::LD8(LoadSource8::Reg(Register8::A), LoadTarget8::Reg(Register8::D)),
            ),
            _ => None,
        }
    }
}

} // verus!
