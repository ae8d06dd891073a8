use gameboy::instruction::CallCondition;
use gameboy::instruction::Instruction;
use gameboy::instruction::JumpCondition;
use gameboy::instruction::LoadSource16;
use gameboy::instruction::LoadSource8;
use gameboy::instruction::LoadTarget16;
use gameboy::instruction::LoadTarget8;
use gameboy::instruction::Register16;
use gameboy::instruction::Register8;

fn plain_entries() -> Vec<(u8, Instruction)> {
    vec![
        (0x00, Instruction::NOP),
        (0x05, Instruction::DEC8(Register8::B)),
        (0x06, Instruction::LD8(LoadSource8::D8, LoadTarget8::Reg(Register8::B))),
        (0x0C, Instruction::INC8(Register8::C)),
        (0x0E, Instruction::LD8(LoadSource8::D8, LoadTarget8::Reg(Register8::C))),
        (0x11, Instruction::LD16(LoadSource16::D16, LoadTarget16::Reg(Register16::DE))),
        (0x13, Instruction::INC16(Register16::DE)),
        (0x17, Instruction::RL(LoadSource8::Reg(Register8::A))),
        (
            0x1A,
            Instruction::LD8(LoadSource8::Address(Register16::DE), LoadTarget8::Reg(Register8::A)),
        ),
        (0x20, Instruction::JR(JumpCondition::NZ, LoadSource8::D8)),
        (0x21, Instruction::LD16(LoadSource16::D16, LoadTarget16::Reg(Register16::HL))),
        (
            0x22,
            Instruction::LD8(
                LoadSource8::Reg(Register8::A),
                LoadTarget8::AddressInc(Register16::HL),
            ),
        ),
        (0x23, Instruction::INC16(Register16::HL)),
        (0x28, Instruction::JR(JumpCondition::Z, LoadSource8::D8)),
        (0x31, Instruction::LD16(LoadSource16::D16, LoadTarget16::Reg(Register16::SP))),
        (
            0x32,
            Instruction::LD8(
                LoadSource8::Reg(Register8::A),
                LoadTarget8::AddressDec(Register16::HL),
            ),
        ),
        (0x3D, Instruction::DEC8(Register8::A)),
        (0x3E, Instruction::LD8(LoadSource8::D8, LoadTarget8::Reg(Register8::A))),
        (0x4F, Instruction::LD8(LoadSource8::Reg(Register8::A), LoadTarget8::Reg(Register8::C))),
        (0x57, Instruction::LD8(LoadSource8::Reg(Register8::A), LoadTarget8::Reg(Register8::D))),
        (0x67, Instruction::LD8(LoadSource8::Reg(Register8::A), LoadTarget8::Reg(Register8::H))),
        (
            0x77,
            Instruction::LD8(LoadSource8::Reg(Register8::A), LoadTarget8::Address(Register16::HL)),
        ),
        (0x7B, Instruction::LD8(LoadSource8::Reg(Register8::E), LoadTarget8::Reg(Register8::A))),
        (0xAF, Instruction::XOR8(Register8::A)),
        (0xC1, Instruction::POP(Register16::BC)),
        (0xC5, Instruction::PUSH(Register16::BC)),
        (0xC9, Instruction::RET),
        (0xCD, Instruction::CALL(CallCondition::Unconditional)),
        (0xE0, Instruction::LD8(LoadSource8::Reg(Register8::A), LoadTarget8::OffsetA8)),
        (
            0xE2,
            Instruction::LD8(
                LoadSource8::Reg(Register8::A),
                LoadTarget8::OffsetAddress(Register8::C),
            ),
        ),
        (0xEA, Instruction::LD8(LoadSource8::Reg(Register8::A), LoadTarget8::AddressD8)),
        (0xFE, Instruction::CP(LoadSource8::D8)),
    ]
}

fn prefixed_entries() -> Vec<(u8, Instruction)> {
    vec![
        (0x11, Instruction::RL(LoadSource8::Reg(Register8::C))),
        (0x7C, Instruction::BIT(LoadSource8::Reg(Register8::H), 7)),
    ]
}

#[test]
fn decode_no_op() {
    assert_eq!(Instruction::decode(0x00, false), Some(Instruction::NOP));
}

#[test]
fn decode_xor_a() {
    assert_eq!(Instruction::decode(0xAF, false), Some(Instruction::XOR8(Register8::A)));
}

#[test]
fn decode_bit_7_h() {
    assert_eq!(
        Instruction::decode(0x7C, true),
        Some(Instruction::BIT(LoadSource8::Reg(Register8::H), 7))
    );
}

#[test]
fn decode_knows_every_plain_opcode_of_the_table() {
    for (byte, instruction) in plain_entries() {
        assert_eq!(Instruction::decode(byte, false), Some(instruction));
        assert_eq!(Instruction::decode_not_prefixed(byte), Some(instruction));
    }
}

#[test]
fn decode_knows_every_prefixed_opcode_of_the_table() {
    for (byte, instruction) in prefixed_entries() {
        assert_eq!(Instruction::decode(byte, true), Some(instruction));
        assert_eq!(Instruction::decode_prefixed(byte), Some(instruction));
    }
}

#[test]
fn decode_returns_nothing_for_any_other_byte() {
    let plain: Vec<u8> = plain_entries().iter().map(|entry| entry.0).collect();
    let prefixed: Vec<u8> = prefixed_entries().iter().map(|entry| entry.0).collect();
    assert_eq!(plain.len(), 32);
    assert_eq!(prefixed.len(), 2);
    for byte in 0..=255u8 {
        if !plain.contains(&byte) {
            assert_eq!(Instruction::decode(byte, false), None);
        }
        if !prefixed.contains(&byte) {
            assert_eq!(Instruction::decode(byte, true), None);
        }
    }
}

#[test]
fn the_two_tables_are_independent() {
    assert_eq!(
        Instruction::decode(0x11, false),
        Some(Instruction::LD16(LoadSource16::D16, LoadTarget16::Reg(Register16::DE)))
    );
    assert_eq!(
        Instruction::decode(0x11, true),
        Some(Instruction::RL(LoadSource8::Reg(Register8::C)))
    );
    assert_eq!(Instruction::decode(0x7C, false), None);
    assert_eq!(Instruction::decode(0x00, true), None);
    assert_eq!(Instruction::decode(0xCB, false), None);
    assert_eq!(Instruction::decode(0xCB, true), None);
}
