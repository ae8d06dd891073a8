use gameboy::instruction::Register16;
use gameboy::instruction::Register8;
use gameboy::registers::FlagsRegister;
use gameboy::registers::Registers;

const ALL_8: [Register8; 8] = [
    Register8::A,
    Register8::F,
    Register8::B,
    Register8::C,
    Register8::D,
    Register8::E,
    Register8::H,
    Register8::L,
];

const ALL_16: [Register16; 6] = [
    Register16::AF,
    Register16::BC,
    Register16::DE,
    Register16::HL,
    Register16::SP,
    Register16::PC,
];

#[test]
fn flag_from_u8() {
    let flags: FlagsRegister = 0xB0.into();
    assert!(flags.zero && !flags.subtract && flags.half_carry && flags.carry);
}

#[test]
fn u8_from_flag() {
    let flags: FlagsRegister = 0xB0.into();
    let flagsu8 = u8::from(&flags);
    assert_eq!(flagsu8, 0xB0);
}

#[test]
fn get_u8() {
    let register = Registers::new();
    assert_eq!(register.get_8(Register8::A), register.a);
    assert_eq!(register.get_8(Register8::B), register.b);
    assert_eq!(register.get_8(Register8::C), register.c);
    assert_eq!(register.get_8(Register8::D), register.d);
    assert_eq!(register.get_8(Register8::E), register.e);
    assert_eq!(register.get_8(Register8::H), register.h);
    assert_eq!(register.get_8(Register8::L), register.l);
}

#[test]
fn get_u16() {
    let register = Registers::new();
    assert_eq!(register.get_16(Register16::AF), register.get_af());
    assert_eq!(register.get_16(Register16::BC), register.get_bc());
    assert_eq!(register.get_16(Register16::DE), register.get_de());
    assert_eq!(register.get_16(Register16::HL), register.get_hl());
}

#[test]
fn initial_register_values() {
    let register = Registers::new();
    assert_eq!(register.a, 0x01);
    assert_eq!(register.b, 0x00);
    assert_eq!(register.c, 0x13);
    assert_eq!(register.d, 0x00);
    assert_eq!(register.e, 0xD8);
    assert_eq!(register.get_8(Register8::F), 0xB0);
    assert_eq!(register.h, 0x01);
    assert_eq!(register.l, 0x4D);
    assert_eq!(register.sp, 0xFFFE);
    assert_eq!(register.pc, 0);
    assert_eq!(register.get_16(Register16::AF), 0x01B0);
    assert_eq!(register.get_16(Register16::BC), 0x0013);
    assert_eq!(register.get_16(Register16::DE), 0x00D8);
    assert_eq!(register.get_16(Register16::HL), 0x014D);
    assert_eq!(register.get_16(Register16::SP), 0xFFFE);
    assert_eq!(register.get_16(Register16::PC), 0x0000);
}

#[test]
fn each_flag_has_its_own_bit() {
    let none = FlagsRegister { zero: false, subtract: false, half_carry: false, carry: false };
    assert_eq!(u8::from(&none), 0x00);
    assert_eq!(u8::from(&FlagsRegister { zero: true, ..none }), 0x80);
    assert_eq!(u8::from(&FlagsRegister { subtract: true, ..none }), 0x40);
    assert_eq!(u8::from(&FlagsRegister { half_carry: true, ..none }), 0x20);
    assert_eq!(u8::from(&FlagsRegister { carry: true, ..none }), 0x10);
    assert_eq!(FlagsRegister::from(0x80), FlagsRegister { zero: true, ..none });
    assert_eq!(FlagsRegister::from(0x40), FlagsRegister { subtract: true, ..none });
    assert_eq!(FlagsRegister::from(0x20), FlagsRegister { half_carry: true, ..none });
    assert_eq!(FlagsRegister::from(0x10), FlagsRegister { carry: true, ..none });
    assert_eq!(FlagsRegister::from(0x0F), none);
}

#[test]
fn flags_round_trip_keeps_high_nibble_only() {
    for byte in 0..=255u8 {
        let flags = FlagsRegister::from(byte);
        assert_eq!(u8::from(&flags), byte & 0xF0);
        assert_eq!(FlagsRegister::from(u8::from(&flags)), flags);
    }
}

#[test]
fn set_8_then_get_8_returns_the_value() {
    for name in ALL_8 {
        for value in 0..=255u8 {
            let mut register = Registers::new();
            register.set_8(name, value);
            let expected = if name == Register8::F { value & 0xF0 } else { value };
            assert_eq!(register.get_8(name), expected);
        }
    }
}

#[test]
fn set_8_leaves_the_other_registers() {
    for name in ALL_8 {
        let before = Registers::new();
        let mut register = Registers::new();
        register.set_8(name, 0x5A);
        for other in ALL_8 {
            if other != name {
                assert_eq!(register.get_8(other), before.get_8(other));
            }
        }
        assert_eq!(register.sp, before.sp);
        assert_eq!(register.pc, before.pc);
    }
}

#[test]
fn flags_register_never_keeps_the_low_nibble() {
    let mut register = Registers::new();
    register.set_8(Register8::F, 0x0F);
    assert_eq!(register.get_8(Register8::F), 0x00);
    register.set_8(Register8::F, 0xFF);
    assert_eq!(register.get_8(Register8::F), 0xF0);
}

#[test]
fn set_16_then_get_16_returns_the_value() {
    for name in ALL_16 {
        for value in [0x0000u16, 0x0001, 0x00FF, 0x0100, 0x1234, 0x8000, 0xABCD, 0xFFFF] {
            let mut register = Registers::new();
            register.set_16(name, value);
            let expected = if name == Register16::AF { value & 0xFFF0 } else { value };
            assert_eq!(register.get_16(name), expected);
        }
    }
}

#[test]
fn af_reads_back_without_the_low_nibble() {
    let mut register = Registers::new();
    register.set_16(Register16::AF, 0x1234);
    assert_eq!(register.get_16(Register16::AF), 0x1230);
    assert_eq!(register.a, 0x12);
    assert_eq!(
        register.f,
        FlagsRegister { zero: false, subtract: false, half_carry: true, carry: true }
    );
}

#[test]
fn pairs_hold_the_high_byte_first() {
    let mut register = Registers::new();
    register.set_16(Register16::BC, 0x1234);
    assert_eq!((register.b, register.c), (0x12, 0x34));
    register.set_16(Register16::DE, 0x5678);
    assert_eq!((register.d, register.e), (0x56, 0x78));
    register.set_16(Register16::HL, 0x9ABC);
    assert_eq!((register.h, register.l), (0x9A, 0xBC));
    register.set_16(Register16::SP, 0xDEF0);
    assert_eq!(register.sp, 0xDEF0);
    register.set_16(Register16::PC, 0x0FED);
    assert_eq!(register.pc, 0x0FED);

    register.h = 0xC0;
    register.l = 0x01;
    assert_eq!(register.get_hl(), 0xC001);
    assert_eq!(register.get_16(Register16::HL), 0xC001);
    register.set_bc(0xBEEF);
    assert_eq!(register.get_bc(), 0xBEEF);
    register.set_de(0xCAFE);
    assert_eq!(register.get_de(), 0xCAFE);
    register.set_hl(0xF00D);
    assert_eq!(register.get_hl(), 0xF00D);
    register.set_af(0xABCD);
    assert_eq!(register.get_af(), 0xABC0);
}
