//! The register file: seven 8-bit registers, the flags register, and the
//! 16-bit stack pointer and program counter, with 8-bit and 16-bit accessors.

use vstd::prelude::*;
use super::instruction::Register8;
use super::instruction::Register16;

verus! {

const ZERO_FLAG_BYTE_POSITION: u8 = 7;

const SUBTRACT_FLAG_BYTE_POSITION: u8 = 6;

const HALF_CARRY_FLAG_BYTE_POSITION: u8 = 5;

const CARRY_FLAG_BYTE_POSITION: u8 = 4;

/// The four condition flags. As a byte they occupy bits 7 to 4, in the order
/// zero, subtract, half-carry, carry; the low nibble of that byte is zero.
#[derive(Debug, Clone, Copy, PartialEq, Eq, Structural)]
pub struct FlagsRegister {
    pub zero: bool,
    pub subtract: bool,
    pub half_carry: bool,
    pub carry: bool,
}

/// The 16-bit value with `high` as its upper and `low` as its lower byte.
pub open spec fn pair(high: u8, low: u8) -> u16 {
    (high * 256 + low) as u16
}

/// The upper byte of a 16-bit value.
pub open spec fn high_byte(value: u16) -> u8 {
    (value / 256) as u8
}

/// The lower byte of a 16-bit value.
pub open spec fn low_byte(value: u16) -> u8 {
    (value % 256) as u8
}

impl FlagsRegister {
    /// The flags as one byte.
    pub open spec fn packed(self) -> u8 {
        ((if self.zero { 0x80int } else { 0 })
            + (if self.subtract { 0x40int } else { 0 })
            + (if self.half_carry { 0x20int } else { 0 })
            + (if self.carry { 0x10int } else { 0 })) as u8
    }

    /// The flags that the high nibble of `byte` holds.
    pub open spec fn unpacked(byte: u8) -> FlagsRegister {
        FlagsRegister {
            zero: byte & 0x80 != 0,
            subtract: byte & 0x40 != 0,
            half_carry: byte & 0x20 != 0,
            carry: byte & 0x10 != 0,
        }
    }

    /// Packing flags into a byte and unpacking that byte gives the flags back.
    pub proof fn lemma_unpack_packed(flags: FlagsRegister)
        ensures
            FlagsRegister::unpacked(flags.packed()) == flags,
    {
        let byte = flags.packed();
        assert({
            &&& byte & 0x80 != 0 <==> byte >= 0x80
            &&& byte & 0x40 != 0 <==> byte % 0x80 >= 0x40
            &&& byte & 0x20 != 0 <==> byte % 0x40 >= 0x20
            &&& byte & 0x10 != 0 <==> byte % 0x20 >= 0x10
        }) by (bit_vector);
    }

    /// Unpacking a byte and packing the flags again keeps the high nibble of
    /// the byte and clears the low one.
    pub proof fn lemma_pack_unpacked(byte: u8)
        ensures
            FlagsRegister::unpacked(byte).packed() == byte & 0xF0,
            FlagsRegister::unpacked(byte).packed() == byte - byte % 16,
    {
        assert((if byte & 0x80 != 0 { 0x80int } else { 0 })
            + (if byte & 0x40 != 0 { 0x40int } else { 0 })
            + (if byte & 0x20 != 0 { 0x20int } else { 0 })
            + (if byte & 0x10 != 0 { 0x10int } else { 0 }) == byte & 0xF0) by (bit_vector);
        assert(byte & 0xF0 == byte - byte % 16) by (bit_vector);
    }
}

impl From<u8> for FlagsRegister {
    /// Reads the flags out of the high nibble of `byte`.
    fn from(byte: u8) -> (flags: FlagsRegister) {
        let zero = ((byte >> ZERO_FLAG_BYTE_POSITION) & 0b1) != 0;
        let subtract = ((byte >> SUBTRACT_FLAG_BYTE_POSITION) & 0b1) != 0;
        let half_carry = ((byte >> HALF_CARRY_FLAG_BYTE_POSITION) & 0b1) != 0;
        let carry = ((byte >> CARRY_FLAG_BYTE_POSITION) & 0b1) != 0;
        assert({
            &&& ((byte >> 7u8) & 1 != 0) == (byte & 0x80 != 0)
            &&& ((byte >> 6u8) & 1 != 0) == (byte & 0x40 != 0)
            &&& ((byte >> 5u8) & 1 != 0) == (byte & 0x20 != 0)
            &&& ((byte >> 4u8) & 1 != 0) == (byte & 0x10 != 0)
        }) by (bit_vector);
        FlagsRegister { zero, subtract, half_carry, carry }
    }
}

impl vstd::std_specs::convert::FromSpecImpl<u8> for FlagsRegister {
    open spec fn obeys_from_spec() -> bool {
        true
    }

    open spec fn from_spec(byte: u8) -> FlagsRegister {
        FlagsRegister::unpacked(byte)
    }
}

impl From<&FlagsRegister> for u8 {
    /// Packs the flags into the high nibble of a byte.
    fn from(flag: &FlagsRegister) -> (byte: u8) {
        let zero: u8 = if flag.zero { 1 } else { 0 };
        let subtract: u8 = if flag.subtract { 1 } else { 0 };
        let half_carry: u8 = if flag.half_carry { 1 } else { 0 };
        let carry: u8 = if flag.carry { 1 } else { 0 };
        assert(zero << 7u8 | subtract << 6u8 | half_carry << 5u8 | carry << 4u8 == zero * 0x80
            + subtract * 0x40 + half_carry * 0x20 + carry * 0x10) by (bit_vector)
            requires
                zero <= 1,
                subtract <= 1,
                half_carry <= 1,
                carry <= 1,
        ;
        zero << ZERO_FLAG_BYTE_POSITION | subtract << SUBTRACT_FLAG_BYTE_POSITION | half_carry
            << HALF_CARRY_FLAG_BYTE_POSITION | carry << CARRY_FLAG_BYTE_POSITION
    }
}

impl vstd::std_specs::convert::FromSpecImpl<&FlagsRegister> for u8 {
    open spec fn obeys_from_spec() -> bool {
        true
    }

    open spec fn from_spec(flag: &FlagsRegister) -> u8 {
        flag.packed()
    }
}

/// The register file.
#[derive(Debug, Clone, Copy, PartialEq, Eq, Structural)]
pub struct Registers {
    pub a: u8,
    pub b: u8,
    pub c: u8,
    pub d: u8,
    pub e: u8,
    pub f: FlagsRegister,
    pub h: u8,
    pub l: u8,
    pub sp: u16,
    pub pc: u16,
}

/// `(high as u16) << 8 | low as u16` puts `high` above `low`.
proof fn lemma_join(high: u8, low: u8)
    ensures
        (high as u16) << 8 | (low as u16) == pair(high, low),
{
    assert((high as u16) << 8 | (low as u16) == high * 256 + low) by (bit_vector);
}

/// Masking and shifting a 16-bit value takes out its two bytes.
proof fn lemma_split(value: u16)
    ensures
        ((value & 0xFF00) >> 8) as u8 == high_byte(value),
        (value & 0xFF) as u8 == low_byte(value),
        (value & 0xFF00) >> 8 <= 0xFF,
        value & 0xFF <= 0xFF,
{
    assert((value & 0xFF00) >> 8 == value / 256 && value & 0xFF == value % 256) by (bit_vector);
}

impl Registers {
    /// The register file at power-up, before the boot image runs.
    pub open spec fn initial() -> Registers {
        Registers {
            a: 0x01,
            b: 0x00,
            c: 0x13,
            d: 0x00,
            e: 0xD8,
            f: FlagsRegister { zero: true, subtract: false, half_carry: true, carry: true },
            h: 0x01,
            l: 0x4D,
            sp: 0xFFFE,
            pc: 0,
        }
    }

    /// The value of an 8-bit register. F reads as the packed flags.
    pub open spec fn value_8(self, name: Register8) -> u8 {
        match name {
            Register8::A => self.a,
            Register8::B => self.b,
            Register8::C => self.c,
            Register8::D => self.d,
            Register8::E => self.e,
            Register8::F => self.f.packed(),
            Register8::H => self.h,
            Register8::L => self.l,
        }
    }

    /// The register file with an 8-bit register replaced. F takes the flags
    /// that the high nibble of `value` holds.
    pub open spec fn with_8(self, name: Register8, value: u8) -> Registers {
        match name {
            Register8::A => Registers { a: value, ..self },
            Register8::B => Registers { b: value, ..self },
            Register8::C => Registers { c: value, ..self },
            Register8::D => Registers { d: value, ..self },
            Register8::E => Registers { e: value, ..self },
            Register8::F => Registers { f: FlagsRegister::unpacked(value), ..self },
            Register8::H => Registers { h: value, ..self },
            Register8::L => Registers { l: value, ..self },
        }
    }

    /// The value of a 16-bit register. A pair reads as its first register
    /// above its second.
    pub open spec fn value_16(self, name: Register16) -> u16 {
        match name {
            Register16::AF => pair(self.a, self.f.packed()),
            Register16::BC => pair(self.b, self.c),
            Register16::DE => pair(self.d, self.e),
            Register16::HL => pair(self.h, self.l),
            Register16::SP => self.sp,
            Register16::PC => self.pc,
        }
    }

    /// The register file with a 16-bit register replaced. A pair takes the
    /// upper byte of `value` into its first register and the lower byte into
    /// its second.
    pub open spec fn with_16(self, name: Register16, value: u16) -> Registers {
        match name {
            Register16::AF => Registers {
                a: high_byte(value),
                f: FlagsRegister::unpacked(low_byte(value)),
                ..self
            },
            Register16::BC => Registers { b: high_byte(value), c: low_byte(value), ..self },
            Register16::DE => Registers { d: high_byte(value), e: low_byte(value), ..self },
            Register16::HL => Registers { h: high_byte(value), l: low_byte(value), ..self },
            Register16::SP => Registers { sp: value, ..self },
            Register16::PC => Registers { pc: value, ..self },
        }
    }

    /// An 8-bit register reads back the value written to it. The flags
    /// register reads back the high nibble only.
    pub proof fn lemma_set_get_8(self, name: Register8, value: u8)
        ensures
            name != Register8::F ==> self.with_8(name, value).value_8(name) == value,
            name == Register8::F ==> self.with_8(name, value).value_8(name) == value & 0xF0,
    {
        FlagsRegister::lemma_pack_unpacked(value);
    }

    /// A 16-bit register reads back the value written to it. AF reads back
    /// with the low nibble cleared.
    pub proof fn lemma_set_get_16(self, name: Register16, value: u16)
        ensures
            name != Register16::AF ==> self.with_16(name, value).value_16(name) == value,
            name == Register16::AF ==> self.with_16(name, value).value_16(name) == value & 0xFFF0,
    {
        FlagsRegister::lemma_pack_unpacked(low_byte(value));
        assert(value & 0xFFF0 == value - value % 16) by (bit_vector);
    }

    /// The register file at power-up.
    pub fn new() -> (registers: Registers)
        ensures
            registers == Registers::initial(),
    {
        let f = FlagsRegister::from(0xB0);
        assert(FlagsRegister::unpacked(0xB0) == FlagsRegister {
            zero: true,
            subtract: false,
            half_carry: true,
            carry: true,
        }) by {
            assert({
                &&& 0xB0u8 & 0x80 != 0
                &&& 0xB0u8 & 0x40 == 0
                &&& 0xB0u8 & 0x20 != 0
                &&& 0xB0u8 & 0x10 != 0
            }) by (bit_vector);
        }
        Registers {
            a: 0x01,
            b: 0x00,
            c: 0x13,
            d: 0x00,
            e: 0xD8,
            f,
            h: 0x01,
            l: 0x4D,
            sp: 0xFFFE,
            pc: 0,
        }
    }

    /// Reads an 8-bit register.
    pub fn get_8(&self, name: Register8) -> (value: u8)
        ensures
            value == self.value_8(name),
    {
        match name {
            Register8::A => self.a,
            Register8::B => self.b,
            Register8::C => self.c,
            Register8::D => self.d,
            Register8::E => self.e,
            Register8::F => u8::from(&self.f),
            Register8::H => self.h,
            Register8::L => self.l,
        }
    }

    /// Writes an 8-bit register.
    pub fn set_8(&mut self, name: Register8, value: u8)
        ensures
            *final(self) == old(self).with_8(name, value),
            name != Register8::F ==> final(self).value_8(name) == value,
            name == Register8::F ==> final(self).value_8(name) == value & 0xF0,
    {
        proof {
            self.lemma_set_get_8(name, value);
        }
        match name {
            Register8::A => self.a = value,
            Register8::B => self.b = value,
            Register8::C => self.c = value,
            Register8::D => self.d = value,
            Register8::E => self.e = value,
            Register8::F => self.f = FlagsRegister::from(value),
            Register8::H => self.h = value,
            Register8::L => self.l = value,
        }
    }

    /// Writes a 16-bit register.
    pub fn set_16(&mut self, name: Register16, value: u16)
        ensures
            *final(self) == old(self).with_16(name, value),
            name != Register16::AF ==> final(self).value_16(name) == value,
            name == Register16::AF ==> final(self).value_16(name) == value & 0xFFF0,
    {
        proof {
            self.lemma_set_get_16(name, value);
        }
        match name {
            Register16::AF => self.set_af(value),
            Register16::BC => self.set_bc(value),
            Register16::DE => self.set_de(value),
            Register16::HL => self.set_hl(value),
            Register16::SP => self.sp = value,
            Register16::PC => self.pc = value,
        }
    }

    /// Reads a 16-bit register.
    pub fn get_16(&self, name: Register16) -> (value: u16)
        ensures
            value == self.value_16(name),
    {
        match name {
            Register16::BC => self.get_bc(),
            Register16::DE => self.get_de(),
            Register16::HL => self.get_hl(),
            Register16::SP => self.sp,
            Register16::PC => self.pc,
            Register16::AF => self.get_af(),
        }
    }

    /// Reads the pair AF.
    pub fn get_af(&self) -> (value: u16)
        ensures
            value == self.value_16(Register16::AF),
    {
        let low = u8::from(&self.f);
        proof {
            lemma_join(self.a, low);
        }
        (self.a as u16) << 8 | low as u16
    }

    /// Writes the pair AF.
    pub fn set_af(&mut self, value: u16)
        ensures
            *final(self) == old(self).with_16(Register16::AF, value),
    {
        proof {
            lemma_split(value);
        }
        self.a = ((value & 0xFF00) >> 8) as u8;
        self.f = FlagsRegister::from((value & 0xFF) as u8);
    }

    /// Reads the pair BC.
    pub fn get_bc(&self) -> (value: u16)
        ensures
            value == self.value_16(Register16::BC),
    {
        proof {
            lemma_join(self.b, self.c);
        }
        (self.b as u16) << 8 | self.c as u16
    }

    /// Writes the pair BC.
    pub fn set_bc(&mut self, value: u16)
        ensures
            *final(self) == old(self).with_16(Register16::BC, value),
    {
        proof {
            lemma_split(value);
        }
        self.b = ((value & 0xFF00) >> 8) as u8;
        self.c = (value & 0xFF) as u8;
    }

    /// Reads the pair DE.
    pub fn get_de(&self) -> (value: u16)
        ensures
            value == self.value_16(Register16::DE),
    {
        proof {
            lemma_join(self.d, self.e);
        }
        (self.d as u16) << 8 | self.e as u16
    }

    /// Writes the pair DE.
    pub fn set_de(&mut self, value: u16)
        ensures
            *final(self) == old(self).with_16(Register16::DE, value),
    {
        proof {
            lemma_split(value);
        }
        self.d = ((value & 0xFF00) >> 8) as u8;
        self.e = (value & 0xFF) as u8;
    }

    /// Reads the pair HL.
    pub fn get_hl(&self) -> (value: u16)
        ensures
            value == self.value_16(Register16::HL),
    {
        proof {
            lemma_join(self.h, self.l);
        }
        (self.h as u16) << 8 | self.l as u16
    }

    /// Writes the pair HL.
    pub fn set_hl(&mut self, value: u16)
        ensures
            *final(self) == old(self).with_16(Register16::HL, value),
    {
        proof {
            lemma_split(value);
        }
        self.h = ((value & 0xFF00) >> 8) as u8;
        self.l = (value & 0xFF) as u8;
    }
}

} // verus!
