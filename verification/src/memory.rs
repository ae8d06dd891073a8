//! The address space: one flat block of bytes that covers every 16-bit
//! address, with the names of its regions.

use vstd::prelude::*;

verus! {

/// Number of bytes in the address space: one for each 16-bit address.
pub const MEMORY_SIZE: usize = 0x10000;

/// Address at which the boot image is placed.
pub const BOOT_LOCATION: usize = 0;

/// First and last address of each named region.
pub const ROM_BANK_0_LOCATION: (u16, u16) = (0x0000, 0x3FFF);

pub const ROM_BANK_1_LOCATION: (u16, u16) = (0x4000, 0x7FFF);

pub const VRAM_LOCATION: (u16, u16) = (0x8000, 0x9FFF);

pub const EXTERNAL_RAM_LOCATION: (u16, u16) = (0xA000, 0xBFFF);

pub const WRAM1_LOCATION: (u16, u16) = (0xC000, 0xCFFF);

pub const WRAM2_LOCATION: (u16, u16) = (0xD000, 0xDFFF);

pub const ECHO_RAM_LOCATION: (u16, u16) = (0xC000, 0xDDFF);

pub const SPRITE_TABLE_LOCATION: (u16, u16) = (0xFE00, 0xFE9F);

pub const NOT_USABLE_LOCATION: (u16, u16) = (0xFEA0, 0xFEFF);

pub const IO_REGISTERS_LOCATION: (u16, u16) = (0xFF00, 0xFF7F);

pub const HRAM_LOCATION: (u16, u16) = (0xFF80, 0xFFFE);

pub const IE_LOCATION: (u16, u16) = (0xFFFF, 0xFFFF);

/// The named regions of the address space. They describe the layout only:
/// every address can be read and written alike.
#[derive(Debug, Clone, Copy, PartialEq, Eq, Structural)]
pub enum MemoryLocation {
    RomBank0,
    RomBank1,
    VideoRAM,
    ExternalRAM,
    WorkRAM1,
    WorkRAM2,
    EchoRam,
    SpriteTable,
    NotUsable,
    IORegisters,
    HighRam,
    InterruptEnableRegister,
}

impl MemoryLocation {
    /// First and last address of the region. For echo RAM these are the
    /// bounds of the work RAM that it repeats.
    pub fn bounds(&self) -> (bounds: (u16, u16))
        ensures
            bounds == match *self {
                MemoryLocation::RomBank0 => ROM_BANK_0_LOCATION,
                MemoryLocation::RomBank1 => ROM_BANK_1_LOCATION,
                MemoryLocation::VideoRAM => VRAM_LOCATION,
                MemoryLocation::ExternalRAM => EXTERNAL_RAM_LOCATION,
                MemoryLocation::WorkRAM1 => WRAM1_LOCATION,
                MemoryLocation::WorkRAM2 => WRAM2_LOCATION,
                MemoryLocation::EchoRam => ECHO_RAM_LOCATION,
                MemoryLocation::SpriteTable => SPRITE_TABLE_LOCATION,
                MemoryLocation::NotUsable => NOT_USABLE_LOCATION,
                MemoryLocation::IORegisters => IO_REGISTERS_LOCATION,
                MemoryLocation::HighRam => HRAM_LOCATION,
                MemoryLocation::InterruptEnableRegister => IE_LOCATION,
            },
            bounds.0 <= bounds.1,
    {
        match self {
            MemoryLocation::RomBank0 => ROM_BANK_0_LOCATION,
            MemoryLocation::RomBank1 => ROM_BANK_1_LOCATION,
            MemoryLocation::VideoRAM => VRAM_LOCATION,
            MemoryLocation::ExternalRAM => EXTERNAL_RAM_LOCATION,
            MemoryLocation::WorkRAM1 => WRAM1_LOCATION,
            MemoryLocation::WorkRAM2 => WRAM2_LOCATION,
            MemoryLocation::EchoRam => ECHO_RAM_LOCATION,
            MemoryLocation::SpriteTable => SPRITE_TABLE_LOCATION,
            MemoryLocation::NotUsable => NOT_USABLE_LOCATION,
            MemoryLocation::IORegisters => IO_REGISTERS_LOCATION,
            MemoryLocation::HighRam => HRAM_LOCATION,
            MemoryLocation::InterruptEnableRegister => IE_LOCATION,
        }
    }
}

/// Why an access to the address space was refused.
#[derive(Debug, Clone, Copy, PartialEq, Eq, Structural)]
pub enum MemoryError {
    /// The boot image has more bytes than the address space.
    ImageTooLarge { length: usize },
    /// A 16-bit word was asked for at the last address, so that its upper
    /// byte would lie past the end of the address space.
    WordOutOfRange { address: u16 },
}

/// The 16-bit word that is stored with `low` at one address and `high` at the
/// next.
pub open spec fn word(low: u8, high: u8) -> u16 {
    (low + high * 256) as u16
}

/// The 16-bit word that `bytes` holds at `address`, low byte first.
pub open spec fn word_at(bytes: Seq<u8>, address: int) -> u16 {
    word(bytes[address], bytes[address + 1])
}

/// An address space in which every byte is zero.
pub open spec fn zeroed() -> Seq<u8> {
    Seq::new(0x10000, |address: int| 0u8)
}

/// What an address space that held `before` holds once `image` has been
/// copied to its start: at each address below the length of the image the
/// byte of the image, at every other address the byte that was there.
pub open spec fn with_image(before: Seq<u8>, image: Seq<u8>) -> Seq<u8> {
    Seq::new(
        before.len(),
        |address: int| if address < image.len() { image[address] } else { before[address] },
    )
}

/// The address space. Its view is the sequence of its 65536 bytes, indexed by
/// address.
pub struct Memory {
    bytes: [u8; 65536],
}

impl View for Memory {
    type V = Seq<u8>;

    closed spec fn view(&self) -> Seq<u8> {
        self.bytes@
    }
}

impl Memory {
    /// The address space has one byte for each 16-bit address.
    pub proof fn lemma_size(&self)
        ensures
            self@.len() == 0x10000,
    {
    }

    /// A zero-filled address space.
    pub fn new() -> (memory: Memory)
        ensures
            memory@ == zeroed(),
    {
        Memory { bytes: [0;65536] }
    }

    /// Copies the boot image to the start of the address space. An image that
    /// does not fit is refused and nothing is written.
    pub fn load_boot_rom(&mut self, data: &Vec<u8>) -> (loaded: Result<(), MemoryError>)
        ensures
            data.len() <= 0x10000 ==> loaded == Ok::<(), MemoryError>(()) && final(self)@
                == with_image(old(self)@, data@),
            data.len() > 0x10000 ==> loaded == Err::<(), MemoryError>(
                MemoryError::ImageTooLarge { length: data.len() },
            ) && final(self)@ == old(self)@,
    {
        if data.len() > MEMORY_SIZE {
            return Err(MemoryError::ImageTooLarge { length: data.len() });
        }
        let mut i: usize = 0;
        while i < data.len()
            invariant
                i <= data.len() <= 0x10000,
                forall|j: int| 0 <= j < i ==> self@[j] == data@[j],
                forall|j: int| i <= j < 0x10000 ==> self@[j] == old(self)@[j],
            decreases data.len() - i,
        {
            self.bytes[BOOT_LOCATION + i] = data[i];
            i += 1;
        }
        Ok(())
    }

    /// Reads the byte at `address`.
    pub fn read_8(&self, address: u16) -> (value: u8)
        ensures
            value == self@[address as int],
    {
        self.bytes[address as usize]
    }

    /// Reads the word at `address`: the low byte at `address`, the high byte
    /// at the next address. There is no such word at the last address.
    pub fn read_16(&self, address: u16) -> (value: Result<u16, MemoryError>)
        ensures
            address < 0xFFFF ==> value == Ok::<u16, MemoryError>(word_at(self@, address as int)),
            address == 0xFFFF ==> value == Err::<u16, MemoryError>(
                MemoryError::WordOutOfRange { address },
            ),
    {
        if address == 0xFFFF {
            return Err(MemoryError::WordOutOfRange { address });
        }
        let lower = self.bytes[address as usize];
        let upper = self.bytes[(address + 1) as usize];
        assert(((upper as u16) << 8) | lower as u16 == lower + upper * 256) by (bit_vector);
        Ok(((upper as u16) << 8) | lower as u16)
    }

    /// Writes `value` to the byte at `address`.
    pub fn write_8(&mut self, address: u16, value: u8)
        ensures
            final(self)@ == old(self)@.update(address as int, value),
    {
        self.bytes[address as usize] = value;
    }
}

} // verus!
