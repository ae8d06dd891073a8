use gameboy::memory::Memory;
use gameboy::memory::MemoryError;
use gameboy::memory::MemoryLocation;
use gameboy::memory::MEMORY_SIZE;

#[test]
fn new_memory_is_zero_everywhere() {
    let memory = Memory::new();
    for address in 0..=0xFFFFu16 {
        assert_eq!(memory.read_8(address), 0);
    }
}

#[test]
fn write_8_changes_one_byte() {
    let mut memory = Memory::new();
    memory.write_8(0x1234, 0xAB);
    memory.write_8(0xFFFF, 0xCD);
    memory.write_8(0x0000, 0xEF);
    for address in 0..=0xFFFFu16 {
        let expected = match address {
            0x1234 => 0xAB,
            0xFFFF => 0xCD,
            0x0000 => 0xEF,
            _ => 0,
        };
        assert_eq!(memory.read_8(address), expected);
    }
}

#[test]
fn read_16_takes_the_low_byte_first() {
    let mut memory = Memory::new();
    memory.write_8(0x0100, 0x34);
    memory.write_8(0x0101, 0x12);
    assert_eq!(memory.read_16(0x0100), Ok(0x1234));
    assert_eq!(memory.read_16(0x00FF), Ok(0x3400));
    assert_eq!(memory.read_16(0x0101), Ok(0x0012));
    memory.write_8(0xFFFE, 0xCD);
    memory.write_8(0xFFFF, 0xAB);
    assert_eq!(memory.read_16(0xFFFE), Ok(0xABCD));
}

#[test]
fn read_16_at_the_last_address_is_refused() {
    let mut memory = Memory::new();
    memory.write_8(0xFFFF, 0xAB);
    memory.write_8(0x0000, 0xCD);
    assert_eq!(memory.read_16(0xFFFF), Err(MemoryError::WordOutOfRange { address: 0xFFFF }));
}

#[test]
fn boot_rom_is_copied_to_the_start() {
    let data: Vec<u8> = vec![0x31, 0xFE, 0xFF, 0xAF, 0x21];
    let mut memory = Memory::new();
    assert_eq!(memory.load_boot_rom(&data), Ok(()));
    for (address, byte) in data.iter().enumerate() {
        assert_eq!(memory.read_8(address as u16), *byte);
    }
    assert_eq!(memory.read_8(data.len() as u16), 0);
    for address in data.len()..MEMORY_SIZE {
        assert_eq!(memory.read_8(address as u16), 0);
    }
}

#[test]
fn boot_rom_overwrites_what_was_there_and_nothing_else() {
    let mut memory = Memory::new();
    memory.write_8(0x0000, 0x11);
    memory.write_8(0x0002, 0x22);
    memory.write_8(0x0003, 0x33);
    memory.write_8(0x8000, 0x44);
    assert_eq!(memory.load_boot_rom(&vec![0xA0, 0xA1, 0xA2]), Ok(()));
    assert_eq!(memory.read_8(0x0000), 0xA0);
    assert_eq!(memory.read_8(0x0001), 0xA1);
    assert_eq!(memory.read_8(0x0002), 0xA2);
    assert_eq!(memory.read_8(0x0003), 0x33);
    assert_eq!(memory.read_8(0x8000), 0x44);
}

#[test]
fn empty_boot_rom_changes_nothing() {
    let mut memory = Memory::new();
    memory.write_8(0x0000, 0x77);
    assert_eq!(memory.load_boot_rom(&Vec::new()), Ok(()));
    assert_eq!(memory.read_8(0x0000), 0x77);
    assert_eq!(memory.read_8(0x0001), 0x00);
}

#[test]
fn boot_rom_may_fill_the_whole_address_space() {
    let data: Vec<u8> = (0..MEMORY_SIZE).map(|i| (i % 251) as u8).collect();
    let mut memory = Memory::new();
    assert_eq!(memory.load_boot_rom(&data), Ok(()));
    for address in 0..=0xFFFFu16 {
        assert_eq!(memory.read_8(address), (address as usize % 251) as u8);
    }
}

#[test]
fn boot_rom_that_does_not_fit_is_refused() {
    let data: Vec<u8> = vec![0xFF; MEMORY_SIZE + 1];
    let mut memory = Memory::new();
    memory.write_8(0x0010, 0x42);
    assert_eq!(
        memory.load_boot_rom(&data),
        Err(MemoryError::ImageTooLarge { length: MEMORY_SIZE + 1 })
    );
    for address in 0..=0xFFFFu16 {
        assert_eq!(memory.read_8(address), if address == 0x0010 { 0x42 } else { 0 });
    }
}

#[test]
fn regions_have_their_bounds() {
    assert_eq!(MemoryLocation::RomBank0.bounds(), (0x0000, 0x3FFF));
    assert_eq!(MemoryLocation::RomBank1.bounds(), (0x4000, 0x7FFF));
    assert_eq!(MemoryLocation::VideoRAM.bounds(), (0x8000, 0x9FFF));
    assert_eq!(MemoryLocation::ExternalRAM.bounds(), (0xA000, 0xBFFF));
    assert_eq!(MemoryLocation::WorkRAM1.bounds(), (0xC000, 0xCFFF));
    assert_eq!(MemoryLocation::WorkRAM2.bounds(), (0xD000, 0xDFFF));
    assert_eq!(MemoryLocation::EchoRam.bounds(), (0xC000, 0xDDFF));
    assert_eq!(MemoryLocation::SpriteTable.bounds(), (0xFE00, 0xFE9F));
    assert_eq!(MemoryLocation::NotUsable.bounds(), (0xFEA0, 0xFEFF));
    assert_eq!(MemoryLocation::IORegisters.bounds(), (0xFF00, 0xFF7F));
    assert_eq!(MemoryLocation::HighRam.bounds(), (0xFF80, 0xFFFE));
    assert_eq!(MemoryLocation::InterruptEnableRegister.bounds(), (0xFFFF, 0xFFFF));
}
