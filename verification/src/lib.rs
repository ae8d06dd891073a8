//! An emulator core for an 8-bit handheld processor: register file, flat
//! address space, opcode decoder and executor, driven one step at a time.

use vstd::prelude::*;
use cpu::CpuError;
use cpu::CPU;
use machine::Machine;
use memory::with_image;
use memory::Memory;
use memory::MemoryError;

pub mod cpu;
pub mod instruction;
pub mod machine;
pub mod memory;
pub mod registers;

verus! {

/// One emulator instance: a processor and the address space it works on.
pub struct Gameboy {
    pub cpu: CPU,
    pub memory: Memory,
}

impl View for Gameboy {
    type V = Machine;

    open spec fn view(&self) -> Machine {
        self.cpu.with(self.memory@)
    }
}

impl Gameboy {
    /// The address space of an emulator has one byte for each 16-bit address.
    pub proof fn lemma_wf(&self)
        ensures
            self@.wf(),
    {
        self.memory.lemma_size();
    }

    /// An emulator at power-up: bring-up registers over zeroed memory.
    pub fn new() -> (gameboy: Gameboy)
        ensures
            gameboy@ == Machine::initial(),
    {
        Gameboy { cpu: CPU::new(), memory: Memory::new() }
    }

    /// Copies the boot image to the start of the address space. An image
    /// longer than the address space is refused and nothing is changed.
    pub fn load_boot_rom(&mut self, data: &Vec<u8>) -> (loaded: Result<(), MemoryError>)
        ensures
            final(self)@.registers == old(self)@.registers,
            data.len() <= 0x10000 ==> loaded == Ok::<(), MemoryError>(()) && final(self)@.memory
                == with_image(old(self)@.memory, data@),
            data.len() > 0x10000 ==> loaded == Err::<(), MemoryError>(
                MemoryError::ImageTooLarge { length: data.len() },
            ) && final(self)@.memory == old(self)@.memory,
    {
        self.memory.load_boot_rom(data)
    }

    /// Executes exactly one instruction.
    pub fn step(&mut self) -> (outcome: Result<(), CpuError>)
        ensures
            final(self)@ == old(self)@.step().0,
            outcome == old(self)@.step().1,
    {
        self.cpu.cycle(&mut self.memory)
    }

    /// Executes up to `steps` instructions and stops at the first that
    /// fails, with its error.
    pub fn run(&mut self, steps: u64) -> (outcome: Result<(), CpuError>)
        ensures
            final(self)@ == old(self)@.run(steps as nat).0,
            outcome == old(self)@.run(steps as nat).1,
    {
        let mut done: u64 = 0;
        while done < steps
            invariant
                done <= steps,
                self@.run((steps - done) as nat) == old(self)@.run(steps as nat),
            decreases steps - done,
        {
            match self.cpu.cycle(&mut self.memory) {
                Ok(()) => {},
                Err(error) => {
                    return Err(error);
                },
            }
            done += 1;
        }
        Ok(())
    }
}

} // verus!
