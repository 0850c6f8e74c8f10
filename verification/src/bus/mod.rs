use vstd::prelude::*;
use crate::boot::BootRom;
use crate::cartridge::{Cartridge, CartridgeView};
use crate::cpu::error::Error;
use crate::io::interrupts::Interrupt;
use crate::io::{IOView, IO};
use crate::memory::ram::{HighRam, WorkRam};
use crate::ppu::{Ppu, PpuView, Shade, TOTAL_PIXELS};

verus! {

/// The memory bus: it owns every device and routes each access of the
/// processor to the device that the address belongs to.
#[derive(Clone)]
pub struct Bus {
    ppu: Ppu,
    boot_rom: BootRom,
    cartridge: Cartridge,
    work_ram: WorkRam,
    io: IO,
    high_ram: HighRam,
}

/// What a [`Bus`] holds.
pub struct BusView {
    /// The pixel processing unit with video RAM and object attribute memory.
    pub ppu: PpuView,
    /// The 256 bytes of the boot program.
    pub boot_rom: Seq<u8>,
    pub cartridge: CartridgeView,
    /// The 8192 bytes of work RAM.
    pub work_ram: Seq<u8>,
    /// The register block.
    pub io: IOView,
    /// The 127 bytes of high RAM.
    pub high_ram: Seq<u8>,
}

impl BusView {
    /// The bus at power on, with the given boot program and cartridge.
    pub open spec fn power_on(boot_rom: Seq<u8>, cartridge: CartridgeView) -> Self {
        BusView {
            ppu: PpuView::power_on(),
            boot_rom,
            cartridge,
            work_ram: Seq::new(8192, |i: int| 0u8),
            io: IOView::power_on(),
            high_ram: Seq::new(127, |i: int| 0u8),
        }
    }

    /// Whether the boot program is still laid over the start of the
    /// cartridge.
    pub open spec fn boot_rom_enabled(self) -> bool {
        !self.io.boot_rom_disabled
    }

    /// The result of a read at `address`.
    ///
    /// The address space is laid out as follows. 0x0000 to 0x00FF: the boot
    /// program while it is enabled, else the cartridge. Up to 0x3FFF: bank 0
    /// of the cartridge. Up to 0x7FFF: its bank 1. Up to 0x9FFF: video RAM.
    /// Up to 0xBFFF: cartridge RAM, of which there is none, so that it
    /// reads as 0xFF. Up to 0xDFFF: work RAM. Up to 0xFDFF: nothing, a
    /// fault. Up to 0xFE9F: object attribute memory, which reads as 0xFF
    /// while a DMA transfer is under way. Up to 0xFEFF: nothing, 0xFF. Up to
    /// 0xFF7F: the registers. Up to 0xFFFE: high RAM. 0xFFFF: the interrupt
    /// enable register.
    #[verifier::opaque]
    pub open spec fn read(self, address: u16) -> Result<u8, Error> {
        if address <= 0x00FF {
            if self.boot_rom_enabled() {
                Ok(self.boot_rom[address as int])
            } else {
                Ok(self.cartridge.bank0[address as int])
            }
        } else if address <= 0x3FFF {
            Ok(self.cartridge.bank0[address as int])
        } else if address <= 0x7FFF {
            Ok(self.cartridge.bank1[address - 0x4000])
        } else if address <= 0x9FFF {
            Ok(self.ppu.vram[address - 0x8000])
        } else if address <= 0xBFFF {
            Ok(0xFF)
        } else if address <= 0xDFFF {
            Ok(self.work_ram[address - 0xC000])
        } else if address <= 0xFDFF {
            Err(Error::MemoryReadFault(address))
        } else if address <= 0xFE9F {
            if self.io.dma.transferring {
                Ok(0xFF)
            } else {
                Ok(self.ppu.oam[address - 0xFE00])
            }
        } else if address <= 0xFEFF {
            Ok(0xFF)
        } else if address <= 0xFF7F || address == 0xFFFF {
            Ok(self.io.register(address))
        } else {
            Ok(self.high_ram[address - 0xFF80])
        }
    }

    /// The result of reading the 16-bit word at `address`: the low byte is
    /// read at `address`, then the high byte at the address after it.
    pub open spec fn read_u16(self, address: u16) -> Result<u16, Error> {
        match self.read(address) {
            Err(error) => Err(error),
            Ok(low) => match self.read(next_address(address)) {
                Err(error) => Err(error),
                Ok(high) => Ok((high * 256 + low) as u16),
            },
        }
    }

    /// The result of a write of `data` at `address`: the bus after it, or a
    /// fault.
    ///
    /// A write to the ROM of the cartridge is dropped. A write to cartridge
    /// RAM, to the two unused ranges or to an address of the register block
    /// without a register faults.
    #[verifier::opaque]
    pub open spec fn write(self, address: u16, data: u8) -> Result<BusView, Error> {
        if address <= 0x7FFF {
            Ok(self)
        } else if address <= 0x9FFF {
            Ok(
                BusView {
                    ppu: PpuView { vram: self.ppu.vram.update(address - 0x8000, data), ..self.ppu },
                    ..self
                },
            )
        } else if address <= 0xBFFF {
            Err(Error::MemoryWriteFault(address, data))
        } else if address <= 0xDFFF {
            Ok(BusView { work_ram: self.work_ram.update(address - 0xC000, data), ..self })
        } else if address <= 0xFDFF {
            Err(Error::MemoryWriteFault(address, data))
        } else if address <= 0xFE9F {
            Ok(
                BusView {
                    ppu: PpuView { oam: self.ppu.oam.update(address - 0xFE00, data), ..self.ppu },
                    ..self
                },
            )
        } else if address <= 0xFEFF {
            Err(Error::MemoryWriteFault(address, data))
        } else if address <= 0xFF7F || address == 0xFFFF {
            match self.io.write(address, data) {
                Ok(io) => Ok(BusView { io, ..self }),
                Err(error) => Err(error),
            }
        } else {
            Ok(BusView { high_ram: self.high_ram.update(address - 0xFF80, data), ..self })
        }
    }

    /// The result of writing the 16-bit word `data` at `address`: the high
    /// byte is written at the address after `address`, then the low byte at
    /// `address`.
    pub open spec fn write_u16(self, address: u16, data: u16) -> Result<BusView, Error> {
        match self.write(next_address(address), (data / 256) as u8) {
            Err(error) => Err(error),
            Ok(bus) => bus.write(address, (data % 256) as u8),
        }
    }

    /// Whether the memories have the sizes of the console. The view of
    /// every [`Bus`] does.
    pub open spec fn well_formed(self) -> bool {
        &&& self.ppu.vram.len() == 8192
        &&& self.ppu.oam.len() == 160
        &&& self.ppu.pixels.len() == TOTAL_PIXELS
        &&& self.boot_rom.len() == 256
        &&& self.cartridge.bank0.len() == 16384
        &&& self.cartridge.bank1.len() == 16384
        &&& self.work_ram.len() == 8192
        &&& self.high_ram.len() == 127
    }
}

/// Whether `address` lies in work RAM or in high RAM.
pub open spec fn is_ram(address: u16) -> bool {
    0xC000 <= address <= 0xDFFF || 0xFF80 <= address <= 0xFFFE
}

/// A byte written to work RAM or to high RAM is the byte that is read there
/// afterwards.
pub proof fn ram_keeps_what_is_written(bus: BusView, address: u16, value: u8)
    requires
        bus.well_formed(),
        is_ram(address),
    ensures
        bus.write(address, value) is Ok,
        bus.write(address, value)->Ok_0.read(address) == Ok::<u8, Error>(value),
        bus.write(address, value)->Ok_0.well_formed(),
{
    reveal(BusView::read);
    reveal(BusView::write);
}

/// A write to work RAM or to high RAM leaves what is read at every other
/// address of the two as it was.
pub proof fn ram_write_is_local(bus: BusView, address: u16, value: u8, other: u16)
    requires
        bus.well_formed(),
        is_ram(address),
        is_ram(other),
        other != address,
    ensures
        bus.write(address, value) is Ok,
        bus.write(address, value)->Ok_0.read(other) == bus.read(other),
{
    reveal(BusView::read);
    reveal(BusView::write);
}

/// Whatever is written to the divider register at 0xFF04, it reads as zero
/// afterwards.
pub proof fn divider_write_resets(bus: BusView, value: u8)
    ensures
        bus.write(0xFF04, value) is Ok,
        bus.write(0xFF04, value)->Ok_0.read(0xFF04) == Ok::<u8, Error>(0),
{
    reveal(BusView::read);
    reveal(BusView::write);
    reveal(IOView::register);
    reveal(IOView::written);
}

/// The address after `address`. The address space wraps around.
pub open spec fn next_address(address: u16) -> u16 {
    if address == 0xFFFF {
        0
    } else {
        (address + 1) as u16
    }
}

impl View for Bus {
    type V = BusView;

    closed spec fn view(&self) -> BusView {
        BusView {
            ppu: self.ppu@,
            boot_rom: self.boot_rom@,
            cartridge: self.cartridge@,
            work_ram: self.work_ram@,
            io: self.io@,
            high_ram: self.high_ram@,
        }
    }
}

impl Bus {
    /// The memories on the bus always have the sizes of the console.
    pub proof fn is_well_formed(&self)
        ensures
            self@.well_formed(),
    {
        self.ppu.holds_its_sizes();
        self.boot_rom.holds_256_bytes();
        self.cartridge.holds_two_banks();
        self.work_ram.holds_8192_bytes();
        self.high_ram.holds_127_bytes();
    }

    pub fn new(boot_rom: BootRom, cartridge: Cartridge) -> (bus: Self)
        ensures
            bus@ == BusView::power_on(boot_rom@, cartridge@),
    {
        Self {
            ppu: Ppu::new(),
            boot_rom,
            cartridge,
            work_ram: WorkRam::new(),
            io: IO::new(),
            high_ram: HighRam::new(),
        }
    }

    /// Reads the byte at `address`.
    pub fn read_u8(&self, address: u16) -> (value: Result<u8, Error>)
        ensures
            value == self@.read(address),
    {
        reveal(BusView::read);
        Ok(
            match address {
                0x0000..=0x00FF => {
                    if self.boot_rom_enabled() {
                        self.boot_rom.contents()[address as usize]
                    } else {
                        self.cartridge.bank0()[address as usize]
                    }
                },
                0x0100..=0x3FFF => self.cartridge.bank0()[address as usize],
                0x4000..=0x7FFF => self.cartridge.bank1()[(address as usize) - 0x4000],
                0x8000..=0x9FFF => self.ppu.vram().read_u8(address)?,
                0xA000..=0xBFFF => 0xFF,
                0xC000..=0xDFFF => self.work_ram.read_u8(address),
                0xE000..=0xFDFF => {
                    return Err(Error::MemoryReadFault(address));
                },
                0xFE00..=0xFE9F => {
                    if self.io.dma().transferring() {
                        0xFF
                    } else {
                        self.ppu.oam().read_u8(address)
                    }
                },
                0xFEA0..=0xFEFF => 0xFF,
                0xFF00..=0xFF7F => self.io.read_u8(address)?,
                0xFF80..=0xFFFE => self.high_ram.read_u8(address),
                0xFFFF => self.io.read_u8(address)?,
            },
        )
    }

    /// Reads the 16-bit word at `address`, low byte first.
    pub fn read_u16(&self, address: u16) -> (value: Result<u16, Error>)
        ensures
            value == self@.read_u16(address),
    {
        let lower = self.read_u8(address)?;
        let higher = self.read_u8(address.wrapping_add(1))?;
        Ok((higher as u16) * 256 + lower as u16)
    }

    /// Writes `data` at `address`. A write that faults changes nothing.
    pub fn write_u8(&mut self, address: u16, data: u8) -> (result: Result<(), Error>)
        ensures
            result is Ok ==> old(self)@.write(address, data) == Ok::<BusView, Error>(final(self)@),
            result matches Err(error) ==> old(self)@.write(address, data) == Err::<BusView, Error>(
                error,
            ) && final(self)@ == old(self)@,
    {
        reveal(BusView::write);
        match address {
            0x0000..=0x7FFF => {},
            0x8000..=0x9FFF => {
                self.ppu.vram_mut().write_u8(address, data)?;
            },
            0xC000..=0xDFFF => {
                self.work_ram.write_u8(address, data);
            },
            0xFE00..=0xFE9F => {
                self.ppu.oam_mut().write_u8(address, data);
            },
            0xFF00..=0xFF7F | 0xFFFF => {
                let mut io = self.io;
                io.write_u8(address, data)?;
                self.io = io;
            },
            0xFF80..=0xFFFE => {
                self.high_ram.write_u8(address, data);
            },
            _ => {
                return Err(Error::MemoryWriteFault(address, data));
            },
        }
        Ok(())
    }

    /// Writes the 16-bit word `data` at `address`: its high byte at the
    /// address after `address`, then its low byte at `address`.
    pub fn write_u16(&mut self, address: u16, data: u16) -> (result: Result<(), Error>)
        ensures
            result is Ok ==> old(self)@.write_u16(address, data) == Ok::<BusView, Error>(
                final(self)@,
            ),
            result matches Err(error) ==> old(self)@.write_u16(address, data) == Err::<
                BusView,
                Error,
            >(error),
    {
        self.write_u8(address.wrapping_add(1), (data / 256) as u8)?;
        self.write_u8(address, (data % 256) as u8)
    }

    /// Whether the boot program is still laid over the start of the
    /// cartridge.
    pub fn boot_rom_enabled(&self) -> (enabled: bool)
        ensures
            enabled == self@.boot_rom_enabled(),
    {
        !self.io.boot_rom_disabled()
    }

    /// Lets `cycles` clock cycles pass for the pixel processing unit.
    pub fn step_ppu(&mut self, cycles: usize) -> (outcome: (
        Option<Interrupt>,
        Option<Interrupt>,
        bool,
    ))
        ensures
            final(self)@ == (BusView {
                ppu: old(self)@.ppu.step(old(self)@.io.lcd, cycles).ppu,
                io: IOView {
                    lcd: old(self)@.ppu.step(old(self)@.io.lcd, cycles).lcd,
                    ..old(self)@.io
                },
                ..old(self)@
            }),
            outcome.0 == old(self)@.ppu.step(old(self)@.io.lcd, cycles).vblank,
            outcome.1 == old(self)@.ppu.step(old(self)@.io.lcd, cycles).lcd_interrupt,
            outcome.2 == old(self)@.ppu.step(old(self)@.io.lcd, cycles).new_frame,
    {
        self.ppu.step(self.io.lcd_mut(), cycles)
    }

    /// The frame as the screen shows it.
    pub fn render(&mut self) -> (pixels: &[Shade; TOTAL_PIXELS])
        ensures
            pixels@ == old(self)@.ppu.shown(old(self)@.io.lcd),
            final(self)@ == old(self)@,
    {
        self.ppu.render(self.io.lcd_mut())
    }

    pub fn io(&self) -> (io: &IO)
        ensures
            io@ == self@.io,
    {
        &self.io
    }

    pub fn io_mut(&mut self) -> (io: &mut IO)
        ensures
            io@ == old(self)@.io,
            final(self)@ == (BusView { io: final(io)@, ..old(self)@ }),
    {
        &mut self.io
    }

    pub fn ppu(&self) -> (ppu: &Ppu)
        ensures
            ppu@ == self@.ppu,
    {
        &self.ppu
    }

    pub fn ppu_mut(&mut self) -> (ppu: &mut Ppu)
        ensures
            ppu@ == old(self)@.ppu,
            final(self)@ == (BusView { ppu: final(ppu)@, ..old(self)@ }),
    {
        &mut self.ppu
    }
}

} // verus!
