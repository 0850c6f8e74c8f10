use gameboy_emulator::boot::{BootRom, BootRomReader};
use gameboy_emulator::bus::Bus;
use gameboy_emulator::cartridge::header::{
    CartridgeHeaderReader, CartridgeType, CgbFlag, DestinationCode, Licensee, NewLicenseeCode,
    OldLicenseeCode, RamSize, RomSize, SgbFlag,
};
use gameboy_emulator::cartridge::{Cartridge, Error as CartridgeError};
use gameboy_emulator::cpu::decoder::{Decoder, Opcode, Prefixed};
use gameboy_emulator::cpu::error::Error;
use gameboy_emulator::cpu::execution_state::{ExecutionState, Flags};
use gameboy_emulator::cpu::instruction::{
    BitIndex, Condition, Imm16, Imm8, Instruction, Register16, Register16Memory, Register16Stack,
    Register8, Target,
};
use gameboy_emulator::cpu::Cpu;
use gameboy_emulator::io::dma::DMAController;
use gameboy_emulator::io::interrupts::{Interrupt, Interrupts};
use gameboy_emulator::io::joypad::JoypadInput;
use gameboy_emulator::io::lcd::{Color, Lcd, LcdControl, ObjSize, Palette, TileDataArea, TileMapArea};
use gameboy_emulator::io::timer::{ClockSelect, Timer};
use gameboy_emulator::io::IO;
use gameboy_emulator::memory::ram::{HighRam, WorkRam};
use gameboy_emulator::ppu::oam::{ObjectAttributeMemory, PaletteSelection};
use gameboy_emulator::ppu::vram::{ColorId, Tile, TileId, Vram};
use gameboy_emulator::ppu::{Ppu, PpuMode, Shade};
use gameboy_emulator::{DPadButtonState, DPadState, InputState};

fn boot_with(program: &[u8]) -> BootRom {
    let mut contents = [0u8; 256];
    contents[..program.len()].copy_from_slice(program);
    BootRom::new(contents)
}

fn new_bus() -> Bus {
    Bus::new(boot_with(&[]), Cartridge::empty())
}

fn new_cpu() -> Cpu {
    Cpu::new(new_bus())
}

fn rom_image() -> Vec<u8> {
    let mut rom = vec![0u8; 32 * 1024];
    rom[0x0134..0x013A].copy_from_slice(b"TETRIS");
    rom[0x013F..0x0143].copy_from_slice(b"ABCD");
    rom[0x0143] = 0x80;
    rom[0x0144] = b'0';
    rom[0x0145] = b'1';
    rom[0x0146] = 0x03;
    rom[0x0147] = 0x00;
    rom[0x0148] = 0x00;
    rom[0x0149] = 0x00;
    rom[0x014A] = 0x01;
    rom[0x014B] = 0x33;
    rom[0x014C] = 0x02;
    rom[0x014D] = 0x5A;
    rom[0x014E] = 0x12;
    rom[0x014F] = 0x34;
    rom
}

#[test]
fn add8_law_holds_for_every_pair_of_bytes() {
    let mut cpu = new_cpu();
    for a in 0..=255u16 {
        for b in 0..=255u16 {
            let result = cpu.add_u8(a as u8, b as u8);
            let flags = *cpu.execution_state().flags();
            assert_eq!(result as u16, (a + b) % 256);
            assert_eq!(flags.carry, a + b >= 256);
            assert_eq!(flags.half_carry, (a & 0xF) + (b & 0xF) > 0xF);
            assert_eq!(flags.zero, result == 0);
            assert!(!flags.subtraction);
        }
    }
}

#[test]
fn alu_scenario_table() {
    let mut cpu = new_cpu();
    assert_eq!(cpu.add_u8(0x0F, 0x01), 0x10);
    assert_eq!(*cpu.execution_state().flags(), Flags::new(false, true, false, false));
    assert_eq!(cpu.add_u8(0xFF, 0x01), 0x00);
    assert_eq!(*cpu.execution_state().flags(), Flags::new(true, true, false, true));
    assert_eq!(cpu.sub_u8(0x01, 0x00), 0xFF);
    assert_eq!(*cpu.execution_state().flags(), Flags::new(true, true, true, false));
    cpu.execution_state_mut().set_flags(Flags::just_carry());
    assert_eq!(cpu.adc_u8(0x0F, 0x00), 0x10);
    assert_eq!(*cpu.execution_state().flags(), Flags::new(false, true, false, false));
    let sum = cpu.add_u8(0x09, 0x01);
    assert_eq!(sum, 0x0A);
    assert_eq!(cpu.decimal_adjust(sum), 0x10);
    assert_eq!(*cpu.execution_state().flags(), Flags::zeros());
    assert_eq!(cpu.rotate_left_u8(0x80, true, false), 0x01);
    assert_eq!(*cpu.execution_state().flags(), Flags::just_carry());
    cpu.test_bit_u8(7, 0x00);
    assert_eq!(*cpu.execution_state().flags(), Flags::new(true, true, false, true));
    cpu.execution_state_mut().set_flags(Flags::zeros());
    cpu.test_bit_u8(7, 0x00);
    assert_eq!(*cpu.execution_state().flags(), Flags::new(false, true, false, true));
}

#[test]
fn more_alu_operations() {
    let mut cpu = new_cpu();
    assert_eq!(cpu.sbc_u8(0x01, 0x10), 0x0F);
    cpu.execution_state_mut().set_flags(Flags::just_carry());
    assert_eq!(cpu.sbc_u8(0x01, 0x10), 0x0E);
    assert_eq!(*cpu.execution_state().flags(), Flags::new(false, true, true, false));
    assert_eq!(cpu.sub_u16(0x0001, 0x1000), 0x0FFF);
    assert_eq!(*cpu.execution_state().flags(), Flags::new(false, true, true, false));
    cpu.execution_state_mut().set_flags(Flags::just_carry());
    assert_eq!(cpu.sbc_u16(0x0001, 0x0001), 0xFFFF);
    assert_eq!(*cpu.execution_state().flags(), Flags::new(true, true, true, false));
    cpu.execution_state_mut().set_flags(Flags::just_zero());
    assert_eq!(cpu.add_hl(0x8000, 0x8000), 0x0000);
    assert_eq!(*cpu.execution_state().flags(), Flags::new(true, false, false, true));
    cpu.execution_state_mut().set_flags(Flags::just_carry());
    assert_eq!(cpu.rotate_left_u8(0x80, false, true), 0x01);
    assert_eq!(*cpu.execution_state().flags(), Flags::just_carry());
    assert_eq!(cpu.rotate_right_u8(0x01, true, true), 0x80);
    assert_eq!(*cpu.execution_state().flags(), Flags::just_carry());
    assert_eq!(cpu.rotate_left_u8(0x80, false, false), 0x01);
    assert_eq!(cpu.rotate_left_u8(0x00, false, false), 0x00);
    assert_eq!(*cpu.execution_state().flags(), Flags::zeros());
    cpu.execution_state_mut().set_flags(Flags::just_carry().with_zero(true));
    assert_eq!(cpu.not_u8(0x0F), 0xF0);
    assert_eq!(*cpu.execution_state().flags(), Flags::new(true, true, true, true));
    assert_eq!(cpu.swap_u8(0x00), 0x00);
    assert_eq!(*cpu.execution_state().flags(), Flags::just_zero());
    cpu.execution_state_mut().set_flags(Flags::new(true, false, true, false));
    assert_eq!(cpu.decimal_adjust(0x20), 0xC0);
    assert_eq!(*cpu.execution_state().flags(), Flags::new(true, false, true, false));
    for index in 0..8u8 {
        assert_eq!(cpu.set_bit_u8(index, 0x00), 1 << index);
        assert_eq!(cpu.reset_bit_u8(index, 0xFF), !(1 << index));
    }
}

#[test]
fn push_then_pop_gives_the_word_back() {
    let mut cpu = new_cpu();
    for (sp, value) in [(0xFFFEu16, 0x1234u16), (0xE000, 0xBEEF), (0xC002, 0x00FF), (0xFF82, 0xFF00)] {
        cpu.execution_state_mut().set_stack_pointer(sp);
        cpu.push_u16(value).unwrap();
        assert_eq!(cpu.execution_state().stack_pointer(), sp - 2);
        assert_eq!(cpu.bus().read_u8(sp - 1), Ok((value >> 8) as u8));
        assert_eq!(cpu.bus().read_u8(sp - 2), Ok((value & 0xFF) as u8));
        assert_eq!(cpu.pop_u16(), Ok(value));
        assert_eq!(cpu.execution_state().stack_pointer(), sp);
    }
}

#[test]
fn register_pairs_are_made_of_two_halves() {
    let mut state = ExecutionState::new();
    assert_eq!(state.stack_pointer(), 0xFFFF);
    assert_eq!(state.instruction_pointer(), 0);
    state.set_reg_bc(0x1234);
    assert_eq!((state.reg_b(), state.reg_c()), (0x12, 0x34));
    state.set_reg_b(0xAB);
    state.set_reg_c(0xCD);
    assert_eq!(state.reg_bc(), 0xABCD);
    state.set_reg_d(0x01);
    state.set_reg_e(0x02);
    assert_eq!(state.reg_de(), 0x0102);
    assert_eq!((state.reg_d(), state.reg_e()), (0x01, 0x02));
    state.set_reg_h(0xFE);
    state.set_reg_l(0xDC);
    assert_eq!(state.reg_hl(), 0xFEDC);
    assert_eq!((state.reg_h(), state.reg_l()), (0xFE, 0xDC));
    state.set_reg_af(0x12FF);
    assert_eq!(state.reg_af(), 0x12F0);
    assert_eq!(*state.flags(), Flags::new(true, true, true, true));
    state.set_reg_af(0x0090);
    assert_eq!(*state.flags(), Flags::new(true, false, false, true));
    state.flags_mut().zero = false;
    assert_eq!(state.reg_af(), 0x0010);
}

#[test]
fn flags_pack_into_the_high_nibble() {
    assert_eq!(u8::from(Flags::just_zero()), 0x80);
    assert_eq!(u8::from(Flags::just_subtraction()), 0x40);
    assert_eq!(u8::from(Flags::just_half_carry()), 0x20);
    assert_eq!(u8::from(Flags::just_carry()), 0x10);
    assert_eq!(u16::from(Flags::new(true, true, true, true)), 0x00F0);
    assert_eq!(Flags::from(0xFF), Flags::new(true, true, true, true));
    assert_eq!(Flags::from(0x0F), Flags::zeros());
    assert_eq!(Flags::from(0xA0), Flags::new(false, true, false, true));
    let mask = Flags::just_carry().with_zero(true);
    let merged = Flags::zeros().set_with_mask(Flags::new(true, true, true, true), mask);
    assert_eq!(merged, Flags::new(true, false, false, true));
    assert_eq!(Flags::just_carry() | Flags::just_zero(), Flags::new(true, false, false, true));
    assert_eq!(Flags::new(true, true, false, false) & Flags::just_carry(), Flags::just_carry());
}

#[test]
fn ram_keeps_what_is_written() {
    let mut bus = new_bus();
    for (address, value) in [(0xC000u16, 0x11u8), (0xDFFF, 0x22), (0xFF80, 0x33), (0xFFFE, 0x44), (0xD123, 0x55)] {
        assert_eq!(bus.write_u8(address, value), Ok(()));
        assert_eq!(bus.read_u8(address), Ok(value));
    }
    assert_eq!(bus.read_u8(0xC000), Ok(0x11));
    assert_eq!(bus.read_u8(0xC001), Ok(0x00));
    let mut work = WorkRam::new();
    work.write_u8(0xC005, 9);
    assert_eq!(work.read_u8(0xC005), 9);
    assert_eq!(work.contents()[5], 9);
    let mut high = HighRam::new();
    high.write_u8(0xFF85, 7);
    assert_eq!(high.read_u8(0xFF85), 7);
    assert_eq!(high.contents()[5], 7);
}

#[test]
fn divider_reads_zero_after_any_write() {
    let mut bus = new_bus();
    bus.io_mut().timer_mut().step(1000);
    assert_eq!(bus.read_u8(0xFF04), Ok(3));
    for value in [0x00u8, 0x01, 0x7F, 0xFF] {
        bus.io_mut().timer_mut().step(300);
        assert_eq!(bus.write_u8(0xFF04, value), Ok(()));
        assert_eq!(bus.read_u8(0xFF04), Ok(0));
    }
}

#[test]
fn memory_map() {
    let mut rom = vec![0u8; 32 * 1024];
    rom[0x0000] = 0x11;
    rom[0x00FF] = 0x12;
    rom[0x0100] = 0x13;
    rom[0x3FFF] = 0x14;
    rom[0x4000] = 0x15;
    rom[0x7FFF] = 0x16;
    let mut boot = [0u8; 256];
    boot[0] = 0x21;
    boot[255] = 0x22;
    let mut bus = Bus::new(BootRom::new(boot), Cartridge::read(&rom).unwrap());
    assert_eq!(bus.read_u8(0x0000), Ok(0x21));
    assert_eq!(bus.read_u8(0x00FF), Ok(0x22));
    assert_eq!(bus.read_u8(0x0100), Ok(0x13));
    assert_eq!(bus.read_u8(0x3FFF), Ok(0x14));
    assert_eq!(bus.read_u8(0x4000), Ok(0x15));
    assert_eq!(bus.read_u8(0x7FFF), Ok(0x16));
    assert_eq!(bus.read_u16(0x3FFF), Ok(0x1514));
    assert_eq!(bus.write_u8(0x0100, 0xFF), Ok(()));
    assert_eq!(bus.write_u8(0x7FFF, 0xFF), Ok(()));
    assert_eq!(bus.read_u8(0x0100), Ok(0x13));
    assert_eq!(bus.read_u8(0x7FFF), Ok(0x16));
    assert_eq!(bus.write_u8(0x8000, 0x31), Ok(()));
    assert_eq!(bus.write_u8(0x9FFF, 0x32), Ok(()));
    assert_eq!(bus.read_u8(0x8000), Ok(0x31));
    assert_eq!(bus.read_u8(0x9FFF), Ok(0x32));
    assert_eq!(bus.read_u8(0xA000), Ok(0xFF));
    assert_eq!(bus.read_u8(0xBFFF), Ok(0xFF));
    assert_eq!(bus.write_u8(0xA000, 0x05), Err(Error::MemoryWriteFault(0xA000, 0x05)));
    assert_eq!(bus.read_u8(0xE000), Err(Error::MemoryReadFault(0xE000)));
    assert_eq!(bus.read_u8(0xFDFF), Err(Error::MemoryReadFault(0xFDFF)));
    assert_eq!(bus.write_u8(0xE000, 0x06), Err(Error::MemoryWriteFault(0xE000, 0x06)));
    assert_eq!(bus.write_u8(0xFE00, 0x41), Ok(()));
    assert_eq!(bus.write_u8(0xFE9F, 0x42), Ok(()));
    assert_eq!(bus.read_u8(0xFE00), Ok(0x41));
    assert_eq!(bus.read_u8(0xFE9F), Ok(0x42));
    assert_eq!(bus.read_u8(0xFEA0), Ok(0xFF));
    assert_eq!(bus.read_u8(0xFEFF), Ok(0xFF));
    assert_eq!(bus.write_u8(0xFEA0, 0x07), Err(Error::MemoryWriteFault(0xFEA0, 0x07)));
    assert_eq!(bus.read_u8(0xFF03), Ok(0xFF));
    assert_eq!(bus.read_u8(0xFF7F), Ok(0xFF));
    assert_eq!(bus.write_u8(0xFF03, 0x08), Err(Error::MemoryWriteFault(0xFF03, 0x08)));
    assert_eq!(bus.write_u8(0xFFFF, 0xFF), Ok(()));
    assert_eq!(bus.read_u8(0xFFFF), Ok(0xFF));
    assert_eq!(bus.write_u8(0xFFFF, 0x05), Ok(()));
    assert_eq!(bus.read_u8(0xFFFF), Ok(0xE5));
    assert_eq!(bus.write_u16(0xC000, 0xABCD), Ok(()));
    assert_eq!(bus.read_u8(0xC000), Ok(0xCD));
    assert_eq!(bus.read_u8(0xC001), Ok(0xAB));
    assert_eq!(bus.read_u16(0xC000), Ok(0xABCD));
    assert_eq!(bus.read_u16(0xDFFF), Err(Error::MemoryReadFault(0xE000)));
    assert_eq!(bus.write_u16(0xDFFF, 0x0102), Err(Error::MemoryWriteFault(0xE000, 0x01)));
    assert_eq!(bus.read_u8(0xDFFF), Ok(0x00));
    assert_eq!(bus.read_u16(0xFFFF), Ok(0x21E5));
}

#[test]
fn registers_read_back() {
    let mut io = IO::new();
    assert_eq!(io.read_u8(0xC000), Err(Error::MemoryReadFault(0xC000)));
    assert_eq!(io.write_u8(0xC000, 1), Err(Error::MemoryWriteFault(0xC000, 1)));
    for address in [
        0xFF01u16, 0xFF02, 0xFF05, 0xFF06, 0xFF07, 0xFF10, 0xFF11, 0xFF12, 0xFF13, 0xFF14, 0xFF16,
        0xFF17, 0xFF18, 0xFF19, 0xFF1A, 0xFF1B, 0xFF1C, 0xFF1D, 0xFF1E, 0xFF20, 0xFF21, 0xFF22,
        0xFF23, 0xFF24, 0xFF25, 0xFF26, 0xFF30, 0xFF37, 0xFF3F, 0xFF40, 0xFF42, 0xFF43, 0xFF45,
        0xFF47, 0xFF48, 0xFF49, 0xFF4A, 0xFF4B,
    ] {
        let value = (address & 0xFF) as u8 ^ 0xA5;
        assert_eq!(io.write_u8(address, value), Ok(()));
        assert_eq!(io.read_u8(address), Ok(value));
    }
    for address in [0xFF03u16, 0xFF08, 0xFF15, 0xFF1F, 0xFF27, 0xFF2F, 0xFF4C, 0xFF51, 0xFF7F] {
        assert_eq!(io.read_u8(address), Ok(0xFF));
        assert_eq!(io.write_u8(address, 1), Err(Error::MemoryWriteFault(address, 1)));
    }
    assert_eq!(io.write_u8(0xFF0F, 0xFF), Ok(()));
    assert_eq!(io.read_u8(0xFF0F), Ok(0xFF));
    assert_eq!(io.write_u8(0xFF0F, 0x03), Ok(()));
    assert_eq!(io.read_u8(0xFF0F), Ok(0xE3));
    assert_eq!(io.write_u8(0xFF41, 0xFF), Ok(()));
    assert_eq!(io.read_u8(0xFF41), Ok(0xF8));
    assert_eq!(io.write_u8(0xFF41, 0x00), Ok(()));
    assert_eq!(io.read_u8(0xFF41), Ok(0x80));
    assert_eq!(io.write_u8(0xFF44, 0x55), Ok(()));
    assert_eq!(io.read_u8(0xFF44), Ok(0x00));
    assert_eq!(io.boot_rom_enable(), 0);
    assert!(!io.boot_rom_disabled());
    assert_eq!(io.write_u8(0xFF50, 0x00), Ok(()));
    assert!(!io.boot_rom_disabled());
    assert_eq!(io.write_u8(0xFF50, 0x04), Ok(()));
    assert_eq!(io.read_u8(0xFF50), Ok(0x04));
    assert!(io.boot_rom_disabled());
    assert_eq!(io.audio().channel_3().read_wave_pattern_ram(7), 0x37 ^ 0xA5);
    assert_eq!(io.serial().read_data(), 0x01 ^ 0xA5);
    assert_eq!(io.lcd().read_scroll_x(), 0x43 ^ 0xA5);
}

#[test]
fn timer_counts_at_the_selected_rate() {
    let mut timer = Timer::new();
    assert!(!timer.step(255));
    assert_eq!(timer.read_divider(), 0);
    assert!(!timer.step(1));
    assert_eq!(timer.read_divider(), 1);
    assert_eq!(timer.read_timer_counter(), 0);
    timer.write_divider(0x77);
    assert_eq!(timer.read_divider(), 0);
    timer.set_divider(5);
    assert_eq!(timer.read_divider(), 5);
    timer.step(256 * 251);
    assert_eq!(timer.read_divider(), 0);

    timer.write_timer_control(0x05);
    assert_eq!(timer.read_timer_control(), 0x05);
    timer.write_timer_modulo(0x10);
    timer.write_timer_counter(0xFE);
    assert!(!timer.step(15));
    assert_eq!(timer.read_timer_counter(), 0xFE);
    assert!(!timer.step(1));
    assert_eq!(timer.read_timer_counter(), 0xFF);
    assert!(timer.step(16));
    assert_eq!(timer.read_timer_counter(), 0x10);
    assert!(!timer.step(16 * 3 + 8));
    assert_eq!(timer.read_timer_counter(), 0x13);
    assert!(!timer.step(8));
    assert_eq!(timer.read_timer_counter(), 0x14);

    timer.write_timer_control(0x04);
    timer.write_timer_counter(0);
    assert!(!timer.step(1023));
    assert_eq!(timer.read_timer_counter(), 0);
    assert!(!timer.step(1));
    assert_eq!(timer.read_timer_counter(), 1);
    timer.write_timer_control(0x06);
    assert!(!timer.step(64 * 2));
    assert_eq!(timer.read_timer_counter(), 3);
    timer.write_timer_control(0x07);
    assert!(!timer.step(256));
    assert_eq!(timer.read_timer_counter(), 4);
    timer.write_timer_control(0x03);
    assert!(!timer.step(4096));
    assert_eq!(timer.read_timer_counter(), 4);
    timer.write_timer_control(0xFD);
    assert_eq!(timer.read_timer_control(), 0xFD);
    timer.write_timer_counter(0xFF);
    timer.write_timer_modulo(0xFF);
    assert!(timer.step(32));
    assert_eq!(timer.read_timer_counter(), 0xFF);
    assert_eq!(timer.read_timer_modulo(), 0xFF);
    assert_eq!(ClockSelect::Every256MCycles.cycles_value(), 1024);
    assert_eq!(ClockSelect::Every4MCycles.cycles_value(), 16);
    assert_eq!(ClockSelect::Every16MCycles.cycles_value(), 64);
    assert_eq!(ClockSelect::Every64MCycles.cycles_value(), 256);
}

#[test]
fn dma_controller_counts_640_cycles() {
    let mut dma = DMAController::new();
    assert!(!dma.transferring());
    assert!(!dma.step(1000));
    dma.start_new_transfer(0xC1);
    assert!(dma.transferring());
    assert_eq!(dma.read_source_address(), 0xC1);
    assert_eq!(dma.full_source_address(), 0xC100);
    assert!(!dma.step(600));
    dma.start_new_transfer(0x80);
    assert_eq!(dma.full_source_address(), 0x8000);
    assert!(!dma.step(639));
    assert!(dma.transferring());
    assert!(dma.step(1));
    assert!(!dma.transferring());
    assert!(!dma.step(640));
    assert_eq!(dma.read_source_address(), 0x80);
}

#[test]
fn interrupt_controller_orders_by_priority() {
    let mut interrupts = Interrupts::new();
    assert_eq!(interrupts.highest_priority_triggered_interrupt(), None);
    interrupts.set_interrupt_requested(Interrupt::Joypad);
    interrupts.set_interrupt_requested(Interrupt::Serial);
    assert_eq!(interrupts.read_interrupt_flag(), 0xF8);
    assert_eq!(interrupts.highest_priority_triggered_interrupt(), None);
    interrupts.write_interrupt_enable(0xFF);
    assert_eq!(interrupts.read_interrupt_enable(), 0xFF);
    assert_eq!(interrupts.highest_priority_triggered_interrupt(), Some(Interrupt::Serial));
    interrupts.set_interrupt_requested(Interrupt::Timer);
    assert_eq!(interrupts.highest_priority_triggered_interrupt(), Some(Interrupt::Timer));
    interrupts.set_interrupt_requested(Interrupt::Lcd);
    assert_eq!(interrupts.highest_priority_triggered_interrupt(), Some(Interrupt::Lcd));
    interrupts.set_interrupt_requested(Interrupt::VBlank);
    assert_eq!(interrupts.highest_priority_triggered_interrupt(), Some(Interrupt::VBlank));
    interrupts.clear_requested_interrupt(Interrupt::VBlank);
    interrupts.clear_requested_interrupt(Interrupt::Lcd);
    interrupts.clear_requested_interrupt(Interrupt::Timer);
    interrupts.clear_requested_interrupt(Interrupt::Serial);
    assert_eq!(interrupts.highest_priority_triggered_interrupt(), Some(Interrupt::Joypad));
    assert_eq!(interrupts.read_interrupt_flag(), 0xF0);
    interrupts.write_interrupt_enable(0x0F);
    assert_eq!(interrupts.highest_priority_triggered_interrupt(), None);
    interrupts.write_interrupt_flag(0xE1);
    assert_eq!(interrupts.read_interrupt_flag(), 0xE1);
    interrupts.request_optional(None);
    assert_eq!(interrupts.read_interrupt_flag(), 0xE1);
    interrupts.request_optional(Some(Interrupt::Lcd));
    assert_eq!(interrupts.read_interrupt_flag(), 0xE3);
}

#[test]
fn joypad_port_reads_the_selected_groups() {
    let mut joypad = JoypadInput::new();
    assert_eq!(joypad.read(), 0xFF);
    let mut inputs = InputState::empty();
    inputs.a_pressed = true;
    inputs.select_pressed = true;
    inputs.dpad_state = DPadState::RightDown;
    assert!(!joypad.step(inputs));
    assert_eq!(joypad.read(), 0xFF);
    joypad.write(0x10);
    assert_eq!(joypad.read(), 0xDA);
    joypad.write(0x20);
    assert_eq!(joypad.read(), 0xE6);
    joypad.write(0x00);
    assert_eq!(joypad.read(), 0xC2);
    joypad.write(0xFF);
    assert_eq!(joypad.read(), 0xFF);
    joypad.write(0x00);
    assert!(!joypad.step(inputs));
    assert!(!joypad.input_changed());
    inputs.b_pressed = true;
    assert!(joypad.step(inputs));
    assert!(joypad.input_changed());
    assert_eq!(joypad.read(), 0xC0);
    inputs.a_pressed = false;
    assert!(!joypad.step(inputs));
    joypad.update_inputs(InputState::empty());
    assert!(!joypad.input_changed());
    assert_eq!(joypad.read(), 0xCF);
}

#[test]
fn dpad_state_follows_the_buttons() {
    let cases = [
        ((false, false, false, false), DPadState::Centered),
        ((true, false, false, false), DPadState::Up),
        ((false, true, false, false), DPadState::Down),
        ((false, false, true, false), DPadState::Left),
        ((false, false, false, true), DPadState::Right),
        ((true, false, true, false), DPadState::LeftUp),
        ((true, false, false, true), DPadState::RightUp),
        ((false, true, true, false), DPadState::LeftDown),
        ((false, true, false, true), DPadState::RightDown),
        ((true, true, false, false), DPadState::Centered),
        ((false, false, true, true), DPadState::Centered),
        ((true, true, true, false), DPadState::Left),
        ((true, false, true, true), DPadState::Up),
        ((true, true, true, true), DPadState::Centered),
    ];
    for ((up, down, left, right), expected) in cases {
        let state = DPadState::from_buttons(DPadButtonState::new(up, down, left, right));
        assert!(state == expected);
    }
    assert!(DPadState::LeftUp.is_left() && DPadState::LeftUp.is_up());
    assert!(!DPadState::LeftUp.is_right() && !DPadState::LeftUp.is_down());
    assert!(DPadState::RightDown.is_right() && DPadState::RightDown.is_down());
    assert!(!DPadState::Centered.is_left() && !DPadState::Centered.is_up());
    let either = DPadButtonState::new(true, false, false, false) | DPadButtonState::new(false, false, true, false);
    assert!(either == DPadButtonState::new(true, false, true, false));
    assert!(DPadButtonState::empty() == DPadButtonState::new(false, false, false, false));
}

#[test]
fn tile_decodes_its_bit_planes() {
    let bytes: [u8; 16] = [
        0x3C, 0x7E, 0x42, 0x42, 0x42, 0x42, 0x42, 0x42, 0x7E, 0x5E, 0x7E, 0x0A, 0x7C, 0x56, 0x38, 0x7C,
    ];
    let mut tile = Tile::zeroed();
    for row in 0..8 {
        for column in 0..8 {
            assert_eq!(tile.color_at(row, column), ColorId::Zero);
        }
    }
    for (index, byte) in bytes.iter().enumerate() {
        tile.write(index, 0xFF);
        tile.write(index, *byte);
    }
    for (index, byte) in bytes.iter().enumerate() {
        assert_eq!(tile.read(index), *byte);
    }
    assert_eq!(tile.data(), &bytes);
    for row in 0..8 {
        for column in 0..8 {
            let low = (bytes[2 * row] >> (7 - column)) & 1;
            let high = (bytes[2 * row + 1] >> (7 - column)) & 1;
            let expected = match (high << 1) | low {
                0 => ColorId::Zero,
                1 => ColorId::One,
                2 => ColorId::Two,
                _ => ColorId::Three,
            };
            assert_eq!(tile.color_at(row, column), expected);
            assert_eq!(tile.color_data()[row][column], expected);
        }
    }
    assert_eq!(tile.color_at(0, 0), ColorId::Zero);
    assert_eq!(tile.color_at(0, 1), ColorId::Two);
    assert_eq!(tile.color_at(0, 2), ColorId::Three);
    assert_eq!(tile.color_at(4, 2), ColorId::One);
}

#[test]
fn video_ram_is_made_of_tiles_and_maps() {
    let mut vram = Vram::zeroed();
    assert_eq!(vram.write_u8(0x8010, 0xFF), Ok(()));
    assert_eq!(vram.write_u8(0x97FF, 0x81), Ok(()));
    assert_eq!(vram.write_u8(0x9800, 0x05), Ok(()));
    assert_eq!(vram.write_u8(0x9BFF, 0x06), Ok(()));
    assert_eq!(vram.write_u8(0x9C00, 0x07), Ok(()));
    assert_eq!(vram.write_u8(0x9FFF, 0x08), Ok(()));
    assert_eq!(vram.read_u8(0x8010), Ok(0xFF));
    assert_eq!(vram.read_u8(0x97FF), Ok(0x81));
    assert_eq!(vram.read_u8(0x9800), Ok(0x05));
    assert_eq!(vram.read_u8(0x9BFF), Ok(0x06));
    assert_eq!(vram.read_u8(0x9C00), Ok(0x07));
    assert_eq!(vram.read_u8(0x9FFF), Ok(0x08));
    assert_eq!(vram.read_u8(0x7FFF), Err(Error::MemoryReadFault(0x7FFF)));
    assert_eq!(vram.read_u8(0xA000), Err(Error::MemoryReadFault(0xA000)));
    assert_eq!(vram.write_u8(0xA000, 1), Err(Error::MemoryWriteFault(0xA000, 1)));
    assert_eq!(vram.get_tile(TileId::new(1)).read(0), 0xFF);
    assert_eq!(vram.get_tile(TileId::new(1)).color_at(0, 3), ColorId::One);
    assert_eq!(vram.get_tile_in(TileDataArea::Lower, TileId::new(1)).read(0), 0xFF);
    assert_eq!(vram.get_tile_in(TileDataArea::Upper, TileId::new(1)).read(0), 0x00);
    assert_eq!(vram.get_tile_in(TileDataArea::Upper, TileId::new(0x7F)).read(15), 0x81);
    assert_eq!(vram.get_tile_in(TileDataArea::Upper, TileId::new(0x80)).read(0), 0x00);
    assert_eq!(vram.get_map_0()[0], TileId::new(5));
    assert_eq!(vram.get_map_0()[1023], TileId::new(6));
    assert_eq!(vram.get_map_1()[0], TileId::new(7));
    assert_eq!(vram.get_map_1()[1023], TileId::new(8));
    assert_eq!(vram.map_entry(TileMapArea::Lower, 1023), TileId::new(6));
    assert_eq!(vram.map_entry(TileMapArea::Upper, 0), TileId::new(7));
    assert_eq!(TileId::new(0x35).as_double(), (TileId::new(0x34), TileId::new(0x35)));
    assert_eq!(TileId::new(0x34).as_double(), (TileId::new(0x34), TileId::new(0x35)));
    assert_eq!(u8::from(TileId::from(9)), 9);
}

#[test]
fn object_attribute_memory_keeps_every_byte() {
    let mut oam = ObjectAttributeMemory::zeroed();
    for i in 0..160u16 {
        oam.write_u8(0xFE00 + i, (i as u8).wrapping_mul(7).wrapping_add(3));
    }
    for i in 0..160u16 {
        assert_eq!(oam.read_u8(0xFE00 + i), (i as u8).wrapping_mul(7).wrapping_add(3));
    }
    oam.write_u8(0xFE04, 0x20);
    oam.write_u8(0xFE05, 0x18);
    oam.write_u8(0xFE06, 0x42);
    oam.write_u8(0xFE07, 0xBF);
    let object = oam.objects()[1];
    assert_eq!(object.y_pos(), 0x20);
    assert_eq!(object.x_pos(), 0x18);
    assert_eq!(object.tile_index(), TileId::new(0x42));
    assert!(object.attributes().priority());
    assert!(!object.attributes().y_flip());
    assert!(object.attributes().x_flip());
    assert_eq!(object.attributes().palette(), PaletteSelection::Pallete1);
    assert_eq!(u8::from(&object.attributes()), 0xB0);
    assert_eq!(oam.read_u8(0xFE07), 0xBF);
    assert_eq!(oam.object(1).y_pos(), 0x20);
    assert_eq!(oam.objects().len(), 40);
}

#[test]
fn display_registers_pack_and_unpack() {
    let mut control = LcdControl::new();
    assert_eq!(control.to_u8(), 0);
    control.set_from_u8(0x91);
    assert!(control.lcd_enabled());
    assert!(control.bg_and_window_enabled());
    assert!(!control.obj_enabled());
    assert!(!control.window_enabled());
    assert_eq!(control.bg_and_window_tile_data_area(), TileDataArea::Upper);
    assert_eq!(control.bg_tile_map_area(), TileMapArea::Lower);
    assert_eq!(control.window_tile_map_area(), TileMapArea::Lower);
    assert_eq!(control.obj_size(), ObjSize::Single);
    assert_eq!(control.to_u8(), 0x91);
    control.set_from_u8(0x6E);
    assert!(!control.lcd_enabled());
    assert!(control.obj_enabled());
    assert!(control.window_enabled());
    assert_eq!(control.bg_tile_map_area(), TileMapArea::Upper);
    assert_eq!(control.window_tile_map_area(), TileMapArea::Upper);
    assert_eq!(control.obj_size(), ObjSize::Double);
    for value in 0..=255u8 {
        control.set_from_u8(value);
        assert_eq!(control.to_u8(), value);
        assert_eq!(u8::from(Palette::from(value)), value);
    }
    let palette = Palette::from(0xE4);
    assert_eq!(palette, Palette::default());
    assert_eq!(Palette::from(0x1B).id0, Color::Black);
    assert_eq!(Palette::from(0x1B).id1, Color::DarkGray);
    assert_eq!(Palette::from(0x1B).id2, Color::LightGray);
    assert_eq!(Palette::from(0x1B).id3, Color::White);
    assert_eq!(u8::from(Color::from(2)), 2);
    assert_eq!(u8::from(TileMapArea::Upper), 1);
    assert_eq!(TileMapArea::from(0), TileMapArea::Lower);
    assert_eq!(u8::from(TileDataArea::from(1)), 1);
    assert_eq!(u8::from(ObjSize::from(1)), 1);

    let mut lcd = Lcd::new();
    assert_eq!(lcd.read_background_palette(), 0xE4);
    assert_eq!(lcd.read_status(), 0x80);
    lcd.write_lcd_y_compare(5);
    lcd.update_lcd_y(5);
    assert!(lcd.status().lyc_equals_ly());
    assert_eq!(lcd.read_status(), 0x84);
    lcd.update_lcd_y(6);
    assert!(!lcd.status().lyc_equals_ly());
    lcd.write_status(0x47);
    assert_eq!(lcd.read_status(), 0xC0);
    assert!(lcd.status().lyc_interrupt_select());
    lcd.status_mut().set_ppu_mode(PpuMode::PixelDraw);
    assert_eq!(lcd.read_status(), 0xC3);
    assert_eq!(lcd.status().ppu_mode(), PpuMode::PixelDraw);
    lcd.write_obj_palette_0(0x1B);
    lcd.write_obj_palette_1(0x27);
    assert_eq!(lcd.read_obj_palette_0(), 0x1B);
    assert_eq!(lcd.obj_palette_1(), Palette::from(0x27));
    lcd.write_lcd_y(9);
    assert_eq!(lcd.read_lcd_y(), 9);
    lcd.control_mut().set_from_u8(0x80);
    assert_eq!(lcd.read_control(), 0x80);
    assert!(lcd.control().lcd_enabled());
    assert_eq!(u8::from(PpuMode::VBlank), 1);
}

#[test]
fn pixel_processing_unit_moves_through_its_modes() {
    let mut ppu = Ppu::new();
    let mut lcd = Lcd::new();
    assert_eq!(ppu.step(&mut lcd, 100), (None, None, false));
    assert_eq!(lcd.status().ppu_mode(), PpuMode::HBlank);
    lcd.write_control(0x80);
    lcd.write_status(0x78);
    lcd.write_lcd_y_compare(1);
    assert_eq!(ppu.step(&mut lcd, 4), (None, Some(Interrupt::Lcd), false));
    assert_eq!(lcd.status().ppu_mode(), PpuMode::OAMScan);
    assert_eq!(ppu.step(&mut lcd, 75), (None, None, false));
    assert_eq!(lcd.status().ppu_mode(), PpuMode::OAMScan);
    assert_eq!(ppu.step(&mut lcd, 1), (None, None, false));
    assert_eq!(lcd.status().ppu_mode(), PpuMode::PixelDraw);
    assert_eq!(ppu.step(&mut lcd, 171), (None, None, false));
    assert_eq!(lcd.status().ppu_mode(), PpuMode::PixelDraw);
    assert_eq!(ppu.step(&mut lcd, 1), (None, Some(Interrupt::Lcd), false));
    assert_eq!(lcd.status().ppu_mode(), PpuMode::HBlank);
    assert_eq!(lcd.read_lcd_y(), 0);
    assert_eq!(ppu.step(&mut lcd, 203), (None, None, false));
    assert_eq!(lcd.status().ppu_mode(), PpuMode::HBlank);
    assert_eq!(ppu.step(&mut lcd, 1), (None, Some(Interrupt::Lcd), false));
    assert_eq!(lcd.read_lcd_y(), 1);
    assert_eq!(lcd.status().ppu_mode(), PpuMode::OAMScan);
    lcd.write_status(0x00);
    assert_eq!(ppu.step(&mut lcd, 456), (None, None, false));
    assert_eq!(lcd.read_lcd_y(), 2);
    lcd.write_lcd_y_compare(3);
    assert_eq!(ppu.step(&mut lcd, 456), (None, None, false));
    assert!(lcd.status().lyc_equals_ly());
    lcd.write_status(0x40);
    lcd.write_lcd_y_compare(4);
    assert_eq!(ppu.step(&mut lcd, 456), (None, Some(Interrupt::Lcd), false));
    assert_eq!(ppu.step(&mut lcd, 456 * 139), (None, None, false));
    assert_eq!(lcd.read_lcd_y(), 143);
    lcd.write_status(0x10);
    assert_eq!(
        ppu.step(&mut lcd, 456),
        (Some(Interrupt::VBlank), Some(Interrupt::Lcd), true)
    );
    assert_eq!(lcd.read_lcd_y(), 144);
    assert_eq!(lcd.status().ppu_mode(), PpuMode::VBlank);
    assert_eq!(ppu.step(&mut lcd, 456 * 9), (None, None, false));
    assert_eq!(lcd.read_lcd_y(), 153);
    assert_eq!(ppu.step(&mut lcd, 456), (None, None, false));
    assert_eq!(lcd.read_lcd_y(), 0);
    assert_eq!(lcd.status().ppu_mode(), PpuMode::OAMScan);
    lcd.write_control(0x00);
    assert_eq!(ppu.step(&mut lcd, 456), (None, None, false));
    assert_eq!(lcd.read_lcd_y(), 0);
    assert_eq!(lcd.status().ppu_mode(), PpuMode::HBlank);
}

fn draw_line(ppu: &mut Ppu, lcd: &mut Lcd, line: u8) {
    ppu.write_scanline(lcd, line);
}

fn line_of(ppu: &mut Ppu, lcd: &mut Lcd, line: usize) -> Vec<Shade> {
    ppu.render(lcd)[line * 160..line * 160 + 160].to_vec()
}

fn write_tile(ppu: &mut Ppu, tile: u16, low: u8, high: u8) {
    for row in 0..8u16 {
        ppu.vram_mut().write_u8(0x8000 + tile * 16 + 2 * row, low).unwrap();
        ppu.vram_mut().write_u8(0x8000 + tile * 16 + 2 * row + 1, high).unwrap();
    }
}

fn write_object(ppu: &mut Ppu, slot: u16, y: u8, x: u8, tile: u8, flags: u8) {
    ppu.oam_mut().write_u8(0xFE00 + 4 * slot, y);
    ppu.oam_mut().write_u8(0xFE00 + 4 * slot + 1, x);
    ppu.oam_mut().write_u8(0xFE00 + 4 * slot + 2, tile);
    ppu.oam_mut().write_u8(0xFE00 + 4 * slot + 3, flags);
}

#[test]
fn background_scrolls_and_wraps() {
    let mut ppu = Ppu::new();
    let mut lcd = Lcd::new();
    // Tile 1 is color 1 everywhere, tile 2 is color 3 in its left half.
    write_tile(&mut ppu, 1, 0xFF, 0x00);
    write_tile(&mut ppu, 2, 0xF0, 0xF0);
    ppu.vram_mut().write_u8(0x9800, 1).unwrap();
    ppu.vram_mut().write_u8(0x9801, 2).unwrap();
    ppu.vram_mut().write_u8(0x9800 + 31, 2).unwrap();
    lcd.write_control(0x81);
    lcd.write_background_palette(0xE4);
    draw_line(&mut ppu, &mut lcd, 0);
    let line = line_of(&mut ppu, &mut lcd, 0);
    assert_eq!(line[0], Shade::Lighter);
    assert_eq!(line[7], Shade::Lighter);
    assert_eq!(line[8], Shade::Darkest);
    assert_eq!(line[11], Shade::Darkest);
    assert_eq!(line[12], Shade::Lightest);
    assert_eq!(line[16], Shade::Lightest);

    lcd.write_scroll_x(4);
    draw_line(&mut ppu, &mut lcd, 0);
    let line = line_of(&mut ppu, &mut lcd, 0);
    assert_eq!(line[0], Shade::Lighter);
    assert_eq!(line[3], Shade::Lighter);
    assert_eq!(line[4], Shade::Darkest);
    assert_eq!(line[8], Shade::Lightest);

    lcd.write_scroll_x(248);
    draw_line(&mut ppu, &mut lcd, 0);
    let line = line_of(&mut ppu, &mut lcd, 0);
    assert_eq!(line[0], Shade::Darkest);
    assert_eq!(line[4], Shade::Lightest);
    assert_eq!(line[8], Shade::Lighter);

    lcd.write_scroll_x(0);
    lcd.write_scroll_y(8);
    draw_line(&mut ppu, &mut lcd, 0);
    assert_eq!(line_of(&mut ppu, &mut lcd, 0)[0], Shade::Lightest);
    lcd.write_scroll_y(250);
    draw_line(&mut ppu, &mut lcd, 6);
    assert_eq!(line_of(&mut ppu, &mut lcd, 6)[0], Shade::Lighter);

    lcd.write_scroll_y(0);
    lcd.write_background_palette(0x1B);
    draw_line(&mut ppu, &mut lcd, 1);
    let line = line_of(&mut ppu, &mut lcd, 1);
    assert_eq!(line[0], Shade::Darker);
    assert_eq!(line[8], Shade::Lightest);
    assert_eq!(line[12], Shade::Darkest);

    lcd.write_control(0x80);
    draw_line(&mut ppu, &mut lcd, 1);
    let line = line_of(&mut ppu, &mut lcd, 1);
    assert_eq!(line[0], Shade::Darkest);
    assert_eq!(line[8], Shade::Darkest);
}

#[test]
fn signed_tile_addressing_is_centered_at_tile_256() {
    let mut ppu = Ppu::new();
    let mut lcd = Lcd::new();
    write_tile(&mut ppu, 256, 0xFF, 0x00);
    write_tile(&mut ppu, 255, 0x00, 0xFF);
    ppu.vram_mut().write_u8(0x9C00, 0x00).unwrap();
    ppu.vram_mut().write_u8(0x9C01, 0xFF).unwrap();
    lcd.write_control(0x80 | 0x10 | 0x08 | 0x01);
    draw_line(&mut ppu, &mut lcd, 0);
    let line = line_of(&mut ppu, &mut lcd, 0);
    assert_eq!(line[0], Shade::Lighter);
    assert_eq!(line[8], Shade::Darker);
}

#[test]
fn window_covers_the_background() {
    let mut ppu = Ppu::new();
    let mut lcd = Lcd::new();
    write_tile(&mut ppu, 1, 0xFF, 0xFF);
    ppu.vram_mut().write_u8(0x9C00, 1).unwrap();
    lcd.write_control(0x80 | 0x40 | 0x20 | 0x01);
    lcd.write_window_x(7 + 20);
    lcd.write_window_y(2);
    draw_line(&mut ppu, &mut lcd, 1);
    let line = line_of(&mut ppu, &mut lcd, 1);
    assert_eq!(line[20], Shade::Lightest);
    draw_line(&mut ppu, &mut lcd, 2);
    let line = line_of(&mut ppu, &mut lcd, 2);
    assert_eq!(line[19], Shade::Lightest);
    assert_eq!(line[20], Shade::Darkest);
    assert_eq!(line[27], Shade::Darkest);
    assert_eq!(line[28], Shade::Lightest);
    lcd.write_window_x(167);
    draw_line(&mut ppu, &mut lcd, 2);
    assert_eq!(line_of(&mut ppu, &mut lcd, 2)[159], Shade::Lightest);
    lcd.write_window_x(3);
    draw_line(&mut ppu, &mut lcd, 2);
    let line = line_of(&mut ppu, &mut lcd, 2);
    assert_eq!(line[0], Shade::Darkest);
    assert_eq!(line[3], Shade::Darkest);
    assert_eq!(line[4], Shade::Lightest);
}

#[test]
fn window_counts_its_own_lines() {
    let mut ppu = Ppu::new();
    let mut lcd = Lcd::new();
    // Row 0 of tile 1 is color 3, its other rows are color 0.
    ppu.vram_mut().write_u8(0x8010, 0xFF).unwrap();
    ppu.vram_mut().write_u8(0x8011, 0xFF).unwrap();
    ppu.vram_mut().write_u8(0x9C00, 1).unwrap();
    lcd.write_control(0x80 | 0x40 | 0x20 | 0x01);
    lcd.write_window_x(7);
    lcd.write_window_y(100);
    // The first line of the window is drawn on line 100 of the screen.
    assert_eq!(ppu.step(&mut lcd, 456 * 100 + 100).2, false);
    assert_eq!(ppu.step(&mut lcd, 152).2, false);
    assert_eq!(lcd.read_lcd_y(), 100);
    assert_eq!(line_of(&mut ppu, &mut lcd, 100)[0], Shade::Darkest);
    ppu.step(&mut lcd, 300);
    ppu.step(&mut lcd, 156);
    assert_eq!(lcd.read_lcd_y(), 101);
    assert_eq!(line_of(&mut ppu, &mut lcd, 101)[0], Shade::Lightest);
    // Drawn without the window, line 101 of the background is blank as well,
    // but had the window shown its first line again it would be dark.
    assert_eq!(line_of(&mut ppu, &mut lcd, 101)[7], Shade::Lightest);
}

#[test]
fn objects_are_drawn_over_the_background() {
    let mut ppu = Ppu::new();
    let mut lcd = Lcd::new();
    // Tile 1: the left half is color 1. Tile 2: color 2 everywhere.
    write_tile(&mut ppu, 1, 0xF0, 0x00);
    write_tile(&mut ppu, 2, 0x00, 0xFF);
    lcd.write_control(0x80 | 0x02 | 0x01);
    lcd.write_obj_palette_0(0xE4);
    lcd.write_obj_palette_1(0x1B);
    write_object(&mut ppu, 0, 16, 8, 1, 0x00);
    write_object(&mut ppu, 1, 16, 8 + 16, 1, 0x20);
    write_object(&mut ppu, 2, 16, 8 + 32, 1, 0x10);
    write_object(&mut ppu, 3, 16 + 8, 8, 1, 0x00);
    draw_line(&mut ppu, &mut lcd, 0);
    let line = line_of(&mut ppu, &mut lcd, 0);
    assert_eq!(line[0], Shade::Lighter);
    assert_eq!(line[3], Shade::Lighter);
    assert_eq!(line[4], Shade::Lightest);
    assert_eq!(line[16], Shade::Lightest);
    assert_eq!(line[19], Shade::Lightest);
    assert_eq!(line[20], Shade::Lighter);
    assert_eq!(line[23], Shade::Lighter);
    assert_eq!(line[32], Shade::Darker);
    assert_eq!(line[36], Shade::Lightest);
    draw_line(&mut ppu, &mut lcd, 7);
    assert_eq!(line_of(&mut ppu, &mut lcd, 7)[0], Shade::Lighter);
    draw_line(&mut ppu, &mut lcd, 8);
    assert_eq!(line_of(&mut ppu, &mut lcd, 8)[0], Shade::Lighter);
    draw_line(&mut ppu, &mut lcd, 16);
    assert_eq!(line_of(&mut ppu, &mut lcd, 16)[0], Shade::Lightest);

    // With the objects switched off only the background is left.
    lcd.write_control(0x80 | 0x01);
    draw_line(&mut ppu, &mut lcd, 0);
    assert_eq!(line_of(&mut ppu, &mut lcd, 0)[0], Shade::Lightest);
}

#[test]
fn objects_at_the_edges_are_clipped() {
    let mut ppu = Ppu::new();
    let mut lcd = Lcd::new();
    write_tile(&mut ppu, 1, 0xFF, 0xFF);
    lcd.write_control(0x80 | 0x02 | 0x01);
    write_object(&mut ppu, 0, 16 - 4, 4, 1, 0x00);
    write_object(&mut ppu, 1, 16, 8 + 156, 1, 0x00);
    write_object(&mut ppu, 2, 16, 0, 1, 0x00);
    write_object(&mut ppu, 3, 16, 168, 1, 0x00);
    draw_line(&mut ppu, &mut lcd, 0);
    let line = line_of(&mut ppu, &mut lcd, 0);
    assert_eq!(line[0], Shade::Darkest);
    assert_eq!(line[3], Shade::Darkest);
    assert_eq!(line[4], Shade::Lightest);
    assert_eq!(line[155], Shade::Lightest);
    assert_eq!(line[156], Shade::Darkest);
    assert_eq!(line[159], Shade::Darkest);
    draw_line(&mut ppu, &mut lcd, 3);
    assert_eq!(line_of(&mut ppu, &mut lcd, 3)[0], Shade::Darkest);
    draw_line(&mut ppu, &mut lcd, 4);
    assert_eq!(line_of(&mut ppu, &mut lcd, 4)[0], Shade::Lightest);
    assert_eq!(line_of(&mut ppu, &mut lcd, 1)[0], Shade::Lightest);
}

#[test]
fn object_priorities() {
    let mut ppu = Ppu::new();
    let mut lcd = Lcd::new();
    write_tile(&mut ppu, 1, 0xFF, 0x00);
    write_tile(&mut ppu, 2, 0x00, 0xFF);
    write_tile(&mut ppu, 3, 0xFF, 0xFF);
    lcd.write_control(0x80 | 0x02 | 0x01);
    lcd.write_obj_palette_0(0xE4);
    // Of two objects at one column the one in the lower slot is in front.
    write_object(&mut ppu, 5, 16, 8, 1, 0x00);
    write_object(&mut ppu, 6, 16, 8, 2, 0x00);
    // The object further to the left is in front, whatever its slot.
    write_object(&mut ppu, 7, 16, 8 + 20, 1, 0x00);
    write_object(&mut ppu, 8, 16, 8 + 16, 2, 0x00);
    draw_line(&mut ppu, &mut lcd, 0);
    let line = line_of(&mut ppu, &mut lcd, 0);
    assert_eq!(line[0], Shade::Lighter);
    assert_eq!(line[16], Shade::Darker);
    assert_eq!(line[20], Shade::Darker);
    assert_eq!(line[23], Shade::Darker);
    assert_eq!(line[24], Shade::Lighter);
    assert_eq!(line[27], Shade::Lighter);

    // An object that yields to the background shows only over color 0.
    let mut ppu = Ppu::new();
    write_tile(&mut ppu, 1, 0xFF, 0x00);
    write_tile(&mut ppu, 3, 0xF0, 0xF0);
    ppu.vram_mut().write_u8(0x9800, 3).unwrap();
    write_object(&mut ppu, 0, 16, 8, 1, 0x80);
    draw_line(&mut ppu, &mut lcd, 0);
    let line = line_of(&mut ppu, &mut lcd, 0);
    assert_eq!(line[0], Shade::Darkest);
    assert_eq!(line[3], Shade::Darkest);
    assert_eq!(line[4], Shade::Lighter);
    assert_eq!(line[7], Shade::Lighter);
}

#[test]
fn no_more_than_ten_objects_on_a_line() {
    let mut ppu = Ppu::new();
    let mut lcd = Lcd::new();
    write_tile(&mut ppu, 1, 0xFF, 0xFF);
    lcd.write_control(0x80 | 0x02 | 0x01);
    for slot in 0..12u16 {
        write_object(&mut ppu, slot, 16, 8 + 8 * (11 - slot as u8), 1, 0x00);
    }
    draw_line(&mut ppu, &mut lcd, 0);
    let line = line_of(&mut ppu, &mut lcd, 0);
    assert_eq!(line[0], Shade::Lightest);
    assert_eq!(line[8], Shade::Lightest);
    for column in 16..96 {
        assert_eq!(line[column], Shade::Darkest);
    }
    assert_eq!(line[96], Shade::Lightest);
}

#[test]
fn tall_objects_and_flips() {
    let mut ppu = Ppu::new();
    let mut lcd = Lcd::new();
    // Tile 4: only its first row is set, to color 1 in its left half.
    ppu.vram_mut().write_u8(0x8040, 0xF0).unwrap();
    // Tile 5: only its last row is set, to color 2.
    ppu.vram_mut().write_u8(0x805F, 0xFF).unwrap();
    lcd.write_control(0x80 | 0x04 | 0x02 | 0x01);
    lcd.write_obj_palette_0(0xE4);
    write_object(&mut ppu, 0, 16, 8, 5, 0x00);
    write_object(&mut ppu, 1, 16, 8 + 16, 4, 0x40);
    write_object(&mut ppu, 2, 16, 8 + 32, 4, 0x60);
    for line in [0u8, 1, 14, 15] {
        draw_line(&mut ppu, &mut lcd, line);
    }
    let first = line_of(&mut ppu, &mut lcd, 0);
    let second = line_of(&mut ppu, &mut lcd, 1);
    let before_last = line_of(&mut ppu, &mut lcd, 14);
    let last = line_of(&mut ppu, &mut lcd, 15);
    assert_eq!(first[0], Shade::Lighter);
    assert_eq!(first[4], Shade::Lightest);
    assert_eq!(second[0], Shade::Lightest);
    assert_eq!(before_last[0], Shade::Lightest);
    assert_eq!(last[0], Shade::Darker);
    assert_eq!(first[16], Shade::Darker);
    assert_eq!(last[16], Shade::Lighter);
    assert_eq!(last[20], Shade::Lightest);
    assert_eq!(first[32], Shade::Darker);
    assert_eq!(last[32], Shade::Lightest);
    assert_eq!(last[36], Shade::Lighter);
}

#[test]
fn shades_have_their_colors() {
    assert_eq!(Shade::Lightest.rgb(), (224, 248, 208));
    assert_eq!(Shade::Lighter.rgb(), (136, 192, 112));
    assert_eq!(Shade::Darker.rgb(), (52, 104, 86));
    assert_eq!(Shade::Darkest.rgb(), (8, 24, 32));
}

#[test]
fn boot_rom_reader_takes_256_bytes() {
    assert_eq!(BootRomReader::read(&[0u8; 255]).err(), Some(Error::BootRomReadFailure));
    assert_eq!(BootRomReader::read(&[]).err(), Some(Error::BootRomReadFailure));
    let mut image = vec![0u8; 300];
    image[0] = 0x31;
    image[255] = 0x50;
    image[256] = 0x99;
    let rom = BootRomReader::read(&image).unwrap();
    assert_eq!(rom.contents()[0], 0x31);
    assert_eq!(rom.contents()[255], 0x50);
    assert_eq!(rom.contents().len(), 256);
}

#[test]
fn cartridge_header_is_read() {
    let rom = rom_image();
    let cartridge = Cartridge::read(&rom).unwrap();
    let header = cartridge.header();
    assert_eq!(header.title(), "TETRIS");
    assert_eq!(header.manufacturer_code().code(), "ABCD");
    assert_eq!(header.cgb_flag(), CgbFlag::BackwardsCompatible);
    assert_eq!(header.new_licensee_code(), NewLicenseeCode::NintendoResearchAndDevelopment);
    assert_eq!(header.sgb_flag(), SgbFlag::Yes);
    assert_eq!(header.cartridge_type(), CartridgeType::RomOnly);
    assert_eq!(header.rom_size(), RomSize::Size32KiB);
    assert_eq!(header.ram_size(), RamSize::NoRam);
    assert_eq!(header.destination_code(), DestinationCode::OverseasOnly);
    assert_eq!(header.old_licensee_code(), OldLicenseeCode::UseNewLicenseeCode);
    assert_eq!(header.licensee(), Licensee::New(NewLicenseeCode::NintendoResearchAndDevelopment));
    assert_eq!(header.licensee().name(), Some("Nintendo Research & Development 1"));
    assert_eq!(header.version_number(), 0x02);
    assert_eq!(header.read_header_checksum(), 0x5A);
    assert_eq!(header.read_global_checksum(), 0x1234);
    // The header bytes add up to 0x3FF, so the checksum is -0x3FF - 25 modulo 256.
    assert_eq!(header.computed_header_checksum(), 0xE8);
    assert!(!header.header_checksum_valid());
    // All bytes but the two of the checksum add up to 0x3FF + 0x5A.
    assert_eq!(header.computed_global_checksum(), 0x0459);
    assert!(!header.global_checksum_valid());
    assert_eq!(cartridge.bank0()[0x0134], b'T');
    assert_eq!(cartridge.bank1().len(), 16 * 1024);

    let mut rom = rom_image();
    rom[0x014D] = 0xE8;
    rom[0x014E] = 0x04;
    rom[0x014F] = 0xE7;
    rom[0x7FFF] = 0x01;
    let cartridge = Cartridge::read(&rom).unwrap();
    assert!(cartridge.header().header_checksum_valid());
    assert_eq!(cartridge.header().computed_global_checksum(), 0x04E7 + 1);
    assert!(!cartridge.header().global_checksum_valid());
    assert_eq!(cartridge.bank1()[0x3FFF], 0x01);
}

#[test]
fn header_reader_fields() {
    let rom = rom_image();
    let (bank0, rest) = rom.split_at(16 * 1024);
    assert_eq!(CartridgeHeaderReader::read_title(bank0), Ok("TETRIS".to_string()));
    assert_eq!(CartridgeHeaderReader::read_rom_version_number(bank0), 2);
    assert_eq!(CartridgeHeaderReader::read_header_checksum(bank0), 0x5A);
    assert_eq!(CartridgeHeaderReader::read_global_checksum(bank0), 0x1234);
    assert_eq!(CartridgeHeaderReader::calculate_header_checksum(bank0), 0xE8);
    assert_eq!(CartridgeHeaderReader::calculate_global_checksum(bank0, rest), 0x0459);
    assert_eq!(CartridgeHeaderReader::calculate_global_checksum(bank0, &[0xFF, 0xFF]), 0x0459 + 0x1FE);
    assert_eq!(CartridgeHeaderReader::read_cgb_flag(bank0), CgbFlag::BackwardsCompatible);
    assert_eq!(CartridgeHeaderReader::read_old_licensee_code(bank0), OldLicenseeCode::UseNewLicenseeCode);
    let header = CartridgeHeaderReader::read(bank0, rest).unwrap();
    assert_eq!(header.title(), "TETRIS");
    let mut full = rom_image();
    full[0x0134..0x0143].copy_from_slice(b"FIFTEEN LETTERS");
    assert_eq!(CartridgeHeaderReader::read_title(&full[..16 * 1024]), Ok("FIFTEEN LETTERS".to_string()));
    let zeros = vec![0u8; 16 * 1024];
    assert_eq!(CartridgeHeaderReader::read_title(&zeros), Ok(String::new()));
    assert_eq!(CartridgeHeaderReader::calculate_header_checksum(&zeros), 0xE7);
    assert_eq!(CartridgeHeaderReader::calculate_global_checksum(&zeros, &[]), 0);
}

#[test]
fn cartridge_errors() {
    assert!(matches!(Cartridge::read(&[]), Err(CartridgeError::FileSizeError)));
    assert!(matches!(Cartridge::read(&vec![0u8; 16 * 1024 - 1]), Err(CartridgeError::FileSizeError)));
    assert!(matches!(Cartridge::read(&vec![0u8; 16 * 1024]), Err(CartridgeError::FileSizeError)));
    assert!(matches!(Cartridge::read(&vec![0u8; 32 * 1024 + 1]), Err(CartridgeError::FileSizeError)));
    assert!(Cartridge::read(&vec![0u8; 48 * 1024]).is_ok());
    let mut rom = rom_image();
    rom[0x0136] = 0x80;
    assert!(matches!(Cartridge::read(&rom), Err(CartridgeError::InvalidCartridgeTitle)));
    let mut rom = rom_image();
    rom[0x0147] = 0x04;
    assert!(matches!(Cartridge::read(&rom), Err(CartridgeError::InvalidCartridgeType)));
    let mut rom = rom_image();
    rom[0x0148] = 0x09;
    assert!(matches!(Cartridge::read(&rom), Err(CartridgeError::InvalidCartridgeRomSize)));
    let mut rom = rom_image();
    rom[0x0149] = 0x01;
    assert!(matches!(Cartridge::read(&rom), Err(CartridgeError::InvalidCartridgeRamSize)));
    let mut rom = rom_image();
    rom[0x014A] = 0x02;
    assert!(matches!(Cartridge::read(&rom), Err(CartridgeError::InvalidCartridgeDestinationCode)));
    let mut rom = rom_image();
    rom[0x0147] = 0x01;
    assert!(matches!(Cartridge::read(&rom), Err(CartridgeError::UnsupportedCartridgeType)));
    let mut rom = rom_image();
    rom[0x0147] = 0x04;
    rom[0x0148] = 0x09;
    assert!(matches!(Cartridge::read(&rom), Err(CartridgeError::InvalidCartridgeType)));
}

#[test]
fn header_tables() {
    assert_eq!(CartridgeType::try_from(0x00), Ok(CartridgeType::RomOnly));
    assert_eq!(CartridgeType::try_from(0x13), Ok(CartridgeType::Mbc3RamBattery));
    assert_eq!(CartridgeType::try_from(0xFF), Ok(CartridgeType::Huc1RamBattery));
    assert_eq!(CartridgeType::try_from(0x07), Err(CartridgeError::InvalidCartridgeType));
    assert_eq!(RomSize::try_from(0x08), Ok(RomSize::Size8MiB));
    assert_eq!(RomSize::try_from(0x09), Err(CartridgeError::InvalidCartridgeRomSize));
    assert_eq!(RamSize::try_from(0x04), Ok(RamSize::Size128KiB));
    assert_eq!(RamSize::try_from(0x05), Ok(RamSize::Size64KiB));
    assert_eq!(RamSize::try_from(0x01), Err(CartridgeError::InvalidCartridgeRamSize));
    assert_eq!(DestinationCode::try_from(0x00), Ok(DestinationCode::Japan));
    assert_eq!(DestinationCode::try_from(0x02), Err(CartridgeError::InvalidCartridgeDestinationCode));
    assert_eq!(CgbFlag::from(0xC0), CgbFlag::CgbOnly);
    assert_eq!(CgbFlag::from(0x00), CgbFlag::No);
    assert_eq!(SgbFlag::from(0x03), SgbFlag::Yes);
    assert_eq!(SgbFlag::from(0x00), SgbFlag::No);
    assert_eq!(NewLicenseeCode::from(('0', '0')), NewLicenseeCode::NoLicensee);
    assert_eq!(NewLicenseeCode::from(('6', '9')), NewLicenseeCode::ElectronicArts);
    assert_eq!(NewLicenseeCode::from(('9', 'H')), NewLicenseeCode::BottomUp);
    assert_eq!(NewLicenseeCode::from(('Z', 'Z')), NewLicenseeCode::Unknown('Z', 'Z'));
    assert_eq!(NewLicenseeCode::BottomUp.name(), Some("Bottom Up"));
    assert_eq!(NewLicenseeCode::Unknown('Z', 'Z').name(), None);
    assert_eq!(OldLicenseeCode::from(0x00), OldLicenseeCode::NoLicensee);
    assert_eq!(OldLicenseeCode::from(0x33), OldLicenseeCode::UseNewLicenseeCode);
    assert_eq!(OldLicenseeCode::from(0x99), OldLicenseeCode::Arc);
    assert_eq!(OldLicenseeCode::from(0x02), OldLicenseeCode::Unknown(0x02));
    assert_eq!(OldLicenseeCode::Arc.name(), Some("Arc"));
    assert_eq!(OldLicenseeCode::Unknown(0x02).name(), None);
    assert_eq!(Licensee::Old(OldLicenseeCode::Capcom).name(), Some("Capcom"));
}

#[test]
fn empty_cartridge() {
    let cartridge = Cartridge::empty();
    assert_eq!(cartridge.header().title(), "EMPTY");
    assert_eq!(cartridge.header().manufacturer_code().code(), "\0\0\0\0");
    assert_eq!(cartridge.header().cartridge_type(), CartridgeType::RomOnly);
    assert!(cartridge.bank0().iter().all(|byte| *byte == 0));
    assert!(cartridge.bank1().iter().all(|byte| *byte == 0));
    assert!(cartridge.header().header_checksum_valid());
}

fn decode(bytes: &[u8]) -> Result<Instruction, Error> {
    let bus = Bus::new(boot_with(bytes), Cartridge::empty());
    Decoder::new().decode_one(&ExecutionState::new(), &bus)
}

#[test]
fn instructions_are_decoded() {
    assert_eq!(decode(&[0x00]), Ok(Instruction::Nop));
    assert_eq!(decode(&[0x01, 0x34, 0x12]), Ok(Instruction::LdReg16(Register16::Bc, Imm16(0x1234))));
    assert_eq!(decode(&[0x31, 0xFE, 0xFF]), Ok(Instruction::LdReg16(Register16::Sp, Imm16(0xFFFE))));
    assert_eq!(decode(&[0x22]), Ok(Instruction::LdMemA(Register16Memory::Hli)));
    assert_eq!(decode(&[0x3A]), Ok(Instruction::LdAMem(Register16Memory::Hld)));
    assert_eq!(decode(&[0x08, 0x10, 0xC0]), Ok(Instruction::LdImm16Sp(Imm16(0xC010))));
    assert_eq!(decode(&[0x13]), Ok(Instruction::Inc16(Register16::De)));
    assert_eq!(decode(&[0x2B]), Ok(Instruction::Dec16(Register16::Hl)));
    assert_eq!(decode(&[0x09]), Ok(Instruction::AddHl(Register16::Bc)));
    assert_eq!(decode(&[0x39]), Ok(Instruction::AddHl(Register16::Sp)));
    assert_eq!(decode(&[0x34]), Ok(Instruction::Inc8(Register8::HlIndirect)));
    assert_eq!(decode(&[0x3D]), Ok(Instruction::Dec8(Register8::A)));
    assert_eq!(decode(&[0x06, 0x42]), Ok(Instruction::LdReg8Imm(Register8::B, Imm8(0x42))));
    assert_eq!(decode(&[0x07]), Ok(Instruction::Rlca));
    assert_eq!(decode(&[0x0F]), Ok(Instruction::Rrca));
    assert_eq!(decode(&[0x17]), Ok(Instruction::Rla));
    assert_eq!(decode(&[0x1F]), Ok(Instruction::Rra));
    assert_eq!(decode(&[0x27]), Ok(Instruction::Daa));
    assert_eq!(decode(&[0x2F]), Ok(Instruction::Cpl));
    assert_eq!(decode(&[0x37]), Ok(Instruction::Scf));
    assert_eq!(decode(&[0x3F]), Ok(Instruction::Ccf));
    assert_eq!(decode(&[0x18, 0xFE]), Ok(Instruction::JrImm(Imm8(0xFE))));
    assert_eq!(decode(&[0x20, 0x05]), Ok(Instruction::JrCond(Condition::Nz, Imm8(0x05))));
    assert_eq!(decode(&[0x38, 0x05]), Ok(Instruction::JrCond(Condition::C, Imm8(0x05))));
    assert_eq!(decode(&[0x10]), Ok(Instruction::Stop));
    assert_eq!(decode(&[0x41]), Ok(Instruction::LdReg8Reg8(Register8::B, Register8::C)));
    assert_eq!(decode(&[0x7E]), Ok(Instruction::LdReg8Reg8(Register8::A, Register8::HlIndirect)));
    assert_eq!(decode(&[0x76]), Ok(Instruction::Halt));
    assert_eq!(decode(&[0x80]), Ok(Instruction::AddReg8(Register8::B)));
    assert_eq!(decode(&[0x8F]), Ok(Instruction::AdcReg8(Register8::A)));
    assert_eq!(decode(&[0x96]), Ok(Instruction::SubReg8(Register8::HlIndirect)));
    assert_eq!(decode(&[0x9A]), Ok(Instruction::SbcReg8(Register8::D)));
    assert_eq!(decode(&[0xA3]), Ok(Instruction::AndReg8(Register8::E)));
    assert_eq!(decode(&[0xAC]), Ok(Instruction::XorReg8(Register8::H)));
    assert_eq!(decode(&[0xB5]), Ok(Instruction::OrReg8(Register8::L)));
    assert_eq!(decode(&[0xB9]), Ok(Instruction::CpReg8(Register8::C)));
    assert_eq!(decode(&[0xC6, 1]), Ok(Instruction::AddImm8(Imm8(1))));
    assert_eq!(decode(&[0xCE, 2]), Ok(Instruction::AdcImm8(Imm8(2))));
    assert_eq!(decode(&[0xD6, 3]), Ok(Instruction::SubImm8(Imm8(3))));
    assert_eq!(decode(&[0xDE, 4]), Ok(Instruction::SbcImm8(Imm8(4))));
    assert_eq!(decode(&[0xE6, 5]), Ok(Instruction::AndImm8(Imm8(5))));
    assert_eq!(decode(&[0xEE, 6]), Ok(Instruction::XorImm8(Imm8(6))));
    assert_eq!(decode(&[0xF6, 7]), Ok(Instruction::OrImm8(Imm8(7))));
    assert_eq!(decode(&[0xFE, 8]), Ok(Instruction::CpImm8(Imm8(8))));
    assert_eq!(decode(&[0xC8]), Ok(Instruction::RetCond(Condition::Z)));
    assert_eq!(decode(&[0xC9]), Ok(Instruction::Ret));
    assert_eq!(decode(&[0xD9]), Ok(Instruction::Reti));
    assert_eq!(decode(&[0xD2, 0x00, 0x80]), Ok(Instruction::JpCond(Condition::Nc, Imm16(0x8000))));
    assert_eq!(decode(&[0xC3, 0x50, 0x01]), Ok(Instruction::JpImm(Imm16(0x0150))));
    assert_eq!(decode(&[0xE9]), Ok(Instruction::JpHl));
    assert_eq!(decode(&[0xCC, 0x00, 0x40]), Ok(Instruction::CallCond(Condition::Z, Imm16(0x4000))));
    assert_eq!(decode(&[0xCD, 0x00, 0x40]), Ok(Instruction::CallImm(Imm16(0x4000))));
    assert_eq!(decode(&[0xC7]), Ok(Instruction::Rst(Target(0))));
    assert_eq!(decode(&[0xFF]), Ok(Instruction::Rst(Target(7))));
    assert_eq!(decode(&[0xF1]), Ok(Instruction::Pop(Register16Stack::Af)));
    assert_eq!(decode(&[0xC5]), Ok(Instruction::Push(Register16Stack::Bc)));
    assert_eq!(decode(&[0xE2]), Ok(Instruction::LdhMemA));
    assert_eq!(decode(&[0xE0, 0x47]), Ok(Instruction::LdhImmA(Imm8(0x47))));
    assert_eq!(decode(&[0xEA, 0x00, 0xC0]), Ok(Instruction::LdImmA(Imm16(0xC000))));
    assert_eq!(decode(&[0xF2]), Ok(Instruction::LdhAMem));
    assert_eq!(decode(&[0xF0, 0x44]), Ok(Instruction::LdhAImm(Imm8(0x44))));
    assert_eq!(decode(&[0xFA, 0x00, 0xC0]), Ok(Instruction::LdAImm(Imm16(0xC000))));
    assert_eq!(decode(&[0xE8, 0xFF]), Ok(Instruction::AddSp(Imm8(0xFF))));
    assert_eq!(decode(&[0xF8, 0x02]), Ok(Instruction::LdHlSpImm8(Imm8(0x02))));
    assert_eq!(decode(&[0xF9]), Ok(Instruction::LdSpHl));
    assert_eq!(decode(&[0xF3]), Ok(Instruction::Di));
    assert_eq!(decode(&[0xFB]), Ok(Instruction::Ei));
    assert_eq!(decode(&[0xCB, 0x00]), Ok(Instruction::Rlc(Register8::B)));
    assert_eq!(decode(&[0xCB, 0x0E]), Ok(Instruction::Rrc(Register8::HlIndirect)));
    assert_eq!(decode(&[0xCB, 0x11]), Ok(Instruction::Rl(Register8::C)));
    assert_eq!(decode(&[0xCB, 0x1A]), Ok(Instruction::Rr(Register8::D)));
    assert_eq!(decode(&[0xCB, 0x23]), Ok(Instruction::Sla(Register8::E)));
    assert_eq!(decode(&[0xCB, 0x2C]), Ok(Instruction::Sra(Register8::H)));
    assert_eq!(decode(&[0xCB, 0x37]), Ok(Instruction::Swap(Register8::A)));
    assert_eq!(decode(&[0xCB, 0x3D]), Ok(Instruction::Srl(Register8::L)));
    assert_eq!(decode(&[0xCB, 0x7C]), Ok(Instruction::Bit(BitIndex(7), Register8::H)));
    assert_eq!(decode(&[0xCB, 0x86]), Ok(Instruction::Res(BitIndex(0), Register8::HlIndirect)));
    assert_eq!(decode(&[0xCB, 0xFF]), Ok(Instruction::SetBit(BitIndex(7), Register8::A)));
    for byte in [0xD3u8, 0xDB, 0xDD, 0xE3, 0xE4, 0xEB, 0xEC, 0xED, 0xF4, 0xFC, 0xFD] {
        assert_eq!(decode(&[byte]), Err(Error::InvalidInstruction(0, byte)));
        assert_eq!(Opcode::try_from(byte), Err(()));
    }
    let mut defined = 0;
    for byte in 0..=255u8 {
        if Opcode::try_from(byte).is_ok() {
            defined += 1;
        }
        assert!(Prefixed::try_from(byte).is_ok());
    }
    assert_eq!(defined, 245);
    assert_eq!(Opcode::try_from(0xCB), Ok(Opcode::Prefix));
    assert_eq!(Prefixed::try_from(0x40), Ok(Prefixed::Bit));
    assert_eq!(Prefixed::try_from(0xC0), Ok(Prefixed::SetBit));
}

#[test]
fn decoder_reads_operand_fields() {
    let decoder = Decoder::new();
    assert_eq!(decoder.read_r16(0x21, 4), Register16::Hl);
    assert_eq!(decoder.read_r16_stack(0xF5), Register16Stack::Af);
    assert_eq!(decoder.read_r16_mem(0x32, 4), Register16Memory::Hld);
    assert_eq!(decoder.read_r8(0x70, 3), Register8::HlIndirect);
    assert_eq!(decoder.read_r8(0x47, 0), Register8::A);
    assert_eq!(decoder.read_bit_index(0x5F), BitIndex(3));
    assert_eq!(decoder.read_tgt(0xEF), Target(5));
    assert_eq!(decoder.read_cond(0x30), Condition::Nc);
    assert_eq!(u8::from(BitIndex::from(3)), 3);
    assert_eq!(u8::from(Target::from(5)), 5);
    assert_eq!(i8::from(Imm8::from(0xFE)), -2);
    assert_eq!(i8::from(Imm8::from(0x7F)), 127);
    assert_eq!(u16::from(Imm8::from(0xFE)), 0x00FE);
    assert_eq!(u8::from(Imm8::from(0xFE)), 0xFE);
    assert_eq!(u16::from(Imm16::from(0xBEEF)), 0xBEEF);
}

#[test]
fn instruction_lengths_and_cycles() {
    let cases = [
        (Instruction::Nop, 1, 4),
        (Instruction::LdReg16(Register16::Bc, Imm16(0)), 3, 12),
        (Instruction::LdMemA(Register16Memory::Bc), 1, 8),
        (Instruction::LdImm16Sp(Imm16(0)), 3, 20),
        (Instruction::Inc16(Register16::Bc), 1, 8),
        (Instruction::AddHl(Register16::Bc), 1, 8),
        (Instruction::Inc8(Register8::B), 1, 4),
        (Instruction::Inc8(Register8::HlIndirect), 1, 12),
        (Instruction::LdReg8Imm(Register8::B, Imm8(0)), 2, 8),
        (Instruction::LdReg8Imm(Register8::HlIndirect, Imm8(0)), 2, 12),
        (Instruction::Rlca, 1, 4),
        (Instruction::JrImm(Imm8(0)), 2, 12),
        (Instruction::JrCond(Condition::Z, Imm8(0)), 2, 8),
        (Instruction::LdReg8Reg8(Register8::B, Register8::C), 1, 4),
        (Instruction::LdReg8Reg8(Register8::B, Register8::HlIndirect), 1, 8),
        (Instruction::LdReg8Reg8(Register8::HlIndirect, Register8::B), 1, 8),
        (Instruction::Halt, 1, 4),
        (Instruction::AddReg8(Register8::B), 1, 4),
        (Instruction::CpReg8(Register8::HlIndirect), 1, 8),
        (Instruction::AddImm8(Imm8(0)), 2, 8),
        (Instruction::RetCond(Condition::Z), 1, 8),
        (Instruction::Ret, 1, 16),
        (Instruction::Reti, 1, 16),
        (Instruction::JpCond(Condition::Z, Imm16(0)), 3, 12),
        (Instruction::JpImm(Imm16(0)), 3, 16),
        (Instruction::JpHl, 1, 4),
        (Instruction::CallCond(Condition::Z, Imm16(0)), 3, 12),
        (Instruction::CallImm(Imm16(0)), 3, 24),
        (Instruction::Rst(Target(0)), 1, 16),
        (Instruction::Pop(Register16Stack::Bc), 1, 12),
        (Instruction::Push(Register16Stack::Bc), 1, 16),
        (Instruction::LdhMemA, 1, 8),
        (Instruction::LdhImmA(Imm8(0)), 2, 12),
        (Instruction::LdImmA(Imm16(0)), 3, 16),
        (Instruction::AddSp(Imm8(0)), 2, 16),
        (Instruction::LdHlSpImm8(Imm8(0)), 2, 12),
        (Instruction::LdSpHl, 1, 8),
        (Instruction::Ei, 1, 4),
        (Instruction::Rlc(Register8::B), 2, 8),
        (Instruction::Rlc(Register8::HlIndirect), 2, 16),
        (Instruction::Bit(BitIndex(0), Register8::B), 2, 8),
        (Instruction::Bit(BitIndex(0), Register8::HlIndirect), 2, 12),
        (Instruction::Res(BitIndex(0), Register8::HlIndirect), 2, 16),
        (Instruction::SetBit(BitIndex(0), Register8::A), 2, 8),
        (Instruction::Stop, 1, 4),
    ];
    for (instruction, length, cycles) in cases {
        assert_eq!(instruction.length(), length);
        assert_eq!(instruction.base_num_cycles(), cycles);
    }
}

#[test]
fn registers_and_flags_are_shown_as_text() {
    assert_eq!(Flags::new(true, false, true, false).to_string(), "-n-c");
    assert_eq!(Flags::zeros().to_string(), "----");
    assert_eq!(Flags::new(true, true, true, true).to_string(), "znhc");
    let mut state = ExecutionState::new();
    assert_eq!(state.to_string(), "IP: 0000 SP: ffff BC: 0000 DE: 0000 HL: 0000 AF: 0000 ----");
    state.set_instruction_pointer(0x01AB);
    state.set_reg_bc(0x1234);
    state.set_reg_de(0xCDEF);
    state.set_reg_hl(0x0A0B);
    state.set_reg_af(0x9F80);
    assert_eq!(state.to_string(), "IP: 01ab SP: ffff BC: 1234 DE: cdef HL: 0a0b AF: 9f80 z---");
}

#[test]
fn licensees_are_shown_as_text() {
    assert_eq!(OldLicenseeCode::Unknown(0x0A).to_string(), "Unknown (0A)");
    assert_eq!(OldLicenseeCode::Unknown(0xF2).to_string(), "Unknown (F2)");
    assert_eq!(OldLicenseeCode::Nintendo.to_string(), "Nintendo");
    assert_eq!(OldLicenseeCode::UseNewLicenseeCode.to_string(), "[Use New Licensee Code]");
    assert_eq!(NewLicenseeCode::Unknown('Z', '9').to_string(), "Unknown (Z9)");
    assert_eq!(NewLicenseeCode::ElectronicArts.to_string(), "EA (Electronic Arts)");
    assert_eq!(Licensee::Old(OldLicenseeCode::Nintendo).to_string(), "Nintendo");
    assert_eq!(Licensee::New(NewLicenseeCode::Unknown('a', 'b')).to_string(), "Unknown (ab)");
}
