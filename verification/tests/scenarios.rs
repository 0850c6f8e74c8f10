use gameboy_emulator::boot::BootRom;
use gameboy_emulator::cartridge::Cartridge;
use gameboy_emulator::cpu::error::Error;
use gameboy_emulator::ppu::Shade;
use gameboy_emulator::{DPadState, Emulator, InputState};

fn boot_with(program: &[u8]) -> BootRom {
    let mut contents = [0u8; 256];
    contents[..program.len()].copy_from_slice(program);
    BootRom::new(contents)
}

fn emulator_with(program: &[u8]) -> Emulator {
    Emulator::new(boot_with(program), Cartridge::empty())
}

fn read(emulator: &Emulator, address: u16) -> u8 {
    emulator.cpu().bus().read_u8(address).unwrap()
}

fn write(emulator: &mut Emulator, address: u16, value: u8) {
    emulator.cpu_mut().bus_mut().write_u8(address, value).unwrap();
}

#[test]
fn boot_program_clears_video_ram_and_hands_over_to_the_cartridge() {
    // ld sp, $fffe; xor a; ld hl, $9fff; loop: ld (hl-), a; bit 7, h; jr nz, loop;
    // ld a, $3c; ld ($8010), a; ld a, 1; ldh ($50), a
    let program = [
        0x31, 0xFE, 0xFF, 0xAF, 0x21, 0xFF, 0x9F, 0x32, 0xCB, 0x7C, 0x20, 0xFB, 0x3E, 0x3C, 0xEA,
        0x10, 0x80, 0x3E, 0x01, 0xE0, 0x50,
    ];
    let mut rom = vec![0u8; 32 * 1024];
    rom[0] = 0x42;
    let cartridge = Cartridge::read(&rom).unwrap();
    let mut emulator = Emulator::new(boot_with(&program), cartridge);
    write(&mut emulator, 0x8000, 0xAA);
    write(&mut emulator, 0x8800, 0xBB);
    write(&mut emulator, 0x9FFF, 0xCC);
    assert_eq!(read(&emulator, 0x0000), 0x31);

    for _ in 0..3 {
        emulator.step(InputState::empty()).unwrap();
    }
    for _ in 0..24576 {
        emulator.step(InputState::empty()).unwrap();
    }
    assert_eq!(emulator.execution_state().instruction_pointer(), 0x000C);
    assert_eq!(emulator.execution_state().reg_hl(), 0x7FFF);
    for address in 0x8000..=0x9FFFu16 {
        assert_eq!(read(&emulator, address), 0x00);
    }

    for _ in 0..2 {
        emulator.step(InputState::empty()).unwrap();
    }
    assert_eq!(read(&emulator, 0x8010), 0x3C);
    assert!(emulator.cpu().bus().boot_rom_enabled());
    assert_eq!(read(&emulator, 0x0000), 0x31);

    for _ in 0..2 {
        emulator.step(InputState::empty()).unwrap();
    }
    assert!(!emulator.cpu().bus().boot_rom_enabled());
    assert_eq!(read(&emulator, 0x0000), 0x42);
    assert_eq!(read(&emulator, 0xFF50), 0x01);

    // The boot program stays out even when zero is written to the switch.
    write(&mut emulator, 0xFF50, 0x00);
    assert_eq!(read(&emulator, 0x0000), 0x42);
    assert_eq!(read(&emulator, 0xFF50), 0x00);
}

#[test]
fn dma_copies_a_page_into_object_attribute_memory() {
    let mut emulator = emulator_with(&[]);
    for i in 0..160u16 {
        write(&mut emulator, 0xC100 + i, (i + 1) as u8);
    }
    write(&mut emulator, 0xFF46, 0xC1);
    assert_eq!(read(&emulator, 0xFF46), 0xC1);
    assert_eq!(read(&emulator, 0xFE00), 0xFF);

    for _ in 0..159 {
        let (cycles, _) = emulator.step(InputState::empty()).unwrap();
        assert_eq!(cycles, 4);
    }
    assert!(emulator.cpu().bus().io().dma().transferring());
    assert_eq!(read(&emulator, 0xFE00), 0xFF);

    emulator.step(InputState::empty()).unwrap();
    assert!(!emulator.cpu().bus().io().dma().transferring());
    for i in 0..160u16 {
        assert_eq!(read(&emulator, 0xFE00 + i), (i + 1) as u8);
        assert_eq!(read(&emulator, 0xC100 + i), (i + 1) as u8);
    }
}

#[test]
fn dma_from_the_unused_range_faults() {
    let mut emulator = emulator_with(&[]);
    write(&mut emulator, 0xFF46, 0xE0);
    let mut outcome = Ok((0, false));
    for _ in 0..160 {
        outcome = emulator.step(InputState::empty());
    }
    assert_eq!(outcome, Err(Error::MemoryReadFault(0xE000)));
}

#[test]
fn background_tile_is_drawn_through_the_palette() {
    let mut emulator = emulator_with(&[]);
    for row in 0..8u16 {
        write(&mut emulator, 0x8010 + 2 * row, 0x00);
        write(&mut emulator, 0x8010 + 2 * row + 1, 0xFF);
    }
    for entry in 0..1024u16 {
        write(&mut emulator, 0x9800 + entry, 1);
    }
    write(&mut emulator, 0xFF47, 0xE4);
    write(&mut emulator, 0xFF42, 0);
    write(&mut emulator, 0xFF43, 0);
    write(&mut emulator, 0xFF40, 0x81);

    let mut frames = 0;
    let mut steps = 0;
    while frames == 0 {
        let (_, new_frame) = emulator.step(InputState::empty()).unwrap();
        if new_frame {
            frames += 1;
        }
        steps += 1;
        assert!(steps < 20000);
    }
    assert_eq!(steps, 144 * 456 / 4);
    let pixels = emulator.get_pixels();
    assert_eq!(pixels.len(), 160 * 144);
    for column in 0..8 {
        assert_eq!(pixels[column], Shade::Darker);
    }
    for pixel in pixels.iter() {
        assert_eq!(*pixel, Shade::Darker);
    }
}

#[test]
fn display_that_is_off_shows_the_blank_frame() {
    let mut emulator = emulator_with(&[]);
    for _ in 0..10 {
        emulator.step(InputState::empty()).unwrap();
    }
    assert_eq!(read(&emulator, 0xFF44), 0);
    assert_eq!(read(&emulator, 0xFF41) & 0x03, 0);
    let pixels = emulator.get_pixels();
    assert_eq!(pixels.len(), 160 * 144);
    for pixel in pixels.iter() {
        assert_eq!(*pixel, Shade::Off);
    }
    assert_eq!(Shade::Off.rgb(), (234, 255, 218));
}

#[test]
fn pending_interrupt_is_served() {
    let mut emulator = emulator_with(&[]);
    write(&mut emulator, 0xFFFF, 0x01);
    write(&mut emulator, 0xFF0F, 0x01);
    emulator.cpu_mut().execution_state_mut().set_interrupts_enabled(true);
    emulator.cpu_mut().execution_state_mut().set_instruction_pointer(0x1234);
    let sp = emulator.execution_state().stack_pointer();
    assert_eq!(sp, 0xFFFF);

    let (cycles, _) = emulator.step(InputState::empty()).unwrap();

    assert_eq!(cycles, 20);
    assert_eq!(emulator.execution_state().instruction_pointer(), 0x0040);
    assert_eq!(emulator.execution_state().stack_pointer(), sp - 2);
    assert_eq!(emulator.cpu().bus().read_u16(sp - 2), Ok(0x1234));
    assert_eq!(read(&emulator, 0xFF0F), 0xE0);
    assert_eq!(read(&emulator, 0xFFFF), 0xE1);
    assert!(!emulator.execution_state().interrupts_enabled());
}

#[test]
fn interrupts_are_served_by_priority() {
    let mut emulator = emulator_with(&[]);
    write(&mut emulator, 0xFFFF, 0x1F);
    write(&mut emulator, 0xFF0F, 0x14);
    emulator.cpu_mut().execution_state_mut().set_interrupts_enabled(true);
    emulator.step(InputState::empty()).unwrap();
    assert_eq!(emulator.execution_state().instruction_pointer(), 0x0050);
    assert_eq!(read(&emulator, 0xFF0F), 0xF0);
    emulator.cpu_mut().execution_state_mut().set_interrupts_enabled(true);
    emulator.step(InputState::empty()).unwrap();
    assert_eq!(emulator.execution_state().instruction_pointer(), 0x0060);
    assert_eq!(read(&emulator, 0xFF0F), 0xE0);
}

#[test]
fn interrupt_that_is_not_enabled_is_not_served() {
    let mut emulator = emulator_with(&[]);
    write(&mut emulator, 0xFFFF, 0x02);
    write(&mut emulator, 0xFF0F, 0x01);
    emulator.cpu_mut().execution_state_mut().set_interrupts_enabled(true);
    let (cycles, _) = emulator.step(InputState::empty()).unwrap();
    assert_eq!(cycles, 4);
    assert_eq!(emulator.execution_state().instruction_pointer(), 0x0001);
    assert_eq!(read(&emulator, 0xFF0F), 0xE1);
}

#[test]
fn di_after_ei_keeps_interrupts_disabled() {
    let mut emulator = emulator_with(&[0xFB, 0xF3, 0x00, 0x00]);
    emulator.step(InputState::empty()).unwrap();
    assert!(!emulator.execution_state().interrupts_enabled());
    emulator.step(InputState::empty()).unwrap();
    assert!(!emulator.execution_state().interrupts_enabled());
    emulator.step(InputState::empty()).unwrap();
    assert!(!emulator.execution_state().interrupts_enabled());
    emulator.step(InputState::empty()).unwrap();
    assert!(!emulator.execution_state().interrupts_enabled());
}

#[test]
fn ei_enables_interrupts_after_the_next_instruction() {
    let mut emulator = emulator_with(&[0xFB, 0x00, 0x00]);
    emulator.step(InputState::empty()).unwrap();
    assert!(!emulator.execution_state().interrupts_enabled());
    emulator.step(InputState::empty()).unwrap();
    assert!(emulator.execution_state().interrupts_enabled());
    emulator.step(InputState::empty()).unwrap();
    assert!(emulator.execution_state().interrupts_enabled());
}

#[test]
fn reti_enables_interrupts_at_once() {
    // ld sp, $fffc; reti, with the return address 0x0123 on the stack.
    let mut emulator = emulator_with(&[0x31, 0xFC, 0xFF, 0xD9]);
    write(&mut emulator, 0xFFFC, 0x23);
    write(&mut emulator, 0xFFFD, 0x01);
    emulator.step(InputState::empty()).unwrap();
    let (cycles, _) = emulator.step(InputState::empty()).unwrap();
    assert_eq!(cycles, 16);
    assert!(emulator.execution_state().interrupts_enabled());
    assert_eq!(emulator.execution_state().instruction_pointer(), 0x0123);
    assert_eq!(emulator.execution_state().stack_pointer(), 0xFFFE);
}

#[test]
fn pressing_start_raises_the_joypad_interrupt_once() {
    let mut emulator = emulator_with(&[]);
    write(&mut emulator, 0xFF00, 0x10);
    emulator.step(InputState::empty()).unwrap();
    assert_eq!(read(&emulator, 0xFF00), 0xDF);
    assert_eq!(read(&emulator, 0xFF0F), 0xE0);

    let mut pressed = InputState::empty();
    pressed.start_pressed = true;
    emulator.step(pressed).unwrap();
    assert_eq!(read(&emulator, 0xFF00), 0xD7);
    assert_eq!(read(&emulator, 0xFF0F), 0xF0);

    write(&mut emulator, 0xFF0F, 0x00);
    emulator.step(pressed).unwrap();
    assert_eq!(read(&emulator, 0xFF00), 0xD7);
    assert_eq!(read(&emulator, 0xFF0F), 0xE0);

    emulator.step(InputState::empty()).unwrap();
    assert_eq!(read(&emulator, 0xFF00), 0xDF);
    assert_eq!(read(&emulator, 0xFF0F), 0xE0);
}

#[test]
fn button_of_a_group_that_is_not_selected_raises_nothing() {
    let mut emulator = emulator_with(&[]);
    write(&mut emulator, 0xFF00, 0x20);
    let mut pressed = InputState::empty();
    pressed.start_pressed = true;
    emulator.step(pressed).unwrap();
    assert_eq!(read(&emulator, 0xFF00), 0xEF);
    assert_eq!(read(&emulator, 0xFF0F), 0xE0);

    pressed.dpad_state = DPadState::LeftUp;
    emulator.step(pressed).unwrap();
    assert_eq!(read(&emulator, 0xFF00), 0xE9);
    assert_eq!(read(&emulator, 0xFF0F), 0xF0);
}

#[test]
fn frame_takes_70224_cycles() {
    let mut emulator = emulator_with(&[]);
    write(&mut emulator, 0xFF40, 0x80);
    let mut total = 0;
    let mut counting = false;
    let mut frames = 0;
    while frames < 2 {
        let (cycles, new_frame) = emulator.step(InputState::empty()).unwrap();
        if counting {
            total += cycles;
        }
        if new_frame {
            if counting {
                assert_eq!(total, 70224);
                total = 0;
            }
            counting = true;
            frames += 1;
        }
    }
}

#[test]
fn vertical_blank_raises_its_interrupt() {
    let mut emulator = emulator_with(&[]);
    write(&mut emulator, 0xFF40, 0x80);
    let mut new_frame = false;
    while !new_frame {
        assert_eq!(read(&emulator, 0xFF0F) & 0x01, 0);
        new_frame = emulator.step(InputState::empty()).unwrap().1;
    }
    assert_eq!(read(&emulator, 0xFF0F) & 0x01, 0x01);
    assert_eq!(read(&emulator, 0xFF44), 144);
    assert_eq!(read(&emulator, 0xFF41) & 0x03, 1);
}

#[test]
fn halt_sleeps_until_an_interrupt_is_due() {
    let mut emulator = emulator_with(&[0x76, 0x00]);
    emulator.step(InputState::empty()).unwrap();
    assert!(emulator.cpu().halted());
    assert_eq!(emulator.execution_state().instruction_pointer(), 0x0001);
    for _ in 0..5 {
        let (cycles, _) = emulator.step(InputState::empty()).unwrap();
        assert_eq!(cycles, 4);
        assert!(emulator.cpu().halted());
        assert_eq!(emulator.execution_state().instruction_pointer(), 0x0001);
    }
    write(&mut emulator, 0xFFFF, 0x04);
    write(&mut emulator, 0xFF0F, 0x04);
    emulator.step(InputState::empty()).unwrap();
    assert!(!emulator.cpu().halted());
    assert_eq!(emulator.execution_state().instruction_pointer(), 0x0002);
}

#[test]
fn stop_halts_and_resets_the_divider() {
    let mut program = [0u8; 100];
    program[64] = 0x10;
    let mut emulator = emulator_with(&program);
    for _ in 0..64 {
        emulator.step(InputState::empty()).unwrap();
    }
    assert_eq!(read(&emulator, 0xFF04), 1);
    emulator.step(InputState::empty()).unwrap();
    assert!(emulator.cpu().halted());
    assert_eq!(read(&emulator, 0xFF04), 0);
}

#[test]
fn undefined_opcode_is_reported() {
    let mut emulator = emulator_with(&[0x00, 0xD3]);
    assert_eq!(emulator.step(InputState::empty()), Ok((4, false)));
    assert_eq!(emulator.step(InputState::empty()), Err(Error::InvalidInstruction(0x0001, 0xD3)));
}

#[test]
fn store_to_the_unused_range_faults() {
    // ld hl, $e000; ld (hl), a
    let mut emulator = emulator_with(&[0x21, 0x00, 0xE0, 0x77]);
    emulator.step(InputState::empty()).unwrap();
    assert_eq!(emulator.step(InputState::empty()), Err(Error::MemoryWriteFault(0xE000, 0x00)));
}

#[test]
fn load_from_the_unused_range_faults() {
    // ld a, ($fdff)
    let mut emulator = emulator_with(&[0xFA, 0xFF, 0xFD]);
    assert_eq!(emulator.step(InputState::empty()), Err(Error::MemoryReadFault(0xFDFF)));
}

#[test]
fn breakpoints_are_reported_when_reached() {
    let mut emulator = emulator_with(&[]);
    emulator.add_breakpoint(0x0002);
    assert_eq!(emulator.breakpoint_reached(), None);
    emulator.step(InputState::empty()).unwrap();
    assert_eq!(emulator.breakpoint_reached(), None);
    emulator.step(InputState::empty()).unwrap();
    assert_eq!(emulator.breakpoint_reached(), Some(0x0002));
}

#[test]
fn taken_branches_cost_more() {
    // xor a; jr z, +1; nop; jr nz, +1; call $0010
    let mut emulator = emulator_with(&[0xAF, 0x28, 0x01, 0x00, 0x20, 0x01, 0xCD, 0x10, 0x00]);
    emulator.cpu_mut().execution_state_mut().set_stack_pointer(0xFFFE);
    assert_eq!(emulator.step(InputState::empty()), Ok((4, false)));
    assert_eq!(emulator.step(InputState::empty()), Ok((12, false)));
    assert_eq!(emulator.execution_state().instruction_pointer(), 0x0004);
    assert_eq!(emulator.step(InputState::empty()), Ok((8, false)));
    assert_eq!(emulator.execution_state().instruction_pointer(), 0x0006);
    assert_eq!(emulator.step(InputState::empty()), Ok((24, false)));
    assert_eq!(emulator.execution_state().instruction_pointer(), 0x0010);
    assert_eq!(emulator.execution_state().stack_pointer(), 0xFFFC);
    assert_eq!(emulator.cpu().bus().read_u16(0xFFFC), Ok(0x0009));
}

#[test]
fn conditional_return_and_jump_cycles() {
    // ld sp, $fffc; scf; ret c   with 0x0020 on the stack; at 0x20: jp nc, $0000; jp c, $0030
    let mut program = [0u8; 0x40];
    program[..5].copy_from_slice(&[0x31, 0xFC, 0xFF, 0x37, 0xD8]);
    program[0x20..0x26].copy_from_slice(&[0xD2, 0x00, 0x00, 0xDA, 0x30, 0x00]);
    program[0x30] = 0xC0;
    let mut emulator = emulator_with(&program);
    write(&mut emulator, 0xFFFC, 0x20);
    write(&mut emulator, 0xFFFD, 0x00);
    assert_eq!(emulator.step(InputState::empty()), Ok((12, false)));
    assert_eq!(emulator.step(InputState::empty()), Ok((4, false)));
    assert_eq!(emulator.step(InputState::empty()), Ok((20, false)));
    assert_eq!(emulator.execution_state().instruction_pointer(), 0x0020);
    assert_eq!(emulator.step(InputState::empty()), Ok((12, false)));
    assert_eq!(emulator.execution_state().instruction_pointer(), 0x0023);
    assert_eq!(emulator.step(InputState::empty()), Ok((16, false)));
    assert_eq!(emulator.execution_state().instruction_pointer(), 0x0030);
    // ret nz with Z clear is taken; the stack holds zeros above.
    assert_eq!(emulator.step(InputState::empty()), Ok((20, false)));
}

#[test]
fn rst_jumps_to_eight_times_its_target() {
    // ld sp, $fffe; rst $28
    let mut emulator = emulator_with(&[0x31, 0xFE, 0xFF, 0xEF]);
    emulator.step(InputState::empty()).unwrap();
    assert_eq!(emulator.step(InputState::empty()), Ok((16, false)));
    assert_eq!(emulator.execution_state().instruction_pointer(), 0x0028);
    assert_eq!(emulator.cpu().bus().read_u16(0xFFFC), Ok(0x0004));
}

#[test]
fn add_hl_keeps_the_zero_flag() {
    // xor a (sets Z); ld hl, $0fff; ld bc, $0001; add hl, bc
    let mut emulator = emulator_with(&[0xAF, 0x21, 0xFF, 0x0F, 0x01, 0x01, 0x00, 0x09]);
    for _ in 0..3 {
        emulator.step(InputState::empty()).unwrap();
    }
    assert_eq!(emulator.step(InputState::empty()), Ok((8, false)));
    assert_eq!(emulator.execution_state().reg_hl(), 0x1000);
    let flags = *emulator.execution_state().flags();
    assert!(flags.zero);
    assert!(flags.half_carry);
    assert!(!flags.carry);
    assert!(!flags.subtraction);
}

#[test]
fn hl_increments_and_decrements_around_loads() {
    // ld hl, $c000; ld a, $5a; ld (hl+), a; ld (hl-), a; ld a, (hl+)
    let mut emulator = emulator_with(&[0x21, 0x00, 0xC0, 0x3E, 0x5A, 0x22, 0x32, 0x2A]);
    for _ in 0..3 {
        emulator.step(InputState::empty()).unwrap();
    }
    assert_eq!(emulator.execution_state().reg_hl(), 0xC001);
    assert_eq!(read(&emulator, 0xC000), 0x5A);
    emulator.step(InputState::empty()).unwrap();
    assert_eq!(emulator.execution_state().reg_hl(), 0xC000);
    assert_eq!(read(&emulator, 0xC001), 0x5A);
    emulator.step(InputState::empty()).unwrap();
    assert_eq!(emulator.execution_state().reg_hl(), 0xC001);
    assert_eq!(emulator.execution_state().reg_a(), 0x5A);
}

#[test]
fn prefixed_operation_on_memory_takes_sixteen_cycles() {
    // ld hl, $c000; ld (hl), $81; rlc (hl); bit 0, (hl); res 0, (hl); set 7, (hl)
    let mut emulator = emulator_with(&[
        0x21, 0x00, 0xC0, 0x36, 0x81, 0xCB, 0x06, 0xCB, 0x46, 0xCB, 0x86, 0xCB, 0xFE,
    ]);
    emulator.step(InputState::empty()).unwrap();
    assert_eq!(emulator.step(InputState::empty()), Ok((12, false)));
    assert_eq!(emulator.step(InputState::empty()), Ok((16, false)));
    assert_eq!(read(&emulator, 0xC000), 0x03);
    assert!(emulator.execution_state().flags().carry);
    assert_eq!(emulator.step(InputState::empty()), Ok((12, false)));
    assert!(!emulator.execution_state().flags().zero);
    assert!(emulator.execution_state().flags().half_carry);
    assert!(emulator.execution_state().flags().carry);
    assert_eq!(emulator.step(InputState::empty()), Ok((16, false)));
    assert_eq!(read(&emulator, 0xC000), 0x02);
    assert_eq!(emulator.step(InputState::empty()), Ok((16, false)));
    assert_eq!(read(&emulator, 0xC000), 0x82);
}

#[test]
fn add_sp_and_ld_hl_sp() {
    // ld sp, $00c8; add sp, -1; ld hl, sp + 1; ld sp, hl
    let mut emulator = emulator_with(&[0x31, 0xC8, 0x00, 0xE8, 0xFF, 0xF8, 0x01, 0xF9]);
    emulator.step(InputState::empty()).unwrap();
    assert_eq!(emulator.step(InputState::empty()), Ok((16, false)));
    assert_eq!(emulator.execution_state().stack_pointer(), 199);
    assert!(emulator.execution_state().flags().carry);
    assert!(emulator.execution_state().flags().half_carry);
    assert!(!emulator.execution_state().flags().zero);
    assert_eq!(emulator.step(InputState::empty()), Ok((12, false)));
    assert_eq!(emulator.execution_state().reg_hl(), 200);
    assert_eq!(emulator.execution_state().stack_pointer(), 199);
    assert_eq!(emulator.step(InputState::empty()), Ok((8, false)));
    assert_eq!(emulator.execution_state().stack_pointer(), 200);
}

#[test]
fn push_and_pop_af_mask_the_low_nibble() {
    // ld sp, $fffe; ld bc, $12ff; push bc; pop af; push af; pop de
    let mut emulator = emulator_with(&[0x31, 0xFE, 0xFF, 0x01, 0xFF, 0x12, 0xC5, 0xF1, 0xF5, 0xD1]);
    for _ in 0..2 {
        emulator.step(InputState::empty()).unwrap();
    }
    assert_eq!(emulator.step(InputState::empty()), Ok((16, false)));
    assert_eq!(emulator.step(InputState::empty()), Ok((12, false)));
    assert_eq!(emulator.execution_state().reg_af(), 0x12F0);
    assert_eq!(emulator.execution_state().reg_a(), 0x12);
    emulator.step(InputState::empty()).unwrap();
    emulator.step(InputState::empty()).unwrap();
    assert_eq!(emulator.execution_state().reg_de(), 0x12F0);
    assert_eq!(emulator.execution_state().stack_pointer(), 0xFFFE);
}

#[test]
fn ld_imm16_sp_stores_the_stack_pointer_low_byte_first() {
    // ld sp, $abcd; ld ($c010), sp
    let mut emulator = emulator_with(&[0x31, 0xCD, 0xAB, 0x08, 0x10, 0xC0]);
    emulator.step(InputState::empty()).unwrap();
    assert_eq!(emulator.step(InputState::empty()), Ok((20, false)));
    assert_eq!(read(&emulator, 0xC010), 0xCD);
    assert_eq!(read(&emulator, 0xC011), 0xAB);
}

#[test]
fn ldh_addresses_the_last_page() {
    // ld a, $77; ldh ($80), a; ld c, $81; ldh (c), a; xor a; ldh a, ($81); ld b, a; ldh a, (c)
    let mut emulator = emulator_with(&[
        0x3E, 0x77, 0xE0, 0x80, 0x0E, 0x81, 0xE2, 0xAF, 0xF0, 0x81, 0x47, 0xF2,
    ]);
    emulator.step(InputState::empty()).unwrap();
    assert_eq!(emulator.step(InputState::empty()), Ok((12, false)));
    emulator.step(InputState::empty()).unwrap();
    assert_eq!(emulator.step(InputState::empty()), Ok((8, false)));
    assert_eq!(read(&emulator, 0xFF80), 0x77);
    assert_eq!(read(&emulator, 0xFF81), 0x77);
    emulator.step(InputState::empty()).unwrap();
    assert_eq!(emulator.step(InputState::empty()), Ok((12, false)));
    emulator.step(InputState::empty()).unwrap();
    assert_eq!(emulator.execution_state().reg_b(), 0x77);
    assert_eq!(emulator.step(InputState::empty()), Ok((8, false)));
    assert_eq!(emulator.execution_state().reg_a(), 0x77);
}
