use gameboy_emulator::boot::BootRom;
use gameboy_emulator::bus::Bus;
use gameboy_emulator::cartridge::Cartridge;
use gameboy_emulator::cpu::execution_state::Flags;
use gameboy_emulator::cpu::Cpu;

fn new_alu() -> Cpu {
    let boot_rom = BootRom::new([0u8; 256]);
    let cartridge = Cartridge::empty();
    Cpu::new(Bus::new(boot_rom, cartridge))
}

#[test]
fn add_u16_no_carry() {
    let mut alu = new_alu();
    let result = alu.add_u16(1, 2);
    assert_eq!(result, 3);
    let desired_flags = Flags::zeros();
    assert_eq!(*alu.execution_state().flags(), desired_flags);
}

#[test]
fn add_u16_full_carry() {
    let mut alu = new_alu();
    let result = alu.add_u16(0xF000, 0x1001);
    assert_eq!(result, 1);
    let desired_flags = Flags::just_carry();
    assert_eq!(*alu.execution_state().flags(), desired_flags);
}

#[test]
fn add_u16_half_carry() {
    let mut alu = new_alu();
    let result = alu.add_u16(0x0FFF, 0x0001);
    assert_eq!(result, 0x1000);
    let desired_flags = Flags::just_half_carry();
    assert_eq!(*alu.execution_state().flags(), desired_flags);
}

#[test]
fn add_u16_all_flags() {
    let mut alu = new_alu();
    let result = alu.add_u16(0xFFFF, 0x0001);
    assert_eq!(result, 0);
    let desired_flags = Flags::new(true, true, false, true);
    assert_eq!(*alu.execution_state().flags(), desired_flags);
}

#[test]
fn add_u16_negative() {
    let mut alu = new_alu();
    let result = alu.add_u16(4, (-2i16) as u16);
    assert_eq!(result, 2);
    let desired_flags = Flags::new(true, true, false, false);
    assert_eq!(*alu.execution_state().flags(), desired_flags);
}

#[test]
fn add_u8_no_carry() {
    let mut alu = new_alu();
    let result = alu.add_u8(1, 2);
    assert_eq!(result, 3);
    let desired_flags = Flags::zeros();
    assert_eq!(*alu.execution_state().flags(), desired_flags);
}

#[test]
fn add_u8_full_carry() {
    let mut alu = new_alu();
    let result = alu.add_u8(0xF0, 0x11);
    assert_eq!(result, 1);
    let desired_flags = Flags::just_carry();
    assert_eq!(*alu.execution_state().flags(), desired_flags);
}

#[test]
fn add_u8_half_carry() {
    let mut alu = new_alu();
    let result = alu.add_u8(0x0F, 0x01);
    assert_eq!(result, 0x10);
    let desired_flags = Flags::just_half_carry();
    assert_eq!(*alu.execution_state().flags(), desired_flags);
}

#[test]
fn add_u8_all_flags() {
    let mut alu = new_alu();
    let result = alu.add_u8(0xFF, 0x01);
    assert_eq!(result, 0);
    let desired_flags = Flags::new(true, true, false, true);
    assert_eq!(*alu.execution_state().flags(), desired_flags);
}

#[test]
fn add_u8_negative() {
    let mut alu = new_alu();
    let result = alu.add_u8(1, (-3i8) as u8);
    assert_eq!(result, (-2i8) as u8);
    let desired_flags = Flags::new(false, false, false, false);
    assert_eq!(*alu.execution_state().flags(), desired_flags);
}

#[test]
fn adc_u8_carry_not_set() {
    let mut alu = new_alu();
    let result = alu.adc_u8(5, 4);
    assert_eq!(result, 9);
    let desired_flags = Flags::zeros();
    assert_eq!(*alu.execution_state().flags(), desired_flags);
}

#[test]
fn adc_u8_carry_set() {
    let mut alu = new_alu();
    alu.execution_state_mut().flags_mut().carry = true;
    let result = alu.adc_u8(5, 4);
    assert_eq!(result, 10);
    let desired_flags = Flags::zeros();
    assert_eq!(*alu.execution_state().flags(), desired_flags);
}

#[test]
fn adc_u8_full_carry() {
    let mut alu = new_alu();
    let result = alu.adc_u8(0xF0, 0x11);
    assert_eq!(result, 1);
    let desired_flags = Flags::just_carry();
    assert_eq!(*alu.execution_state().flags(), desired_flags);
}

#[test]
fn adc_u8_half_carry() {
    let mut alu = new_alu();
    let result = alu.adc_u8(0x0F, 0x01);
    assert_eq!(result, 0x10);
    let desired_flags = Flags::just_half_carry();
    assert_eq!(*alu.execution_state().flags(), desired_flags);
}

#[test]
fn adc_u8_all_flags() {
    let mut alu = new_alu();
    let result = alu.add_u8(0xFF, 0x01);
    assert_eq!(result, 0);
    let desired_flags = Flags::new(true, true, false, true);
    assert_eq!(*alu.execution_state().flags(), desired_flags);
}

#[test]
fn adc_u8_negative() {
    let mut alu = new_alu();
    let result = alu.add_u8(1, (-3i8) as u8);
    assert_eq!(result, (-2i8) as u8);
    let desired_flags = Flags::new(false, false, false, false);
    assert_eq!(*alu.execution_state().flags(), desired_flags);
}

#[test]
fn adc_u16_no_carry() {
    let mut alu = new_alu();
    let result = alu.adc_u16(50, 40);
    assert_eq!(result, 90);
    let desired_flags = Flags::zeros();
    assert_eq!(*alu.execution_state().flags(), desired_flags);
}

#[test]
fn adc_u16_carry() {
    let mut alu = new_alu();
    alu.execution_state_mut().flags_mut().carry = true;
    let result = alu.adc_u16(50, 40);
    assert_eq!(result, 91);
    let desired_flags = Flags::zeros();
    assert_eq!(*alu.execution_state().flags(), desired_flags);
}

#[test]
fn sub_u8_no_borrow() {
    let mut alu = new_alu();
    let result = alu.sub_u8(2, 3);
    assert_eq!(result, 1);
    let desired_flags = Flags::just_subtraction();
    assert_eq!(*alu.execution_state().flags(), desired_flags);
}

#[test]
fn sub_u8_borrow() {
    let mut alu = new_alu();
    let result = alu.sub_u8(32, 0);
    assert_eq!(result, (-32i8) as u8);
    let desired_flags = Flags::new(true, false, true, false);
    assert_eq!(*alu.execution_state().flags(), desired_flags);
}

#[test]
fn sbc_u8_no_carry() {
    let mut alu = new_alu();
    let result = alu.sbc_u8(32, 0);
    assert_eq!(result, (-32i8) as u8);
    let desired_flags = Flags::new(true, false, true, false);
    assert_eq!(*alu.execution_state().flags(), desired_flags);
}

#[test]
fn and_u8_no_flag() {
    let mut alu = new_alu();
    let result = alu.and_u8(0x11, 0x10);
    assert_eq!(result, 0x10);
    let desired_flags = Flags::just_half_carry();
    assert_eq!(*alu.execution_state().flags(), desired_flags);
}

#[test]
fn and_u8_zero() {
    let mut alu = new_alu();
    let result = alu.and_u8(0x00, 0xFF);
    assert_eq!(result, 0x00);
    let desired_flags = Flags::just_zero().with_half_carry(true);
    assert_eq!(*alu.execution_state().flags(), desired_flags);
}

#[test]
fn xor_u8_no_flag() {
    let mut alu = new_alu();
    let result = alu.xor_u8(0x11, 0x10);
    assert_eq!(result, 0x01);
    let desired_flags = Flags::zeros();
    assert_eq!(*alu.execution_state().flags(), desired_flags);
}

#[test]
fn xor_u8_zero() {
    let mut alu = new_alu();
    let result = alu.xor_u8(0x11, 0x11);
    assert_eq!(result, 0x00);
    let desired_flags = Flags::just_zero();
    assert_eq!(*alu.execution_state().flags(), desired_flags);
}

#[test]
fn or_u8_no_flag_0() {
    let mut alu = new_alu();
    let result = alu.or_u8(0x11, 0x10);
    assert_eq!(result, 0x11);
    let desired_flags = Flags::zeros();
    assert_eq!(*alu.execution_state().flags(), desired_flags);
}

#[test]
fn or_u8_no_flag_1() {
    let mut alu = new_alu();
    let result = alu.or_u8(0xF1, 0x10);
    assert_eq!(result, 0xF1);
    let desired_flags = Flags::zeros();
    assert_eq!(*alu.execution_state().flags(), desired_flags);
}

#[test]
fn or_u8_zero() {
    let mut alu = new_alu();
    let result = alu.or_u8(0x00, 0x00);
    assert_eq!(result, 0x00);
    let desired_flags = Flags::just_zero();
    assert_eq!(*alu.execution_state().flags(), desired_flags);
}

#[test]
fn cp_u8_no_borrow() {
    let mut alu = new_alu();
    alu.cp_u8(2, 3);
    let desired_flags = Flags::just_subtraction();
    assert_eq!(*alu.execution_state().flags(), desired_flags);
}

#[test]
fn cp_u8_borrow() {
    let mut alu = new_alu();
    alu.cp_u8(32, 0);
    let desired_flags = Flags::new(true, false, true, false);
    assert_eq!(*alu.execution_state().flags(), desired_flags);
}

#[test]
fn cp_u8_half_borrow() {
    let mut alu = new_alu();
    alu.cp_u8(8, 16);
    let desired_flags = Flags::new(false, true, true, false);
    assert_eq!(*alu.execution_state().flags(), desired_flags);
}

#[test]
fn cp_u8_zero() {
    let mut alu = new_alu();
    alu.cp_u8(8, 8);
    let desired_flags = Flags::new(false, false, true, true);
    assert_eq!(*alu.execution_state().flags(), desired_flags);
}

#[test]
fn rlc_u8_no_flag() {
    let mut alu = new_alu();
    let result = alu.rotate_left_u8(0b0000_1000, true, false);
    assert_eq!(result, 0b0001_0000);
    let desired_flags = Flags::zeros();
    assert_eq!(*alu.execution_state().flags(), desired_flags);
}

#[test]
fn rlc_u8_zero() {
    let mut alu = new_alu();
    let result = alu.rotate_left_u8(0b0000_0000, true, false);
    assert_eq!(result, 0b0000_0000);
    let desired_flags = Flags::just_zero();
    assert_eq!(*alu.execution_state().flags(), desired_flags);
}

#[test]
fn rlc_u8_carry() {
    let mut alu = new_alu();
    let result = alu.rotate_left_u8(0b1000_0000, true, false);
    assert_eq!(result, 0b0000_0001);
    let desired_flags = Flags::just_carry();
    assert_eq!(*alu.execution_state().flags(), desired_flags);
}

#[test]
fn rrc_u8_no_flag() {
    let mut alu = new_alu();
    let result = alu.rotate_right_u8(0b0000_1000, true, false);
    assert_eq!(result, 0b0000_0100);
    let desired_flags = Flags::zeros();
    assert_eq!(*alu.execution_state().flags(), desired_flags);
}

#[test]
fn rrc_u8_zero() {
    let mut alu = new_alu();
    let result = alu.rotate_right_u8(0b0000_0000, true, false);
    assert_eq!(result, 0b0000_0000);
    let desired_flags = Flags::just_zero();
    assert_eq!(*alu.execution_state().flags(), desired_flags);
}

#[test]
fn rrc_u8_carry() {
    let mut alu = new_alu();
    let result = alu.rotate_right_u8(0b0000_0001, true, false);
    assert_eq!(result, 0b1000_0000);
    let desired_flags = Flags::just_carry();
    assert_eq!(*alu.execution_state().flags(), desired_flags);
}

#[test]
fn test_swap_u8_0() {
    let mut alu = new_alu();
    let result = alu.swap_u8(0b0101_1100);
    assert_eq!(result, 0b1100_0101);
    let desired_flags = Flags::zeros();
    assert_eq!(*alu.execution_state().flags(), desired_flags);
}

#[test]
fn test_swap_u8_1() {
    let mut alu = new_alu();
    let result = alu.swap_u8(0b0000_1111);
    assert_eq!(result, 0b1111_0000);
    let desired_flags = Flags::zeros();
    assert_eq!(*alu.execution_state().flags(), desired_flags);
}

#[test]
fn test_shift_left_u8_normal() {
    let mut alu = new_alu();
    let result = alu.shift_left_arithmetic(0b0110_1001);
    assert_eq!(result, 0b1101_0010);
    let desired_flags = Flags::zeros();
    assert_eq!(*alu.execution_state().flags(), desired_flags);
}

#[test]
fn test_shift_left_u8_carry() {
    let mut alu = new_alu();
    let result = alu.shift_left_arithmetic(0b1110_1001);
    assert_eq!(result, 0b1101_0010);
    let desired_flags = Flags::just_carry();
    assert_eq!(*alu.execution_state().flags(), desired_flags);
}

#[test]
fn test_shift_left_u8_zero() {
    let mut alu = new_alu();
    let result = alu.shift_left_arithmetic(0b0000_0000);
    assert_eq!(result, 0b0000_0000);
    let desired_flags = Flags::just_zero();
    assert_eq!(*alu.execution_state().flags(), desired_flags);
}

#[test]
fn test_shift_left_u8_carry_and_zero() {
    let mut alu = new_alu();
    let result = alu.shift_left_arithmetic(0b1000_0000);
    assert_eq!(result, 0b0000_0000);
    let desired_flags = Flags::just_carry().with_zero(true);
    assert_eq!(*alu.execution_state().flags(), desired_flags);
}

#[test]
fn test_shift_right_arith_u8_bit_7_0() {
    let mut alu = new_alu();
    let result = alu.shift_right_arithmetic(0b0110_1010);
    assert_eq!(result, 0b0011_0101);
    let desired_flags = Flags::zeros();
    assert_eq!(*alu.execution_state().flags(), desired_flags);
}

#[test]
fn test_shift_right_arith_u8_bit_7_1() {
    let mut alu = new_alu();
    let result = alu.shift_right_arithmetic(0b1110_1010);
    assert_eq!(result, 0b1111_0101);
    let desired_flags = Flags::zeros();
    assert_eq!(*alu.execution_state().flags(), desired_flags);
}

#[test]
fn test_shift_right_arith_u8_carry() {
    let mut alu = new_alu();
    let result = alu.shift_right_arithmetic(0b0110_1011);
    assert_eq!(result, 0b0011_0101);
    let desired_flags = Flags::just_carry();
    assert_eq!(*alu.execution_state().flags(), desired_flags);
}

#[test]
fn test_shift_right_arith_u8_zero() {
    let mut alu = new_alu();
    let result = alu.shift_right_arithmetic(0b0000_0000);
    assert_eq!(result, 0b0000_0000);
    let desired_flags = Flags::just_zero();
    assert_eq!(*alu.execution_state().flags(), desired_flags);
}

#[test]
fn test_shift_right_arith_u8_carry_and_zero() {
    let mut alu = new_alu();
    let result = alu.shift_right_arithmetic(0b0000_0001);
    assert_eq!(result, 0b0000_0000);
    let desired_flags = Flags::just_carry().with_zero(true);
    assert_eq!(*alu.execution_state().flags(), desired_flags);
}

#[test]
fn test_shift_right_logical_u8_bit_7_0() {
    let mut alu = new_alu();
    let result = alu.shift_right_logical(0b0110_1010);
    assert_eq!(result, 0b0011_0101);
    let desired_flags = Flags::zeros();
    assert_eq!(*alu.execution_state().flags(), desired_flags);
}

#[test]
fn test_shift_right_logical_u8_bit_7_1() {
    let mut alu = new_alu();
    let result = alu.shift_right_logical(0b1110_1010);
    assert_eq!(result, 0b0111_0101);
    let desired_flags = Flags::zeros();
    assert_eq!(*alu.execution_state().flags(), desired_flags);
}

#[test]
fn test_shift_right_logical_u8_carry() {
    let mut alu = new_alu();
    let result = alu.shift_right_logical(0b0110_1011);
    assert_eq!(result, 0b0011_0101);
    let desired_flags = Flags::just_carry();
    assert_eq!(*alu.execution_state().flags(), desired_flags);
}

#[test]
fn test_shift_right_logical_u8_zero() {
    let mut alu = new_alu();
    let result = alu.shift_right_logical(0b0000_0000);
    assert_eq!(result, 0b0000_0000);
    let desired_flags = Flags::just_zero();
    assert_eq!(*alu.execution_state().flags(), desired_flags);
}

#[test]
fn test_shift_right_logical_u8_carry_and_zero() {
    let mut alu = new_alu();
    let result = alu.shift_right_logical(0b0000_0001);
    assert_eq!(result, 0b0000_0000);
    let desired_flags = Flags::just_carry().with_zero(true);
    assert_eq!(*alu.execution_state().flags(), desired_flags);
}

#[test]
fn test_test_bit_u8_set_0() {
    let mut alu = new_alu();
    alu.test_bit_u8(0, 1);
    let desired_flags = Flags::just_half_carry();
    assert_eq!(*alu.execution_state().flags(), desired_flags);
}

#[test]
fn test_test_bit_u8_unset_0() {
    let mut alu = new_alu();
    alu.test_bit_u8(0, 0);
    let desired_flags = Flags::new(false, true, false, true);
    assert_eq!(*alu.execution_state().flags(), desired_flags);
}

#[test]
fn test_test_bit_u8_set_6() {
    let mut alu = new_alu();
    alu.test_bit_u8(6, 0b0100_0000);
    let desired_flags = Flags::just_half_carry();
    assert_eq!(*alu.execution_state().flags(), desired_flags);
}

#[test]
fn test_test_bit_u8_unset_6() {
    let mut alu = new_alu();
    alu.test_bit_u8(6, 0b1011_1111);
    let desired_flags = Flags::new(false, true, false, true);
    assert_eq!(*alu.execution_state().flags(), desired_flags);
}

#[test]
fn test_reset_bit_u8_set_0() {
    let mut alu = new_alu();
    let result = alu.reset_bit_u8(0, 0b1001_0011);
    assert_eq!(result, 0b1001_0010);
    let desired_flags = Flags::zeros();
    assert_eq!(*alu.execution_state().flags(), desired_flags);
}

#[test]
fn test_reset_bit_u8_set_4() {
    let mut alu = new_alu();
    let result = alu.reset_bit_u8(4, 0b1001_1011);
    assert_eq!(result, 0b1000_1011);
    let desired_flags = Flags::zeros();
    assert_eq!(*alu.execution_state().flags(), desired_flags);
}

#[test]
fn test_set_bit_u8_unset_0() {
    let mut alu = new_alu();
    let result = alu.set_bit_u8(0, 0b1001_0010);
    assert_eq!(result, 0b1001_0011);
    let desired_flags = Flags::zeros();
    assert_eq!(*alu.execution_state().flags(), desired_flags);
}

#[test]
fn test_set_bit_u8_unset_4() {
    let mut alu = new_alu();
    let result = alu.set_bit_u8(4, 0b1000_1011);
    assert_eq!(result, 0b1001_1011);
    let desired_flags = Flags::zeros();
    assert_eq!(*alu.execution_state().flags(), desired_flags);
}

#[test]
fn test_inc_u16_zero() {
    let mut alu = new_alu();
    let result = alu.inc_u16(0xFFFF);
    assert_eq!(result, 0);
    let desired_flags = Flags::zeros();
    assert_eq!(*alu.execution_state().flags(), desired_flags);
}

#[test]
fn test_inc_u16() {
    let mut alu = new_alu();
    let result = alu.inc_u16(4);
    assert_eq!(result, 5);
    let desired_flags = Flags::zeros();
    assert_eq!(*alu.execution_state().flags(), desired_flags);
}

#[test]
fn test_dec_u16_zero() {
    let mut alu = new_alu();
    let result = alu.dec_u16(1);
    assert_eq!(result, 0);
    let desired_flags = Flags::zeros();
    assert_eq!(*alu.execution_state().flags(), desired_flags);
}

#[test]
fn test_dec_u16() {
    let mut alu = new_alu();
    let result = alu.dec_u16(4);
    assert_eq!(result, 3);
    let desired_flags = Flags::zeros();
    assert_eq!(*alu.execution_state().flags(), desired_flags);
}

#[test]
fn test_inc_u8_zero() {
    let mut alu = new_alu();
    let result = alu.inc_u8(0xFF);
    assert_eq!(result, 0);
    let desired_flags = Flags::new(false, true, false, true);
    assert_eq!(*alu.execution_state().flags(), desired_flags);
}

#[test]
fn test_inc_u8_carry_unchanged() {
    let mut alu = new_alu();
    alu.execution_state_mut().flags_mut().carry = true;
    let result = alu.inc_u8(0xFF);
    assert_eq!(result, 0);
    let desired_flags = Flags::new(true, true, false, true);
    assert_eq!(*alu.execution_state().flags(), desired_flags);
}

#[test]
fn test_inc_u8() {
    let mut alu = new_alu();
    let result = alu.inc_u8(2);
    assert_eq!(result, 3);
    let desired_flags = Flags::zeros();
    assert_eq!(*alu.execution_state().flags(), desired_flags);
}

#[test]
fn test_dec_u8() {
    let mut alu = new_alu();
    let result = alu.dec_u8(2);
    assert_eq!(result, 1);
    let desired_flags = Flags::just_subtraction();
    assert_eq!(*alu.execution_state().flags(), desired_flags);
}

#[test]
fn test_dec_u8_zero() {
    let mut alu = new_alu();
    let result = alu.dec_u8(1);
    assert_eq!(result, 0);
    let desired_flags = Flags::just_subtraction().with_zero(true);
    assert_eq!(*alu.execution_state().flags(), desired_flags);
}

#[test]
fn test_decimal_adjust_no_change() {
    let mut alu = new_alu();
    let result = alu.decimal_adjust(0x40);
    assert_eq!(result, 0x40);
    let desired_flags = Flags::zeros();
    assert_eq!(*alu.execution_state().flags(), desired_flags);
}

#[test]
fn test_decimal_adjust_no_change_zero() {
    let mut alu = new_alu();
    let result = alu.decimal_adjust(0x00);
    assert_eq!(result, 0x00);
    let desired_flags = Flags::just_zero();
    assert_eq!(*alu.execution_state().flags(), desired_flags);
}

#[test]
fn test_decimal_adjust_after_add_ones() {
    let mut alu = new_alu();
    let a = alu.add_u8(0x01, 0x09);
    let result = alu.decimal_adjust(a);
    assert_eq!(result, 0x10);
    let desired_flags = Flags::zeros();
    assert_eq!(*alu.execution_state().flags(), desired_flags);
}

#[test]
fn test_decimal_adjust_after_add_tens() {
    let mut alu = new_alu();
    let a = alu.add_u8(0x10, 0x90);
    let result = alu.decimal_adjust(a);
    assert_eq!(result, 0x00);
    let desired_flags = Flags::just_carry().with_zero(true);
    assert_eq!(*alu.execution_state().flags(), desired_flags);
}

#[test]
fn test_decimal_adjust_after_carry_ones() {
    let mut alu = new_alu();
    alu.add_u8(0xFF, 0x01);
    let a = alu.adc_u8(0x01, 0x09);
    let result = alu.decimal_adjust(a);
    assert_eq!(result, 0x11);
    let desired_flags = Flags::zeros();
    assert_eq!(*alu.execution_state().flags(), desired_flags);
}

#[test]
fn test_decimal_adjust_after_half_carry_ones() {
    let mut alu = new_alu();
    let a = alu.add_u8(0x01, 0x0F);
    let result = alu.decimal_adjust(a);
    assert_eq!(result, 0x16);
    let desired_flags = Flags::zeros();
    assert_eq!(*alu.execution_state().flags(), desired_flags);
}

#[test]
fn test_decimal_adjust_after_sub_ones() {
    let mut alu = new_alu();
    let a = alu.sub_u8(0x01, 0x10);
    let result = alu.decimal_adjust(a);
    assert_eq!(result, 0x09);
    let desired_flags = Flags::just_subtraction();
    assert_eq!(*alu.execution_state().flags(), desired_flags);
}

#[test]
fn test_decimal_adjust_after_sub_tens() {
    let mut alu = new_alu();
    let a = alu.sub_u8(0x10, 0x90);
    let result = alu.decimal_adjust(a);
    assert_eq!(result, 0x80);
    let desired_flags = Flags::just_subtraction();
    assert_eq!(*alu.execution_state().flags(), desired_flags);
}

#[test]
fn test_decimal_adjust_after_borrow() {
    let mut alu = new_alu();
    let a = alu.sub_u8(0x01, 0x00);
    let result = alu.decimal_adjust(a);
    assert_eq!(result, 0x99);
    let desired_flags = Flags::just_subtraction().with_carry(true);
    assert_eq!(*alu.execution_state().flags(), desired_flags);
}

#[test]
fn test_decimal_adjust_after_half_borrow() {
    let mut alu = new_alu();
    let a = alu.sub_u8(0x01, 0x10);
    let result = alu.decimal_adjust(a);
    assert_eq!(result, 0x09);
    let desired_flags = Flags::just_subtraction();
    assert_eq!(*alu.execution_state().flags(), desired_flags);
}

#[test]
fn test_add_sp_1() {
    let mut alu = new_alu();
    let sp = 200;
    let result = alu.add_sp(sp, 1);
    assert_eq!(result, 201);
    let desired_flags = Flags::zeros();
    assert_eq!(*alu.execution_state().flags(), desired_flags);
}

#[test]
fn test_add_sp_negative_1() {
    let mut alu = new_alu();
    let sp = 200;
    let result = alu.add_sp(sp, (-1_i8) as u8);
    assert_eq!(result, 199);
    let desired_flags = Flags::new(true, true, false, false);
    assert_eq!(*alu.execution_state().flags(), desired_flags);
}
