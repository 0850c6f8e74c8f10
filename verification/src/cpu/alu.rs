use vstd::prelude::*;
use super::execution_state::Flags;
use super::instruction::signed_value;
use super::Cpu;

verus! {

/// The sum of two bytes and a carry: the result, and the flags Z, N = 0, H
/// for a carry out of bit 3 and C for a carry out of bit 7.
#[verifier::opaque]
pub open spec fn add8(a: u8, b: u8, carry_in: bool) -> (u8, Flags) {
    let carry: int = if carry_in { 1 } else { 0 };
    let result = ((a + b + carry) % 256) as u8;
    (
        result,
        Flags {
            zero: result == 0,
            subtraction: false,
            half_carry: (a & 0x0F) + (b & 0x0F) + carry > 0x0F,
            carry: a + b + carry > 0xFF,
        },
    )
}

/// The difference `a - b - carry`: the result, and the flags Z, N = 1, H for
/// a borrow from bit 4 and C for a borrow from bit 8.
#[verifier::opaque]
pub open spec fn sub8(a: u8, b: u8, carry_in: bool) -> (u8, Flags) {
    let carry: int = if carry_in { 1 } else { 0 };
    let result = ((a - b - carry) % 256) as u8;
    (
        result,
        Flags {
            zero: result == 0,
            subtraction: true,
            half_carry: (a & 0x0F) < (b & 0x0F) + carry,
            carry: a < b + carry,
        },
    )
}

/// The sum of two words and a carry: the result, and the flags Z, N = 0, H
/// for a carry out of bit 11 and C for a carry out of bit 15.
#[verifier::opaque]
pub open spec fn add16(a: u16, b: u16, carry_in: bool) -> (u16, Flags) {
    let carry: int = if carry_in { 1 } else { 0 };
    let result = ((a + b + carry) % 0x1_0000) as u16;
    (
        result,
        Flags {
            zero: result == 0,
            subtraction: false,
            half_carry: (a & 0x0FFF) + (b & 0x0FFF) + carry > 0x0FFF,
            carry: a + b + carry > 0xFFFF,
        },
    )
}

/// The difference `a - b - carry` of two words: the result, and the flags
/// Z, N = 1, H for a borrow from bit 12 and C for a borrow from bit 16.
#[verifier::opaque]
pub open spec fn sub16(a: u16, b: u16, carry_in: bool) -> (u16, Flags) {
    let carry: int = if carry_in { 1 } else { 0 };
    let result = ((a - b - carry) % 0x1_0000) as u16;
    (
        result,
        Flags {
            zero: result == 0,
            subtraction: true,
            half_carry: (a & 0x0FFF) < (b & 0x0FFF) + carry,
            carry: a < b + carry,
        },
    )
}

/// `add hl, rr`: the sum of two words, with Z left as it is.
#[verifier::opaque]
pub open spec fn add_hl(a: u16, b: u16, flags: Flags) -> (u16, Flags) {
    (add16(a, b, false).0, Flags { zero: flags.zero, ..add16(a, b, false).1 })
}

/// The stack pointer moved by a signed offset, as `add sp, i8` and
/// `ld hl, sp + i8` compute it: H and C are those of adding the offset to
/// the low byte of the stack pointer, Z and N are cleared.
#[verifier::opaque]
pub open spec fn add_sp(sp: u16, offset: u8) -> (u16, Flags) {
    (
        ((sp + signed_value(offset)) % 0x1_0000) as u16,
        Flags {
            zero: false,
            subtraction: false,
            half_carry: (sp & 0x0F) + (offset & 0x0F) > 0x0F,
            carry: (sp & 0xFF) + offset > 0xFF,
        },
    )
}

/// A byte plus one: Z, N = 0 and H follow the sum, C stays.
#[verifier::opaque]
pub open spec fn inc8(value: u8, flags: Flags) -> (u8, Flags) {
    (add8(value, 1, false).0, Flags { carry: flags.carry, ..add8(value, 1, false).1 })
}

/// A byte minus one: Z, N = 1 and H follow the difference, C stays.
#[verifier::opaque]
pub open spec fn dec8(value: u8, flags: Flags) -> (u8, Flags) {
    (sub8(value, 1, false).0, Flags { carry: flags.carry, ..sub8(value, 1, false).1 })
}

/// The bitwise and: Z follows the result, H is set, N and C are cleared.
#[verifier::opaque]
pub open spec fn and8(a: u8, b: u8) -> (u8, Flags) {
    (a & b, Flags { zero: a & b == 0, subtraction: false, half_carry: true, carry: false })
}

/// The bitwise exclusive or: Z follows the result, the others are cleared.
#[verifier::opaque]
pub open spec fn xor8(a: u8, b: u8) -> (u8, Flags) {
    (a ^ b, Flags { zero: a ^ b == 0, subtraction: false, half_carry: false, carry: false })
}

/// The bitwise or: Z follows the result, the others are cleared.
#[verifier::opaque]
pub open spec fn or8(a: u8, b: u8) -> (u8, Flags) {
    (a | b, Flags { zero: a | b == 0, subtraction: false, half_carry: false, carry: false })
}

/// The flags of a rotate or shift that gives `result` and moves `carry`
/// out. `update_zero` is false for the rotates of the accumulator, which
/// always clear Z.
#[verifier::opaque]
pub open spec fn shifted(result: u8, carry: bool, update_zero: bool) -> (u8, Flags) {
    (
        result,
        Flags {
            zero: update_zero && result == 0,
            subtraction: false,
            half_carry: false,
            carry,
        },
    )
}

/// A rotate to the left by one bit. Bit 7 moves into C. Bit 0 takes the old
/// C when the rotate goes through the carry, else the old bit 7.
#[verifier::opaque]
pub open spec fn rotate_left(value: u8, flags: Flags, update_zero: bool, through_carry: bool) -> (
    u8,
    Flags,
) {
    let low: int = if through_carry {
        if flags.carry { 1 } else { 0 }
    } else {
        (value / 128) as int
    };
    shifted(((value * 2) % 256 + low) as u8, value >= 128, update_zero)
}

/// A rotate to the right by one bit. Bit 0 moves into C. Bit 7 takes the
/// old C when the rotate goes through the carry, else the old bit 0.
#[verifier::opaque]
pub open spec fn rotate_right(value: u8, flags: Flags, update_zero: bool, through_carry: bool) -> (
    u8,
    Flags,
) {
    let high: int = if through_carry {
        if flags.carry { 128 } else { 0 }
    } else {
        (value % 2) * 128
    };
    shifted((value / 2 + high) as u8, value % 2 == 1, update_zero)
}

/// A shift to the left by one bit: bit 7 moves into C and bit 0 is cleared.
#[verifier::opaque]
pub open spec fn shift_left(value: u8) -> (u8, Flags) {
    shifted(((value * 2) % 256) as u8, value >= 128, true)
}

/// A shift to the right by one bit that keeps bit 7: bit 0 moves into C.
#[verifier::opaque]
pub open spec fn shift_right_keeping_sign(value: u8) -> (u8, Flags) {
    shifted((value / 2 + (value / 128) * 128) as u8, value % 2 == 1, true)
}

/// A shift to the right by one bit: bit 0 moves into C and bit 7 is cleared.
#[verifier::opaque]
pub open spec fn shift_right(value: u8) -> (u8, Flags) {
    shifted(value / 2, value % 2 == 1, true)
}

/// The two nibbles of a byte exchanged: Z follows the result, the others
/// are cleared.
#[verifier::opaque]
pub open spec fn swap(value: u8) -> (u8, Flags) {
    shifted(((value % 16) * 16 + value / 16) as u8, false, true)
}

/// The flags after `bit n`: Z is the complement of bit `index` of `value`,
/// N is cleared, H is set, C stays.
#[verifier::opaque]
pub open spec fn bit_test(index: u8, value: u8, flags: Flags) -> Flags {
    Flags { zero: (value >> index) & 1 == 0, subtraction: false, half_carry: true, ..flags }
}

/// `value` with bit `index` cleared.
#[verifier::opaque]
pub open spec fn bit_reset(index: u8, value: u8) -> u8 {
    value & !(1u8 << index)
}

/// `value` with bit `index` set.
#[verifier::opaque]
pub open spec fn bit_set(index: u8, value: u8) -> u8 {
    value | (1u8 << index)
}

/// The decimal adjustment of the accumulator after an addition or a
/// subtraction of packed decimal numbers.
///
/// After an addition (N clear) 0x60 is added when C is set or the value is
/// above 0x99, which also sets C, and 0x06 is added when H is set or the low
/// nibble is above 9. After a subtraction (N set) 0x60 is taken off when C is
/// set and 0x06 when H is set. Z follows the result, H is cleared, N stays,
/// and C stays unless it was set on the way.
#[verifier::opaque]
pub open spec fn decimal_adjust(a: u8, flags: Flags) -> (u8, Flags) {
    let high: int = if flags.carry || (!flags.subtraction && a > 0x99) {
        0x60
    } else {
        0
    };
    let low: int = if flags.half_carry || (!flags.subtraction && a % 16 > 9) {
        0x06
    } else {
        0
    };
    let result = if flags.subtraction {
        ((a - high - low) % 256) as u8
    } else {
        ((a + high + low) % 256) as u8
    };
    (
        result,
        Flags {
            zero: result == 0,
            subtraction: flags.subtraction,
            half_carry: false,
            carry: high != 0,
        },
    )
}

/// The complement of the accumulator: N and H are set, Z and C stay.
#[verifier::opaque]
pub open spec fn complement(a: u8, flags: Flags) -> (u8, Flags) {
    (!a, Flags { subtraction: true, half_carry: true, ..flags })
}

/// The flags after `scf`: C is set, N and H are cleared, Z stays.
#[verifier::opaque]
pub open spec fn set_carry(flags: Flags) -> Flags {
    Flags { carry: true, subtraction: false, half_carry: false, ..flags }
}

/// The flags after `ccf`: C is turned over, N and H are cleared, Z stays.
#[verifier::opaque]
pub open spec fn complement_carry(flags: Flags) -> Flags {
    Flags { carry: !flags.carry, subtraction: false, half_carry: false, ..flags }
}

/// An operation that gives an 8-bit operand a new value.
#[derive(Clone, Copy, Debug, PartialEq, Eq, Structural)]
pub enum UnaryOperation {
    Inc,
    Dec,
    Rlc,
    Rrc,
    Rl,
    Rr,
    Sla,
    Sra,
    Swap,
    Srl,
    /// Clears the bit with the given number, taken modulo 8.
    Res(u8),
    /// Sets the bit with the given number, taken modulo 8.
    SetBit(u8),
}

/// An operation of the arithmetic unit on the accumulator and an operand.
#[derive(Clone, Copy, Debug, PartialEq, Eq, Structural)]
pub enum ArithmeticOperation {
    Add,
    Adc,
    Sub,
    Sbc,
    And,
    Xor,
    Or,
    Cp,
}

/// An operation on the accumulator and the flags alone.
#[derive(Clone, Copy, Debug, PartialEq, Eq, Structural)]
pub enum AccumulatorOperation {
    Rlca,
    Rrca,
    Rla,
    Rra,
    Daa,
    Cpl,
    Scf,
    Ccf,
}

/// The new value of an operand and the new flags after `operation`.
#[verifier::opaque]
pub open spec fn unary_outcome(operation: UnaryOperation, value: u8, flags: Flags) -> (u8, Flags) {
    match operation {
        UnaryOperation::Inc => inc8(value, flags),
        UnaryOperation::Dec => dec8(value, flags),
        UnaryOperation::Rlc => rotate_left(value, flags, true, false),
        UnaryOperation::Rrc => rotate_right(value, flags, true, false),
        UnaryOperation::Rl => rotate_left(value, flags, true, true),
        UnaryOperation::Rr => rotate_right(value, flags, true, true),
        UnaryOperation::Sla => shift_left(value),
        UnaryOperation::Sra => shift_right_keeping_sign(value),
        UnaryOperation::Swap => swap(value),
        UnaryOperation::Srl => shift_right(value),
        UnaryOperation::Res(index) => (bit_reset(index % 8, value), flags),
        UnaryOperation::SetBit(index) => (bit_set(index % 8, value), flags),
    }
}

/// The new accumulator and the new flags after `operation` on the
/// accumulator `a` and `value`. A comparison leaves the accumulator alone.
#[verifier::opaque]
pub open spec fn arithmetic_outcome(operation: ArithmeticOperation, a: u8, value: u8, flags: Flags) -> (
    u8,
    Flags,
) {
    match operation {
        ArithmeticOperation::Add => add8(a, value, false),
        ArithmeticOperation::Adc => add8(a, value, flags.carry),
        ArithmeticOperation::Sub => sub8(a, value, false),
        ArithmeticOperation::Sbc => sub8(a, value, flags.carry),
        ArithmeticOperation::And => and8(a, value),
        ArithmeticOperation::Xor => xor8(a, value),
        ArithmeticOperation::Or => or8(a, value),
        ArithmeticOperation::Cp => (a, sub8(a, value, false).1),
    }
}

/// The new accumulator and the new flags after `operation`. The rotates of
/// the accumulator always clear Z.
#[verifier::opaque]
pub open spec fn accumulator_outcome(operation: AccumulatorOperation, a: u8, flags: Flags) -> (
    u8,
    Flags,
) {
    match operation {
        AccumulatorOperation::Rlca => rotate_left(a, flags, false, false),
        AccumulatorOperation::Rrca => rotate_right(a, flags, false, false),
        AccumulatorOperation::Rla => rotate_left(a, flags, false, true),
        AccumulatorOperation::Rra => rotate_right(a, flags, false, true),
        AccumulatorOperation::Daa => decimal_adjust(a, flags),
        AccumulatorOperation::Cpl => complement(a, flags),
        AccumulatorOperation::Scf => (a, set_carry(flags)),
        AccumulatorOperation::Ccf => (a, complement_carry(flags)),
    }
}

/// Masking a number with `2^k - 1` gives its remainder modulo `2^k`.
pub proof fn mask_is_remainder(byte: u8, word: u16)
    ensures
        byte & 0x0F == byte % 16,
        word & 0x0F == word % 16,
        word & 0xFF == word % 256,
        word & 0x0FFF == word % 4096,
{
    assert(byte & 0x0F == byte % 16) by (bit_vector);
    assert(word & 0x0F == word % 16) by (bit_vector);
    assert(word & 0xFF == word % 256) by (bit_vector);
    assert(word & 0x0FFF == word % 4096) by (bit_vector);
}

/// An addition of two bytes without a carry in gives the sum modulo 256,
/// C exactly when the sum does not fit into a byte, H exactly when the sum
/// of the low nibbles does not fit into a nibble, Z exactly when the result
/// is zero, and N cleared.
pub proof fn add8_flags(a: u8, b: u8)
    ensures
        add8(a, b, false).0 == (a + b) % 256,
        add8(a, b, false).1.carry == (a + b >= 256),
        add8(a, b, false).1.half_carry == ((a & 0x0F) + (b & 0x0F) > 0x0F),
        add8(a, b, false).1.zero == (add8(a, b, false).0 == 0),
        !add8(a, b, false).1.subtraction,
{
    reveal(add8);
}

/// The byte that a number between -256 and 511 is modulo 256.
fn wrap_to_byte(value: i16) -> (byte: u8)
    requires
        -256 <= value < 512,
    ensures
        byte == (value as int) % 256,
{
    if value < 0 {
        (value + 256) as u8
    } else if value >= 256 {
        (value - 256) as u8
    } else {
        value as u8
    }
}

impl Cpu {
    pub fn inc_u16(&self, val: u16) -> (result: u16)
        ensures
            result == (val + 1) % 0x1_0000,
    {
        val.wrapping_add(1)
    }

    pub fn dec_u16(&self, val: u16) -> (result: u16)
        ensures
            result == (val - 1) % 0x1_0000,
    {
        val.wrapping_sub(1)
    }

    pub fn inc_u8(&mut self, val: u8) -> (result: u8)
        ensures
            result == inc8(val, old(self)@.state.flags).0,
            final(self)@ == old(self)@.with_flags(inc8(val, old(self)@.state.flags).1),
    {
        reveal(inc8);
        let carry = self.state.flags().carry;
        let result = self.add_u8(val, 1);
        let flags = self.state.flags().with_carry(carry);
        self.state.set_flags(flags);
        result
    }

    pub fn dec_u8(&mut self, val: u8) -> (result: u8)
        ensures
            result == dec8(val, old(self)@.state.flags).0,
            final(self)@ == old(self)@.with_flags(dec8(val, old(self)@.state.flags).1),
    {
        reveal(dec8);
        let carry = self.state.flags().carry;
        let result = self.sub_u8(1, val);
        let flags = self.state.flags().with_carry(carry);
        self.state.set_flags(flags);
        result
    }

    /// `add hl, rr`: adds two words and leaves Z as it is.
    pub fn add_hl(&mut self, v1: u16, v2: u16) -> (result: u16)
        ensures
            result == add_hl(v1, v2, old(self)@.state.flags).0,
            final(self)@ == old(self)@.with_flags(add_hl(v1, v2, old(self)@.state.flags).1),
    {
        reveal(add_hl);
        self.generic_add_u16(v1, v2, false, false)
    }

    /// Adds two words and lets Z follow the result.
    pub fn add_u16(&mut self, v1: u16, v2: u16) -> (result: u16)
        ensures
            result == add16(v1, v2, false).0,
            final(self)@ == old(self)@.with_flags(add16(v1, v2, false).1),
    {
        reveal(add16);
        self.generic_add_u16(v1, v2, false, true)
    }

    /// Adds two words and the carry flag.
    pub fn adc_u16(&mut self, v1: u16, v2: u16) -> (result: u16)
        ensures
            result == add16(v1, v2, old(self)@.state.flags.carry).0,
            final(self)@ == old(self)@.with_flags(add16(v1, v2, old(self)@.state.flags.carry).1),
    {
        reveal(add16);
        self.generic_add_u16(v1, v2, true, true)
    }

    fn generic_add_u16(&mut self, v1: u16, v2: u16, with_carry: bool, update_zero_flag: bool) -> (result:
        u16)
        ensures
            result == add16(v1, v2, with_carry && old(self)@.state.flags.carry).0,
            final(self)@ == old(self)@.with_flags(
                Flags {
                    zero: if update_zero_flag {
                        result == 0
                    } else {
                        old(self)@.state.flags.zero
                    },
                    ..add16(v1, v2, with_carry && old(self)@.state.flags.carry).1
                },
            ),
    {
        reveal(add16);
        proof {
            mask_is_remainder(0, v1);
            mask_is_remainder(0, v2);
        }
        let carry: u32 = if with_carry && self.state.flags().carry { 1 } else { 0 };
        let sum: u32 = v1 as u32 + v2 as u32 + carry;
        let result: u16 = if sum > 0xFFFF {
            (sum - 0x1_0000) as u16
        } else {
            sum as u16
        };
        let half_carry = (v1 & 0x0FFF) as u32 + (v2 & 0x0FFF) as u32 + carry > 0x0FFF;
        let zero_before = self.state.flags().zero;
        let flags = Flags::new(
            sum > 0xFFFF,
            half_carry,
            false,
            if update_zero_flag {
                result == 0
            } else {
                zero_before
            },
        );
        self.state.set_flags(flags);
        result
    }

    /// The stack pointer moved by the signed offset `val`.
    pub fn add_sp(&mut self, sp: u16, val: u8) -> (result: u16)
        ensures
            result == add_sp(sp, val).0,
            final(self)@ == old(self)@.with_flags(add_sp(sp, val).1),
    {
        reveal(add_sp);
        proof {
            mask_is_remainder(val, sp);
        }
        let half_carry = (sp & 0x0F) + (val & 0x0F) as u16 > 0x0F;
        let carry = (sp & 0xFF) + val as u16 > 0xFF;
        let moved: i32 = if val < 128 {
            sp as i32 + val as i32
        } else {
            sp as i32 + val as i32 - 256
        };
        let result: u16 = if moved < 0 {
            (moved + 0x1_0000) as u16
        } else if moved >= 0x1_0000 {
            (moved - 0x1_0000) as u16
        } else {
            moved as u16
        };
        self.state.set_flags(Flags::new(carry, half_carry, false, false));
        result
    }

    pub fn add_u8(&mut self, v1: u8, v2: u8) -> (result: u8)
        ensures
            result == add8(v1, v2, false).0,
            final(self)@ == old(self)@.with_flags(add8(v1, v2, false).1),
    {
        self.generic_add_u8(v1, v2, false)
    }

    pub fn adc_u8(&mut self, v1: u8, v2: u8) -> (result: u8)
        ensures
            result == add8(v1, v2, old(self)@.state.flags.carry).0,
            final(self)@ == old(self)@.with_flags(add8(v1, v2, old(self)@.state.flags.carry).1),
    {
        self.generic_add_u8(v1, v2, true)
    }

    fn generic_add_u8(&mut self, v1: u8, v2: u8, with_carry: bool) -> (result: u8)
        ensures
            result == add8(v1, v2, with_carry && old(self)@.state.flags.carry).0,
            final(self)@ == old(self)@.with_flags(
                add8(v1, v2, with_carry && old(self)@.state.flags.carry).1,
            ),
    {
        reveal(add8);
        proof {
            mask_is_remainder(v1, 0);
            mask_is_remainder(v2, 0);
        }
        let carry: u16 = if with_carry && self.state.flags().carry { 1 } else { 0 };
        let sum: u16 = v1 as u16 + v2 as u16 + carry;
        let result: u8 = if sum > 0xFF {
            (sum - 256) as u8
        } else {
            sum as u8
        };
        let half_carry = (v1 & 0x0F) as u16 + (v2 & 0x0F) as u16 + carry > 0x0F;
        let flags = Flags::new(sum > 0xFF, half_carry, false, result == 0);
        self.state.set_flags(flags);
        result
    }

    /// `v2 - v1` for words.
    pub fn sub_u16(&mut self, v1: u16, v2: u16) -> (result: u16)
        ensures
            result == sub16(v2, v1, false).0,
            final(self)@ == old(self)@.with_flags(sub16(v2, v1, false).1),
    {
        self.generic_sub_u16(v1, v2, false)
    }

    /// `v2 - v1` for words, less the carry flag.
    pub fn sbc_u16(&mut self, v1: u16, v2: u16) -> (result: u16)
        ensures
            result == sub16(v2, v1, old(self)@.state.flags.carry).0,
            final(self)@ == old(self)@.with_flags(sub16(v2, v1, old(self)@.state.flags.carry).1),
    {
        self.generic_sub_u16(v1, v2, true)
    }

    fn generic_sub_u16(&mut self, v1: u16, v2: u16, with_carry: bool) -> (result: u16)
        ensures
            result == sub16(v2, v1, with_carry && old(self)@.state.flags.carry).0,
            final(self)@ == old(self)@.with_flags(
                sub16(v2, v1, with_carry && old(self)@.state.flags.carry).1,
            ),
    {
        reveal(sub16);
        proof {
            mask_is_remainder(0, v1);
            mask_is_remainder(0, v2);
        }
        let carry: i32 = if with_carry && self.state.flags().carry { 1 } else { 0 };
        let difference: i32 = v2 as i32 - v1 as i32 - carry;
        let borrow = difference < 0;
        let result: u16 = if borrow {
            (difference + 0x1_0000) as u16
        } else {
            difference as u16
        };
        let half_borrow = ((v2 & 0x0FFF) as i32) < (v1 & 0x0FFF) as i32 + carry;
        self.state.set_flags(Flags::new(borrow, half_borrow, true, result == 0));
        result
    }

    /// `v2 - v1`.
    pub fn sub_u8(&mut self, v1: u8, v2: u8) -> (result: u8)
        ensures
            result == sub8(v2, v1, false).0,
            final(self)@ == old(self)@.with_flags(sub8(v2, v1, false).1),
    {
        self.generic_sub_u8(v1, v2, false)
    }

    /// `v2 - v1`, less the carry flag.
    pub fn sbc_u8(&mut self, v1: u8, v2: u8) -> (result: u8)
        ensures
            result == sub8(v2, v1, old(self)@.state.flags.carry).0,
            final(self)@ == old(self)@.with_flags(sub8(v2, v1, old(self)@.state.flags.carry).1),
    {
        self.generic_sub_u8(v1, v2, true)
    }

    fn generic_sub_u8(&mut self, v1: u8, v2: u8, with_carry: bool) -> (result: u8)
        ensures
            result == sub8(v2, v1, with_carry && old(self)@.state.flags.carry).0,
            final(self)@ == old(self)@.with_flags(
                sub8(v2, v1, with_carry && old(self)@.state.flags.carry).1,
            ),
    {
        reveal(sub8);
        proof {
            mask_is_remainder(v1, 0);
            mask_is_remainder(v2, 0);
        }
        let carry: i16 = if with_carry && self.state.flags().carry { 1 } else { 0 };
        let difference: i16 = v2 as i16 - v1 as i16 - carry;
        let borrow = difference < 0;
        let result: u8 = if borrow {
            (difference + 256) as u8
        } else {
            difference as u8
        };
        let half_borrow = ((v2 & 0x0F) as i16) < (v1 & 0x0F) as i16 + carry;
        self.state.set_flags(Flags::new(borrow, half_borrow, true, result == 0));
        result
    }

    pub fn and_u8(&mut self, v1: u8, v2: u8) -> (result: u8)
        ensures
            result == and8(v1, v2).0,
            final(self)@ == old(self)@.with_flags(and8(v1, v2).1),
    {
        reveal(and8);
        let result = v1 & v2;
        let flags = Flags::new(false, true, false, result == 0);
        self.state.set_flags(flags);
        result
    }

    pub fn xor_u8(&mut self, v1: u8, v2: u8) -> (result: u8)
        ensures
            result == xor8(v1, v2).0,
            final(self)@ == old(self)@.with_flags(xor8(v1, v2).1),
    {
        reveal(xor8);
        let result = v1 ^ v2;
        let flags = Flags::zeros().with_zero(result == 0);
        self.state.set_flags(flags);
        result
    }

    pub fn or_u8(&mut self, v1: u8, v2: u8) -> (result: u8)
        ensures
            result == or8(v1, v2).0,
            final(self)@ == old(self)@.with_flags(or8(v1, v2).1),
    {
        reveal(or8);
        let result = v1 | v2;
        let flags = Flags::zeros().with_zero(result == 0);
        self.state.set_flags(flags);
        result
    }

    /// Compares `v2` with `v1`: the flags of `v2 - v1`, the result dropped.
    pub fn cp_u8(&mut self, v1: u8, v2: u8)
        ensures
            final(self)@ == old(self)@.with_flags(sub8(v2, v1, false).1),
    {
        self.sub_u8(v1, v2);
    }

    pub fn decimal_adjust(&mut self, a: u8) -> (result: u8)
        ensures
            result == decimal_adjust(a, old(self)@.state.flags).0,
            final(self)@ == old(self)@.with_flags(decimal_adjust(a, old(self)@.state.flags).1),
    {
        reveal(decimal_adjust);
        let flags = *self.state.flags();
        let high: i16 = if flags.carry || (!flags.subtraction && a > 0x99) {
            0x60
        } else {
            0
        };
        let low: i16 = if flags.half_carry || (!flags.subtraction && a % 16 > 0x09) {
            0x06
        } else {
            0
        };
        let adjusted: i16 = if flags.subtraction {
            a as i16 - high - low
        } else {
            a as i16 + high + low
        };
        let result: u8 = wrap_to_byte(adjusted);
        self.state.set_flags(Flags::new(high != 0, false, flags.subtraction, result == 0));
        result
    }

    pub fn rotate_left_u8(&mut self, v: u8, update_zero_flag: bool, through_carry: bool) -> (result:
        u8)
        ensures
            result == rotate_left(v, old(self)@.state.flags, update_zero_flag, through_carry).0,
            final(self)@ == old(self)@.with_flags(
                rotate_left(v, old(self)@.state.flags, update_zero_flag, through_carry).1,
            ),
    {
        reveal(rotate_left);
        reveal(shifted);
        let carry = v / 128;
        let low: u8 = if through_carry {
            if self.state.flags().carry {
                1
            } else {
                0
            }
        } else {
            carry
        };
        let result = (v % 128) * 2 + low;
        let flags = Flags::new(carry != 0, false, false, update_zero_flag && result == 0);
        self.state.set_flags(flags);
        result
    }

    pub fn rotate_right_u8(&mut self, v: u8, update_zero_flag: bool, through_carry: bool) -> (result:
        u8)
        ensures
            result == rotate_right(v, old(self)@.state.flags, update_zero_flag, through_carry).0,
            final(self)@ == old(self)@.with_flags(
                rotate_right(v, old(self)@.state.flags, update_zero_flag, through_carry).1,
            ),
    {
        reveal(rotate_right);
        reveal(shifted);
        let carry = v % 2;
        let high: u8 = if through_carry {
            if self.state.flags().carry {
                128
            } else {
                0
            }
        } else {
            carry * 128
        };
        let result = v / 2 + high;
        let flags = Flags::new(carry != 0, false, false, update_zero_flag && result == 0);
        self.state.set_flags(flags);
        result
    }

    /// The complement of `v`, as `cpl` computes it.
    pub fn not_u8(&mut self, v: u8) -> (result: u8)
        ensures
            result == complement(v, old(self)@.state.flags).0,
            final(self)@ == old(self)@.with_flags(complement(v, old(self)@.state.flags).1),
    {
        reveal(complement);
        let result = !v;
        let flags = self.state.flags().with_subtraction(true).with_half_carry(true);
        self.state.set_flags(flags);
        result
    }

    pub fn swap_u8(&mut self, v: u8) -> (result: u8)
        ensures
            result == swap(v).0,
            final(self)@ == old(self)@.with_flags(swap(v).1),
    {
        reveal(swap);
        reveal(shifted);
        let result = (v % 16) * 16 + v / 16;
        self.state.set_flags(Flags::new(false, false, false, result == 0));
        result
    }

    pub fn shift_left_arithmetic(&mut self, v: u8) -> (result: u8)
        ensures
            result == shift_left(v).0,
            final(self)@ == old(self)@.with_flags(shift_left(v).1),
    {
        reveal(shift_left);
        reveal(shifted);
        let carry = v >= 128;
        let result = (v % 128) * 2;
        self.state.set_flags(Flags::new(carry, false, false, result == 0));
        result
    }

    pub fn shift_right_arithmetic(&mut self, v: u8) -> (result: u8)
        ensures
            result == shift_right_keeping_sign(v).0,
            final(self)@ == old(self)@.with_flags(shift_right_keeping_sign(v).1),
    {
        reveal(shift_right_keeping_sign);
        reveal(shifted);
        let carry = v % 2 == 1;
        let result = v / 2 + (v / 128) * 128;
        self.state.set_flags(Flags::new(carry, false, false, result == 0));
        result
    }

    pub fn shift_right_logical(&mut self, v: u8) -> (result: u8)
        ensures
            result == shift_right(v).0,
            final(self)@ == old(self)@.with_flags(shift_right(v).1),
    {
        reveal(shift_right);
        reveal(shifted);
        let carry = v % 2 == 1;
        let result = v / 2;
        self.state.set_flags(Flags::new(carry, false, false, result == 0));
        result
    }

    /// Tests bit `idx` of `v`.
    pub fn test_bit_u8(&mut self, idx: u8, v: u8)
        requires
            idx < 8,
        ensures
            final(self)@ == old(self)@.with_flags(bit_test(idx, v, old(self)@.state.flags)),
    {
        reveal(bit_test);
        let zero = ((v >> idx) & 1) == 0;
        let flags = self.state.flags().with_half_carry(true).with_subtraction(false).with_zero(
            zero,
        );
        self.state.set_flags(flags);
    }

    pub fn reset_bit_u8(&self, idx: u8, v: u8) -> (result: u8)
        requires
            idx < 8,
        ensures
            result == bit_reset(idx, v),
    {
        reveal(bit_reset);
        let mask = !(1u8 << idx);
        v & mask
    }

    pub fn set_bit_u8(&self, idx: u8, v: u8) -> (result: u8)
        requires
            idx < 8,
        ensures
            result == bit_set(idx, v),
    {
        reveal(bit_set);
        let mask = 1u8 << idx;
        v | mask
    }
    /// Computes `operation` on `value` and sets the flags.
    pub fn unary(&mut self, operation: UnaryOperation, value: u8) -> (result: u8)
        ensures
            result == unary_outcome(operation, value, old(self)@.state.flags).0,
            final(self)@ == old(self)@.with_flags(
                unary_outcome(operation, value, old(self)@.state.flags).1,
            ),
    {
        reveal(unary_outcome);
        match operation {
            UnaryOperation::Inc => self.inc_u8(value),
            UnaryOperation::Dec => self.dec_u8(value),
            UnaryOperation::Rlc => self.rotate_left_u8(value, true, false),
            UnaryOperation::Rrc => self.rotate_right_u8(value, true, false),
            UnaryOperation::Rl => self.rotate_left_u8(value, true, true),
            UnaryOperation::Rr => self.rotate_right_u8(value, true, true),
            UnaryOperation::Sla => self.shift_left_arithmetic(value),
            UnaryOperation::Sra => self.shift_right_arithmetic(value),
            UnaryOperation::Swap => self.swap_u8(value),
            UnaryOperation::Srl => self.shift_right_logical(value),
            UnaryOperation::Res(index) => self.reset_bit_u8(index % 8, value),
            UnaryOperation::SetBit(index) => self.set_bit_u8(index % 8, value),
        }
    }

    /// Computes `operation` on the accumulator `a` and `value` and sets the
    /// flags. Returns the new accumulator.
    pub fn arithmetic(&mut self, operation: ArithmeticOperation, a: u8, value: u8) -> (result: u8)
        ensures
            result == arithmetic_outcome(operation, a, value, old(self)@.state.flags).0,
            final(self)@ == old(self)@.with_flags(
                arithmetic_outcome(operation, a, value, old(self)@.state.flags).1,
            ),
    {
        reveal(arithmetic_outcome);
        match operation {
            ArithmeticOperation::Add => self.add_u8(a, value),
            ArithmeticOperation::Adc => self.adc_u8(a, value),
            ArithmeticOperation::Sub => self.sub_u8(value, a),
            ArithmeticOperation::Sbc => self.sbc_u8(value, a),
            ArithmeticOperation::And => self.and_u8(a, value),
            ArithmeticOperation::Xor => self.xor_u8(a, value),
            ArithmeticOperation::Or => self.or_u8(a, value),
            ArithmeticOperation::Cp => {
                self.cp_u8(value, a);
                a
            },
        }
    }

    /// Computes `operation` on the accumulator `a` and sets the flags.
    /// Returns the new accumulator.
    pub fn accumulator(&mut self, operation: AccumulatorOperation, a: u8) -> (result: u8)
        ensures
            result == accumulator_outcome(operation, a, old(self)@.state.flags).0,
            final(self)@ == old(self)@.with_flags(
                accumulator_outcome(operation, a, old(self)@.state.flags).1,
            ),
    {
        reveal(accumulator_outcome);
        match operation {
            AccumulatorOperation::Rlca => self.rotate_left_u8(a, false, false),
            AccumulatorOperation::Rrca => self.rotate_right_u8(a, false, false),
            AccumulatorOperation::Rla => self.rotate_left_u8(a, false, true),
            AccumulatorOperation::Rra => self.rotate_right_u8(a, false, true),
            AccumulatorOperation::Daa => self.decimal_adjust(a),
            AccumulatorOperation::Cpl => self.not_u8(a),
            AccumulatorOperation::Scf => {
                reveal(set_carry);
                let flags = self.state.flags().with_subtraction(false).with_half_carry(
                    false,
                ).with_carry(true);
                self.state.set_flags(flags);
                a
            },
            AccumulatorOperation::Ccf => {
                reveal(complement_carry);
                let carry = self.state.flags().carry;
                let flags = self.state.flags().with_subtraction(false).with_half_carry(
                    false,
                ).with_carry(!carry);
                self.state.set_flags(flags);
                a
            },
        }
    }
}

} // verus!
