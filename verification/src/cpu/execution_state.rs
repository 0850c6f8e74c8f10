use vstd::prelude::*;
use vstd::std_specs::convert::FromSpecImpl;
use vstd::std_specs::ops::BitAndSpecImpl;
use vstd::std_specs::ops::BitOrSpecImpl;
use crate::text::{chars_of_text, hex_word, push_hex_word, push_text, string_of_chars};

verus! {

/// The flag quartet of the F register.
#[derive(Clone, Copy, Debug, PartialEq, Eq, Structural)]
pub struct Flags {
    pub carry: bool,
    pub half_carry: bool,
    pub subtraction: bool,
    pub zero: bool,
}

/// The byte that F reads as: Z, N, H and C in bits 7 to 4, the low nibble zero.
pub open spec fn flags_to_byte(flags: Flags) -> u8 {
    ((if flags.zero { 128int } else { 0 }) + (if flags.subtraction { 64int } else { 0 }) + (
    if flags.half_carry { 32int } else { 0 }) + (if flags.carry { 16int } else { 0 })) as u8
}

/// The flags that a byte written to F gives: its low nibble is dropped.
pub open spec fn flags_from_byte(value: u8) -> Flags {
    Flags {
        carry: (value / 16) % 2 == 1,
        half_carry: (value / 32) % 2 == 1,
        subtraction: (value / 64) % 2 == 1,
        zero: (value / 128) % 2 == 1,
    }
}

/// Unpacking a packed flag quartet gives it back, and packing what a byte
/// unpacks to clears the byte's low nibble.
pub proof fn flags_byte_round_trip(flags: Flags, value: u8)
    ensures
        flags_from_byte(flags_to_byte(flags)) == flags,
        flags_to_byte(flags_from_byte(value)) == value - value % 16,
        flags_to_byte(flags) % 16 == 0,
{
}

impl Flags {
    pub fn new(carry: bool, half_carry: bool, subtraction: bool, zero: bool) -> (flags: Self)
        ensures
            flags == (Flags { carry, half_carry, subtraction, zero }),
    {
        Self { carry, half_carry, subtraction, zero }
    }

    pub fn zeros() -> (flags: Self)
        ensures
            flags == (Flags { carry: false, half_carry: false, subtraction: false, zero: false }),
    {
        Self { carry: false, half_carry: false, subtraction: false, zero: false }
    }

    pub fn with_zero(self, zero: bool) -> (flags: Self)
        ensures
            flags == (Flags { zero, ..self }),
    {
        Self { zero, ..self }
    }

    pub fn just_zero() -> (flags: Self)
        ensures
            flags == (Flags { carry: false, half_carry: false, subtraction: false, zero: true }),
    {
        Self { carry: false, half_carry: false, subtraction: false, zero: true }
    }

    pub fn with_carry(self, carry: bool) -> (flags: Self)
        ensures
            flags == (Flags { carry, ..self }),
    {
        Self { carry, ..self }
    }

    pub fn just_carry() -> (flags: Self)
        ensures
            flags == (Flags { carry: true, half_carry: false, subtraction: false, zero: false }),
    {
        Self { carry: true, half_carry: false, subtraction: false, zero: false }
    }

    pub fn with_half_carry(self, half_carry: bool) -> (flags: Self)
        ensures
            flags == (Flags { half_carry, ..self }),
    {
        Self { half_carry, ..self }
    }

    pub fn just_half_carry() -> (flags: Self)
        ensures
            flags == (Flags { carry: false, half_carry: true, subtraction: false, zero: false }),
    {
        Self { carry: false, half_carry: true, subtraction: false, zero: false }
    }

    pub fn with_subtraction(self, subtraction: bool) -> (flags: Self)
        ensures
            flags == (Flags { subtraction, ..self }),
    {
        Self { subtraction, ..self }
    }

    pub fn just_subtraction() -> (flags: Self)
        ensures
            flags == (Flags { carry: false, half_carry: false, subtraction: true, zero: false }),
    {
        Self { carry: false, half_carry: false, subtraction: true, zero: false }
    }

    /// The four characters that show the flags: the letters `z`, `n`, `h`
    /// and `c` for the flags that are set, and a dash for each that is not.
    pub open spec fn text(self) -> Seq<char> {
        seq![
            if self.zero { 'z' } else { '-' },
            if self.subtraction { 'n' } else { '-' },
            if self.half_carry { 'h' } else { '-' },
            if self.carry { 'c' } else { '-' },
        ]
    }

    /// The four characters that show the flags.
    pub fn to_string(&self) -> (text: String)
        ensures
            text@ == self.text(),
    {
        let mut chars: Vec<char> = Vec::new();
        self.push_text(&mut chars);
        assert(chars@ =~= self.text());
        string_of_chars(&chars)
    }

    /// Appends the four characters that show the flags to `chars`.
    fn push_text(&self, chars: &mut Vec<char>)
        ensures
            final(chars)@ == old(chars)@ + self.text(),
    {
        chars.push(if self.zero { 'z' } else { '-' });
        chars.push(if self.subtraction { 'n' } else { '-' });
        chars.push(if self.half_carry { 'h' } else { '-' });
        chars.push(if self.carry { 'c' } else { '-' });
        assert(chars@ =~= old(chars)@ + self.text());
    }

    /// Takes from `rhs` each flag that `mask` selects and keeps the others.
    pub fn set_with_mask(self, rhs: Flags, mask: Flags) -> (flags: Self)
        ensures
            flags == (Flags {
                carry: if mask.carry { rhs.carry } else { self.carry },
                half_carry: if mask.half_carry { rhs.half_carry } else { self.half_carry },
                subtraction: if mask.subtraction { rhs.subtraction } else { self.subtraction },
                zero: if mask.zero { rhs.zero } else { self.zero },
            }),
    {
        Self {
            carry: if mask.carry { rhs.carry } else { self.carry },
            half_carry: if mask.half_carry { rhs.half_carry } else { self.half_carry },
            subtraction: if mask.subtraction { rhs.subtraction } else { self.subtraction },
            zero: if mask.zero { rhs.zero } else { self.zero },
        }
    }
}

impl core::ops::BitAnd for Flags {
    type Output = Flags;

    fn bitand(self, rhs: Self) -> (flags: Flags) {
        Flags {
            carry: self.carry && rhs.carry,
            half_carry: self.half_carry && rhs.half_carry,
            subtraction: self.subtraction && rhs.subtraction,
            zero: self.zero && rhs.zero,
        }
    }
}

impl BitAndSpecImpl for Flags {
    open spec fn obeys_bitand_spec() -> bool {
        true
    }

    open spec fn bitand_req(self, rhs: Self) -> bool {
        true
    }

    open spec fn bitand_spec(self, rhs: Self) -> Flags {
        Flags {
            carry: self.carry && rhs.carry,
            half_carry: self.half_carry && rhs.half_carry,
            subtraction: self.subtraction && rhs.subtraction,
            zero: self.zero && rhs.zero,
        }
    }
}

impl core::ops::BitAndAssign for Flags {
    fn bitand_assign(&mut self, rhs: Self)
        ensures
            *final(self) == (Flags {
                carry: old(self).carry && rhs.carry,
                half_carry: old(self).half_carry && rhs.half_carry,
                subtraction: old(self).subtraction && rhs.subtraction,
                zero: old(self).zero && rhs.zero,
            }),
    {
        *self = *self & rhs;
    }
}

impl core::ops::BitOrAssign for Flags {
    fn bitor_assign(&mut self, rhs: Self)
        ensures
            *final(self) == (Flags {
                carry: old(self).carry || rhs.carry,
                half_carry: old(self).half_carry || rhs.half_carry,
                subtraction: old(self).subtraction || rhs.subtraction,
                zero: old(self).zero || rhs.zero,
            }),
    {
        *self = *self | rhs;
    }
}

impl core::ops::BitOr for Flags {
    type Output = Flags;

    fn bitor(self, rhs: Self) -> (flags: Flags) {
        Flags {
            carry: self.carry || rhs.carry,
            half_carry: self.half_carry || rhs.half_carry,
            subtraction: self.subtraction || rhs.subtraction,
            zero: self.zero || rhs.zero,
        }
    }
}

impl BitOrSpecImpl for Flags {
    open spec fn obeys_bitor_spec() -> bool {
        true
    }

    open spec fn bitor_req(self, rhs: Self) -> bool {
        true
    }

    open spec fn bitor_spec(self, rhs: Self) -> Flags {
        Flags {
            carry: self.carry || rhs.carry,
            half_carry: self.half_carry || rhs.half_carry,
            subtraction: self.subtraction || rhs.subtraction,
            zero: self.zero || rhs.zero,
        }
    }
}

impl From<u8> for Flags {
    fn from(value: u8) -> (flags: Flags) {
        Flags {
            carry: (value / 16) % 2 == 1,
            half_carry: (value / 32) % 2 == 1,
            subtraction: (value / 64) % 2 == 1,
            zero: (value / 128) % 2 == 1,
        }
    }
}

impl FromSpecImpl<u8> for Flags {
    open spec fn obeys_from_spec() -> bool {
        true
    }

    open spec fn from_spec(value: u8) -> Flags {
        flags_from_byte(value)
    }
}

impl From<Flags> for u8 {
    fn from(value: Flags) -> (byte: u8) {
        let z: u8 = if value.zero { 128 } else { 0 };
        let n: u8 = if value.subtraction { 64 } else { 0 };
        let h: u8 = if value.half_carry { 32 } else { 0 };
        let c: u8 = if value.carry { 16 } else { 0 };
        z + n + h + c
    }
}

impl FromSpecImpl<Flags> for u8 {
    open spec fn obeys_from_spec() -> bool {
        true
    }

    open spec fn from_spec(value: Flags) -> u8 {
        flags_to_byte(value)
    }
}

impl From<Flags> for u16 {
    fn from(value: Flags) -> (word: u16) {
        let byte: u8 = u8::from(value);
        byte as u16
    }
}

impl FromSpecImpl<Flags> for u16 {
    open spec fn obeys_from_spec() -> bool {
        true
    }

    open spec fn from_spec(value: Flags) -> u16 {
        flags_to_byte(value) as u16
    }
}

/// The register file: program counter, stack pointer, the register pairs,
/// the accumulator with its flags, and the interrupt master enable.
#[derive(Clone, Copy, Debug)]
pub struct ExecutionState {
    instruction_pointer: u16,
    stack_pointer: u16,
    reg_bc: u16,
    reg_de: u16,
    reg_hl: u16,
    reg_a: u8,
    flags: Flags,
    interrupts_enabled: bool,
}

/// What an [`ExecutionState`] holds.
pub struct ExecutionStateView {
    pub instruction_pointer: u16,
    pub stack_pointer: u16,
    pub reg_bc: u16,
    pub reg_de: u16,
    pub reg_hl: u16,
    pub reg_a: u8,
    pub flags: Flags,
    pub interrupts_enabled: bool,
}

/// The high byte of a register pair.
pub open spec fn high_byte(pair: u16) -> u8 {
    (pair / 256) as u8
}

/// The low byte of a register pair.
pub open spec fn low_byte(pair: u16) -> u8 {
    (pair % 256) as u8
}

/// The register pair made of a high and a low byte.
pub open spec fn pair_of(high: u8, low: u8) -> u16 {
    (high * 256 + low) as u16
}

impl ExecutionStateView {
    /// The AF pair: the accumulator above the packed flags.
    pub open spec fn reg_af(self) -> u16 {
        pair_of(self.reg_a, flags_to_byte(self.flags))
    }

    pub open spec fn reg_b(self) -> u8 {
        high_byte(self.reg_bc)
    }

    pub open spec fn reg_c(self) -> u8 {
        low_byte(self.reg_bc)
    }

    pub open spec fn reg_d(self) -> u8 {
        high_byte(self.reg_de)
    }

    pub open spec fn reg_e(self) -> u8 {
        low_byte(self.reg_de)
    }

    pub open spec fn reg_h(self) -> u8 {
        high_byte(self.reg_hl)
    }

    pub open spec fn reg_l(self) -> u8 {
        low_byte(self.reg_hl)
    }

    /// The state after a write to AF: the low nibble of F is dropped.
    pub open spec fn with_af(self, value: u16) -> Self {
        ExecutionStateView {
            reg_a: high_byte(value),
            flags: flags_from_byte(low_byte(value)),
            ..self
        }
    }

    pub open spec fn with_flags(self, flags: Flags) -> Self {
        ExecutionStateView { flags, ..self }
    }

    /// The line that shows the registers: each register with its name and
    /// its four hexadecimal digits, and the flags at the end.
    pub open spec fn text(self) -> Seq<char> {
        "IP: "@ + hex_word(self.instruction_pointer, false) + " SP: "@ + hex_word(
            self.stack_pointer,
            false,
        ) + " BC: "@ + hex_word(self.reg_bc, false) + " DE: "@ + hex_word(self.reg_de, false)
            + " HL: "@ + hex_word(self.reg_hl, false) + " AF: "@ + hex_word(self.reg_af(), false)
            + " "@ + self.flags.text()
    }
}

impl View for ExecutionState {
    type V = ExecutionStateView;

    closed spec fn view(&self) -> ExecutionStateView {
        ExecutionStateView {
            instruction_pointer: self.instruction_pointer,
            stack_pointer: self.stack_pointer,
            reg_bc: self.reg_bc,
            reg_de: self.reg_de,
            reg_hl: self.reg_hl,
            reg_a: self.reg_a,
            flags: self.flags,
            interrupts_enabled: self.interrupts_enabled,
        }
    }
}

impl ExecutionState {
    /// The state at power on: everything zero but the stack pointer, which
    /// starts at the top of the address space.
    pub fn new() -> (state: Self)
        ensures
            state@ == (ExecutionStateView {
                instruction_pointer: 0,
                stack_pointer: 0xFFFF,
                reg_bc: 0,
                reg_de: 0,
                reg_hl: 0,
                reg_a: 0,
                flags: Flags { carry: false, half_carry: false, subtraction: false, zero: false },
                interrupts_enabled: false,
            }),
    {
        Self {
            instruction_pointer: 0,
            stack_pointer: 0xFFFF,
            reg_bc: 0,
            reg_de: 0,
            reg_hl: 0,
            reg_a: 0,
            flags: Flags::zeros(),
            interrupts_enabled: false,
        }
    }

    /// The line that shows the registers.
    pub fn to_string(&self) -> (text: String)
        ensures
            text@ == self@.text(),
    {
        let mut chars = chars_of_text("IP: ");
        push_hex_word(&mut chars, self.instruction_pointer, false);
        push_text(&mut chars, " SP: ");
        push_hex_word(&mut chars, self.stack_pointer, false);
        push_text(&mut chars, " BC: ");
        push_hex_word(&mut chars, self.reg_bc, false);
        push_text(&mut chars, " DE: ");
        push_hex_word(&mut chars, self.reg_de, false);
        push_text(&mut chars, " HL: ");
        push_hex_word(&mut chars, self.reg_hl, false);
        push_text(&mut chars, " AF: ");
        push_hex_word(&mut chars, self.reg_af(), false);
        push_text(&mut chars, " ");
        self.flags.push_text(&mut chars);
        string_of_chars(&chars)
    }

    pub fn reg_af(&self) -> (value: u16)
        ensures
            value == self@.reg_af(),
    {
        let low: u8 = u8::from(self.flags);
        (self.reg_a as u16) * 256 + low as u16
    }

    pub fn set_reg_af(&mut self, value: u16)
        ensures
            final(self)@ == old(self)@.with_af(value),
    {
        self.reg_a = (value / 256) as u8;
        self.flags = Flags::from((value % 256) as u8);
    }

    pub fn instruction_pointer(&self) -> (value: u16)
        ensures
            value == self@.instruction_pointer,
    {
        self.instruction_pointer
    }

    pub fn set_instruction_pointer(&mut self, value: u16)
        ensures
            final(self)@ == (ExecutionStateView { instruction_pointer: value, ..old(self)@ }),
    {
        self.instruction_pointer = value;
    }

    pub fn stack_pointer(&self) -> (value: u16)
        ensures
            value == self@.stack_pointer,
    {
        self.stack_pointer
    }

    pub fn set_stack_pointer(&mut self, value: u16)
        ensures
            final(self)@ == (ExecutionStateView { stack_pointer: value, ..old(self)@ }),
    {
        self.stack_pointer = value;
    }

    pub fn set_flags(&mut self, flags: Flags)
        ensures
            final(self)@ == old(self)@.with_flags(flags),
    {
        self.flags = flags
    }

    pub fn flags(&self) -> (flags: &Flags)
        ensures
            *flags == self@.flags,
    {
        &self.flags
    }

    pub fn flags_mut(&mut self) -> (flags: &mut Flags)
        ensures
            *flags == old(self)@.flags,
            final(self)@ == old(self)@.with_flags(*final(flags)),
    {
        &mut self.flags
    }

    pub fn interrupts_enabled(&self) -> (enabled: bool)
        ensures
            enabled == self@.interrupts_enabled,
    {
        self.interrupts_enabled
    }

    pub fn set_interrupts_enabled(&mut self, enabled: bool)
        ensures
            final(self)@ == (ExecutionStateView { interrupts_enabled: enabled, ..old(self)@ }),
    {
        self.interrupts_enabled = enabled;
    }

    pub fn reg_a(&self) -> (value: u8)
        ensures
            value == self@.reg_a,
    {
        self.reg_a
    }

    pub fn set_reg_a(&mut self, value: u8)
        ensures
            final(self)@ == (ExecutionStateView { reg_a: value, ..old(self)@ }),
    {
        self.reg_a = value;
    }

    pub fn reg_bc(&self) -> (value: u16)
        ensures
            value == self@.reg_bc,
    {
        self.reg_bc
    }

    pub fn set_reg_bc(&mut self, value: u16)
        ensures
            final(self)@ == (ExecutionStateView { reg_bc: value, ..old(self)@ }),
    {
        self.reg_bc = value;
    }

    pub fn reg_b(&self) -> (value: u8)
        ensures
            value == self@.reg_b(),
    {
        (self.reg_bc / 256) as u8
    }

    pub fn reg_c(&self) -> (value: u8)
        ensures
            value == self@.reg_c(),
    {
        (self.reg_bc % 256) as u8
    }

    pub fn set_reg_b(&mut self, value: u8)
        ensures
            final(self)@ == (ExecutionStateView {
                reg_bc: pair_of(value, old(self)@.reg_c()),
                ..old(self)@
            }),
    {
        self.reg_bc = (value as u16) * 256 + self.reg_bc % 256;
    }

    pub fn set_reg_c(&mut self, value: u8)
        ensures
            final(self)@ == (ExecutionStateView {
                reg_bc: pair_of(old(self)@.reg_b(), value),
                ..old(self)@
            }),
    {
        self.reg_bc = (self.reg_bc / 256) * 256 + value as u16;
    }

    pub fn reg_de(&self) -> (value: u16)
        ensures
            value == self@.reg_de,
    {
        self.reg_de
    }

    pub fn set_reg_de(&mut self, value: u16)
        ensures
            final(self)@ == (ExecutionStateView { reg_de: value, ..old(self)@ }),
    {
        self.reg_de = value;
    }

    pub fn reg_d(&self) -> (value: u8)
        ensures
            value == self@.reg_d(),
    {
        (self.reg_de / 256) as u8
    }

    pub fn reg_e(&self) -> (value: u8)
        ensures
            value == self@.reg_e(),
    {
        (self.reg_de % 256) as u8
    }

    pub fn set_reg_d(&mut self, value: u8)
        ensures
            final(self)@ == (ExecutionStateView {
                reg_de: pair_of(value, old(self)@.reg_e()),
                ..old(self)@
            }),
    {
        self.reg_de = (value as u16) * 256 + self.reg_de % 256;
    }

    pub fn set_reg_e(&mut self, value: u8)
        ensures
            final(self)@ == (ExecutionStateView {
                reg_de: pair_of(old(self)@.reg_d(), value),
                ..old(self)@
            }),
    {
        self.reg_de = (self.reg_de / 256) * 256 + value as u16;
    }

    pub fn reg_hl(&self) -> (value: u16)
        ensures
            value == self@.reg_hl,
    {
        self.reg_hl
    }

    pub fn set_reg_hl(&mut self, value: u16)
        ensures
            final(self)@ == (ExecutionStateView { reg_hl: value, ..old(self)@ }),
    {
        self.reg_hl = value;
    }

    pub fn reg_h(&self) -> (value: u8)
        ensures
            value == self@.reg_h(),
    {
        (self.reg_hl / 256) as u8
    }

    pub fn reg_l(&self) -> (value: u8)
        ensures
            value == self@.reg_l(),
    {
        (self.reg_hl % 256) as u8
    }

    pub fn set_reg_h(&mut self, value: u8)
        ensures
            final(self)@ == (ExecutionStateView {
                reg_hl: pair_of(value, old(self)@.reg_l()),
                ..old(self)@
            }),
    {
        self.reg_hl = (value as u16) * 256 + self.reg_hl % 256;
    }

    pub fn set_reg_l(&mut self, value: u8)
        ensures
            final(self)@ == (ExecutionStateView {
                reg_hl: pair_of(old(self)@.reg_h(), value),
                ..old(self)@
            }),
    {
        self.reg_hl = (self.reg_hl / 256) * 256 + value as u16;
    }
}

} // verus!
