use vstd::prelude::*;
use vstd::std_specs::convert::FromSpecImpl;

verus! {

/// A 16-bit register operand of the arithmetic and load instructions.
#[derive(Clone, Copy, Debug, PartialEq, Eq, Structural)]
pub enum Register16 {
    Bc,
    De,
    Hl,
    Sp,
}

/// A 16-bit register operand of `push` and `pop`.
#[derive(Clone, Copy, Debug, PartialEq, Eq, Structural)]
pub enum Register16Stack {
    Bc,
    De,
    Hl,
    Af,
}

/// A register pair used as an address; `Hli` and `Hld` step HL after the access.
#[derive(Clone, Copy, Debug, PartialEq, Eq, Structural)]
pub enum Register16Memory {
    Bc,
    De,
    Hli,
    Hld,
}

/// An 8-bit operand: a register, or the byte that HL points at.
#[derive(Clone, Copy, Debug, PartialEq, Eq, Structural)]
pub enum Register8 {
    A,
    B,
    C,
    D,
    E,
    H,
    L,
    HlIndirect,
}

/// A branch condition on the zero or the carry flag.
#[derive(Clone, Copy, Debug, PartialEq, Eq, Structural)]
pub enum Condition {
    Nz,
    Z,
    Nc,
    C,
}

/// The bit that `bit`, `res` and `set` address.
#[derive(Clone, Copy, Debug, PartialEq, Eq, Structural)]
pub struct BitIndex(pub u8);

/// The three-bit target of `rst`; the restart vector is eight times it.
#[derive(Clone, Copy, Debug, PartialEq, Eq, Structural)]
pub struct Target(pub u8);

/// An 8-bit immediate operand.
#[derive(Clone, Copy, Debug, PartialEq, Eq, Structural)]
pub struct Imm8(pub u8);

/// A 16-bit immediate operand.
#[derive(Clone, Copy, Debug, PartialEq, Eq, Structural)]
pub struct Imm16(pub u16);

impl From<u8> for BitIndex {
    fn from(value: u8) -> (index: BitIndex) {
        BitIndex(value)
    }
}

impl FromSpecImpl<u8> for BitIndex {
    open spec fn obeys_from_spec() -> bool {
        true
    }

    open spec fn from_spec(value: u8) -> BitIndex {
        BitIndex(value)
    }
}

impl From<BitIndex> for u8 {
    fn from(value: BitIndex) -> (index: u8) {
        value.0
    }
}

impl FromSpecImpl<BitIndex> for u8 {
    open spec fn obeys_from_spec() -> bool {
        true
    }

    open spec fn from_spec(value: BitIndex) -> u8 {
        value.0
    }
}

impl From<u8> for Target {
    fn from(value: u8) -> (target: Target) {
        Target(value)
    }
}

impl FromSpecImpl<u8> for Target {
    open spec fn obeys_from_spec() -> bool {
        true
    }

    open spec fn from_spec(value: u8) -> Target {
        Target(value)
    }
}

impl From<Target> for u8 {
    fn from(value: Target) -> (target: u8) {
        value.0
    }
}

impl FromSpecImpl<Target> for u8 {
    open spec fn obeys_from_spec() -> bool {
        true
    }

    open spec fn from_spec(value: Target) -> u8 {
        value.0
    }
}

impl From<u8> for Imm8 {
    fn from(value: u8) -> (imm: Imm8) {
        Imm8(value)
    }
}

impl FromSpecImpl<u8> for Imm8 {
    open spec fn obeys_from_spec() -> bool {
        true
    }

    open spec fn from_spec(value: u8) -> Imm8 {
        Imm8(value)
    }
}

impl From<Imm8> for u8 {
    fn from(value: Imm8) -> (byte: u8) {
        value.0
    }
}

impl FromSpecImpl<Imm8> for u8 {
    open spec fn obeys_from_spec() -> bool {
        true
    }

    open spec fn from_spec(value: Imm8) -> u8 {
        value.0
    }
}

/// The immediate read as a two's complement number.
pub open spec fn signed_value(byte: u8) -> int {
    if byte < 128 {
        byte as int
    } else {
        byte - 256
    }
}

impl From<Imm8> for i8 {
    fn from(value: Imm8) -> (offset: i8) {
        if value.0 < 128 {
            value.0 as i8
        } else {
            (value.0 as i16 - 256) as i8
        }
    }
}

impl FromSpecImpl<Imm8> for i8 {
    open spec fn obeys_from_spec() -> bool {
        true
    }

    open spec fn from_spec(value: Imm8) -> i8 {
        signed_value(value.0) as i8
    }
}

impl From<Imm8> for u16 {
    fn from(value: Imm8) -> (word: u16) {
        value.0 as u16
    }
}

impl FromSpecImpl<Imm8> for u16 {
    open spec fn obeys_from_spec() -> bool {
        true
    }

    open spec fn from_spec(value: Imm8) -> u16 {
        value.0 as u16
    }
}

impl From<u16> for Imm16 {
    fn from(value: u16) -> (imm: Imm16) {
        Imm16(value)
    }
}

impl FromSpecImpl<u16> for Imm16 {
    open spec fn obeys_from_spec() -> bool {
        true
    }

    open spec fn from_spec(value: u16) -> Imm16 {
        Imm16(value)
    }
}

impl From<Imm16> for u16 {
    fn from(value: Imm16) -> (word: u16) {
        value.0
    }
}

impl FromSpecImpl<Imm16> for u16 {
    open spec fn obeys_from_spec() -> bool {
        true
    }

    open spec fn from_spec(value: Imm16) -> u16 {
        value.0
    }
}

/// One decoded instruction with its operands.
#[derive(Clone, Copy, Debug, PartialEq, Eq, Structural)]
pub enum Instruction {
    Nop,
    /// ld r16, imm16
    LdReg16(Register16, Imm16),
    /// ld [r16mem], a
    LdMemA(Register16Memory),
    /// ld a, [r16mem]
    LdAMem(Register16Memory),
    /// ld [imm16], sp
    LdImm16Sp(Imm16),
    /// inc r16
    Inc16(Register16),
    /// dec r16
    Dec16(Register16),
    /// add hl, r16
    AddHl(Register16),
    /// inc r8
    Inc8(Register8),
    /// dec r8
    Dec8(Register8),
    /// ld r8, imm8
    LdReg8Imm(Register8, Imm8),
    Rlca,
    Rrca,
    Rla,
    Rra,
    Daa,
    Cpl,
    Scf,
    Ccf,
    /// jr imm8
    JrImm(Imm8),
    /// jr cond, imm8
    JrCond(Condition, Imm8),
    Stop,
    /// ld r8, r8
    LdReg8Reg8(Register8, Register8),
    Halt,
    /// add a, r8
    AddReg8(Register8),
    /// adc a, r8
    AdcReg8(Register8),
    /// sub a, r8
    SubReg8(Register8),
    /// sbc a, r8
    SbcReg8(Register8),
    /// and a, r8
    AndReg8(Register8),
    /// xor a, r8
    XorReg8(Register8),
    /// or a, r8
    OrReg8(Register8),
    /// cp a, r8
    CpReg8(Register8),
    /// add a, imm8
    AddImm8(Imm8),
    /// adc a, imm8
    AdcImm8(Imm8),
    /// sub a, imm8
    SubImm8(Imm8),
    /// sbc a, imm8
    SbcImm8(Imm8),
    /// and a, imm8
    AndImm8(Imm8),
    /// xor a, imm8
    XorImm8(Imm8),
    /// or a, imm8
    OrImm8(Imm8),
    /// cp a, imm8
    CpImm8(Imm8),
    /// ret cond
    RetCond(Condition),
    Ret,
    Reti,
    /// jp cond, imm16
    JpCond(Condition, Imm16),
    /// jp imm16
    JpImm(Imm16),
    /// jp hl
    JpHl,
    /// call cond, imm16
    CallCond(Condition, Imm16),
    /// call imm16
    CallImm(Imm16),
    /// rst tgt3
    Rst(Target),
    /// pop r16stk
    Pop(Register16Stack),
    /// push r16stk
    Push(Register16Stack),
    /// ldh [c], a
    LdhMemA,
    /// ldh [imm8], a
    LdhImmA(Imm8),
    /// ld [imm16], a
    LdImmA(Imm16),
    /// ldh a, [c]
    LdhAMem,
    /// ldh a, [imm8]
    LdhAImm(Imm8),
    /// ld a, [imm16]
    LdAImm(Imm16),
    /// add sp, imm8
    AddSp(Imm8),
    /// ld hl, sp + imm8
    LdHlSpImm8(Imm8),
    /// ld sp, hl
    LdSpHl,
    Di,
    Ei,
    /// rlc r8
    Rlc(Register8),
    /// rrc r8
    Rrc(Register8),
    /// rl r8
    Rl(Register8),
    /// rr r8
    Rr(Register8),
    /// sla r8
    Sla(Register8),
    /// sra r8
    Sra(Register8),
    /// swap r8
    Swap(Register8),
    /// srl r8
    Srl(Register8),
    /// bit b3, r8
    Bit(BitIndex, Register8),
    /// res b3, r8
    Res(BitIndex, Register8),
    /// set b3, r8
    SetBit(BitIndex, Register8),
}

impl Instruction {
    /// Whether the instruction is one of those that follow the `0xCB` prefix.
    pub open spec fn is_prefixed(self) -> bool {
        match self {
            Self::Rlc(_)
            | Self::Rrc(_)
            | Self::Rl(_)
            | Self::Rr(_)
            | Self::Sla(_)
            | Self::Sra(_)
            | Self::Swap(_)
            | Self::Srl(_)
            | Self::Bit(_, _)
            | Self::Res(_, _)
            | Self::SetBit(_, _) => true,
            _ => false,
        }
    }

    /// The part of the opcode table that the instruction belongs to: 0 for
    /// the first quarter and the loads between registers, 1 for the
    /// arithmetic on the accumulator, 2 for the rest of the last quarter,
    /// 3 for the instructions that follow the prefix.
    #[verifier::opaque]
    pub open spec fn group(self) -> int {
        match self {
            Self::Nop
            | Self::LdReg16(_, _)
            | Self::LdMemA(_)
            | Self::LdAMem(_)
            | Self::LdImm16Sp(_)
            | Self::Inc16(_)
            | Self::Dec16(_)
            | Self::AddHl(_)
            | Self::Inc8(_)
            | Self::Dec8(_)
            | Self::LdReg8Imm(_, _)
            | Self::Rlca
            | Self::Rrca
            | Self::Rla
            | Self::Rra
            | Self::Daa
            | Self::Cpl
            | Self::Scf
            | Self::Ccf
            | Self::JrImm(_)
            | Self::JrCond(_, _)
            | Self::Stop
            | Self::LdReg8Reg8(_, _)
            | Self::Halt => 0,
            Self::AddReg8(_)
            | Self::AdcReg8(_)
            | Self::SubReg8(_)
            | Self::SbcReg8(_)
            | Self::AndReg8(_)
            | Self::XorReg8(_)
            | Self::OrReg8(_)
            | Self::CpReg8(_)
            | Self::AddImm8(_)
            | Self::AdcImm8(_)
            | Self::SubImm8(_)
            | Self::SbcImm8(_)
            | Self::AndImm8(_)
            | Self::XorImm8(_)
            | Self::OrImm8(_)
            | Self::CpImm8(_) => 1,
            Self::Rlc(_)
            | Self::Rrc(_)
            | Self::Rl(_)
            | Self::Rr(_)
            | Self::Sla(_)
            | Self::Sra(_)
            | Self::Swap(_)
            | Self::Srl(_)
            | Self::Bit(_, _)
            | Self::Res(_, _)
            | Self::SetBit(_, _) => 3,
            _ => 2,
        }
    }

    /// How many immediate bytes follow the opcode.
    pub open spec fn immediate_bytes(self) -> nat {
        match self {
            Self::LdReg16(_, _)
            | Self::LdImm16Sp(_)
            | Self::JpCond(_, _)
            | Self::JpImm(_)
            | Self::CallCond(_, _)
            | Self::CallImm(_)
            | Self::LdImmA(_)
            | Self::LdAImm(_) => 2,
            Self::LdReg8Imm(_, _)
            | Self::JrImm(_)
            | Self::JrCond(_, _)
            | Self::AddImm8(_)
            | Self::AdcImm8(_)
            | Self::SubImm8(_)
            | Self::SbcImm8(_)
            | Self::AndImm8(_)
            | Self::XorImm8(_)
            | Self::OrImm8(_)
            | Self::CpImm8(_)
            | Self::LdhImmA(_)
            | Self::LdhAImm(_)
            | Self::AddSp(_)
            | Self::LdHlSpImm8(_) => 1,
            _ => 0,
        }
    }

    /// The encoded size in bytes: the opcode, a second opcode byte after the
    /// prefix, and the immediate.
    #[verifier::opaque]
    pub open spec fn encoded_length(self) -> u16 {
        (1 + (if self.is_prefixed() { 1nat } else { 0 }) + self.immediate_bytes()) as u16
    }

    /// Whether an operand of the instruction is the byte that HL points at.
    pub open spec fn touches_hl_indirect(self) -> bool {
        match self {
            Self::Inc8(r)
            | Self::Dec8(r)
            | Self::LdReg8Imm(r, _)
            | Self::AddReg8(r)
            | Self::AdcReg8(r)
            | Self::SubReg8(r)
            | Self::SbcReg8(r)
            | Self::AndReg8(r)
            | Self::XorReg8(r)
            | Self::OrReg8(r)
            | Self::CpReg8(r)
            | Self::Rlc(r)
            | Self::Rrc(r)
            | Self::Rl(r)
            | Self::Rr(r)
            | Self::Sla(r)
            | Self::Sra(r)
            | Self::Swap(r)
            | Self::Srl(r)
            | Self::Bit(_, r)
            | Self::Res(_, r)
            | Self::SetBit(_, r) => r == Register8::HlIndirect,
            Self::LdReg8Reg8(dest, src) => dest == Register8::HlIndirect || src
                == Register8::HlIndirect,
            _ => false,
        }
    }

    /// The clock cycles that the instruction takes when no branch is taken.
    #[verifier::opaque]
    pub open spec fn base_cycles(self) -> usize {
        let indirect = self.touches_hl_indirect();
        match self {
            Self::Nop
            | Self::Rlca
            | Self::Rrca
            | Self::Rla
            | Self::Rra
            | Self::Daa
            | Self::Cpl
            | Self::Scf
            | Self::Ccf
            | Self::Stop
            | Self::Halt
            | Self::JpHl
            | Self::Di
            | Self::Ei => 4,
            Self::Inc8(_) | Self::Dec8(_) => if indirect { 12 } else { 4 },
            Self::LdReg8Reg8(_, _)
            | Self::AddReg8(_)
            | Self::AdcReg8(_)
            | Self::SubReg8(_)
            | Self::SbcReg8(_)
            | Self::AndReg8(_)
            | Self::XorReg8(_)
            | Self::OrReg8(_)
            | Self::CpReg8(_) => if indirect { 8 } else { 4 },
            Self::LdReg8Imm(_, _) => if indirect { 12 } else { 8 },
            Self::LdMemA(_)
            | Self::LdAMem(_)
            | Self::Inc16(_)
            | Self::Dec16(_)
            | Self::AddHl(_)
            | Self::JrCond(_, _)
            | Self::AddImm8(_)
            | Self::AdcImm8(_)
            | Self::SubImm8(_)
            | Self::SbcImm8(_)
            | Self::AndImm8(_)
            | Self::XorImm8(_)
            | Self::OrImm8(_)
            | Self::CpImm8(_)
            | Self::RetCond(_)
            | Self::LdhMemA
            | Self::LdhAMem
            | Self::LdSpHl => 8,
            Self::LdReg16(_, _)
            | Self::JrImm(_)
            | Self::JpCond(_, _)
            | Self::CallCond(_, _)
            | Self::Pop(_)
            | Self::LdhImmA(_)
            | Self::LdhAImm(_)
            | Self::LdHlSpImm8(_) => 12,
            Self::Ret
            | Self::Reti
            | Self::JpImm(_)
            | Self::Rst(_)
            | Self::Push(_)
            | Self::LdImmA(_)
            | Self::LdAImm(_)
            | Self::AddSp(_) => 16,
            Self::LdImm16Sp(_) => 20,
            Self::CallImm(_) => 24,
            Self::Bit(_, _) => if indirect { 12 } else { 8 },
            Self::Rlc(_)
            | Self::Rrc(_)
            | Self::Rl(_)
            | Self::Rr(_)
            | Self::Sla(_)
            | Self::Sra(_)
            | Self::Swap(_)
            | Self::Srl(_)
            | Self::Res(_, _)
            | Self::SetBit(_, _) => if indirect { 16 } else { 8 },
        }
    }

    /// The encoded size of the instruction in bytes.
    pub fn length(&self) -> (length: u16)
        ensures
            length == self.encoded_length(),
            1 <= length <= 3,
    {
        reveal(Instruction::encoded_length);
        match self {
            Self::Nop => 1,
            Self::LdReg16(_, _) => 3,
            Self::LdMemA(_) => 1,
            Self::LdAMem(_) => 1,
            Self::LdImm16Sp(_) => 3,
            Self::Inc16(_) => 1,
            Self::Dec16(_) => 1,
            Self::AddHl(_) => 1,
            Self::Inc8(_) => 1,
            Self::Dec8(_) => 1,
            Self::LdReg8Imm(_, _) => 2,
            Self::Rlca => 1,
            Self::Rrca => 1,
            Self::Rla => 1,
            Self::Rra => 1,
            Self::Daa => 1,
            Self::Cpl => 1,
            Self::Scf => 1,
            Self::Ccf => 1,
            Self::JrImm(_) => 2,
            Self::JrCond(_, _) => 2,
            Self::Stop => 1,
            Self::LdReg8Reg8(_, _) => 1,
            Self::Halt => 1,
            Self::AddReg8(_) => 1,
            Self::AdcReg8(_) => 1,
            Self::SubReg8(_) => 1,
            Self::SbcReg8(_) => 1,
            Self::AndReg8(_) => 1,
            Self::XorReg8(_) => 1,
            Self::OrReg8(_) => 1,
            Self::CpReg8(_) => 1,
            Self::AddImm8(_) => 2,
            Self::AdcImm8(_) => 2,
            Self::SubImm8(_) => 2,
            Self::SbcImm8(_) => 2,
            Self::AndImm8(_) => 2,
            Self::XorImm8(_) => 2,
            Self::OrImm8(_) => 2,
            Self::CpImm8(_) => 2,
            Self::RetCond(_) => 1,
            Self::Ret => 1,
            Self::Reti => 1,
            Self::JpCond(_, _) => 3,
            Self::JpImm(_) => 3,
            Self::JpHl => 1,
            Self::CallCond(_, _) => 3,
            Self::CallImm(_) => 3,
            Self::Rst(_) => 1,
            Self::Pop(_) => 1,
            Self::Push(_) => 1,
            Self::LdhMemA => 1,
            Self::LdhImmA(_) => 2,
            Self::LdImmA(_) => 3,
            Self::LdhAMem => 1,
            Self::LdhAImm(_) => 2,
            Self::LdAImm(_) => 3,
            Self::AddSp(_) => 2,
            Self::LdHlSpImm8(_) => 2,
            Self::LdSpHl => 1,
            Self::Di => 1,
            Self::Ei => 1,
            Self::Rlc(_) => 2,
            Self::Rrc(_) => 2,
            Self::Rl(_) => 2,
            Self::Rr(_) => 2,
            Self::Sla(_) => 2,
            Self::Sra(_) => 2,
            Self::Swap(_) => 2,
            Self::Srl(_) => 2,
            Self::Bit(_, _) => 2,
            Self::Res(_, _) => 2,
            Self::SetBit(_, _) => 2,
        }
    }

    /// The clock cycles that the instruction takes when no branch is taken.
    pub fn base_num_cycles(&self) -> (cycles: usize)
        ensures
            cycles == self.base_cycles(),
            4 <= cycles <= 24,
    {
        reveal(Instruction::base_cycles);
        match self {
            Self::Nop => 4,
            Self::LdReg16(_, _) => 12,
            Self::LdMemA(_) => 8,
            Self::LdAMem(_) => 8,
            Self::LdImm16Sp(_) => 20,
            Self::Inc16(_) => 8,
            Self::Dec16(_) => 8,
            Self::AddHl(_) => 8,
            Self::Inc8(r) | Self::Dec8(r) => match r {
                Register8::HlIndirect => 12,
                _ => 4,
            },
            Self::LdReg8Imm(r, _) => match r {
                Register8::HlIndirect => 12,
                _ => 8,
            },
            Self::Rlca | Self::Rrca | Self::Rla | Self::Rra => 4,
            Self::Daa | Self::Cpl | Self::Scf | Self::Ccf => 4,
            Self::JrImm(_) => 12,
            Self::JrCond(_, _) => 8,
            Self::Stop => 4,
            Self::LdReg8Reg8(dest, src) => match (dest, src) {
                (Register8::HlIndirect, _) => 8,
                (_, Register8::HlIndirect) => 8,
                _ => 4,
            },
            Self::Halt => 4,
            Self::AddReg8(r)
            | Self::AdcReg8(r)
            | Self::SubReg8(r)
            | Self::SbcReg8(r)
            | Self::AndReg8(r)
            | Self::XorReg8(r)
            | Self::OrReg8(r)
            | Self::CpReg8(r) => match r {
                Register8::HlIndirect => 8,
                _ => 4,
            },
            Self::AddImm8(_) | Self::AdcImm8(_) | Self::SubImm8(_) | Self::SbcImm8(_) => 8,
            Self::AndImm8(_) | Self::XorImm8(_) | Self::OrImm8(_) | Self::CpImm8(_) => 8,
            Self::RetCond(_) => 8,
            Self::Ret => 16,
            Self::Reti => 16,
            Self::JpCond(_, _) => 12,
            Self::JpImm(_) => 16,
            Self::JpHl => 4,
            Self::CallCond(_, _) => 12,
            Self::CallImm(_) => 24,
            Self::Rst(_) => 16,
            Self::Pop(_) => 12,
            Self::Push(_) => 16,
            Self::LdhMemA => 8,
            Self::LdhImmA(_) => 12,
            Self::LdImmA(_) => 16,
            Self::LdhAMem => 8,
            Self::LdhAImm(_) => 12,
            Self::LdAImm(_) => 16,
            Self::AddSp(_) => 16,
            Self::LdHlSpImm8(_) => 12,
            Self::LdSpHl => 8,
            Self::Di => 4,
            Self::Ei => 4,
            Self::Bit(_, r) => match r {
                Register8::HlIndirect => 12,
                _ => 8,
            },
            Self::Rlc(r)
            | Self::Rrc(r)
            | Self::Rl(r)
            | Self::Rr(r)
            | Self::Sla(r)
            | Self::Sra(r)
            | Self::Swap(r)
            | Self::Srl(r)
            | Self::Res(_, r)
            | Self::SetBit(_, r) => match r {
                Register8::HlIndirect => 16,
                _ => 8,
            },
        }
    }
}

} // verus!
