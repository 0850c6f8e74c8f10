use vstd::prelude::*;
use vstd::std_specs::convert::TryFromSpecImpl;
use crate::bus::{next_address, Bus, BusView};
use super::error::Error;
use super::execution_state::ExecutionState;
use super::instruction::{
    BitIndex, Condition, Imm16, Imm8, Instruction, Register16, Register16Memory, Register16Stack,
    Register8, Target,
};

verus! {

/// The shape of an instruction as its first byte gives it, operands aside.
#[derive(Clone, Copy, Debug, PartialEq, Eq, Structural)]
pub enum Opcode {
    Nop,
    LdReg16,
    LdMemA,
    LdAMem,
    LdImm16Sp,
    Inc16,
    Dec16,
    AddHl,
    Inc8,
    Dec8,
    LdReg8Imm,
    Rlca,
    Rrca,
    Rla,
    Rra,
    Daa,
    Cpl,
    Scf,
    Ccf,
    JrImm,
    JrCond,
    Stop,
    LdReg8Reg8,
    Halt,
    AddReg8,
    AdcReg8,
    SubReg8,
    SbcReg8,
    AndReg8,
    XorReg8,
    OrReg8,
    CpReg8,
    AddImm8,
    AdcImm8,
    SubImm8,
    SbcImm8,
    AndImm8,
    XorImm8,
    OrImm8,
    CpImm8,
    RetCond,
    Ret,
    Reti,
    JpCond,
    JpImm,
    JpHl,
    CallCond,
    CallImm,
    Rst,
    Pop,
    Push,
    LdhMemA,
    LdhImmA,
    LdImmA,
    LdhAMem,
    LdhAImm,
    LdAImm,
    AddSp,
    LdHlSpImm8,
    LdSpHl,
    Di,
    Ei,
    /// The `0xCB` byte: the instruction is given by the byte after it.
    Prefix,
}

/// The shape of an instruction that follows the `0xCB` prefix.
#[derive(Clone, Copy, Debug, PartialEq, Eq, Structural)]
pub enum Prefixed {
    Rlc,
    Rrc,
    Rl,
    Rr,
    Sla,
    Sra,
    Swap,
    Srl,
    Bit,
    Res,
    SetBit,
}

/// The classification of a first instruction byte by its bit pattern, or
/// `None` for the bytes that encode nothing.
pub open spec fn opcode_of(value: u8) -> Option<Opcode> {
    if value == 0x00 {
        Some(Opcode::Nop)
    } else if value == 0x10 {
        Some(Opcode::Stop)
    } else if value == 0x08 {
        Some(Opcode::LdImm16Sp)
    } else if value == 0x18 {
        Some(Opcode::JrImm)
    } else if value & 0b1110_0111 == 0b0010_0000 {
        Some(Opcode::JrCond)
    } else if value & 0b1100_1111 == 0b0000_0001 {
        Some(Opcode::LdReg16)
    } else if value & 0b1100_1111 == 0b0000_1001 {
        Some(Opcode::AddHl)
    } else if value & 0b1100_1111 == 0b0000_0010 {
        Some(Opcode::LdMemA)
    } else if value & 0b1100_1111 == 0b0000_1010 {
        Some(Opcode::LdAMem)
    } else if value & 0b1100_1111 == 0b0000_0011 {
        Some(Opcode::Inc16)
    } else if value & 0b1100_1111 == 0b0000_1011 {
        Some(Opcode::Dec16)
    } else if value & 0b1100_0111 == 0b0000_0100 {
        Some(Opcode::Inc8)
    } else if value & 0b1100_0111 == 0b0000_0101 {
        Some(Opcode::Dec8)
    } else if value & 0b1100_0111 == 0b0000_0110 {
        Some(Opcode::LdReg8Imm)
    } else if value == 0x07 {
        Some(Opcode::Rlca)
    } else if value == 0x0F {
        Some(Opcode::Rrca)
    } else if value == 0x17 {
        Some(Opcode::Rla)
    } else if value == 0x1F {
        Some(Opcode::Rra)
    } else if value == 0x27 {
        Some(Opcode::Daa)
    } else if value == 0x2F {
        Some(Opcode::Cpl)
    } else if value == 0x37 {
        Some(Opcode::Scf)
    } else if value == 0x3F {
        Some(Opcode::Ccf)
    } else if value == 0x76 {
        Some(Opcode::Halt)
    } else if value & 0b1100_0000 == 0b0100_0000 {
        Some(Opcode::LdReg8Reg8)
    } else if value & 0b1111_1000 == 0b1000_0000 {
        Some(Opcode::AddReg8)
    } else if value & 0b1111_1000 == 0b1000_1000 {
        Some(Opcode::AdcReg8)
    } else if value & 0b1111_1000 == 0b1001_0000 {
        Some(Opcode::SubReg8)
    } else if value & 0b1111_1000 == 0b1001_1000 {
        Some(Opcode::SbcReg8)
    } else if value & 0b1111_1000 == 0b1010_0000 {
        Some(Opcode::AndReg8)
    } else if value & 0b1111_1000 == 0b1010_1000 {
        Some(Opcode::XorReg8)
    } else if value & 0b1111_1000 == 0b1011_0000 {
        Some(Opcode::OrReg8)
    } else if value & 0b1111_1000 == 0b1011_1000 {
        Some(Opcode::CpReg8)
    } else if value == 0xC6 {
        Some(Opcode::AddImm8)
    } else if value == 0xCE {
        Some(Opcode::AdcImm8)
    } else if value == 0xD6 {
        Some(Opcode::SubImm8)
    } else if value == 0xDE {
        Some(Opcode::SbcImm8)
    } else if value == 0xE6 {
        Some(Opcode::AndImm8)
    } else if value == 0xEE {
        Some(Opcode::XorImm8)
    } else if value == 0xF6 {
        Some(Opcode::OrImm8)
    } else if value == 0xFE {
        Some(Opcode::CpImm8)
    } else if value & 0b1110_0111 == 0b1100_0000 {
        Some(Opcode::RetCond)
    } else if value == 0xC9 {
        Some(Opcode::Ret)
    } else if value == 0xD9 {
        Some(Opcode::Reti)
    } else if value & 0b1110_0111 == 0b1100_0010 {
        Some(Opcode::JpCond)
    } else if value == 0xC3 {
        Some(Opcode::JpImm)
    } else if value == 0xE9 {
        Some(Opcode::JpHl)
    } else if value & 0b1110_0111 == 0b1100_0100 {
        Some(Opcode::CallCond)
    } else if value == 0xCD {
        Some(Opcode::CallImm)
    } else if value & 0b1100_0111 == 0b1100_0111 {
        Some(Opcode::Rst)
    } else if value & 0b1100_1111 == 0b1100_0001 {
        Some(Opcode::Pop)
    } else if value & 0b1100_1111 == 0b1100_0101 {
        Some(Opcode::Push)
    } else if value == 0xCB {
        Some(Opcode::Prefix)
    } else if value == 0xE2 {
        Some(Opcode::LdhMemA)
    } else if value == 0xE0 {
        Some(Opcode::LdhImmA)
    } else if value == 0xEA {
        Some(Opcode::LdImmA)
    } else if value == 0xF2 {
        Some(Opcode::LdhAMem)
    } else if value == 0xF0 {
        Some(Opcode::LdhAImm)
    } else if value == 0xFA {
        Some(Opcode::LdAImm)
    } else if value == 0xE8 {
        Some(Opcode::AddSp)
    } else if value == 0xF8 {
        Some(Opcode::LdHlSpImm8)
    } else if value == 0xF9 {
        Some(Opcode::LdSpHl)
    } else if value == 0xF3 {
        Some(Opcode::Di)
    } else if value == 0xFB {
        Some(Opcode::Ei)
    } else {
        None
    }
}

/// The classification of the byte that follows the prefix: every value
/// encodes an instruction.
pub open spec fn prefixed_of(value: u8) -> Prefixed {
    if value & 0b1111_1000 == 0b0000_0000 {
        Prefixed::Rlc
    } else if value & 0b1111_1000 == 0b0000_1000 {
        Prefixed::Rrc
    } else if value & 0b1111_1000 == 0b0001_0000 {
        Prefixed::Rl
    } else if value & 0b1111_1000 == 0b0001_1000 {
        Prefixed::Rr
    } else if value & 0b1111_1000 == 0b0010_0000 {
        Prefixed::Sla
    } else if value & 0b1111_1000 == 0b0010_1000 {
        Prefixed::Sra
    } else if value & 0b1111_1000 == 0b0011_0000 {
        Prefixed::Swap
    } else if value & 0b1111_1000 == 0b0011_1000 {
        Prefixed::Srl
    } else if value & 0b1100_0000 == 0b0100_0000 {
        Prefixed::Bit
    } else if value & 0b1100_0000 == 0b1000_0000 {
        Prefixed::Res
    } else {
        Prefixed::SetBit
    }
}

/// Whether some instruction shape claims the byte.
pub open spec fn opcode_defined(value: u8) -> bool {
    (value == 0x00)
    || (value == 0x10)
    || (value == 0x08)
    || (value == 0x18)
    || (value & 0b1110_0111 == 0b0010_0000)
    || (value & 0b1100_1111 == 0b0000_0001)
    || (value & 0b1100_1111 == 0b0000_1001)
    || (value & 0b1100_1111 == 0b0000_0010)
    || (value & 0b1100_1111 == 0b0000_1010)
    || (value & 0b1100_1111 == 0b0000_0011)
    || (value & 0b1100_1111 == 0b0000_1011)
    || (value & 0b1100_0111 == 0b0000_0100)
    || (value & 0b1100_0111 == 0b0000_0101)
    || (value & 0b1100_0111 == 0b0000_0110)
    || (value == 0x07)
    || (value == 0x0F)
    || (value == 0x17)
    || (value == 0x1F)
    || (value == 0x27)
    || (value == 0x2F)
    || (value == 0x37)
    || (value == 0x3F)
    || (value == 0x76)
    || (value & 0b1100_0000 == 0b0100_0000)
    || (value & 0b1111_1000 == 0b1000_0000)
    || (value & 0b1111_1000 == 0b1000_1000)
    || (value & 0b1111_1000 == 0b1001_0000)
    || (value & 0b1111_1000 == 0b1001_1000)
    || (value & 0b1111_1000 == 0b1010_0000)
    || (value & 0b1111_1000 == 0b1010_1000)
    || (value & 0b1111_1000 == 0b1011_0000)
    || (value & 0b1111_1000 == 0b1011_1000)
    || (value == 0xC6)
    || (value == 0xCE)
    || (value == 0xD6)
    || (value == 0xDE)
    || (value == 0xE6)
    || (value == 0xEE)
    || (value == 0xF6)
    || (value == 0xFE)
    || (value & 0b1110_0111 == 0b1100_0000)
    || (value == 0xC9)
    || (value == 0xD9)
    || (value & 0b1110_0111 == 0b1100_0010)
    || (value == 0xC3)
    || (value == 0xE9)
    || (value & 0b1110_0111 == 0b1100_0100)
    || (value == 0xCD)
    || (value & 0b1100_0111 == 0b1100_0111)
    || (value & 0b1100_1111 == 0b1100_0001)
    || (value & 0b1100_1111 == 0b1100_0101)
    || (value == 0xCB)
    || (value == 0xE2)
    || (value == 0xE0)
    || (value == 0xEA)
    || (value == 0xF2)
    || (value == 0xF0)
    || (value == 0xFA)
    || (value == 0xE8)
    || (value == 0xF8)
    || (value == 0xF9)
    || (value == 0xF3)
    || (value == 0xFB)
}

/// The bytes with no instruction are exactly the eleven holes of the last
/// block of the opcode table.
pub proof fn undefined_opcodes(value: u8)
    ensures
        opcode_of(value) is None <==> (value == 0xD3 || value == 0xDB || value == 0xDD || value
            == 0xE3 || value == 0xE4 || value == 0xEB || value == 0xEC || value == 0xED || value
            == 0xF4 || value == 0xFC || value == 0xFD),
{
    assert(opcode_of(value) is None <==> !opcode_defined(value));
    assert(!opcode_defined(value) <==> (value == 0xD3 || value == 0xDB || value == 0xDD || value
        == 0xE3 || value == 0xE4 || value == 0xEB || value == 0xEC || value == 0xED || value
        == 0xF4 || value == 0xFC || value == 0xFD)) by (bit_vector);
}

impl TryFrom<u8> for Opcode {
    type Error = ();

    fn try_from(value: u8) -> (opcode: Result<Self, Self::Error>) {
        Ok(
            if value == 0x00 {
                Opcode::Nop
            } else if value == 0x10 {
                Opcode::Stop
            } else if value == 0x08 {
                Opcode::LdImm16Sp
            } else if value == 0x18 {
                Opcode::JrImm
            } else if value & 0b1110_0111 == 0b0010_0000 {
                Opcode::JrCond
            } else if value & 0b1100_1111 == 0b0000_0001 {
                Opcode::LdReg16
            } else if value & 0b1100_1111 == 0b0000_1001 {
                Opcode::AddHl
            } else if value & 0b1100_1111 == 0b0000_0010 {
                Opcode::LdMemA
            } else if value & 0b1100_1111 == 0b0000_1010 {
                Opcode::LdAMem
            } else if value & 0b1100_1111 == 0b0000_0011 {
                Opcode::Inc16
            } else if value & 0b1100_1111 == 0b0000_1011 {
                Opcode::Dec16
            } else if value & 0b1100_0111 == 0b0000_0100 {
                Opcode::Inc8
            } else if value & 0b1100_0111 == 0b0000_0101 {
                Opcode::Dec8
            } else if value & 0b1100_0111 == 0b0000_0110 {
                Opcode::LdReg8Imm
            } else if value == 0x07 {
                Opcode::Rlca
            } else if value == 0x0F {
                Opcode::Rrca
            } else if value == 0x17 {
                Opcode::Rla
            } else if value == 0x1F {
                Opcode::Rra
            } else if value == 0x27 {
                Opcode::Daa
            } else if value == 0x2F {
                Opcode::Cpl
            } else if value == 0x37 {
                Opcode::Scf
            } else if value == 0x3F {
                Opcode::Ccf
            } else if value == 0x76 {
                Opcode::Halt
            } else if value & 0b1100_0000 == 0b0100_0000 {
                Opcode::LdReg8Reg8
            } else if value & 0b1111_1000 == 0b1000_0000 {
                Opcode::AddReg8
            } else if value & 0b1111_1000 == 0b1000_1000 {
                Opcode::AdcReg8
            } else if value & 0b1111_1000 == 0b1001_0000 {
                Opcode::SubReg8
            } else if value & 0b1111_1000 == 0b1001_1000 {
                Opcode::SbcReg8
            } else if value & 0b1111_1000 == 0b1010_0000 {
                Opcode::AndReg8
            } else if value & 0b1111_1000 == 0b1010_1000 {
                Opcode::XorReg8
            } else if value & 0b1111_1000 == 0b1011_0000 {
                Opcode::OrReg8
            } else if value & 0b1111_1000 == 0b1011_1000 {
                Opcode::CpReg8
            } else if value == 0xC6 {
                Opcode::AddImm8
            } else if value == 0xCE {
                Opcode::AdcImm8
            } else if value == 0xD6 {
                Opcode::SubImm8
            } else if value == 0xDE {
                Opcode::SbcImm8
            } else if value == 0xE6 {
                Opcode::AndImm8
            } else if value == 0xEE {
                Opcode::XorImm8
            } else if value == 0xF6 {
                Opcode::OrImm8
            } else if value == 0xFE {
                Opcode::CpImm8
            } else if value & 0b1110_0111 == 0b1100_0000 {
                Opcode::RetCond
            } else if value == 0xC9 {
                Opcode::Ret
            } else if value == 0xD9 {
                Opcode::Reti
            } else if value & 0b1110_0111 == 0b1100_0010 {
                Opcode::JpCond
            } else if value == 0xC3 {
                Opcode::JpImm
            } else if value == 0xE9 {
                Opcode::JpHl
            } else if value & 0b1110_0111 == 0b1100_0100 {
                Opcode::CallCond
            } else if value == 0xCD {
                Opcode::CallImm
            } else if value & 0b1100_0111 == 0b1100_0111 {
                Opcode::Rst
            } else if value & 0b1100_1111 == 0b1100_0001 {
                Opcode::Pop
            } else if value & 0b1100_1111 == 0b1100_0101 {
                Opcode::Push
            } else if value == 0xCB {
                Opcode::Prefix
            } else if value == 0xE2 {
                Opcode::LdhMemA
            } else if value == 0xE0 {
                Opcode::LdhImmA
            } else if value == 0xEA {
                Opcode::LdImmA
            } else if value == 0xF2 {
                Opcode::LdhAMem
            } else if value == 0xF0 {
                Opcode::LdhAImm
            } else if value == 0xFA {
                Opcode::LdAImm
            } else if value == 0xE8 {
                Opcode::AddSp
            } else if value == 0xF8 {
                Opcode::LdHlSpImm8
            } else if value == 0xF9 {
                Opcode::LdSpHl
            } else if value == 0xF3 {
                Opcode::Di
            } else if value == 0xFB {
                Opcode::Ei
            } else {
                return Err(());
            },
        )
    }
}

impl TryFromSpecImpl<u8> for Opcode {
    open spec fn obeys_try_from_spec() -> bool {
        true
    }

    open spec fn try_from_spec(value: u8) -> Result<Self, Self::Error> {
        match opcode_of(value) {
            Some(opcode) => Ok(opcode),
            None => Err(()),
        }
    }
}

impl TryFrom<u8> for Prefixed {
    type Error = ();

    fn try_from(value: u8) -> (prefixed: Result<Self, Self::Error>) {
        Ok(
            if value & 0b1111_1000 == 0b0000_0000 {
                Prefixed::Rlc
            } else if value & 0b1111_1000 == 0b0000_1000 {
                Prefixed::Rrc
            } else if value & 0b1111_1000 == 0b0001_0000 {
                Prefixed::Rl
            } else if value & 0b1111_1000 == 0b0001_1000 {
                Prefixed::Rr
            } else if value & 0b1111_1000 == 0b0010_0000 {
                Prefixed::Sla
            } else if value & 0b1111_1000 == 0b0010_1000 {
                Prefixed::Sra
            } else if value & 0b1111_1000 == 0b0011_0000 {
                Prefixed::Swap
            } else if value & 0b1111_1000 == 0b0011_1000 {
                Prefixed::Srl
            } else if value & 0b1100_0000 == 0b0100_0000 {
                Prefixed::Bit
            } else if value & 0b1100_0000 == 0b1000_0000 {
                Prefixed::Res
            } else {
                Prefixed::SetBit
            },
        )
    }
}

impl TryFromSpecImpl<u8> for Prefixed {
    open spec fn obeys_try_from_spec() -> bool {
        true
    }

    open spec fn try_from_spec(value: u8) -> Result<Self, Self::Error> {
        Ok(prefixed_of(value))
    }
}

/// The two-bit field of `byte` whose lowest bit is bit `offset`.
pub open spec fn field2(byte: u8, offset: u8) -> u8 {
    (byte >> offset) & 0b11
}

/// The three-bit field of `byte` whose lowest bit is bit `offset`.
pub open spec fn field3(byte: u8, offset: u8) -> u8 {
    (byte >> offset) & 0b111
}

/// The register pair that a two-bit code names: BC, DE, HL, SP.
pub open spec fn register16_of(code: u8) -> Register16 {
    if code == 0 {
        Register16::Bc
    } else if code == 1 {
        Register16::De
    } else if code == 2 {
        Register16::Hl
    } else {
        Register16::Sp
    }
}

/// The register pair that a two-bit code names for the stack: BC, DE, HL, AF.
pub open spec fn register16_stack_of(code: u8) -> Register16Stack {
    if code == 0 {
        Register16Stack::Bc
    } else if code == 1 {
        Register16Stack::De
    } else if code == 2 {
        Register16Stack::Hl
    } else {
        Register16Stack::Af
    }
}

/// The address register that a two-bit code names: BC, DE, HL+, HL-.
pub open spec fn register16_memory_of(code: u8) -> Register16Memory {
    if code == 0 {
        Register16Memory::Bc
    } else if code == 1 {
        Register16Memory::De
    } else if code == 2 {
        Register16Memory::Hli
    } else {
        Register16Memory::Hld
    }
}

/// The operand that a three-bit code names: B, C, D, E, H, L, (HL), A.
pub open spec fn register8_of(code: u8) -> Register8 {
    if code == 0 {
        Register8::B
    } else if code == 1 {
        Register8::C
    } else if code == 2 {
        Register8::D
    } else if code == 3 {
        Register8::E
    } else if code == 4 {
        Register8::H
    } else if code == 5 {
        Register8::L
    } else if code == 6 {
        Register8::HlIndirect
    } else {
        Register8::A
    }
}

/// The condition that a two-bit code names: NZ, Z, NC, C.
pub open spec fn condition_of(code: u8) -> Condition {
    if code == 0 {
        Condition::Nz
    } else if code == 1 {
        Condition::Z
    } else if code == 2 {
        Condition::Nc
    } else {
        Condition::C
    }
}

/// The 8-bit immediate of the instruction at `address`: the byte after its
/// first byte.
pub open spec fn immediate8(bus: BusView, address: u16) -> Result<Imm8, Error> {
    match bus.read(next_address(address)) {
        Ok(value) => Ok(Imm8(value)),
        Err(error) => Err(error),
    }
}

/// The 16-bit immediate of the instruction at `address`: the two bytes
/// after its first byte, the low byte first.
pub open spec fn immediate16(bus: BusView, address: u16) -> Result<Imm16, Error> {
    match bus.read_u16(next_address(address)) {
        Ok(value) => Ok(Imm16(value)),
        Err(error) => Err(error),
    }
}

/// The instruction that follows the prefix, given the byte after the prefix.
#[verifier::opaque]
pub open spec fn decode_prefixed(second: u8) -> Instruction {
    match prefixed_of(second) {
        Prefixed::Rlc => Instruction::Rlc(register8_of(field3(second, 0))),
        Prefixed::Rrc => Instruction::Rrc(register8_of(field3(second, 0))),
        Prefixed::Rl => Instruction::Rl(register8_of(field3(second, 0))),
        Prefixed::Rr => Instruction::Rr(register8_of(field3(second, 0))),
        Prefixed::Sla => Instruction::Sla(register8_of(field3(second, 0))),
        Prefixed::Sra => Instruction::Sra(register8_of(field3(second, 0))),
        Prefixed::Swap => Instruction::Swap(register8_of(field3(second, 0))),
        Prefixed::Srl => Instruction::Srl(register8_of(field3(second, 0))),
        Prefixed::Bit => Instruction::Bit(BitIndex(field3(second, 3)), register8_of(field3(second, 0))),
        Prefixed::Res => Instruction::Res(BitIndex(field3(second, 3)), register8_of(field3(second, 0))),
        Prefixed::SetBit => Instruction::SetBit(BitIndex(field3(second, 3)), register8_of(field3(second, 0))),
    }
}

/// The instruction of shape `opcode` at `address`, whose first byte is
/// `byte`: its operands are fields of the byte and the immediate after it.
#[verifier::opaque]
pub open spec fn decode_opcode(bus: BusView, address: u16, byte: u8, opcode: Opcode) -> Result<
    Instruction,
    Error,
> {
    match opcode {
        Opcode::Nop => Ok(Instruction::Nop),
        Opcode::LdReg16 => match immediate16(bus, address) {
            Ok(imm) => Ok(Instruction::LdReg16(register16_of(field2(byte, 4)), imm)),
            Err(error) => Err(error),
        },
        Opcode::LdMemA => Ok(Instruction::LdMemA(register16_memory_of(field2(byte, 4)))),
        Opcode::LdAMem => Ok(Instruction::LdAMem(register16_memory_of(field2(byte, 4)))),
        Opcode::LdImm16Sp => match immediate16(bus, address) {
            Ok(imm) => Ok(Instruction::LdImm16Sp(imm)),
            Err(error) => Err(error),
        },
        Opcode::Inc16 => Ok(Instruction::Inc16(register16_of(field2(byte, 4)))),
        Opcode::Dec16 => Ok(Instruction::Dec16(register16_of(field2(byte, 4)))),
        Opcode::AddHl => Ok(Instruction::AddHl(register16_of(field2(byte, 4)))),
        Opcode::Inc8 => Ok(Instruction::Inc8(register8_of(field3(byte, 3)))),
        Opcode::Dec8 => Ok(Instruction::Dec8(register8_of(field3(byte, 3)))),
        Opcode::LdReg8Imm => match immediate8(bus, address) {
            Ok(imm) => Ok(Instruction::LdReg8Imm(register8_of(field3(byte, 3)), imm)),
            Err(error) => Err(error),
        },
        Opcode::Rlca => Ok(Instruction::Rlca),
        Opcode::Rrca => Ok(Instruction::Rrca),
        Opcode::Rla => Ok(Instruction::Rla),
        Opcode::Rra => Ok(Instruction::Rra),
        Opcode::Daa => Ok(Instruction::Daa),
        Opcode::Cpl => Ok(Instruction::Cpl),
        Opcode::Scf => Ok(Instruction::Scf),
        Opcode::Ccf => Ok(Instruction::Ccf),
        Opcode::JrImm => match immediate8(bus, address) {
            Ok(imm) => Ok(Instruction::JrImm(imm)),
            Err(error) => Err(error),
        },
        Opcode::JrCond => match immediate8(bus, address) {
            Ok(imm) => Ok(Instruction::JrCond(condition_of(field2(byte, 3)), imm)),
            Err(error) => Err(error),
        },
        Opcode::Stop => Ok(Instruction::Stop),
        Opcode::LdReg8Reg8 => Ok(Instruction::LdReg8Reg8(register8_of(field3(byte, 3)), register8_of(field3(byte, 0)))),
        Opcode::Halt => Ok(Instruction::Halt),
        Opcode::AddReg8 => Ok(Instruction::AddReg8(register8_of(field3(byte, 0)))),
        Opcode::AdcReg8 => Ok(Instruction::AdcReg8(register8_of(field3(byte, 0)))),
        Opcode::SubReg8 => Ok(Instruction::SubReg8(register8_of(field3(byte, 0)))),
        Opcode::SbcReg8 => Ok(Instruction::SbcReg8(register8_of(field3(byte, 0)))),
        Opcode::AndReg8 => Ok(Instruction::AndReg8(register8_of(field3(byte, 0)))),
        Opcode::XorReg8 => Ok(Instruction::XorReg8(register8_of(field3(byte, 0)))),
        Opcode::OrReg8 => Ok(Instruction::OrReg8(register8_of(field3(byte, 0)))),
        Opcode::CpReg8 => Ok(Instruction::CpReg8(register8_of(field3(byte, 0)))),
        Opcode::AddImm8 => match immediate8(bus, address) {
            Ok(imm) => Ok(Instruction::AddImm8(imm)),
            Err(error) => Err(error),
        },
        Opcode::AdcImm8 => match immediate8(bus, address) {
            Ok(imm) => Ok(Instruction::AdcImm8(imm)),
            Err(error) => Err(error),
        },
        Opcode::SubImm8 => match immediate8(bus, address) {
            Ok(imm) => Ok(Instruction::SubImm8(imm)),
            Err(error) => Err(error),
        },
        Opcode::SbcImm8 => match immediate8(bus, address) {
            Ok(imm) => Ok(Instruction::SbcImm8(imm)),
            Err(error) => Err(error),
        },
        Opcode::AndImm8 => match immediate8(bus, address) {
            Ok(imm) => Ok(Instruction::AndImm8(imm)),
            Err(error) => Err(error),
        },
        Opcode::XorImm8 => match immediate8(bus, address) {
            Ok(imm) => Ok(Instruction::XorImm8(imm)),
            Err(error) => Err(error),
        },
        Opcode::OrImm8 => match immediate8(bus, address) {
            Ok(imm) => Ok(Instruction::OrImm8(imm)),
            Err(error) => Err(error),
        },
        Opcode::CpImm8 => match immediate8(bus, address) {
            Ok(imm) => Ok(Instruction::CpImm8(imm)),
            Err(error) => Err(error),
        },
        Opcode::RetCond => Ok(Instruction::RetCond(condition_of(field2(byte, 3)))),
        Opcode::Ret => Ok(Instruction::Ret),
        Opcode::Reti => Ok(Instruction::Reti),
        Opcode::JpCond => match immediate16(bus, address) {
            Ok(imm) => Ok(Instruction::JpCond(condition_of(field2(byte, 3)), imm)),
            Err(error) => Err(error),
        },
        Opcode::JpImm => match immediate16(bus, address) {
            Ok(imm) => Ok(Instruction::JpImm(imm)),
            Err(error) => Err(error),
        },
        Opcode::JpHl => Ok(Instruction::JpHl),
        Opcode::CallCond => match immediate16(bus, address) {
            Ok(imm) => Ok(Instruction::CallCond(condition_of(field2(byte, 3)), imm)),
            Err(error) => Err(error),
        },
        Opcode::CallImm => match immediate16(bus, address) {
            Ok(imm) => Ok(Instruction::CallImm(imm)),
            Err(error) => Err(error),
        },
        Opcode::Rst => Ok(Instruction::Rst(Target(field3(byte, 3)))),
        Opcode::Pop => Ok(Instruction::Pop(register16_stack_of(field2(byte, 4)))),
        Opcode::Push => Ok(Instruction::Push(register16_stack_of(field2(byte, 4)))),
        Opcode::LdhMemA => Ok(Instruction::LdhMemA),
        Opcode::LdhImmA => match immediate8(bus, address) {
            Ok(imm) => Ok(Instruction::LdhImmA(imm)),
            Err(error) => Err(error),
        },
        Opcode::LdImmA => match immediate16(bus, address) {
            Ok(imm) => Ok(Instruction::LdImmA(imm)),
            Err(error) => Err(error),
        },
        Opcode::LdhAMem => Ok(Instruction::LdhAMem),
        Opcode::LdhAImm => match immediate8(bus, address) {
            Ok(imm) => Ok(Instruction::LdhAImm(imm)),
            Err(error) => Err(error),
        },
        Opcode::LdAImm => match immediate16(bus, address) {
            Ok(imm) => Ok(Instruction::LdAImm(imm)),
            Err(error) => Err(error),
        },
        Opcode::AddSp => match immediate8(bus, address) {
            Ok(imm) => Ok(Instruction::AddSp(imm)),
            Err(error) => Err(error),
        },
        Opcode::LdHlSpImm8 => match immediate8(bus, address) {
            Ok(imm) => Ok(Instruction::LdHlSpImm8(imm)),
            Err(error) => Err(error),
        },
        Opcode::LdSpHl => Ok(Instruction::LdSpHl),
        Opcode::Di => Ok(Instruction::Di),
        Opcode::Ei => Ok(Instruction::Ei),
        Opcode::Prefix => match bus.read(next_address(address)) {
            Ok(second) => Ok(decode_prefixed(second)),
            Err(error) => Err(error),
        },
    }
}

/// The instruction at `address`: a fault where a byte of it cannot be read,
/// and an error that names the address and the byte where the first byte
/// encodes nothing.
pub open spec fn decode(bus: BusView, address: u16) -> Result<Instruction, Error> {
    match bus.read(address) {
        Err(error) => Err(error),
        Ok(byte) => match opcode_of(byte) {
            None => Err(Error::InvalidInstruction(address, byte)),
            Some(opcode) => decode_opcode(bus, address, byte, opcode),
        },
    }
}

/// A field of three bits is a number below eight.
proof fn field3_is_small(byte: u8, offset: u8)
    ensures
        field3(byte, offset) < 8,
{
    assert((byte >> offset) & 0b111 < 8) by (bit_vector);
}

/// Turns instruction bytes into typed instructions.
#[derive(Clone, Copy, Debug)]
pub struct Decoder {}

impl Decoder {
    pub fn new() -> (decoder: Self)
        ensures
            decoder == (Decoder {  }),
    {
        Self {  }
    }

    /// Decodes the instruction at the program counter.
    pub fn decode_one(&self, state: &ExecutionState, bus: &Bus) -> (instruction: Result<
        Instruction,
        Error,
    >)
        ensures
            instruction == decode(bus@, state@.instruction_pointer),
    {
        reveal(decode_opcode);
        reveal(decode_prefixed);
        let ip = state.instruction_pointer();
        let opcode_byte = bus.read_u8(ip)?;
        let opcode = match Opcode::try_from(opcode_byte) {
            Ok(opcode) => opcode,
            Err(_) => {
                return Err(Error::InvalidInstruction(ip, opcode_byte));
            },
        };
        let instruction = match opcode {
            Opcode::Nop => Instruction::Nop,
            Opcode::LdReg16 => {
                let imm = self.read_imm16(bus, ip)?;
                Instruction::LdReg16(self.read_r16(opcode_byte, 4), imm)
            },
            Opcode::LdMemA => Instruction::LdMemA(self.read_r16_mem(opcode_byte, 4)),
            Opcode::LdAMem => Instruction::LdAMem(self.read_r16_mem(opcode_byte, 4)),
            Opcode::LdImm16Sp => {
                let imm = self.read_imm16(bus, ip)?;
                Instruction::LdImm16Sp(imm)
            },
            Opcode::Inc16 => Instruction::Inc16(self.read_r16(opcode_byte, 4)),
            Opcode::Dec16 => Instruction::Dec16(self.read_r16(opcode_byte, 4)),
            Opcode::AddHl => Instruction::AddHl(self.read_r16(opcode_byte, 4)),
            Opcode::Inc8 => Instruction::Inc8(self.read_r8(opcode_byte, 3)),
            Opcode::Dec8 => Instruction::Dec8(self.read_r8(opcode_byte, 3)),
            Opcode::LdReg8Imm => {
                let imm = self.read_imm8(bus, ip)?;
                Instruction::LdReg8Imm(self.read_r8(opcode_byte, 3), imm)
            },
            Opcode::Rlca => Instruction::Rlca,
            Opcode::Rrca => Instruction::Rrca,
            Opcode::Rla => Instruction::Rla,
            Opcode::Rra => Instruction::Rra,
            Opcode::Daa => Instruction::Daa,
            Opcode::Cpl => Instruction::Cpl,
            Opcode::Scf => Instruction::Scf,
            Opcode::Ccf => Instruction::Ccf,
            Opcode::JrImm => {
                let imm = self.read_imm8(bus, ip)?;
                Instruction::JrImm(imm)
            },
            Opcode::JrCond => {
                let imm = self.read_imm8(bus, ip)?;
                Instruction::JrCond(self.read_cond(opcode_byte), imm)
            },
            Opcode::Stop => Instruction::Stop,
            Opcode::LdReg8Reg8 => Instruction::LdReg8Reg8(self.read_r8(opcode_byte, 3), self.read_r8(opcode_byte, 0)),
            Opcode::Halt => Instruction::Halt,
            Opcode::AddReg8 => Instruction::AddReg8(self.read_r8(opcode_byte, 0)),
            Opcode::AdcReg8 => Instruction::AdcReg8(self.read_r8(opcode_byte, 0)),
            Opcode::SubReg8 => Instruction::SubReg8(self.read_r8(opcode_byte, 0)),
            Opcode::SbcReg8 => Instruction::SbcReg8(self.read_r8(opcode_byte, 0)),
            Opcode::AndReg8 => Instruction::AndReg8(self.read_r8(opcode_byte, 0)),
            Opcode::XorReg8 => Instruction::XorReg8(self.read_r8(opcode_byte, 0)),
            Opcode::OrReg8 => Instruction::OrReg8(self.read_r8(opcode_byte, 0)),
            Opcode::CpReg8 => Instruction::CpReg8(self.read_r8(opcode_byte, 0)),
            Opcode::AddImm8 => {
                let imm = self.read_imm8(bus, ip)?;
                Instruction::AddImm8(imm)
            },
            Opcode::AdcImm8 => {
                let imm = self.read_imm8(bus, ip)?;
                Instruction::AdcImm8(imm)
            },
            Opcode::SubImm8 => {
                let imm = self.read_imm8(bus, ip)?;
                Instruction::SubImm8(imm)
            },
            Opcode::SbcImm8 => {
                let imm = self.read_imm8(bus, ip)?;
                Instruction::SbcImm8(imm)
            },
            Opcode::AndImm8 => {
                let imm = self.read_imm8(bus, ip)?;
                Instruction::AndImm8(imm)
            },
            Opcode::XorImm8 => {
                let imm = self.read_imm8(bus, ip)?;
                Instruction::XorImm8(imm)
            },
            Opcode::OrImm8 => {
                let imm = self.read_imm8(bus, ip)?;
                Instruction::OrImm8(imm)
            },
            Opcode::CpImm8 => {
                let imm = self.read_imm8(bus, ip)?;
                Instruction::CpImm8(imm)
            },
            Opcode::RetCond => Instruction::RetCond(self.read_cond(opcode_byte)),
            Opcode::Ret => Instruction::Ret,
            Opcode::Reti => Instruction::Reti,
            Opcode::JpCond => {
                let imm = self.read_imm16(bus, ip)?;
                Instruction::JpCond(self.read_cond(opcode_byte), imm)
            },
            Opcode::JpImm => {
                let imm = self.read_imm16(bus, ip)?;
                Instruction::JpImm(imm)
            },
            Opcode::JpHl => Instruction::JpHl,
            Opcode::CallCond => {
                let imm = self.read_imm16(bus, ip)?;
                Instruction::CallCond(self.read_cond(opcode_byte), imm)
            },
            Opcode::CallImm => {
                let imm = self.read_imm16(bus, ip)?;
                Instruction::CallImm(imm)
            },
            Opcode::Rst => Instruction::Rst(self.read_tgt(opcode_byte)),
            Opcode::Pop => Instruction::Pop(self.read_r16_stack(opcode_byte)),
            Opcode::Push => Instruction::Push(self.read_r16_stack(opcode_byte)),
            Opcode::LdhMemA => Instruction::LdhMemA,
            Opcode::LdhImmA => {
                let imm = self.read_imm8(bus, ip)?;
                Instruction::LdhImmA(imm)
            },
            Opcode::LdImmA => {
                let imm = self.read_imm16(bus, ip)?;
                Instruction::LdImmA(imm)
            },
            Opcode::LdhAMem => Instruction::LdhAMem,
            Opcode::LdhAImm => {
                let imm = self.read_imm8(bus, ip)?;
                Instruction::LdhAImm(imm)
            },
            Opcode::LdAImm => {
                let imm = self.read_imm16(bus, ip)?;
                Instruction::LdAImm(imm)
            },
            Opcode::AddSp => {
                let imm = self.read_imm8(bus, ip)?;
                Instruction::AddSp(imm)
            },
            Opcode::LdHlSpImm8 => {
                let imm = self.read_imm8(bus, ip)?;
                Instruction::LdHlSpImm8(imm)
            },
            Opcode::LdSpHl => Instruction::LdSpHl,
            Opcode::Di => Instruction::Di,
            Opcode::Ei => Instruction::Ei,
            Opcode::Prefix => {
                let prefixed_byte = bus.read_u8(ip.wrapping_add(1))?;
                let prefixed = match Prefixed::try_from(prefixed_byte) {
                    Ok(prefixed) => prefixed,
                    Err(_) => {
                        return Err(Error::InvalidInstruction(ip, opcode_byte));
                    },
                };
                match prefixed {
                    Prefixed::Rlc => Instruction::Rlc(self.read_r8(prefixed_byte, 0)),
                    Prefixed::Rrc => Instruction::Rrc(self.read_r8(prefixed_byte, 0)),
                    Prefixed::Rl => Instruction::Rl(self.read_r8(prefixed_byte, 0)),
                    Prefixed::Rr => Instruction::Rr(self.read_r8(prefixed_byte, 0)),
                    Prefixed::Sla => Instruction::Sla(self.read_r8(prefixed_byte, 0)),
                    Prefixed::Sra => Instruction::Sra(self.read_r8(prefixed_byte, 0)),
                    Prefixed::Swap => Instruction::Swap(self.read_r8(prefixed_byte, 0)),
                    Prefixed::Srl => Instruction::Srl(self.read_r8(prefixed_byte, 0)),
                    Prefixed::Bit => Instruction::Bit(
                        self.read_bit_index(prefixed_byte),
                        self.read_r8(prefixed_byte, 0),
                    ),
                    Prefixed::Res => Instruction::Res(
                        self.read_bit_index(prefixed_byte),
                        self.read_r8(prefixed_byte, 0),
                    ),
                    Prefixed::SetBit => Instruction::SetBit(
                        self.read_bit_index(prefixed_byte),
                        self.read_r8(prefixed_byte, 0),
                    ),
                }
            },
        };
        Ok(instruction)
    }

    fn read_imm8(&self, bus: &Bus, ip: u16) -> (imm: Result<Imm8, Error>)
        ensures
            imm == immediate8(bus@, ip),
    {
        let value = bus.read_u8(ip.wrapping_add(1))?;
        Ok(Imm8::from(value))
    }

    fn read_imm16(&self, bus: &Bus, ip: u16) -> (imm: Result<Imm16, Error>)
        ensures
            imm == immediate16(bus@, ip),
    {
        let value = bus.read_u16(ip.wrapping_add(1))?;
        Ok(Imm16::from(value))
    }

    pub fn read_r16(&self, opcode_byte: u8, bit_offset: u8) -> (register: Register16)
        requires
            bit_offset < 8,
        ensures
            register == register16_of(field2(opcode_byte, bit_offset)),
    {
        let value = (opcode_byte >> bit_offset) & 0b11;
        match value {
            0 => Register16::Bc,
            1 => Register16::De,
            2 => Register16::Hl,
            _ => Register16::Sp,
        }
    }

    pub fn read_r16_stack(&self, opcode_byte: u8) -> (register: Register16Stack)
        ensures
            register == register16_stack_of(field2(opcode_byte, 4)),
    {
        let value = (opcode_byte >> 4u8) & 0b11;
        match value {
            0 => Register16Stack::Bc,
            1 => Register16Stack::De,
            2 => Register16Stack::Hl,
            _ => Register16Stack::Af,
        }
    }

    pub fn read_r16_mem(&self, opcode_byte: u8, bit_offset: u8) -> (register: Register16Memory)
        requires
            bit_offset < 8,
        ensures
            register == register16_memory_of(field2(opcode_byte, bit_offset)),
    {
        let value = (opcode_byte >> bit_offset) & 0b11;
        match value {
            0 => Register16Memory::Bc,
            1 => Register16Memory::De,
            2 => Register16Memory::Hli,
            _ => Register16Memory::Hld,
        }
    }

    pub fn read_r8(&self, opcode_byte: u8, bit_offset: u8) -> (register: Register8)
        requires
            bit_offset < 8,
        ensures
            register == register8_of(field3(opcode_byte, bit_offset)),
    {
        let value = (opcode_byte >> bit_offset) & 0b111;
        match value {
            0 => Register8::B,
            1 => Register8::C,
            2 => Register8::D,
            3 => Register8::E,
            4 => Register8::H,
            5 => Register8::L,
            6 => Register8::HlIndirect,
            _ => Register8::A,
        }
    }

    pub fn read_bit_index(&self, prefixed: u8) -> (index: BitIndex)
        ensures
            index == BitIndex(field3(prefixed, 3)),
            index.0 < 8,
    {
        proof {
            field3_is_small(prefixed, 3);
        }
        let value = (prefixed >> 3u8) & 0b111;
        BitIndex::from(value)
    }

    pub fn read_tgt(&self, opcode_byte: u8) -> (target: Target)
        ensures
            target == Target(field3(opcode_byte, 3)),
            target.0 < 8,
    {
        proof {
            field3_is_small(opcode_byte, 3);
        }
        let value = (opcode_byte >> 3u8) & 0b111;
        Target::from(value)
    }

    pub fn read_cond(&self, opcode_byte: u8) -> (condition: Condition)
        ensures
            condition == condition_of(field2(opcode_byte, 3)),
    {
        let value = (opcode_byte >> 3u8) & 0b11;
        match value {
            0 => Condition::Nz,
            1 => Condition::Z,
            2 => Condition::Nc,
            _ => Condition::C,
        }
    }
}

} // verus!
