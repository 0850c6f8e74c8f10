use vstd::prelude::*;
use super::alu::{AccumulatorOperation, ArithmeticOperation, UnaryOperation};
use super::error::Error;
use super::instruction::{Instruction, Register16};
use super::{executes, Cpu, CpuView};

verus! {

impl Cpu {
    /// Runs `instruction` and moves the program counter. Returns the clock
    /// cycles that a taken branch adds.
    pub(super) fn execute(&mut self, instruction: Instruction, next: u16) -> (result: Result<
        usize,
        Error,
    >)
        ensures
            executes(old(self)@.execute(instruction, next), result, final(self)@),
            result matches Ok(extra) ==> extra <= 12,
    {
        reveal(Instruction::group);
        match instruction {
            Instruction::Nop
            | Instruction::LdReg16(_, _)
            | Instruction::LdMemA(_)
            | Instruction::LdAMem(_)
            | Instruction::LdImm16Sp(_)
            | Instruction::Inc16(_)
            | Instruction::Dec16(_)
            | Instruction::AddHl(_)
            | Instruction::Inc8(_)
            | Instruction::Dec8(_)
            | Instruction::LdReg8Imm(_, _)
            | Instruction::Rlca
            | Instruction::Rrca
            | Instruction::Rla
            | Instruction::Rra
            | Instruction::Daa
            | Instruction::Cpl
            | Instruction::Scf
            | Instruction::Ccf
            | Instruction::JrImm(_)
            | Instruction::JrCond(_, _)
            | Instruction::Stop
            | Instruction::LdReg8Reg8(_, _)
            | Instruction::Halt => self.execute_loads_and_misc(instruction, next),
            Instruction::AddReg8(_)
            | Instruction::AdcReg8(_)
            | Instruction::SubReg8(_)
            | Instruction::SbcReg8(_)
            | Instruction::AndReg8(_)
            | Instruction::XorReg8(_)
            | Instruction::OrReg8(_)
            | Instruction::CpReg8(_)
            | Instruction::AddImm8(_)
            | Instruction::AdcImm8(_)
            | Instruction::SubImm8(_)
            | Instruction::SbcImm8(_)
            | Instruction::AndImm8(_)
            | Instruction::XorImm8(_)
            | Instruction::OrImm8(_)
            | Instruction::CpImm8(_) => self.execute_arithmetic(instruction, next),
            Instruction::RetCond(_)
            | Instruction::Ret
            | Instruction::Reti
            | Instruction::JpCond(_, _)
            | Instruction::JpImm(_)
            | Instruction::JpHl
            | Instruction::CallCond(_, _)
            | Instruction::CallImm(_)
            | Instruction::Rst(_)
            | Instruction::Pop(_)
            | Instruction::Push(_)
            | Instruction::LdhMemA
            | Instruction::LdhImmA(_)
            | Instruction::LdImmA(_)
            | Instruction::LdhAMem
            | Instruction::LdhAImm(_)
            | Instruction::LdAImm(_)
            | Instruction::AddSp(_)
            | Instruction::LdHlSpImm8(_)
            | Instruction::LdSpHl
            | Instruction::Di
            | Instruction::Ei => self.execute_control(instruction, next),
            Instruction::Rlc(_)
            | Instruction::Rrc(_)
            | Instruction::Rl(_)
            | Instruction::Rr(_)
            | Instruction::Sla(_)
            | Instruction::Sra(_)
            | Instruction::Swap(_)
            | Instruction::Srl(_)
            | Instruction::Bit(_, _)
            | Instruction::Res(_, _)
            | Instruction::SetBit(_, _) => self.execute_prefixed(instruction, next),
        }
    }

    /// Runs an instruction of the first quarter of the opcode table or a load
    /// between registers.
    #[verifier::rlimit(30)]
    fn execute_loads_and_misc(&mut self, instruction: Instruction, next: u16) -> (result: Result<
        usize,
        Error,
    >)
        requires
            instruction.group() == 0,
        ensures
            executes(old(self)@.execute_loads_and_misc(instruction, next), result, final(self)@),
            result matches Ok(extra) ==> extra <= 12,
    {
        reveal(CpuView::execute_loads_and_misc);
        match instruction {
            Instruction::Nop => {
                return Ok(0);
            },
            Instruction::LdReg16(r16, imm) => {
                self.update_r16(r16, imm.0);
                return Ok(0);
            },
            Instruction::LdMemA(r16) => {
                let a = self.state.reg_a();
                self.update_r16_mem_u8(r16, a)?;
                return Ok(0);
            },
            Instruction::LdAMem(r16) => {
                self.load_a_r16_mem(r16)?;
                return Ok(0);
            },
            Instruction::LdImm16Sp(imm) => {
                self.store_sp(imm.0)?;
                return Ok(0);
            },
            Instruction::Inc16(r16) => {
                self.step_r16(r16, true);
                return Ok(0);
            },
            Instruction::Dec16(r16) => {
                self.step_r16(r16, false);
                return Ok(0);
            },
            Instruction::AddHl(r16) => {
                self.add_to_hl(r16);
                return Ok(0);
            },
            Instruction::Inc8(r8) => {
                self.apply_unary(r8, UnaryOperation::Inc)?;
                return Ok(0);
            },
            Instruction::Dec8(r8) => {
                self.apply_unary(r8, UnaryOperation::Dec)?;
                return Ok(0);
            },
            Instruction::LdReg8Imm(r8, imm) => {
                self.update_r8(r8, imm.0)?;
                return Ok(0);
            },
            Instruction::Rlca => {
                self.adjust_a(AccumulatorOperation::Rlca);
                return Ok(0);
            },
            Instruction::Rrca => {
                self.adjust_a(AccumulatorOperation::Rrca);
                return Ok(0);
            },
            Instruction::Rla => {
                self.adjust_a(AccumulatorOperation::Rla);
                return Ok(0);
            },
            Instruction::Rra => {
                self.adjust_a(AccumulatorOperation::Rra);
                return Ok(0);
            },
            Instruction::Daa => {
                self.adjust_a(AccumulatorOperation::Daa);
                return Ok(0);
            },
            Instruction::Cpl => {
                self.adjust_a(AccumulatorOperation::Cpl);
                return Ok(0);
            },
            Instruction::Scf => {
                self.adjust_a(AccumulatorOperation::Scf);
                return Ok(0);
            },
            Instruction::Ccf => {
                self.adjust_a(AccumulatorOperation::Ccf);
                return Ok(0);
            },
            Instruction::JrImm(imm) => {
                let dest = self.rel_jump_dest(i8::from(imm), next);
                self.state.set_instruction_pointer(dest);
                return Ok(0);
            },
            Instruction::JrCond(condition, imm) => {
                let dest = self.rel_jump_dest(i8::from(imm), next);
                if self.is_condition_met(condition) {
                    self.state.set_instruction_pointer(dest);
                    return Ok(4);
                }
                return Ok(0);
            },
            Instruction::Stop => {
                self.stop();
                return Ok(0);
            },
            Instruction::LdReg8Reg8(dest, src) => {
                self.copy_r8(dest, src)?;
                return Ok(0);
            },
            Instruction::Halt => {
                self.halted = true;
                return Ok(0);
            },
            _ => {},
        }
        Ok(0)
    }

    /// Runs an instruction of the arithmetic unit on the accumulator.
    #[verifier::rlimit(30)]
    fn execute_arithmetic(&mut self, instruction: Instruction, next: u16) -> (result: Result<
        usize,
        Error,
    >)
        requires
            instruction.group() == 1,
        ensures
            executes(old(self)@.execute_arithmetic(instruction, next), result, final(self)@),
            result matches Ok(extra) ==> extra <= 12,
    {
        reveal(CpuView::execute_arithmetic);
        reveal(CpuView::apply_arithmetic);
        match instruction {
            Instruction::AddReg8(r8) => {
                let value = self.get_r8(r8)?;
                self.apply_arithmetic(value, ArithmeticOperation::Add);
                return Ok(0);
            },
            Instruction::AdcReg8(r8) => {
                let value = self.get_r8(r8)?;
                self.apply_arithmetic(value, ArithmeticOperation::Adc);
                return Ok(0);
            },
            Instruction::SubReg8(r8) => {
                let value = self.get_r8(r8)?;
                self.apply_arithmetic(value, ArithmeticOperation::Sub);
                return Ok(0);
            },
            Instruction::SbcReg8(r8) => {
                let value = self.get_r8(r8)?;
                self.apply_arithmetic(value, ArithmeticOperation::Sbc);
                return Ok(0);
            },
            Instruction::AndReg8(r8) => {
                let value = self.get_r8(r8)?;
                self.apply_arithmetic(value, ArithmeticOperation::And);
                return Ok(0);
            },
            Instruction::XorReg8(r8) => {
                let value = self.get_r8(r8)?;
                self.apply_arithmetic(value, ArithmeticOperation::Xor);
                return Ok(0);
            },
            Instruction::OrReg8(r8) => {
                let value = self.get_r8(r8)?;
                self.apply_arithmetic(value, ArithmeticOperation::Or);
                return Ok(0);
            },
            Instruction::CpReg8(r8) => {
                let value = self.get_r8(r8)?;
                self.apply_arithmetic(value, ArithmeticOperation::Cp);
                return Ok(0);
            },
            Instruction::AddImm8(imm) => {
                self.apply_arithmetic(imm.0, ArithmeticOperation::Add);
                return Ok(0);
            },
            Instruction::AdcImm8(imm) => {
                self.apply_arithmetic(imm.0, ArithmeticOperation::Adc);
                return Ok(0);
            },
            Instruction::SubImm8(imm) => {
                self.apply_arithmetic(imm.0, ArithmeticOperation::Sub);
                return Ok(0);
            },
            Instruction::SbcImm8(imm) => {
                self.apply_arithmetic(imm.0, ArithmeticOperation::Sbc);
                return Ok(0);
            },
            Instruction::AndImm8(imm) => {
                self.apply_arithmetic(imm.0, ArithmeticOperation::And);
                return Ok(0);
            },
            Instruction::XorImm8(imm) => {
                self.apply_arithmetic(imm.0, ArithmeticOperation::Xor);
                return Ok(0);
            },
            Instruction::OrImm8(imm) => {
                self.apply_arithmetic(imm.0, ArithmeticOperation::Or);
                return Ok(0);
            },
            Instruction::CpImm8(imm) => {
                self.apply_arithmetic(imm.0, ArithmeticOperation::Cp);
                return Ok(0);
            },
            _ => {},
        }
        Ok(0)
    }

    /// Runs a jump, a call, a return, a stack operation or another instruction
    /// of the last quarter of the opcode table.
    #[verifier::rlimit(30)]
    fn execute_control(&mut self, instruction: Instruction, next: u16) -> (result: Result<
        usize,
        Error,
    >)
        requires
            instruction.group() == 2,
        ensures
            executes(old(self)@.execute_control(instruction, next), result, final(self)@),
            result matches Ok(extra) ==> extra <= 12,
    {
        reveal(CpuView::execute_control);
        match instruction {
            Instruction::RetCond(condition) => {
                if self.is_condition_met(condition) {
                    self.ret()?;
                    return Ok(12);
                }
                return Ok(0);
            },
            Instruction::Ret => {
                self.ret()?;
                return Ok(0);
            },
            Instruction::Reti => {
                self.state.set_interrupts_enabled(true);
                self.ret()?;
                return Ok(0);
            },
            Instruction::JpCond(condition, imm) => {
                if self.is_condition_met(condition) {
                    self.state.set_instruction_pointer(imm.0);
                    return Ok(4);
                }
                return Ok(0);
            },
            Instruction::JpImm(imm) => {
                self.state.set_instruction_pointer(imm.0);
                return Ok(0);
            },
            Instruction::JpHl => {
                let hl = self.get_r16(Register16::Hl);
                self.state.set_instruction_pointer(hl);
                return Ok(0);
            },
            Instruction::CallCond(condition, imm) => {
                if self.is_condition_met(condition) {
                    self.call(imm.0, next)?;
                    return Ok(12);
                }
                return Ok(0);
            },
            Instruction::CallImm(imm) => {
                self.call(imm.0, next)?;
                return Ok(0);
            },
            Instruction::Rst(tgt) => {
                self.call(tgt.0 as u16 * 8, next)?;
                return Ok(0);
            },
            Instruction::Pop(r16) => {
                self.pop_into(r16)?;
                return Ok(0);
            },
            Instruction::Push(r16) => {
                self.push_from(r16)?;
                return Ok(0);
            },
            Instruction::LdhMemA => {
                let address = 0xFF00 + (self.state.reg_c() as u16);
                self.store_a(address)?;
                return Ok(0);
            },
            Instruction::LdhImmA(imm) => {
                self.store_a(0xFF00 + imm.0 as u16)?;
                return Ok(0);
            },
            Instruction::LdImmA(imm) => {
                self.store_a(imm.0)?;
                return Ok(0);
            },
            Instruction::LdhAMem => {
                let address = 0xFF00 + (self.state.reg_c() as u16);
                self.load_a(address)?;
                return Ok(0);
            },
            Instruction::LdhAImm(imm) => {
                self.load_a(0xFF00 + imm.0 as u16)?;
                return Ok(0);
            },
            Instruction::LdAImm(imm) => {
                self.load_a(imm.0)?;
                return Ok(0);
            },
            Instruction::AddSp(imm) => {
                self.move_sp(imm.0);
                return Ok(0);
            },
            Instruction::LdHlSpImm8(imm) => {
                self.load_hl_sp(imm.0);
                return Ok(0);
            },
            Instruction::LdSpHl => {
                self.load_sp_hl();
                return Ok(0);
            },
            Instruction::Di => {
                self.state.set_interrupts_enabled(false);
                self.interrupt_enable_next = false;
                return Ok(0);
            },
            Instruction::Ei => {
                self.interrupt_enable_next = true;
                return Ok(0);
            },
            _ => {},
        }
        Ok(0)
    }

    /// Runs an instruction that follows the prefix.
    #[verifier::rlimit(30)]
    fn execute_prefixed(&mut self, instruction: Instruction, next: u16) -> (result: Result<
        usize,
        Error,
    >)
        requires
            instruction.group() == 3,
        ensures
            executes(old(self)@.execute_prefixed(instruction, next), result, final(self)@),
            result matches Ok(extra) ==> extra <= 12,
    {
        reveal(CpuView::execute_prefixed);
        match instruction {
            Instruction::Rlc(r8) => {
                self.apply_unary(r8, UnaryOperation::Rlc)?;
                return Ok(0);
            },
            Instruction::Rrc(r8) => {
                self.apply_unary(r8, UnaryOperation::Rrc)?;
                return Ok(0);
            },
            Instruction::Rl(r8) => {
                self.apply_unary(r8, UnaryOperation::Rl)?;
                return Ok(0);
            },
            Instruction::Rr(r8) => {
                self.apply_unary(r8, UnaryOperation::Rr)?;
                return Ok(0);
            },
            Instruction::Sla(r8) => {
                self.apply_unary(r8, UnaryOperation::Sla)?;
                return Ok(0);
            },
            Instruction::Sra(r8) => {
                self.apply_unary(r8, UnaryOperation::Sra)?;
                return Ok(0);
            },
            Instruction::Swap(r8) => {
                self.apply_unary(r8, UnaryOperation::Swap)?;
                return Ok(0);
            },
            Instruction::Srl(r8) => {
                self.apply_unary(r8, UnaryOperation::Srl)?;
                return Ok(0);
            },
            Instruction::Bit(index, r8) => {
                self.test_bit(index.0, r8)?;
                return Ok(0);
            },
            Instruction::Res(index, r8) => {
                self.apply_unary(r8, UnaryOperation::Res(index.0))?;
                return Ok(0);
            },
            Instruction::SetBit(index, r8) => {
                self.apply_unary(r8, UnaryOperation::SetBit(index.0))?;
                return Ok(0);
            },
            _ => {},
        }
        Ok(0)
    }
}

} // verus!
