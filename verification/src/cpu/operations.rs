use vstd::prelude::*;
use super::alu::{AccumulatorOperation, ArithmeticOperation, UnaryOperation};
use super::error::Error;
use super::instruction::{Register16, Register16Memory, Register16Stack, Register8};
use super::{updates, Cpu, CpuView};

verus! {

impl Cpu {
    /// Loads the accumulator from where a register pair points and steps the
    /// pair.
    pub(super) fn load_a_r16_mem(&mut self, r16: Register16Memory) -> (result: Result<(), Error>)
        ensures
            updates(old(self)@.load_a_r16_mem(r16), result, final(self)@),
    {
        reveal(CpuView::load_a_r16_mem);
        let value = self.get_r16_mem_u8(r16)?;
        self.state.set_reg_a(value);
        Ok(())
    }

    /// Stores the stack pointer at `address`, low byte first.
    pub(super) fn store_sp(&mut self, address: u16) -> (result: Result<(), Error>)
        ensures
            updates(old(self)@.store_sp(address), result, final(self)@),
    {
        reveal(CpuView::store_sp);
        let sp = self.state.stack_pointer();
        self.bus.write_u16(address, sp)
    }

    /// Steps a register pair up or down by one.
    pub(super) fn step_r16(&mut self, r16: Register16, up: bool)
        ensures
            final(self)@ == old(self)@.step_r16(r16, up),
    {
        reveal(CpuView::step_r16);
        let value = if up {
            self.inc_u16(self.get_r16(r16))
        } else {
            self.dec_u16(self.get_r16(r16))
        };
        self.update_r16(r16, value);
    }

    /// Adds a register pair to HL.
    pub(super) fn add_to_hl(&mut self, r16: Register16)
        ensures
            final(self)@ == old(self)@.add_to_hl(r16),
    {
        reveal(CpuView::add_to_hl);
        reveal(CpuView::get_r16);
        let val1 = self.get_r16(Register16::Hl);
        let val2 = self.get_r16(r16);
        let result = self.add_hl(val1, val2);
        self.update_r16(Register16::Hl, result);
    }

    /// Reads an 8-bit operand, computes `operation` on it and writes the
    /// result back.
    pub(super) fn apply_unary(&mut self, r8: Register8, operation: UnaryOperation) -> (result: Result<
        (),
        Error,
    >)
        ensures
            updates(old(self)@.apply_unary(r8, operation), result, final(self)@),
    {
        reveal(CpuView::apply_unary);
        let value = self.get_r8(r8)?;
        let result = self.unary(operation, value);
        self.update_r8(r8, result)
    }

    /// Computes `operation` on the accumulator.
    pub(super) fn adjust_a(&mut self, operation: AccumulatorOperation)
        ensures
            final(self)@ == old(self)@.adjust_a(operation),
    {
        reveal(CpuView::adjust_a);
        let a = self.state.reg_a();
        let result = self.accumulator(operation, a);
        self.state.set_reg_a(result);
    }

    /// Puts the processor to sleep and starts the divider over.
    pub(super) fn stop(&mut self)
        ensures
            final(self)@ == old(self)@.stop(),
    {
        reveal(CpuView::stop);
        self.bus.io_mut().timer_mut().set_divider(0);
        self.halted = true;
    }

    /// Copies the operand `src` to `dest`.
    pub(super) fn copy_r8(&mut self, dest: Register8, src: Register8) -> (result: Result<(), Error>)
        ensures
            updates(old(self)@.copy_r8(dest, src), result, final(self)@),
    {
        reveal(CpuView::copy_r8);
        let value = self.get_r8(src)?;
        self.update_r8(dest, value)
    }

    /// Computes `operation` on the accumulator and `value`.
    pub(super) fn apply_arithmetic(&mut self, value: u8, operation: ArithmeticOperation)
        ensures
            old(self)@.apply_arithmetic(Ok(value), operation) == Ok::<CpuView, Error>(final(self)@),
    {
        reveal(CpuView::apply_arithmetic);
        let a = self.state.reg_a();
        let result = self.arithmetic(operation, a, value);
        self.state.set_reg_a(result);
    }

    /// Pops a word into a register pair.
    pub(super) fn pop_into(&mut self, r16: Register16Stack) -> (result: Result<(), Error>)
        ensures
            updates(old(self)@.pop_into(r16), result, final(self)@),
    {
        reveal(CpuView::pop_into);
        let value = self.pop_u16()?;
        self.update_r16_stack(r16, value);
        Ok(())
    }

    /// Pushes a register pair.
    pub(super) fn push_from(&mut self, r16: Register16Stack) -> (result: Result<(), Error>)
        ensures
            updates(old(self)@.push_from(r16), result, final(self)@),
    {
        reveal(CpuView::push_from);
        let value = self.get_r16_stack(r16);
        self.push_u16(value)
    }

    /// Stores the accumulator at `address`.
    pub(super) fn store_a(&mut self, address: u16) -> (result: Result<(), Error>)
        ensures
            updates(old(self)@.store_a(address), result, final(self)@),
    {
        reveal(CpuView::store_a);
        reveal(CpuView::write);
        let value = self.state.reg_a();
        self.bus.write_u8(address, value)
    }

    /// Loads the accumulator from `address`.
    pub(super) fn load_a(&mut self, address: u16) -> (result: Result<(), Error>)
        ensures
            updates(old(self)@.load_a(address), result, final(self)@),
    {
        reveal(CpuView::load_a);
        let value = self.bus.read_u8(address)?;
        self.state.set_reg_a(value);
        Ok(())
    }

    /// Moves the stack pointer by the signed `offset`.
    pub(super) fn move_sp(&mut self, offset: u8)
        ensures
            final(self)@ == old(self)@.move_sp(offset),
    {
        reveal(CpuView::move_sp);
        let sp = self.state.stack_pointer();
        let new_sp = self.add_sp(sp, offset);
        self.state.set_stack_pointer(new_sp);
    }

    /// Loads HL with the stack pointer moved by the signed `offset`.
    pub(super) fn load_hl_sp(&mut self, offset: u8)
        ensures
            final(self)@ == old(self)@.load_hl_sp(offset),
    {
        reveal(CpuView::load_hl_sp);
        let sp = self.state.stack_pointer();
        let value = self.add_sp(sp, offset);
        self.update_r16(Register16::Hl, value);
    }

    /// Loads the stack pointer from HL.
    pub(super) fn load_sp_hl(&mut self)
        ensures
            final(self)@ == old(self)@.load_sp_hl(),
    {
        reveal(CpuView::load_sp_hl);
        let hl = self.get_r16(Register16::Hl);
        self.state.set_stack_pointer(hl);
    }

    /// Pops the address to go on at into the program counter.
    pub(super) fn ret(&mut self) -> (result: Result<(), Error>)
        ensures
            updates(
                match old(self)@.pop_u16() {
                    Ok((cpu, target)) => Ok(cpu.with_pc(target)),
                    Err(error) => Err(error),
                },
                result,
                final(self)@,
            ),
    {
        let target = self.pop_u16()?;
        self.state.set_instruction_pointer(target);
        Ok(())
    }

    /// Pushes the address `next` and goes on at `target`.
    pub(super) fn call(&mut self, target: u16, next: u16) -> (result: Result<(), Error>)
        ensures
            updates(
                match old(self)@.push_u16(next) {
                    Ok(cpu) => Ok(cpu.with_pc(target)),
                    Err(error) => Err(error),
                },
                result,
                final(self)@,
            ),
    {
        self.push_u16(next)?;
        self.state.set_instruction_pointer(target);
        Ok(())
    }

    /// Tests bit `index`, taken modulo 8, of an 8-bit operand.
    pub(super) fn test_bit(&mut self, index: u8, r8: Register8) -> (result: Result<(), Error>)
        ensures
            updates(old(self)@.test_bit(index, r8), result, final(self)@),
    {
        reveal(CpuView::test_bit);
        let value = self.get_r8(r8)?;
        self.test_bit_u8(index % 8, value);
        Ok(())
    }
}

} // verus!
