use vstd::prelude::*;
use crate::bus::{Bus, BusView};
use crate::io::dma::DMA_TRANSFER_BYTES;
use crate::io::interrupts::Interrupt;
use crate::io::timer::TimerView;
use crate::io::IOView;
use crate::ppu::oam::OAM_START;
use alu::{
    accumulator_outcome, add_hl, add_sp, arithmetic_outcome, bit_test, unary_outcome,
    AccumulatorOperation, ArithmeticOperation, UnaryOperation,
};
use decoder::{decode, Decoder};
use error::Error;
use execution_state::{high_byte, low_byte, pair_of, ExecutionState, ExecutionStateView, Flags};
use instruction::{
    signed_value, Condition, Instruction, Register16, Register16Memory, Register16Stack, Register8,
};

pub mod alu;
pub mod decoder;
pub mod error;
mod execute;
mod operations;
pub mod execution_state;
pub mod instruction;
pub mod laws;

verus! {

/// The clock cycles that the processor takes while it sleeps, per step.
pub const HALTED_CYCLES: usize = 4;

/// The clock cycles that entering an interrupt handler takes.
pub const INTERRUPT_CYCLES: usize = 20;

/// The 16-bit number that `value` is modulo 0x10000: addresses wrap around.
pub open spec fn wrapped(value: int) -> u16 {
    (value % 0x1_0000) as u16
}

/// What running one instruction gives, before the program counter moves.
pub struct Executed {
    /// The processor after the instruction.
    pub cpu: CpuView,
    /// The clock cycles that a taken branch adds to the cost of the
    /// instruction.
    pub extra_cycles: usize,
}

/// The instruction is done and no branch was taken.
pub open spec fn done(cpu: CpuView) -> Result<Executed, Error> {
    Ok(Executed { cpu, extra_cycles: 0 })
}

/// The instruction is done where it did not fault.
pub open spec fn done_if(cpu: Result<CpuView, Error>) -> Result<Executed, Error> {
    match cpu {
        Ok(cpu) => done(cpu),
        Err(error) => Err(error),
    }
}

/// Whether a call that gives no value did what `spec` says: it succeeded
/// and left the processor as `spec` has it, or failed with the error of
/// `spec`.
pub open spec fn updates(spec: Result<CpuView, Error>, result: Result<(), Error>, after: CpuView) -> bool {
    match spec {
        Ok(cpu) => result is Ok && after == cpu,
        Err(error) => result == Err::<(), Error>(error),
    }
}

/// Whether running an instruction did what `spec` says: it succeeded with
/// the extra cycles of `spec` and left the processor as `spec` has it, or
/// failed with the error of `spec`.
pub open spec fn executes(spec: Result<Executed, Error>, result: Result<usize, Error>, after: CpuView) -> bool {
    match spec {
        Ok(executed) => result == Ok::<usize, Error>(executed.extra_cycles) && after
            == executed.cpu,
        Err(error) => result == Err::<usize, Error>(error),
    }
}

/// Whether a call that gives a value did what `spec` says.
pub open spec fn yields<T>(spec: Result<(CpuView, T), Error>, result: Result<T, Error>, after: CpuView) -> bool {
    match spec {
        Ok((cpu, value)) => result == Ok::<T, Error>(value) && after == cpu,
        Err(error) => result == Err::<T, Error>(error),
    }
}

/// The address that a relative jump by the signed `offset` leads to, from
/// the address `address_after` behind the jump.
pub open spec fn rel_jump_dest(address_after: u16, offset: u8) -> u16 {
    wrapped(address_after + signed_value(offset))
}

/// The bus after the first `count` bytes of a DMA transfer from `source`
/// have been copied to object attribute memory, one after the other, or
/// the fault of the first byte that cannot be read.
pub open spec fn dma_copied(bus: BusView, source: u16, count: nat) -> Result<BusView, Error>
    decreases count,
{
    if count == 0 {
        Ok(bus)
    } else {
        match dma_copied(bus, source, (count - 1) as nat) {
            Err(error) => Err(error),
            Ok(before) => match before.read(wrapped(source + count - 1)) {
                Err(error) => Err(error),
                Ok(byte) => before.write((OAM_START + count - 1) as u16, byte),
            },
        }
    }
}

/// A transfer that faults at some byte faults the same way however many
/// more bytes it is asked to copy.
proof fn dma_fault_stays(bus: BusView, source: u16, count: nat, more: nat)
    requires
        count <= more,
        dma_copied(bus, source, count) is Err,
    ensures
        dma_copied(bus, source, more) == dma_copied(bus, source, count),
    decreases more,
{
    if count < more {
        dma_fault_stays(bus, source, count, (more - 1) as nat);
    }
}

/// The processor together with the bus that it drives.
pub struct Cpu {
    state: ExecutionState,
    bus: Bus,
    decoder: Decoder,
    interrupt_enable_next: bool,
    halted: bool,
}

/// What a [`Cpu`] holds.
pub struct CpuView {
    /// The register file.
    pub state: ExecutionStateView,
    /// The bus with every device on it.
    pub bus: BusView,
    /// Whether `ei` has armed the interrupt master enable: it comes into
    /// force once the instruction after `ei` has run.
    pub interrupt_enable_next: bool,
    /// Whether the processor sleeps until an interrupt is due.
    pub halted: bool,
}

impl CpuView {
    /// The processor at power on, on the given bus.
    pub open spec fn power_on(bus: BusView) -> Self {
        CpuView {
            state: ExecutionStateView {
                instruction_pointer: 0,
                stack_pointer: 0xFFFF,
                reg_bc: 0,
                reg_de: 0,
                reg_hl: 0,
                reg_a: 0,
                flags: Flags { carry: false, half_carry: false, subtraction: false, zero: false },
                interrupts_enabled: false,
            },
            bus,
            interrupt_enable_next: false,
            halted: false,
        }
    }

    /// The processor with the given flags.
    pub open spec fn with_flags(self, flags: Flags) -> Self {
        CpuView { state: self.state.with_flags(flags), ..self }
    }

    pub open spec fn with_state(self, state: ExecutionStateView) -> Self {
        CpuView { state, ..self }
    }

    /// The processor with the accumulator `value`.
    pub open spec fn with_a(self, value: u8) -> Self {
        CpuView { state: ExecutionStateView { reg_a: value, ..self.state }, ..self }
    }

    /// The processor with the stack pointer `value`.
    pub open spec fn with_sp(self, value: u16) -> Self {
        CpuView { state: ExecutionStateView { stack_pointer: value, ..self.state }, ..self }
    }

    /// The processor with the program counter `value`.
    pub open spec fn with_pc(self, value: u16) -> Self {
        CpuView { state: ExecutionStateView { instruction_pointer: value, ..self.state }, ..self }
    }

    /// The processor with the interrupt master enable `enabled`.
    pub open spec fn with_ime(self, enabled: bool) -> Self {
        CpuView { state: ExecutionStateView { interrupts_enabled: enabled, ..self.state }, ..self }
    }

    /// The value of an 8-bit operand. `(HL)` is read through the bus and
    /// may fault.
    #[verifier::opaque]
    pub open spec fn get_r8(self, r8: Register8) -> Result<u8, Error> {
        match r8 {
            Register8::A => Ok(self.state.reg_a),
            Register8::B => Ok(self.state.reg_b()),
            Register8::C => Ok(self.state.reg_c()),
            Register8::D => Ok(self.state.reg_d()),
            Register8::E => Ok(self.state.reg_e()),
            Register8::H => Ok(self.state.reg_h()),
            Register8::L => Ok(self.state.reg_l()),
            Register8::HlIndirect => self.bus.read(self.state.reg_hl),
        }
    }

    /// The processor after `value` has gone to an 8-bit operand. `(HL)` is
    /// written through the bus and may fault.
    #[verifier::opaque]
    pub open spec fn update_r8(self, r8: Register8, value: u8) -> Result<CpuView, Error> {
        let state = self.state;
        match r8 {
            Register8::A => Ok(self.with_a(value)),
            Register8::B => Ok(
                self.with_state(
                    ExecutionStateView { reg_bc: pair_of(value, state.reg_c()), ..state },
                ),
            ),
            Register8::C => Ok(
                self.with_state(
                    ExecutionStateView { reg_bc: pair_of(state.reg_b(), value), ..state },
                ),
            ),
            Register8::D => Ok(
                self.with_state(
                    ExecutionStateView { reg_de: pair_of(value, state.reg_e()), ..state },
                ),
            ),
            Register8::E => Ok(
                self.with_state(
                    ExecutionStateView { reg_de: pair_of(state.reg_d(), value), ..state },
                ),
            ),
            Register8::H => Ok(
                self.with_state(
                    ExecutionStateView { reg_hl: pair_of(value, state.reg_l()), ..state },
                ),
            ),
            Register8::L => Ok(
                self.with_state(
                    ExecutionStateView { reg_hl: pair_of(state.reg_h(), value), ..state },
                ),
            ),
            Register8::HlIndirect => self.write(state.reg_hl, value),
        }
    }

    #[verifier::opaque]
    pub open spec fn get_r16(self, r16: Register16) -> u16 {
        match r16 {
            Register16::Bc => self.state.reg_bc,
            Register16::De => self.state.reg_de,
            Register16::Hl => self.state.reg_hl,
            Register16::Sp => self.state.stack_pointer,
        }
    }

    #[verifier::opaque]
    pub open spec fn update_r16(self, r16: Register16, value: u16) -> CpuView {
        match r16 {
            Register16::Bc => self.with_state(ExecutionStateView { reg_bc: value, ..self.state }),
            Register16::De => self.with_state(ExecutionStateView { reg_de: value, ..self.state }),
            Register16::Hl => self.with_state(ExecutionStateView { reg_hl: value, ..self.state }),
            Register16::Sp => self.with_sp(value),
        }
    }

    #[verifier::opaque]
    pub open spec fn get_r16_stack(self, r16: Register16Stack) -> u16 {
        match r16 {
            Register16Stack::Af => self.state.reg_af(),
            Register16Stack::Bc => self.state.reg_bc,
            Register16Stack::De => self.state.reg_de,
            Register16Stack::Hl => self.state.reg_hl,
        }
    }

    #[verifier::opaque]
    pub open spec fn update_r16_stack(self, r16: Register16Stack, value: u16) -> CpuView {
        match r16 {
            Register16Stack::Af => self.with_state(self.state.with_af(value)),
            Register16Stack::Bc => self.with_state(
                ExecutionStateView { reg_bc: value, ..self.state },
            ),
            Register16Stack::De => self.with_state(
                ExecutionStateView { reg_de: value, ..self.state },
            ),
            Register16Stack::Hl => self.with_state(
                ExecutionStateView { reg_hl: value, ..self.state },
            ),
        }
    }

    /// The address that a register pair used as an address holds.
    #[verifier::opaque]
    pub open spec fn r16_mem_address(self, r16: Register16Memory) -> u16 {
        match r16 {
            Register16Memory::Bc => self.state.reg_bc,
            Register16Memory::De => self.state.reg_de,
            Register16Memory::Hli | Register16Memory::Hld => self.state.reg_hl,
        }
    }

    /// The processor after an access through a register pair: `HL+` steps
    /// HL up and `HL-` steps it down.
    #[verifier::opaque]
    pub open spec fn after_r16_mem(self, r16: Register16Memory) -> CpuView {
        match r16 {
            Register16Memory::Hli => self.update_r16(
                Register16::Hl,
                wrapped(self.state.reg_hl + 1),
            ),
            Register16Memory::Hld => self.update_r16(
                Register16::Hl,
                wrapped(self.state.reg_hl - 1),
            ),
            _ => self,
        }
    }

    #[verifier::opaque]
    pub open spec fn is_condition_met(self, condition: Condition) -> bool {
        match condition {
            Condition::Nz => !self.state.flags.zero,
            Condition::Z => self.state.flags.zero,
            Condition::Nc => !self.state.flags.carry,
            Condition::C => self.state.flags.carry,
        }
    }

    /// The processor after a write of `data` at `address`, or the fault.
    #[verifier::opaque]
    pub open spec fn write(self, address: u16, data: u8) -> Result<CpuView, Error> {
        match self.bus.write(address, data) {
            Ok(bus) => Ok(CpuView { bus, ..self }),
            Err(error) => Err(error),
        }
    }

    /// The processor after a byte has been pushed: the stack pointer steps
    /// down and the byte is written where it then points.
    #[verifier::opaque]
    pub open spec fn push_u8(self, value: u8) -> Result<CpuView, Error> {
        let sp = wrapped(self.state.stack_pointer - 1);
        self.with_sp(sp).write(sp, value)
    }

    /// The processor after a word has been pushed: its high byte first, so
    /// that the word lies in memory low byte first.
    #[verifier::opaque]
    pub open spec fn push_u16(self, value: u16) -> Result<CpuView, Error> {
        match self.push_u8(high_byte(value)) {
            Ok(cpu) => cpu.push_u8(low_byte(value)),
            Err(error) => Err(error),
        }
    }

    /// The processor after a byte has been popped, and the byte: it is read
    /// where the stack pointer points, and the stack pointer steps up.
    #[verifier::opaque]
    pub open spec fn pop_u8(self) -> Result<(CpuView, u8), Error> {
        match self.bus.read(self.state.stack_pointer) {
            Ok(value) => Ok((self.with_sp(wrapped(self.state.stack_pointer + 1)), value)),
            Err(error) => Err(error),
        }
    }

    /// The processor after a word has been popped, and the word: its low
    /// byte comes first.
    #[verifier::opaque]
    pub open spec fn pop_u16(self) -> Result<(CpuView, u16), Error> {
        match self.pop_u8() {
            Err(error) => Err(error),
            Ok((cpu, low)) => match cpu.pop_u8() {
                Err(error) => Err(error),
                Ok((cpu, high)) => Ok((cpu, pair_of(high, low))),
            },
        }
    }

    /// The processor after `value` has been stored where a register pair
    /// points, and the pair has stepped as `HL+` and `HL-` ask.
    #[verifier::opaque]
    pub open spec fn store_r16_mem(self, r16: Register16Memory, value: u8) -> Result<
        CpuView,
        Error,
    > {
        match self.write(self.r16_mem_address(r16), value) {
            Ok(cpu) => Ok(cpu.after_r16_mem(r16)),
            Err(error) => Err(error),
        }
    }

    /// The processor after the accumulator has been loaded from where a
    /// register pair points, and the pair has stepped.
    #[verifier::opaque]
    pub open spec fn load_a_r16_mem(self, r16: Register16Memory) -> Result<CpuView, Error> {
        match self.bus.read(self.r16_mem_address(r16)) {
            Ok(value) => Ok(self.after_r16_mem(r16).with_a(value)),
            Err(error) => Err(error),
        }
    }

    /// The processor after the stack pointer has been stored at `address`.
    #[verifier::opaque]
    pub open spec fn store_sp(self, address: u16) -> Result<CpuView, Error> {
        match self.bus.write_u16(address, self.state.stack_pointer) {
            Ok(bus) => Ok(CpuView { bus, ..self }),
            Err(error) => Err(error),
        }
    }

    /// The processor after a register pair has stepped up or down by one.
    /// No flag changes.
    #[verifier::opaque]
    pub open spec fn step_r16(self, r16: Register16, up: bool) -> CpuView {
        self.update_r16(r16, wrapped(self.get_r16(r16) + (if up { 1int } else { -1 })))
    }

    /// The processor after a register pair has been added to HL.
    #[verifier::opaque]
    pub open spec fn add_to_hl(self, r16: Register16) -> CpuView {
        let outcome = add_hl(self.get_r16(Register16::Hl), self.get_r16(r16), self.state.flags);
        self.with_flags(outcome.1).update_r16(Register16::Hl, outcome.0)
    }

    /// The processor after an operation that gives an 8-bit operand a new
    /// value: the operand is read, the flags are set, and the result is
    /// written back.
    #[verifier::opaque]
    pub open spec fn apply_unary(self, r8: Register8, operation: UnaryOperation) -> Result<
        CpuView,
        Error,
    > {
        match self.get_r8(r8) {
            Ok(value) => self.with_flags(
                unary_outcome(operation, value, self.state.flags).1,
            ).update_r8(r8, unary_outcome(operation, value, self.state.flags).0),
            Err(error) => Err(error),
        }
    }

    /// The processor after an operation on the accumulator and the flags.
    #[verifier::opaque]
    pub open spec fn adjust_a(self, operation: AccumulatorOperation) -> CpuView {
        let outcome = accumulator_outcome(operation, self.state.reg_a, self.state.flags);
        self.with_flags(outcome.1).with_a(outcome.0)
    }

    /// The processor after `stop`: it sleeps, and the divider starts over.
    #[verifier::opaque]
    pub open spec fn stop(self) -> CpuView {
        CpuView {
            halted: true,
            bus: BusView {
                io: IOView { timer: TimerView { divider: 0, ..self.bus.io.timer }, ..self.bus.io },
                ..self.bus
            },
            ..self
        }
    }

    /// The processor after `halt`: it sleeps.
    pub open spec fn halt(self) -> CpuView {
        CpuView { halted: true, ..self }
    }

    /// The processor after the operand `src` has been copied to `dest`.
    #[verifier::opaque]
    pub open spec fn copy_r8(self, dest: Register8, src: Register8) -> Result<CpuView, Error> {
        match self.get_r8(src) {
            Ok(value) => self.update_r8(dest, value),
            Err(error) => Err(error),
        }
    }

    /// The processor after an operation of the arithmetic unit on the
    /// accumulator and `operand`.
    #[verifier::opaque]
    pub open spec fn apply_arithmetic(self, operand: Result<u8, Error>, operation: ArithmeticOperation) -> Result<
        CpuView,
        Error,
    > {
        match operand {
            Ok(value) => {
                let outcome = arithmetic_outcome(
                    operation,
                    self.state.reg_a,
                    value,
                    self.state.flags,
                );
                Ok(self.with_flags(outcome.1).with_a(outcome.0))
            },
            Err(error) => Err(error),
        }
    }

    /// The processor after a word has been popped into a register pair.
    #[verifier::opaque]
    pub open spec fn pop_into(self, r16: Register16Stack) -> Result<CpuView, Error> {
        match self.pop_u16() {
            Ok((cpu, value)) => Ok(cpu.update_r16_stack(r16, value)),
            Err(error) => Err(error),
        }
    }

    /// The processor after a register pair has been pushed.
    #[verifier::opaque]
    pub open spec fn push_from(self, r16: Register16Stack) -> Result<CpuView, Error> {
        self.push_u16(self.get_r16_stack(r16))
    }

    /// The processor after the accumulator has been stored at `address`.
    #[verifier::opaque]
    pub open spec fn store_a(self, address: u16) -> Result<CpuView, Error> {
        self.write(address, self.state.reg_a)
    }

    /// The processor after the accumulator has been loaded from `address`.
    #[verifier::opaque]
    pub open spec fn load_a(self, address: u16) -> Result<CpuView, Error> {
        match self.bus.read(address) {
            Ok(value) => Ok(self.with_a(value)),
            Err(error) => Err(error),
        }
    }

    /// The processor after `add sp, i8`.
    #[verifier::opaque]
    pub open spec fn move_sp(self, offset: u8) -> CpuView {
        let outcome = add_sp(self.state.stack_pointer, offset);
        self.with_flags(outcome.1).with_sp(outcome.0)
    }

    /// The processor after `ld hl, sp + i8`.
    #[verifier::opaque]
    pub open spec fn load_hl_sp(self, offset: u8) -> CpuView {
        let outcome = add_sp(self.state.stack_pointer, offset);
        self.with_flags(outcome.1).update_r16(Register16::Hl, outcome.0)
    }

    /// The processor after `ld sp, hl`.
    #[verifier::opaque]
    pub open spec fn load_sp_hl(self) -> CpuView {
        self.with_sp(self.get_r16(Register16::Hl))
    }

    /// The processor after `di`: interrupts are disabled at once, and an
    /// `ei` that is armed is dropped.
    pub open spec fn disable_interrupts(self) -> CpuView {
        CpuView { interrupt_enable_next: false, ..self.with_ime(false) }
    }

    /// The processor after `ei`: the enable is armed.
    pub open spec fn arm_interrupts(self) -> CpuView {
        CpuView { interrupt_enable_next: true, ..self }
    }

    /// The processor after bit `index`, taken modulo 8, of an operand has
    /// been tested.
    #[verifier::opaque]
    pub open spec fn test_bit(self, index: u8, r8: Register8) -> Result<CpuView, Error> {
        match self.get_r8(r8) {
            Ok(value) => Ok(self.with_flags(bit_test(index % 8, value, self.state.flags))),
            Err(error) => Err(error),
        }
    }

    /// What a jump to `target` gives that is taken if `taken` holds and
    /// then costs `extra_cycles` more.
    pub open spec fn branch(self, taken: bool, target: u16, extra_cycles: usize) -> Result<
        Executed,
        Error,
    > {
        if taken {
            Ok(Executed { cpu: self.with_pc(target), extra_cycles })
        } else {
            done(self)
        }
    }

    /// What a call of `target` gives that is made if `taken` holds: the
    /// address behind the call goes onto the stack.
    pub open spec fn call(self, taken: bool, target: u16, next: u16, extra_cycles: usize) -> Result<
        Executed,
        Error,
    > {
        if taken {
            match self.push_u16(next) {
                Ok(cpu) => Ok(Executed { cpu: cpu.with_pc(target), extra_cycles }),
                Err(error) => Err(error),
            }
        } else {
            done(self)
        }
    }

    /// What a return gives that is made if `taken` holds: the address to go
    /// on at comes off the stack.
    pub open spec fn ret(self, taken: bool, extra_cycles: usize) -> Result<
        Executed,
        Error,
    > {
        if taken {
            match self.pop_u16() {
                Ok((cpu, target)) => Ok(Executed { cpu: cpu.with_pc(target), extra_cycles }),
                Err(error) => Err(error),
            }
        } else {
            done(self)
        }
    }

    /// What running `instruction` gives. `next` is the address behind the
    /// instruction.
    pub open spec fn execute(self, instruction: Instruction, next: u16) -> Result<Executed, Error> {
        if instruction.group() == 0 {
            self.execute_loads_and_misc(instruction, next)
        } else if instruction.group() == 1 {
            self.execute_arithmetic(instruction, next)
        } else if instruction.group() == 2 {
            self.execute_control(instruction, next)
        } else {
            self.execute_prefixed(instruction, next)
        }
    }

    /// What an instruction of the first quarter of the opcode table, or a load
    /// between registers, gives.
    #[verifier::opaque]
    pub open spec fn execute_loads_and_misc(self, instruction: Instruction, next: u16) -> Result<
        Executed,
        Error,
    > {
        match instruction {
            Instruction::Nop => done(self),
            Instruction::LdReg16(r16, imm) => done(self.update_r16(r16, imm.0)),
            Instruction::LdMemA(r16) => done_if(self.store_r16_mem(r16, self.state.reg_a)),
            Instruction::LdAMem(r16) => done_if(self.load_a_r16_mem(r16)),
            Instruction::LdImm16Sp(imm) => done_if(self.store_sp(imm.0)),
            Instruction::Inc16(r16) => done(self.step_r16(r16, true)),
            Instruction::Dec16(r16) => done(self.step_r16(r16, false)),
            Instruction::AddHl(r16) => done(self.add_to_hl(r16)),
            Instruction::Inc8(r8) => done_if(self.apply_unary(r8, UnaryOperation::Inc)),
            Instruction::Dec8(r8) => done_if(self.apply_unary(r8, UnaryOperation::Dec)),
            Instruction::LdReg8Imm(r8, imm) => done_if(self.update_r8(r8, imm.0)),
            Instruction::Rlca => done(self.adjust_a(AccumulatorOperation::Rlca)),
            Instruction::Rrca => done(self.adjust_a(AccumulatorOperation::Rrca)),
            Instruction::Rla => done(self.adjust_a(AccumulatorOperation::Rla)),
            Instruction::Rra => done(self.adjust_a(AccumulatorOperation::Rra)),
            Instruction::Daa => done(self.adjust_a(AccumulatorOperation::Daa)),
            Instruction::Cpl => done(self.adjust_a(AccumulatorOperation::Cpl)),
            Instruction::Scf => done(self.adjust_a(AccumulatorOperation::Scf)),
            Instruction::Ccf => done(self.adjust_a(AccumulatorOperation::Ccf)),
            Instruction::JrImm(imm) => self.branch(true, rel_jump_dest(next, imm.0), 0),
            Instruction::JrCond(condition, imm) => self.branch(self.is_condition_met(condition), rel_jump_dest(next, imm.0), 4),
            Instruction::Stop => done(self.stop()),
            Instruction::LdReg8Reg8(dest, src) => done_if(self.copy_r8(dest, src)),
            Instruction::Halt => done(self.halt()),
            _ => done(self),
        }
    }

    /// What an instruction of the arithmetic unit on the accumulator gives.
    #[verifier::opaque]
    pub open spec fn execute_arithmetic(self, instruction: Instruction, next: u16) -> Result<
        Executed,
        Error,
    > {
        match instruction {
            Instruction::AddReg8(r8) => done_if(self.apply_arithmetic(self.get_r8(r8), ArithmeticOperation::Add)),
            Instruction::AdcReg8(r8) => done_if(self.apply_arithmetic(self.get_r8(r8), ArithmeticOperation::Adc)),
            Instruction::SubReg8(r8) => done_if(self.apply_arithmetic(self.get_r8(r8), ArithmeticOperation::Sub)),
            Instruction::SbcReg8(r8) => done_if(self.apply_arithmetic(self.get_r8(r8), ArithmeticOperation::Sbc)),
            Instruction::AndReg8(r8) => done_if(self.apply_arithmetic(self.get_r8(r8), ArithmeticOperation::And)),
            Instruction::XorReg8(r8) => done_if(self.apply_arithmetic(self.get_r8(r8), ArithmeticOperation::Xor)),
            Instruction::OrReg8(r8) => done_if(self.apply_arithmetic(self.get_r8(r8), ArithmeticOperation::Or)),
            Instruction::CpReg8(r8) => done_if(self.apply_arithmetic(self.get_r8(r8), ArithmeticOperation::Cp)),
            Instruction::AddImm8(imm) => done_if(self.apply_arithmetic(Ok(imm.0), ArithmeticOperation::Add)),
            Instruction::AdcImm8(imm) => done_if(self.apply_arithmetic(Ok(imm.0), ArithmeticOperation::Adc)),
            Instruction::SubImm8(imm) => done_if(self.apply_arithmetic(Ok(imm.0), ArithmeticOperation::Sub)),
            Instruction::SbcImm8(imm) => done_if(self.apply_arithmetic(Ok(imm.0), ArithmeticOperation::Sbc)),
            Instruction::AndImm8(imm) => done_if(self.apply_arithmetic(Ok(imm.0), ArithmeticOperation::And)),
            Instruction::XorImm8(imm) => done_if(self.apply_arithmetic(Ok(imm.0), ArithmeticOperation::Xor)),
            Instruction::OrImm8(imm) => done_if(self.apply_arithmetic(Ok(imm.0), ArithmeticOperation::Or)),
            Instruction::CpImm8(imm) => done_if(self.apply_arithmetic(Ok(imm.0), ArithmeticOperation::Cp)),
            _ => done(self),
        }
    }

    /// What a jump, a call, a return, a stack operation or another instruction
    /// of the last quarter of the opcode table gives.
    #[verifier::opaque]
    pub open spec fn execute_control(self, instruction: Instruction, next: u16) -> Result<
        Executed,
        Error,
    > {
        match instruction {
            Instruction::RetCond(condition) => self.ret(self.is_condition_met(condition), 12),
            Instruction::Ret => self.ret(true, 0),
            Instruction::Reti => self.with_ime(true).ret(true, 0),
            Instruction::JpCond(condition, imm) => self.branch(self.is_condition_met(condition), imm.0, 4),
            Instruction::JpImm(imm) => self.branch(true, imm.0, 0),
            Instruction::JpHl => self.branch(true, self.get_r16(Register16::Hl), 0),
            Instruction::CallCond(condition, imm) => self.call(self.is_condition_met(condition), imm.0, next, 12),
            Instruction::CallImm(imm) => self.call(true, imm.0, next, 0),
            Instruction::Rst(tgt) => self.call(true, (tgt.0 * 8) as u16, next, 0),
            Instruction::Pop(r16) => done_if(self.pop_into(r16)),
            Instruction::Push(r16) => done_if(self.push_from(r16)),
            Instruction::LdhMemA => done_if(self.store_a((0xFF00 + self.state.reg_c()) as u16)),
            Instruction::LdhImmA(imm) => done_if(self.store_a((0xFF00 + imm.0) as u16)),
            Instruction::LdImmA(imm) => done_if(self.store_a(imm.0)),
            Instruction::LdhAMem => done_if(self.load_a((0xFF00 + self.state.reg_c()) as u16)),
            Instruction::LdhAImm(imm) => done_if(self.load_a((0xFF00 + imm.0) as u16)),
            Instruction::LdAImm(imm) => done_if(self.load_a(imm.0)),
            Instruction::AddSp(imm) => done(self.move_sp(imm.0)),
            Instruction::LdHlSpImm8(imm) => done(self.load_hl_sp(imm.0)),
            Instruction::LdSpHl => done(self.load_sp_hl()),
            Instruction::Di => done(self.disable_interrupts()),
            Instruction::Ei => done(self.arm_interrupts()),
            _ => done(self),
        }
    }

    /// What an instruction that follows the prefix gives.
    #[verifier::opaque]
    pub open spec fn execute_prefixed(self, instruction: Instruction, next: u16) -> Result<
        Executed,
        Error,
    > {
        match instruction {
            Instruction::Rlc(r8) => done_if(self.apply_unary(r8, UnaryOperation::Rlc)),
            Instruction::Rrc(r8) => done_if(self.apply_unary(r8, UnaryOperation::Rrc)),
            Instruction::Rl(r8) => done_if(self.apply_unary(r8, UnaryOperation::Rl)),
            Instruction::Rr(r8) => done_if(self.apply_unary(r8, UnaryOperation::Rr)),
            Instruction::Sla(r8) => done_if(self.apply_unary(r8, UnaryOperation::Sla)),
            Instruction::Sra(r8) => done_if(self.apply_unary(r8, UnaryOperation::Sra)),
            Instruction::Swap(r8) => done_if(self.apply_unary(r8, UnaryOperation::Swap)),
            Instruction::Srl(r8) => done_if(self.apply_unary(r8, UnaryOperation::Srl)),
            Instruction::Bit(index, r8) => done_if(self.test_bit(index.0, r8)),
            Instruction::Res(index, r8) => done_if(self.apply_unary(r8, UnaryOperation::Res(index.0))),
            Instruction::SetBit(index, r8) => done_if(self.apply_unary(r8, UnaryOperation::SetBit(index.0))),
            _ => done(self),
        }
    }

    /// The interrupt that is due: the requested and enabled source of the
    /// highest priority.
    pub open spec fn pending(self) -> Option<Interrupt> {
        self.bus.io.interrupts.highest_priority()
    }

    /// The processor after it has entered the handler of `interrupt`: the
    /// request is taken back, interrupts are disabled, the program counter
    /// goes onto the stack and the handler's address into it.
    #[verifier::opaque]
    pub open spec fn service(self, interrupt: Interrupt) -> Result<CpuView, Error> {
        let cleared = CpuView {
            bus: BusView {
                io: IOView {
                    interrupts: self.bus.io.interrupts.clear(interrupt),
                    ..self.bus.io
                },
                ..self.bus
            },
            interrupt_enable_next: false,
            ..self.with_ime(false)
        };
        match cleared.push_u16(self.state.instruction_pointer) {
            Ok(cpu) => Ok(cpu.with_pc(interrupt.vector())),
            Err(error) => Err(error),
        }
    }

    /// The processor once `instruction` has been fetched: the program
    /// counter points behind it.
    pub open spec fn fetched(self, instruction: Instruction) -> CpuView {
        self.with_pc(wrapped(self.state.instruction_pointer + instruction.encoded_length()))
    }

    /// The processor once an instruction has run: an `ei` that was armed
    /// before the instruction and is still armed after it comes into force.
    pub open spec fn commit_enable(self, armed_before: bool) -> CpuView {
        if armed_before && self.interrupt_enable_next {
            CpuView { interrupt_enable_next: false, ..self.with_ime(true) }
        } else {
            self
        }
    }

    /// The processor once it is awake.
    pub open spec fn wake(self) -> CpuView {
        CpuView { halted: false, ..self }
    }

    /// The processor after it has served `interrupt`, and the clock cycles
    /// that this took.
    #[verifier::opaque]
    pub open spec fn serve(self, interrupt: Interrupt) -> Result<(CpuView, usize), Error> {
        match self.service(interrupt) {
            Ok(cpu) => Ok((cpu, INTERRUPT_CYCLES)),
            Err(error) => Err(error),
        }
    }

    /// The processor after it has run the instruction at the program
    /// counter, and the clock cycles that this took: those of the
    /// instruction and those that a taken branch adds.
    #[verifier::opaque]
    pub open spec fn run(self) -> Result<(CpuView, usize), Error> {
        match decode(self.bus, self.state.instruction_pointer) {
            Err(error) => Err(error),
            Ok(instruction) => match self.fetched(instruction).execute(
                instruction,
                self.fetched(instruction).state.instruction_pointer,
            ) {
                Err(error) => Err(error),
                Ok(executed) => Ok(
                    (
                        executed.cpu.commit_enable(self.interrupt_enable_next),
                        (instruction.base_cycles() + executed.extra_cycles) as usize,
                    ),
                ),
            },
        }
    }

    /// The processor after one step, and the clock cycles that the step
    /// took.
    ///
    /// A processor that sleeps goes on sleeping for four cycles unless an
    /// interrupt is due, which wakes it. With interrupts enabled an
    /// interrupt that is due is served, which takes twenty cycles. Else the
    /// instruction at the program counter runs.
    pub open spec fn step(self) -> Result<(CpuView, usize), Error> {
        if self.halted && self.pending() is None {
            Ok((self, HALTED_CYCLES))
        } else if self.state.interrupts_enabled && self.pending() is Some {
            self.wake().serve(self.pending()->Some_0)
        } else {
            self.wake().run()
        }
    }

    /// The processor after `cycles` clock cycles of the DMA engine: a
    /// transfer that completes copies its 160 bytes into object attribute
    /// memory.
    #[verifier::opaque]
    pub open spec fn step_dma(self, cycles: usize) -> Result<CpuView, Error> {
        let stepped = BusView {
            io: IOView { dma: self.bus.io.dma.step(cycles), ..self.bus.io },
            ..self.bus
        };
        if self.bus.io.dma.completes(cycles) {
            match dma_copied(
                stepped,
                self.bus.io.dma.full_source_address(),
                DMA_TRANSFER_BYTES as nat,
            ) {
                Ok(bus) => Ok(CpuView { bus, ..self }),
                Err(error) => Err(error),
            }
        } else {
            Ok(CpuView { bus: stepped, ..self })
        }
    }
}

impl View for Cpu {
    type V = CpuView;

    closed spec fn view(&self) -> CpuView {
        CpuView {
            state: self.state@,
            bus: self.bus@,
            interrupt_enable_next: self.interrupt_enable_next,
            halted: self.halted,
        }
    }
}

impl Cpu {
    pub fn new(bus: Bus) -> (cpu: Self)
        ensures
            cpu@ == CpuView::power_on(bus@),
    {
        Self {
            state: ExecutionState::new(),
            bus,
            decoder: Decoder::new(),
            interrupt_enable_next: false,
            halted: false,
        }
    }

    pub fn execution_state(&self) -> (state: &ExecutionState)
        ensures
            state@ == self@.state,
    {
        &self.state
    }

    pub fn execution_state_mut(&mut self) -> (state: &mut ExecutionState)
        ensures
            state@ == old(self)@.state,
            final(self)@ == (CpuView { state: final(state)@, ..old(self)@ }),
    {
        &mut self.state
    }

    pub fn bus(&self) -> (bus: &Bus)
        ensures
            bus@ == self@.bus,
    {
        &self.bus
    }

    pub fn bus_mut(&mut self) -> (bus: &mut Bus)
        ensures
            bus@ == old(self)@.bus,
            final(self)@ == (CpuView { bus: final(bus)@, ..old(self)@ }),
    {
        &mut self.bus
    }

    /// Runs one step: the processor sleeps, serves an interrupt, or runs the
    /// instruction at the program counter. Returns the clock cycles that
    /// the step took.
    pub fn step(&mut self) -> (result: Result<usize, Error>)
        ensures
            yields(old(self)@.step(), result, final(self)@),
    {
        let pending = self.detect_interrupt();
        match pending {
            None => {
                if self.halted {
                    return Ok(HALTED_CYCLES);
                }
            },
            Some(interrupt) => {
                if self.state.interrupts_enabled() {
                    return self.serve(interrupt);
                }
            },
        }
        self.run()
    }

    /// Wakes the processor and serves `interrupt`.
    fn serve(&mut self, interrupt: Interrupt) -> (result: Result<usize, Error>)
        ensures
            yields(old(self)@.wake().serve(interrupt), result, final(self)@),
    {
        reveal(CpuView::serve);
        reveal(CpuView::service);
        self.halted = false;
        self.clear_requested_interrupt(interrupt);
        self.state.set_interrupts_enabled(false);
        self.interrupt_enable_next = false;
        self.call_interrupt_handler(interrupt)?;
        Ok(INTERRUPT_CYCLES)
    }

    /// Wakes the processor and runs the instruction at the program counter.
    fn run(&mut self) -> (result: Result<usize, Error>)
        ensures
            yields(old(self)@.wake().run(), result, final(self)@),
    {
        reveal(CpuView::run);
        self.halted = false;
        let armed_before = self.interrupt_enable_next;
        let current_instruction = self.decoder.decode_one(&self.state, &self.bus)?;
        let next_instruction_address = self.state.instruction_pointer().wrapping_add(
            current_instruction.length(),
        );
        self.state.set_instruction_pointer(next_instruction_address);
        let extra_cycles = self.execute(current_instruction, next_instruction_address)?;
        let cycles = current_instruction.base_num_cycles() + extra_cycles;
        if armed_before && self.interrupt_enable_next {
            self.state.set_interrupts_enabled(true);
            self.interrupt_enable_next = false;
            return Ok(cycles);
        }
        Ok(cycles)
    }

    /// Lets `cycles` clock cycles pass for the DMA engine and copies the
    /// bytes of a transfer that completes.
    pub fn step_dma(&mut self, cycles: usize) -> (result: Result<(), Error>)
        ensures
            updates(old(self)@.step_dma(cycles), result, final(self)@),
    {
        reveal(CpuView::step_dma);
        if self.bus.io_mut().dma_mut().step(cycles) {
            return self.do_dma_transfer();
        }
        Ok(())
    }

    /// Copies the 160 bytes of a DMA transfer, all at once.
    fn do_dma_transfer(&mut self) -> (result: Result<(), Error>)
        ensures
            updates(
                match dma_copied(
                    old(self)@.bus,
                    old(self)@.bus.io.dma.full_source_address(),
                    DMA_TRANSFER_BYTES as nat,
                ) {
                    Ok(bus) => Ok(CpuView { bus, ..old(self)@ }),
                    Err(error) => Err(error),
                },
                result,
                final(self)@,
            ),
    {
        let source_address = self.bus.io().dma().full_source_address();
        let mut i: u16 = 0;
        while i < DMA_TRANSFER_BYTES
            invariant
                i <= DMA_TRANSFER_BYTES,
                source_address == old(self)@.bus.io.dma.full_source_address(),
                dma_copied(old(self)@.bus, source_address, i as nat) == Ok::<BusView, Error>(
                    self@.bus,
                ),
                self@ == (CpuView { bus: self@.bus, ..old(self)@ }),
            decreases DMA_TRANSFER_BYTES - i,
        {
            let source_addr = source_address.wrapping_add(i);
            let dest_addr = OAM_START + i;
            proof {
                if dma_copied(old(self)@.bus, source_address, (i + 1) as nat) is Err {
                    dma_fault_stays(
                        old(self)@.bus,
                        source_address,
                        (i + 1) as nat,
                        DMA_TRANSFER_BYTES as nat,
                    );
                }
            }
            let byte = self.bus.read_u8(source_addr)?;
            self.bus.write_u8(dest_addr, byte)?;
            i += 1;
        }
        Ok(())
    }

    fn clear_requested_interrupt(&mut self, interrupt: Interrupt)
        ensures
            final(self)@ == (CpuView {
                bus: BusView {
                    io: IOView {
                        interrupts: old(self)@.bus.io.interrupts.clear(interrupt),
                        ..old(self)@.bus.io
                    },
                    ..old(self)@.bus
                },
                ..old(self)@
            }),
    {
        self.bus.io_mut().interrupts_mut().clear_requested_interrupt(interrupt);
    }

    fn detect_interrupt(&self) -> (interrupt: Option<Interrupt>)
        ensures
            interrupt == self@.pending(),
    {
        self.bus.io().interrupts().highest_priority_triggered_interrupt()
    }

    fn call_interrupt_handler(&mut self, interrupt: Interrupt) -> (result: Result<(), Error>)
        ensures
            updates(
                match old(self)@.push_u16(old(self)@.state.instruction_pointer) {
                    Ok(cpu) => Ok(cpu.with_pc(interrupt.vector())),
                    Err(error) => Err(error),
                },
                result,
                final(self)@,
            ),
    {
        let vector = match interrupt {
            Interrupt::VBlank => 0x40,
            Interrupt::Lcd => 0x48,
            Interrupt::Timer => 0x50,
            Interrupt::Serial => 0x58,
            Interrupt::Joypad => 0x60,
        };
        let pc = self.state.instruction_pointer();
        self.push_u16(pc)?;
        self.state.set_instruction_pointer(vector);
        Ok(())
    }

    /// Pushes a word onto the stack, its high byte first.
    pub fn push_u16(&mut self, value: u16) -> (result: Result<(), Error>)
        ensures
            updates(old(self)@.push_u16(value), result, final(self)@),
    {
        reveal(CpuView::push_u16);
        self.push_u8((value / 256) as u8)?;
        self.push_u8((value % 256) as u8)
    }

    fn push_u8(&mut self, value: u8) -> (result: Result<(), Error>)
        ensures
            updates(old(self)@.push_u8(value), result, final(self)@),
    {
        reveal(CpuView::push_u8);
        reveal(CpuView::write);
        let new_sp = self.state.stack_pointer().wrapping_sub(1);
        self.state.set_stack_pointer(new_sp);
        self.bus.write_u8(new_sp, value)
    }

    /// Pops a word off the stack, its low byte first.
    pub fn pop_u16(&mut self) -> (result: Result<u16, Error>)
        ensures
            yields(old(self)@.pop_u16(), result, final(self)@),
    {
        reveal(CpuView::pop_u16);
        let lo = self.pop_u8()? as u16;
        let hi = self.pop_u8()? as u16;
        Ok(hi * 256 + lo)
    }

    fn pop_u8(&mut self) -> (result: Result<u8, Error>)
        ensures
            yields(old(self)@.pop_u8(), result, final(self)@),
    {
        reveal(CpuView::pop_u8);
        let old_sp = self.state.stack_pointer();
        let value = self.bus.read_u8(old_sp)?;
        self.state.set_stack_pointer(old_sp.wrapping_add(1));
        Ok(value)
    }

    fn is_condition_met(&self, cond: Condition) -> (met: bool)
        ensures
            met == self@.is_condition_met(cond),
    {
        reveal(CpuView::is_condition_met);
        match cond {
            Condition::Nz => !self.state.flags().zero,
            Condition::Z => self.state.flags().zero,
            Condition::Nc => !self.state.flags().carry,
            Condition::C => self.state.flags().carry,
        }
    }

    fn rel_jump_dest(&self, offset: i8, address_after: u16) -> (dest: u16)
        ensures
            dest == wrapped(address_after + offset),
    {
        let sum: i32 = address_after as i32 + offset as i32;
        ((sum + 0x1_0000) % 0x1_0000) as u16
    }

    fn update_r16_stack(&mut self, r16stk: Register16Stack, value: u16)
        ensures
            final(self)@ == old(self)@.update_r16_stack(r16stk, value),
    {
        reveal(CpuView::update_r16_stack);
        match r16stk {
            Register16Stack::Af => self.state.set_reg_af(value),
            Register16Stack::Bc => self.state.set_reg_bc(value),
            Register16Stack::De => self.state.set_reg_de(value),
            Register16Stack::Hl => self.state.set_reg_hl(value),
        }
    }

    fn get_r16_stack(&self, r16stk: Register16Stack) -> (value: u16)
        ensures
            value == self@.get_r16_stack(r16stk),
    {
        reveal(CpuView::get_r16_stack);
        match r16stk {
            Register16Stack::Af => self.state.reg_af(),
            Register16Stack::Bc => self.state.reg_bc(),
            Register16Stack::De => self.state.reg_de(),
            Register16Stack::Hl => self.state.reg_hl(),
        }
    }

    fn r16_mem_address(&self, r16mem: Register16Memory) -> (address: u16)
        ensures
            address == self@.r16_mem_address(r16mem),
    {
        reveal(CpuView::r16_mem_address);
        match r16mem {
            Register16Memory::Bc => self.state.reg_bc(),
            Register16Memory::De => self.state.reg_de(),
            Register16Memory::Hli | Register16Memory::Hld => self.state.reg_hl(),
        }
    }

    fn update_r16_mem_u8(&mut self, r16mem: Register16Memory, value: u8) -> (result: Result<
        (),
        Error,
    >)
        ensures
            updates(old(self)@.store_r16_mem(r16mem, value), result, final(self)@),
    {
        reveal(CpuView::store_r16_mem);
        reveal(CpuView::write);
        let address = self.r16_mem_address(r16mem);
        self.bus.write_u8(address, value)?;
        self.after_r16_mem(r16mem);
        Ok(())
    }

    fn get_r16_mem_u8(&mut self, r16mem: Register16Memory) -> (result: Result<u8, Error>)
        ensures
            yields(
                match old(self)@.bus.read(old(self)@.r16_mem_address(r16mem)) {
                    Ok(value) => Ok((old(self)@.after_r16_mem(r16mem), value)),
                    Err(error) => Err(error),
                },
                result,
                final(self)@,
            ),
    {
        let address = self.r16_mem_address(r16mem);
        let val = self.bus.read_u8(address)?;
        self.after_r16_mem(r16mem);
        Ok(val)
    }

    fn after_r16_mem(&mut self, r16mem: Register16Memory)
        ensures
            final(self)@ == old(self)@.after_r16_mem(r16mem),
    {
        reveal(CpuView::after_r16_mem);
        reveal(CpuView::update_r16);
        match r16mem {
            Register16Memory::Hld => {
                let hl = self.state.reg_hl().wrapping_sub(1);
                self.state.set_reg_hl(hl);
            },
            Register16Memory::Hli => {
                let hl = self.state.reg_hl().wrapping_add(1);
                self.state.set_reg_hl(hl);
            },
            _ => {},
        }
    }

    fn update_r16(&mut self, r16: Register16, value: u16)
        ensures
            final(self)@ == old(self)@.update_r16(r16, value),
    {
        reveal(CpuView::update_r16);
        match r16 {
            Register16::Bc => {
                self.state.set_reg_bc(value);
            },
            Register16::De => {
                self.state.set_reg_de(value);
            },
            Register16::Hl => {
                self.state.set_reg_hl(value);
            },
            Register16::Sp => {
                self.state.set_stack_pointer(value);
            },
        }
    }

    fn get_r16(&self, r16: Register16) -> (value: u16)
        ensures
            value == self@.get_r16(r16),
    {
        reveal(CpuView::get_r16);
        match r16 {
            Register16::Bc => self.state.reg_bc(),
            Register16::De => self.state.reg_de(),
            Register16::Hl => self.state.reg_hl(),
            Register16::Sp => self.state.stack_pointer(),
        }
    }

    fn update_r8(&mut self, r8: Register8, value: u8) -> (result: Result<(), Error>)
        ensures
            updates(old(self)@.update_r8(r8, value), result, final(self)@),
    {
        reveal(CpuView::update_r8);
        reveal(CpuView::write);
        match r8 {
            Register8::A => {
                self.state.set_reg_a(value);
            },
            Register8::B => {
                self.state.set_reg_b(value);
            },
            Register8::C => {
                self.state.set_reg_c(value);
            },
            Register8::D => {
                self.state.set_reg_d(value);
            },
            Register8::E => {
                self.state.set_reg_e(value);
            },
            Register8::H => {
                self.state.set_reg_h(value);
            },
            Register8::L => {
                self.state.set_reg_l(value);
            },
            Register8::HlIndirect => {
                let hl = self.state.reg_hl();
                self.bus.write_u8(hl, value)?;
            },
        }
        Ok(())
    }

    fn get_r8(&self, r8: Register8) -> (value: Result<u8, Error>)
        ensures
            value == self@.get_r8(r8),
    {
        reveal(CpuView::get_r8);
        let v = match r8 {
            Register8::A => self.state.reg_a(),
            Register8::B => self.state.reg_b(),
            Register8::C => self.state.reg_c(),
            Register8::D => self.state.reg_d(),
            Register8::E => self.state.reg_e(),
            Register8::H => self.state.reg_h(),
            Register8::L => self.state.reg_l(),
            Register8::HlIndirect => self.bus.read_u8(self.state.reg_hl())?,
        };
        Ok(v)
    }

    /// Whether the processor sleeps until an interrupt is due.
    pub fn halted(&self) -> (halted: bool)
        ensures
            halted == self@.halted,
    {
        self.halted
    }
}

} // verus!
