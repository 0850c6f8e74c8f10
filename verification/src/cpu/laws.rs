use vstd::prelude::*;
use crate::bus::{is_ram, ram_keeps_what_is_written, ram_write_is_local, BusView};
use crate::io::interrupts::Interrupt;
use crate::io::IOView;
use crate::ppu::PpuView;
use super::error::Error;
use super::execution_state::{high_byte, low_byte, pair_of};
use super::instruction::Instruction;
use super::{dma_copied, wrapped, CpuView, INTERRUPT_CYCLES};

verus! {

/// A word that is pushed and popped again comes back as it was, and the
/// stack pointer is back where it was, provided that the two bytes under
/// the stack pointer lie in work RAM or in high RAM, which keep what is
/// written to them.
pub proof fn push_then_pop(cpu: CpuView, value: u16)
    requires
        cpu.bus.well_formed(),
        is_ram(wrapped(cpu.state.stack_pointer - 1)),
        is_ram(wrapped(cpu.state.stack_pointer - 2)),
    ensures
        cpu.push_u16(value) is Ok,
        cpu.push_u16(value)->Ok_0.pop_u16() is Ok,
        cpu.push_u16(value)->Ok_0.pop_u16()->Ok_0.1 == value,
        cpu.push_u16(value)->Ok_0.pop_u16()->Ok_0.0.state.stack_pointer
            == cpu.state.stack_pointer,
{
    reveal(CpuView::push_u16);
    reveal(CpuView::push_u8);
    reveal(CpuView::pop_u16);
    reveal(CpuView::pop_u8);
    reveal(CpuView::write);
    let sp = cpu.state.stack_pointer;
    let first = wrapped(sp - 1);
    let second = wrapped(sp - 2);
    ram_keeps_what_is_written(cpu.bus, first, high_byte(value));
    let bus1 = cpu.bus.write(first, high_byte(value))->Ok_0;
    ram_keeps_what_is_written(bus1, second, low_byte(value));
    ram_write_is_local(bus1, second, low_byte(value), first);
    let pushed = cpu.push_u16(value)->Ok_0;
    assert(pushed.state.stack_pointer == second);
    assert(wrapped(second + 1) == first);
    assert(wrapped(first + 1) == sp);
    assert(pair_of(high_byte(value), low_byte(value)) == value);
}

/// Object attribute memory once the first `count` bytes of page `page` of
/// work RAM have been copied into it.
pub open spec fn oam_with_page(bus: BusView, page: u8, count: nat) -> Seq<u8> {
    Seq::new(
        160,
        |i: int|
            if i < count {
                bus.work_ram[page * 0x100 - 0xC000 + i]
            } else {
                bus.ppu.oam[i]
            },
    )
}

/// A DMA transfer from a page of work RAM never faults. It leaves the
/// bytes of the page in object attribute memory, in their order, and
/// changes nothing else.
pub proof fn dma_copies_work_ram(bus: BusView, page: u8, count: nat)
    requires
        bus.well_formed(),
        0xC0 <= page <= 0xDF,
        count <= 160,
    ensures
        dma_copied(bus, (page * 0x100) as u16, count) == Ok::<BusView, Error>(
            BusView { ppu: PpuView { oam: oam_with_page(bus, page, count), ..bus.ppu }, ..bus },
        ),
    decreases count,
{
    reveal(BusView::read);
    reveal(BusView::write);
    if count == 0 {
        assert(oam_with_page(bus, page, 0) =~= bus.ppu.oam);
    } else {
        dma_copies_work_ram(bus, page, (count - 1) as nat);
        let before = BusView {
            ppu: PpuView { oam: oam_with_page(bus, page, (count - 1) as nat), ..bus.ppu },
            ..bus
        };
        let source = wrapped((page * 0x100) as u16 + count - 1);
        assert(source == page * 0x100 + count - 1);
        assert(before.read(source) == Ok::<u8, Error>(
            bus.work_ram[page * 0x100 - 0xC000 + count - 1],
        ));
        assert(oam_with_page(bus, page, (count - 1) as nat).update(
            count - 1,
            bus.work_ram[page * 0x100 - 0xC000 + count - 1],
        ) =~= oam_with_page(bus, page, count));
    }
}

/// With interrupts enabled, a step of a processor with an interrupt due
/// serves it and runs no instruction: the step takes twenty cycles, the
/// program counter goes onto the stack and the address of the handler
/// into it, the request is taken back and interrupts are disabled. The two
/// bytes under the stack pointer lie in work RAM or in high RAM.
pub proof fn due_interrupt_is_served(cpu: CpuView, interrupt: Interrupt)
    requires
        cpu.bus.well_formed(),
        cpu.state.interrupts_enabled,
        cpu.pending() == Some(interrupt),
        is_ram(wrapped(cpu.state.stack_pointer - 1)),
        is_ram(wrapped(cpu.state.stack_pointer - 2)),
    ensures
        cpu.step() is Ok,
        cpu.step()->Ok_0.1 == INTERRUPT_CYCLES,
        cpu.step()->Ok_0.0.state.instruction_pointer == interrupt.vector(),
        cpu.step()->Ok_0.0.state.stack_pointer == wrapped(cpu.state.stack_pointer - 2),
        cpu.step()->Ok_0.0.bus.read_u16(wrapped(cpu.state.stack_pointer - 2)) == Ok::<
            u16,
            Error,
        >(cpu.state.instruction_pointer),
        cpu.step()->Ok_0.0.bus.io.interrupts == cpu.bus.io.interrupts.clear(interrupt),
        !cpu.step()->Ok_0.0.state.interrupts_enabled,
        !cpu.step()->Ok_0.0.halted,
{
    reveal(CpuView::serve);
    reveal(CpuView::service);
    reveal(CpuView::push_u16);
    reveal(CpuView::push_u8);
    reveal(CpuView::write);
    reveal(BusView::read);
    reveal(BusView::write);
    let sp = cpu.state.stack_pointer;
    let pc = cpu.state.instruction_pointer;
    let first = wrapped(sp - 1);
    let second = wrapped(sp - 2);
    let cleared = BusView {
        io: IOView { interrupts: cpu.bus.io.interrupts.clear(interrupt), ..cpu.bus.io },
        ..cpu.bus
    };
    let bus1 = cleared.write(first, high_byte(pc))->Ok_0;
    let bus2 = bus1.write(second, low_byte(pc))->Ok_0;
    assert(crate::bus::next_address(second) == first);
    assert(bus2.read(second) == Ok::<u8, Error>(low_byte(pc)));
    assert(bus2.read(first) == Ok::<u8, Error>(high_byte(pc)));
    assert(high_byte(pc) * 256 + low_byte(pc) == pc);
}

/// After `di` interrupts are disabled and no `ei` is armed any more,
/// whatever the state before: a `di` that follows an `ei` at once keeps the
/// `ei` from ever coming into force.
pub proof fn di_overrides_ei(cpu: CpuView, armed_before: bool, next: u16)
    ensures
        cpu.execute(Instruction::Di, next) is Ok,
        !cpu.execute(Instruction::Di, next)->Ok_0.cpu.commit_enable(
            armed_before,
        ).state.interrupts_enabled,
        !cpu.execute(Instruction::Di, next)->Ok_0.cpu.commit_enable(
            armed_before,
        ).interrupt_enable_next,
{
    reveal(Instruction::group);
    reveal(CpuView::execute_control);
}

/// `ei` leaves the interrupt master enable as it is and arms it: it comes
/// into force once the next instruction has run, unless that is `di`.
pub proof fn ei_is_deferred(cpu: CpuView, next: u16)
    ensures
        cpu.execute(Instruction::Ei, next) is Ok,
        cpu.execute(Instruction::Ei, next)->Ok_0.cpu.commit_enable(false).state.interrupts_enabled
            == cpu.state.interrupts_enabled,
        cpu.execute(Instruction::Ei, next)->Ok_0.cpu.commit_enable(false).interrupt_enable_next,
        cpu.execute(Instruction::Ei, next)->Ok_0.cpu.commit_enable(false).commit_enable(
            true,
        ).state.interrupts_enabled,
{
    reveal(Instruction::group);
    reveal(CpuView::execute_control);
}

} // verus!
