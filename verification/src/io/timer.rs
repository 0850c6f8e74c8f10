use vstd::prelude::*;
use super::IORegister;

verus! {

/// The rate at which the timer counter ticks, as the low two bits of the
/// control register select it. The names count machine cycles, each of which
/// is four clock cycles.
#[derive(Clone, Copy, Debug, PartialEq, Eq, Structural)]
pub enum ClockSelect {
    Every256MCycles,
    Every4MCycles,
    Every16MCycles,
    Every64MCycles,
}

impl ClockSelect {
    /// The clock cycles between two ticks of the timer counter.
    pub open spec fn period(self) -> usize {
        match self {
            Self::Every256MCycles => 1024,
            Self::Every4MCycles => 16,
            Self::Every16MCycles => 64,
            Self::Every64MCycles => 256,
        }
    }

    /// The clock cycles between two ticks of the timer counter.
    pub fn cycles_value(&self) -> (cycles: usize)
        ensures
            cycles == self.period(),
    {
        match self {
            Self::Every256MCycles => 1024,
            Self::Every4MCycles => 16,
            Self::Every16MCycles => 64,
            Self::Every64MCycles => 256,
        }
    }
}

/// Whether a control byte enables the timer counter: its bit 2.
pub open spec fn control_enables(control: u8) -> bool {
    (control / 4) % 2 == 1
}

/// The rate that a control byte selects: its bits 1 and 0.
pub open spec fn control_clock_select(control: u8) -> ClockSelect {
    if control % 4 == 0 {
        ClockSelect::Every256MCycles
    } else if control % 4 == 1 {
        ClockSelect::Every4MCycles
    } else if control % 4 == 2 {
        ClockSelect::Every16MCycles
    } else {
        ClockSelect::Every64MCycles
    }
}

/// The timer control register. It keeps the byte that was written.
#[derive(Clone, Copy)]
pub struct TimerControl {
    value: IORegister,
}

impl View for TimerControl {
    type V = u8;

    closed spec fn view(&self) -> u8 {
        self.value@
    }
}

impl TimerControl {
    pub fn new() -> (control: Self)
        ensures
            control@ == 0,
    {
        Self { value: IORegister::new() }
    }

    pub fn read(&self) -> (value: u8)
        ensures
            value == self@,
    {
        self.value.read()
    }

    pub fn write(&mut self, value: u8)
        ensures
            final(self)@ == value,
    {
        self.value.write(value);
    }

    pub fn enable(&self) -> (enabled: bool)
        ensures
            enabled == control_enables(self@),
    {
        (self.value.read() / 4) % 2 == 1
    }

    pub fn clock_select(&self) -> (select: ClockSelect)
        ensures
            select == control_clock_select(self@),
    {
        match self.value.read() % 4 {
            0 => ClockSelect::Every256MCycles,
            1 => ClockSelect::Every4MCycles,
            2 => ClockSelect::Every16MCycles,
            _ => ClockSelect::Every64MCycles,
        }
    }
}

/// The divider and the programmable timer counter.
#[derive(Clone, Copy)]
pub struct Timer {
    divider: u16,
    timer_counter: IORegister,
    timer_modulo: IORegister,
    timer_control: TimerControl,
    cycles: u16,
}

/// What a [`Timer`] holds.
pub struct TimerView {
    /// The free running 16-bit counter. The divider register is its high byte.
    pub divider: u16,
    /// TIMA.
    pub timer_counter: u8,
    /// TMA, the value that TIMA restarts from.
    pub timer_modulo: u8,
    /// TAC as it was written.
    pub timer_control: u8,
    /// The clock cycles that have passed since TIMA last ticked.
    pub cycles: u16,
}

/// The timer counter after `ticks` ticks, and whether it overflowed on the
/// way. A tick at 0xFF reloads the counter from `modulo`.
pub open spec fn counter_after(counter: u8, modulo: u8, ticks: nat) -> (u8, bool)
    decreases ticks,
{
    if ticks == 0 {
        (counter, false)
    } else {
        let (before, overflowed) = counter_after(counter, modulo, (ticks - 1) as nat);
        if before == 0xFF {
            (modulo, true)
        } else {
            ((before + 1) as u8, overflowed)
        }
    }
}

impl TimerView {
    pub open spec fn power_on() -> Self {
        TimerView { divider: 0, timer_counter: 0, timer_modulo: 0, timer_control: 0, cycles: 0 }
    }

    /// The divider register: the high byte of the free running counter.
    pub open spec fn divider_register(self) -> u8 {
        (self.divider / 256) as u8
    }

    /// The timer after `cycles` clock cycles, and whether the timer counter
    /// overflowed. The divider always runs; the timer counter only runs
    /// while the control register enables it.
    pub open spec fn step(self, cycles: usize) -> (TimerView, bool) {
        let divider = ((self.divider + cycles) % 0x1_0000) as u16;
        if !control_enables(self.timer_control) {
            (TimerView { divider, ..self }, false)
        } else {
            let period = control_clock_select(self.timer_control).period();
            let total = self.cycles + cycles;
            let (counter, overflowed) = counter_after(
                self.timer_counter,
                self.timer_modulo,
                (total / period as int) as nat,
            );
            (
                TimerView {
                    divider,
                    timer_counter: counter,
                    cycles: (total % period as int) as u16,
                    ..self
                },
                overflowed,
            )
        }
    }
}

impl View for Timer {
    type V = TimerView;

    closed spec fn view(&self) -> TimerView {
        TimerView {
            divider: self.divider,
            timer_counter: self.timer_counter@,
            timer_modulo: self.timer_modulo@,
            timer_control: self.timer_control@,
            cycles: self.cycles,
        }
    }
}

impl Timer {
    pub fn new() -> (timer: Self)
        ensures
            timer@ == TimerView::power_on(),
    {
        Self {
            divider: 0,
            timer_counter: IORegister::new(),
            timer_modulo: IORegister::new(),
            timer_control: TimerControl::new(),
            cycles: 0,
        }
    }

    pub fn read_divider(&self) -> (value: u8)
        ensures
            value == self@.divider_register(),
    {
        (self.divider / 256) as u8
    }

    /// Makes the divider register read `value`, with the cycles below it
    /// starting from zero.
    pub fn set_divider(&mut self, value: u8)
        ensures
            final(self)@ == (TimerView { divider: (value * 256) as u16, ..old(self)@ }),
    {
        self.divider = (value as u16) * 256;
    }

    /// A write to the divider register: whatever is written, the counter
    /// restarts from zero.
    pub fn write_divider(&mut self, _value: u8)
        ensures
            final(self)@ == (TimerView { divider: 0, ..old(self)@ }),
    {
        self.divider = 0;
    }

    pub fn read_timer_counter(&self) -> (value: u8)
        ensures
            value == self@.timer_counter,
    {
        self.timer_counter.read()
    }

    pub fn write_timer_counter(&mut self, value: u8)
        ensures
            final(self)@ == (TimerView { timer_counter: value, ..old(self)@ }),
    {
        self.timer_counter.write(value);
    }

    pub fn read_timer_modulo(&self) -> (value: u8)
        ensures
            value == self@.timer_modulo,
    {
        self.timer_modulo.read()
    }

    pub fn write_timer_modulo(&mut self, value: u8)
        ensures
            final(self)@ == (TimerView { timer_modulo: value, ..old(self)@ }),
    {
        self.timer_modulo.write(value);
    }

    pub fn read_timer_control(&self) -> (value: u8)
        ensures
            value == self@.timer_control,
    {
        self.timer_control.read()
    }

    pub fn write_timer_control(&mut self, value: u8)
        ensures
            final(self)@ == (TimerView { timer_control: value, ..old(self)@ }),
    {
        self.timer_control.write(value);
    }

    /// Lets `cycles` clock cycles pass. Returns whether the timer counter
    /// overflowed, which asks for the timer interrupt.
    pub fn step(&mut self, cycles: usize) -> (overflowed: bool)
        ensures
            final(self)@ == old(self)@.step(cycles).0,
            overflowed == old(self)@.step(cycles).1,
    {
        self.divider = ((self.divider as u128 + cycles as u128) % 0x1_0000) as u16;
        if !self.timer_control.enable() {
            return false;
        }
        let period = self.timer_control.clock_select().cycles_value() as u128;
        let total: u128 = self.cycles as u128 + cycles as u128;
        let ticks: u128 = total / period;
        self.cycles = (total % period) as u16;
        let modulo = self.timer_modulo.read();
        let ghost start = self.timer_counter@;
        let mut counter = self.timer_counter.read();
        let mut overflowed = false;
        let mut done: u128 = 0;
        while done < ticks
            invariant
                done <= ticks,
                (counter, overflowed) == counter_after(start, modulo, done as nat),
            decreases ticks - done,
        {
            if counter == 0xFF {
                counter = modulo;
                overflowed = true;
            } else {
                counter = counter + 1;
            }
            done = done + 1;
        }
        self.timer_counter.write(counter);
        overflowed
    }
}

} // verus!
