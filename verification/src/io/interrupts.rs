use vstd::prelude::*;
use super::IORegister;

verus! {

/// The five interrupt sources.
#[derive(Clone, Copy, Debug, PartialEq, Eq, Structural)]
pub enum Interrupt {
    Joypad,
    Serial,
    Timer,
    Lcd,
    VBlank,
}

impl Interrupt {
    /// The bit that stands for the source in the two interrupt registers.
    /// A lower bit has the higher priority.
    pub open spec fn mask(self) -> u8 {
        match self {
            Interrupt::VBlank => 0b0000_0001,
            Interrupt::Lcd => 0b0000_0010,
            Interrupt::Timer => 0b0000_0100,
            Interrupt::Serial => 0b0000_1000,
            Interrupt::Joypad => 0b0001_0000,
        }
    }

    /// The address of the handler that serves the source.
    pub open spec fn vector(self) -> u16 {
        match self {
            Interrupt::VBlank => 0x40,
            Interrupt::Lcd => 0x48,
            Interrupt::Timer => 0x50,
            Interrupt::Serial => 0x58,
            Interrupt::Joypad => 0x60,
        }
    }
}

/// The interrupt controller: the requests that are latched and the sources
/// that are enabled, five bits each.
#[derive(Clone, Copy)]
pub struct Interrupts {
    interrupt_flag: IORegister,
    interrupt_enable: IORegister,
}

/// What an [`Interrupts`] holds.
pub struct InterruptsView {
    /// IF: the sources that ask for service.
    pub interrupt_flag: u8,
    /// IE: the sources that may be served.
    pub interrupt_enable: u8,
}

impl InterruptsView {
    pub open spec fn power_on() -> Self {
        InterruptsView { interrupt_flag: 0, interrupt_enable: 0 }
    }

    /// The sources that are both requested and enabled.
    pub open spec fn triggered(self) -> u8 {
        self.interrupt_enable & self.interrupt_flag
    }

    /// The requested and enabled source of the highest priority, if any.
    pub open spec fn highest_priority(self) -> Option<Interrupt> {
        let triggered = self.triggered();
        if triggered & Interrupt::VBlank.mask() != 0 {
            Some(Interrupt::VBlank)
        } else if triggered & Interrupt::Lcd.mask() != 0 {
            Some(Interrupt::Lcd)
        } else if triggered & Interrupt::Timer.mask() != 0 {
            Some(Interrupt::Timer)
        } else if triggered & Interrupt::Serial.mask() != 0 {
            Some(Interrupt::Serial)
        } else if triggered & Interrupt::Joypad.mask() != 0 {
            Some(Interrupt::Joypad)
        } else {
            None
        }
    }

    /// The controller with the request of `interrupt` latched.
    pub open spec fn request(self, interrupt: Interrupt) -> Self {
        InterruptsView { interrupt_flag: self.interrupt_flag | interrupt.mask(), ..self }
    }

    /// The controller with the request of `interrupt` taken back.
    pub open spec fn clear(self, interrupt: Interrupt) -> Self {
        InterruptsView { interrupt_flag: self.interrupt_flag & !interrupt.mask(), ..self }
    }

    /// The controller with the request of `interrupt` latched where there is one.
    pub open spec fn request_optional(self, interrupt: Option<Interrupt>) -> Self {
        match interrupt {
            Some(interrupt) => self.request(interrupt),
            None => self,
        }
    }

    /// What a read of IF gives: the three unused bits read as one.
    pub open spec fn flag_register(self) -> u8 {
        0b1110_0000 | self.interrupt_flag
    }

    /// What a read of IE gives: the three unused bits read as one.
    pub open spec fn enable_register(self) -> u8 {
        0b1110_0000 | self.interrupt_enable
    }
}

impl View for Interrupts {
    type V = InterruptsView;

    closed spec fn view(&self) -> InterruptsView {
        InterruptsView {
            interrupt_flag: self.interrupt_flag@,
            interrupt_enable: self.interrupt_enable@,
        }
    }
}

fn mask_of(interrupt: Interrupt) -> (mask: u8)
    ensures
        mask == interrupt.mask(),
{
    match interrupt {
        Interrupt::VBlank => 0b0000_0001,
        Interrupt::Lcd => 0b0000_0010,
        Interrupt::Timer => 0b0000_0100,
        Interrupt::Serial => 0b0000_1000,
        Interrupt::Joypad => 0b0001_0000,
    }
}

impl Interrupts {
    pub fn new() -> (interrupts: Self)
        ensures
            interrupts@ == InterruptsView::power_on(),
    {
        Self { interrupt_flag: IORegister::new(), interrupt_enable: IORegister::new() }
    }

    pub fn highest_priority_triggered_interrupt(&self) -> (interrupt: Option<Interrupt>)
        ensures
            interrupt == self@.highest_priority(),
    {
        let triggered = self.interrupt_enable.read() & self.interrupt_flag.read();
        if (triggered & 0b0000_0001) != 0 {
            Some(Interrupt::VBlank)
        } else if (triggered & 0b0000_0010) != 0 {
            Some(Interrupt::Lcd)
        } else if (triggered & 0b0000_0100) != 0 {
            Some(Interrupt::Timer)
        } else if (triggered & 0b0000_1000) != 0 {
            Some(Interrupt::Serial)
        } else if (triggered & 0b0001_0000) != 0 {
            Some(Interrupt::Joypad)
        } else {
            None
        }
    }

    pub fn clear_requested_interrupt(&mut self, interrupt: Interrupt)
        ensures
            final(self)@ == old(self)@.clear(interrupt),
    {
        let mask = !mask_of(interrupt);
        self.interrupt_flag.write(self.interrupt_flag.read() & mask);
    }

    pub fn set_interrupt_requested(&mut self, interrupt: Interrupt)
        ensures
            final(self)@ == old(self)@.request(interrupt),
    {
        let bit = mask_of(interrupt);
        self.interrupt_flag.write(self.interrupt_flag.read() | bit);
    }

    /// Latches the request of `interrupt` where there is one.
    pub fn request_optional(&mut self, interrupt: Option<Interrupt>)
        ensures
            final(self)@ == old(self)@.request_optional(interrupt),
    {
        match interrupt {
            Some(interrupt) => self.set_interrupt_requested(interrupt),
            None => {},
        }
    }

    pub fn read_interrupt_enable(&self) -> (value: u8)
        ensures
            value == self@.enable_register(),
    {
        0b1110_0000 | self.interrupt_enable.read()
    }

    /// A write to IE: the low five bits are kept.
    pub fn write_interrupt_enable(&mut self, value: u8)
        ensures
            final(self)@ == (InterruptsView { interrupt_enable: value & 0b0001_1111, ..old(self)@ }),
    {
        self.interrupt_enable.write(value & 0b0001_1111);
    }

    pub fn read_interrupt_flag(&self) -> (value: u8)
        ensures
            value == self@.flag_register(),
    {
        0b1110_0000 | self.interrupt_flag.read()
    }

    /// A write to IF: the low five bits are kept.
    pub fn write_interrupt_flag(&mut self, value: u8)
        ensures
            final(self)@ == (InterruptsView { interrupt_flag: value & 0b0001_1111, ..old(self)@ }),
    {
        self.interrupt_flag.write(value & 0b0001_1111);
    }
}

} // verus!
