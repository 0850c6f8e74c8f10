use vstd::prelude::*;
use super::IORegister;

verus! {

/// The serial port registers. Bytes written are kept and never sent.
#[derive(Clone, Copy, Debug)]
pub struct Serial {
    data: IORegister,
    control: IORegister,
}

/// What a [`Serial`] holds.
pub struct SerialView {
    /// SB
    pub data: u8,
    /// SC
    pub control: u8,
}

impl View for Serial {
    type V = SerialView;

    closed spec fn view(&self) -> SerialView {
        SerialView {
            data: self.data@,
            control: self.control@,
        }
    }
}

impl SerialView {
    /// The block at power on: every register zero.
    pub open spec fn power_on() -> Self {
        SerialView {
            data: 0,
            control: 0,
        }
    }
}

impl Serial {
    pub fn new() -> (block: Self)
        ensures
            block@ == SerialView::power_on(),
    {
        let block = Self {
            data: IORegister::new(),
            control: IORegister::new(),
        };
        block
    }

    pub fn read_data(&self) -> (value: u8)
        ensures
            value == self@.data,
    {
        self.data.read()
    }

    pub fn write_data(&mut self, value: u8)
        ensures
            final(self)@ == (SerialView { data: value, ..old(self)@ }),
    {
        self.data.write(value);
    }

    pub fn read_control(&self) -> (value: u8)
        ensures
            value == self@.control,
    {
        self.control.read()
    }

    pub fn write_control(&mut self, value: u8)
        ensures
            final(self)@ == (SerialView { control: value, ..old(self)@ }),
    {
        self.control.write(value);
    }

}

} // verus!
