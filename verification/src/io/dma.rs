use vstd::prelude::*;
use super::IORegister;

verus! {

/// The clock cycles that a transfer takes.
pub const DMA_TRANSFER_CYCLES_LENGTH: u16 = 640;

/// The bytes that a transfer copies.
pub const DMA_TRANSFER_BYTES: u16 = 160;

/// The engine that copies a page of memory into object attribute memory.
#[derive(Clone, Copy, Debug)]
pub struct DMAController {
    transferring: bool,
    source_address: u16,
    cycles_in: u16,
    source_reg: IORegister,
}

/// What a [`DMAController`] holds.
pub struct DMAControllerView {
    /// Whether a transfer is under way.
    pub transferring: bool,
    /// The page that the last transfer was started with.
    pub source: u8,
    /// The clock cycles that have passed since the transfer started.
    pub cycles_in: u16,
}

impl DMAControllerView {
    pub open spec fn power_on() -> Self {
        DMAControllerView { transferring: false, source: 0, cycles_in: 0 }
    }

    /// The first address that a transfer reads: the page times 0x100.
    pub open spec fn full_source_address(self) -> u16 {
        (self.source * 0x100) as u16
    }

    /// The engine after a write of `source` to its register: a transfer from
    /// that page starts, and one under way starts over.
    pub open spec fn start(self, source: u8) -> Self {
        DMAControllerView { transferring: true, source, cycles_in: 0 }
    }

    /// Whether the transfer under way is complete once `cycles` more clock
    /// cycles have passed.
    pub open spec fn completes(self, cycles: usize) -> bool {
        self.transferring && self.cycles_in + cycles >= DMA_TRANSFER_CYCLES_LENGTH
    }

    /// The engine after `cycles` clock cycles.
    pub open spec fn step(self, cycles: usize) -> Self {
        if !self.transferring {
            self
        } else if self.completes(cycles) {
            DMAControllerView { transferring: false, cycles_in: 0, ..self }
        } else {
            DMAControllerView { cycles_in: (self.cycles_in + cycles) as u16, ..self }
        }
    }
}

impl View for DMAController {
    type V = DMAControllerView;

    closed spec fn view(&self) -> DMAControllerView {
        DMAControllerView {
            transferring: self.transferring,
            source: self.source_reg@,
            cycles_in: self.cycles_in,
        }
    }
}

impl DMAController {
    #[verifier::type_invariant]
    spec fn source_matches(self) -> bool {
        self.source_address == self.source_reg@ * 0x100
    }

    pub fn new() -> (dma: Self)
        ensures
            dma@ == DMAControllerView::power_on(),
    {
        Self { transferring: false, source_address: 0, cycles_in: 0, source_reg: IORegister::new() }
    }

    /// The page that the last transfer was started with.
    pub fn read_source_address(&self) -> (source: u8)
        ensures
            source == self@.source,
    {
        self.source_reg.read()
    }

    pub fn full_source_address(&self) -> (address: u16)
        ensures
            address == self@.full_source_address(),
    {
        proof {
            use_type_invariant(self);
        }
        self.source_address
    }

    pub fn start_new_transfer(&mut self, source: u8)
        ensures
            final(self)@ == old(self)@.start(source),
    {
        let mut source_reg = IORegister::new();
        source_reg.write(source);
        *self = Self {
            transferring: true,
            source_address: source as u16 * 0x100,
            cycles_in: 0,
            source_reg,
        };
    }

    pub fn transferring(&self) -> (transferring: bool)
        ensures
            transferring == self@.transferring,
    {
        self.transferring
    }

    /// Lets `cycles` clock cycles pass. Returns whether the transfer under
    /// way completed, which is when its bytes are due.
    pub fn step(&mut self, cycles: usize) -> (completed: bool)
        ensures
            final(self)@ == old(self)@.step(cycles),
            completed == old(self)@.completes(cycles),
    {
        proof {
            use_type_invariant(&*self);
        }
        if self.transferring {
            let now: u128 = self.cycles_in as u128 + cycles as u128;
            if now >= DMA_TRANSFER_CYCLES_LENGTH as u128 {
                *self = Self { transferring: false, cycles_in: 0, ..*self };
                return true;
            } else {
                *self = Self { cycles_in: now as u16, ..*self };
            }
        }
        false
    }
}

} // verus!
