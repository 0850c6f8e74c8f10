use vstd::prelude::*;

verus! {

/// What can go wrong while the processor runs.
#[derive(Clone, Copy, Debug, PartialEq, Eq, Structural)]
pub enum Error {
    /// The boot program could not be read in full.
    BootRomReadFailure,
    /// The byte fetched at the given address does not encode an instruction.
    InvalidInstruction(u16, u8),
    /// A read touched an address that nothing answers.
    MemoryReadFault(u16),
    /// A write of the given byte touched an address that accepts no writes.
    MemoryWriteFault(u16, u8),
}

} // verus!
