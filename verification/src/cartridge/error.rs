use vstd::prelude::*;

verus! {

/// Why the bytes of a ROM make no cartridge.
#[derive(Clone, Copy, Debug, PartialEq, Eq, Structural)]
pub enum Error {
    /// The title holds a byte that is no ASCII character.
    InvalidCartridgeTitle,
    /// The cartridge type byte names no cartridge type.
    InvalidCartridgeType,
    /// The ROM size byte names no size.
    InvalidCartridgeRomSize,
    /// The RAM size byte names no size.
    InvalidCartridgeRamSize,
    /// The destination byte names no destination.
    InvalidCartridgeDestinationCode,
    /// The cartridge holds hardware that is not emulated.
    UnsupportedCartridgeType,
    /// The ROM is not made of whole banks, or of fewer than two.
    FileSizeError,
}

} // verus!
