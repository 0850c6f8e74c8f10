use vstd::prelude::*;
use vstd::slice::slice_index_get;
use crate::cpu::error::Error;

verus! {

/// The size of the boot program in bytes.
pub const BOOT_ROM_SIZE: usize = 256;

/// The 256-byte program that runs when the console is switched on.
#[derive(Clone, Copy, Debug)]
pub struct BootRom {
    contents: [u8; 256],
}

impl View for BootRom {
    type V = Seq<u8>;

    closed spec fn view(&self) -> Seq<u8> {
        self.contents@
    }
}

impl BootRom {
    /// The boot program always holds 256 bytes.
    pub proof fn holds_256_bytes(&self)
        ensures
            self@.len() == 256,
    {
    }

    pub fn new(contents: [u8; 256]) -> (rom: Self)
        ensures
            rom@ == contents@,
    {
        Self { contents }
    }

    pub fn contents(&self) -> (contents: &[u8; 256])
        ensures
            contents@ == self@,
            contents@.len() == 256,
    {
        &self.contents
    }
}

/// Builds a boot program from the bytes of an image.
pub struct BootRomReader {}

impl BootRomReader {
    /// Takes the first 256 bytes of `bytes` as the boot program. An image
    /// with fewer bytes is refused.
    pub fn read(bytes: &[u8]) -> (rom: Result<BootRom, Error>)
        ensures
            bytes@.len() >= 256 ==> rom is Ok && rom->Ok_0@ == bytes@.subrange(0, 256),
            bytes@.len() < 256 ==> rom == Err::<BootRom, Error>(Error::BootRomReadFailure),
    {
        if bytes.len() < BOOT_ROM_SIZE {
            return Err(Error::BootRomReadFailure);
        }
        let mut contents = [0u8; 256];
        let mut i: usize = 0;
        while i < BOOT_ROM_SIZE
            invariant
                i <= 256,
                bytes@.len() >= 256,
                forall|k: int| 0 <= k < i ==> contents@[k] == bytes@[k],
            decreases 256 - i,
        {
            contents[i] = *slice_index_get(bytes, i);
            i += 1;
        }
        assert(contents@ =~= bytes@.subrange(0, 256));
        Ok(BootRom::new(contents))
    }
}

} // verus!
