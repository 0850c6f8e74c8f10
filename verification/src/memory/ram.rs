use vstd::prelude::*;

verus! {

/// The first address of high RAM.
pub const HIGH_RAM_START: u16 = 0xFF80;

/// The last address of high RAM.
pub const HIGH_RAM_END: u16 = 0xFFFE;

/// The first address of work RAM.
pub const WORK_RAM_START: u16 = 0xC000;

/// The last address of work RAM.
pub const WORK_RAM_END: u16 = 0xDFFF;

/// The 127 bytes of RAM at the top of the address space.
#[derive(Clone, Copy)]
pub struct HighRam {
    contents: [u8; 127],
}

impl View for HighRam {
    type V = Seq<u8>;

    closed spec fn view(&self) -> Seq<u8> {
        self.contents@
    }
}

impl HighRam {
    /// High RAM always holds 127 bytes.
    pub proof fn holds_127_bytes(&self)
        ensures
            self@.len() == 127,
    {
    }

    /// High RAM filled with zeros.
    pub fn new() -> (ram: Self)
        ensures
            ram@ == Seq::new(127, |i: int| 0u8),
    {
        let ram = Self { contents: [0u8; 127] };
        assert(ram@ =~= Seq::new(127, |i: int| 0u8));
        ram
    }

    pub fn contents(&self) -> (contents: &[u8; 127])
        ensures
            contents@ == self@,
    {
        &self.contents
    }

    /// The byte at `address`, which lies in high RAM.
    pub fn read_u8(&self, address: u16) -> (value: u8)
        requires
            HIGH_RAM_START <= address <= HIGH_RAM_END,
        ensures
            value == self@[address - HIGH_RAM_START],
    {
        self.contents[(address - HIGH_RAM_START) as usize]
    }

    /// Stores `data` at `address`, which lies in high RAM.
    pub fn write_u8(&mut self, address: u16, data: u8)
        requires
            HIGH_RAM_START <= address <= HIGH_RAM_END,
        ensures
            final(self)@ == old(self)@.update(address - HIGH_RAM_START, data),
            final(self)@.len() == 127,
    {
        self.contents[(address - HIGH_RAM_START) as usize] = data;
    }
}

/// The 8 KiB of work RAM.
#[derive(Clone, Copy)]
pub struct WorkRam {
    contents: [u8; 8192],
}

impl View for WorkRam {
    type V = Seq<u8>;

    closed spec fn view(&self) -> Seq<u8> {
        self.contents@
    }
}

impl WorkRam {
    /// Work RAM always holds 8192 bytes.
    pub proof fn holds_8192_bytes(&self)
        ensures
            self@.len() == 8192,
    {
    }

    /// Work RAM filled with zeros.
    pub fn new() -> (ram: Self)
        ensures
            ram@ == Seq::new(8192, |i: int| 0u8),
    {
        let ram = Self { contents: [0u8; 8192] };
        assert(ram@ =~= Seq::new(8192, |i: int| 0u8));
        ram
    }

    pub fn contents(&self) -> (contents: &[u8; 8192])
        ensures
            contents@ == self@,
    {
        &self.contents
    }

    /// The byte at `address`, which lies in work RAM.
    pub fn read_u8(&self, address: u16) -> (value: u8)
        requires
            WORK_RAM_START <= address <= WORK_RAM_END,
        ensures
            value == self@[address - WORK_RAM_START],
    {
        self.contents[(address - WORK_RAM_START) as usize]
    }

    /// Stores `data` at `address`, which lies in work RAM.
    pub fn write_u8(&mut self, address: u16, data: u8)
        requires
            WORK_RAM_START <= address <= WORK_RAM_END,
        ensures
            final(self)@ == old(self)@.update(address - WORK_RAM_START, data),
            final(self)@.len() == 8192,
    {
        self.contents[(address - WORK_RAM_START) as usize] = data;
    }
}

} // verus!
