use vstd::prelude::*;
use vstd::slice::slice_index_get;
use vstd::slice::slice_subrange;
use header::{
    CartridgeHeader, CartridgeHeaderReader, CartridgeHeaderView, CartridgeType, CgbFlag,
    DestinationCode, ManufacturerCode, NewLicenseeCode, OldLicenseeCode, RamSize, RomSize, SgbFlag,
};

pub use error::Error;

pub mod error;
pub mod header;

verus! {

/// The size of a ROM bank in bytes.
pub const BANK_SIZE: usize = 16384;

/// A cartridge: the fixed first bank of its ROM, the bank that is switched
/// in behind it, and its header.
#[derive(Clone, Debug)]
pub struct Cartridge {
    bank0: [u8; BANK_SIZE],
    bank1: [u8; BANK_SIZE],
    header: CartridgeHeader,
}

/// What a [`Cartridge`] holds.
pub struct CartridgeView {
    /// The 16 KiB at 0x0000 to 0x3FFF.
    pub bank0: Seq<u8>,
    /// The 16 KiB at 0x4000 to 0x7FFF.
    pub bank1: Seq<u8>,
    pub header: CartridgeHeaderView,
}

impl CartridgeView {
    /// The cartridge of 32 KiB of zeros, titled `EMPTY`.
    pub open spec fn empty() -> CartridgeView {
        CartridgeView {
            bank0: Seq::new(BANK_SIZE as nat, |i: int| 0u8),
            bank1: Seq::new(BANK_SIZE as nat, |i: int| 0u8),
            header: CartridgeHeaderView {
                title: "EMPTY"@,
                manufacturer_code: Seq::new(4, |i: int| '\0'),
                cgb_flag: CgbFlag::No,
                new_licensee_code: NewLicenseeCode::Unknown('\0', '\0'),
                sgb_flag: SgbFlag::No,
                cartridge_type: CartridgeType::RomOnly,
                rom_size: RomSize::Size32KiB,
                ram_size: RamSize::NoRam,
                destination_code: DestinationCode::Japan,
                old_licensee_code: OldLicenseeCode::UseNewLicenseeCode,
                version_number: 0,
                read_header_checksum: 0,
                computed_header_checksum: 0,
                read_global_checksum: 0,
                computed_global_checksum: 0,
            },
        }
    }

    /// The cartridge that the bytes of a ROM make, or the reason why they
    /// make none. The ROM is made of whole banks, at least two of them, its
    /// header is sound, and it holds nothing but ROM.
    pub open spec fn parse(rom: Seq<u8>) -> Result<CartridgeView, Error> {
        if rom.len() < BANK_SIZE {
            Err(Error::FileSizeError)
        } else {
            let bank0 = rom.subrange(0, BANK_SIZE as int);
            let rest = rom.subrange(BANK_SIZE as int, rom.len() as int);
            match CartridgeHeaderView::parse(bank0, rest) {
                Err(error) => Err(error),
                Ok(header) => if header.cartridge_type != CartridgeType::RomOnly {
                    Err(Error::UnsupportedCartridgeType)
                } else if rest.len() % BANK_SIZE as nat != 0 || rest.len() < BANK_SIZE {
                    Err(Error::FileSizeError)
                } else {
                    Ok(CartridgeView { bank0, bank1: rest.subrange(0, BANK_SIZE as int), header })
                },
            }
        }
    }
}

impl View for Cartridge {
    type V = CartridgeView;

    closed spec fn view(&self) -> CartridgeView {
        CartridgeView { bank0: self.bank0@, bank1: self.bank1@, header: self.header@ }
    }
}

fn copy_bank(bytes: &[u8], start: usize) -> (bank: [u8; BANK_SIZE])
    requires
        start + BANK_SIZE <= bytes@.len(),
    ensures
        bank@ == bytes@.subrange(start as int, start + BANK_SIZE),
{
    let mut bank = [0u8; BANK_SIZE];
    let total = bytes.len();
    let mut i: usize = 0;
    while i < BANK_SIZE
        invariant
            i <= BANK_SIZE,
            total == bytes@.len(),
            start + BANK_SIZE <= bytes@.len(),
            forall|k: int| 0 <= k < i ==> bank@[k] == bytes@[start + k],
        decreases BANK_SIZE - i,
    {
        bank[i] = *slice_index_get(bytes, start + i);
        i += 1;
    }
    assert(bank@ =~= bytes@.subrange(start as int, start + BANK_SIZE));
    bank
}

impl Cartridge {
    /// Both banks of a cartridge always hold 16 KiB.
    pub proof fn holds_two_banks(&self)
        ensures
            self@.bank0.len() == BANK_SIZE,
            self@.bank1.len() == BANK_SIZE,
    {
    }

    /// A cartridge of 32 KiB of zeros, for a console with no game in it.
    pub fn empty() -> (cartridge: Self)
        ensures
            cartridge@ == CartridgeView::empty(),
    {
        let header = CartridgeHeader::new(
            "EMPTY",
            ManufacturerCode::zeroed(),
            CgbFlag::No,
            NewLicenseeCode::Unknown('\0', '\0'),
            SgbFlag::No,
            CartridgeType::RomOnly,
            RomSize::Size32KiB,
            RamSize::NoRam,
            DestinationCode::Japan,
            OldLicenseeCode::UseNewLicenseeCode,
            0,
            0,
            0,
        );
        let cartridge = Self { bank0: [0u8; BANK_SIZE], bank1: [0u8; BANK_SIZE], header };
        assert(cartridge@.bank0 =~= Seq::new(BANK_SIZE as nat, |i: int| 0u8));
        assert(cartridge@.bank1 =~= Seq::new(BANK_SIZE as nat, |i: int| 0u8));
        cartridge
    }

    /// Makes a cartridge of the bytes of a ROM.
    pub fn read(rom: &[u8]) -> (cartridge: Result<Self, Error>)
        ensures
            cartridge matches Ok(made) ==> CartridgeView::parse(rom@) == Ok::<CartridgeView, Error>(
                made@,
            ),
            cartridge matches Err(error) ==> CartridgeView::parse(rom@) == Err::<
                CartridgeView,
                Error,
            >(error),
    {
        if rom.len() < BANK_SIZE {
            return Err(Error::FileSizeError);
        }
        let first = slice_subrange(rom, 0, BANK_SIZE);
        let rest = slice_subrange(rom, BANK_SIZE, rom.len());
        let header = CartridgeHeaderReader::read(first, rest)?;
        match header.cartridge_type() {
            CartridgeType::RomOnly => {},
            _ => {
                return Err(Error::UnsupportedCartridgeType);
            },
        }
        if rest.len() % BANK_SIZE != 0 || rest.len() < BANK_SIZE {
            return Err(Error::FileSizeError);
        }
        let bank0 = copy_bank(rom, 0);
        let bank1 = copy_bank(rom, BANK_SIZE);
        assert(bank1@ =~= rest@.subrange(0, BANK_SIZE as int));
        Ok(Self { bank0, bank1, header })
    }

    pub fn header(&self) -> (header: &CartridgeHeader)
        ensures
            header@ == self@.header,
    {
        &self.header
    }

    pub fn bank0(&self) -> (bank: &[u8; BANK_SIZE])
        ensures
            bank@ == self@.bank0,
    {
        &self.bank0
    }

    pub fn bank1(&self) -> (bank: &[u8; BANK_SIZE])
        ensures
            bank@ == self@.bank1,
    {
        &self.bank1
    }
}

} // verus!
