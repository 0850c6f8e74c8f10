use vstd::prelude::*;
use vstd::slice::slice_index_get;
use vstd::std_specs::convert::{FromSpecImpl, TryFromSpecImpl};
use crate::text::{hex_byte, push_hex_byte, push_text, string_of_chars};
use super::error::Error;
use super::BANK_SIZE;

verus! {

/// The kind of hardware in the cartridge, from the byte at 0x0147.
#[derive(Clone, Copy, Debug, PartialEq, Eq, Structural)]
pub enum CartridgeType {
    RomOnly,
    Mbc1,
    Mbc1Ram,
    Mbc1RamBattery,
    Mbc2,
    Mbc2Battery,
    RomRam,
    RomRamBattery,
    Mmm01,
    Mmm01Ram,
    Mmm01RamBattery,
    Mbc3TimerBattery,
    Mbc3TimerRamBattery,
    Mbc3,
    Mbc3Ram,
    Mbc3RamBattery,
    Mbc5,
    Mbc5Ram,
    Mbc5RamBattery,
    Mbc5Rumble,
    Mbc5RumbleRam,
    Mbc5RumbleRamBattery,
    Mbc6,
    Mbc7SensorRumbleRamBattery,
    PocketCamera,
    BandaiTama5,
    Huc3,
    Huc1RamBattery,
}

impl CartridgeType {
    /// The cartridge type that a header byte names, if it names one.
    pub open spec fn of_byte(value: u8) -> Option<CartridgeType> {
        match value {
            0x00 => Some(CartridgeType::RomOnly),
            0x01 => Some(CartridgeType::Mbc1),
            0x02 => Some(CartridgeType::Mbc1Ram),
            0x03 => Some(CartridgeType::Mbc1RamBattery),
            0x05 => Some(CartridgeType::Mbc2),
            0x06 => Some(CartridgeType::Mbc2Battery),
            0x08 => Some(CartridgeType::RomRam),
            0x09 => Some(CartridgeType::RomRamBattery),
            0x0B => Some(CartridgeType::Mmm01),
            0x0C => Some(CartridgeType::Mmm01Ram),
            0x0D => Some(CartridgeType::Mmm01RamBattery),
            0x0F => Some(CartridgeType::Mbc3TimerBattery),
            0x10 => Some(CartridgeType::Mbc3TimerRamBattery),
            0x11 => Some(CartridgeType::Mbc3),
            0x12 => Some(CartridgeType::Mbc3Ram),
            0x13 => Some(CartridgeType::Mbc3RamBattery),
            0x19 => Some(CartridgeType::Mbc5),
            0x1A => Some(CartridgeType::Mbc5Ram),
            0x1B => Some(CartridgeType::Mbc5RamBattery),
            0x1C => Some(CartridgeType::Mbc5Rumble),
            0x1D => Some(CartridgeType::Mbc5RumbleRam),
            0x1E => Some(CartridgeType::Mbc5RumbleRamBattery),
            0x20 => Some(CartridgeType::Mbc6),
            0x22 => Some(CartridgeType::Mbc7SensorRumbleRamBattery),
            0xFC => Some(CartridgeType::PocketCamera),
            0xFD => Some(CartridgeType::BandaiTama5),
            0xFE => Some(CartridgeType::Huc3),
            0xFF => Some(CartridgeType::Huc1RamBattery),
            _ => None,
        }
    }
}

impl TryFrom<u8> for CartridgeType {
    type Error = Error;

    fn try_from(value: u8) -> (cartridge_type: Result<Self, Self::Error>) {
        Ok(
            match value {
                0x00 => Self::RomOnly,
                0x01 => Self::Mbc1,
                0x02 => Self::Mbc1Ram,
                0x03 => Self::Mbc1RamBattery,
                0x05 => Self::Mbc2,
                0x06 => Self::Mbc2Battery,
                0x08 => Self::RomRam,
                0x09 => Self::RomRamBattery,
                0x0B => Self::Mmm01,
                0x0C => Self::Mmm01Ram,
                0x0D => Self::Mmm01RamBattery,
                0x0F => Self::Mbc3TimerBattery,
                0x10 => Self::Mbc3TimerRamBattery,
                0x11 => Self::Mbc3,
                0x12 => Self::Mbc3Ram,
                0x13 => Self::Mbc3RamBattery,
                0x19 => Self::Mbc5,
                0x1A => Self::Mbc5Ram,
                0x1B => Self::Mbc5RamBattery,
                0x1C => Self::Mbc5Rumble,
                0x1D => Self::Mbc5RumbleRam,
                0x1E => Self::Mbc5RumbleRamBattery,
                0x20 => Self::Mbc6,
                0x22 => Self::Mbc7SensorRumbleRamBattery,
                0xFC => Self::PocketCamera,
                0xFD => Self::BandaiTama5,
                0xFE => Self::Huc3,
                0xFF => Self::Huc1RamBattery,
                _ => {
                    return Err(Error::InvalidCartridgeType);
                },
            },
        )
    }
}

impl TryFromSpecImpl<u8> for CartridgeType {
    open spec fn obeys_try_from_spec() -> bool {
        true
    }

    open spec fn try_from_spec(value: u8) -> Result<Self, Self::Error> {
        match CartridgeType::of_byte(value) {
            Some(cartridge_type) => Ok(cartridge_type),
            None => Err(Error::InvalidCartridgeType),
        }
    }
}

/// Whether the cartridge makes use of the color console, from the byte at
/// 0x0143.
#[derive(Clone, Copy, Debug, PartialEq, Eq, Structural)]
pub enum CgbFlag {
    No,
    BackwardsCompatible,
    CgbOnly,
}

impl CgbFlag {
    pub open spec fn of_byte(value: u8) -> CgbFlag {
        if value == 0x80 {
            CgbFlag::BackwardsCompatible
        } else if value == 0xC0 {
            CgbFlag::CgbOnly
        } else {
            CgbFlag::No
        }
    }
}

impl From<u8> for CgbFlag {
    fn from(value: u8) -> (flag: CgbFlag) {
        match value {
            0x80 => Self::BackwardsCompatible,
            0xC0 => Self::CgbOnly,
            _ => Self::No,
        }
    }
}

impl FromSpecImpl<u8> for CgbFlag {
    open spec fn obeys_from_spec() -> bool {
        true
    }

    open spec fn from_spec(value: u8) -> CgbFlag {
        CgbFlag::of_byte(value)
    }
}

/// Where the cartridge was sold, from the byte at 0x014A.
#[derive(Clone, Copy, Debug, PartialEq, Eq, Structural)]
pub enum DestinationCode {
    Japan,
    OverseasOnly,
}

impl DestinationCode {
    pub open spec fn of_byte(value: u8) -> Option<DestinationCode> {
        if value == 0x00 {
            Some(DestinationCode::Japan)
        } else if value == 0x01 {
            Some(DestinationCode::OverseasOnly)
        } else {
            None
        }
    }
}

impl TryFrom<u8> for DestinationCode {
    type Error = Error;

    fn try_from(value: u8) -> (code: Result<Self, Self::Error>) {
        Ok(
            match value {
                0x00 => Self::Japan,
                0x01 => Self::OverseasOnly,
                _ => {
                    return Err(Error::InvalidCartridgeDestinationCode);
                },
            },
        )
    }
}

impl TryFromSpecImpl<u8> for DestinationCode {
    open spec fn obeys_try_from_spec() -> bool {
        true
    }

    open spec fn try_from_spec(value: u8) -> Result<Self, Self::Error> {
        match DestinationCode::of_byte(value) {
            Some(code) => Ok(code),
            None => Err(Error::InvalidCartridgeDestinationCode),
        }
    }
}

/// The size of the RAM in the cartridge, from the byte at 0x0149.
#[derive(Clone, Copy, Debug, PartialEq, Eq, Structural)]
pub enum RamSize {
    NoRam,
    Size8KiB,
    Size32KiB,
    Size64KiB,
    Size128KiB,
}

impl RamSize {
    pub open spec fn of_byte(value: u8) -> Option<RamSize> {
        match value {
            0x00 => Some(RamSize::NoRam),
            0x02 => Some(RamSize::Size8KiB),
            0x03 => Some(RamSize::Size32KiB),
            0x04 => Some(RamSize::Size128KiB),
            0x05 => Some(RamSize::Size64KiB),
            _ => None,
        }
    }
}

impl TryFrom<u8> for RamSize {
    type Error = Error;

    fn try_from(value: u8) -> (size: Result<Self, Self::Error>) {
        Ok(
            match value {
                0x00 => Self::NoRam,
                0x02 => Self::Size8KiB,
                0x03 => Self::Size32KiB,
                0x04 => Self::Size128KiB,
                0x05 => Self::Size64KiB,
                _ => {
                    return Err(Error::InvalidCartridgeRamSize);
                },
            },
        )
    }
}

impl TryFromSpecImpl<u8> for RamSize {
    open spec fn obeys_try_from_spec() -> bool {
        true
    }

    open spec fn try_from_spec(value: u8) -> Result<Self, Self::Error> {
        match RamSize::of_byte(value) {
            Some(size) => Ok(size),
            None => Err(Error::InvalidCartridgeRamSize),
        }
    }
}

/// The size of the ROM in the cartridge, from the byte at 0x0148.
#[derive(Clone, Copy, Debug, PartialEq, Eq, Structural)]
pub enum RomSize {
    Size32KiB,
    Size64KiB,
    Size128KiB,
    Size256KiB,
    Size512KiB,
    Size1MiB,
    Size2MiB,
    Size4MiB,
    Size8MiB,
}

impl RomSize {
    pub open spec fn of_byte(value: u8) -> Option<RomSize> {
        match value {
            0x00 => Some(RomSize::Size32KiB),
            0x01 => Some(RomSize::Size64KiB),
            0x02 => Some(RomSize::Size128KiB),
            0x03 => Some(RomSize::Size256KiB),
            0x04 => Some(RomSize::Size512KiB),
            0x05 => Some(RomSize::Size1MiB),
            0x06 => Some(RomSize::Size2MiB),
            0x07 => Some(RomSize::Size4MiB),
            0x08 => Some(RomSize::Size8MiB),
            _ => None,
        }
    }
}

impl TryFrom<u8> for RomSize {
    type Error = Error;

    fn try_from(value: u8) -> (size: Result<Self, Self::Error>) {
        Ok(
            match value {
                0x00 => Self::Size32KiB,
                0x01 => Self::Size64KiB,
                0x02 => Self::Size128KiB,
                0x03 => Self::Size256KiB,
                0x04 => Self::Size512KiB,
                0x05 => Self::Size1MiB,
                0x06 => Self::Size2MiB,
                0x07 => Self::Size4MiB,
                0x08 => Self::Size8MiB,
                _ => {
                    return Err(Error::InvalidCartridgeRomSize);
                },
            },
        )
    }
}

impl TryFromSpecImpl<u8> for RomSize {
    open spec fn obeys_try_from_spec() -> bool {
        true
    }

    open spec fn try_from_spec(value: u8) -> Result<Self, Self::Error> {
        match RomSize::of_byte(value) {
            Some(size) => Ok(size),
            None => Err(Error::InvalidCartridgeRomSize),
        }
    }
}

/// Whether the cartridge makes use of the Super Game Boy, from the byte at
/// 0x0146.
#[derive(Clone, Copy, Debug, PartialEq, Eq, Structural)]
pub enum SgbFlag {
    No,
    Yes,
}

impl SgbFlag {
    pub open spec fn of_byte(value: u8) -> SgbFlag {
        if value == 0x03 {
            SgbFlag::Yes
        } else {
            SgbFlag::No
        }
    }
}

impl From<u8> for SgbFlag {
    fn from(value: u8) -> (flag: SgbFlag) {
        match value {
            0x03 => Self::Yes,
            _ => Self::No,
        }
    }
}

impl FromSpecImpl<u8> for SgbFlag {
    open spec fn obeys_from_spec() -> bool {
        true
    }

    open spec fn from_spec(value: u8) -> SgbFlag {
        SgbFlag::of_byte(value)
    }
}

/// The publisher of the cartridge as the two characters at 0x0144 name it.
#[derive(Clone, Copy, Debug, PartialEq, Eq, Structural)]
pub enum NewLicenseeCode {
    NoLicensee,
    NintendoResearchAndDevelopment,
    Capcom,
    ElectronicArts,
    HudsonSoft,
    BAi,
    Kss,
    PlanningOfficeWada,
    PcmComplete,
    SanX,
    Kemco,
    SetaCorporation,
    Viacom,
    Nintendo,
    Bandai,
    OceanSoftwareAcclaimEntertainment,
    Konami,
    HectorSoft,
    Taito,
    Banpresto,
    UbiSoft,
    Altus,
    MalibuInteractive,
    Angel,
    BulletProofSoftware,
    Irem,
    Absolute,
    AcclaimEntertainment,
    Activision,
    SammyUsaCorporation,
    HiTechExpressions,
    Ljn,
    Matchbox,
    Mattel,
    MiltonBradleyCompany,
    TitusInteractive,
    VirginGamesLtd,
    LucasfilmGames,
    OceanSoftware,
    Infogrames,
    InterplayEntertainment,
    Broderbund,
    SculpturedSoftware,
    TheSalesCurveLimited,
    Thq,
    Accolade,
    MisawaEntertainment,
    Lozc,
    TokumaShoten,
    TsukudaOriginal,
    ChunsoftCo,
    VideoSystem,
    Varie,
    YonezawaSpal,
    Kaneko,
    PackInVideo,
    BottomUp,
    KonamiYuGiOh,
    Mto,
    Kodansha,
    Unknown(char, char),
}

impl NewLicenseeCode {
    /// The publisher that two characters name.
    pub open spec fn of_chars(code: (char, char)) -> NewLicenseeCode {
        match code {
            ('0', '0') => NewLicenseeCode::NoLicensee,
            ('0', '1') => NewLicenseeCode::NintendoResearchAndDevelopment,
            ('0', '8') => NewLicenseeCode::Capcom,
            ('1', '3') => NewLicenseeCode::ElectronicArts,
            ('1', '8') => NewLicenseeCode::HudsonSoft,
            ('1', '9') => NewLicenseeCode::BAi,
            ('2', '0') => NewLicenseeCode::Kss,
            ('2', '2') => NewLicenseeCode::PlanningOfficeWada,
            ('2', '4') => NewLicenseeCode::PcmComplete,
            ('2', '5') => NewLicenseeCode::SanX,
            ('2', '8') => NewLicenseeCode::Kemco,
            ('2', '9') => NewLicenseeCode::SetaCorporation,
            ('3', '0') => NewLicenseeCode::Viacom,
            ('3', '1') => NewLicenseeCode::Nintendo,
            ('3', '2') => NewLicenseeCode::Bandai,
            ('3', '3') => NewLicenseeCode::OceanSoftwareAcclaimEntertainment,
            ('3', '4') => NewLicenseeCode::Konami,
            ('3', '5') => NewLicenseeCode::HectorSoft,
            ('3', '7') => NewLicenseeCode::Taito,
            ('3', '8') => NewLicenseeCode::HudsonSoft,
            ('3', '9') => NewLicenseeCode::Banpresto,
            ('4', '1') => NewLicenseeCode::UbiSoft,
            ('4', '2') => NewLicenseeCode::Altus,
            ('4', '4') => NewLicenseeCode::MalibuInteractive,
            ('4', '6') => NewLicenseeCode::Angel,
            ('4', '7') => NewLicenseeCode::BulletProofSoftware,
            ('4', '9') => NewLicenseeCode::Irem,
            ('5', '0') => NewLicenseeCode::Absolute,
            ('5', '1') => NewLicenseeCode::AcclaimEntertainment,
            ('5', '2') => NewLicenseeCode::Activision,
            ('5', '3') => NewLicenseeCode::SammyUsaCorporation,
            ('5', '4') => NewLicenseeCode::Konami,
            ('5', '5') => NewLicenseeCode::HiTechExpressions,
            ('5', '6') => NewLicenseeCode::Ljn,
            ('5', '7') => NewLicenseeCode::Matchbox,
            ('5', '8') => NewLicenseeCode::Mattel,
            ('5', '9') => NewLicenseeCode::MiltonBradleyCompany,
            ('6', '0') => NewLicenseeCode::TitusInteractive,
            ('6', '1') => NewLicenseeCode::VirginGamesLtd,
            ('6', '4') => NewLicenseeCode::LucasfilmGames,
            ('6', '7') => NewLicenseeCode::OceanSoftware,
            ('6', '9') => NewLicenseeCode::ElectronicArts,
            ('7', '0') => NewLicenseeCode::Infogrames,
            ('7', '1') => NewLicenseeCode::InterplayEntertainment,
            ('7', '2') => NewLicenseeCode::Broderbund,
            ('7', '3') => NewLicenseeCode::SculpturedSoftware,
            ('7', '5') => NewLicenseeCode::TheSalesCurveLimited,
            ('7', '8') => NewLicenseeCode::Thq,
            ('7', '9') => NewLicenseeCode::Accolade,
            ('8', '0') => NewLicenseeCode::MisawaEntertainment,
            ('8', '3') => NewLicenseeCode::Lozc,
            ('8', '6') => NewLicenseeCode::TokumaShoten,
            ('8', '7') => NewLicenseeCode::TsukudaOriginal,
            ('9', '1') => NewLicenseeCode::ChunsoftCo,
            ('9', '2') => NewLicenseeCode::VideoSystem,
            ('9', '3') => NewLicenseeCode::OceanSoftwareAcclaimEntertainment,
            ('9', '5') => NewLicenseeCode::Varie,
            ('9', '6') => NewLicenseeCode::YonezawaSpal,
            ('9', '7') => NewLicenseeCode::Kaneko,
            ('9', '9') => NewLicenseeCode::PackInVideo,
            ('9', 'H') => NewLicenseeCode::BottomUp,
            ('A', '4') => NewLicenseeCode::KonamiYuGiOh,
            ('B', 'L') => NewLicenseeCode::Mto,
            ('D', 'K') => NewLicenseeCode::Kodansha,
            _ => NewLicenseeCode::Unknown(code.0, code.1),
        }
    }

    /// The name of the publisher, or `None` for a code that is not known.
    pub open spec fn known_name(self) -> Option<Seq<char>> {
        match self {
            NewLicenseeCode::NoLicensee => Some("None"@),
            NewLicenseeCode::NintendoResearchAndDevelopment => Some("Nintendo Research & Development 1"@),
            NewLicenseeCode::Capcom => Some("Capcom"@),
            NewLicenseeCode::ElectronicArts => Some("EA (Electronic Arts)"@),
            NewLicenseeCode::HudsonSoft => Some("Hudson Soft"@),
            NewLicenseeCode::BAi => Some("B-AI"@),
            NewLicenseeCode::Kss => Some("KSS"@),
            NewLicenseeCode::PlanningOfficeWada => Some("Planning Office WADA"@),
            NewLicenseeCode::PcmComplete => Some("PCM Complete"@),
            NewLicenseeCode::SanX => Some("San-X"@),
            NewLicenseeCode::Kemco => Some("Kemco"@),
            NewLicenseeCode::SetaCorporation => Some("SETA Corporation"@),
            NewLicenseeCode::Viacom => Some("Viacom"@),
            NewLicenseeCode::Nintendo => Some("Nintendo"@),
            NewLicenseeCode::Bandai => Some("Bandai"@),
            NewLicenseeCode::OceanSoftwareAcclaimEntertainment => Some("Ocean Software/Acclaim Entertainment"@),
            NewLicenseeCode::Konami => Some("Konami"@),
            NewLicenseeCode::HectorSoft => Some("HectorSoft"@),
            NewLicenseeCode::Taito => Some("Taito"@),
            NewLicenseeCode::Banpresto => Some("Banpresto"@),
            NewLicenseeCode::UbiSoft => Some("Ubi Soft"@),
            NewLicenseeCode::Altus => Some("Atlus"@),
            NewLicenseeCode::MalibuInteractive => Some("Malibu Interactive"@),
            NewLicenseeCode::Angel => Some("Angel"@),
            NewLicenseeCode::BulletProofSoftware => Some("Bullet-Proof Software"@),
            NewLicenseeCode::Irem => Some("Irem"@),
            NewLicenseeCode::Absolute => Some("Absolute"@),
            NewLicenseeCode::AcclaimEntertainment => Some("Acclaim Entertainment"@),
            NewLicenseeCode::Activision => Some("Activision"@),
            NewLicenseeCode::SammyUsaCorporation => Some("Sammy USA Corporation"@),
            NewLicenseeCode::HiTechExpressions => Some("Hi Tech Expressions"@),
            NewLicenseeCode::Ljn => Some("LJN"@),
            NewLicenseeCode::Matchbox => Some("Matchbox"@),
            NewLicenseeCode::Mattel => Some("Mattel"@),
            NewLicenseeCode::MiltonBradleyCompany => Some("Milton Bradley Company"@),
            NewLicenseeCode::TitusInteractive => Some("Titus Interactive"@),
            NewLicenseeCode::VirginGamesLtd => Some("Virgin Games Ltd."@),
            NewLicenseeCode::LucasfilmGames => Some("Lucasfilm Games"@),
            NewLicenseeCode::OceanSoftware => Some("Ocean Software"@),
            NewLicenseeCode::Infogrames => Some("Infogrames"@),
            NewLicenseeCode::InterplayEntertainment => Some("Interplay Entertainment"@),
            NewLicenseeCode::Broderbund => Some("Broderbund"@),
            NewLicenseeCode::SculpturedSoftware => Some("Sculptured Software"@),
            NewLicenseeCode::TheSalesCurveLimited => Some("The Sales Curve Limited"@),
            NewLicenseeCode::Thq => Some("THQ"@),
            NewLicenseeCode::Accolade => Some("Accolade"@),
            NewLicenseeCode::MisawaEntertainment => Some("Misawa Entertainment"@),
            NewLicenseeCode::Lozc => Some("lozc"@),
            NewLicenseeCode::TokumaShoten => Some("Tokuma Shoten"@),
            NewLicenseeCode::TsukudaOriginal => Some("Tsukuda Original"@),
            NewLicenseeCode::ChunsoftCo => Some("Chunsoft Co."@),
            NewLicenseeCode::VideoSystem => Some("Video System"@),
            NewLicenseeCode::Varie => Some("Varie"@),
            NewLicenseeCode::YonezawaSpal => Some("Yonezawa/S'Pal"@),
            NewLicenseeCode::Kaneko => Some("Kaneko"@),
            NewLicenseeCode::PackInVideo => Some("Pack-In-Video"@),
            NewLicenseeCode::BottomUp => Some("Bottom Up"@),
            NewLicenseeCode::KonamiYuGiOh => Some("Konami (Yu-Gi-Oh!)"@),
            NewLicenseeCode::Mto => Some("MTO"@),
            NewLicenseeCode::Kodansha => Some("Kodansha"@),
            NewLicenseeCode::Unknown(_, _) => None,
        }
    }

    /// The name of the publisher, or `None` for a code that is not known.
    pub fn name(&self) -> (name: Option<&'static str>)
        ensures
            name is Some == self.known_name() is Some,
            name matches Some(text) ==> text@ == self.known_name()->Some_0,
    {
        match self {
            NewLicenseeCode::NoLicensee => Some("None"),
            NewLicenseeCode::NintendoResearchAndDevelopment => Some("Nintendo Research & Development 1"),
            NewLicenseeCode::Capcom => Some("Capcom"),
            NewLicenseeCode::ElectronicArts => Some("EA (Electronic Arts)"),
            NewLicenseeCode::HudsonSoft => Some("Hudson Soft"),
            NewLicenseeCode::BAi => Some("B-AI"),
            NewLicenseeCode::Kss => Some("KSS"),
            NewLicenseeCode::PlanningOfficeWada => Some("Planning Office WADA"),
            NewLicenseeCode::PcmComplete => Some("PCM Complete"),
            NewLicenseeCode::SanX => Some("San-X"),
            NewLicenseeCode::Kemco => Some("Kemco"),
            NewLicenseeCode::SetaCorporation => Some("SETA Corporation"),
            NewLicenseeCode::Viacom => Some("Viacom"),
            NewLicenseeCode::Nintendo => Some("Nintendo"),
            NewLicenseeCode::Bandai => Some("Bandai"),
            NewLicenseeCode::OceanSoftwareAcclaimEntertainment => Some("Ocean Software/Acclaim Entertainment"),
            NewLicenseeCode::Konami => Some("Konami"),
            NewLicenseeCode::HectorSoft => Some("HectorSoft"),
            NewLicenseeCode::Taito => Some("Taito"),
            NewLicenseeCode::Banpresto => Some("Banpresto"),
            NewLicenseeCode::UbiSoft => Some("Ubi Soft"),
            NewLicenseeCode::Altus => Some("Atlus"),
            NewLicenseeCode::MalibuInteractive => Some("Malibu Interactive"),
            NewLicenseeCode::Angel => Some("Angel"),
            NewLicenseeCode::BulletProofSoftware => Some("Bullet-Proof Software"),
            NewLicenseeCode::Irem => Some("Irem"),
            NewLicenseeCode::Absolute => Some("Absolute"),
            NewLicenseeCode::AcclaimEntertainment => Some("Acclaim Entertainment"),
            NewLicenseeCode::Activision => Some("Activision"),
            NewLicenseeCode::SammyUsaCorporation => Some("Sammy USA Corporation"),
            NewLicenseeCode::HiTechExpressions => Some("Hi Tech Expressions"),
            NewLicenseeCode::Ljn => Some("LJN"),
            NewLicenseeCode::Matchbox => Some("Matchbox"),
            NewLicenseeCode::Mattel => Some("Mattel"),
            NewLicenseeCode::MiltonBradleyCompany => Some("Milton Bradley Company"),
            NewLicenseeCode::TitusInteractive => Some("Titus Interactive"),
            NewLicenseeCode::VirginGamesLtd => Some("Virgin Games Ltd."),
            NewLicenseeCode::LucasfilmGames => Some("Lucasfilm Games"),
            NewLicenseeCode::OceanSoftware => Some("Ocean Software"),
            NewLicenseeCode::Infogrames => Some("Infogrames"),
            NewLicenseeCode::InterplayEntertainment => Some("Interplay Entertainment"),
            NewLicenseeCode::Broderbund => Some("Broderbund"),
            NewLicenseeCode::SculpturedSoftware => Some("Sculptured Software"),
            NewLicenseeCode::TheSalesCurveLimited => Some("The Sales Curve Limited"),
            NewLicenseeCode::Thq => Some("THQ"),
            NewLicenseeCode::Accolade => Some("Accolade"),
            NewLicenseeCode::MisawaEntertainment => Some("Misawa Entertainment"),
            NewLicenseeCode::Lozc => Some("lozc"),
            NewLicenseeCode::TokumaShoten => Some("Tokuma Shoten"),
            NewLicenseeCode::TsukudaOriginal => Some("Tsukuda Original"),
            NewLicenseeCode::ChunsoftCo => Some("Chunsoft Co."),
            NewLicenseeCode::VideoSystem => Some("Video System"),
            NewLicenseeCode::Varie => Some("Varie"),
            NewLicenseeCode::YonezawaSpal => Some("Yonezawa/S'Pal"),
            NewLicenseeCode::Kaneko => Some("Kaneko"),
            NewLicenseeCode::PackInVideo => Some("Pack-In-Video"),
            NewLicenseeCode::BottomUp => Some("Bottom Up"),
            NewLicenseeCode::KonamiYuGiOh => Some("Konami (Yu-Gi-Oh!)"),
            NewLicenseeCode::Mto => Some("MTO"),
            NewLicenseeCode::Kodansha => Some("Kodansha"),
            NewLicenseeCode::Unknown(_, _) => None,
        }
    }

    /// The text that shows the publisher: its name, or `Unknown` and the
    /// two characters of a code that is not known.
    pub open spec fn text(self) -> Seq<char> {
        match self {
            NewLicenseeCode::Unknown(first, second) => "Unknown ("@ + seq![first, second] + ")"@,
            _ => self.known_name()->Some_0,
        }
    }

    /// The text that shows the publisher.
    pub fn to_string(&self) -> (text: String)
        ensures
            text@ == self.text(),
    {
        match self.name() {
            Some(name) => name.to_owned(),
            None => {
                let mut chars: Vec<char> = Vec::new();
                push_text(&mut chars, "Unknown (");
                match self {
                    NewLicenseeCode::Unknown(first, second) => {
                        chars.push(*first);
                        chars.push(*second);
                    },
                    _ => {},
                }
                push_text(&mut chars, ")");
                assert(chars@ =~= self.text());
                string_of_chars(&chars)
            },
        }
    }
}

impl From<(char, char)> for NewLicenseeCode {
    fn from(value: (char, char)) -> (code: NewLicenseeCode) {
        match value {
            ('0', '0') => Self::NoLicensee,
            ('0', '1') => Self::NintendoResearchAndDevelopment,
            ('0', '8') => Self::Capcom,
            ('1', '3') => Self::ElectronicArts,
            ('1', '8') => Self::HudsonSoft,
            ('1', '9') => Self::BAi,
            ('2', '0') => Self::Kss,
            ('2', '2') => Self::PlanningOfficeWada,
            ('2', '4') => Self::PcmComplete,
            ('2', '5') => Self::SanX,
            ('2', '8') => Self::Kemco,
            ('2', '9') => Self::SetaCorporation,
            ('3', '0') => Self::Viacom,
            ('3', '1') => Self::Nintendo,
            ('3', '2') => Self::Bandai,
            ('3', '3') => Self::OceanSoftwareAcclaimEntertainment,
            ('3', '4') => Self::Konami,
            ('3', '5') => Self::HectorSoft,
            ('3', '7') => Self::Taito,
            ('3', '8') => Self::HudsonSoft,
            ('3', '9') => Self::Banpresto,
            ('4', '1') => Self::UbiSoft,
            ('4', '2') => Self::Altus,
            ('4', '4') => Self::MalibuInteractive,
            ('4', '6') => Self::Angel,
            ('4', '7') => Self::BulletProofSoftware,
            ('4', '9') => Self::Irem,
            ('5', '0') => Self::Absolute,
            ('5', '1') => Self::AcclaimEntertainment,
            ('5', '2') => Self::Activision,
            ('5', '3') => Self::SammyUsaCorporation,
            ('5', '4') => Self::Konami,
            ('5', '5') => Self::HiTechExpressions,
            ('5', '6') => Self::Ljn,
            ('5', '7') => Self::Matchbox,
            ('5', '8') => Self::Mattel,
            ('5', '9') => Self::MiltonBradleyCompany,
            ('6', '0') => Self::TitusInteractive,
            ('6', '1') => Self::VirginGamesLtd,
            ('6', '4') => Self::LucasfilmGames,
            ('6', '7') => Self::OceanSoftware,
            ('6', '9') => Self::ElectronicArts,
            ('7', '0') => Self::Infogrames,
            ('7', '1') => Self::InterplayEntertainment,
            ('7', '2') => Self::Broderbund,
            ('7', '3') => Self::SculpturedSoftware,
            ('7', '5') => Self::TheSalesCurveLimited,
            ('7', '8') => Self::Thq,
            ('7', '9') => Self::Accolade,
            ('8', '0') => Self::MisawaEntertainment,
            ('8', '3') => Self::Lozc,
            ('8', '6') => Self::TokumaShoten,
            ('8', '7') => Self::TsukudaOriginal,
            ('9', '1') => Self::ChunsoftCo,
            ('9', '2') => Self::VideoSystem,
            ('9', '3') => Self::OceanSoftwareAcclaimEntertainment,
            ('9', '5') => Self::Varie,
            ('9', '6') => Self::YonezawaSpal,
            ('9', '7') => Self::Kaneko,
            ('9', '9') => Self::PackInVideo,
            ('9', 'H') => Self::BottomUp,
            ('A', '4') => Self::KonamiYuGiOh,
            ('B', 'L') => Self::Mto,
            ('D', 'K') => Self::Kodansha,
            _ => Self::Unknown(value.0, value.1),
        }
    }
}

impl FromSpecImpl<(char, char)> for NewLicenseeCode {
    open spec fn obeys_from_spec() -> bool {
        true
    }

    open spec fn from_spec(value: (char, char)) -> NewLicenseeCode {
        NewLicenseeCode::of_chars(value)
    }
}

/// The publisher of the cartridge as the byte at 0x014B names it.
#[derive(Clone, Copy, Debug, PartialEq, Eq, Structural)]
pub enum OldLicenseeCode {
    NoLicensee,
    Nintendo,
    Capcom,
    HotB,
    Jaleco,
    CoconutsJapan,
    EliteSystems,
    ElectronicArts,
    HudsonSoft,
    ItcEntertainment,
    Yanoman,
    JapanClary,
    VirginGamesLtd,
    PcmComplete,
    SanX,
    Kemco,
    SetaCorporation,
    Infogrames,
    Bandai,
    UseNewLicenseeCode,
    Konami,
    HectorSoft,
    Banpresto,
    EntertainmentInteractive,
    Gremlin,
    UbiSoft,
    Atlus,
    MalibuInteractive,
    Angel,
    SpectrumHoloByte,
    Irem,
    UsGold,
    Absolute,
    AcclaimEntertainment,
    Activision,
    SammyUsaCorporation,
    GameTek,
    ParkPlace,
    Ljn,
    Matchbox,
    MiltonBradleyCompany,
    Mindscape,
    Romstar,
    NaxatSoft,
    Tradewest,
    TitusInteractive,
    OceanSoftware,
    ElectroBrain,
    InterplayEntertainment,
    Broderbund,
    SculpturedSoftware,
    TheSalesCurveLimited,
    Thq,
    Accolade,
    TriffixEntertainment,
    MicroProse,
    LozcG,
    BulletProofSoftware,
    VicTokaiCorp,
    ApeInc,
    IMax,
    ChunsoftCo,
    VideoSystem,
    TsubarayaProductions,
    Varie,
    YonezawaSpal,
    Arc,
    NihonBussan,
    Tecmo,
    Imagineer,
    Nova,
    HoriElectric,
    Kawada,
    Takara,
    TechnosJapan,
    ToeiAnimation,
    Toho,
    Namco,
    AsciiCorporation,
    SquareEnix,
    HalLaboratory,
    Snk,
    PonyCanyon,
    CultureBrain,
    Sunsoft,
    SonyImagesoft,
    SammyCorporation,
    Taito,
    Square,
    DataEast,
    TonkinHouse,
    Koei,
    Ufl,
    UltraGames,
    VapInc,
    UseCorporation,
    Meldac,
    Epoch,
    Athena,
    AsmikAceEntertainment,
    Natsume,
    KingRecords,
    EpicSonyRecords,
    Igs,
    AWave,
    ExtremeEntertainment,
    Unknown(u8),
}

impl OldLicenseeCode {
    /// The publisher that a header byte names.
    pub open spec fn of_byte(value: u8) -> OldLicenseeCode {
        match value {
            0x00 => OldLicenseeCode::NoLicensee,
            0x01 => OldLicenseeCode::Nintendo,
            0x08 => OldLicenseeCode::Capcom,
            0x09 => OldLicenseeCode::HotB,
            0x0A => OldLicenseeCode::Jaleco,
            0x0B => OldLicenseeCode::CoconutsJapan,
            0x0C => OldLicenseeCode::EliteSystems,
            0x13 => OldLicenseeCode::ElectronicArts,
            0x18 => OldLicenseeCode::HudsonSoft,
            0x19 => OldLicenseeCode::ItcEntertainment,
            0x1A => OldLicenseeCode::Yanoman,
            0x1D => OldLicenseeCode::JapanClary,
            0x1F => OldLicenseeCode::VirginGamesLtd,
            0x24 => OldLicenseeCode::PcmComplete,
            0x25 => OldLicenseeCode::SanX,
            0x28 => OldLicenseeCode::Kemco,
            0x29 => OldLicenseeCode::SetaCorporation,
            0x30 => OldLicenseeCode::Infogrames,
            0x31 => OldLicenseeCode::Nintendo,
            0x32 => OldLicenseeCode::Bandai,
            0x33 => OldLicenseeCode::UseNewLicenseeCode,
            0x34 => OldLicenseeCode::Konami,
            0x35 => OldLicenseeCode::HectorSoft,
            0x39 => OldLicenseeCode::Banpresto,
            0x3C => OldLicenseeCode::EntertainmentInteractive,
            0x3E => OldLicenseeCode::Gremlin,
            0x41 => OldLicenseeCode::UbiSoft,
            0x42 => OldLicenseeCode::Atlus,
            0x44 => OldLicenseeCode::MalibuInteractive,
            0x46 => OldLicenseeCode::Angel,
            0x47 => OldLicenseeCode::SpectrumHoloByte,
            0x49 => OldLicenseeCode::Irem,
            0x4F => OldLicenseeCode::UsGold,
            0x50 => OldLicenseeCode::Absolute,
            0x51 => OldLicenseeCode::AcclaimEntertainment,
            0x52 => OldLicenseeCode::Activision,
            0x53 => OldLicenseeCode::SammyUsaCorporation,
            0x54 => OldLicenseeCode::GameTek,
            0x55 => OldLicenseeCode::ParkPlace,
            0x56 => OldLicenseeCode::Ljn,
            0x57 => OldLicenseeCode::Matchbox,
            0x59 => OldLicenseeCode::MiltonBradleyCompany,
            0x5A => OldLicenseeCode::Mindscape,
            0x5B => OldLicenseeCode::Romstar,
            0x5C => OldLicenseeCode::NaxatSoft,
            0x5D => OldLicenseeCode::Tradewest,
            0x60 => OldLicenseeCode::TitusInteractive,
            0x67 => OldLicenseeCode::OceanSoftware,
            0x6F => OldLicenseeCode::ElectroBrain,
            0x71 => OldLicenseeCode::InterplayEntertainment,
            0x72 => OldLicenseeCode::Broderbund,
            0x73 => OldLicenseeCode::SculpturedSoftware,
            0x75 => OldLicenseeCode::TheSalesCurveLimited,
            0x78 => OldLicenseeCode::Thq,
            0x79 => OldLicenseeCode::Accolade,
            0x7A => OldLicenseeCode::TriffixEntertainment,
            0x7C => OldLicenseeCode::MicroProse,
            0x83 => OldLicenseeCode::LozcG,
            0x8B => OldLicenseeCode::BulletProofSoftware,
            0x8C => OldLicenseeCode::VicTokaiCorp,
            0x8E => OldLicenseeCode::ApeInc,
            0x8F => OldLicenseeCode::IMax,
            0x91 => OldLicenseeCode::ChunsoftCo,
            0x92 => OldLicenseeCode::VideoSystem,
            0x93 => OldLicenseeCode::TsubarayaProductions,
            0x95 => OldLicenseeCode::Varie,
            0x96 => OldLicenseeCode::YonezawaSpal,
            0x99 => OldLicenseeCode::Arc,
            _ => OldLicenseeCode::Unknown(value),
        }
    }

    /// The name of the publisher, or `None` for a code that is not known.
    pub open spec fn known_name(self) -> Option<Seq<char>> {
        match self {
            OldLicenseeCode::NoLicensee => Some("None"@),
            OldLicenseeCode::Nintendo => Some("Nintendo"@),
            OldLicenseeCode::Capcom => Some("Capcom"@),
            OldLicenseeCode::HotB => Some("HOT-B"@),
            OldLicenseeCode::Jaleco => Some("Jaleco"@),
            OldLicenseeCode::CoconutsJapan => Some("Coconuts Japan"@),
            OldLicenseeCode::EliteSystems => Some("Elite Systems"@),
            OldLicenseeCode::ElectronicArts => Some("EA (Electronic Arts)"@),
            OldLicenseeCode::HudsonSoft => Some("Hudson Soft"@),
            OldLicenseeCode::ItcEntertainment => Some("ITC Entertainment"@),
            OldLicenseeCode::Yanoman => Some("Yanoman"@),
            OldLicenseeCode::JapanClary => Some("Japan Clary"@),
            OldLicenseeCode::VirginGamesLtd => Some("Virgin Games Ltd."@),
            OldLicenseeCode::PcmComplete => Some("PCM Complete"@),
            OldLicenseeCode::SanX => Some("San-X"@),
            OldLicenseeCode::Kemco => Some("Kemco"@),
            OldLicenseeCode::SetaCorporation => Some("SETA Corporation"@),
            OldLicenseeCode::Infogrames => Some("Infogrames"@),
            OldLicenseeCode::Bandai => Some("Bandai"@),
            OldLicenseeCode::UseNewLicenseeCode => Some("[Use New Licensee Code]"@),
            OldLicenseeCode::Konami => Some("Konami"@),
            OldLicenseeCode::HectorSoft => Some("HectorSoft"@),
            OldLicenseeCode::Banpresto => Some("Banpresto"@),
            OldLicenseeCode::EntertainmentInteractive => Some("Entertainment Interactive"@),
            OldLicenseeCode::Gremlin => Some("Gremlin"@),
            OldLicenseeCode::UbiSoft => Some("Ubi Soft"@),
            OldLicenseeCode::Atlus => Some("Atlus"@),
            OldLicenseeCode::MalibuInteractive => Some("Malibu Interactive"@),
            OldLicenseeCode::Angel => Some("Angel"@),
            OldLicenseeCode::SpectrumHoloByte => Some("Spectrum HoloByte"@),
            OldLicenseeCode::Irem => Some("Irem"@),
            OldLicenseeCode::UsGold => Some("U.S. Gold"@),
            OldLicenseeCode::Absolute => Some("Absolute"@),
            OldLicenseeCode::AcclaimEntertainment => Some("Acclaim Entertainment"@),
            OldLicenseeCode::Activision => Some("Activision"@),
            OldLicenseeCode::SammyUsaCorporation => Some("Sammy USA Corporation"@),
            OldLicenseeCode::GameTek => Some("GameTek"@),
            OldLicenseeCode::ParkPlace => Some("Park Place"@),
            OldLicenseeCode::Ljn => Some("LJN"@),
            OldLicenseeCode::Matchbox => Some("Matchbox"@),
            OldLicenseeCode::MiltonBradleyCompany => Some("Milton Bradley Company"@),
            OldLicenseeCode::Mindscape => Some("Mindscape"@),
            OldLicenseeCode::Romstar => Some("Romstar"@),
            OldLicenseeCode::NaxatSoft => Some("Naxat Soft"@),
            OldLicenseeCode::Tradewest => Some("Tradewest"@),
            OldLicenseeCode::TitusInteractive => Some("Titus Interactive"@),
            OldLicenseeCode::OceanSoftware => Some("Ocean Software"@),
            OldLicenseeCode::ElectroBrain => Some("Electro Brain"@),
            OldLicenseeCode::InterplayEntertainment => Some("Interplay Entertainment"@),
            OldLicenseeCode::Broderbund => Some("Broderbund"@),
            OldLicenseeCode::SculpturedSoftware => Some("Sculptured Software"@),
            OldLicenseeCode::TheSalesCurveLimited => Some("The Sales Curve Limited"@),
            OldLicenseeCode::Thq => Some("THQ"@),
            OldLicenseeCode::Accolade => Some("Accolade"@),
            OldLicenseeCode::TriffixEntertainment => Some("Triffix Entertainment"@),
            OldLicenseeCode::MicroProse => Some("MicroProse"@),
            OldLicenseeCode::LozcG => Some("LOZC G."@),
            OldLicenseeCode::BulletProofSoftware => Some("Bullet-Proof Software"@),
            OldLicenseeCode::VicTokaiCorp => Some("Vic Tokai Corp."@),
            OldLicenseeCode::ApeInc => Some("Ape Inc."@),
            OldLicenseeCode::IMax => Some("I'Max"@),
            OldLicenseeCode::ChunsoftCo => Some("Chunsoft Co."@),
            OldLicenseeCode::VideoSystem => Some("Video System"@),
            OldLicenseeCode::TsubarayaProductions => Some("Tsubaraya Productions"@),
            OldLicenseeCode::Varie => Some("Varie"@),
            OldLicenseeCode::YonezawaSpal => Some("Yonezawa/S'Pal"@),
            OldLicenseeCode::Arc => Some("Arc"@),
            OldLicenseeCode::NihonBussan => Some("Nihon Bussan"@),
            OldLicenseeCode::Tecmo => Some("Tecmo"@),
            OldLicenseeCode::Imagineer => Some("Imagineer"@),
            OldLicenseeCode::Nova => Some("Nova"@),
            OldLicenseeCode::HoriElectric => Some("Hori Electric"@),
            OldLicenseeCode::Kawada => Some("Kawada"@),
            OldLicenseeCode::Takara => Some("Takara"@),
            OldLicenseeCode::TechnosJapan => Some("Technos Japan"@),
            OldLicenseeCode::ToeiAnimation => Some("Toei Animation"@),
            OldLicenseeCode::Toho => Some("Toho"@),
            OldLicenseeCode::Namco => Some("Namco"@),
            OldLicenseeCode::AsciiCorporation => Some("ASCII Corporation"@),
            OldLicenseeCode::SquareEnix => Some("Square Enix"@),
            OldLicenseeCode::HalLaboratory => Some("HAL Laboratory"@),
            OldLicenseeCode::Snk => Some("SNK"@),
            OldLicenseeCode::PonyCanyon => Some("Pony Canyon"@),
            OldLicenseeCode::CultureBrain => Some("Culture Brain"@),
            OldLicenseeCode::Sunsoft => Some("Sunsoft"@),
            OldLicenseeCode::SonyImagesoft => Some("Sony Imagesoft"@),
            OldLicenseeCode::SammyCorporation => Some("Sammy Corporation"@),
            OldLicenseeCode::Taito => Some("Taito"@),
            OldLicenseeCode::Square => Some("Square"@),
            OldLicenseeCode::DataEast => Some("Data East"@),
            OldLicenseeCode::TonkinHouse => Some("Tonkin House"@),
            OldLicenseeCode::Koei => Some("Koei"@),
            OldLicenseeCode::Ufl => Some("UFL"@),
            OldLicenseeCode::UltraGames => Some("Ultra Games"@),
            OldLicenseeCode::VapInc => Some("VAP, Inc."@),
            OldLicenseeCode::UseCorporation => Some("Use Corporation"@),
            OldLicenseeCode::Meldac => Some("Meldac"@),
            OldLicenseeCode::Epoch => Some("Epoch"@),
            OldLicenseeCode::Athena => Some("Athena"@),
            OldLicenseeCode::AsmikAceEntertainment => Some("Asmik Ace Entertainment"@),
            OldLicenseeCode::Natsume => Some("Natsume"@),
            OldLicenseeCode::KingRecords => Some("King Records"@),
            OldLicenseeCode::EpicSonyRecords => Some("Epic/Sony Records"@),
            OldLicenseeCode::Igs => Some("IGS"@),
            OldLicenseeCode::AWave => Some("A Wave"@),
            OldLicenseeCode::ExtremeEntertainment => Some("Extreme Entertainment"@),
            OldLicenseeCode::Unknown(_) => None,
        }
    }

    /// The name of the publisher, or `None` for a code that is not known.
    pub fn name(&self) -> (name: Option<&'static str>)
        ensures
            name is Some == self.known_name() is Some,
            name matches Some(text) ==> text@ == self.known_name()->Some_0,
    {
        match self {
            OldLicenseeCode::NoLicensee => Some("None"),
            OldLicenseeCode::Nintendo => Some("Nintendo"),
            OldLicenseeCode::Capcom => Some("Capcom"),
            OldLicenseeCode::HotB => Some("HOT-B"),
            OldLicenseeCode::Jaleco => Some("Jaleco"),
            OldLicenseeCode::CoconutsJapan => Some("Coconuts Japan"),
            OldLicenseeCode::EliteSystems => Some("Elite Systems"),
            OldLicenseeCode::ElectronicArts => Some("EA (Electronic Arts)"),
            OldLicenseeCode::HudsonSoft => Some("Hudson Soft"),
            OldLicenseeCode::ItcEntertainment => Some("ITC Entertainment"),
            OldLicenseeCode::Yanoman => Some("Yanoman"),
            OldLicenseeCode::JapanClary => Some("Japan Clary"),
            OldLicenseeCode::VirginGamesLtd => Some("Virgin Games Ltd."),
            OldLicenseeCode::PcmComplete => Some("PCM Complete"),
            OldLicenseeCode::SanX => Some("San-X"),
            OldLicenseeCode::Kemco => Some("Kemco"),
            OldLicenseeCode::SetaCorporation => Some("SETA Corporation"),
            OldLicenseeCode::Infogrames => Some("Infogrames"),
            OldLicenseeCode::Bandai => Some("Bandai"),
            OldLicenseeCode::UseNewLicenseeCode => Some("[Use New Licensee Code]"),
            OldLicenseeCode::Konami => Some("Konami"),
            OldLicenseeCode::HectorSoft => Some("HectorSoft"),
            OldLicenseeCode::Banpresto => Some("Banpresto"),
            OldLicenseeCode::EntertainmentInteractive => Some("Entertainment Interactive"),
            OldLicenseeCode::Gremlin => Some("Gremlin"),
            OldLicenseeCode::UbiSoft => Some("Ubi Soft"),
            OldLicenseeCode::Atlus => Some("Atlus"),
            OldLicenseeCode::MalibuInteractive => Some("Malibu Interactive"),
            OldLicenseeCode::Angel => Some("Angel"),
            OldLicenseeCode::SpectrumHoloByte => Some("Spectrum HoloByte"),
            OldLicenseeCode::Irem => Some("Irem"),
            OldLicenseeCode::UsGold => Some("U.S. Gold"),
            OldLicenseeCode::Absolute => Some("Absolute"),
            OldLicenseeCode::AcclaimEntertainment => Some("Acclaim Entertainment"),
            OldLicenseeCode::Activision => Some("Activision"),
            OldLicenseeCode::SammyUsaCorporation => Some("Sammy USA Corporation"),
            OldLicenseeCode::GameTek => Some("GameTek"),
            OldLicenseeCode::ParkPlace => Some("Park Place"),
            OldLicenseeCode::Ljn => Some("LJN"),
            OldLicenseeCode::Matchbox => Some("Matchbox"),
            OldLicenseeCode::MiltonBradleyCompany => Some("Milton Bradley Company"),
            OldLicenseeCode::Mindscape => Some("Mindscape"),
            OldLicenseeCode::Romstar => Some("Romstar"),
            OldLicenseeCode::NaxatSoft => Some("Naxat Soft"),
            OldLicenseeCode::Tradewest => Some("Tradewest"),
            OldLicenseeCode::TitusInteractive => Some("Titus Interactive"),
            OldLicenseeCode::OceanSoftware => Some("Ocean Software"),
            OldLicenseeCode::ElectroBrain => Some("Electro Brain"),
            OldLicenseeCode::InterplayEntertainment => Some("Interplay Entertainment"),
            OldLicenseeCode::Broderbund => Some("Broderbund"),
            OldLicenseeCode::SculpturedSoftware => Some("Sculptured Software"),
            OldLicenseeCode::TheSalesCurveLimited => Some("The Sales Curve Limited"),
            OldLicenseeCode::Thq => Some("THQ"),
            OldLicenseeCode::Accolade => Some("Accolade"),
            OldLicenseeCode::TriffixEntertainment => Some("Triffix Entertainment"),
            OldLicenseeCode::MicroProse => Some("MicroProse"),
            OldLicenseeCode::LozcG => Some("LOZC G."),
            OldLicenseeCode::BulletProofSoftware => Some("Bullet-Proof Software"),
            OldLicenseeCode::VicTokaiCorp => Some("Vic Tokai Corp."),
            OldLicenseeCode::ApeInc => Some("Ape Inc."),
            OldLicenseeCode::IMax => Some("I'Max"),
            OldLicenseeCode::ChunsoftCo => Some("Chunsoft Co."),
            OldLicenseeCode::VideoSystem => Some("Video System"),
            OldLicenseeCode::TsubarayaProductions => Some("Tsubaraya Productions"),
            OldLicenseeCode::Varie => Some("Varie"),
            OldLicenseeCode::YonezawaSpal => Some("Yonezawa/S'Pal"),
            OldLicenseeCode::Arc => Some("Arc"),
            OldLicenseeCode::NihonBussan => Some("Nihon Bussan"),
            OldLicenseeCode::Tecmo => Some("Tecmo"),
            OldLicenseeCode::Imagineer => Some("Imagineer"),
            OldLicenseeCode::Nova => Some("Nova"),
            OldLicenseeCode::HoriElectric => Some("Hori Electric"),
            OldLicenseeCode::Kawada => Some("Kawada"),
            OldLicenseeCode::Takara => Some("Takara"),
            OldLicenseeCode::TechnosJapan => Some("Technos Japan"),
            OldLicenseeCode::ToeiAnimation => Some("Toei Animation"),
            OldLicenseeCode::Toho => Some("Toho"),
            OldLicenseeCode::Namco => Some("Namco"),
            OldLicenseeCode::AsciiCorporation => Some("ASCII Corporation"),
            OldLicenseeCode::SquareEnix => Some("Square Enix"),
            OldLicenseeCode::HalLaboratory => Some("HAL Laboratory"),
            OldLicenseeCode::Snk => Some("SNK"),
            OldLicenseeCode::PonyCanyon => Some("Pony Canyon"),
            OldLicenseeCode::CultureBrain => Some("Culture Brain"),
            OldLicenseeCode::Sunsoft => Some("Sunsoft"),
            OldLicenseeCode::SonyImagesoft => Some("Sony Imagesoft"),
            OldLicenseeCode::SammyCorporation => Some("Sammy Corporation"),
            OldLicenseeCode::Taito => Some("Taito"),
            OldLicenseeCode::Square => Some("Square"),
            OldLicenseeCode::DataEast => Some("Data East"),
            OldLicenseeCode::TonkinHouse => Some("Tonkin House"),
            OldLicenseeCode::Koei => Some("Koei"),
            OldLicenseeCode::Ufl => Some("UFL"),
            OldLicenseeCode::UltraGames => Some("Ultra Games"),
            OldLicenseeCode::VapInc => Some("VAP, Inc."),
            OldLicenseeCode::UseCorporation => Some("Use Corporation"),
            OldLicenseeCode::Meldac => Some("Meldac"),
            OldLicenseeCode::Epoch => Some("Epoch"),
            OldLicenseeCode::Athena => Some("Athena"),
            OldLicenseeCode::AsmikAceEntertainment => Some("Asmik Ace Entertainment"),
            OldLicenseeCode::Natsume => Some("Natsume"),
            OldLicenseeCode::KingRecords => Some("King Records"),
            OldLicenseeCode::EpicSonyRecords => Some("Epic/Sony Records"),
            OldLicenseeCode::Igs => Some("IGS"),
            OldLicenseeCode::AWave => Some("A Wave"),
            OldLicenseeCode::ExtremeEntertainment => Some("Extreme Entertainment"),
            OldLicenseeCode::Unknown(_) => None,
        }
    }

    /// The text that shows the publisher: its name, or `Unknown` and the
    /// two hexadecimal digits of a code that is not known.
    pub open spec fn text(self) -> Seq<char> {
        match self {
            OldLicenseeCode::Unknown(code) => "Unknown ("@ + hex_byte(code, true) + ")"@,
            _ => self.known_name()->Some_0,
        }
    }

    /// The text that shows the publisher.
    pub fn to_string(&self) -> (text: String)
        ensures
            text@ == self.text(),
    {
        match self.name() {
            Some(name) => name.to_owned(),
            None => {
                let mut chars: Vec<char> = Vec::new();
                push_text(&mut chars, "Unknown (");
                match self {
                    OldLicenseeCode::Unknown(code) => {
                        push_hex_byte(&mut chars, *code, true);
                    },
                    _ => {},
                }
                push_text(&mut chars, ")");
                assert(chars@ =~= self.text());
                string_of_chars(&chars)
            },
        }
    }
}

impl From<u8> for OldLicenseeCode {
    fn from(value: u8) -> (code: OldLicenseeCode) {
        match value {
            0x00 => Self::NoLicensee,
            0x01 => Self::Nintendo,
            0x08 => Self::Capcom,
            0x09 => Self::HotB,
            0x0A => Self::Jaleco,
            0x0B => Self::CoconutsJapan,
            0x0C => Self::EliteSystems,
            0x13 => Self::ElectronicArts,
            0x18 => Self::HudsonSoft,
            0x19 => Self::ItcEntertainment,
            0x1A => Self::Yanoman,
            0x1D => Self::JapanClary,
            0x1F => Self::VirginGamesLtd,
            0x24 => Self::PcmComplete,
            0x25 => Self::SanX,
            0x28 => Self::Kemco,
            0x29 => Self::SetaCorporation,
            0x30 => Self::Infogrames,
            0x31 => Self::Nintendo,
            0x32 => Self::Bandai,
            0x33 => Self::UseNewLicenseeCode,
            0x34 => Self::Konami,
            0x35 => Self::HectorSoft,
            0x39 => Self::Banpresto,
            0x3C => Self::EntertainmentInteractive,
            0x3E => Self::Gremlin,
            0x41 => Self::UbiSoft,
            0x42 => Self::Atlus,
            0x44 => Self::MalibuInteractive,
            0x46 => Self::Angel,
            0x47 => Self::SpectrumHoloByte,
            0x49 => Self::Irem,
            0x4F => Self::UsGold,
            0x50 => Self::Absolute,
            0x51 => Self::AcclaimEntertainment,
            0x52 => Self::Activision,
            0x53 => Self::SammyUsaCorporation,
            0x54 => Self::GameTek,
            0x55 => Self::ParkPlace,
            0x56 => Self::Ljn,
            0x57 => Self::Matchbox,
            0x59 => Self::MiltonBradleyCompany,
            0x5A => Self::Mindscape,
            0x5B => Self::Romstar,
            0x5C => Self::NaxatSoft,
            0x5D => Self::Tradewest,
            0x60 => Self::TitusInteractive,
            0x67 => Self::OceanSoftware,
            0x6F => Self::ElectroBrain,
            0x71 => Self::InterplayEntertainment,
            0x72 => Self::Broderbund,
            0x73 => Self::SculpturedSoftware,
            0x75 => Self::TheSalesCurveLimited,
            0x78 => Self::Thq,
            0x79 => Self::Accolade,
            0x7A => Self::TriffixEntertainment,
            0x7C => Self::MicroProse,
            0x83 => Self::LozcG,
            0x8B => Self::BulletProofSoftware,
            0x8C => Self::VicTokaiCorp,
            0x8E => Self::ApeInc,
            0x8F => Self::IMax,
            0x91 => Self::ChunsoftCo,
            0x92 => Self::VideoSystem,
            0x93 => Self::TsubarayaProductions,
            0x95 => Self::Varie,
            0x96 => Self::YonezawaSpal,
            0x99 => Self::Arc,
            _ => Self::Unknown(value),
        }
    }
}

impl FromSpecImpl<u8> for OldLicenseeCode {
    open spec fn obeys_from_spec() -> bool {
        true
    }

    open spec fn from_spec(value: u8) -> OldLicenseeCode {
        OldLicenseeCode::of_byte(value)
    }
}

/// The publisher of the cartridge, by whichever code names it.
#[derive(Clone, Copy, Debug, PartialEq, Eq, Structural)]
pub enum Licensee {
    Old(OldLicenseeCode),
    New(NewLicenseeCode),
}

impl Licensee {
    /// The name of the publisher, or `None` for a code that is not known.
    pub fn name(&self) -> (name: Option<&'static str>)
        ensures
            name is Some == (match *self {
                Licensee::Old(code) => code.known_name(),
                Licensee::New(code) => code.known_name(),
            }) is Some,
            name matches Some(text) ==> text@ == (match *self {
                Licensee::Old(code) => code.known_name(),
                Licensee::New(code) => code.known_name(),
            })->Some_0,
    {
        match self {
            Licensee::Old(code) => code.name(),
            Licensee::New(code) => code.name(),
        }
    }

    /// The text that shows the publisher.
    pub open spec fn text(self) -> Seq<char> {
        match self {
            Licensee::Old(code) => code.text(),
            Licensee::New(code) => code.text(),
        }
    }

    /// The text that shows the publisher.
    pub fn to_string(&self) -> (text: String)
        ensures
            text@ == self.text(),
    {
        match self {
            Licensee::Old(code) => code.to_string(),
            Licensee::New(code) => code.to_string(),
        }
    }
}

/// The characters that the bytes of `bytes` from `start` up to `end` stand
/// for, each byte being the code of one character.
pub open spec fn chars_of(bytes: Seq<u8>, start: int, end: int) -> Seq<char> {
    Seq::new((end - start) as nat, |i: int| bytes[start + i] as char)
}

fn text_of(bytes: &[u8], start: usize, end: usize) -> (text: String)
    requires
        start <= end <= bytes@.len(),
    ensures
        text@ == chars_of(bytes@, start as int, end as int),
{
    let mut chars: Vec<char> = Vec::new();
    let mut i: usize = start;
    while i < end
        invariant
            start <= i <= end <= bytes@.len(),
            chars@ == chars_of(bytes@, start as int, i as int),
        decreases end - i,
    {
        chars.push(*slice_index_get(bytes, i) as char);
        assert(chars@ =~= chars_of(bytes@, start as int, i + 1));
        i += 1;
    }
    string_of_chars(&chars)
}

/// The four-character code of the maker of the game, from 0x013F.
#[derive(Clone, Debug)]
pub struct ManufacturerCode {
    code: String,
}

impl View for ManufacturerCode {
    type V = Seq<char>;

    closed spec fn view(&self) -> Seq<char> {
        self.code@
    }
}

impl ManufacturerCode {
    pub fn new(code: [char; 4]) -> (manufacturer: Self)
        ensures
            manufacturer@ == code@,
    {
        let mut chars: Vec<char> = Vec::new();
        chars.push(code[0]);
        chars.push(code[1]);
        chars.push(code[2]);
        chars.push(code[3]);
        assert(chars@ =~= code@);
        Self { code: string_of_chars(&chars) }
    }

    /// The code of four characters of code zero.
    pub fn zeroed() -> (manufacturer: Self)
        ensures
            manufacturer@ == Seq::new(4, |i: int| '\0'),
    {
        let manufacturer = Self::new(['\0'; 4]);
        assert(manufacturer@ =~= Seq::new(4, |i: int| '\0'));
        manufacturer
    }

    pub fn code(&self) -> (code: &String)
        ensures
            code@ == self@,
    {
        &self.code
    }
}

/// The first offset of the title in bank 0.
pub const TITLE_START: usize = 0x0134;

/// The offset after the last byte of the title.
pub const TITLE_END: usize = 0x0143;

/// The offset of the first byte of the title that is zero, which ends the
/// title, looked for from `from` on; the end of the title field if there is
/// none.
pub open spec fn title_end(bank0: Seq<u8>, from: int) -> int
    decreases TITLE_END - from,
{
    if from >= TITLE_END || bank0[from] == 0 {
        from
    } else {
        title_end(bank0, from + 1)
    }
}

/// Whether every byte of the header from `start` up to `end` is an ASCII
/// character.
pub open spec fn is_ascii_text(bank0: Seq<u8>, start: int, end: int) -> bool {
    forall|i: int| start <= i < end ==> #[trigger] bank0[i] < 0x80
}

/// The sum that the header checksum is made from, over the bytes from
/// 0x0134 up to `end`: every byte takes itself and one more off the sum.
pub open spec fn header_sum(bank0: Seq<u8>, end: int) -> int
    decreases end - 0x0134,
{
    if end <= 0x0134 {
        0
    } else {
        header_sum(bank0, end - 1) - bank0[end - 1] - 1
    }
}

/// The checksum of the header bytes 0x0134 to 0x014C.
pub open spec fn header_checksum(bank0: Seq<u8>) -> u8 {
    (header_sum(bank0, 0x014D) % 256) as u8
}

/// The sum of the bytes of `bytes` from `start` up to `end`.
pub open spec fn byte_sum(bytes: Seq<u8>, start: int, end: int) -> int
    decreases end - start,
{
    if end <= start {
        0
    } else {
        byte_sum(bytes, start, end - 1) + bytes[end - 1]
    }
}

/// The checksum of the whole ROM: the sum of all its bytes but the two that
/// hold the checksum itself.
pub open spec fn global_checksum(bank0: Seq<u8>, extra_banks: Seq<u8>) -> u16 {
    ((byte_sum(bank0, 0, 0x014E) + byte_sum(bank0, 0x0150, BANK_SIZE as int) + byte_sum(
        extra_banks,
        0,
        extra_banks.len() as int,
    )) % 0x1_0000) as u16
}

/// The record at the start of a cartridge that describes it.
#[derive(Clone, Debug)]
pub struct CartridgeHeader {
    title: String,
    manufacturer_code: ManufacturerCode,
    cgb_flag: CgbFlag,
    new_licensee_code: NewLicenseeCode,
    sgb_flag: SgbFlag,
    cartridge_type: CartridgeType,
    rom_size: RomSize,
    ram_size: RamSize,
    destination_code: DestinationCode,
    old_licensee_code: OldLicenseeCode,
    version_number: u8,
    read_header_checksum: u8,
    computed_header_checksum: u8,
    read_global_checksum: u16,
    computed_global_checksum: u16,
}

/// What a [`CartridgeHeader`] holds.
pub struct CartridgeHeaderView {
    pub title: Seq<char>,
    pub manufacturer_code: Seq<char>,
    pub cgb_flag: CgbFlag,
    pub new_licensee_code: NewLicenseeCode,
    pub sgb_flag: SgbFlag,
    pub cartridge_type: CartridgeType,
    pub rom_size: RomSize,
    pub ram_size: RamSize,
    pub destination_code: DestinationCode,
    pub old_licensee_code: OldLicenseeCode,
    pub version_number: u8,
    /// The header checksum that the cartridge states.
    pub read_header_checksum: u8,
    /// The header checksum that its bytes give.
    pub computed_header_checksum: u8,
    /// The global checksum that the cartridge states.
    pub read_global_checksum: u16,
    /// The global checksum that its bytes give.
    pub computed_global_checksum: u16,
}

impl CartridgeHeaderView {
    /// The publisher: the old code names it, unless the old code says that
    /// the new one does.
    pub open spec fn licensee(self) -> Licensee {
        if self.old_licensee_code == OldLicenseeCode::UseNewLicenseeCode {
            Licensee::New(self.new_licensee_code)
        } else {
            Licensee::Old(self.old_licensee_code)
        }
    }

    /// The header that the bytes of a ROM hold, or the reason why they hold
    /// none. `bank0` is the first bank and `extra_banks` the rest of the ROM.
    pub open spec fn parse(bank0: Seq<u8>, extra_banks: Seq<u8>) -> Result<
        CartridgeHeaderView,
        Error,
    > {
        if !is_ascii_text(bank0, TITLE_START as int, title_end(bank0, TITLE_START as int)) {
            Err(Error::InvalidCartridgeTitle)
        } else if CartridgeType::of_byte(bank0[0x0147]) is None {
            Err(Error::InvalidCartridgeType)
        } else if RomSize::of_byte(bank0[0x0148]) is None {
            Err(Error::InvalidCartridgeRomSize)
        } else if RamSize::of_byte(bank0[0x0149]) is None {
            Err(Error::InvalidCartridgeRamSize)
        } else if DestinationCode::of_byte(bank0[0x014A]) is None {
            Err(Error::InvalidCartridgeDestinationCode)
        } else {
            Ok(
                CartridgeHeaderView {
                    title: chars_of(bank0, TITLE_START as int, title_end(bank0, TITLE_START as int)),
                    manufacturer_code: chars_of(bank0, 0x013F, 0x0143),
                    cgb_flag: CgbFlag::of_byte(bank0[0x0143]),
                    new_licensee_code: NewLicenseeCode::of_chars(
                        (bank0[0x0144] as char, bank0[0x0145] as char),
                    ),
                    sgb_flag: SgbFlag::of_byte(bank0[0x0146]),
                    cartridge_type: CartridgeType::of_byte(bank0[0x0147])->Some_0,
                    rom_size: RomSize::of_byte(bank0[0x0148])->Some_0,
                    ram_size: RamSize::of_byte(bank0[0x0149])->Some_0,
                    destination_code: DestinationCode::of_byte(bank0[0x014A])->Some_0,
                    old_licensee_code: OldLicenseeCode::of_byte(bank0[0x014B]),
                    version_number: bank0[0x014C],
                    read_header_checksum: bank0[0x014D],
                    computed_header_checksum: header_checksum(bank0),
                    read_global_checksum: (bank0[0x014E] * 256 + bank0[0x014F]) as u16,
                    computed_global_checksum: global_checksum(bank0, extra_banks),
                },
            )
        }
    }
}

impl View for CartridgeHeader {
    type V = CartridgeHeaderView;

    closed spec fn view(&self) -> CartridgeHeaderView {
        CartridgeHeaderView {
            title: self.title@,
            manufacturer_code: self.manufacturer_code@,
            cgb_flag: self.cgb_flag,
            new_licensee_code: self.new_licensee_code,
            sgb_flag: self.sgb_flag,
            cartridge_type: self.cartridge_type,
            rom_size: self.rom_size,
            ram_size: self.ram_size,
            destination_code: self.destination_code,
            old_licensee_code: self.old_licensee_code,
            version_number: self.version_number,
            read_header_checksum: self.read_header_checksum,
            computed_header_checksum: self.computed_header_checksum,
            read_global_checksum: self.read_global_checksum,
            computed_global_checksum: self.computed_global_checksum,
        }
    }
}

impl CartridgeHeader {
    /// A header with the given fields, whose checksums are taken to match.
    pub fn new(
        title: &str,
        manufacturer_code: ManufacturerCode,
        cgb_flag: CgbFlag,
        new_licensee_code: NewLicenseeCode,
        sgb_flag: SgbFlag,
        cartridge_type: CartridgeType,
        rom_size: RomSize,
        ram_size: RamSize,
        destination_code: DestinationCode,
        old_licensee_code: OldLicenseeCode,
        version_number: u8,
        header_checksum: u8,
        global_checksum: u16,
    ) -> (header: Self)
        ensures
            header@ == (CartridgeHeaderView {
                title: title@,
                manufacturer_code: manufacturer_code@,
                cgb_flag,
                new_licensee_code,
                sgb_flag,
                cartridge_type,
                rom_size,
                ram_size,
                destination_code,
                old_licensee_code,
                version_number,
                read_header_checksum: header_checksum,
                computed_header_checksum: header_checksum,
                read_global_checksum: global_checksum,
                computed_global_checksum: global_checksum,
            }),
    {
        Self {
            title: title.to_owned(),
            manufacturer_code,
            new_licensee_code,
            sgb_flag,
            cgb_flag,
            cartridge_type,
            rom_size,
            ram_size,
            destination_code,
            old_licensee_code,
            version_number,
            read_header_checksum: header_checksum,
            computed_header_checksum: header_checksum,
            read_global_checksum: global_checksum,
            computed_global_checksum: global_checksum,
        }
    }

    pub fn title(&self) -> (title: &str)
        ensures
            title@ == self@.title,
    {
        self.title.as_str()
    }

    pub fn manufacturer_code(&self) -> (code: &ManufacturerCode)
        ensures
            code@ == self@.manufacturer_code,
    {
        &self.manufacturer_code
    }

    pub fn new_licensee_code(&self) -> (code: NewLicenseeCode)
        ensures
            code == self@.new_licensee_code,
    {
        self.new_licensee_code
    }

    pub fn sgb_flag(&self) -> (flag: SgbFlag)
        ensures
            flag == self@.sgb_flag,
    {
        self.sgb_flag
    }

    pub fn cgb_flag(&self) -> (flag: CgbFlag)
        ensures
            flag == self@.cgb_flag,
    {
        self.cgb_flag
    }

    pub fn cartridge_type(&self) -> (cartridge_type: CartridgeType)
        ensures
            cartridge_type == self@.cartridge_type,
    {
        self.cartridge_type
    }

    pub fn rom_size(&self) -> (size: RomSize)
        ensures
            size == self@.rom_size,
    {
        self.rom_size
    }

    pub fn ram_size(&self) -> (size: RamSize)
        ensures
            size == self@.ram_size,
    {
        self.ram_size
    }

    pub fn destination_code(&self) -> (code: DestinationCode)
        ensures
            code == self@.destination_code,
    {
        self.destination_code
    }

    pub fn old_licensee_code(&self) -> (code: OldLicenseeCode)
        ensures
            code == self@.old_licensee_code,
    {
        self.old_licensee_code
    }

    pub fn version_number(&self) -> (version: u8)
        ensures
            version == self@.version_number,
    {
        self.version_number
    }

    pub fn read_header_checksum(&self) -> (checksum: u8)
        ensures
            checksum == self@.read_header_checksum,
    {
        self.read_header_checksum
    }

    pub fn computed_header_checksum(&self) -> (checksum: u8)
        ensures
            checksum == self@.computed_header_checksum,
    {
        self.computed_header_checksum
    }

    /// Whether the header checksum that the cartridge states is the one
    /// that its bytes give.
    pub fn header_checksum_valid(&self) -> (valid: bool)
        ensures
            valid == (self@.read_header_checksum == self@.computed_header_checksum),
    {
        self.read_header_checksum == self.computed_header_checksum
    }

    pub fn read_global_checksum(&self) -> (checksum: u16)
        ensures
            checksum == self@.read_global_checksum,
    {
        self.read_global_checksum
    }

    pub fn computed_global_checksum(&self) -> (checksum: u16)
        ensures
            checksum == self@.computed_global_checksum,
    {
        self.computed_global_checksum
    }

    /// Whether the global checksum that the cartridge states is the one
    /// that its bytes give.
    pub fn global_checksum_valid(&self) -> (valid: bool)
        ensures
            valid == (self@.read_global_checksum == self@.computed_global_checksum),
    {
        self.read_global_checksum == self.computed_global_checksum
    }

    pub fn licensee(&self) -> (licensee: Licensee)
        ensures
            licensee == self@.licensee(),
    {
        match self.old_licensee_code {
            OldLicenseeCode::UseNewLicenseeCode => Licensee::New(self.new_licensee_code),
            c => Licensee::Old(c),
        }
    }
}

/// Reads the header out of the bytes of a ROM.
pub struct CartridgeHeaderReader {}

impl CartridgeHeaderReader {
    /// Reads the header of the ROM whose first bank is `bank0` and whose
    /// other bytes are `extra_banks`.
    pub fn read(bank0: &[u8], extra_banks: &[u8]) -> (header: Result<CartridgeHeader, Error>)
        requires
            bank0@.len() >= BANK_SIZE,
        ensures
            header matches Ok(parsed) ==> CartridgeHeaderView::parse(bank0@, extra_banks@) == Ok::<
                CartridgeHeaderView,
                Error,
            >(parsed@),
            header matches Err(error) ==> CartridgeHeaderView::parse(bank0@, extra_banks@) == Err::<
                CartridgeHeaderView,
                Error,
            >(error),
    {
        let title = Self::read_title(bank0)?;
        let manufacturer_code = Self::read_manufacturer_code(bank0)?;
        let cgb_flag = Self::read_cgb_flag(bank0);
        let new_licensee_code = Self::read_new_licensee_code(bank0);
        let sgb_flag = Self::read_sgb_flag(bank0);
        let cartridge_type = Self::read_cartridge_type(bank0)?;
        let rom_size = Self::read_rom_size(bank0)?;
        let ram_size = Self::read_ram_size(bank0)?;
        let destination_code = Self::read_destination_code(bank0)?;
        let old_licensee_code = Self::read_old_licensee_code(bank0);
        let version_number = Self::read_rom_version_number(bank0);
        let read_header_checksum = Self::read_header_checksum(bank0);
        let computed_header_checksum = Self::calculate_header_checksum(bank0);
        let read_global_checksum = Self::read_global_checksum(bank0);
        let computed_global_checksum = Self::calculate_global_checksum(bank0, extra_banks);
        Ok(
            CartridgeHeader {
                title,
                manufacturer_code,
                cgb_flag,
                new_licensee_code,
                sgb_flag,
                cartridge_type,
                rom_size,
                ram_size,
                destination_code,
                old_licensee_code,
                version_number,
                read_header_checksum,
                computed_header_checksum,
                read_global_checksum,
                computed_global_checksum,
            },
        )
    }

    /// The title: the bytes of the title field up to its first zero. A
    /// title with a byte that is no ASCII character is refused.
    pub fn read_title(bank0: &[u8]) -> (title: Result<String, Error>)
        requires
            bank0@.len() >= BANK_SIZE,
        ensures
            is_ascii_text(bank0@, TITLE_START as int, title_end(bank0@, TITLE_START as int))
                ==> title is Ok && title->Ok_0@ == chars_of(
                bank0@,
                TITLE_START as int,
                title_end(bank0@, TITLE_START as int),
            ),
            !is_ascii_text(bank0@, TITLE_START as int, title_end(bank0@, TITLE_START as int))
                ==> title == Err::<String, Error>(Error::InvalidCartridgeTitle),
    {
        let mut end: usize = TITLE_START;
        let mut ascii = true;
        while end < TITLE_END && *slice_index_get(bank0, end) != 0
            invariant
                TITLE_START <= end <= TITLE_END,
                bank0@.len() >= BANK_SIZE,
                title_end(bank0@, TITLE_START as int) == title_end(bank0@, end as int),
                ascii == is_ascii_text(bank0@, TITLE_START as int, end as int),
            decreases TITLE_END - end,
        {
            if *slice_index_get(bank0, end) >= 0x80 {
                ascii = false;
            }
            end += 1;
        }
        if !ascii {
            return Err(Error::InvalidCartridgeTitle);
        }
        Ok(text_of(bank0, TITLE_START, end))
    }

    /// The four characters of the manufacturer code.
    pub fn read_manufacturer_code(bank0: &[u8]) -> (code: Result<ManufacturerCode, Error>)
        requires
            bank0@.len() >= BANK_SIZE,
        ensures
            code is Ok,
            code->Ok_0@ == chars_of(bank0@, 0x013F, 0x0143),
    {
        let start: usize = 0x013F;
        let code = [
            *slice_index_get(bank0, start) as char,
            *slice_index_get(bank0, start + 1) as char,
            *slice_index_get(bank0, start + 2) as char,
            *slice_index_get(bank0, start + 3) as char,
        ];
        assert(code@ =~= chars_of(bank0@, 0x013F, 0x0143));
        Ok(ManufacturerCode::new(code))
    }

    pub fn read_cgb_flag(bank0: &[u8]) -> (flag: CgbFlag)
        requires
            bank0@.len() >= BANK_SIZE,
        ensures
            flag == CgbFlag::of_byte(bank0@[0x0143]),
    {
        CgbFlag::from(*slice_index_get(bank0, 0x0143))
    }

    pub fn read_new_licensee_code(bank0: &[u8]) -> (code: NewLicenseeCode)
        requires
            bank0@.len() >= BANK_SIZE,
        ensures
            code == NewLicenseeCode::of_chars((bank0@[0x0144] as char, bank0@[0x0145] as char)),
    {
        let code_byte1 = *slice_index_get(bank0, 0x0144);
        let code_byte2 = *slice_index_get(bank0, 0x0145);
        NewLicenseeCode::from((code_byte1 as char, code_byte2 as char))
    }

    pub fn read_sgb_flag(bank0: &[u8]) -> (flag: SgbFlag)
        requires
            bank0@.len() >= BANK_SIZE,
        ensures
            flag == SgbFlag::of_byte(bank0@[0x0146]),
    {
        SgbFlag::from(*slice_index_get(bank0, 0x0146))
    }

    pub fn read_cartridge_type(bank0: &[u8]) -> (cartridge_type: Result<CartridgeType, Error>)
        requires
            bank0@.len() >= BANK_SIZE,
        ensures
            cartridge_type == (match CartridgeType::of_byte(bank0@[0x0147]) {
                Some(found) => Ok::<CartridgeType, Error>(found),
                None => Err(Error::InvalidCartridgeType),
            }),
    {
        CartridgeType::try_from(*slice_index_get(bank0, 0x0147))
    }

    pub fn read_rom_size(bank0: &[u8]) -> (size: Result<RomSize, Error>)
        requires
            bank0@.len() >= BANK_SIZE,
        ensures
            size == (match RomSize::of_byte(bank0@[0x0148]) {
                Some(found) => Ok::<RomSize, Error>(found),
                None => Err(Error::InvalidCartridgeRomSize),
            }),
    {
        RomSize::try_from(*slice_index_get(bank0, 0x0148))
    }

    pub fn read_ram_size(bank0: &[u8]) -> (size: Result<RamSize, Error>)
        requires
            bank0@.len() >= BANK_SIZE,
        ensures
            size == (match RamSize::of_byte(bank0@[0x0149]) {
                Some(found) => Ok::<RamSize, Error>(found),
                None => Err(Error::InvalidCartridgeRamSize),
            }),
    {
        RamSize::try_from(*slice_index_get(bank0, 0x0149))
    }

    pub fn read_destination_code(bank0: &[u8]) -> (code: Result<DestinationCode, Error>)
        requires
            bank0@.len() >= BANK_SIZE,
        ensures
            code == (match DestinationCode::of_byte(bank0@[0x014A]) {
                Some(found) => Ok::<DestinationCode, Error>(found),
                None => Err(Error::InvalidCartridgeDestinationCode),
            }),
    {
        DestinationCode::try_from(*slice_index_get(bank0, 0x014A))
    }

    pub fn read_old_licensee_code(bank0: &[u8]) -> (code: OldLicenseeCode)
        requires
            bank0@.len() >= BANK_SIZE,
        ensures
            code == OldLicenseeCode::of_byte(bank0@[0x014B]),
    {
        OldLicenseeCode::from(*slice_index_get(bank0, 0x014B))
    }

    pub fn read_rom_version_number(bank0: &[u8]) -> (version: u8)
        requires
            bank0@.len() >= BANK_SIZE,
        ensures
            version == bank0@[0x014C],
    {
        *slice_index_get(bank0, 0x014C)
    }

    pub fn read_header_checksum(bank0: &[u8]) -> (checksum: u8)
        requires
            bank0@.len() >= BANK_SIZE,
        ensures
            checksum == bank0@[0x014D],
    {
        *slice_index_get(bank0, 0x014D)
    }

    /// The checksum that the header bytes give.
    pub fn calculate_header_checksum(bank0: &[u8]) -> (checksum: u8)
        requires
            bank0@.len() >= BANK_SIZE,
        ensures
            checksum == header_checksum(bank0@),
    {
        let mut checksum: u8 = 0;
        let mut i: usize = 0x0134;
        while i < 0x014D
            invariant
                0x0134 <= i <= 0x014D,
                bank0@.len() >= BANK_SIZE,
                checksum == header_sum(bank0@, i as int) % 256,
            decreases 0x014D - i,
        {
            let byte = *slice_index_get(bank0, i);
            checksum = ((checksum as u16 + 511 - byte as u16) % 256) as u8;
            i += 1;
        }
        checksum
    }

    /// The global checksum that the cartridge states, high byte first.
    pub fn read_global_checksum(bank0: &[u8]) -> (checksum: u16)
        requires
            bank0@.len() >= BANK_SIZE,
        ensures
            checksum == bank0@[0x014E] * 256 + bank0@[0x014F],
    {
        let high = *slice_index_get(bank0, 0x014E) as u16;
        let low = *slice_index_get(bank0, 0x014F) as u16;
        high * 256 + low
    }

    /// The global checksum that the bytes of the ROM give.
    pub fn calculate_global_checksum(bank0: &[u8], extra_banks: &[u8]) -> (checksum: u16)
        requires
            bank0@.len() >= BANK_SIZE,
        ensures
            checksum == global_checksum(bank0@, extra_banks@),
    {
        let first = sum_bytes(bank0, 0, 0x014E);
        let second = sum_bytes(bank0, 0x0150, BANK_SIZE);
        let rest = sum_bytes(extra_banks, 0, extra_banks.len());
        ((first as u32 + second as u32 + rest as u32) % 0x1_0000) as u16
    }
}

/// The sum of the bytes from `start` up to `end`, modulo 65536.
fn sum_bytes(bytes: &[u8], start: usize, end: usize) -> (sum: u16)
    requires
        start <= end <= bytes@.len(),
    ensures
        sum == byte_sum(bytes@, start as int, end as int) % 0x1_0000,
{
    let mut sum: u16 = 0;
    let mut i: usize = start;
    while i < end
        invariant
            start <= i <= end <= bytes@.len(),
            sum == byte_sum(bytes@, start as int, i as int) % 0x1_0000,
        decreases end - i,
    {
        sum = ((sum as u32 + *slice_index_get(bytes, i) as u32) % 0x1_0000) as u16;
        i += 1;
    }
    sum
}

} // verus!
