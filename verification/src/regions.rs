use vstd::prelude::*;

verus! {

/// The region of a disc, as encoded by the fourth byte of its game id.
#[derive(Debug, Clone, Copy, PartialEq, Eq, Structural)]
pub enum RegionCode {
    SystemWiiChannels,
    UfouriaTheSagaNA,
    Germany,
    USA,
    France,
    NetherlandsEuropeAlternateLanguages,
    Italy,
    Japan,
    Korea,
    JapaneseImportToEuropeAustraliaAndOtherPALRegions,
    AmericanImportToEuropeAustraliaAndOtherPALRegions,
    JapaneseImportToUSAAndOtherNTSCRegions,
    EuropeAndOtherPALRegionsSuchAsAustralia,
    JapaneseVirtualConsoleImportToKorea,
    Russia,
    Spain,
    AmericanVirtualConsoleImportToKorea,
    AustraliaEuropeAlternateLanguages,
    Scandinavia,
    RepublicOfChinaTaiwanHongKongMacau,
    EuropeAlternateLanguagesUSSpecialReleases,
    Unknown,
}

/// The region that a region byte of a game id denotes.
pub open spec fn region_of_byte(b: u8) -> RegionCode {
    if b == 0x41 {  // 'A'
        RegionCode::SystemWiiChannels
    } else if b == 0x42 {  // 'B'
        RegionCode::UfouriaTheSagaNA
    } else if b == 0x44 {  // 'D'
        RegionCode::Germany
    } else if b == 0x45 {  // 'E'
        RegionCode::USA
    } else if b == 0x46 {  // 'F'
        RegionCode::France
    } else if b == 0x48 {  // 'H'
        RegionCode::NetherlandsEuropeAlternateLanguages
    } else if b == 0x49 {  // 'I'
        RegionCode::Italy
    } else if b == 0x4a {  // 'J'
        RegionCode::Japan
    } else if b == 0x4b {  // 'K'
        RegionCode::Korea
    } else if b == 0x4c {  // 'L'
        RegionCode::JapaneseImportToEuropeAustraliaAndOtherPALRegions
    } else if b == 0x4d {  // 'M'
        RegionCode::AmericanImportToEuropeAustraliaAndOtherPALRegions
    } else if b == 0x4e {  // 'N'
        RegionCode::JapaneseImportToUSAAndOtherNTSCRegions
    } else if b == 0x50 {  // 'P'
        RegionCode::EuropeAndOtherPALRegionsSuchAsAustralia
    } else if b == 0x51 {  // 'Q'
        RegionCode::JapaneseVirtualConsoleImportToKorea
    } else if b == 0x52 {  // 'R'
        RegionCode::Russia
    } else if b == 0x53 {  // 'S'
        RegionCode::Spain
    } else if b == 0x54 {  // 'T'
        RegionCode::AmericanVirtualConsoleImportToKorea
    } else if b == 0x55 {  // 'U'
        RegionCode::AustraliaEuropeAlternateLanguages
    } else if b == 0x56 {  // 'V'
        RegionCode::Scandinavia
    } else if b == 0x57 {  // 'W'
        RegionCode::RepublicOfChinaTaiwanHongKongMacau
    } else if 0x58 <= b <= 0x5a {  // 'X', 'Y', 'Z'
        RegionCode::EuropeAlternateLanguagesUSSpecialReleases
    } else {
        RegionCode::Unknown
    }
}

/// The human-readable name of a region.
pub open spec fn region_name(r: RegionCode) -> Seq<char> {
    match r {
        RegionCode::SystemWiiChannels => "System Wii Channels (i.e. Mii Channel)"@,
        RegionCode::UfouriaTheSagaNA => "Ufouria: The Saga (NA)"@,
        RegionCode::Germany => "Germany"@,
        RegionCode::USA => "USA"@,
        RegionCode::France => "France"@,
        RegionCode::NetherlandsEuropeAlternateLanguages => "Netherlands / Europe alternate languages"@,
        RegionCode::Italy => "Italy"@,
        RegionCode::Japan => "Japan"@,
        RegionCode::Korea => "Korea"@,
        RegionCode::JapaneseImportToEuropeAustraliaAndOtherPALRegions =>
            "Japanese import to Europe, Australia and other PAL regions"@,
        RegionCode::AmericanImportToEuropeAustraliaAndOtherPALRegions =>
            "American import to Europe, Australia and other PAL regions"@,
        RegionCode::JapaneseImportToUSAAndOtherNTSCRegions =>
            "Japanese import to USA and other NTSC regions"@,
        RegionCode::EuropeAndOtherPALRegionsSuchAsAustralia =>
            "Europe and other PAL regions such as Australia"@,
        RegionCode::JapaneseVirtualConsoleImportToKorea => "Japanese Virtual Console import to Korea"@,
        RegionCode::Russia => "Russia"@,
        RegionCode::Spain => "Spain"@,
        RegionCode::AmericanVirtualConsoleImportToKorea => "American Virtual Console import to Korea"@,
        RegionCode::AustraliaEuropeAlternateLanguages => "Australia / Europe alternate languages"@,
        RegionCode::Scandinavia => "Scandinavia"@,
        RegionCode::RepublicOfChinaTaiwanHongKongMacau =>
            "Republic of China (Taiwan) / Hong Kong / Macau"@,
        RegionCode::EuropeAlternateLanguagesUSSpecialReleases =>
            "Europe alternate languages / US special releases"@,
        RegionCode::Unknown => "Unknown"@,
    }
}

/// The length and first character of each region's name.
spec fn region_name_key(r: RegionCode) -> (int, char) {
    match r {
        RegionCode::SystemWiiChannels => (38, 'S'),
        RegionCode::UfouriaTheSagaNA => (22, 'U'),
        RegionCode::Germany => (7, 'G'),
        RegionCode::USA => (3, 'U'),
        RegionCode::France => (6, 'F'),
        RegionCode::NetherlandsEuropeAlternateLanguages => (40, 'N'),
        RegionCode::Italy => (5, 'I'),
        RegionCode::Japan => (5, 'J'),
        RegionCode::Korea => (5, 'K'),
        RegionCode::JapaneseImportToEuropeAustraliaAndOtherPALRegions => (58, 'J'),
        RegionCode::AmericanImportToEuropeAustraliaAndOtherPALRegions => (58, 'A'),
        RegionCode::JapaneseImportToUSAAndOtherNTSCRegions => (45, 'J'),
        RegionCode::EuropeAndOtherPALRegionsSuchAsAustralia => (46, 'E'),
        RegionCode::JapaneseVirtualConsoleImportToKorea => (40, 'J'),
        RegionCode::Russia => (6, 'R'),
        RegionCode::Spain => (5, 'S'),
        RegionCode::AmericanVirtualConsoleImportToKorea => (40, 'A'),
        RegionCode::AustraliaEuropeAlternateLanguages => (38, 'A'),
        RegionCode::Scandinavia => (11, 'S'),
        RegionCode::RepublicOfChinaTaiwanHongKongMacau => (46, 'R'),
        RegionCode::EuropeAlternateLanguagesUSSpecialReleases => (48, 'E'),
        RegionCode::Unknown => (7, 'U'),
    }
}

proof fn lemma_region_name_key(r: RegionCode)
    ensures
        region_name(r).len() == region_name_key(r).0,
        region_name(r)[0] == region_name_key(r).1,
{
    match r {
        RegionCode::SystemWiiChannels => {
            reveal_strlit("System Wii Channels (i.e. Mii Channel)");
        },
        RegionCode::UfouriaTheSagaNA => {
            reveal_strlit("Ufouria: The Saga (NA)");
        },
        RegionCode::Germany => {
            reveal_strlit("Germany");
        },
        RegionCode::USA => {
            reveal_strlit("USA");
        },
        RegionCode::France => {
            reveal_strlit("France");
        },
        RegionCode::NetherlandsEuropeAlternateLanguages => {
            reveal_strlit("Netherlands / Europe alternate languages");
        },
        RegionCode::Italy => {
            reveal_strlit("Italy");
        },
        RegionCode::Japan => {
            reveal_strlit("Japan");
        },
        RegionCode::Korea => {
            reveal_strlit("Korea");
        },
        RegionCode::JapaneseImportToEuropeAustraliaAndOtherPALRegions => {
            reveal_strlit("Japanese import to Europe, Australia and other PAL regions");
        },
        RegionCode::AmericanImportToEuropeAustraliaAndOtherPALRegions => {
            reveal_strlit("American import to Europe, Australia and other PAL regions");
        },
        RegionCode::JapaneseImportToUSAAndOtherNTSCRegions => {
            reveal_strlit("Japanese import to USA and other NTSC regions");
        },
        RegionCode::EuropeAndOtherPALRegionsSuchAsAustralia => {
            reveal_strlit("Europe and other PAL regions such as Australia");
        },
        RegionCode::JapaneseVirtualConsoleImportToKorea => {
            reveal_strlit("Japanese Virtual Console import to Korea");
        },
        RegionCode::Russia => {
            reveal_strlit("Russia");
        },
        RegionCode::Spain => {
            reveal_strlit("Spain");
        },
        RegionCode::AmericanVirtualConsoleImportToKorea => {
            reveal_strlit("American Virtual Console import to Korea");
        },
        RegionCode::AustraliaEuropeAlternateLanguages => {
            reveal_strlit("Australia / Europe alternate languages");
        },
        RegionCode::Scandinavia => {
            reveal_strlit("Scandinavia");
        },
        RegionCode::RepublicOfChinaTaiwanHongKongMacau => {
            reveal_strlit("Republic of China (Taiwan) / Hong Kong / Macau");
        },
        RegionCode::EuropeAlternateLanguagesUSSpecialReleases => {
            reveal_strlit("Europe alternate languages / US special releases");
        },
        RegionCode::Unknown => {
            reveal_strlit("Unknown");
        },
    }
}

/// Distinct regions have distinct names: a name tells its region.
pub proof fn lemma_region_names_distinct(r1: RegionCode, r2: RegionCode)
    requires
        region_name(r1) == region_name(r2),
    ensures
        r1 == r2,
{
    lemma_region_name_key(r1);
    lemma_region_name_key(r2);
}

impl RegionCode {
    /// Decodes the region byte (the fourth byte) of a game id.
    pub fn from_region_byte(region_byte: u8) -> (r: Self)
        ensures
            r == region_of_byte(region_byte),
    {
        match region_byte {
            0x41 /* 'A' */ => RegionCode::SystemWiiChannels,
            0x42 /* 'B' */ => RegionCode::UfouriaTheSagaNA,
            0x44 /* 'D' */ => RegionCode::Germany,
            0x45 /* 'E' */ => RegionCode::USA,
            0x46 /* 'F' */ => RegionCode::France,
            0x48 /* 'H' */ => RegionCode::NetherlandsEuropeAlternateLanguages,
            0x49 /* 'I' */ => RegionCode::Italy,
            0x4a /* 'J' */ => RegionCode::Japan,
            0x4b /* 'K' */ => RegionCode::Korea,
            0x4c /* 'L' */ => RegionCode::JapaneseImportToEuropeAustraliaAndOtherPALRegions,
            0x4d /* 'M' */ => RegionCode::AmericanImportToEuropeAustraliaAndOtherPALRegions,
            0x4e /* 'N' */ => RegionCode::JapaneseImportToUSAAndOtherNTSCRegions,
            0x50 /* 'P' */ => RegionCode::EuropeAndOtherPALRegionsSuchAsAustralia,
            0x51 /* 'Q' */ => RegionCode::JapaneseVirtualConsoleImportToKorea,
            0x52 /* 'R' */ => RegionCode::Russia,
            0x53 /* 'S' */ => RegionCode::Spain,
            0x54 /* 'T' */ => RegionCode::AmericanVirtualConsoleImportToKorea,
            0x55 /* 'U' */ => RegionCode::AustraliaEuropeAlternateLanguages,
            0x56 /* 'V' */ => RegionCode::Scandinavia,
            0x57 /* 'W' */ => RegionCode::RepublicOfChinaTaiwanHongKongMacau,
            0x58 /* 'X' */ | 0x59 /* 'Y' */ | 0x5a /* 'Z' */ => RegionCode::EuropeAlternateLanguagesUSSpecialReleases,
            _ => RegionCode::Unknown,
        }
    }

    /// The human-readable name of the region.
    pub fn as_str(&self) -> (s: &'static str)
        ensures
            s@ == region_name(*self),
    {
        match self {
            Self::SystemWiiChannels => "System Wii Channels (i.e. Mii Channel)",
            Self::UfouriaTheSagaNA => "Ufouria: The Saga (NA)",
            Self::Germany => "Germany",
            Self::USA => "USA",
            Self::France => "France",
            Self::NetherlandsEuropeAlternateLanguages => "Netherlands / Europe alternate languages",
            Self::Italy => "Italy",
            Self::Japan => "Japan",
            Self::Korea => "Korea",
            Self::JapaneseImportToEuropeAustraliaAndOtherPALRegions => {
                "Japanese import to Europe, Australia and other PAL regions"
            },
            Self::AmericanImportToEuropeAustraliaAndOtherPALRegions => {
                "American import to Europe, Australia and other PAL regions"
            },
            Self::JapaneseImportToUSAAndOtherNTSCRegions => {
                "Japanese import to USA and other NTSC regions"
            },
            Self::EuropeAndOtherPALRegionsSuchAsAustralia => {
                "Europe and other PAL regions such as Australia"
            },
            Self::JapaneseVirtualConsoleImportToKorea => "Japanese Virtual Console import to Korea",
            Self::Russia => "Russia",
            Self::Spain => "Spain",
            Self::AmericanVirtualConsoleImportToKorea => "American Virtual Console import to Korea",
            Self::AustraliaEuropeAlternateLanguages => "Australia / Europe alternate languages",
            Self::Scandinavia => "Scandinavia",
            Self::RepublicOfChinaTaiwanHongKongMacau => {
                "Republic of China (Taiwan) / Hong Kong / Macau"
            },
            Self::EuropeAlternateLanguagesUSSpecialReleases => {
                "Europe alternate languages / US special releases"
            },
            Self::Unknown => "Unknown",
        }
    }
}

impl AsRef<str> for RegionCode {
    fn as_ref(&self) -> (s: &str)
        ensures
            s@ == region_name(*self),
    {
        self.as_str()
    }
}

} // verus!
