use wii_disc_info::RegionCode;

#[test]
fn region_bytes_map_to_regions() {
    let cases: [(u8, RegionCode); 21] = [
        (b'A', RegionCode::SystemWiiChannels),
        (b'B', RegionCode::UfouriaTheSagaNA),
        (b'D', RegionCode::Germany),
        (b'E', RegionCode::USA),
        (b'F', RegionCode::France),
        (b'H', RegionCode::NetherlandsEuropeAlternateLanguages),
        (b'I', RegionCode::Italy),
        (b'J', RegionCode::Japan),
        (b'K', RegionCode::Korea),
        (b'L', RegionCode::JapaneseImportToEuropeAustraliaAndOtherPALRegions),
        (b'M', RegionCode::AmericanImportToEuropeAustraliaAndOtherPALRegions),
        (b'N', RegionCode::JapaneseImportToUSAAndOtherNTSCRegions),
        (b'P', RegionCode::EuropeAndOtherPALRegionsSuchAsAustralia),
        (b'Q', RegionCode::JapaneseVirtualConsoleImportToKorea),
        (b'R', RegionCode::Russia),
        (b'S', RegionCode::Spain),
        (b'T', RegionCode::AmericanVirtualConsoleImportToKorea),
        (b'U', RegionCode::AustraliaEuropeAlternateLanguages),
        (b'V', RegionCode::Scandinavia),
        (b'W', RegionCode::RepublicOfChinaTaiwanHongKongMacau),
        (b'X', RegionCode::EuropeAlternateLanguagesUSSpecialReleases),
    ];
    for (b, r) in cases {
        assert_eq!(RegionCode::from_region_byte(b), r);
    }
    assert_eq!(
        RegionCode::from_region_byte(b'Y'),
        RegionCode::EuropeAlternateLanguagesUSSpecialReleases
    );
    assert_eq!(
        RegionCode::from_region_byte(b'Z'),
        RegionCode::EuropeAlternateLanguagesUSSpecialReleases
    );
}

#[test]
fn unassigned_region_bytes_are_unknown() {
    for b in [b'C', b'G', b'O', b'a', b'0', 0u8, 0xffu8] {
        assert_eq!(RegionCode::from_region_byte(b), RegionCode::Unknown);
    }
}

#[test]
fn region_names() {
    assert_eq!(RegionCode::Germany.as_str(), "Germany");
    assert_eq!(RegionCode::USA.as_str(), "USA");
    assert_eq!(
        RegionCode::SystemWiiChannels.as_str(),
        "System Wii Channels (i.e. Mii Channel)"
    );
    assert_eq!(
        RegionCode::RepublicOfChinaTaiwanHongKongMacau.as_str(),
        "Republic of China (Taiwan) / Hong Kong / Macau"
    );
    assert_eq!(RegionCode::Unknown.as_str(), "Unknown");
    let r: &str = RegionCode::Japan.as_ref();
    assert_eq!(r, "Japan");
}
