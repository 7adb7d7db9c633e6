use std::str::FromStr;

use wii_disc_info::{Error, GameID, RegionCode};

#[test]
fn six_character_id() {
    let id = GameID::try_from(*b"RMCP01").unwrap();
    assert_eq!(id.as_str(), "RMCP01");
    assert_eq!(id.as_partial_str(), "RMC");
    assert_eq!(id.to_bytes(), *b"RMCP01");
    assert_eq!(id.region(), RegionCode::EuropeAndOtherPALRegionsSuchAsAustralia);
    let s: &str = id.as_ref();
    assert_eq!(s, "RMCP01");
}

#[test]
fn four_character_id_ignores_last_byte() {
    let id = GameID::try_from([b'H', b'A', b'C', b'A', 0, b'x']).unwrap();
    assert_eq!(id.as_str(), "HACA");
    assert_eq!(id.to_bytes(), [b'H', b'A', b'C', b'A', 0, b'x']);
    assert_eq!(id.region(), RegionCode::SystemWiiChannels);
}

#[test]
fn invalid_ids_are_refused() {
    for bad in [
        *b"RMCp01",
        *b"RMC-01",
        [b'R', b'M', b'C', b'P', b'0', 0],
        [b'R', b'M', b'C', 0, 0, 0],
        [0; 6],
        [b'R', b'M', b'C', b'P', 0xc3, 0xa9],
    ] {
        assert!(matches!(GameID::try_from(bad), Err(Error::InvalidGameId)));
    }
}

#[test]
fn ratatouille_is_scandinavian() {
    let id = GameID::try_from(*b"RLWW78").unwrap();
    assert_eq!(id.region(), RegionCode::Scandinavia);
    let other = GameID::try_from(*b"RLWE78").unwrap();
    assert_eq!(other.region(), RegionCode::USA);
    let taiwan = GameID::try_from(*b"RLWW79").unwrap();
    assert_eq!(taiwan.region(), RegionCode::RepublicOfChinaTaiwanHongKongMacau);
}

#[test]
fn parse_from_text() {
    let id = GameID::from_str("GALE01").unwrap();
    assert_eq!(id.to_bytes(), *b"GALE01");
    let short = GameID::from_str("HACA").unwrap();
    assert_eq!(short.to_bytes(), [b'H', b'A', b'C', b'A', 0, 0]);
    assert_eq!(short.as_str(), "HACA");
    let long = GameID::parse("GALE01EXTRA").unwrap();
    assert_eq!(long.as_str(), "GALE01");
    assert!(matches!(GameID::from_str("GAL"), Err(Error::InvalidGameId)));
    assert!(matches!(GameID::from_str("gale01"), Err(Error::InvalidGameId)));
    assert!(matches!(GameID::from_str(""), Err(Error::InvalidGameId)));
}

#[test]
fn text_round_trip() {
    for raw in [*b"RMCP01", [b'H', b'A', b'C', b'A', 0, 0]] {
        let id = GameID::try_from(raw).unwrap();
        let back = GameID::from_str(id.as_str()).unwrap();
        assert_eq!(back, id);
        assert_eq!(back.as_str(), id.as_str());
    }
    // Only the text survives when the unseen sixth byte is not zero.
    let id = GameID::try_from([b'H', b'A', b'C', b'A', 0, b'x']).unwrap();
    let back = GameID::from_str(id.as_str()).unwrap();
    assert_eq!(back.as_str(), id.as_str());
    assert_ne!(back, id);
}

#[test]
fn default_is_blank() {
    let id = GameID::default();
    assert_eq!(id.to_bytes(), [0; 6]);
    assert_eq!(id.as_str(), "\0\0\0\0");
    assert_eq!(id.region(), RegionCode::Unknown);
    assert!(GameID::from_str(id.as_str()).is_err());
}

#[test]
fn equality_is_bytewise() {
    let a = GameID::try_from(*b"RMCP01").unwrap();
    let b = GameID::try_from(*b"RMCP01").unwrap();
    let c = GameID::try_from(*b"RMCE01").unwrap();
    assert_eq!(a, b);
    assert_ne!(a, c);
}
