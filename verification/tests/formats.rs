use wii_disc_info::Format;

fn with_magic(m: [u8; 4]) -> Vec<u8> {
    let mut v = m.to_vec();
    v.extend_from_slice(&[0xaa; 60]);
    v
}

#[test]
fn magic_identifies_format() {
    assert_eq!(Format::parse_header(&with_magic(*b"WBFS")), Format::Wbfs);
    assert_eq!(Format::parse_header(&with_magic(*b"CISO")), Format::Ciso);
    assert_eq!(Format::parse_header(&with_magic([b'R', b'V', b'Z', 1])), Format::Rvz);
    assert_eq!(Format::parse_header(&with_magic([b'W', b'I', b'A', 1])), Format::Wia);
    assert_eq!(Format::parse_header(&with_magic([0xae, 0x0f, 0x38, 0xa2])), Format::Tgc);
    assert_eq!(Format::parse_header(&with_magic([0x01, 0xc0, 0x0b, 0xb1])), Format::Gcz);
}

#[test]
fn anything_else_is_iso() {
    assert_eq!(Format::parse_header(&with_magic(*b"RMCP")), Format::Iso);
    assert_eq!(Format::parse_header(&with_magic([b'R', b'V', b'Z', 2])), Format::Iso);
    assert_eq!(Format::parse_header(&with_magic(*b"wbfs")), Format::Iso);
    assert_eq!(Format::parse_header(&[0, 0, 0, 0]), Format::Iso);
}

#[test]
fn only_the_first_four_bytes_count() {
    let mut v = b"WBFSCISO".to_vec();
    assert_eq!(Format::parse_header(&v), Format::Wbfs);
    v[0] = b'X';
    assert_eq!(Format::parse_header(&v), Format::Iso);
}

#[test]
fn format_names() {
    assert_eq!(Format::Iso.as_str(), "ISO");
    assert_eq!(Format::Wbfs.as_str(), "WBFS");
    assert_eq!(Format::Ciso.as_str(), "CISO");
    assert_eq!(Format::Rvz.as_str(), "RVZ");
    assert_eq!(Format::Wia.as_str(), "WIA");
    assert_eq!(Format::Tgc.as_str(), "TGC");
    assert_eq!(Format::Gcz.as_str(), "GCZ");
    let s: &str = Format::Gcz.as_ref();
    assert_eq!(s, "GCZ");
}
