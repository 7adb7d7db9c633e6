use wii_disc_info::gcz::{block0_fetch, Block0Info};
use wii_disc_info::{
    header_at, header_source, Error, Format, HeaderSource, Meta, ReadPlan, RegionCode, BUF_SIZE,
    HEADER_SIZE,
};

const WII_MAGIC: [u8; 4] = [0x5d, 0x1c, 0x9e, 0xa3];
const GC_MAGIC: [u8; 4] = [0xc2, 0x33, 0x9f, 0x3d];

fn header(id: &[u8; 6], wii: bool, gc: bool, title: &[u8]) -> [u8; HEADER_SIZE] {
    let mut h = [0u8; HEADER_SIZE];
    h[..6].copy_from_slice(id);
    h[6] = 1;
    h[7] = 2;
    if wii {
        h[0x18..0x1c].copy_from_slice(&WII_MAGIC);
    }
    if gc {
        h[0x1c..0x20].copy_from_slice(&GC_MAGIC);
    }
    h[0x20..0x20 + title.len()].copy_from_slice(title);
    h
}

#[test]
fn wii_header() {
    let h = header(b"RMCP01", true, false, b"MARIO KART Wii");
    let m = Meta::from_header(Format::Iso, &h).unwrap();
    assert_eq!(m.format(), Format::Iso);
    assert_eq!(m.game_id().as_str(), "RMCP01");
    assert_eq!(m.game_id().region(), RegionCode::EuropeAndOtherPALRegionsSuchAsAustralia);
    assert_eq!(m.game_title(), "MARIO KART Wii");
    assert!(m.is_wii());
    assert!(!m.is_gc());
    assert_eq!(m.disc_number(), 1);
    assert_eq!(m.disc_version(), 2);
}

#[test]
fn gamecube_header() {
    let h = header(b"GALE01", false, true, b"Super Smash Bros Melee");
    let m = Meta::from_header(Format::Ciso, &h).unwrap();
    assert_eq!(m.format(), Format::Ciso);
    assert!(m.is_gc());
    assert!(!m.is_wii());
    assert_eq!(m.game_title(), "Super Smash Bros Melee");
}

#[test]
fn console_must_be_exactly_one() {
    let both = header(b"RMCP01", true, true, b"T");
    assert!(matches!(Meta::from_header(Format::Iso, &both), Err(Error::InvalidConsole)));
    let neither = header(b"RMCP01", false, false, b"T");
    assert!(matches!(Meta::from_header(Format::Iso, &neither), Err(Error::InvalidConsole)));
    // The console is checked before the game id.
    let bad_both = header(b"rmcp01", false, false, b"");
    assert!(matches!(Meta::from_header(Format::Iso, &bad_both), Err(Error::InvalidConsole)));
}

#[test]
fn game_id_must_be_valid() {
    let h = header(b"RM-P01", true, false, b"T");
    assert!(matches!(Meta::from_header(Format::Iso, &h), Err(Error::InvalidGameId)));
    // The game id is checked before the title.
    let h = header(b"RM-P01", true, false, b"");
    assert!(matches!(Meta::from_header(Format::Iso, &h), Err(Error::InvalidGameId)));
}

#[test]
fn title_must_be_present_and_utf8() {
    let empty = header(b"RMCP01", true, false, b"");
    assert!(matches!(Meta::from_header(Format::Iso, &empty), Err(Error::InvalidGameTitle)));
    let bad = header(b"RMCP01", true, false, &[b'A', 0xff, b'B']);
    assert!(matches!(Meta::from_header(Format::Iso, &bad), Err(Error::InvalidGameTitle)));
    // Bytes after the terminating zero are checked too.
    let mut late = header(b"RMCP01", true, false, b"OK");
    late[0x50] = 0xff;
    assert!(matches!(Meta::from_header(Format::Iso, &late), Err(Error::InvalidGameTitle)));
}

#[test]
fn title_ends_at_first_zero_or_fills_the_field() {
    let h = header(b"RMCP01", true, false, b"AB\0CD");
    let m = Meta::from_header(Format::Iso, &h).unwrap();
    assert_eq!(m.game_title(), "AB");
    let full = [b'X'; 0x40];
    let h = header(b"RMCP01", true, false, &full);
    let m = Meta::from_header(Format::Iso, &h).unwrap();
    assert_eq!(m.game_title().len(), 0x40);
    let utf8 = "Pokémon".as_bytes();
    let h = header(b"RMCP01", true, false, utf8);
    let m = Meta::from_header(Format::Iso, &h).unwrap();
    assert_eq!(m.game_title(), "Pokémon");
}

#[test]
fn header_sources() {
    assert_eq!(header_source(Format::Iso), HeaderSource::Buffered(0));
    assert_eq!(header_source(Format::Wbfs), HeaderSource::Buffered(0x200));
    assert_eq!(header_source(Format::Rvz), HeaderSource::Buffered(0x58));
    assert_eq!(header_source(Format::Wia), HeaderSource::Buffered(0x58));
    assert_eq!(header_source(Format::Ciso), HeaderSource::NextBuffer);
    assert_eq!(header_source(Format::Tgc), HeaderSource::NextBuffer);
    assert_eq!(header_source(Format::Gcz), HeaderSource::GczBlock0);
}

#[test]
fn header_is_copied_from_its_offset() {
    let buf: Vec<u8> = (0..BUF_SIZE).map(|i| (i % 251) as u8).collect();
    let h = header_at(&buf, 0x200);
    assert_eq!(&h[..], &buf[0x200..0x200 + HEADER_SIZE]);
    for f in [Format::Iso, Format::Wbfs, Format::Rvz, Format::Wia] {
        if let HeaderSource::Buffered(off) = header_source(f) {
            assert!(off + HEADER_SIZE <= BUF_SIZE);
        }
    }
}

fn first_buffer(magic: Option<[u8; 4]>, header_offset: usize, h: &[u8; HEADER_SIZE]) -> Vec<u8> {
    let mut buf = vec![0u8; BUF_SIZE];
    buf[header_offset..header_offset + HEADER_SIZE].copy_from_slice(h);
    if let Some(m) = magic {
        buf[..4].copy_from_slice(&m);
    }
    buf
}

#[test]
fn first_buffer_of_buffered_formats() {
    let h = header(b"RMCP01", true, false, b"MARIO KART Wii");
    let cases: [(Option<[u8; 4]>, usize, Format); 3] = [
        (None, 0, Format::Iso),
        (Some(*b"WBFS"), 0x200, Format::Wbfs),
        (Some([b'R', b'V', b'Z', 1]), 0x58, Format::Rvz),
    ];
    for (magic, off, format) in cases {
        let buf = first_buffer(magic, off, &h);
        match Meta::read_first(&buf) {
            ReadPlan::Done(Ok(m)) => {
                assert_eq!(m.format(), format);
                assert_eq!(m.game_title(), "MARIO KART Wii");
            }
            other => panic!("unexpected plan {:?}", other),
        }
    }
    let bad = header(b"RMCP01", true, true, b"T");
    let buf = first_buffer(None, 0, &bad);
    assert!(matches!(Meta::read_first(&buf), ReadPlan::Done(Err(Error::InvalidConsole))));
}

#[test]
fn second_buffer_formats() {
    let mut buf = vec![0u8; BUF_SIZE];
    buf[..4].copy_from_slice(b"CISO");
    assert!(matches!(Meta::read_first(&buf), ReadPlan::NextBuffer(Format::Ciso)));
    let h = header(b"GALE01", false, true, b"Melee");
    let second = first_buffer(None, 0, &h);
    let m = Meta::read_second(Format::Ciso, &second).unwrap();
    assert_eq!(m.format(), Format::Ciso);
    assert!(m.is_gc());
    assert_eq!(m.game_title(), "Melee");
}

#[test]
fn gcz_images() {
    // A usable table: one uncompressed block right after the table, reaching
    // 0x10 bytes past the first buffer.
    let mut first = vec![0u8; BUF_SIZE];
    first[..4].copy_from_slice(&[0x01, 0xc0, 0x0b, 0xb1]);
    first[0x08..0x10].copy_from_slice(&(BUF_SIZE as u64 - 0x2c + 0x10).to_le_bytes());
    first[0x1c..0x20].copy_from_slice(&1u32.to_le_bytes());
    first[0x20..0x28].copy_from_slice(&(1u64 << 63).to_le_bytes());
    let h = header(b"GZLE01", false, true, b"Zelda");
    first[0x2c..0x2c + HEADER_SIZE].copy_from_slice(&h);
    let info = match Meta::read_first(&first) {
        ReadPlan::GczBlock0(info) => info,
        other => panic!("unexpected plan {:?}", other),
    };
    assert_eq!(
        info,
        Block0Info { compressed_size: BUF_SIZE - 0x2c + 0x10, data_start: 0x2c, is_uncompressed: true }
    );
    assert_eq!(block0_fetch(&info).len, 0x10);
    let m = Meta::read_gcz_block0(&first, &info, &[0u8; 0x10]).unwrap();
    assert_eq!(m.format(), Format::Gcz);
    assert_eq!(m.game_id().as_str(), "GZLE01");
    assert_eq!(m.game_title(), "Zelda");

    // A broken table ends the read at once.
    let mut broken = first.clone();
    broken[0x1c..0x20].copy_from_slice(&0u32.to_le_bytes());
    assert!(matches!(Meta::read_first(&broken), ReadPlan::Done(Err(Error::Gcz))));

    // A block that yields no header is a GCZ error.
    let far = Block0Info { compressed_size: 0x10, data_start: BUF_SIZE as u64, is_uncompressed: true };
    assert!(matches!(Meta::read_gcz_block0(&first, &far, &[0u8; 0x10]), Err(Error::Gcz)));
}

#[test]
fn header_results() {
    let h = header(b"RMCP01", true, false, b"T");
    let m = Meta::from_header_result(Format::Wia, Ok(h)).unwrap();
    assert_eq!(m.format(), Format::Wia);
    let e = Meta::from_header_result(Format::Wia, Err(Error::Io(std::io::ErrorKind::UnexpectedEof)));
    assert!(matches!(e, Err(Error::Io(std::io::ErrorKind::UnexpectedEof))));
}

#[test]
fn io_errors_convert() {
    let err = std::io::Error::new(std::io::ErrorKind::UnexpectedEof, "short image");
    assert!(matches!(Error::from(err), Error::Io(std::io::ErrorKind::UnexpectedEof)));
}
