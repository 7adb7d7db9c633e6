use vstd::prelude::*;

verus! {

/// The container format of a disc image.
#[derive(Debug, Clone, Copy, PartialEq, Eq, Structural)]
pub enum Format {
    Iso,
    Wbfs,
    Ciso,
    Rvz,
    Wia,
    Tgc,
    Gcz,
}

/// The four bytes that open an image of the given container format. A plain
/// ISO image has no magic of its own: it is what is left when none matches.
pub open spec fn format_magic(f: Format) -> Seq<u8> {
    match f {
        Format::Iso => Seq::empty(),
        Format::Wbfs => seq![0x57u8, 0x42, 0x46, 0x53],  // "WBFS"
        Format::Ciso => seq![0x43u8, 0x49, 0x53, 0x4f],  // "CISO"
        Format::Rvz => seq![0x52u8, 0x56, 0x5a, 0x01],  // "RVZ\x01"
        Format::Wia => seq![0x57u8, 0x49, 0x41, 0x01],  // "WIA\x01"
        Format::Tgc => seq![0xaeu8, 0x0f, 0x38, 0xa2],
        Format::Gcz => seq![0x01u8, 0xc0, 0x0b, 0xb1],
    }
}

/// The format that an image whose first bytes are `header` is stored in:
/// the one whose magic is its first four bytes, and ISO where none is.
pub open spec fn format_of_header(header: Seq<u8>) -> Format {
    let m = header.take(4);
    if m == format_magic(Format::Wbfs) {
        Format::Wbfs
    } else if m == format_magic(Format::Ciso) {
        Format::Ciso
    } else if m == format_magic(Format::Rvz) {
        Format::Rvz
    } else if m == format_magic(Format::Wia) {
        Format::Wia
    } else if m == format_magic(Format::Tgc) {
        Format::Tgc
    } else if m == format_magic(Format::Gcz) {
        Format::Gcz
    } else {
        Format::Iso
    }
}

/// The short upper-case name of a format.
pub open spec fn format_name(f: Format) -> Seq<char> {
    match f {
        Format::Iso => "ISO"@,
        Format::Wbfs => "WBFS"@,
        Format::Ciso => "CISO"@,
        Format::Rvz => "RVZ"@,
        Format::Wia => "WIA"@,
        Format::Tgc => "TGC"@,
        Format::Gcz => "GCZ"@,
    }
}

/// Whether the four bytes `b0 b1 b2 b3` are the four bytes `m0 m1 m2 m3`.
fn is_magic(b0: u8, b1: u8, b2: u8, b3: u8, m0: u8, m1: u8, m2: u8, m3: u8) -> (r: bool)
    ensures
        r == (seq![b0, b1, b2, b3] == seq![m0, m1, m2, m3]),
{
    let r = b0 == m0 && b1 == m1 && b2 == m2 && b3 == m3;
    proof {
        if !r {
            let s = seq![b0, b1, b2, b3];
            let t = seq![m0, m1, m2, m3];
            assert(s[0] != t[0] || s[1] != t[1] || s[2] != t[2] || s[3] != t[3]);
        } else {
            assert(seq![b0, b1, b2, b3] =~= seq![m0, m1, m2, m3]);
        }
    }
    r
}

impl Format {
    /// Identifies the container format from the first bytes of an image.
    pub fn parse_header(header: &[u8]) -> (f: Self)
        requires
            header@.len() >= 4,
        ensures
            f == format_of_header(header@),
    {
        let (b0, b1, b2, b3) = (header[0], header[1], header[2], header[3]);
        assert(header@.take(4) =~= seq![b0, b1, b2, b3]);
        if is_magic(b0, b1, b2, b3, 0x57, 0x42, 0x46, 0x53) {
            Self::Wbfs
        } else if is_magic(b0, b1, b2, b3, 0x43, 0x49, 0x53, 0x4f) {
            Self::Ciso
        } else if is_magic(b0, b1, b2, b3, 0x52, 0x56, 0x5a, 0x01) {
            Self::Rvz
        } else if is_magic(b0, b1, b2, b3, 0x57, 0x49, 0x41, 0x01) {
            Self::Wia
        } else if is_magic(b0, b1, b2, b3, 0xae, 0x0f, 0x38, 0xa2) {
            Self::Tgc
        } else if is_magic(b0, b1, b2, b3, 0x01, 0xc0, 0x0b, 0xb1) {
            Self::Gcz
        } else {
            Self::Iso
        }
    }

    /// The short upper-case name of the format.
    pub fn as_str(&self) -> (s: &'static str)
        ensures
            s@ == format_name(*self),
    {
        match self {
            Format::Iso => "ISO",
            Format::Wbfs => "WBFS",
            Format::Ciso => "CISO",
            Format::Rvz => "RVZ",
            Format::Wia => "WIA",
            Format::Tgc => "TGC",
            Format::Gcz => "GCZ",
        }
    }
}

impl AsRef<str> for Format {
    fn as_ref(&self) -> (s: &str)
        ensures
            s@ == format_name(*self),
    {
        self.as_str()
    }
}

/// An image that opens with the magic of a format other than ISO is
/// identified as that format, whatever follows the magic.
pub proof fn lemma_magic_identifies_format(f: Format, rest: Seq<u8>)
    requires
        f != Format::Iso,
    ensures
        format_of_header(format_magic(f) + rest) == f,
{
    let h = format_magic(f) + rest;
    assert(h.take(4) =~= format_magic(f));
    assert(format_magic(Format::Wbfs) != format_magic(Format::Ciso)) by {
        assert(format_magic(Format::Wbfs)[0] != format_magic(Format::Ciso)[0]);
    }
    assert(format_magic(Format::Wbfs)[1] != format_magic(Format::Wia)[1]);
    assert(format_magic(Format::Wbfs)[0] != format_magic(Format::Rvz)[0]);
    assert(format_magic(Format::Wbfs)[0] != format_magic(Format::Tgc)[0]);
    assert(format_magic(Format::Wbfs)[0] != format_magic(Format::Gcz)[0]);
    assert(format_magic(Format::Ciso)[0] != format_magic(Format::Rvz)[0]);
    assert(format_magic(Format::Ciso)[0] != format_magic(Format::Wia)[0]);
    assert(format_magic(Format::Ciso)[0] != format_magic(Format::Tgc)[0]);
    assert(format_magic(Format::Ciso)[0] != format_magic(Format::Gcz)[0]);
    assert(format_magic(Format::Rvz)[0] != format_magic(Format::Wia)[0]);
    assert(format_magic(Format::Rvz)[0] != format_magic(Format::Tgc)[0]);
    assert(format_magic(Format::Rvz)[0] != format_magic(Format::Gcz)[0]);
    assert(format_magic(Format::Wia)[0] != format_magic(Format::Tgc)[0]);
    assert(format_magic(Format::Wia)[0] != format_magic(Format::Gcz)[0]);
    assert(format_magic(Format::Tgc)[0] != format_magic(Format::Gcz)[0]);
}

} // verus!
