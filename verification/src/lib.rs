//! Reads the metadata of a Wii or GameCube disc image: its container format,
//! game id, title, console, disc number and version.

pub mod errors;
pub mod formats;
pub mod game_id;
pub mod gcz;
pub mod regions;
mod text;

use vstd::prelude::*;
use vstd::string::*;
use vstd::utf8::*;

pub use crate::errors::Error;
pub use crate::formats::Format;
pub use crate::game_id::GameID;
pub use crate::regions::RegionCode;

use crate::formats::format_of_header;
use crate::game_id::is_valid_game_id;
use crate::gcz::{
    assembled_block0, block0_fetch_len, block0_fetchable, block0_header, extracted_header,
    gcz_block0_info, gcz_block0_ok, header_extractable, parse_block0_info, Block0Info,
};
use crate::text::str_from_utf8;

verus! {

/// How many bytes of a disc header are read: id, disc number, version, magics and title.
pub const HEADER_SIZE: usize = 0x60;

/// How many bytes are read from the start of an image before anything else.
pub const BUF_SIZE: usize = 0x8000;

/// How many bytes the game title field takes.
pub const TITLE_SIZE: usize = 0x40;

/// The magic of a Wii disc, at 0x18 of the header.
pub open spec fn wii_magic() -> Seq<u8> {
    seq![0x5du8, 0x1c, 0x9e, 0xa3]
}

/// The magic of a GameCube disc, at 0x1C of the header.
pub open spec fn gc_magic() -> Seq<u8> {
    seq![0xc2u8, 0x33, 0x9f, 0x3d]
}

/// Whether a disc header carries the Wii magic.
pub open spec fn has_wii_magic(h: Seq<u8>) -> bool {
    h.subrange(0x18, 0x1c) == wii_magic()
}

/// Whether a disc header carries the GameCube magic.
pub open spec fn has_gc_magic(h: Seq<u8>) -> bool {
    h.subrange(0x1c, 0x20) == gc_magic()
}

/// The game id field of a disc header.
pub open spec fn header_game_id(h: Seq<u8>) -> Seq<u8> {
    h.take(6)
}

/// The game title field of a disc header.
pub open spec fn header_title(h: Seq<u8>) -> Seq<u8> {
    h.subrange(0x20, 0x60)
}

/// Whether `n` is where the title in `t` ends: at the first zero byte, or at
/// the end of the field where there is none.
pub open spec fn is_title_end(t: Seq<u8>, n: int) -> bool {
    &&& 0 <= n <= t.len()
    &&& forall|i: int| 0 <= i < n ==> #[trigger] t[i] != 0
    &&& n < t.len() ==> t[n] == 0
}

/// Where the header of a disc is found in an image of the given format.
#[derive(Debug, Clone, Copy, PartialEq, Eq, Structural)]
pub enum HeaderSource {
    /// In the first `BUF_SIZE` bytes, at this offset.
    Buffered(usize),
    /// At the start of the next `BUF_SIZE` bytes.
    NextBuffer,
    /// At the start of GCZ block 0.
    GczBlock0,
}

/// Where each container format keeps the disc header.
pub open spec fn header_source_of(f: Format) -> HeaderSource {
    match f {
        Format::Iso => HeaderSource::Buffered(0),
        Format::Wbfs => HeaderSource::Buffered(0x200),
        Format::Rvz | Format::Wia => HeaderSource::Buffered(0x58),
        Format::Ciso | Format::Tgc => HeaderSource::NextBuffer,
        Format::Gcz => HeaderSource::GczBlock0,
    }
}

/// Where an image of the given format keeps the disc header.
pub fn header_source(format: Format) -> (s: HeaderSource)
    ensures
        s == header_source_of(format),
{
    match format {
        Format::Iso => HeaderSource::Buffered(0),
        Format::Wbfs => HeaderSource::Buffered(0x200),
        Format::Rvz | Format::Wia => HeaderSource::Buffered(0x58),
        Format::Ciso | Format::Tgc => HeaderSource::NextBuffer,
        Format::Gcz => HeaderSource::GczBlock0,
    }
}

/// Copies the `HEADER_SIZE` bytes at `offset` out of `buf`.
pub fn header_at(buf: &[u8], offset: usize) -> (h: [u8; HEADER_SIZE])
    requires
        offset + HEADER_SIZE <= buf.len(),
    ensures
        h@ == buf@.subrange(offset as int, offset + HEADER_SIZE),
{
    let mut h = [0u8; HEADER_SIZE];
    let mut i: usize = 0;
    while i < HEADER_SIZE
        invariant
            i <= HEADER_SIZE,
            offset + HEADER_SIZE <= buf.len(),
            forall|j: int| 0 <= j < i ==> h@[j] == buf@[offset + j],
        decreases HEADER_SIZE - i,
    {
        h[i] = buf[offset + i];
        i = i + 1;
    }
    assert(h@ =~= buf@.subrange(offset as int, offset + HEADER_SIZE));
    h
}

/// Every header that an image keeps inside its first buffer lies wholly inside it.
pub proof fn lemma_buffered_header_fits(f: Format)
    ensures
        header_source_of(f) matches HeaderSource::Buffered(offset) ==> offset + HEADER_SIZE
            <= BUF_SIZE,
{
}

/// The error that a disc header is refused with, if any: the console is
/// checked first (exactly one of the Wii and GameCube magics), then the game
/// id, then the title (non-empty, and the whole field valid UTF-8).
pub open spec fn header_error(h: Seq<u8>) -> Option<Error> {
    if has_wii_magic(h) == has_gc_magic(h) {
        Some(Error::InvalidConsole)
    } else if !is_valid_game_id(header_game_id(h)) {
        Some(Error::InvalidGameId)
    } else if h[0x20] == 0 || !valid_utf8(header_title(h)) {
        Some(Error::InvalidGameTitle)
    } else {
        None
    }
}

/// Whether `r` is what checking the disc header `h` of an image in format `f`
/// gives: the first error of the header, else the metadata that it holds.
pub open spec fn meta_outcome(r: Result<Meta, Error>, f: Format, h: Seq<u8>) -> bool {
    &&& r is Ok <==> header_error(h) is None
    &&& r matches Err(e) ==> header_error(h) == Some(e)
    &&& r matches Ok(m) ==> m.read_from(f, h)
}

/// The metadata read from a disc header reports the header's fields as they
/// are: the format it was read as, the id (bytes 0..6), the disc number
/// (byte 6) and version (byte 7) for every value, Wii exactly when the Wii
/// magic is at 0x18 (else the GameCube magic is at 0x1C), and a title that is
/// a non-empty run of nonzero bytes from 0x20, ending at a zero byte or at the
/// end of the field.
pub proof fn lemma_meta_reports_header(m: Meta, f: Format, h: Seq<u8>)
    requires
        h.len() == HEADER_SIZE,
        meta_outcome(Ok(m), f, h),
    ensures
        m.format_spec() == f,
        m.game_id_spec()@ == h.subrange(0, 6),
        m.disc_number_spec() == h[6],
        m.disc_version_spec() == h[7],
        m.is_wii_spec() == (h[0x18] == 0x5d && h[0x19] == 0x1c && h[0x1a] == 0x9e && h[0x1b]
            == 0xa3),
        !m.is_wii_spec() ==> (h[0x1c] == 0xc2 && h[0x1d] == 0x33 && h[0x1e] == 0x9f && h[0x1f]
            == 0x3d),
        1 <= m.title_spec().len() <= TITLE_SIZE,
        m.title_spec() == h.subrange(0x20, 0x20 + m.title_spec().len() as int),
        forall|i: int| 0 <= i < m.title_spec().len() ==> #[trigger] m.title_spec()[i] != 0,
        m.title_spec().len() < TITLE_SIZE ==> h[0x20 + m.title_spec().len() as int] == 0,
{
    let w = h.subrange(0x18, 0x1c);
    let g = h.subrange(0x1c, 0x20);
    if w == wii_magic() {
        assert(w[0] == 0x5d && w[1] == 0x1c && w[2] == 0x9e && w[3] == 0xa3);
    } else if h[0x18] == 0x5d && h[0x19] == 0x1c && h[0x1a] == 0x9e && h[0x1b] == 0xa3 {
        assert(w =~= wii_magic());
    }
    if !m.is_wii_spec() {
        assert(has_gc_magic(h));
        assert(g[0] == 0xc2 && g[1] == 0x33 && g[2] == 0x9f && g[3] == 0x3d);
    }
    let t = header_title(h);
    let n = m.title_spec().len() as int;
    assert(h[0x20] == t[0]);
    if n == 0 {
        assert(t[0] == 0);
    }
    assert(m.title_spec() =~= h.subrange(0x20, 0x20 + n));
    assert forall|i: int| 0 <= i < n implies #[trigger] m.title_spec()[i] != 0 by {
        assert(m.title_spec()[i] == t[i]);
    }
    if n < TITLE_SIZE {
        assert(h[0x20 + n] == t[n]);
    }
}

/// The metadata of a disc image.
#[derive(Debug, Clone, Copy)]
pub struct Meta {
    format: Format,
    game_id: GameID,
    game_title: [u8; TITLE_SIZE],
    game_title_len: u8,
    is_wii: bool,
    disc_number: u8,
    disc_version: u8,
}

impl Meta {
    /// The title field holds a non-empty title that ends at its first zero
    /// byte (or fills the field) and is valid UTF-8.
    #[verifier::type_invariant]
    spec fn inv(self) -> bool {
        &&& 1 <= self.game_title_len
        &&& is_title_end(self.game_title@, self.game_title_len as int)
        &&& valid_utf8(self.game_title@.take(self.game_title_len as int))
    }

    /// The container format of the image.
    pub closed spec fn format_spec(&self) -> Format {
        self.format
    }

    /// The game id.
    pub closed spec fn game_id_spec(&self) -> GameID {
        self.game_id
    }

    /// The bytes of the game title, up to its end.
    pub closed spec fn title_spec(&self) -> Seq<u8> {
        self.game_title@.take(self.game_title_len as int)
    }

    /// Whether the disc is a Wii disc (else a GameCube disc).
    pub closed spec fn is_wii_spec(&self) -> bool {
        self.is_wii
    }

    /// The disc number.
    pub closed spec fn disc_number_spec(&self) -> u8 {
        self.disc_number
    }

    /// The disc version.
    pub closed spec fn disc_version_spec(&self) -> u8 {
        self.disc_version
    }

    /// Whether this is the metadata that the disc header `h` of an image in
    /// format `f` holds: the format, the id, the console by its magic, the
    /// disc number and version, and the title up to its end.
    pub open spec fn read_from(&self, f: Format, h: Seq<u8>) -> bool {
        &&& self.format_spec() == f
        &&& self.game_id_spec()@ == header_game_id(h)
        &&& self.is_wii_spec() == has_wii_magic(h)
        &&& self.disc_number_spec() == h[6]
        &&& self.disc_version_spec() == h[7]
        &&& is_title_end(header_title(h), self.title_spec().len() as int)
        &&& self.title_spec() == header_title(h).take(self.title_spec().len() as int)
    }

    /// Finishes reading the metadata once the header was fetched: an error in
    /// fetching it is the result, else the header is checked as `from_header`
    /// does.
    pub fn from_header_result(format: Format, header: Result<[u8; HEADER_SIZE], Error>) -> (r:
        Result<Meta, Error>)
        ensures
            header matches Err(e) ==> r == Err::<Meta, Error>(e),
            header matches Ok(h) ==> meta_outcome(r, format, h@),
    {
        match header {
            Ok(h) => Meta::from_header(format, &h),
            Err(e) => Err(e),
        }
    }

    /// Checks a disc header and reads the metadata out of it. The header must
    /// carry exactly one of the Wii and GameCube magics, a valid game id and a
    /// non-empty UTF-8 title; the errors are checked in that order.
    pub fn from_header(format: Format, header: &[u8; HEADER_SIZE]) -> (r: Result<Meta, Error>)
        ensures
            meta_outcome(r, format, header@),
    {
        let is_wii = header[0x18] == 0x5d && header[0x19] == 0x1c && header[0x1a] == 0x9e
            && header[0x1b] == 0xa3;
        let is_gc = header[0x1c] == 0xc2 && header[0x1d] == 0x33 && header[0x1e] == 0x9f
            && header[0x1f] == 0x3d;
        proof {
            let h = header@;
            if is_wii {
                assert(h.subrange(0x18, 0x1c) =~= wii_magic());
            } else {
                assert(h.subrange(0x18, 0x1c)[0] != wii_magic()[0] || h.subrange(0x18, 0x1c)[1]
                    != wii_magic()[1] || h.subrange(0x18, 0x1c)[2] != wii_magic()[2] || h.subrange(
                    0x18,
                    0x1c,
                )[3] != wii_magic()[3]);
            }
            if is_gc {
                assert(h.subrange(0x1c, 0x20) =~= gc_magic());
            } else {
                assert(h.subrange(0x1c, 0x20)[0] != gc_magic()[0] || h.subrange(0x1c, 0x20)[1]
                    != gc_magic()[1] || h.subrange(0x1c, 0x20)[2] != gc_magic()[2] || h.subrange(
                    0x1c,
                    0x20,
                )[3] != gc_magic()[3]);
            }
        }
        if is_wii == is_gc {
            return Err(Error::InvalidConsole);
        }
        let id_bytes: [u8; 6] = [header[0], header[1], header[2], header[3], header[4], header[5]];
        assert(id_bytes@ =~= header_game_id(header@));
        let game_id = match GameID::try_from(id_bytes) {
            Ok(id) => id,
            Err(e) => {
                return Err(e);
            },
        };
        let mut game_title = [0u8; TITLE_SIZE];
        let mut i: usize = 0;
        while i < TITLE_SIZE
            invariant
                i <= TITLE_SIZE,
                forall|j: int| 0 <= j < i ==> game_title@[j] == header@[0x20 + j],
            decreases TITLE_SIZE - i,
        {
            game_title[i] = header[0x20 + i];
            i = i + 1;
        }
        assert(game_title@ =~= header_title(header@));
        let mut len: usize = 0;
        while len < TITLE_SIZE && game_title[len] != 0
            invariant
                len <= TITLE_SIZE,
                forall|j: int| 0 <= j < len ==> game_title@[j] != 0,
            decreases TITLE_SIZE - len,
        {
            len = len + 1;
        }
        if len == 0 {
            return Err(Error::InvalidGameTitle);
        }
        if str_from_utf8(game_title.as_slice()).is_none() {
            return Err(Error::InvalidGameTitle);
        }
        proof {
            let t = game_title@;
            if len < TITLE_SIZE {
                is_char_boundary_iff_not_is_continuation_byte(t, len as int);
                valid_utf8_split(t, len as int);
                assert(t.subrange(0, len as int) =~= t.take(len as int));
            } else {
                assert(t.take(len as int) =~= t);
            }
        }
        let m = Meta {
            format,
            game_id,
            game_title,
            game_title_len: len as u8,
            is_wii,
            disc_number: header[6],
            disc_version: header[7],
        };
        assert(m.title_spec().len() == len);
        Ok(m)
    }

    /// The container format of the image.
    #[must_use]
    #[inline]
    pub fn format(&self) -> (f: Format)
        ensures
            f == self.format_spec(),
    {
        self.format
    }

    /// The game id.
    #[must_use]
    #[inline]
    pub fn game_id(&self) -> (id: GameID)
        ensures
            id == self.game_id_spec(),
    {
        self.game_id
    }

    /// The disc number, for games that span several discs.
    #[must_use]
    #[inline]
    pub fn disc_number(&self) -> (n: u8)
        ensures
            n == self.disc_number_spec(),
    {
        self.disc_number
    }

    /// The disc version.
    #[must_use]
    #[inline]
    pub fn disc_version(&self) -> (v: u8)
        ensures
            v == self.disc_version_spec(),
    {
        self.disc_version
    }

    /// Whether the disc is a Wii disc.
    #[must_use]
    #[inline]
    pub fn is_wii(&self) -> (b: bool)
        ensures
            b == self.is_wii_spec(),
    {
        self.is_wii
    }

    /// Whether the disc is a GameCube disc: exactly when it is not a Wii disc.
    #[must_use]
    #[inline]
    pub fn is_gc(&self) -> (b: bool)
        ensures
            b == !self.is_wii_spec(),
    {
        !self.is_wii
    }

    /// The game title, up to its first zero byte.
    #[must_use]
    #[inline]
    pub fn game_title(&self) -> (s: &str)
        ensures
            s.spec_bytes() == self.title_spec(),
            1 <= self.title_spec().len() <= TITLE_SIZE,
    {
        proof {
            use_type_invariant(self);
        }
        let len = self.game_title_len as usize;
        let bytes = &self.game_title.as_slice()[0..len];
        assert(bytes@ =~= self.title_spec());
        match str_from_utf8(bytes) {
            Some(s) => s,
            None => {
                proof {
                    assert(false);
                }
                ""
            },
        }
    }
}

/// What reading the metadata goes on with once the first `BUF_SIZE` bytes of
/// the image are read.
#[derive(Debug)]
pub enum ReadPlan {
    /// The metadata (or the error) is known from the first bytes.
    Done(Result<Meta, Error>),
    /// The header is at the start of the next `BUF_SIZE` bytes.
    NextBuffer(Format),
    /// The header is in GCZ block 0, laid out as given.
    GczBlock0(Block0Info),
}

impl Meta {
    /// Starts reading the metadata from the first `BUF_SIZE` bytes of an
    /// image: identifies the format, and either checks the header found there,
    /// or says where the header is to be read from.
    pub fn read_first(first: &[u8]) -> (p: ReadPlan)
        requires
            first@.len() == BUF_SIZE,
        ensures
            header_source_of(format_of_header(first@)) matches HeaderSource::Buffered(o) ==> (
            p matches ReadPlan::Done(r) && meta_outcome(
                r,
                format_of_header(first@),
                first@.subrange(o as int, o + HEADER_SIZE),
            )),
            header_source_of(format_of_header(first@)) == HeaderSource::NextBuffer ==> (
            p matches ReadPlan::NextBuffer(f) && f == format_of_header(first@)),
            format_of_header(first@) == Format::Gcz && gcz_block0_ok(first@) ==> (
            p matches ReadPlan::GczBlock0(info) && info == gcz_block0_info(first@)),
            format_of_header(first@) == Format::Gcz && !gcz_block0_ok(first@) ==> (
            p matches ReadPlan::Done(r) && r == Err::<Meta, Error>(Error::Gcz)),
    {
        let format = Format::parse_header(first);
        match header_source(format) {
            HeaderSource::Buffered(offset) => {
                proof {
                    lemma_buffered_header_fits(format);
                }
                let header = header_at(first, offset);
                ReadPlan::Done(Meta::from_header(format, &header))
            },
            HeaderSource::NextBuffer => ReadPlan::NextBuffer(format),
            HeaderSource::GczBlock0 => match parse_block0_info(first) {
                Ok(info) => ReadPlan::GczBlock0(info),
                Err(e) => ReadPlan::Done(Err(e)),
            },
        }
    }

    /// Reads the metadata from the header at the start of the second
    /// `BUF_SIZE` bytes (CISO and TGC images).
    pub fn read_second(format: Format, second: &[u8]) -> (r: Result<Meta, Error>)
        requires
            second@.len() >= HEADER_SIZE,
        ensures
            meta_outcome(r, format, second@.take(HEADER_SIZE as int)),
    {
        let header = header_at(second, 0);
        assert(header@ =~= second@.take(HEADER_SIZE as int));
        Meta::from_header(format, &header)
    }

    /// Reads the metadata of a GCZ image from block 0, put together from the
    /// first buffer and the bytes read after the skip: a block that yields no
    /// header is a GCZ error, else its header is checked as for any format.
    pub fn read_gcz_block0(first: &[u8], info: &Block0Info, fetched: &[u8]) -> (r: Result<
        Meta,
        Error,
    >)
        requires
            info.data_start <= BUF_SIZE ==> first@.len() == BUF_SIZE,
            block0_fetchable(*info),
            fetched@.len() == block0_fetch_len(*info),
        ensures
            !header_extractable(assembled_block0(first@, *info, fetched@), info.is_uncompressed)
                ==> r == Err::<Meta, Error>(Error::Gcz),
            header_extractable(assembled_block0(first@, *info, fetched@), info.is_uncompressed)
                ==> extracted_header(
                assembled_block0(first@, *info, fetched@),
                info.is_uncompressed,
            ).len() == HEADER_SIZE,
            header_extractable(assembled_block0(first@, *info, fetched@), info.is_uncompressed)
                ==> meta_outcome(
                r,
                Format::Gcz,
                extracted_header(assembled_block0(first@, *info, fetched@), info.is_uncompressed),
            ),
    {
        let header = block0_header(first, info, fetched);
        Meta::from_header_result(Format::Gcz, header)
    }
}

} // verus!
