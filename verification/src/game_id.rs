use vstd::prelude::*;
use vstd::string::*;

use crate::errors::Error;
use crate::regions::{region_of_byte, RegionCode};
use crate::text::{all_ascii, lemma_ascii_valid_utf8, str_from_utf8};

verus! {

/// Whether a byte may stand in a game id: an upper-case ASCII letter or an ASCII digit.
pub open spec fn is_id_char(c: u8) -> bool {
    (0x41 <= c <= 0x5a) || (0x30 <= c <= 0x39)
}

/// Whether six bytes form a valid game id: the bytes before the first zero
/// byte (all six where there is none) are four or six upper-case letters and
/// digits. After a four-character id the last byte is not looked at.
pub open spec fn is_valid_game_id(b: Seq<u8>) -> bool {
    &&& b.len() == 6
    &&& forall|i: int| 0 <= i < 4 ==> is_id_char(#[trigger] b[i])
    &&& (b[4] == 0 || (is_id_char(b[4]) && is_id_char(b[5])))
}

/// The six zero bytes of the default game id.
pub open spec fn blank_game_id() -> Seq<u8> {
    seq![0u8, 0, 0, 0, 0, 0]
}

/// How many bytes of a game id are shown: four when the fifth byte is zero, else six.
pub open spec fn display_len(b: Seq<u8>) -> int {
    if b[4] == 0 {
        4
    } else {
        6
    }
}

/// The bytes of a game id that are shown.
pub open spec fn displayed(b: Seq<u8>) -> Seq<u8> {
    b.take(display_len(b))
}

/// The six bytes of a game id read from a string: its first six bytes, with
/// zero bytes after a shorter string.
pub open spec fn id_bytes_of_str(s: Seq<u8>) -> Seq<u8> {
    Seq::new(6, |i: int| if i < s.len() { s[i] } else { 0u8 })
}

/// The game id of the Scandinavian release of Ratatouille, "RLWW78", whose
/// region byte says otherwise.
pub open spec fn ratatouille_scandinavia() -> Seq<u8> {
    seq![0x52u8, 0x4c, 0x57, 0x57, 0x37, 0x38]
}

/// The region of a game id.
pub open spec fn region_of_id(b: Seq<u8>) -> RegionCode {
    if b == ratatouille_scandinavia() {
        RegionCode::Scandinavia
    } else {
        region_of_byte(b[3])
    }
}

/// Which six bytes a game id accepts: with `n` the place of the first zero
/// byte (6 where there is none), exactly those where `n` is 4 or 6 and every
/// byte before `n` is an ASCII upper-case letter or digit, wherever the letters
/// and digits stand.
pub proof fn lemma_valid_game_id_bytes(b: Seq<u8>, n: int)
    requires
        b.len() == 6,
        0 <= n <= 6,
        forall|i: int| 0 <= i < n ==> b[i] != 0,
        n < 6 ==> b[n] == 0,
    ensures
        is_valid_game_id(b) <==> {
            &&& n == 4 || n == 6
            &&& forall|i: int|
                0 <= i < n ==> (0x41 <= #[trigger] b[i] <= 0x5a || 0x30 <= b[i] <= 0x39)
        },
{
    if is_valid_game_id(b) {
        if b[4] == 0 {
            assert(b[0] != 0 && b[1] != 0 && b[2] != 0 && b[3] != 0);
            assert(n == 4);
        } else {
            assert(b[5] != 0);
            assert(n == 6);
        }
    }
    if (n == 4 || n == 6) && forall|i: int|
        0 <= i < n ==> (0x41 <= #[trigger] b[i] <= 0x5a || 0x30 <= b[i] <= 0x39) {
        assert(forall|i: int| 0 <= i < 4 ==> is_id_char(#[trigger] b[i]));
        if n == 6 {
            assert(is_id_char(b[4]) && is_id_char(b[5]));
        }
    }
}

/// Reading back the text of a valid game id gives a valid id with the same
/// text; where the text shows all six bytes, or the sixth byte is zero, it
/// gives back the very same id.
pub proof fn lemma_display_parse_roundtrip(b: Seq<u8>)
    requires
        is_valid_game_id(b),
    ensures
        is_valid_game_id(id_bytes_of_str(displayed(b))),
        displayed(id_bytes_of_str(displayed(b))) == displayed(b),
        display_len(b) == 6 || b[5] == 0 ==> id_bytes_of_str(displayed(b)) == b,
{
    let d = displayed(b);
    let p = id_bytes_of_str(d);
    assert(forall|i: int| 0 <= i < display_len(b) ==> p[i] == b[i]);
    assert(displayed(p) =~= d);
    if display_len(b) == 6 || b[5] == 0 {
        assert(p =~= b);
    }
}

/// The identifier of a game, such as "RMCP01": six bytes, of which the last two
/// may be zero.
#[derive(Debug, Clone, Copy)]
pub struct GameID {
    inner: [u8; 6],
}

impl View for GameID {
    type V = Seq<u8>;

    closed spec fn view(&self) -> Seq<u8> {
        self.inner@
    }
}

impl GameID {
    /// A game id is a valid one or the blank default.
    #[verifier::type_invariant]
    spec fn inv(self) -> bool {
        is_valid_game_id(self.inner@) || self.inner@ == blank_game_id()
    }

    /// The id as text: four or six characters.
    #[inline]
    pub fn as_str(&self) -> (s: &str)
        ensures
            s.spec_bytes() == displayed(self@),
    {
        proof {
            use_type_invariant(self);
        }
        let len: usize = if self.inner[4] == 0 {
            4
        } else {
            6
        };
        let bytes = &self.inner.as_slice()[0..len];
        proof {
            assert(bytes@ =~= displayed(self@));
            assert(all_ascii(bytes@));
            lemma_ascii_valid_utf8(bytes@);
        }
        match str_from_utf8(bytes) {
            Some(s) => s,
            None => {
                proof {
                    assert(false);
                }
                ""
            },
        }
    }

    /// The first three characters of the id: the game code without its region.
    #[inline]
    pub fn as_partial_str(&self) -> (s: &str)
        ensures
            s.spec_bytes() == self@.take(3),
    {
        proof {
            use_type_invariant(self);
        }
        let bytes = &self.inner.as_slice()[0..3];
        proof {
            assert(bytes@ =~= self@.take(3));
            assert(all_ascii(bytes@));
            lemma_ascii_valid_utf8(bytes@);
        }
        match str_from_utf8(bytes) {
            Some(s) => s,
            None => {
                proof {
                    assert(false);
                }
                ""
            },
        }
    }

    /// The six bytes of the id.
    #[inline]
    pub fn to_bytes(&self) -> (b: [u8; 6])
        ensures
            b@ == self@,
            is_valid_game_id(b@) || b@ == blank_game_id(),
    {
        proof {
            use_type_invariant(self);
        }
        self.inner
    }

    /// The region the game was released for.
    #[inline]
    pub fn region(&self) -> (r: RegionCode)
        ensures
            r == region_of_id(self@),
    {
        let b = &self.inner;
        if b[0] == 0x52 && b[1] == 0x4c && b[2] == 0x57 && b[3] == 0x57 && b[4] == 0x37 && b[5]
            == 0x38 {
            assert(self@ =~= ratatouille_scandinavia());
            return RegionCode::Scandinavia;
        }
        proof {
            if self@ == ratatouille_scandinavia() {
                assert(self@[0] == 0x52 && self@[1] == 0x4c && self@[2] == 0x57);
                assert(self@[3] == 0x57 && self@[4] == 0x37 && self@[5] == 0x38);
            }
        }
        RegionCode::from_region_byte(b[3])
    }

    /// Reads a game id from text: its first six bytes, zero-padded, must form a valid id.
    pub fn parse(s: &str) -> (r: Result<GameID, Error>)
        ensures
            r is Ok <==> is_valid_game_id(id_bytes_of_str(s.spec_bytes())),
            r matches Ok(id) ==> id@ == id_bytes_of_str(s.spec_bytes()),
            r matches Err(e) ==> e == Error::InvalidGameId,
    {
        let bytes = s.as_bytes();
        let mut buf = [0u8; 6];
        let mut i: usize = 0;
        while i < 6 && i < bytes.len()
            invariant
                i <= 6,
                i <= bytes@.len(),
                bytes@ == s.spec_bytes(),
                forall|j: int| 0 <= j < i ==> buf@[j] == bytes@[j],
                forall|j: int| i <= j < 6 ==> buf@[j] == 0,
            decreases 6 - i,
        {
            buf[i] = bytes[i];
            i = i + 1;
        }
        assert(buf@ =~= id_bytes_of_str(s.spec_bytes()));
        GameID::try_from(buf)
    }
}

impl Default for GameID {
    /// The blank id, six zero bytes.
    fn default() -> (id: Self)
        ensures
            id@ == blank_game_id(),
    {
        let id = GameID { inner: [0u8, 0, 0, 0, 0, 0] };
        assert(id@ =~= blank_game_id());
        id
    }
}

impl TryFrom<[u8; 6]> for GameID {
    type Error = Error;

    /// Accepts exactly the valid game ids.
    fn try_from(value: [u8; 6]) -> (r: Result<Self, Self::Error>)
        ensures
            r is Ok <==> is_valid_game_id(value@),
            r matches Ok(id) ==> id@ == value@,
            r matches Err(e) ==> e == Error::InvalidGameId,
    {
        let mut len: usize = 0;
        while len < 6 && value[len] != 0
            invariant
                len <= 6,
                forall|j: int| 0 <= j < len ==> value@[j] != 0,
            decreases 6 - len,
        {
            len = len + 1;
        }
        if len != 4 && len != 6 {
            return Err(Error::InvalidGameId);
        }
        let mut i: usize = 0;
        while i < len
            invariant
                i <= len,
                len == 4 || len == 6,
                forall|j: int| 0 <= j < len ==> value@[j] != 0,
                len < 6 ==> value@[len as int] == 0,
                forall|j: int| 0 <= j < i ==> is_id_char(value@[j]),
            decreases len - i,
        {
            let b = value[i];
            if !((0x41 <= b && b <= 0x5a) || (0x30 <= b && b <= 0x39)) {
                return Err(Error::InvalidGameId);
            }
            i = i + 1;
        }
        Ok(GameID { inner: value })
    }
}

impl vstd::std_specs::convert::TryFromSpecImpl<[u8; 6]> for GameID {
    open spec fn obeys_try_from_spec() -> bool {
        true
    }

    closed spec fn try_from_spec(value: [u8; 6]) -> Result<Self, Error> {
        if is_valid_game_id(value@) {
            Ok(GameID { inner: value })
        } else {
            Err(Error::InvalidGameId)
        }
    }
}

impl core::str::FromStr for GameID {
    type Err = Error;

    fn from_str(s: &str) -> (r: Result<Self, Self::Err>)
        ensures
            r is Ok <==> is_valid_game_id(id_bytes_of_str(s.spec_bytes())),
            r matches Ok(id) ==> id@ == id_bytes_of_str(s.spec_bytes()),
            r matches Err(e) ==> e == Error::InvalidGameId,
    {
        GameID::parse(s)
    }
}

impl PartialEq for GameID {
    fn eq(&self, other: &Self) -> (r: bool) {
        let a = &self.inner;
        let b = &other.inner;
        let r = a[0] == b[0] && a[1] == b[1] && a[2] == b[2] && a[3] == b[3] && a[4] == b[4] && a[5]
            == b[5];
        proof {
            if r {
                assert(self@ =~= other@);
            }
        }
        r
    }
}

impl vstd::std_specs::cmp::PartialEqSpecImpl for GameID {
    open spec fn obeys_eq_spec() -> bool {
        true
    }

    open spec fn eq_spec(&self, other: &Self) -> bool {
        self@ == other@
    }
}

impl Eq for GameID {

}

impl AsRef<str> for GameID {
    fn as_ref(&self) -> (s: &str)
        ensures
            s.spec_bytes() == displayed(self@),
    {
        self.as_str()
    }
}

} // verus!
