use vstd::prelude::*;

verus! {

/// The kind of an I/O failure, as `std` reports it.
#[verifier::external_type_specification]
#[verifier::external_body]
pub struct ExIoErrorKind(std::io::ErrorKind);

/// An I/O error, as `std` reports it.
#[verifier::external_type_specification]
#[verifier::external_body]
pub struct ExIoError(std::io::Error);

/// The kind that `std::io::Error::kind` reports for an I/O error.
pub uninterp spec fn io_kind_of(err: std::io::Error) -> std::io::ErrorKind;

/// `std::io::Error::kind`: the kind of an I/O error, which is fixed by the
/// error value; the contract names it and states nothing more of it.
#[verifier::external_body]
fn io_error_kind(err: &std::io::Error) -> (k: std::io::ErrorKind)
    ensures
        k == io_kind_of(*err),
{
    err.kind()
}

/// `ErrorKind::clone`, which `derive(Clone)` wrote for a field-less enum: it
/// gives back the same kind. The derived `Clone` of `Error` calls it.
pub assume_specification[ <std::io::ErrorKind as Clone>::clone ](kind: &std::io::ErrorKind) -> (res: std::io::ErrorKind)
    ensures
        res == *kind,
;

/// Everything that can go wrong while reading the metadata of a disc image.
#[derive(Debug, Clone)]
pub enum Error {
    /// Reading the image failed.
    Io(std::io::ErrorKind),
    /// The header carries neither exactly the Wii magic nor exactly the GameCube magic.
    InvalidConsole,
    /// The game id is not 4 or 6 upper-case letters and digits.
    InvalidGameId,
    /// The game title is empty or not UTF-8.
    InvalidGameTitle,
    /// The GCZ block table is malformed, or block 0 cannot be turned into a header.
    Gcz,
}

impl From<std::io::Error> for Error {
    /// An I/O error becomes `Error::Io`, with the error's kind.
    fn from(err: std::io::Error) -> (r: Self)
        ensures
            r == Error::Io(io_kind_of(err)),
    {
        Error::Io(io_error_kind(&err))
    }
}

impl vstd::std_specs::convert::FromSpecImpl<std::io::Error> for Error {
    open spec fn obeys_from_spec() -> bool {
        true
    }

    open spec fn from_spec(err: std::io::Error) -> Self {
        Error::Io(io_kind_of(err))
    }
}

} // verus!
