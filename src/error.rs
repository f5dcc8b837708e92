//! Error kinds of the library.
use vstd::prelude::*;

verus! {

/// `std::io::Error`, carried opaquely in [`Error::Io`].
#[verifier::external_type_specification]
#[verifier::external_body]
pub struct ExIoError(std::io::Error);

/// `std::num::ParseIntError`, carried opaquely in [`Error::InvalidInt`].
#[verifier::external_type_specification]
#[verifier::external_body]
pub struct ExParseIntError(std::num::ParseIntError);

/// `std::str::ParseBoolError`, carried opaquely in [`Error::InvalidBool`].
#[verifier::external_type_specification]
#[verifier::external_body]
pub struct ExParseBoolError(std::str::ParseBoolError);

/// Everything that can go wrong while managing cpusets.
#[derive(Debug)]
pub enum Error {
    /// A filesystem or mount-process error.
    Io(std::io::Error),
    /// The directory of a new cpuset did not exist after it was created.
    CreationFailed,
    /// A field that should hold a non-negative integer did not.
    InvalidInt(std::num::ParseIntError),
    /// A field that should hold a boolean did not.
    InvalidBool(std::str::ParseBoolError),
    /// A CPU list in none of the accepted forms: the text and the expected forms.
    InvalidFormat(String, String),
    /// A `cpuset.cpu_exclusive` flag other than 0 or 1.
    UnexpectedFlag(usize),
    /// A cpuset path without a final component to name the set by.
    InvalidPath(String),
    /// The mount command ran but reported failure: its error output.
    MountFailed(String),
}

impl From<std::io::Error> for Error {
    fn from(e: std::io::Error) -> (r: Self)
        ensures
            r == Error::Io(e),
    {
        Error::Io(e)
    }
}

impl vstd::std_specs::convert::FromSpecImpl<std::io::Error> for Error {
    open spec fn obeys_from_spec() -> bool {
        true
    }

    open spec fn from_spec(e: std::io::Error) -> Self {
        Error::Io(e)
    }
}

impl From<std::num::ParseIntError> for Error {
    fn from(e: std::num::ParseIntError) -> (r: Self)
        ensures
            r == Error::InvalidInt(e),
    {
        Error::InvalidInt(e)
    }
}

impl vstd::std_specs::convert::FromSpecImpl<std::num::ParseIntError> for Error {
    open spec fn obeys_from_spec() -> bool {
        true
    }

    open spec fn from_spec(e: std::num::ParseIntError) -> Self {
        Error::InvalidInt(e)
    }
}

/// What an error says, with the outside payloads left out.
pub enum ErrorView {
    Io,
    CreationFailed,
    InvalidInt,
    InvalidBool,
    InvalidFormat(Seq<char>, Seq<char>),
    UnexpectedFlag(usize),
    InvalidPath(Seq<char>),
    MountFailed(Seq<char>),
}

impl View for Error {
    type V = ErrorView;

    open spec fn view(&self) -> ErrorView {
        match self {
            Error::Io(_) => ErrorView::Io,
            Error::CreationFailed => ErrorView::CreationFailed,
            Error::InvalidInt(_) => ErrorView::InvalidInt,
            Error::InvalidBool(_) => ErrorView::InvalidBool,
            Error::InvalidFormat(t, e) => ErrorView::InvalidFormat(t@, e@),
            Error::UnexpectedFlag(n) => ErrorView::UnexpectedFlag(*n),
            Error::InvalidPath(p) => ErrorView::InvalidPath(p@),
            Error::MountFailed(m) => ErrorView::MountFailed(m@),
        }
    }
}

} // verus!
