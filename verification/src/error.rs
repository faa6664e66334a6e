//! Error type shared by every decoding operation.

use vstd::prelude::*;

verus! {

/// A list specifying general categories of parse error.
#[derive(Copy, Clone, Debug, Hash, PartialEq, Eq, Structural)]
#[non_exhaustive]
pub enum ErrorKind {
    /// There was no more data in the buffer but more is required in order to
    /// parse the record.
    ///
    /// Returned by `ParseBuf::chunk` when there is no data left.
    Eof,

    /// A record was parsed, but it was invalid.
    ///
    /// This is for validation errors that occur when parsing the record:
    /// a header too small to hold its own frame, a declared body too short
    /// for the trailer it must carry, and the like.
    InvalidRecord,

    /// The configuration has options that are not supported by this library
    /// and ignoring them would return incorrect results.
    UnsupportedConfig,

    /// An external error, forwarded from a `ParseBuf` implementation.
    External,
}

/// The error type for parsing errors as returned by `Parser`.
///
/// The format used by perf events doesn't give many opportunities for error
/// checking so most parsing errors will have kind [`ErrorKind::Eof`].
#[derive(Copy, Clone, Debug, PartialEq, Eq, Structural)]
pub struct ParseError {
    code: ErrorKind,
}

impl ParseError {
    /// The kind of this error, as a specification-level value.
    pub closed spec fn spec_kind(&self) -> ErrorKind {
        self.code
    }

    /// Create a new `ParseError` of the given kind.
    ///
    /// The error carries its kind and nothing else; a buffer
    /// implementation that fails for an outside reason reports it as
    /// [`ErrorKind::External`] and keeps the details on its own side.
    pub fn new(code: ErrorKind) -> (r: Self)
        ensures
            r.spec_kind() == code,
    {
        ParseError { code }
    }

    /// Get the [`ErrorKind`] of this error.
    pub fn kind(&self) -> (r: ErrorKind)
        ensures
            r == self.spec_kind(),
    {
        self.code
    }

    /// More input was needed before the item could be successfully parsed.
    pub fn eof() -> (r: Self)
        ensures
            r.spec_kind() == ErrorKind::Eof,
    {
        ParseError { code: ErrorKind::Eof }
    }

    /// A short human-readable description of the error.
    pub fn description(&self) -> (r: &'static str) {
        match self.code {
            ErrorKind::Eof => "unexpected EOF during parsing",
            ErrorKind::InvalidRecord => "invalid record",
            ErrorKind::UnsupportedConfig => "unsupported config",
            ErrorKind::External => "external error",
        }
    }
}

/// A specialized result type used by parse operations.
pub type ParseResult<T> = Result<T, ParseError>;

} // verus!
