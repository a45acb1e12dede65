use vstd::prelude::*;

verus! {

/// Why a read failed.
#[derive(Debug, Clone, Copy, PartialEq, Eq, Structural)]
pub enum ReadError {
    /// The source ran out before the requested number of bytes.
    UnexpectedEof,
    /// A length cannot be turned into an element count (it is negative).
    InvalidLength,
    /// Bytes declared as text are not valid UTF-8.
    InvalidUtf8,
    /// A string length of `i32::MIN`, whose magnitude has no `i32`.
    MalformedLength,
    /// A negative string length: a UTF-16 payload, which is not decoded.
    UnsupportedEncoding,
}

/// The outcome of a read: the decoded value or the first error met.
pub type ReaderResult<T> = Result<T, ReadError>;

impl ReadError {
    /// A short description of the error.
    pub fn message(&self) -> (r: &'static str) {
        match self {
            ReadError::UnexpectedEof => "unexpected end of input",
            ReadError::InvalidLength => "invalid length",
            ReadError::InvalidUtf8 => "invalid UTF-8 text",
            ReadError::MalformedLength => "malformed string length",
            ReadError::UnsupportedEncoding => "UTF-16 strings are not supported",
        }
    }
}

} // verus!
