//! Errors of device frame parsing.
use vstd::prelude::*;

verus! {

/// Why a device frame could not be read.
#[derive(Debug, Clone, PartialEq, Eq)]
pub enum ParseError {
    TooShort,
    InvalidHeader,
    Checksum,
    Version,
    Io(String),
}

impl ParseError {
    /// The error's message.
    pub fn message(&self) -> (r: String)
        ensures
            match self {
                ParseError::TooShort => r@ == "buffer too short"@,
                ParseError::InvalidHeader => r@ == "invalid header"@,
                ParseError::Checksum => r@ == "checksum mismatch"@,
                ParseError::Version => r@ == "unsupported protocol version"@,
                ParseError::Io(m) => r@ == "io error: "@ + m@,
            },
    {
        match self {
            ParseError::TooShort => String::from_str("buffer too short"),
            ParseError::InvalidHeader => String::from_str("invalid header"),
            ParseError::Checksum => String::from_str("checksum mismatch"),
            ParseError::Version => String::from_str("unsupported protocol version"),
            ParseError::Io(m) => String::from_str("io error: ").concat(m.as_str()),
        }
    }
}

} // verus!
