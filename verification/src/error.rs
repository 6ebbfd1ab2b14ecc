//! The errors of the library.

use vstd::prelude::*;
use vstd::string::StringExecFns;

verus! {

/// Everything that can go wrong while demultiplexing.
#[derive(Debug, Clone, PartialEq, Eq)]
pub enum Error {
    /// A metadata value could not be interpreted.
    ParseMetaError(String),
    /// A read asked for more bytes than the buffer still holds.
    Truncated,
    /// The byte source failed, or ended before the first tag.
    IoError,
    /// The container does not start with the bytes `FLV`.
    InvalidSignature,
}

impl Error {
    /// The error in words.
    pub open spec fn message(self) -> Seq<char> {
        match self {
            Error::ParseMetaError(reason) => "parse meta error: "@ + reason@,
            Error::Truncated => "io error: not enough bytes left to read the value"@,
            Error::IoError => "io error: the byte source failed"@,
            Error::InvalidSignature => "flv error: invalid signature"@,
        }
    }

    /// The error in words.
    pub fn to_string(&self) -> (s: String)
        ensures
            s@ == self.message(),
    {
        match self {
            Error::ParseMetaError(reason) => {
                String::from_str("parse meta error: ").concat(reason.as_str())
            },
            Error::Truncated => String::from_str(
                "io error: not enough bytes left to read the value",
            ),
            Error::IoError => String::from_str("io error: the byte source failed"),
            Error::InvalidSignature => String::from_str("flv error: invalid signature"),
        }
    }
}

} // verus!
