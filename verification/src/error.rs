//! The failures that decoding can end in.

use vstd::prelude::*;

verus! {

/// Why a decode step failed.
///
/// A failure is produced at the first point where the input cannot be
/// decoded, and is returned to the caller as a value.
#[derive(Clone, Copy, Debug, PartialEq, Eq)]
pub enum Error {
    /// The buffer does not start with the module magic.
    NotWasm,
    /// A declared or implied length runs past the end of the input.
    Eof,
    /// A variable-length integer does not end within ten bytes, or does not
    /// fit in 64 bits.
    MalformedVarint,
    /// A discriminant has no defined meaning; the field names the
    /// enumeration that was being decoded.
    UnknownVariant(&'static str),
    /// A length-prefixed string is not valid UTF-8.
    InvalidUtf8,
}

impl Error {
    /// A short, fixed description of the kind of failure.
    pub fn description(&self) -> (r: &'static str)
        ensures
            r == self.spec_description(),
    {
        match self {
            Error::NotWasm => "Not a valid WebAssembly binary",
            Error::Eof => "Unexpected end of input",
            Error::MalformedVarint => "Malformed LEB128 integer",
            Error::UnknownVariant(_) => "Unknown enum variant",
            Error::InvalidUtf8 => "UTF-8 error",
        }
    }

    /// The text that `description` returns.
    pub open spec fn spec_description(&self) -> &'static str {
        match self {
            Error::NotWasm => "Not a valid WebAssembly binary",
            Error::Eof => "Unexpected end of input",
            Error::MalformedVarint => "Malformed LEB128 integer",
            Error::UnknownVariant(_) => "Unknown enum variant",
            Error::InvalidUtf8 => "UTF-8 error",
        }
    }

    /// The enumeration that had no variant for the value read, if that is
    /// what went wrong.
    pub fn domain(&self) -> (r: Option<&'static str>)
        ensures
            r == (match *self {
                Error::UnknownVariant(of) => Some(of),
                _ => None,
            }),
    {
        match self {
            Error::UnknownVariant(of) => Some(*of),
            _ => None,
        }
    }
}

} // verus!
