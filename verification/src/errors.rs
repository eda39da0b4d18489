use vstd::prelude::*;
use crate::utils::{push_dec_digits, push_hex_pad, spec_dec_digits, spec_hex_pad};

verus! {

/// The ways a Portable Executable image can fail to decode.
///
/// Every parsing routine in this crate reports malformed input through one of
/// these variants; none of them panics on bad bytes.
#[derive(Clone, Copy, Debug, PartialEq, Eq, Structural)]
pub enum Error {
    /// The DOS header magic was wrong (expected `MZ`, 0x5A4D); the payload is
    /// the value found.
    InvalidMagic(u16),
    /// The NT signature at `e_lfanew` was not `PE\0\0` (0x00004550); the
    /// payload is the value found.
    InvalidPeSignature(u32),
    /// The optional-header magic was neither 0x10B (PE32) nor 0x20B (PE32+);
    /// the payload is the value found.
    UnsupportedOptionalHeader(u16),
    /// The underlying file could not be read. Raised only by callers that do
    /// the reading; the decoding routines here work on in-memory bytes.
    Io,
    /// A table's RVA or size fell outside the file data.
    InvalidTableOffset,
    /// A name region did not decode as valid text.
    InvalidDllName,
    /// Data in the buffer did not make sense.
    InvalidData,
    /// The buffer was smaller than a read required: at least `expected` bytes
    /// were needed where only `found` were available.
    InvalidSize { expected: usize, found: usize },
}

impl Error {
    /// The message text of each variant: the failed invariant in words, with
    /// the offending value in fixed-width hexadecimal or in decimal.
    pub open spec fn spec_message(&self) -> Seq<char> {
        match self {
            Error::InvalidMagic(m) => "Bad DOS magic: 0x"@ + spec_hex_pad(*m as int, 4),
            Error::InvalidPeSignature(s) => "Bad PE signature: 0x"@ + spec_hex_pad(*s as int, 8),
            Error::UnsupportedOptionalHeader(m) => "Unknown optional-header magic: 0x"@
                + spec_hex_pad(*m as int, 4),
            Error::Io => "I/O error"@,
            Error::InvalidTableOffset => "Table offset is out of bounds"@,
            Error::InvalidDllName => "Couldn't read DLL name"@,
            Error::InvalidData => "Malformed data in buffer"@,
            Error::InvalidSize { expected, found } => "Expected at least "@ + spec_dec_digits(
                *expected as int,
            ) + " bytes, found "@ + spec_dec_digits(*found as int),
        }
    }

    /// Renders the error as human-readable text naming the structural
    /// invariant that failed.
    pub fn message(&self) -> (r: String)
        ensures
            r@ == self.spec_message(),
    {
        match self {
            Error::InvalidMagic(m) => {
                push_hex_pad(String::from_str("Bad DOS magic: 0x"), *m as u64, 4)
            },
            Error::InvalidPeSignature(s) => {
                push_hex_pad(String::from_str("Bad PE signature: 0x"), *s as u64, 8)
            },
            Error::UnsupportedOptionalHeader(m) => {
                push_hex_pad(String::from_str("Unknown optional-header magic: 0x"), *m as u64, 4)
            },
            Error::Io => String::from_str("I/O error"),
            Error::InvalidTableOffset => String::from_str("Table offset is out of bounds"),
            Error::InvalidDllName => String::from_str("Couldn't read DLL name"),
            Error::InvalidData => String::from_str("Malformed data in buffer"),
            Error::InvalidSize { expected, found } => {
                let ghost goal = self.spec_message();
                let p = push_dec_digits(String::from_str("Expected at least "), *expected as u64);
                let p2 = p.concat(" bytes, found ");
                let r = push_dec_digits(p2, *found as u64);
                proof {
                    assert((("Expected at least "@ + spec_dec_digits(*expected as int))
                        + " bytes, found "@) + spec_dec_digits(*found as int) =~= goal);
                }
                r
            },
        }
    }
}

} // verus!
