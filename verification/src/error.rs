//! The errors of decoding.

use vstd::prelude::*;

verus! {

/// Why a save file could not be decoded.
///
/// Every failure is final: the decode that met it stops and hands the error
/// to its caller, and no partial record is produced.
#[derive(Clone, Copy, Debug, PartialEq, Eq, Structural)]
pub enum DecodeError {
    /// Fewer bytes remain than the value being decoded needs.
    Truncated,
    /// A count or a text length is negative.
    InvalidLength,
    /// The bytes of a text field are not UTF-8.
    InvalidUtf8,
    /// A numeric field of the text format is not a decimal number of its type.
    InvalidNumber,
    /// A part of the text format does not have the number of fields it must have.
    FieldCount,
    /// The leading version byte names no known format.
    UnsupportedVersion,
    /// A kind, state or direction code lies outside the known set of its format.
    UnknownDiscriminant,
    /// The component kind is known, but its layout is deliberately not decoded.
    UnsupportedComponent { index: usize },
    /// A component of a kind that needs a positive word size has none.
    NonPositiveWordSize { index: usize },
    /// The wires at `first` and `second` join the same two points.
    OverlappingWires { first: usize, second: usize },
    /// The compressed body was rejected by the block decompressor.
    Compression,
}

} // verus!
