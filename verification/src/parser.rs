//! The traits that every decodable and encodable type keeps, and the laws
//! that go with them.

use crate::error::DecodeError;
use vstd::prelude::*;

verus! {

/// A type that can be decoded from the front of a byte buffer.
///
/// `parse_spec` is the format: on a buffer it gives either the decoded value
/// (as its view) with the number of bytes the value occupies, or the reason
/// why the buffer does not start with such a value.
pub trait Parse<'a>: Sized + View {
    /// What decoding the front of `input` gives.
    spec fn parse_spec(input: Seq<u8>) -> Result<(Self::V, nat), DecodeError>;

    /// A successful decode consumes at least one byte, never more than the
    /// buffer holds, and reads nothing beyond what it consumes: any buffer
    /// that starts with the same bytes decodes to the same value.
    proof fn lemma_parse_local(a: Seq<u8>, b: Seq<u8>)
        requires
            Self::parse_spec(a) is Ok,
        ensures
            0 < Self::parse_spec(a).unwrap().1 <= a.len(),
            a.take(Self::parse_spec(a).unwrap().1 as int) == b.take(
                Self::parse_spec(a).unwrap().1 as int,
            ) && Self::parse_spec(a).unwrap().1 <= b.len() ==> Self::parse_spec(b)
                == Self::parse_spec(a),
    ;

    /// A buffer that ends inside a value fails to decode for want of bytes,
    /// and for no other reason: cut anywhere before its end, what decoded
    /// is `Truncated`.
    proof fn lemma_parse_truncated(a: Seq<u8>, k: nat)
        requires
            Self::parse_spec(a) is Ok,
            k < Self::parse_spec(a).unwrap().1,
        ensures
            Self::parse_spec(a.take(k as int)) == Err::<(Self::V, nat), DecodeError>(
                DecodeError::Truncated,
            ),
    ;

    /// Decodes one value from the front of `input` and moves `input` past it.
    /// On failure `input` stays where it was.
    fn parse(input: &mut &'a [u8]) -> (r: Result<Self, DecodeError>)
        ensures
            match Self::parse_spec(old(input)@) {
                Ok((v, n)) => r is Ok && r.unwrap()@ == v && final(input)@ == old(input)@.skip(
                    n as int,
                ),
                Err(e) => r == Err::<Self, DecodeError>(e) && final(input)@ == old(input)@,
            },
    ;
}

/// A type that can be appended to an output buffer in its wire form.
pub trait Encode: View {
    /// The bytes that stand for `v`.
    spec fn encode_spec(v: Self::V) -> Seq<u8>;

    /// Whether `v` has a wire form at all: every count and length in it fits
    /// the field that carries it.
    spec fn can_encode(v: Self::V) -> bool;

    /// Appends the wire form of the value to `out`.
    fn encode(&self, out: &mut Vec<u8>)
        requires
            Self::can_encode(self@),
        ensures
            final(out)@ == old(out)@ + Self::encode_spec(self@),
    ;
}

/// An integer type that can serve as the count in front of a sequence.
pub trait EncodeInt: Encode + Copy + Sized {
    /// The number of bytes the type occupies on the wire.
    spec fn width_spec() -> nat;

    /// The integer that a value of the type stands for.
    spec fn count_spec(v: Self::V) -> int;

    /// The value that stands for the count `n`, where the type can hold it.
    spec fn of_count(n: nat) -> Option<Self::V>;

    /// Every value is written in exactly `width_spec()` bytes, and `of_count`
    /// is the inverse of `count_spec` on the counts that fit.
    proof fn lemma_count(v: Self::V, n: nat)
        ensures
            1 <= Self::width_spec() <= 8,
            Self::can_encode(v),
            Self::encode_spec(v).len() == Self::width_spec(),
            Self::of_count(n) is Some ==> Self::count_spec(Self::of_count(n).unwrap()) == n,
            Self::count_spec(v) == n ==> Self::of_count(n) == Some(v),
    ;

    /// The number of bytes the type occupies on the wire.
    fn width() -> (r: usize)
        ensures
            r == Self::width_spec(),
    ;

    /// The count the value stands for, or `None` for a negative value.
    fn to_count(self) -> (r: Option<u64>)
        ensures
            match r {
                Some(c) => c == Self::count_spec(self@),
                None => Self::count_spec(self@) < 0,
            },
    ;

    /// The value that stands for `n`, or `None` where `n` does not fit the type.
    fn from_count(n: usize) -> (r: Option<Self>)
        ensures
            match Self::of_count(n as nat) {
                Some(v) => r is Some && r.unwrap()@ == v,
                None => r is None,
            },
    ;

    /// Overwrites `out`, which has the width of the type, with the wire form
    /// of the value.
    fn encode_le_bytes(self, out: &mut [u8])
        requires
            old(out)@.len() == Self::width_spec(),
        ensures
            final(out)@ == Self::encode_spec(self@),
    ;
}

/// A type whose encoder and decoder agree.
///
/// What `encode` writes for a value that round-trips, `parse` reads back as
/// that value, whatever follows it. What `parse` produces can be written
/// again, and round-trips unless it holds a segment list: a segment list is
/// the one thing that is written without the byte that ends it.
pub trait Codec<'a>: Parse<'a> + Encode {
    /// Whether the wire form of `v` decodes to `v`.
    spec fn round_trips(v: Self::V) -> bool;

    /// Whether every part of `v` is written with its own end: whether `v`
    /// holds no segment list.
    spec fn delimited(v: Self::V) -> bool;

    /// What is written for a value that round-trips decodes to that value
    /// and to nothing else, whatever bytes follow.
    proof fn lemma_round_trip(v: Self::V, rest: Seq<u8>)
        requires
            Self::can_encode(v),
            Self::round_trips(v),
        ensures
            Self::parse_spec(Self::encode_spec(v) + rest) == Ok::<(Self::V, nat), DecodeError>(
                (v, Self::encode_spec(v).len()),
            ),
    ;

    /// What was decoded can be written, and round-trips where it holds no
    /// segment list.
    proof fn lemma_decoded(input: Seq<u8>)
        requires
            Self::parse_spec(input) is Ok,
        ensures
            Self::can_encode(Self::parse_spec(input).unwrap().0),
            Self::delimited(Self::parse_spec(input).unwrap().0) ==> Self::round_trips(
                Self::parse_spec(input).unwrap().0,
            ),
    ;
}

/// Two buffers that agree on their first `n + m` bytes agree on their first
/// `n` bytes and on the `m` bytes behind those.
pub proof fn lemma_split_prefix(a: Seq<u8>, b: Seq<u8>, n: nat, m: nat)
    requires
        n + m <= a.len(),
        n + m <= b.len(),
        a.take((n + m) as int) == b.take((n + m) as int),
    ensures
        a.take(n as int) == b.take(n as int),
        a.skip(n as int).take(m as int) == b.skip(n as int).take(m as int),
{
    assert(a.take(n as int) =~= a.take((n + m) as int).take(n as int));
    assert(b.take(n as int) =~= b.take((n + m) as int).take(n as int));
    assert(a.skip(n as int).take(m as int) =~= a.take((n + m) as int).skip(n as int));
    assert(b.skip(n as int).take(m as int) =~= b.take((n + m) as int).skip(n as int));
}

/// The first position of `flags` that holds `true`, where there is one.
pub open spec fn first_true(flags: Seq<bool>) -> Option<nat>
    decreases flags.len(),
{
    if flags.len() == 0 {
        None
    } else if flags[0] {
        Some(0)
    } else {
        match first_true(flags.skip(1)) {
            Some(i) => Some(i + 1),
            None => None,
        }
    }
}

/// `first_true` finds a `true` before which there is none, and finds one
/// wherever there is one.
pub proof fn lemma_first_true(flags: Seq<bool>)
    ensures
        match first_true(flags) {
            Some(i) => i < flags.len() && flags[i as int] && forall|j: int|
                0 <= j < i ==> !#[trigger] flags[j],
            None => forall|j: int| 0 <= j < flags.len() ==> !#[trigger] flags[j],
        },
    decreases flags.len(),
{
    if flags.len() > 0 && !flags[0] {
        lemma_first_true(flags.skip(1));
        match first_true(flags.skip(1)) {
            Some(i) => {
                assert forall|j: int| 0 <= j < i + 1 implies !#[trigger] flags[j] by {
                    if j > 0 {
                        assert(flags[j] == flags.skip(1)[j - 1]);
                    }
                }
            },
            None => {
                assert forall|j: int| 0 <= j < flags.len() implies !#[trigger] flags[j] by {
                    if j > 0 {
                        assert(flags[j] == flags.skip(1)[j - 1]);
                    }
                }
            },
        }
    }
}

} // verus!
