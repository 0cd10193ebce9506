//! Booleans, pairs and optional parts.

use crate::error::DecodeError;
use crate::parser::{lemma_split_prefix, Codec, Encode, Parse};
use vstd::prelude::*;

verus! {

impl<'a> Parse<'a> for bool {
    /// One byte; any nonzero byte means `true`.
    open spec fn parse_spec(input: Seq<u8>) -> Result<(bool, nat), DecodeError> {
        match u8::parse_spec(input) {
            Ok((b, n)) => Ok((b != 0, n)),
            Err(e) => Err(e),
        }
    }

    proof fn lemma_parse_local(a: Seq<u8>, b: Seq<u8>) {
        u8::lemma_parse_local(a, b);
    }

    proof fn lemma_parse_truncated(a: Seq<u8>, k: nat) {
        u8::lemma_parse_truncated(a, k);
    }

    fn parse(input: &mut &'a [u8]) -> (r: Result<Self, DecodeError>) {
        let b = u8::parse(input)?;
        Ok(b != 0)
    }
}

impl Encode for bool {
    /// One byte: 1 for `true`, 0 for `false`.
    open spec fn encode_spec(v: bool) -> Seq<u8> {
        u8::encode_spec(if v { 1u8 } else { 0u8 })
    }

    open spec fn can_encode(v: bool) -> bool {
        true
    }

    fn encode(&self, out: &mut Vec<u8>) {
        let b: u8 = if *self { 1 } else { 0 };
        b.encode(out);
    }
}

impl<'a> Codec<'a> for bool {
    open spec fn round_trips(v: bool) -> bool {
        true
    }

    open spec fn delimited(v: bool) -> bool {
        true
    }

    proof fn lemma_decoded(input: Seq<u8>) {
    }

    proof fn lemma_round_trip(v: bool, rest: Seq<u8>) {
        u8::lemma_round_trip(if v { 1u8 } else { 0u8 }, rest);
    }
}

/// What decoding an `A` and then a `B` right behind it gives.
///
/// The definition is kept folded, so that a long record does not open into
/// all its fields at once; `reveal(pair_spec)` unfolds it.
#[verifier::opaque]
pub open spec fn pair_spec<'a, A: Parse<'a>, B: Parse<'a>>(input: Seq<u8>) -> Result<
    ((A::V, B::V), nat),
    DecodeError,
> {
    match A::parse_spec(input) {
        Err(e) => Err(e),
        Ok((a, n)) => match B::parse_spec(input.skip(n as int)) {
            Err(e) => Err(e),
            Ok((b, m)) => Ok(((a, b), n + m)),
        },
    }
}

/// The wire form of an `A` followed by that of a `B`. Kept folded as
/// `pair_spec` is; `reveal(pair_bytes)` unfolds it.
#[verifier::opaque]
pub open spec fn pair_bytes<A: Encode, B: Encode>(v: (A::V, B::V)) -> Seq<u8> {
    A::encode_spec(v.0) + B::encode_spec(v.1)
}

impl<'a, A: Parse<'a>, B: Parse<'a>> Parse<'a> for (A, B) {
    /// The first value, then the second right behind it.
    open spec fn parse_spec(input: Seq<u8>) -> Result<((A::V, B::V), nat), DecodeError> {
        pair_spec::<A, B>(input)
    }

    proof fn lemma_parse_local(a: Seq<u8>, b: Seq<u8>) {
        reveal(pair_spec);
        A::lemma_parse_local(a, b);
        let n = A::parse_spec(a).unwrap().1;
        B::lemma_parse_local(a.skip(n as int), b.skip(n as int));
        let m = B::parse_spec(a.skip(n as int)).unwrap().1;
        if a.take((n + m) as int) == b.take((n + m) as int) && n + m <= b.len() {
            lemma_split_prefix(a, b, n, m);
        }
    }

    proof fn lemma_parse_truncated(a: Seq<u8>, k: nat) {
        reveal(pair_spec);
        let n = A::parse_spec(a).unwrap().1;
        A::lemma_parse_local(a, a.take(k as int));
        B::lemma_parse_local(a.skip(n as int), a.skip(n as int));
        if k < n {
            A::lemma_parse_truncated(a, k);
        } else {
            assert(a.take(n as int) =~= a.take(k as int).take(n as int));
            assert(a.take(k as int).skip(n as int) =~= a.skip(n as int).take(k - n));
            B::lemma_parse_truncated(a.skip(n as int), (k - n) as nat);
        }
    }

    fn parse(input: &mut &'a [u8]) -> (r: Result<Self, DecodeError>) {
        proof {
            reveal(pair_spec);
        }
        let mut cur: &'a [u8] = *input;
        let a = A::parse(&mut cur)?;
        let b = B::parse(&mut cur)?;
        proof {
            A::lemma_parse_local(input@, input@);
            let n = A::parse_spec(input@).unwrap().1;
            B::lemma_parse_local(input@.skip(n as int), input@.skip(n as int));
            let m = B::parse_spec(input@.skip(n as int)).unwrap().1;
            assert(input@.skip(n as int).skip(m as int) =~= input@.skip((n + m) as int));
        }
        *input = cur;
        Ok((a, b))
    }
}

impl<A: Encode, B: Encode> Encode for (A, B) {
    open spec fn encode_spec(v: (A::V, B::V)) -> Seq<u8> {
        pair_bytes::<A, B>(v)
    }

    open spec fn can_encode(v: (A::V, B::V)) -> bool {
        A::can_encode(v.0) && B::can_encode(v.1)
    }

    fn encode(&self, out: &mut Vec<u8>) {
        self.0.encode(out);
        self.1.encode(out);
        proof {
            reveal(pair_bytes);
            assert(old(out)@ + A::encode_spec(self.0@) + B::encode_spec(self.1@) =~= old(out)@ + (
            A::encode_spec(self.0@) + B::encode_spec(self.1@)));
        }
    }
}

impl<'a, A: Codec<'a>, B: Codec<'a>> Codec<'a> for (A, B) {
    open spec fn round_trips(v: (A::V, B::V)) -> bool {
        A::round_trips(v.0) && B::round_trips(v.1)
    }

    open spec fn delimited(v: (A::V, B::V)) -> bool {
        A::delimited(v.0) && B::delimited(v.1)
    }

    proof fn lemma_decoded(input: Seq<u8>) {
        reveal(pair_spec);
        A::lemma_decoded(input);
        B::lemma_decoded(input.skip(A::parse_spec(input).unwrap().1 as int));
    }

    proof fn lemma_round_trip(v: (A::V, B::V), rest: Seq<u8>) {
        reveal(pair_spec);
        reveal(pair_bytes);
        let ea = A::encode_spec(v.0);
        let eb = B::encode_spec(v.1);
        A::lemma_round_trip(v.0, eb + rest);
        B::lemma_round_trip(v.1, rest);
        assert((ea + eb) + rest =~= ea + (eb + rest));
        assert((ea + (eb + rest)).skip(ea.len() as int) =~= eb + rest);
    }
}

impl<T: Encode + ?Sized> Encode for &T {
    /// A reference is written as what it refers to.
    open spec fn encode_spec(v: T::V) -> Seq<u8> {
        T::encode_spec(v)
    }

    open spec fn can_encode(v: T::V) -> bool {
        T::can_encode(v)
    }

    fn encode(&self, out: &mut Vec<u8>) {
        T::encode(*self, out);
    }
}

impl<T: Encode> Encode for Option<T> {
    /// The value where there is one, nothing at all where there is none.
    open spec fn encode_spec(v: Option<T>) -> Seq<u8> {
        match v {
            Some(t) => T::encode_spec(t@),
            None => Seq::empty(),
        }
    }

    open spec fn can_encode(v: Option<T>) -> bool {
        v is Some ==> T::can_encode(v.unwrap()@)
    }

    fn encode(&self, out: &mut Vec<u8>) {
        if let Some(this) = self {
            this.encode(out);
        } else {
            proof {
                assert(out@ + Seq::<u8>::empty() =~= out@);
            }
        }
    }
}

/// The view of what an optional part holds.
pub open spec fn view_of<T: View>(part: Option<T>) -> Option<T::V> {
    match part {
        Some(t) => Some(t@),
        None => None,
    }
}

/// What decoding a part gives that is on the wire only where `present`
/// holds: the part where it is there, and nothing, from no bytes, where it
/// is not.
pub open spec fn optional_spec<'a, T: Parse<'a>>(present: bool, input: Seq<u8>) -> Result<
    (Option<T::V>, nat),
    DecodeError,
> {
    if present {
        match T::parse_spec(input) {
            Ok((v, n)) => Ok((Some(v), n)),
            Err(e) => Err(e),
        }
    } else {
        Ok((None, 0))
    }
}

/// An optional part reads nothing beyond the bytes it consumes.
pub proof fn lemma_optional_local<'a, T: Parse<'a>>(present: bool, a: Seq<u8>, b: Seq<u8>)
    requires
        optional_spec::<T>(present, a) is Ok,
    ensures
        optional_spec::<T>(present, a).unwrap().1 <= a.len(),
        a.take(optional_spec::<T>(present, a).unwrap().1 as int) == b.take(
            optional_spec::<T>(present, a).unwrap().1 as int,
        ) && optional_spec::<T>(present, a).unwrap().1 <= b.len() ==> optional_spec::<T>(present, b)
            == optional_spec::<T>(present, a),
{
    if present {
        T::lemma_parse_local(a, b);
    }
}

/// An optional part that ends inside its bytes fails for want of bytes.
pub proof fn lemma_optional_truncated<'a, T: Parse<'a>>(present: bool, a: Seq<u8>, k: nat)
    requires
        optional_spec::<T>(present, a) is Ok,
        k < optional_spec::<T>(present, a).unwrap().1,
    ensures
        optional_spec::<T>(present, a.take(k as int)) == Err::<(Option<T::V>, nat), DecodeError>(
            DecodeError::Truncated,
        ),
{
    T::lemma_parse_truncated(a, k);
}

/// Decodes a part that is on the wire only where `present` holds. Whether
/// it is there is decided by what was decoded before it, never by the bytes
/// that would be the part.
pub fn parse_if<'a, T: Parse<'a>>(present: bool, input: &mut &'a [u8]) -> (r: Result<
    Option<T>,
    DecodeError,
>)
    ensures
        match optional_spec::<T>(present, old(input)@) {
            Ok((v, n)) => r is Ok && view_of(r.unwrap()) == v && final(input)@ == old(input)@.skip(
                n as int,
            ),
            Err(e) => r == Err::<Option<T>, DecodeError>(e) && final(input)@ == old(input)@,
        },
{
    if present {
        Ok(Some(T::parse(input)?))
    } else {
        proof {
            assert(input@.skip(0) =~= input@);
        }
        Ok(None)
    }
}

} // verus!
