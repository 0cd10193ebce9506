//! A value that is one of two alternatives.

use crate::error::DecodeError;
use crate::parser::{Encode, Parse};
use vstd::prelude::*;

verus! {

/// One of two alternatives.
#[derive(Clone, Debug)]
pub enum Either<L, R> {
    Left(L),
    Right(R),
}

impl<L: View, R: View> View for Either<L, R> {
    type V = Either<L::V, R::V>;

    open spec fn view(&self) -> Either<L::V, R::V> {
        match *self {
            Either::Left(inner) => Either::Left(inner@),
            Either::Right(inner) => Either::Right(inner@),
        }
    }
}

impl<L, R> Either<L, R> {
    /// The same alternative, holding a reference to what `self` holds.
    pub fn as_ref(&self) -> (r: Either<&L, &R>)
        ensures
            match *self {
                Either::Left(inner) => r == Either::<&L, &R>::Left(&inner),
                Either::Right(inner) => r == Either::<&L, &R>::Right(&inner),
            },
    {
        match self {
            Self::Left(inner) => Either::Left(inner),
            Self::Right(inner) => Either::Right(inner),
        }
    }

    /// Decodes an `L` from the front of `input` and holds it on the left.
    pub fn parse_left<'a>(input: &mut &'a [u8]) -> (r: Result<Self, DecodeError>) where
        L: Parse<'a>,

        ensures
            match L::parse_spec(old(input)@) {
                Ok((v, n)) => r is Ok && r.unwrap() is Left && r.unwrap()->Left_0@ == v
                    && final(input)@ == old(input)@.skip(n as int),
                Err(e) => r == Err::<Self, DecodeError>(e) && final(input)@ == old(input)@,
            },
    {
        Ok(Self::Left(L::parse(input)?))
    }

    /// Decodes an `L` from the front of `input` and holds it on the left,
    /// as `parse_left` does: the right alternative is never decoded from bytes.
    pub fn parse_right<'a>(input: &mut &'a [u8]) -> (r: Result<Self, DecodeError>) where
        L: Parse<'a>,

        ensures
            match L::parse_spec(old(input)@) {
                Ok((v, n)) => r is Ok && r.unwrap() is Left && r.unwrap()->Left_0@ == v
                    && final(input)@ == old(input)@.skip(n as int),
                Err(e) => r == Err::<Self, DecodeError>(e) && final(input)@ == old(input)@,
            },
    {
        Ok(Self::Left(L::parse(input)?))
    }
}

impl<T> Either<T, T> {
    /// What `self` holds, whichever alternative it is.
    pub open spec fn collapsed(self) -> T {
        match self {
            Either::Left(inner) => inner,
            Either::Right(inner) => inner,
        }
    }

    pub fn collapse(self) -> (r: T)
        ensures
            r == self.collapsed(),
    {
        match self {
            Self::Left(inner) => inner,
            Self::Right(inner) => inner,
        }
    }
}

impl<'b, T> Either<T, &'b T> {
    /// The element that `self` holds or refers to.
    pub open spec fn inner(self) -> T {
        match self {
            Either::Left(inner) => inner,
            Either::Right(inner) => *inner,
        }
    }

    pub fn as_inner_ref(&self) -> (r: &T)
        ensures
            *r == self.inner(),
    {
        match self {
            Self::Left(inner) => inner,
            Self::Right(inner) => inner,
        }
    }
}

impl<L: Encode, R: Encode> Encode for Either<L, R> {
    open spec fn encode_spec(v: Either<L::V, R::V>) -> Seq<u8> {
        match v {
            Either::Left(inner) => L::encode_spec(inner),
            Either::Right(inner) => R::encode_spec(inner),
        }
    }

    open spec fn can_encode(v: Either<L::V, R::V>) -> bool {
        match v {
            Either::Left(inner) => L::can_encode(inner),
            Either::Right(inner) => R::can_encode(inner),
        }
    }

    fn encode(&self, out: &mut Vec<u8>) {
        match self {
            Self::Left(inner) => inner.encode(out),
            Self::Right(inner) => inner.encode(out),
        }
    }
}

} // verus!
