//! Sequences that stay a span of the input until their elements are asked
//! for.

use crate::either::Either;
use crate::error::DecodeError;
use crate::parser::{lemma_split_prefix, Codec, Encode, EncodeInt, Parse};
use core::marker::PhantomData;
use vstd::pervasive::unreached;
use vstd::prelude::*;
use vstd::slice::slice_subrange;

verus! {

/// What decoding a whole span as back-to-back `T` values gives: the values in
/// order, where the last one ends exactly at the end of the span.
///
/// The `Truncated` in the innermost branch is never reached for a type that
/// keeps `Parse::lemma_parse_local`; it is there so that the definition
/// terminates without leaning on that lemma.
pub open spec fn decode_all<'a, T: Parse<'a>>(s: Seq<u8>) -> Result<Seq<T::V>, DecodeError>
    decreases s.len(),
{
    if s.len() == 0 {
        Ok(Seq::empty())
    } else {
        match T::parse_spec(s) {
            Err(e) => Err(e),
            Ok((v, n)) => if 0 < n <= s.len() {
                match decode_all::<T>(s.skip(n as int)) {
                    Ok(vs) => Ok(seq![v] + vs),
                    Err(e) => Err(e),
                }
            } else {
                Err(DecodeError::Truncated)
            },
        }
    }
}

/// What decoding `count` values of `T` from the front of `s` gives: the values
/// in order and the number of bytes they occupy together.
pub open spec fn decode_n<'a, T: Parse<'a>>(s: Seq<u8>, count: nat) -> Result<
    (Seq<T::V>, nat),
    DecodeError,
>
    decreases count,
{
    if count == 0 {
        Ok((Seq::empty(), 0))
    } else {
        match T::parse_spec(s) {
            Err(e) => Err(e),
            Ok((v, n)) => match decode_n::<T>(s.skip(n as int), (count - 1) as nat) {
                Ok((vs, m)) => Ok((seq![v] + vs, n + m)),
                Err(e) => Err(e),
            },
        }
    }
}

/// What decoding a sequence with a count of type `N` in front gives.
pub open spec fn counted_spec<'a, N: Parse<'a> + EncodeInt, T: Parse<'a>>(
    input: Seq<u8>,
) -> Result<(Seq<T::V>, nat), DecodeError> {
    match N::parse_spec(input) {
        Err(e) => Err(e),
        Ok((prefix, n)) => if N::count_spec(prefix) < 0 {
            Err(DecodeError::InvalidLength)
        } else {
            match decode_n::<T>(input.skip(n as int), N::count_spec(prefix) as nat) {
                Ok((vs, m)) => Ok((vs, n + m)),
                Err(e) => Err(e),
            }
        },
    }
}

/// The wire forms of the values of `vs`, one after the other.
pub open spec fn encode_all<T: Encode>(vs: Seq<T::V>) -> Seq<u8>
    decreases vs.len(),
{
    if vs.len() == 0 {
        Seq::empty()
    } else {
        T::encode_spec(vs[0]) + encode_all::<T>(vs.skip(1))
    }
}

/// The wire form of a sequence with its count in front.
pub open spec fn counted_bytes<N: EncodeInt, T: Encode>(vs: Seq<T::V>) -> Seq<u8> {
    N::encode_spec(N::of_count(vs.len()).unwrap()) + encode_all::<T>(vs)
}

/// Whether every value of `vs` has a wire form.
pub open spec fn can_encode_all<T: Encode>(vs: Seq<T::V>) -> bool {
    forall|i: int| 0 <= i < vs.len() ==> T::can_encode(#[trigger] vs[i])
}

/// Whether the wire form of every value of `vs` decodes to that value.
pub open spec fn all_round_trip<'a, T: Codec<'a>>(vs: Seq<T::V>) -> bool {
    forall|i: int| 0 <= i < vs.len() ==> T::round_trips(#[trigger] vs[i])
}

/// Whether every value of `vs` is written with its own end.
pub open spec fn all_delimited<'a, T: Codec<'a>>(vs: Seq<T::V>) -> bool {
    forall|i: int| 0 <= i < vs.len() ==> T::delimited(#[trigger] vs[i])
}

/// The outcome `rest` of decoding what remains, put behind the values `done`
/// that were decoded from the `used` bytes before it.
pub open spec fn behind<V>(done: Seq<V>, used: nat, rest: Result<(Seq<V>, nat), DecodeError>)
    -> Result<(Seq<V>, nat), DecodeError> {
    match rest {
        Ok((vs, m)) => Ok((done + vs, used + m)),
        Err(e) => Err(e),
    }
}

/// As `behind`, for a decode that runs to the end of its span.
pub open spec fn behind_all<V>(done: Seq<V>, rest: Result<Seq<V>, DecodeError>) -> Result<
    Seq<V>,
    DecodeError,
> {
    match rest {
        Ok(vs) => Ok(done + vs),
        Err(e) => Err(e),
    }
}

pub proof fn lemma_behind_start<V>(rest: Result<(Seq<V>, nat), DecodeError>)
    ensures
        behind(Seq::<V>::empty(), 0, rest) == rest,
{
    if let Ok((vs, m)) = rest {
        assert(Seq::<V>::empty() + vs =~= vs);
    }
}

pub proof fn lemma_behind_all_start<V>(rest: Result<Seq<V>, DecodeError>)
    ensures
        behind_all(Seq::<V>::empty(), rest) == rest,
{
    if let Ok(vs) = rest {
        assert(Seq::<V>::empty() + vs =~= vs);
    }
}

/// One step of a counted decode: the value at the front joins those done.
pub proof fn lemma_decode_n_step<'a, T: Parse<'a>>(
    done: Seq<T::V>,
    used: nat,
    s: Seq<u8>,
    count: nat,
)
    requires
        count > 0,
    ensures
        match T::parse_spec(s) {
            Ok((v, n)) => behind(done, used, decode_n::<T>(s, count)) == behind(
                done.push(v),
                used + n,
                decode_n::<T>(s.skip(n as int), (count - 1) as nat),
            ),
            Err(e) => behind(done, used, decode_n::<T>(s, count)) == Err::<
                (Seq<T::V>, nat),
                DecodeError,
            >(e),
        },
{
    if let Ok((v, n)) = T::parse_spec(s) {
        if let Ok((vs, m)) = decode_n::<T>(s.skip(n as int), (count - 1) as nat) {
            assert(done + (seq![v] + vs) =~= done.push(v) + vs);
        }
    }
}

/// One step of a decode to the end of the span.
pub proof fn lemma_decode_all_step<'a, T: Parse<'a>>(done: Seq<T::V>, s: Seq<u8>)
    requires
        s.len() > 0,
    ensures
        match T::parse_spec(s) {
            Ok((v, n)) => 0 < n <= s.len() && behind_all(done, decode_all::<T>(s)) == behind_all(
                done.push(v),
                decode_all::<T>(s.skip(n as int)),
            ),
            Err(e) => behind_all(done, decode_all::<T>(s)) == Err::<Seq<T::V>, DecodeError>(e),
        },
{
    if let Ok((v, n)) = T::parse_spec(s) {
        T::lemma_parse_local(s, s);
        if let Ok(vs) = decode_all::<T>(s.skip(n as int)) {
            assert(done + (seq![v] + vs) =~= done.push(v) + vs);
        }
    }
}

/// A counted decode reads nothing beyond the bytes it consumes, and those
/// bytes alone decode, end to end, to the same values.
pub proof fn lemma_decode_n_local<'a, T: Parse<'a>>(a: Seq<u8>, b: Seq<u8>, count: nat)
    requires
        decode_n::<T>(a, count) is Ok,
    ensures
        decode_n::<T>(a, count).unwrap().0.len() == count,
        count <= decode_n::<T>(a, count).unwrap().1 <= a.len(),
        decode_all::<T>(a.take(decode_n::<T>(a, count).unwrap().1 as int)) == Ok::<
            Seq<T::V>,
            DecodeError,
        >(decode_n::<T>(a, count).unwrap().0),
        a.take(decode_n::<T>(a, count).unwrap().1 as int) == b.take(
            decode_n::<T>(a, count).unwrap().1 as int,
        ) && decode_n::<T>(a, count).unwrap().1 <= b.len() ==> decode_n::<T>(b, count)
            == decode_n::<T>(a, count),
    decreases count,
{
    let total = decode_n::<T>(a, count).unwrap().1;
    if count == 0 {
        assert(a.take(0) =~= Seq::<u8>::empty());
    } else {
        let (v, n) = T::parse_spec(a).unwrap();
        let span = a.take(total as int);
        T::lemma_parse_local(a, b);
        T::lemma_parse_local(a, span);
        lemma_decode_n_local::<T>(a.skip(n as int), b.skip(n as int), (count - 1) as nat);
        let (vs, m) = decode_n::<T>(a.skip(n as int), (count - 1) as nat).unwrap();
        assert(a.take(n as int) =~= span.take(n as int));
        assert(span.skip(n as int) =~= a.skip(n as int).take(m as int));
        if a.take(total as int) == b.take(total as int) && total <= b.len() {
            assert(a.take(n as int) =~= a.take(total as int).take(n as int));
            assert(b.take(n as int) =~= b.take(total as int).take(n as int));
            assert(a.skip(n as int).take(m as int) =~= a.take(total as int).skip(n as int));
            assert(b.skip(n as int).take(m as int) =~= b.take(total as int).skip(n as int));
        }
    }
}

/// A counted decode of a buffer that ends inside the values fails for want
/// of bytes.
pub proof fn lemma_decode_n_truncated<'a, T: Parse<'a>>(a: Seq<u8>, count: nat, k: nat)
    requires
        decode_n::<T>(a, count) is Ok,
        k < decode_n::<T>(a, count).unwrap().1,
    ensures
        decode_n::<T>(a.take(k as int), count) == Err::<(Seq<T::V>, nat), DecodeError>(
            DecodeError::Truncated,
        ),
    decreases count,
{
    if count > 0 {
        let n = T::parse_spec(a).unwrap().1;
        T::lemma_parse_local(a, a.take(k as int));
        lemma_decode_n_local::<T>(a.skip(n as int), a.skip(n as int), (count - 1) as nat);
        if k < n {
            T::lemma_parse_truncated(a, k);
        } else {
            assert(a.take(n as int) =~= a.take(k as int).take(n as int));
            assert(a.take(k as int).skip(n as int) =~= a.skip(n as int).take(k - n));
            lemma_decode_n_truncated::<T>(a.skip(n as int), (count - 1) as nat, (k - n) as nat);
        }
    }
}

/// A span that decodes end to end holds no more values than bytes, and holds
/// no value only where it holds no byte.
pub proof fn lemma_decode_all_len<'a, T: Parse<'a>>(s: Seq<u8>)
    requires
        decode_all::<T>(s) is Ok,
    ensures
        decode_all::<T>(s).unwrap().len() <= s.len(),
        decode_all::<T>(s).unwrap().len() == 0 <==> s.len() == 0,
    decreases s.len(),
{
    if s.len() > 0 {
        let (v, n) = T::parse_spec(s).unwrap();
        lemma_decode_all_len::<T>(s.skip(n as int));
    }
}

pub proof fn lemma_encode_all_push<T: Encode>(vs: Seq<T::V>, v: T::V)
    ensures
        encode_all::<T>(vs.push(v)) == encode_all::<T>(vs) + T::encode_spec(v),
    decreases vs.len(),
{
    let all = vs.push(v);
    if vs.len() == 0 {
        assert(all.skip(1) =~= Seq::<T::V>::empty());
        assert(encode_all::<T>(all) == T::encode_spec(v) + encode_all::<T>(all.skip(1)));
        assert(encode_all::<T>(all) =~= encode_all::<T>(vs) + T::encode_spec(v));
    } else {
        lemma_encode_all_push::<T>(vs.skip(1), v);
        assert(all.skip(1) =~= vs.skip(1).push(v));
        assert(all[0] == vs[0]);
        assert(encode_all::<T>(all) == T::encode_spec(vs[0]) + encode_all::<T>(all.skip(1)));
        assert(encode_all::<T>(all) =~= encode_all::<T>(vs) + T::encode_spec(v));
    }
}

/// What was written for a sequence of values that round-trip decodes, value
/// by value, to that sequence, whatever follows it.
pub proof fn lemma_decode_n_of_encode_all<'a, T: Codec<'a>>(vs: Seq<T::V>, rest: Seq<u8>)
    requires
        can_encode_all::<T>(vs),
        all_round_trip::<T>(vs),
    ensures
        decode_n::<T>(encode_all::<T>(vs) + rest, vs.len()) == Ok::<(Seq<T::V>, nat), DecodeError>(
            (vs, encode_all::<T>(vs).len()),
        ),
    decreases vs.len(),
{
    if vs.len() == 0 {
        assert(vs =~= Seq::<T::V>::empty());
    } else {
        let head = T::encode_spec(vs[0]);
        let tail = encode_all::<T>(vs.skip(1));
        T::lemma_round_trip(vs[0], tail + rest);
        assert((head + tail) + rest =~= head + (tail + rest));
        assert((head + (tail + rest)).skip(head.len() as int) =~= tail + rest);
        assert forall|i: int| 0 <= i < vs.skip(1).len() implies T::can_encode(
            #[trigger] vs.skip(1)[i],
        ) && T::round_trips(vs.skip(1)[i]) by {
            assert(vs.skip(1)[i] == vs[i + 1]);
        }
        lemma_decode_n_of_encode_all::<T>(vs.skip(1), rest);
        assert(seq![vs[0]] + vs.skip(1) =~= vs);
    }
}

/// Every value that a counted decode produces can be written again, and
/// round-trips where it is written with its own end.
pub proof fn lemma_decode_n_decoded<'a, T: Codec<'a>>(s: Seq<u8>, count: nat)
    requires
        decode_n::<T>(s, count) is Ok,
    ensures
        can_encode_all::<T>(decode_n::<T>(s, count).unwrap().0),
        forall|i: int|
            0 <= i < decode_n::<T>(s, count).unwrap().0.len() && T::delimited(
                #[trigger] decode_n::<T>(s, count).unwrap().0[i],
            ) ==> T::round_trips(decode_n::<T>(s, count).unwrap().0[i]),
    decreases count,
{
    if count > 0 {
        let (v, n) = T::parse_spec(s).unwrap();
        T::lemma_decoded(s);
        lemma_decode_n_decoded::<T>(s.skip(n as int), (count - 1) as nat);
        let vs = decode_n::<T>(s.skip(n as int), (count - 1) as nat).unwrap().0;
        let all = decode_n::<T>(s, count).unwrap().0;
        assert forall|i: int| 0 <= i < all.len() implies T::can_encode(#[trigger] all[i]) && (
        T::delimited(all[i]) ==> T::round_trips(all[i])) by {
            if i > 0 {
                assert(all[i] == vs[i - 1]);
            }
        }
    }
}

/// A byte span that is known to decode, end to end, as values of `T`.
#[derive(Debug)]
pub struct Span<'a, T: Parse<'a>> {
    bytes: &'a [u8],
    element: PhantomData<T>,
}

impl<'a, T: Parse<'a>> Span<'a, T> {
    #[verifier::type_invariant]
    spec fn decodes(self) -> bool {
        decode_all::<T>(self.bytes@) is Ok
    }

    /// The bytes of the span.
    pub closed spec fn bytes(self) -> Seq<u8> {
        self.bytes@
    }

    /// The values that the span decodes to.
    pub open spec fn elements(self) -> Seq<T::V> {
        decode_all::<T>(self.bytes()).unwrap()
    }
}

impl<'a, T: Parse<'a>> Clone for Span<'a, T> {
    fn clone(&self) -> (r: Self)
        ensures
            r.bytes() == self.bytes(),
    {
        proof {
            use_type_invariant(self);
        }
        Span { bytes: self.bytes, element: PhantomData }
    }
}

/// A sequence of `T` in one of two forms: a span of the input that has not
/// been decoded into elements yet and is decoded afresh on every traversal,
/// or an owned list of elements, which alone can be changed in place.
///
/// `N` is the integer type of the count that precedes the sequence on the
/// wire.
#[derive(Debug)]
pub struct Slice<'a, N, T: Parse<'a>> {
    inner: Either<Span<'a, T>, Vec<T>>,
    len: PhantomData<N>,
}

/// The views of the elements of `items`, in order.
pub open spec fn views<T: View>(items: Seq<T>) -> Seq<T::V> {
    Seq::new(items.len(), |i: int| items[i]@)
}

impl<'a, N, T: Parse<'a>> View for Slice<'a, N, T> {
    type V = Seq<T::V>;

    closed spec fn view(&self) -> Seq<T::V> {
        match self.inner {
            Either::Left(span) => span.elements(),
            Either::Right(items) => views(items@),
        }
    }
}

impl<'a, N, T: Parse<'a>> Slice<'a, N, T> {
    /// Whether the sequence is an owned list of elements.
    pub closed spec fn owned(&self) -> bool {
        self.inner is Right
    }

    /// The span of input that an unmaterialized sequence stands for.
    pub closed spec fn span(&self) -> Seq<u8>
        recommends
            !self.owned(),
    {
        self.inner->Left_0.bytes()
    }

    /// Whether the sequence is an owned list of elements.
    pub fn is_owned(&self) -> (r: bool)
        ensures
            r == self.owned(),
    {
        match &self.inner {
            Either::Left(_) => false,
            Either::Right(_) => true,
        }
    }

    /// Takes all of `inner` as back-to-back elements with no count in front.
    ///
    /// The elements are decoded once, to check that they fill the span
    /// exactly, and dropped; the sequence keeps the span. On failure `inner`
    /// stays where it was.
    pub fn parse_until_end(inner: &mut &'a [u8]) -> (r: Result<Self, DecodeError>)
        ensures
            match decode_all::<T>(old(inner)@) {
                Ok(vs) => r is Ok && r.unwrap()@ == vs && !r.unwrap().owned() && r.unwrap().span()
                    == old(inner)@ && final(inner)@.len() == 0,
                Err(e) => r == Err::<Self, DecodeError>(e) && final(inner)@ == old(inner)@,
            },
    {
        let all: &'a [u8] = *inner;
        let mut cur: &'a [u8] = all;
        let ghost mut done: Seq<T::V> = Seq::empty();
        proof {
            lemma_behind_all_start(decode_all::<T>(all@));
        }
        while cur.len() > 0
            invariant
                decode_all::<T>(all@) == behind_all(done, decode_all::<T>(cur@)),
                all@ == old(inner)@,
                inner@ == old(inner)@,
            decreases cur@.len(),
        {
            proof {
                lemma_decode_all_step::<T>(done, cur@);
                if let Ok((v, n)) = T::parse_spec(cur@) {
                    done = done.push(v);
                }
            }
            let _ = T::parse(&mut cur)?;
        }
        *inner = cur;
        let span = Span { bytes: all, element: PhantomData };
        Ok(Slice { inner: Either::Left(span), len: PhantomData })
    }

    /// Starts a traversal at the first element. A traversal of an
    /// unmaterialized sequence decodes each element afresh from the span, so
    /// every traversal yields the same elements.
    pub fn iter(&self) -> (it: SliceIter<'a, '_, T>)
        ensures
            it@ == self@,
            self@.len() <= usize::MAX,
            !self.owned() ==> it.pending() == self.span() && decode_all::<T>(self.span()) == Ok::<
                Seq<T::V>,
                DecodeError,
            >(self@),
            self.owned() ==> it.pending().len() == 0,
            it.lazy() == !self.owned(),
    {
        match &self.inner {
            Either::Left(span) => {
                let size: usize = span.bytes.len();
                proof {
                    use_type_invariant(span);
                    lemma_decode_all_len::<T>(span.bytes());
                    assert(self@.len() <= size);
                }
                SliceIter {
                    inner: Either::Left(Span { bytes: span.bytes, element: PhantomData }),
                }
            },
            Either::Right(items) => {
                let size: usize = items.len();
                proof {
                    assert(self@.len() == size);
                }
                SliceIter { inner: Either::Right(items.as_slice()) }
            },
        }
    }

    /// Starts a traversal that can change the elements in place. Only an
    /// owned sequence can be changed.
    pub fn iter_mut(&mut self) -> (it: SliceIterMut<'_, T>)
        requires
            old(self).owned(),
        ensures
            it.pos == 0,
            views(it.inner@) == old(self)@,
            final(self).owned(),
            final(self)@ == views(final(it.inner)@),
    {
        match &mut self.inner {
            Either::Right(items) => SliceIterMut { inner: items, pos: 0 },
            Either::Left(_) => unreached(),
        }
    }

    /// Turns an unmaterialized sequence into an owned one by decoding every
    /// element; an owned one stays as it is.
    pub fn materialize(&mut self)
        ensures
            final(self).owned(),
            final(self)@ == old(self)@,
    {
        if self.is_owned() {
            return ;
        }
        let mut items: Vec<T> = Vec::new();
        let mut it = self.iter();
        loop
            invariant
                views(items@) + it@ == self@,
                it.lazy(),
            ensures
                views(items@) == self@,
            decreases it@.len(),
        {
            let ghost before = it@;
            match it.next() {
                None => {
                    proof {
                        assert(views(items@) + before =~= views(items@));
                    }
                    break ;
                },
                Some(element) => {
                    match element {
                        Either::Left(item) => {
                            proof {
                                assert(views(items@.push(item)) =~= views(items@).push(item@));
                                assert(views(items@).push(before[0]) + before.skip(1) =~= views(
                                    items@,
                                ) + before);
                            }
                            items.push(item);
                        },
                        Either::Right(_) => unreached(),
                    }
                },
            }
        }
        self.inner = Either::Right(items);
    }
}

impl<'a, N: Parse<'a> + EncodeInt, T: Parse<'a>> Slice<'a, N, T> {
    /// Decodes a count of type `N` and then that many elements.
    ///
    /// The elements are decoded once, to check them and to find where the
    /// last one ends, and dropped; the sequence keeps the span from right
    /// behind the count to that end. On failure `input` stays where it was.
    pub fn parse_with_length_prefix(input: &mut &'a [u8]) -> (r: Result<Self, DecodeError>)
        ensures
            match counted_spec::<N, T>(old(input)@) {
                Ok((vs, n)) => r is Ok && r.unwrap()@ == vs && !r.unwrap().owned() && final(input)@
                    == old(input)@.skip(n as int) && r.unwrap().span() == old(input)@.subrange(
                    N::parse_spec(old(input)@).unwrap().1 as int,
                    n as int,
                ),
                Err(e) => r == Err::<Self, DecodeError>(e) && final(input)@ == old(input)@,
            },
    {
        let mut cur: &'a [u8] = *input;
        let prefix = N::parse(&mut cur)?;
        let count: u64 = match prefix.to_count() {
            Some(count) => count,
            None => {
                return Err(DecodeError::InvalidLength);
            },
        };
        let body: &'a [u8] = cur;
        let ghost width = N::parse_spec(input@).unwrap().1;
        let ghost mut done: Seq<T::V> = Seq::empty();
        let ghost mut used: nat = 0;
        let mut i: u64 = 0;
        proof {
            N::lemma_parse_local(input@, input@);
            lemma_behind_start(decode_n::<T>(body@, count as nat));
            assert(body@.skip(0) =~= body@);
        }
        while i < count
            invariant
                i <= count,
                used <= body@.len(),
                cur@ == body@.skip(used as int),
                decode_n::<T>(body@, count as nat) == behind(
                    done,
                    used,
                    decode_n::<T>(cur@, (count - i) as nat),
                ),
                count == N::count_spec(N::parse_spec(input@).unwrap().0),
                body@ == input@.skip(width as int),
                N::parse_spec(input@) is Ok,
                width == N::parse_spec(input@).unwrap().1,
                input@ == old(input)@,
            decreases count - i,
        {
            proof {
                lemma_decode_n_step::<T>(done, used, cur@, (count - i) as nat);
                if let Ok((v, n)) = T::parse_spec(cur@) {
                    T::lemma_parse_local(cur@, cur@);
                    done = done.push(v);
                    used = used + n;
                    assert(body@.skip((used - n) as int).skip(n as int) =~= body@.skip(
                        used as int,
                    ));
                }
            }
            let _ = T::parse(&mut cur)?;
            i = i + 1;
        }
        let consumed: usize = body.len() - cur.len();
        let span = slice_subrange(body, 0, consumed);
        proof {
            assert(done + Seq::<T::V>::empty() =~= done);
            lemma_decode_n_local::<T>(body@, body@, count as nat);
            assert(span@ =~= body@.take(used as int));
            assert(span@ =~= input@.subrange(width as int, (width + used) as int));
            assert(input@.skip(width as int).skip(used as int) =~= input@.skip(
                (width + used) as int,
            ));
        }
        *input = cur;
        let span = Span { bytes: span, element: PhantomData };
        Ok(Slice { inner: Either::Left(span), len: PhantomData })
    }
}

impl<'a, N: EncodeInt, T: Parse<'a> + Encode> Slice<'a, N, T> {
    /// Writes the count and then every element in order.
    ///
    /// Room for the count is written first, as zero bytes; the elements
    /// follow and are counted as they are written; the count then replaces
    /// the zero bytes.
    pub fn encode_with_length_prefix(&self, out: &mut Vec<u8>)
        requires
            N::of_count(self@.len()) is Some,
            can_encode_all::<T>(self@),
        ensures
            final(out)@ == old(out)@ + counted_bytes::<N, T>(self@),
    {
        let index_pos: usize = out.len();
        let width: usize = N::width();
        let mut k: usize = 0;
        while k < width
            invariant
                k <= width,
                out@.len() == index_pos + k,
                out@.take(index_pos as int) == old(out)@,
                index_pos == old(out)@.len(),
            decreases width - k,
        {
            let ghost before = out@;
            out.push(0);
            proof {
                assert(out@.take(index_pos as int) =~= before.take(index_pos as int));
            }
            k = k + 1;
        }
        let element_start_pos: usize = out.len();
        let ghost opened = out@;

        let mut len: usize = 0;
        let mut it = self.iter();
        proof {
            assert(self@.take(0) =~= Seq::<T::V>::empty());
            assert(opened + encode_all::<T>(self@.take(0)) =~= opened);
            assert(self@.skip(0) =~= self@);
        }
        loop
            invariant
                len <= self@.len() <= usize::MAX,
                it@ == self@.skip(len as int),
                out@ == opened + encode_all::<T>(self@.take(len as int)),
                can_encode_all::<T>(self@),
            ensures
                len == self@.len(),
                out@ == opened + encode_all::<T>(self@),
            decreases self@.len() - len,
        {
            let ghost before = out@;
            match it.next() {
                None => {
                    proof {
                        assert(self@.take(len as int) =~= self@);
                    }
                    break ;
                },
                Some(element) => {
                    proof {
                        assert(self@.take(len + 1) =~= self@.take(len as int).push(
                            self@[len as int],
                        ));
                        lemma_encode_all_push::<T>(self@.take(len as int), self@[len as int]);
                        assert(self@.skip(len as int).skip(1) =~= self@.skip(len + 1));
                        assert(opened + encode_all::<T>(self@.take(len as int)) + T::encode_spec(
                            self@[len as int],
                        ) =~= opened + (encode_all::<T>(self@.take(len as int)) + T::encode_spec(
                            self@[len as int],
                        )));
                    }
                    match element {
                        Either::Left(element) => element.encode(out),
                        Either::Right(element) => element.encode(out),
                    }
                    len = len + 1;
                },
            }
        }

        let len: N = match N::from_count(len) {
            Some(len) => len,
            None => unreached(),
        };
        let ghost body = encode_all::<T>(self@);
        proof {
            N::lemma_count(len@, self@.len());
        }
        let (_, tail) = out.as_mut_slice().split_at_mut(index_pos);
        let (field, _) = tail.split_at_mut(width);
        len.encode_le_bytes(field);
        proof {
            assert(opened.subrange(index_pos as int, opened.len() as int).len() == width);
            assert((opened + body).subrange(0, index_pos as int) =~= old(out)@);
            assert((opened + body).subrange(index_pos as int, (opened + body).len() as int).subrange(
                width as int,
                (opened + body).len() - index_pos,
            ) =~= body);
            assert(out@ =~= old(out)@ + (N::encode_spec(len@) + body));
        }
    }

    /// Writes every element in order, with no count in front.
    pub fn encode_without_length_prefix(&self, out: &mut Vec<u8>)
        requires
            can_encode_all::<T>(self@),
        ensures
            final(out)@ == old(out)@ + encode_all::<T>(self@),
    {
        let mut len: usize = 0;
        let mut it = self.iter();
        proof {
            assert(self@.take(0) =~= Seq::<T::V>::empty());
            assert(out@ + encode_all::<T>(self@.take(0)) =~= out@);
            assert(self@.skip(0) =~= self@);
        }
        loop
            invariant
                len <= self@.len() <= usize::MAX,
                it@ == self@.skip(len as int),
                out@ == old(out)@ + encode_all::<T>(self@.take(len as int)),
                can_encode_all::<T>(self@),
            ensures
                out@ == old(out)@ + encode_all::<T>(self@),
            decreases self@.len() - len,
        {
            match it.next() {
                None => {
                    proof {
                        assert(self@.take(len as int) =~= self@);
                    }
                    break ;
                },
                Some(element) => {
                    proof {
                        assert(self@.take(len + 1) =~= self@.take(len as int).push(
                            self@[len as int],
                        ));
                        lemma_encode_all_push::<T>(self@.take(len as int), self@[len as int]);
                        assert(self@.skip(len as int).skip(1) =~= self@.skip(len + 1));
                        assert(old(out)@ + encode_all::<T>(self@.take(len as int)) + T::encode_spec(
                            self@[len as int],
                        ) =~= old(out)@ + (encode_all::<T>(self@.take(len as int))
                            + T::encode_spec(self@[len as int])));
                    }
                    match element {
                        Either::Left(element) => element.encode(out),
                        Either::Right(element) => element.encode(out),
                    }
                    len = len + 1;
                },
            }
        }
    }
}

impl<'a, N, T: Parse<'a> + Clone> Clone for Slice<'a, N, T> {
    /// A sequence of the same form: over the same span, or of clones of the
    /// elements.
    fn clone(&self) -> (r: Self)
        ensures
            r.owned() == self.owned(),
            !self.owned() ==> r.span() == self.span() && r@ == self@,
    {
        match &self.inner {
            Either::Left(span) => Slice { inner: Either::Left(span.clone()), len: PhantomData },
            Either::Right(items) => Slice { inner: Either::Right(items.clone()), len: PhantomData },
        }
    }
}

impl<'a, N, T: Parse<'a>> From<Vec<T>> for Slice<'a, N, T> {
    /// The owned sequence of the elements of `inner`.
    fn from(inner: Vec<T>) -> (r: Self) {
        Slice { inner: Either::Right(inner), len: PhantomData }
    }
}

impl<'a, N, T: Parse<'a>> vstd::std_specs::convert::FromSpecImpl<Vec<T>> for Slice<'a, N, T> {
    open spec fn obeys_from_spec() -> bool {
        true
    }

    closed spec fn from_spec(inner: Vec<T>) -> Self {
        Slice { inner: Either::Right(inner), len: PhantomData }
    }
}

impl<'a, N, T: Parse<'a>> Slice<'a, N, T> {
    /// The sequence made of a list of elements is owned and holds those
    /// elements in their order.
    pub proof fn lemma_from_vec(inner: Vec<T>)
        ensures
            <Self as vstd::std_specs::convert::FromSpec<Vec<T>>>::from_spec(inner).owned(),
            <Self as vstd::std_specs::convert::FromSpec<Vec<T>>>::from_spec(inner)@ == views(
                inner@,
            ),
    {
    }
}

impl<'a, N: Parse<'a> + EncodeInt, T: Parse<'a>> Parse<'a> for Slice<'a, N, T> {
    /// A count of type `N`, then that many elements.
    open spec fn parse_spec(input: Seq<u8>) -> Result<(Seq<T::V>, nat), DecodeError> {
        counted_spec::<N, T>(input)
    }

    proof fn lemma_parse_local(a: Seq<u8>, b: Seq<u8>) {
        N::lemma_parse_local(a, b);
        let (prefix, n) = N::parse_spec(a).unwrap();
        let count = N::count_spec(prefix) as nat;
        lemma_decode_n_local::<T>(a.skip(n as int), b.skip(n as int), count);
        let m = decode_n::<T>(a.skip(n as int), count).unwrap().1;
        if a.take((n + m) as int) == b.take((n + m) as int) && n + m <= b.len() {
            lemma_split_prefix(a, b, n, m);
        }
    }

    proof fn lemma_parse_truncated(a: Seq<u8>, k: nat) {
        let (prefix, n) = N::parse_spec(a).unwrap();
        let count = N::count_spec(prefix) as nat;
        N::lemma_parse_local(a, a.take(k as int));
        lemma_decode_n_local::<T>(a.skip(n as int), a.skip(n as int), count);
        if k < n {
            N::lemma_parse_truncated(a, k);
        } else {
            assert(a.take(n as int) =~= a.take(k as int).take(n as int));
            assert(a.take(k as int).skip(n as int) =~= a.skip(n as int).take(k - n));
            lemma_decode_n_truncated::<T>(a.skip(n as int), count, (k - n) as nat);
        }
    }

    fn parse(input: &mut &'a [u8]) -> (r: Result<Self, DecodeError>) {
        Self::parse_with_length_prefix(input)
    }
}

impl<'a, N: EncodeInt, T: Parse<'a> + Encode> Encode for Slice<'a, N, T> {
    /// The count, then every element in order.
    open spec fn encode_spec(v: Seq<T::V>) -> Seq<u8> {
        counted_bytes::<N, T>(v)
    }

    /// A sequence can be written where `N` can hold its count and every
    /// element can be written.
    open spec fn can_encode(v: Seq<T::V>) -> bool {
        N::of_count(v.len()) is Some && can_encode_all::<T>(v)
    }

    fn encode(&self, out: &mut Vec<u8>) {
        self.encode_with_length_prefix(out);
    }
}

impl<'a, N: Codec<'a> + EncodeInt, T: Codec<'a>> Codec<'a> for Slice<'a, N, T> {
    open spec fn round_trips(v: Seq<T::V>) -> bool {
        N::round_trips(N::of_count(v.len()).unwrap()) && all_round_trip::<T>(v)
    }

    open spec fn delimited(v: Seq<T::V>) -> bool {
        N::delimited(N::of_count(v.len()).unwrap()) && all_delimited::<T>(v)
    }

    proof fn lemma_decoded(input: Seq<u8>) {
        let (prefix, n) = N::parse_spec(input).unwrap();
        let count = N::count_spec(prefix) as nat;
        N::lemma_decoded(input);
        N::lemma_count(prefix, count);
        lemma_decode_n_local::<T>(input.skip(n as int), input.skip(n as int), count);
        lemma_decode_n_decoded::<T>(input.skip(n as int), count);
    }

    proof fn lemma_round_trip(v: Seq<T::V>, rest: Seq<u8>) {
        let prefix = N::of_count(v.len()).unwrap();
        let head = N::encode_spec(prefix);
        let body = encode_all::<T>(v);
        N::lemma_count(prefix, v.len());
        N::lemma_round_trip(prefix, body + rest);
        lemma_decode_n_of_encode_all::<T>(v, rest);
        assert((head + body) + rest =~= head + (body + rest));
        assert((head + (body + rest)).skip(head.len() as int) =~= body + rest);
    }
}

/// A traversal of a `Slice`: over the rest of its span, decoding as it goes,
/// or over the rest of its owned elements.
pub struct SliceIter<'a, 'this, T: Parse<'a>> {
    inner: Either<Span<'a, T>, &'this [T]>,
}

impl<'a, 'this, T: Parse<'a>> View for SliceIter<'a, 'this, T> {
    type V = Seq<T::V>;

    /// The elements still to come.
    closed spec fn view(&self) -> Seq<T::V> {
        match self.inner {
            Either::Left(span) => span.elements(),
            Either::Right(items) => views(items@),
        }
    }
}

impl<'a, 'this, T: Parse<'a>> SliceIter<'a, 'this, T> {
    /// The bytes of the span that are still to be decoded; none for a
    /// traversal of owned elements.
    pub closed spec fn pending(&self) -> Seq<u8> {
        match self.inner {
            Either::Left(span) => span.bytes(),
            Either::Right(_) => Seq::empty(),
        }
    }

    /// Whether the traversal decodes its elements from a span.
    pub closed spec fn lazy(&self) -> bool {
        self.inner is Left
    }

    /// The next element: decoded from the front of what is left of the span,
    /// or a reference to the next owned element. `None` at the end, which for
    /// a span is reached exactly when no byte of it is left.
    pub fn next(&mut self) -> (r: Option<Either<T, &'this T>>)
        ensures
            old(self)@.len() == 0 ==> {
                &&& r is None
                &&& final(self)@ == old(self)@
                &&& old(self).pending().len() == 0
                &&& final(self).pending() == old(self).pending()
            },
            old(self)@.len() > 0 ==> {
                &&& r is Some
                &&& r.unwrap().inner()@ == old(self)@[0]
                &&& final(self)@ == old(self)@.skip(1)
                &&& r.unwrap() is Left <==> old(self).lazy()
            },
            exists|k: int|
                0 <= k <= old(self).pending().len() && final(self).pending() == old(
                    self,
                ).pending().skip(k),
            final(self).lazy() == old(self).lazy(),
    {
        let step: Either<&'a [u8], &'this [T]> = match &self.inner {
            Either::Left(span) => {
                proof {
                    use_type_invariant(span);
                    lemma_decode_all_len::<T>(span.bytes());
                }
                Either::Left(span.bytes)
            },
            Either::Right(items) => Either::Right(*items),
        };
        match step {
            Either::Left(bytes) => {
                if bytes.len() == 0 {
                    proof {
                        assert(self.pending() =~= old(self).pending().skip(0));
                    }
                    None
                } else {
                    let mut rest: &'a [u8] = bytes;
                    proof {
                        T::lemma_parse_local(bytes@, bytes@);
                    }
                    match T::parse(&mut rest) {
                        Ok(item) => {
                            proof {
                                let vs = decode_all::<T>(rest@).unwrap();
                                assert((seq![item@] + vs).skip(1) =~= vs);
                            }
                            self.inner = Either::Left(Span { bytes: rest, element: PhantomData });
                            proof {
                                let n = T::parse_spec(bytes@).unwrap().1;
                                assert(self.pending() == old(self).pending().skip(n as int));
                            }
                            Some(Either::Left(item))
                        },
                        Err(_) => unreached(),
                    }
                }
            },
            Either::Right(items) => {
                proof {
                    assert(self.pending() =~= old(self).pending().skip(0));
                }
                if items.len() == 0 {
                    None
                } else {
                    let first: &'this T = &items[0];
                    let rest: &'this [T] = slice_subrange(items, 1, items.len());
                    proof {
                        assert(views(rest@) =~= views(items@).skip(1));
                    }
                    self.inner = Either::Right(rest);
                    Some(Either::Right(first))
                }
            },
        }
    }
}

/// A traversal of an owned `Slice` that hands out its elements one by one
/// for changing in place.
pub struct SliceIterMut<'a, T> {
    /// The elements of the sequence.
    pub inner: &'a mut Vec<T>,
    /// The number of elements handed out so far.
    pub pos: usize,
}

impl<'a, T> SliceIterMut<'a, T> {
    /// The next element, for reading and writing; `None` when every element
    /// has been handed out. What is written to the element is written to the
    /// sequence; nothing else in the sequence changes.
    pub fn next(&mut self) -> (r: Option<&mut T>)
        ensures
            old(self).pos >= old(self).inner@.len() ==> {
                &&& r is None
                &&& final(self).pos == old(self).pos
                &&& final(self).inner@ == old(self).inner@
            },
            old(self).pos < old(self).inner@.len() ==> {
                &&& r is Some
                &&& *r.unwrap() == old(self).inner@[old(self).pos as int]
                &&& final(self).pos == old(self).pos + 1
                &&& final(self).inner@ == old(self).inner@.update(
                    old(self).pos as int,
                    *final(r.unwrap()),
                )
            },
            *final(final(self).inner) == *final(old(self).inner),
    {
        if self.pos < self.inner.len() {
            let i: usize = self.pos;
            self.pos = i + 1;
            Some(&mut self.inner[i])
        } else {
            None
        }
    }
}

} // verus!
