//! Text: a length and that many bytes of UTF-8.

use crate::error::DecodeError;
use crate::parser::{Codec, Encode, EncodeInt, Parse};
use vstd::prelude::*;
use vstd::slice::slice_subrange;
use vstd::string::StringSliceAdditionalSpecFns;
use vstd::utf8::{
    decode_utf8, decode_utf8_encode_utf8, encode_utf8, encode_utf8_decode_utf8,
    encode_utf8_valid_utf8, valid_utf8,
};

verus! {

/// What decoding a text with a length prefix of type `N` gives: the length,
/// then that many bytes, which must be UTF-8.
pub open spec fn text_spec<'a, N: Parse<'a> + EncodeInt>(input: Seq<u8>) -> Result<
    (Seq<char>, nat),
    DecodeError,
> {
    match N::parse_spec(input) {
        Err(e) => Err(e),
        Ok((prefix, n)) => {
            let len = N::count_spec(prefix);
            if len < 0 {
                Err(DecodeError::InvalidLength)
            } else if input.len() < n + len {
                Err(DecodeError::Truncated)
            } else if !valid_utf8(input.subrange(n as int, n + len)) {
                Err(DecodeError::InvalidUtf8)
            } else {
                Ok((decode_utf8(input.subrange(n as int, n + len)), (n + len) as nat))
            }
        },
    }
}

pub proof fn lemma_text_local<'a, N: Parse<'a> + EncodeInt>(a: Seq<u8>, b: Seq<u8>)
    requires
        text_spec::<N>(a) is Ok,
    ensures
        0 < text_spec::<N>(a).unwrap().1 <= a.len(),
        a.take(text_spec::<N>(a).unwrap().1 as int) == b.take(text_spec::<N>(a).unwrap().1 as int)
            && text_spec::<N>(a).unwrap().1 <= b.len() ==> text_spec::<N>(b) == text_spec::<N>(a),
{
    N::lemma_parse_local(a, b);
    let n = N::parse_spec(a).unwrap().1;
    let len = N::count_spec(N::parse_spec(a).unwrap().0);
    let total = n + len;
    if a.take(total) == b.take(total) && total <= b.len() {
        assert(a.take(n as int) =~= a.take(total).take(n as int));
        assert(b.take(n as int) =~= b.take(total).take(n as int));
        assert(a.subrange(n as int, total) =~= a.take(total).skip(n as int));
        assert(b.subrange(n as int, total) =~= b.take(total).skip(n as int));
    }
}

pub proof fn lemma_text_truncated<'a, N: Parse<'a> + EncodeInt>(a: Seq<u8>, k: nat)
    requires
        text_spec::<N>(a) is Ok,
        k < text_spec::<N>(a).unwrap().1,
    ensures
        text_spec::<N>(a.take(k as int)) == Err::<(Seq<char>, nat), DecodeError>(
            DecodeError::Truncated,
        ),
{
    let n = N::parse_spec(a).unwrap().1;
    N::lemma_parse_local(a, a.take(k as int));
    if k < n {
        N::lemma_parse_truncated(a, k);
    } else {
        assert(a.take(n as int) =~= a.take(k as int).take(n as int));
    }
}

/// Checks that `bytes` are UTF-8 and hands them back as text.
///
/// This is `core::str::from_utf8`. Believed of it, not proved: it accepts
/// exactly the byte sequences that are valid UTF-8, and the text it returns
/// occupies the very bytes it was given.
#[verifier::external_body]
pub(crate) fn utf8_text<'a>(bytes: &'a [u8]) -> (r: Option<&'a str>)
    ensures
        match r {
            Some(s) => valid_utf8(bytes@) && s.spec_bytes() == bytes@,
            None => !valid_utf8(bytes@),
        },
{
    match core::str::from_utf8(bytes) {
        Ok(s) => Some(s),
        Err(_) => None,
    }
}

/// Decodes a text whose length is carried by a prefix of type `N`: 16-bit
/// unsigned in the compressed formats, 64-bit signed in the oldest one.
pub fn parse_text<'a, N: Parse<'a> + EncodeInt>(input: &mut &'a [u8]) -> (r: Result<
    &'a str,
    DecodeError,
>)
    ensures
        match text_spec::<N>(old(input)@) {
            Ok((v, n)) => r is Ok && r.unwrap()@ == v && final(input)@ == old(input)@.skip(
                n as int,
            ),
            Err(e) => r == Err::<&'a str, DecodeError>(e) && final(input)@ == old(input)@,
        },
{
    let mut cur: &'a [u8] = *input;
    let prefix = N::parse(&mut cur)?;
    proof {
        N::lemma_parse_local(input@, input@);
    }
    let len: u64 = match prefix.to_count() {
        Some(len) => len,
        None => {
            return Err(DecodeError::InvalidLength);
        },
    };
    if (cur.len() as u64) < len {
        return Err(DecodeError::Truncated);
    }
    let len: usize = len as usize;
    let ghost n = N::parse_spec(input@).unwrap().1;
    let bytes = slice_subrange(cur, 0, len);
    proof {
        assert(bytes@ =~= input@.subrange(n as int, n + len));
    }
    match utf8_text(bytes) {
        None => Err(DecodeError::InvalidUtf8),
        Some(s) => {
            proof {
                encode_utf8_decode_utf8(s@);
                assert(input@.skip(n as int).skip(len as int) =~= input@.skip(n + len));
            }
            *input = slice_subrange(cur, len, cur.len());
            Ok(s)
        },
    }
}

/// Appends `bytes` to `out`.
pub(crate) fn append_bytes(out: &mut Vec<u8>, bytes: &[u8])
    ensures
        final(out)@ == old(out)@ + bytes@,
{
    let mut i: usize = 0;
    while i < bytes.len()
        invariant
            i <= bytes@.len(),
            out@ == old(out)@ + bytes@.take(i as int),
        decreases bytes@.len() - i,
    {
        out.push(bytes[i]);
        proof {
            assert(bytes@.take(i + 1) =~= bytes@.take(i as int).push(bytes@[i as int]));
            assert(old(out)@ + bytes@.take(i as int).push(bytes@[i as int]) =~= (old(out)@
                + bytes@.take(i as int)).push(bytes@[i as int]));
        }
        i = i + 1;
    }
    proof {
        assert(bytes@.take(i as int) =~= bytes@);
    }
}

impl<'a> Parse<'a> for &'a str {
    /// A 16-bit length, then that many bytes of UTF-8.
    open spec fn parse_spec(input: Seq<u8>) -> Result<(Seq<char>, nat), DecodeError> {
        text_spec::<u16>(input)
    }

    proof fn lemma_parse_local(a: Seq<u8>, b: Seq<u8>) {
        lemma_text_local::<u16>(a, b);
    }

    proof fn lemma_parse_truncated(a: Seq<u8>, k: nat) {
        lemma_text_truncated::<u16>(a, k);
    }

    fn parse(input: &mut &'a [u8]) -> (r: Result<Self, DecodeError>) {
        parse_text::<u16>(input)
    }
}

impl Encode for str {
    /// The length of the UTF-8 form in 16 bits, then the UTF-8 form.
    open spec fn encode_spec(v: Seq<char>) -> Seq<u8> {
        u16::encode_spec(encode_utf8(v).len() as u16) + encode_utf8(v)
    }

    /// Text can be written where its UTF-8 form is at most 65535 bytes long.
    open spec fn can_encode(v: Seq<char>) -> bool {
        encode_utf8(v).len() <= u16::MAX
    }

    fn encode(&self, out: &mut Vec<u8>) {
        let len: u16 = self.len() as u16;
        len.encode(out);
        append_bytes(out, self.as_bytes());
        proof {
            assert(old(out)@ + u16::encode_spec(len) + encode_utf8(self@) =~= old(out)@ + (
            u16::encode_spec(len) + encode_utf8(self@)));
        }
    }
}

impl<'a> Codec<'a> for &'a str {
    open spec fn round_trips(v: Seq<char>) -> bool {
        true
    }

    open spec fn delimited(v: Seq<char>) -> bool {
        true
    }

    proof fn lemma_decoded(input: Seq<u8>) {
        let (prefix, n) = u16::parse_spec(input).unwrap();
        decode_utf8_encode_utf8(input.subrange(n as int, n + prefix));
    }

    proof fn lemma_round_trip(v: Seq<char>, rest: Seq<u8>) {
        let body = encode_utf8(v);
        let len = body.len() as u16;
        let head = u16::encode_spec(len);
        u16::lemma_round_trip(len, body + rest);
        encode_utf8_valid_utf8(v);
        encode_utf8_decode_utf8(v);
        let all = (head + body) + rest;
        assert(all =~= head + (body + rest));
        assert(all.subrange(2, 2 + body.len() as int) =~= body);
    }
}

} // verus!
