//! Fixed-width integers, least significant byte first.

use crate::error::DecodeError;
use crate::parser::{Codec, Encode, EncodeInt, Parse};
use vstd::prelude::*;
use vstd::slice::slice_subrange;

verus! {

/// The number that a sequence of bytes stands for, least significant byte first.
pub open spec fn le_value(bytes: Seq<u8>) -> nat
    decreases bytes.len(),
{
    if bytes.len() == 0 {
        0
    } else {
        bytes[0] as nat + 256 * le_value(bytes.skip(1))
    }
}

/// The `width` low bytes of `value`, least significant byte first.
pub open spec fn le_bytes(value: nat, width: nat) -> Seq<u8>
    decreases width,
{
    if width == 0 {
        Seq::empty()
    } else {
        seq![(value % 256) as u8] + le_bytes(value / 256, (width - 1) as nat)
    }
}

/// 256 to the power `width`: the number of values that `width` bytes can hold.
pub open spec fn pow256(width: nat) -> nat
    decreases width,
{
    if width == 0 {
        1
    } else {
        256 * pow256((width - 1) as nat)
    }
}

/// The two's-complement reading of an unsigned value of `width` bytes.
pub open spec fn to_signed(value: nat, width: nat) -> int {
    if 2 * value >= pow256(width) {
        value - pow256(width)
    } else {
        value as int
    }
}

/// The unsigned value whose two's-complement reading in `width` bytes is `value`.
pub open spec fn to_unsigned(value: int, width: nat) -> nat {
    if value < 0 {
        (value + pow256(width)) as nat
    } else {
        value as nat
    }
}

/// The powers of 256 up to the eighth.
pub proof fn lemma_pow256_values()
    ensures
        pow256(0) == 1,
        pow256(1) == 0x100,
        pow256(2) == 0x1_0000,
        pow256(3) == 0x100_0000,
        pow256(4) == 0x1_0000_0000,
        pow256(5) == 0x100_0000_0000,
        pow256(6) == 0x1_0000_0000_0000,
        pow256(7) == 0x100_0000_0000_0000,
        pow256(8) == 0x1_0000_0000_0000_0000,
{
    reveal_with_fuel(pow256, 9);
}

/// The number that bytes stand for is less than the number of values that
/// so many bytes can hold.
pub proof fn lemma_le_value_bound(bytes: Seq<u8>)
    ensures
        le_value(bytes) < pow256(bytes.len()),
    decreases bytes.len(),
{
    if bytes.len() > 0 {
        lemma_le_value_bound(bytes.skip(1));
    }
}

/// A value is written in as many bytes as its width says.
pub proof fn lemma_le_bytes_len(value: nat, width: nat)
    ensures
        le_bytes(value, width).len() == width,
    decreases width,
{
    if width > 0 {
        lemma_le_bytes_len(value / 256, (width - 1) as nat);
    }
}

/// Reading back the bytes written for a value that fits gives the value.
pub proof fn lemma_le_value_of_bytes(value: nat, width: nat)
    requires
        value < pow256(width),
    ensures
        le_value(le_bytes(value, width)) == value,
    decreases width,
{
    if width > 0 {
        let tail = le_bytes(value / 256, (width - 1) as nat);
        let all = le_bytes(value, width);
        assert(all.skip(1) =~= tail);
        lemma_le_value_of_bytes(value / 256, (width - 1) as nat);
    }
}

/// What reading an unsigned integer of `width` bytes from the front of
/// `input` gives: its value and `width`, or `Truncated` where fewer bytes
/// remain.
pub open spec fn uint_spec(input: Seq<u8>, width: nat) -> Result<(nat, nat), DecodeError> {
    if input.len() < width {
        Err(DecodeError::Truncated)
    } else {
        Ok((le_value(input.take(width as int)), width))
    }
}

/// Reading an unsigned integer consumes `width` bytes, gives a value that
/// `width` bytes can hold, and looks at no byte behind those.
pub proof fn lemma_uint_local(a: Seq<u8>, b: Seq<u8>, width: nat)
    requires
        uint_spec(a, width) is Ok,
    ensures
        uint_spec(a, width).unwrap().1 == width,
        width <= a.len(),
        uint_spec(a, width).unwrap().0 < pow256(width),
        a.take(width as int) == b.take(width as int) && width <= b.len() ==> uint_spec(b, width)
            == uint_spec(a, width),
{
    lemma_le_value_bound(a.take(width as int));
}

/// The bytes written for an unsigned value that fits are read back as that
/// value, whatever follows them.
pub proof fn lemma_uint_round_trip(value: nat, width: nat, rest: Seq<u8>)
    requires
        value < pow256(width),
    ensures
        uint_spec(le_bytes(value, width) + rest, width) == Ok::<(nat, nat), DecodeError>(
            (value, width),
        ),
        le_bytes(value, width).len() == width,
{
    lemma_le_bytes_len(value, width);
    lemma_le_value_of_bytes(value, width);
    assert((le_bytes(value, width) + rest).take(width as int) =~= le_bytes(value, width));
}

/// Reads an unsigned integer of `width` bytes, least significant byte first.
pub(crate) fn read_le<'a>(input: &mut &'a [u8], width: usize) -> (r: Result<u64, DecodeError>)
    requires
        width <= 8,
    ensures
        match uint_spec(old(input)@, width as nat) {
            Ok((v, n)) => r == Ok::<u64, DecodeError>(v as u64) && v <= u64::MAX && final(input)@
                == old(input)@.skip(n as int),
            Err(e) => r == Err::<u64, DecodeError>(e) && final(input)@ == old(input)@,
        },
{
    let cur: &'a [u8] = *input;
    if cur.len() < width {
        return Err(DecodeError::Truncated);
    }
    let ghost field = cur@.take(width as int);
    let mut acc: u64 = 0;
    let mut i: usize = width;
    proof {
        lemma_pow256_values();
        assert(field.skip(width as int) =~= Seq::<u8>::empty());
    }
    while i > 0
        invariant
            i <= width <= 8,
            width <= cur@.len(),
            field == cur@.take(width as int),
            acc == le_value(field.skip(i as int)),
        decreases i,
    {
        proof {
            lemma_le_value_bound(field.skip(i as int));
            lemma_pow256_mono((width - i) as nat, 7);
            lemma_pow256_values();
            assert(field.skip(i - 1).skip(1) =~= field.skip(i as int));
        }
        i = i - 1;
        acc = acc * 256 + cur[i] as u64;
    }
    proof {
        assert(field.skip(0) =~= field);
    }
    *input = slice_subrange(cur, width, cur.len());
    Ok(acc)
}

/// The powers of 256 grow with the exponent.
pub proof fn lemma_pow256_mono(a: nat, b: nat)
    requires
        a <= b,
    ensures
        pow256(a) <= pow256(b),
    decreases b,
{
    if a < b {
        lemma_pow256_mono(a, (b - 1) as nat);
    }
}

/// Appends the `width` low bytes of `value`, least significant byte first.
pub(crate) fn write_le(out: &mut Vec<u8>, value: u64, width: usize)
    requires
        width <= 8,
    ensures
        final(out)@ == old(out)@ + le_bytes(value as nat, width as nat),
{
    let mut rest: u64 = value;
    let mut i: usize = 0;
    proof {
        assert(out@ + le_bytes(rest as nat, (width - i) as nat) =~= old(out)@ + le_bytes(
            value as nat,
            width as nat,
        ));
    }
    while i < width
        invariant
            i <= width,
            out@ + le_bytes(rest as nat, (width - i) as nat) == old(out)@ + le_bytes(
                value as nat,
                width as nat,
            ),
        decreases width - i,
    {
        let ghost before = out@;
        let b: u8 = (rest % 256) as u8;
        out.push(b);
        proof {
            let tail = le_bytes((rest / 256) as nat, (width - i - 1) as nat);
            assert(le_bytes(rest as nat, (width - i) as nat) == seq![b] + tail);
            assert(before.push(b) + tail =~= before + (seq![b] + tail));
        }
        rest = rest / 256;
        i = i + 1;
    }
    proof {
        assert(out@ + le_bytes(rest as nat, 0) =~= out@);
    }
}

/// Overwrites `out` with the `out.len()` low bytes of `value`, least
/// significant byte first.
pub(crate) fn patch_le(out: &mut [u8], value: u64)
    requires
        old(out)@.len() <= 8,
    ensures
        final(out)@ == le_bytes(value as nat, old(out)@.len()),
{
    let width: usize = out.len();
    let mut rest: u64 = value;
    let mut i: usize = 0;
    while i < width
        invariant
            i <= width,
            out@.len() == width,
            out@.take(i as int) + le_bytes(rest as nat, (width - i) as nat) == le_bytes(
                value as nat,
                width as nat,
            ),
        decreases width - i,
    {
        let ghost before = out@;
        let b: u8 = (rest % 256) as u8;
        out[i] = b;
        proof {
            let tail = le_bytes((rest / 256) as nat, (width - i - 1) as nat);
            assert(le_bytes(rest as nat, (width - i) as nat) == seq![b] + tail);
            assert(out@.take(i + 1) =~= before.take(i as int).push(b));
            assert(before.take(i as int).push(b) + tail =~= before.take(i as int) + (seq![b]
                + tail));
        }
        rest = rest / 256;
        i = i + 1;
    }
    proof {
        assert(out@.take(width as int) =~= out@);
        assert(out@ + le_bytes(rest as nat, 0) =~= out@);
    }
}


impl<'a> Parse<'a> for u8 {
    open spec fn parse_spec(input: Seq<u8>) -> Result<(u8, nat), DecodeError> {
        match uint_spec(input, 1) {
            Ok((v, n)) => Ok((v as u8, n)),
            Err(e) => Err(e),
        }
    }

    proof fn lemma_parse_local(a: Seq<u8>, b: Seq<u8>) {
        lemma_uint_local(a, b, 1);
    }

    proof fn lemma_parse_truncated(a: Seq<u8>, k: nat) {
    }

    fn parse(input: &mut &'a [u8]) -> (r: Result<Self, DecodeError>) {
        let v = read_le(input, 1)?;
        proof {
            lemma_uint_local(old(input)@, old(input)@, 1);
            lemma_pow256_values();
        }
        Ok(v as u8)
    }
}

impl Encode for u8 {
    open spec fn encode_spec(v: u8) -> Seq<u8> {
        le_bytes(v as nat, 1)
    }

    open spec fn can_encode(v: u8) -> bool {
        true
    }

    fn encode(&self, out: &mut Vec<u8>) {
        write_le(out, *self as u64, 1);
    }
}

impl EncodeInt for u8 {
    open spec fn width_spec() -> nat {
        1
    }

    open spec fn count_spec(v: u8) -> int {
        v as int
    }

    open spec fn of_count(n: nat) -> Option<u8> {
        if n <= u8::MAX {
            Some(n as u8)
        } else {
            None
        }
    }

    proof fn lemma_count(v: u8, n: nat) {
        lemma_le_bytes_len(v as nat, 1);
    }

    fn width() -> (r: usize) {
        1
    }

    fn to_count(self) -> (r: Option<u64>) {
        Some(self as u64)
    }

    fn from_count(n: usize) -> (r: Option<Self>) {
        if n as u64 <= u8::MAX as u64 {
            Some(n as u8)
        } else {
            None
        }
    }

    fn encode_le_bytes(self, out: &mut [u8]) {
        patch_le(out, self as u64);
    }
}

impl<'a> Codec<'a> for u8 {
    open spec fn round_trips(v: u8) -> bool {
        true
    }

    open spec fn delimited(v: u8) -> bool {
        true
    }

    proof fn lemma_decoded(input: Seq<u8>) {
    }

    proof fn lemma_round_trip(v: u8, rest: Seq<u8>) {
        lemma_pow256_values();
        lemma_uint_round_trip(v as nat, 1, rest);
    }
}

/// A 8-bit pattern read as a signed number is its two's-complement value.
pub proof fn lemma_i8_of_bits(x: u8)
    ensures
        x as i8 == to_signed(x as nat, 1),
        (x as i8) as u8 == x,
{
    lemma_pow256_values();
    assert(x as i8 == if x >= 0x80u8 {
        x - 0x100
    } else {
        x as int
    }) by (bit_vector);
    assert((x as i8) as u8 == x) by (bit_vector);
}

/// A signed number written as a 8-bit pattern is its two's-complement form.
pub proof fn lemma_i8_to_bits(y: i8)
    ensures
        y as u8 == to_unsigned(y as int, 1),
        (y as u8) as i8 == y,
{
    lemma_pow256_values();
    assert(y as u8 == if y < 0i8 {
        y + 0x100
    } else {
        y as int
    }) by (bit_vector);
    assert((y as u8) as i8 == y) by (bit_vector);
}

impl<'a> Parse<'a> for i8 {
    open spec fn parse_spec(input: Seq<u8>) -> Result<(i8, nat), DecodeError> {
        match uint_spec(input, 1) {
            Ok((v, n)) => Ok((to_signed(v, 1) as i8, n)),
            Err(e) => Err(e),
        }
    }

    proof fn lemma_parse_local(a: Seq<u8>, b: Seq<u8>) {
        lemma_uint_local(a, b, 1);
    }

    proof fn lemma_parse_truncated(a: Seq<u8>, k: nat) {
    }

    fn parse(input: &mut &'a [u8]) -> (r: Result<Self, DecodeError>) {
        let v = read_le(input, 1)?;
        proof {
            lemma_uint_local(old(input)@, old(input)@, 1);
            lemma_pow256_values();
            lemma_i8_of_bits(v as u8);
        }
        Ok((v as u8) as i8)
    }
}

impl Encode for i8 {
    open spec fn encode_spec(v: i8) -> Seq<u8> {
        le_bytes(to_unsigned(v as int, 1), 1)
    }

    open spec fn can_encode(v: i8) -> bool {
        true
    }

    fn encode(&self, out: &mut Vec<u8>) {
        proof {
            lemma_i8_to_bits(*self);
        }
        write_le(out, (*self as u8) as u64, 1);
    }
}

impl EncodeInt for i8 {
    open spec fn width_spec() -> nat {
        1
    }

    open spec fn count_spec(v: i8) -> int {
        v as int
    }

    open spec fn of_count(n: nat) -> Option<i8> {
        if n <= i8::MAX {
            Some(n as i8)
        } else {
            None
        }
    }

    proof fn lemma_count(v: i8, n: nat) {
        lemma_le_bytes_len(to_unsigned(v as int, 1), 1);
    }

    fn width() -> (r: usize) {
        1
    }

    fn to_count(self) -> (r: Option<u64>) {
        if self < 0 {
            None
        } else {
            Some(self as u64)
        }
    }

    fn from_count(n: usize) -> (r: Option<Self>) {
        if n as u64 <= i8::MAX as u64 {
            Some(n as i8)
        } else {
            None
        }
    }

    fn encode_le_bytes(self, out: &mut [u8]) {
        proof {
            lemma_i8_to_bits(self);
        }
        patch_le(out, (self as u8) as u64);
    }
}

impl<'a> Codec<'a> for i8 {
    open spec fn round_trips(v: i8) -> bool {
        true
    }

    open spec fn delimited(v: i8) -> bool {
        true
    }

    proof fn lemma_decoded(input: Seq<u8>) {
    }

    proof fn lemma_round_trip(v: i8, rest: Seq<u8>) {
        lemma_pow256_values();
        lemma_i8_to_bits(v);
        lemma_i8_of_bits(v as u8);
        lemma_uint_round_trip(to_unsigned(v as int, 1), 1, rest);
    }
}

impl<'a> Parse<'a> for u16 {
    open spec fn parse_spec(input: Seq<u8>) -> Result<(u16, nat), DecodeError> {
        match uint_spec(input, 2) {
            Ok((v, n)) => Ok((v as u16, n)),
            Err(e) => Err(e),
        }
    }

    proof fn lemma_parse_local(a: Seq<u8>, b: Seq<u8>) {
        lemma_uint_local(a, b, 2);
    }

    proof fn lemma_parse_truncated(a: Seq<u8>, k: nat) {
    }

    fn parse(input: &mut &'a [u8]) -> (r: Result<Self, DecodeError>) {
        let v = read_le(input, 2)?;
        proof {
            lemma_uint_local(old(input)@, old(input)@, 2);
            lemma_pow256_values();
        }
        Ok(v as u16)
    }
}

impl Encode for u16 {
    open spec fn encode_spec(v: u16) -> Seq<u8> {
        le_bytes(v as nat, 2)
    }

    open spec fn can_encode(v: u16) -> bool {
        true
    }

    fn encode(&self, out: &mut Vec<u8>) {
        write_le(out, *self as u64, 2);
    }
}

impl EncodeInt for u16 {
    open spec fn width_spec() -> nat {
        2
    }

    open spec fn count_spec(v: u16) -> int {
        v as int
    }

    open spec fn of_count(n: nat) -> Option<u16> {
        if n <= u16::MAX {
            Some(n as u16)
        } else {
            None
        }
    }

    proof fn lemma_count(v: u16, n: nat) {
        lemma_le_bytes_len(v as nat, 2);
    }

    fn width() -> (r: usize) {
        2
    }

    fn to_count(self) -> (r: Option<u64>) {
        Some(self as u64)
    }

    fn from_count(n: usize) -> (r: Option<Self>) {
        if n as u64 <= u16::MAX as u64 {
            Some(n as u16)
        } else {
            None
        }
    }

    fn encode_le_bytes(self, out: &mut [u8]) {
        patch_le(out, self as u64);
    }
}

impl<'a> Codec<'a> for u16 {
    open spec fn round_trips(v: u16) -> bool {
        true
    }

    open spec fn delimited(v: u16) -> bool {
        true
    }

    proof fn lemma_decoded(input: Seq<u8>) {
    }

    proof fn lemma_round_trip(v: u16, rest: Seq<u8>) {
        lemma_pow256_values();
        lemma_uint_round_trip(v as nat, 2, rest);
    }
}

/// A 16-bit pattern read as a signed number is its two's-complement value.
pub proof fn lemma_i16_of_bits(x: u16)
    ensures
        x as i16 == to_signed(x as nat, 2),
        (x as i16) as u16 == x,
{
    lemma_pow256_values();
    assert(x as i16 == if x >= 0x8000u16 {
        x - 0x10000
    } else {
        x as int
    }) by (bit_vector);
    assert((x as i16) as u16 == x) by (bit_vector);
}

/// A signed number written as a 16-bit pattern is its two's-complement form.
pub proof fn lemma_i16_to_bits(y: i16)
    ensures
        y as u16 == to_unsigned(y as int, 2),
        (y as u16) as i16 == y,
{
    lemma_pow256_values();
    assert(y as u16 == if y < 0i16 {
        y + 0x10000
    } else {
        y as int
    }) by (bit_vector);
    assert((y as u16) as i16 == y) by (bit_vector);
}

impl<'a> Parse<'a> for i16 {
    open spec fn parse_spec(input: Seq<u8>) -> Result<(i16, nat), DecodeError> {
        match uint_spec(input, 2) {
            Ok((v, n)) => Ok((to_signed(v, 2) as i16, n)),
            Err(e) => Err(e),
        }
    }

    proof fn lemma_parse_local(a: Seq<u8>, b: Seq<u8>) {
        lemma_uint_local(a, b, 2);
    }

    proof fn lemma_parse_truncated(a: Seq<u8>, k: nat) {
    }

    fn parse(input: &mut &'a [u8]) -> (r: Result<Self, DecodeError>) {
        let v = read_le(input, 2)?;
        proof {
            lemma_uint_local(old(input)@, old(input)@, 2);
            lemma_pow256_values();
            lemma_i16_of_bits(v as u16);
        }
        Ok((v as u16) as i16)
    }
}

impl Encode for i16 {
    open spec fn encode_spec(v: i16) -> Seq<u8> {
        le_bytes(to_unsigned(v as int, 2), 2)
    }

    open spec fn can_encode(v: i16) -> bool {
        true
    }

    fn encode(&self, out: &mut Vec<u8>) {
        proof {
            lemma_i16_to_bits(*self);
        }
        write_le(out, (*self as u16) as u64, 2);
    }
}

impl EncodeInt for i16 {
    open spec fn width_spec() -> nat {
        2
    }

    open spec fn count_spec(v: i16) -> int {
        v as int
    }

    open spec fn of_count(n: nat) -> Option<i16> {
        if n <= i16::MAX {
            Some(n as i16)
        } else {
            None
        }
    }

    proof fn lemma_count(v: i16, n: nat) {
        lemma_le_bytes_len(to_unsigned(v as int, 2), 2);
    }

    fn width() -> (r: usize) {
        2
    }

    fn to_count(self) -> (r: Option<u64>) {
        if self < 0 {
            None
        } else {
            Some(self as u64)
        }
    }

    fn from_count(n: usize) -> (r: Option<Self>) {
        if n as u64 <= i16::MAX as u64 {
            Some(n as i16)
        } else {
            None
        }
    }

    fn encode_le_bytes(self, out: &mut [u8]) {
        proof {
            lemma_i16_to_bits(self);
        }
        patch_le(out, (self as u16) as u64);
    }
}

impl<'a> Codec<'a> for i16 {
    open spec fn round_trips(v: i16) -> bool {
        true
    }

    open spec fn delimited(v: i16) -> bool {
        true
    }

    proof fn lemma_decoded(input: Seq<u8>) {
    }

    proof fn lemma_round_trip(v: i16, rest: Seq<u8>) {
        lemma_pow256_values();
        lemma_i16_to_bits(v);
        lemma_i16_of_bits(v as u16);
        lemma_uint_round_trip(to_unsigned(v as int, 2), 2, rest);
    }
}

impl<'a> Parse<'a> for u32 {
    open spec fn parse_spec(input: Seq<u8>) -> Result<(u32, nat), DecodeError> {
        match uint_spec(input, 4) {
            Ok((v, n)) => Ok((v as u32, n)),
            Err(e) => Err(e),
        }
    }

    proof fn lemma_parse_local(a: Seq<u8>, b: Seq<u8>) {
        lemma_uint_local(a, b, 4);
    }

    proof fn lemma_parse_truncated(a: Seq<u8>, k: nat) {
    }

    fn parse(input: &mut &'a [u8]) -> (r: Result<Self, DecodeError>) {
        let v = read_le(input, 4)?;
        proof {
            lemma_uint_local(old(input)@, old(input)@, 4);
            lemma_pow256_values();
        }
        Ok(v as u32)
    }
}

impl Encode for u32 {
    open spec fn encode_spec(v: u32) -> Seq<u8> {
        le_bytes(v as nat, 4)
    }

    open spec fn can_encode(v: u32) -> bool {
        true
    }

    fn encode(&self, out: &mut Vec<u8>) {
        write_le(out, *self as u64, 4);
    }
}

impl EncodeInt for u32 {
    open spec fn width_spec() -> nat {
        4
    }

    open spec fn count_spec(v: u32) -> int {
        v as int
    }

    open spec fn of_count(n: nat) -> Option<u32> {
        if n <= u32::MAX {
            Some(n as u32)
        } else {
            None
        }
    }

    proof fn lemma_count(v: u32, n: nat) {
        lemma_le_bytes_len(v as nat, 4);
    }

    fn width() -> (r: usize) {
        4
    }

    fn to_count(self) -> (r: Option<u64>) {
        Some(self as u64)
    }

    fn from_count(n: usize) -> (r: Option<Self>) {
        if n as u64 <= u32::MAX as u64 {
            Some(n as u32)
        } else {
            None
        }
    }

    fn encode_le_bytes(self, out: &mut [u8]) {
        patch_le(out, self as u64);
    }
}

impl<'a> Codec<'a> for u32 {
    open spec fn round_trips(v: u32) -> bool {
        true
    }

    open spec fn delimited(v: u32) -> bool {
        true
    }

    proof fn lemma_decoded(input: Seq<u8>) {
    }

    proof fn lemma_round_trip(v: u32, rest: Seq<u8>) {
        lemma_pow256_values();
        lemma_uint_round_trip(v as nat, 4, rest);
    }
}

/// A 32-bit pattern read as a signed number is its two's-complement value.
pub proof fn lemma_i32_of_bits(x: u32)
    ensures
        x as i32 == to_signed(x as nat, 4),
        (x as i32) as u32 == x,
{
    lemma_pow256_values();
    assert(x as i32 == if x >= 0x80000000u32 {
        x - 0x100000000
    } else {
        x as int
    }) by (bit_vector);
    assert((x as i32) as u32 == x) by (bit_vector);
}

/// A signed number written as a 32-bit pattern is its two's-complement form.
pub proof fn lemma_i32_to_bits(y: i32)
    ensures
        y as u32 == to_unsigned(y as int, 4),
        (y as u32) as i32 == y,
{
    lemma_pow256_values();
    assert(y as u32 == if y < 0i32 {
        y + 0x100000000
    } else {
        y as int
    }) by (bit_vector);
    assert((y as u32) as i32 == y) by (bit_vector);
}

impl<'a> Parse<'a> for i32 {
    open spec fn parse_spec(input: Seq<u8>) -> Result<(i32, nat), DecodeError> {
        match uint_spec(input, 4) {
            Ok((v, n)) => Ok((to_signed(v, 4) as i32, n)),
            Err(e) => Err(e),
        }
    }

    proof fn lemma_parse_local(a: Seq<u8>, b: Seq<u8>) {
        lemma_uint_local(a, b, 4);
    }

    proof fn lemma_parse_truncated(a: Seq<u8>, k: nat) {
    }

    fn parse(input: &mut &'a [u8]) -> (r: Result<Self, DecodeError>) {
        let v = read_le(input, 4)?;
        proof {
            lemma_uint_local(old(input)@, old(input)@, 4);
            lemma_pow256_values();
            lemma_i32_of_bits(v as u32);
        }
        Ok((v as u32) as i32)
    }
}

impl Encode for i32 {
    open spec fn encode_spec(v: i32) -> Seq<u8> {
        le_bytes(to_unsigned(v as int, 4), 4)
    }

    open spec fn can_encode(v: i32) -> bool {
        true
    }

    fn encode(&self, out: &mut Vec<u8>) {
        proof {
            lemma_i32_to_bits(*self);
        }
        write_le(out, (*self as u32) as u64, 4);
    }
}

impl EncodeInt for i32 {
    open spec fn width_spec() -> nat {
        4
    }

    open spec fn count_spec(v: i32) -> int {
        v as int
    }

    open spec fn of_count(n: nat) -> Option<i32> {
        if n <= i32::MAX {
            Some(n as i32)
        } else {
            None
        }
    }

    proof fn lemma_count(v: i32, n: nat) {
        lemma_le_bytes_len(to_unsigned(v as int, 4), 4);
    }

    fn width() -> (r: usize) {
        4
    }

    fn to_count(self) -> (r: Option<u64>) {
        if self < 0 {
            None
        } else {
            Some(self as u64)
        }
    }

    fn from_count(n: usize) -> (r: Option<Self>) {
        if n as u64 <= i32::MAX as u64 {
            Some(n as i32)
        } else {
            None
        }
    }

    fn encode_le_bytes(self, out: &mut [u8]) {
        proof {
            lemma_i32_to_bits(self);
        }
        patch_le(out, (self as u32) as u64);
    }
}

impl<'a> Codec<'a> for i32 {
    open spec fn round_trips(v: i32) -> bool {
        true
    }

    open spec fn delimited(v: i32) -> bool {
        true
    }

    proof fn lemma_decoded(input: Seq<u8>) {
    }

    proof fn lemma_round_trip(v: i32, rest: Seq<u8>) {
        lemma_pow256_values();
        lemma_i32_to_bits(v);
        lemma_i32_of_bits(v as u32);
        lemma_uint_round_trip(to_unsigned(v as int, 4), 4, rest);
    }
}

impl<'a> Parse<'a> for u64 {
    open spec fn parse_spec(input: Seq<u8>) -> Result<(u64, nat), DecodeError> {
        match uint_spec(input, 8) {
            Ok((v, n)) => Ok((v as u64, n)),
            Err(e) => Err(e),
        }
    }

    proof fn lemma_parse_local(a: Seq<u8>, b: Seq<u8>) {
        lemma_uint_local(a, b, 8);
    }

    proof fn lemma_parse_truncated(a: Seq<u8>, k: nat) {
    }

    fn parse(input: &mut &'a [u8]) -> (r: Result<Self, DecodeError>) {
        let v = read_le(input, 8)?;
        proof {
            lemma_uint_local(old(input)@, old(input)@, 8);
            lemma_pow256_values();
        }
        Ok(v as u64)
    }
}

impl Encode for u64 {
    open spec fn encode_spec(v: u64) -> Seq<u8> {
        le_bytes(v as nat, 8)
    }

    open spec fn can_encode(v: u64) -> bool {
        true
    }

    fn encode(&self, out: &mut Vec<u8>) {
        write_le(out, *self as u64, 8);
    }
}

impl EncodeInt for u64 {
    open spec fn width_spec() -> nat {
        8
    }

    open spec fn count_spec(v: u64) -> int {
        v as int
    }

    open spec fn of_count(n: nat) -> Option<u64> {
        if n <= u64::MAX {
            Some(n as u64)
        } else {
            None
        }
    }

    proof fn lemma_count(v: u64, n: nat) {
        lemma_le_bytes_len(v as nat, 8);
    }

    fn width() -> (r: usize) {
        8
    }

    fn to_count(self) -> (r: Option<u64>) {
        Some(self as u64)
    }

    fn from_count(n: usize) -> (r: Option<Self>) {
        if n as u64 <= u64::MAX as u64 {
            Some(n as u64)
        } else {
            None
        }
    }

    fn encode_le_bytes(self, out: &mut [u8]) {
        patch_le(out, self as u64);
    }
}

impl<'a> Codec<'a> for u64 {
    open spec fn round_trips(v: u64) -> bool {
        true
    }

    open spec fn delimited(v: u64) -> bool {
        true
    }

    proof fn lemma_decoded(input: Seq<u8>) {
    }

    proof fn lemma_round_trip(v: u64, rest: Seq<u8>) {
        lemma_pow256_values();
        lemma_uint_round_trip(v as nat, 8, rest);
    }
}

/// A 64-bit pattern read as a signed number is its two's-complement value.
pub proof fn lemma_i64_of_bits(x: u64)
    ensures
        x as i64 == to_signed(x as nat, 8),
        (x as i64) as u64 == x,
{
    lemma_pow256_values();
    assert(x as i64 == if x >= 0x8000000000000000u64 {
        x - 0x10000000000000000
    } else {
        x as int
    }) by (bit_vector);
    assert((x as i64) as u64 == x) by (bit_vector);
}

/// A signed number written as a 64-bit pattern is its two's-complement form.
pub proof fn lemma_i64_to_bits(y: i64)
    ensures
        y as u64 == to_unsigned(y as int, 8),
        (y as u64) as i64 == y,
{
    lemma_pow256_values();
    assert(y as u64 == if y < 0i64 {
        y + 0x10000000000000000
    } else {
        y as int
    }) by (bit_vector);
    assert((y as u64) as i64 == y) by (bit_vector);
}

impl<'a> Parse<'a> for i64 {
    open spec fn parse_spec(input: Seq<u8>) -> Result<(i64, nat), DecodeError> {
        match uint_spec(input, 8) {
            Ok((v, n)) => Ok((to_signed(v, 8) as i64, n)),
            Err(e) => Err(e),
        }
    }

    proof fn lemma_parse_local(a: Seq<u8>, b: Seq<u8>) {
        lemma_uint_local(a, b, 8);
    }

    proof fn lemma_parse_truncated(a: Seq<u8>, k: nat) {
    }

    fn parse(input: &mut &'a [u8]) -> (r: Result<Self, DecodeError>) {
        let v = read_le(input, 8)?;
        proof {
            lemma_uint_local(old(input)@, old(input)@, 8);
            lemma_pow256_values();
            lemma_i64_of_bits(v as u64);
        }
        Ok((v as u64) as i64)
    }
}

impl Encode for i64 {
    open spec fn encode_spec(v: i64) -> Seq<u8> {
        le_bytes(to_unsigned(v as int, 8), 8)
    }

    open spec fn can_encode(v: i64) -> bool {
        true
    }

    fn encode(&self, out: &mut Vec<u8>) {
        proof {
            lemma_i64_to_bits(*self);
        }
        write_le(out, (*self as u64) as u64, 8);
    }
}

impl EncodeInt for i64 {
    open spec fn width_spec() -> nat {
        8
    }

    open spec fn count_spec(v: i64) -> int {
        v as int
    }

    open spec fn of_count(n: nat) -> Option<i64> {
        if n <= i64::MAX {
            Some(n as i64)
        } else {
            None
        }
    }

    proof fn lemma_count(v: i64, n: nat) {
        lemma_le_bytes_len(to_unsigned(v as int, 8), 8);
    }

    fn width() -> (r: usize) {
        8
    }

    fn to_count(self) -> (r: Option<u64>) {
        if self < 0 {
            None
        } else {
            Some(self as u64)
        }
    }

    fn from_count(n: usize) -> (r: Option<Self>) {
        if n as u64 <= i64::MAX as u64 {
            Some(n as i64)
        } else {
            None
        }
    }

    fn encode_le_bytes(self, out: &mut [u8]) {
        proof {
            lemma_i64_to_bits(self);
        }
        patch_le(out, (self as u64) as u64);
    }
}

impl<'a> Codec<'a> for i64 {
    open spec fn round_trips(v: i64) -> bool {
        true
    }

    open spec fn delimited(v: i64) -> bool {
        true
    }

    proof fn lemma_decoded(input: Seq<u8>) {
    }

    proof fn lemma_round_trip(v: i64, rest: Seq<u8>) {
        lemma_pow256_values();
        lemma_i64_to_bits(v);
        lemma_i64_of_bits(v as u64);
        lemma_uint_round_trip(to_unsigned(v as int, 8), 8, rest);
    }
}

/// A single byte is its own wire form.
pub proof fn lemma_u8_spec(input: Seq<u8>, b: u8)
    ensures
        input.len() >= 1 ==> u8::parse_spec(input) == Ok::<(u8, nat), DecodeError>((input[0], 1)),
        input.len() == 0 ==> u8::parse_spec(input) == Err::<(u8, nat), DecodeError>(
            DecodeError::Truncated,
        ),
        u8::encode_spec(b) == seq![b],
{
    reveal_with_fuel(le_value, 2);
    reveal_with_fuel(le_bytes, 2);
    if input.len() >= 1 {
        assert(input.take(1).skip(1).len() == 0);
        assert(input.take(1)[0] == input[0]);
    }
    assert(le_bytes(b as nat, 1) =~= seq![b]);
}

} // verus!
