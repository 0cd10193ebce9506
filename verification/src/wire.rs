//! Points, wire segments and wire paths.

use crate::error::DecodeError;
use crate::ints::lemma_u8_spec;
use crate::compound::{pair_bytes, pair_spec};
use crate::parser::{Codec, Encode, Parse};
use crate::slice::{can_encode_all, decode_all, encode_all, Slice};
use vstd::prelude::*;
use vstd::slice::slice_subrange;

verus! {

/// A grid position.
///
/// Points are ordered by `x` first and by `y` where `x` is equal; the edge key
/// of a wire rests on that order.
#[derive(Clone, Copy, Debug, PartialEq, Eq, PartialOrd, Ord, Hash, Structural)]
pub struct Point {
    pub x: i16,
    pub y: i16,
}

impl View for Point {
    type V = Point;

    open spec fn view(&self) -> Point {
        *self
    }
}

impl Point {
    /// Whether `self` comes before `other`, or is `other`, in the order of points.
    pub open spec fn at_most(self, other: Point) -> bool {
        self.x < other.x || (self.x == other.x && self.y <= other.y)
    }

    /// Whether `self` comes before `other`, or is `other`, in the order of points.
    pub fn le(&self, other: &Point) -> (r: bool)
        ensures
            r == self.at_most(*other),
    {
        self.x < other.x || (self.x == other.x && self.y <= other.y)
    }
}

impl<'a> Parse<'a> for Point {
    /// `x`, then `y`, each a signed 16-bit integer.
    open spec fn parse_spec(input: Seq<u8>) -> Result<(Point, nat), DecodeError> {
        match <(i16, i16)>::parse_spec(input) {
            Ok(((x, y), n)) => Ok((Point { x, y }, n)),
            Err(e) => Err(e),
        }
    }

    proof fn lemma_parse_local(a: Seq<u8>, b: Seq<u8>) {
        <(i16, i16)>::lemma_parse_local(a, b);
    }

    proof fn lemma_parse_truncated(a: Seq<u8>, k: nat) {
        <(i16, i16)>::lemma_parse_truncated(a, k);
    }

    fn parse(input: &mut &'a [u8]) -> (r: Result<Self, DecodeError>) {
        let (x, y) = <(i16, i16)>::parse(input)?;
        Ok(Point { x, y })
    }
}

impl Encode for Point {
    open spec fn encode_spec(v: Point) -> Seq<u8> {
        <(i16, i16)>::encode_spec((v.x, v.y))
    }

    open spec fn can_encode(v: Point) -> bool {
        true
    }

    fn encode(&self, out: &mut Vec<u8>) {
        self.x.encode(out);
        self.y.encode(out);
        proof {
            reveal(pair_bytes);
            assert(old(out)@ + i16::encode_spec(self.x) + i16::encode_spec(self.y) =~= old(out)@
                + (i16::encode_spec(self.x) + i16::encode_spec(self.y)));
        }
    }
}

impl<'a> Codec<'a> for Point {
    open spec fn round_trips(v: Point) -> bool {
        true
    }

    open spec fn delimited(v: Point) -> bool {
        true
    }

    proof fn lemma_decoded(input: Seq<u8>) {
    }

    proof fn lemma_round_trip(v: Point, rest: Seq<u8>) {
        <(i16, i16)>::lemma_round_trip((v.x, v.y), rest);
    }
}

/// The eight compass directions a wire segment can run in. `x` grows to the
/// right and `y` grows downwards.
#[derive(Clone, Copy, Debug, PartialEq, Eq, Structural)]
pub enum WireDirection {
    Right,
    DownRight,
    Down,
    DownLeft,
    Left,
    UpLeft,
    Up,
    UpRight,
}

impl View for WireDirection {
    type V = WireDirection;

    open spec fn view(&self) -> WireDirection {
        *self
    }
}

impl WireDirection {
    /// The code of the direction: 0 to 7, clockwise from `Right`.
    pub open spec fn code(self) -> u8 {
        match self {
            WireDirection::Right => 0,
            WireDirection::DownRight => 1,
            WireDirection::Down => 2,
            WireDirection::DownLeft => 3,
            WireDirection::Left => 4,
            WireDirection::UpLeft => 5,
            WireDirection::Up => 6,
            WireDirection::UpRight => 7,
        }
    }

    /// The direction with the given code, where there is one.
    pub open spec fn of_code(code: u8) -> Option<WireDirection> {
        if code == 0 {
            Some(WireDirection::Right)
        } else if code == 1 {
            Some(WireDirection::DownRight)
        } else if code == 2 {
            Some(WireDirection::Down)
        } else if code == 3 {
            Some(WireDirection::DownLeft)
        } else if code == 4 {
            Some(WireDirection::Left)
        } else if code == 5 {
            Some(WireDirection::UpLeft)
        } else if code == 6 {
            Some(WireDirection::Up)
        } else if code == 7 {
            Some(WireDirection::UpRight)
        } else {
            None
        }
    }

    /// The change of `x` for one step in the direction.
    pub open spec fn dx(self) -> int {
        match self {
            WireDirection::Right | WireDirection::DownRight | WireDirection::UpRight => 1,
            WireDirection::Left | WireDirection::DownLeft | WireDirection::UpLeft => -1,
            WireDirection::Down | WireDirection::Up => 0,
        }
    }

    /// The change of `y` for one step in the direction.
    pub open spec fn dy(self) -> int {
        match self {
            WireDirection::Down | WireDirection::DownRight | WireDirection::DownLeft => 1,
            WireDirection::Up | WireDirection::UpLeft | WireDirection::UpRight => -1,
            WireDirection::Right | WireDirection::Left => 0,
        }
    }

    /// The direction with the given code; `None` for a code above 7.
    pub fn from_code(code: u8) -> (r: Option<WireDirection>)
        ensures
            r == Self::of_code(code),
            r is Some <==> code <= 7,
            r is Some ==> r.unwrap().code() == code,
    {
        match code {
            0 => Some(WireDirection::Right),
            1 => Some(WireDirection::DownRight),
            2 => Some(WireDirection::Down),
            3 => Some(WireDirection::DownLeft),
            4 => Some(WireDirection::Left),
            5 => Some(WireDirection::UpLeft),
            6 => Some(WireDirection::Up),
            7 => Some(WireDirection::UpRight),
            _ => None,
        }
    }

    /// The code of the direction.
    pub fn to_code(self) -> (r: u8)
        ensures
            r == self.code(),
            r <= 7,
            Self::of_code(r) == Some(self),
    {
        match self {
            WireDirection::Right => 0,
            WireDirection::DownRight => 1,
            WireDirection::Down => 2,
            WireDirection::DownLeft => 3,
            WireDirection::Left => 4,
            WireDirection::UpLeft => 5,
            WireDirection::Up => 6,
            WireDirection::UpRight => 7,
        }
    }
}

impl<'a> Parse<'a> for WireDirection {
    /// One byte that holds a code from 0 to 7.
    open spec fn parse_spec(input: Seq<u8>) -> Result<(WireDirection, nat), DecodeError> {
        match u8::parse_spec(input) {
            Ok((code, n)) => match WireDirection::of_code(code) {
                Some(d) => Ok((d, n)),
                None => Err(DecodeError::UnknownDiscriminant),
            },
            Err(e) => Err(e),
        }
    }

    proof fn lemma_parse_local(a: Seq<u8>, b: Seq<u8>) {
        u8::lemma_parse_local(a, b);
    }

    proof fn lemma_parse_truncated(a: Seq<u8>, k: nat) {
        u8::lemma_parse_truncated(a, k);
    }

    fn parse(input: &mut &'a [u8]) -> (r: Result<Self, DecodeError>) {
        let mut cur: &'a [u8] = *input;
        let code = u8::parse(&mut cur)?;
        match WireDirection::from_code(code) {
            Some(d) => {
                *input = cur;
                Ok(d)
            },
            None => Err(DecodeError::UnknownDiscriminant),
        }
    }
}

impl Encode for WireDirection {
    open spec fn encode_spec(v: WireDirection) -> Seq<u8> {
        u8::encode_spec(v.code())
    }

    open spec fn can_encode(v: WireDirection) -> bool {
        true
    }

    fn encode(&self, out: &mut Vec<u8>) {
        self.to_code().encode(out);
    }
}

impl<'a> Codec<'a> for WireDirection {
    open spec fn round_trips(v: WireDirection) -> bool {
        true
    }

    open spec fn delimited(v: WireDirection) -> bool {
        true
    }

    proof fn lemma_decoded(input: Seq<u8>) {
    }

    proof fn lemma_round_trip(v: WireDirection, rest: Seq<u8>) {
        u8::lemma_round_trip(v.code(), rest);
    }
}

/// One straight piece of a wire: `length` steps in `direction`.
///
/// On the wire a segment is one byte: the length in the low five bits, the
/// code of the direction in the high three.
#[derive(Clone, Copy, Debug, PartialEq, Eq, Structural)]
pub struct WireSegment {
    pub length: u8,
    pub direction: WireDirection,
}

impl View for WireSegment {
    type V = WireSegment;

    open spec fn view(&self) -> WireSegment {
        *self
    }
}

impl WireSegment {
    /// The segment that a byte stands for.
    pub open spec fn of_byte(b: u8) -> WireSegment {
        WireSegment { length: b % 32, direction: WireDirection::of_code(b / 32).unwrap() }
    }

    /// The byte that stands for a segment of a length up to 31.
    pub open spec fn byte(self) -> u8 {
        (self.length + 32 * self.direction.code()) as u8
    }
}

pub proof fn lemma_segment_bits(b: u8, length: u8, code: u8)
    ensures
        b & 0x1f == b % 32,
        b >> 5 == b / 32,
        b / 32 <= 7,
        length <= 31 && code <= 7 ==> (length | (code << 5)) == length + 32 * code,
{
    assert(b & 0x1f == b % 32) by (bit_vector);
    assert(b >> 5 == b / 32) by (bit_vector);
    assert(length <= 31 && code <= 7 ==> (length | (code << 5)) == length + 32 * code)
        by (bit_vector);
}

impl<'a> Parse<'a> for WireSegment {
    /// One byte; every byte stands for a segment.
    open spec fn parse_spec(input: Seq<u8>) -> Result<(WireSegment, nat), DecodeError> {
        match u8::parse_spec(input) {
            Ok((b, n)) => Ok((WireSegment::of_byte(b), n)),
            Err(e) => Err(e),
        }
    }

    proof fn lemma_parse_local(a: Seq<u8>, b: Seq<u8>) {
        u8::lemma_parse_local(a, b);
    }

    proof fn lemma_parse_truncated(a: Seq<u8>, k: nat) {
        u8::lemma_parse_truncated(a, k);
    }

    fn parse(input: &mut &'a [u8]) -> (r: Result<Self, DecodeError>) {
        let ws = u8::parse(input)?;
        proof {
            lemma_segment_bits(ws, 0, 0);
        }
        let length: u8 = ws & 0x1f;
        match WireDirection::from_code(ws >> 5) {
            Some(direction) => Ok(WireSegment { length, direction }),
            None => vstd::pervasive::unreached(),
        }
    }
}

impl Encode for WireSegment {
    open spec fn encode_spec(v: WireSegment) -> Seq<u8> {
        u8::encode_spec(v.byte())
    }

    /// A segment can be written where its length fits five bits.
    open spec fn can_encode(v: WireSegment) -> bool {
        v.length <= 31
    }

    fn encode(&self, out: &mut Vec<u8>) {
        let direction: u8 = self.direction.to_code();
        proof {
            lemma_segment_bits(0, self.length, direction);
        }
        let ws: u8 = self.length | (direction << 5);
        ws.encode(out);
    }
}

impl<'a> Codec<'a> for WireSegment {
    open spec fn round_trips(v: WireSegment) -> bool {
        true
    }

    open spec fn delimited(v: WireSegment) -> bool {
        true
    }

    proof fn lemma_decoded(input: Seq<u8>) {
    }

    proof fn lemma_round_trip(v: WireSegment, rest: Seq<u8>) {
        u8::lemma_round_trip(v.byte(), rest);
        let b = v.byte();
        assert(b % 32 == v.length && b / 32 == v.direction.code());
    }
}

/// The byte that announces a teleport path.
pub const TELEPORT: u8 = 0x20;

/// Whether a byte ends a segment list: its low five bits are zero.
pub open spec fn is_terminator(b: u8) -> bool {
    b % 32 == 0
}

/// The position of the first terminator in `s`, where there is one.
pub open spec fn first_terminator(s: Seq<u8>) -> Option<nat>
    decreases s.len(),
{
    if s.len() == 0 {
        None
    } else if is_terminator(s[0]) {
        Some(0)
    } else {
        match first_terminator(s.skip(1)) {
            Some(i) => Some(i + 1),
            None => None,
        }
    }
}

/// `first_terminator` finds a terminator before which there is none, and
/// finds one wherever there is one.
pub proof fn lemma_first_terminator(s: Seq<u8>)
    ensures
        match first_terminator(s) {
            Some(i) => i < s.len() && is_terminator(s[i as int]) && forall|j: int|
                0 <= j < i ==> !is_terminator(#[trigger] s[j]),
            None => forall|j: int| 0 <= j < s.len() ==> !is_terminator(#[trigger] s[j]),
        },
    decreases s.len(),
{
    if s.len() > 0 && !is_terminator(s[0]) {
        lemma_first_terminator(s.skip(1));
        match first_terminator(s.skip(1)) {
            Some(i) => {
                assert forall|j: int| 0 <= j < i + 1 implies !is_terminator(#[trigger] s[j]) by {
                    if j > 0 {
                        assert(s[j] == s.skip(1)[j - 1]);
                    }
                }
            },
            None => {
                assert forall|j: int| 0 <= j < s.len() implies !is_terminator(#[trigger] s[j]) by {
                    if j > 0 {
                        assert(s[j] == s.skip(1)[j - 1]);
                    }
                }
            },
        }
    }
}

/// A position that holds a terminator and has none before it is the position
/// that `first_terminator` finds.
pub proof fn lemma_first_terminator_is(s: Seq<u8>, i: nat)
    requires
        i < s.len(),
        is_terminator(s[i as int]),
        forall|j: int| 0 <= j < i ==> !is_terminator(#[trigger] s[j]),
    ensures
        first_terminator(s) == Some(i),
{
    lemma_first_terminator(s);
}

/// The segments that the bytes of `s` stand for, one per byte.
pub open spec fn segments_of(s: Seq<u8>) -> Seq<WireSegment> {
    Seq::new(s.len(), |i: int| WireSegment::of_byte(s[i]))
}

/// Every span of bytes decodes, end to end, as segments: one per byte.
pub proof fn lemma_decode_segments(s: Seq<u8>)
    ensures
        decode_all::<WireSegment>(s) == Ok::<Seq<WireSegment>, DecodeError>(segments_of(s)),
    decreases s.len(),
{
    if s.len() == 0 {
        assert(segments_of(s) =~= Seq::<WireSegment>::empty());
    } else {
        lemma_u8_spec(s, 0);
        lemma_decode_segments(s.skip(1));
        assert(seq![WireSegment::of_byte(s[0])] + segments_of(s.skip(1)) =~= segments_of(s));
    }
}

/// The path of a wire: its segments in order, or, for a wire that jumps, the
/// single point where it comes out.
#[derive(Clone, Debug)]
pub enum WireSegments<'a> {
    TeleWireEnd(Point),
    Segments(Slice<'a, u64, WireSegment>),
}

/// What a `WireSegments` stands for.
pub enum WirePath {
    TeleWireEnd(Point),
    Segments(Seq<WireSegment>),
}

impl<'a> View for WireSegments<'a> {
    type V = WirePath;

    open spec fn view(&self) -> WirePath {
        match *self {
            WireSegments::TeleWireEnd(end) => WirePath::TeleWireEnd(end),
            WireSegments::Segments(segments) => WirePath::Segments(segments@),
        }
    }
}

impl<'a> Parse<'a> for WireSegments<'a> {
    /// A first byte equal to `TELEPORT` is followed by a point, whatever comes
    /// after. Any other path is a run of segment bytes up to the first byte
    /// whose low five bits are zero; that byte ends the path, is consumed with
    /// it, and is no segment of it.
    open spec fn parse_spec(input: Seq<u8>) -> Result<(WirePath, nat), DecodeError> {
        if input.len() == 0 {
            Err(DecodeError::Truncated)
        } else if input[0] == TELEPORT {
            match Point::parse_spec(input.skip(1)) {
                Ok((end, n)) => Ok((WirePath::TeleWireEnd(end), 1 + n)),
                Err(e) => Err(e),
            }
        } else {
            match first_terminator(input) {
                Some(i) => Ok((WirePath::Segments(segments_of(input.take(i as int))), i + 1)),
                None => Err(DecodeError::Truncated),
            }
        }
    }

    proof fn lemma_parse_local(a: Seq<u8>, b: Seq<u8>) {
        let n = Self::parse_spec(a).unwrap().1;
        if a[0] == TELEPORT {
            Point::lemma_parse_local(a.skip(1), b.skip(1));
            if a.take(n as int) == b.take(n as int) && n <= b.len() {
                assert(a[0] == a.take(n as int)[0]);
                assert(b[0] == b.take(n as int)[0]);
                assert(a.skip(1).take(n - 1) =~= a.take(n as int).skip(1));
                assert(b.skip(1).take(n - 1) =~= b.take(n as int).skip(1));
            }
        } else {
            lemma_first_terminator(a);
            let i = first_terminator(a).unwrap();
            if a.take(n as int) == b.take(n as int) && n <= b.len() {
                assert forall|j: int| 0 <= j <= i implies a[j] == b[j] by {
                    assert(a[j] == a.take(n as int)[j]);
                    assert(b[j] == b.take(n as int)[j]);
                }
                lemma_first_terminator_is(b, i);
                assert(a.take(i as int) =~= b.take(i as int));
            }
        }
    }

    proof fn lemma_parse_truncated(a: Seq<u8>, k: nat) {
        let cut = a.take(k as int);
        Self::lemma_parse_local(a, a);
        if k > 0 {
            assert(cut[0] == a[0]);
            if a[0] == TELEPORT {
                assert(cut.skip(1) =~= a.skip(1).take(k - 1));
                Point::lemma_parse_truncated(a.skip(1), (k - 1) as nat);
            } else {
                lemma_first_terminator(a);
                lemma_first_terminator(cut);
                if let Some(j) = first_terminator(cut) {
                    assert(cut[j as int] == a[j as int]);
                }
            }
        }
    }

    fn parse(input: &mut &'a [u8]) -> (r: Result<Self, DecodeError>) {
        let all: &'a [u8] = *input;
        if all.len() == 0 {
            return Err(DecodeError::Truncated);
        }
        if all[0] == TELEPORT {
            let mut cur: &'a [u8] = slice_subrange(all, 1, all.len());
            let end = Point::parse(&mut cur)?;
            proof {
                Point::lemma_parse_local(all@.skip(1), all@.skip(1));
                let n = Point::parse_spec(all@.skip(1)).unwrap().1;
                assert(all@.skip(1).skip(n as int) =~= all@.skip(1 + n as int));
            }
            *input = cur;
            Ok(WireSegments::TeleWireEnd(end))
        } else {
            let mut i: usize = 0;
            while i < all.len() && all[i] & 0x1f != 0
                invariant
                    i <= all@.len(),
                    forall|j: int| 0 <= j < i ==> !is_terminator(#[trigger] all@[j]),
                decreases all@.len() - i,
            {
                proof {
                    lemma_segment_bits(all@[i as int], 0, 0);
                }
                i = i + 1;
            }
            proof {
                lemma_first_terminator(all@);
            }
            if i == all.len() {
                return Err(DecodeError::Truncated);
            }
            proof {
                lemma_segment_bits(all@[i as int], 0, 0);
                lemma_first_terminator_is(all@, i as nat);
                lemma_decode_segments(all@.take(i as int));
            }
            let mut span: &'a [u8] = slice_subrange(all, 0, i);
            match Slice::parse_until_end(&mut span) {
                Ok(segments) => {
                    *input = slice_subrange(all, i + 1, all.len());
                    Ok(WireSegments::Segments(segments))
                },
                Err(_) => vstd::pervasive::unreached(),
            }
        }
    }
}

impl<'a> Encode for WireSegments<'a> {
    /// A teleport path is `TELEPORT` and the point. A segment list is its
    /// segment bytes and nothing else: what ends it on the wire is the byte
    /// that follows.
    open spec fn encode_spec(v: WirePath) -> Seq<u8> {
        match v {
            WirePath::TeleWireEnd(end) => seq![TELEPORT] + Point::encode_spec(end),
            WirePath::Segments(segments) => encode_all::<WireSegment>(segments),
        }
    }

    open spec fn can_encode(v: WirePath) -> bool {
        match v {
            WirePath::TeleWireEnd(_) => true,
            WirePath::Segments(segments) => can_encode_all::<WireSegment>(segments),
        }
    }

    fn encode(&self, out: &mut Vec<u8>) {
        match self {
            Self::TeleWireEnd(point) => {
                out.push(TELEPORT);
                point.encode(out);
                proof {
                    assert(old(out)@.push(TELEPORT) + Point::encode_spec(*point) =~= old(out)@ + (
                    seq![TELEPORT] + Point::encode_spec(*point)));
                }
            },
            Self::Segments(segments) => segments.encode_without_length_prefix(out),
        }
    }
}

impl<'a> Codec<'a> for WireSegments<'a> {
    /// Only a teleport path is read back as it was written: a segment list
    /// is written without the byte that ends it.
    open spec fn round_trips(v: WirePath) -> bool {
        v is TeleWireEnd
    }

    open spec fn delimited(v: WirePath) -> bool {
        v is TeleWireEnd
    }

    proof fn lemma_decoded(input: Seq<u8>) {
    }

    proof fn lemma_round_trip(v: WirePath, rest: Seq<u8>) {
        let end = v->TeleWireEnd_0;
        let all = Self::encode_spec(v) + rest;
        Point::lemma_round_trip(end, rest);
        assert(all.skip(1) =~= Point::encode_spec(end) + rest);
    }
}

/// A path whose first byte is `TELEPORT` is a teleport path: it decodes to
/// the point in the four bytes that follow and consumes five bytes,
/// whatever stands behind them and whatever segments those bytes would
/// otherwise make.
pub proof fn lemma_teleport_first(input: Seq<u8>)
    requires
        input.len() >= 5,
        input[0] == TELEPORT,
    ensures
        WireSegments::parse_spec(input) is Ok,
        WireSegments::parse_spec(input).unwrap().0 is TeleWireEnd,
        WireSegments::parse_spec(input).unwrap().1 == 5,
        WireSegments::parse_spec(input) == WireSegments::parse_spec(input.take(5)),
{
    reveal(pair_spec);
    let rest = input.skip(1);
    assert(i16::parse_spec(rest) is Ok);
    assert(i16::parse_spec(rest.skip(2)) is Ok);
    WireSegments::lemma_parse_local(input, input.take(5));
    assert(input.take(5).take(5) =~= input.take(5));
}

/// A segment list ends at the first byte whose low five bits are zero. That
/// byte is consumed and is no segment: the list holds one segment for each
/// byte before it, none of them of length zero.
pub proof fn lemma_terminator_excluded(input: Seq<u8>)
    requires
        WireSegments::parse_spec(input) is Ok,
        WireSegments::parse_spec(input).unwrap().0 is Segments,
    ensures
        WireSegments::parse_spec(input).unwrap().1 == WireSegments::parse_spec(
            input,
        ).unwrap().0->Segments_0.len() + 1,
        is_terminator(input[WireSegments::parse_spec(input).unwrap().1 - 1]),
        forall|i: int|
            0 <= i < WireSegments::parse_spec(input).unwrap().0->Segments_0.len() ==> {
                &&& (#[trigger] WireSegments::parse_spec(input).unwrap().0->Segments_0[i])
                    == WireSegment::of_byte(input[i])
                &&& 1 <= WireSegments::parse_spec(input).unwrap().0->Segments_0[i].length <= 31
            },
{
    lemma_first_terminator(input);
}

} // verus!
