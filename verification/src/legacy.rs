//! The text format: fields parted by `|`, lists by `;`, the fields of an item
//! by backticks, and coordinates by `,`.

use crate::error::DecodeError;
use crate::parser::{first_true, lemma_first_true};
use crate::slice::views;
use crate::text::utf8_text;
use crate::wire::Point;
use vstd::prelude::*;
use vstd::slice::slice_subrange;
use vstd::utf8::{decode_utf8, valid_utf8};

verus! {

/// For each byte of `s`, whether it is `sep`.
pub open spec fn marks(s: Seq<u8>, sep: u8) -> Seq<bool> {
    Seq::new(s.len(), |i: int| s[i] == sep)
}

/// The pieces that `s` falls into when it is cut at every `sep`. There is
/// one piece more than there are separators: a text without a separator is
/// one piece, and the empty text is one empty piece.
pub open spec fn split(s: Seq<u8>, sep: u8) -> Seq<Seq<u8>>
    decreases s.len(),
{
    match first_true(marks(s, sep)) {
        Some(i) => if i < s.len() {
            seq![s.take(i as int)] + split(s.skip(i as int + 1), sep)
        } else {
            seq![s]
        },
        None => seq![s],
    }
}

/// The bytes of each piece of `parts`.
pub open spec fn pieces(parts: Seq<&[u8]>) -> Seq<Seq<u8>> {
    Seq::new(parts.len(), |i: int| parts[i]@)
}

/// Cuts `s` at every `sep`. The pieces are spans of `s`: nothing is copied.
pub fn split_bytes<'a>(s: &'a [u8], sep: u8) -> (r: Vec<&'a [u8]>)
    ensures
        pieces(r@) == split(s@, sep),
        r@.len() == split(s@, sep).len(),
        r@.len() >= 1,
        forall|k: int| 0 <= k < r@.len() ==> (#[trigger] r@[k])@ == split(s@, sep)[k],
{
    let mut parts: Vec<&'a [u8]> = Vec::new();
    let mut start: usize = 0;
    let mut i: usize = 0;
    proof {
        assert(s@.skip(0) =~= s@);
        assert(pieces(parts@) + split(s@.skip(0), sep) =~= split(s@, sep));
    }
    while i < s.len()
        invariant
            start <= i <= s@.len(),
            pieces(parts@) + split(s@.skip(start as int), sep) == split(s@, sep),
            forall|j: int| start <= j < i ==> s@[j] != sep,
        decreases s@.len() - i,
    {
        if s[i] == sep {
            let part = slice_subrange(s, start, i);
            proof {
                let rest = s@.skip(start as int);
                lemma_first_true(marks(rest, sep));
                assert(marks(rest, sep)[i - start]);
                assert forall|j: int| 0 <= j < i - start implies !#[trigger] marks(rest, sep)[j]
                by {
                    assert(rest[j] == s@[start + j]);
                }
                assert(first_true(marks(rest, sep)) == Some((i - start) as nat));
                assert(rest.take(i - start) =~= part@);
                assert(rest.skip(i - start + 1) =~= s@.skip(i + 1));
                assert(pieces(parts@.push(part)) =~= pieces(parts@).push(part@));
                assert(pieces(parts@).push(part@) + split(s@.skip(i + 1), sep) =~= pieces(parts@)
                    + (seq![part@] + split(s@.skip(i + 1), sep)));
            }
            parts.push(part);
            start = i + 1;
        }
        i = i + 1;
    }
    let last = slice_subrange(s, start, s.len());
    proof {
        let rest = s@.skip(start as int);
        lemma_first_true(marks(rest, sep));
        assert forall|j: int| 0 <= j < rest.len() implies !#[trigger] marks(rest, sep)[j] by {
            assert(rest[j] == s@[start + j]);
        }
        assert(first_true(marks(rest, sep)) is None);
        assert(last@ =~= rest);
        assert(pieces(parts@.push(last)) =~= pieces(parts@) + seq![rest]);
    }
    parts.push(last);
    proof {
        assert forall|k: int| 0 <= k < parts@.len() implies (#[trigger] parts@[k])@ == split(
            s@,
            sep,
        )[k] by {
            assert(pieces(parts@)[k] == parts@[k]@);
        }
    }
    parts
}

/// Whether a byte is a decimal digit.
pub open spec fn is_digit(b: u8) -> bool {
    0x30 <= b <= 0x39
}

/// Whether `s` is one decimal digit or more, and nothing else.
pub open spec fn all_digits(s: Seq<u8>) -> bool {
    s.len() > 0 && forall|i: int| 0 <= i < s.len() ==> is_digit(#[trigger] s[i])
}

/// The number that a run of decimal digits stands for.
pub open spec fn digits_value(s: Seq<u8>) -> nat
    decreases s.len(),
{
    if s.len() == 0 {
        0
    } else {
        10 * digits_value(s.drop_last()) + (s.last() - 0x30) as nat
    }
}

/// The integer that `s` stands for in decimal: digits, with `-` in front for
/// a negative number. `None` where `s` is anything else.
pub open spec fn decimal(s: Seq<u8>) -> Option<int> {
    if s.len() > 0 && s[0] == 0x2d {
        if all_digits(s.skip(1)) {
            Some(-(digits_value(s.skip(1)) as int))
        } else {
            None
        }
    } else if all_digits(s) {
        Some(digits_value(s) as int)
    } else {
        None
    }
}

/// What reading a numeric field that must lie between `min` and `max`
/// gives.
pub open spec fn number_spec(s: Seq<u8>, min: int, max: int) -> Result<int, DecodeError> {
    match decimal(s) {
        Some(v) => if min <= v <= max {
            Ok(v)
        } else {
            Err(DecodeError::InvalidNumber)
        },
        None => Err(DecodeError::InvalidNumber),
    }
}

/// Reads a decimal number that must lie between `min` and `max`.
fn parse_number(s: &[u8], min: i128, max: i128) -> (r: Result<i128, DecodeError>)
    requires
        -0x1_0000_0000_0000_0000 <= min <= max <= 0x1_0000_0000_0000_0000,
    ensures
        match number_spec(s@, min as int, max as int) {
            Ok(v) => r == Ok::<i128, DecodeError>(v as i128),
            Err(e) => r == Err::<i128, DecodeError>(e),
        },
{
    let negative: bool = s.len() > 0 && s[0] == 0x2d;
    let start: usize = if negative { 1 } else { 0 };
    if s.len() == start {
        return Err(DecodeError::InvalidNumber);
    }
    let ghost digits = s@.skip(start as int);
    let mut acc: i128 = 0;
    let mut too_big: bool = false;
    let mut i: usize = start;
    proof {
        assert(digits.take(0) =~= Seq::<u8>::empty());
    }
    while i < s.len()
        invariant
            start <= i <= s@.len(),
            start == if negative { 1usize } else { 0usize },
            negative == (s@.len() > 0 && s@[0] == 0x2d),
            digits == s@.skip(start as int),
            forall|j: int| 0 <= j < i - start ==> is_digit(#[trigger] digits[j]),
            !too_big ==> acc == digits_value(digits.take(i - start)) && 0 <= acc
                <= 0x1_0000_0000_0000_0000,
            too_big ==> digits_value(digits.take(i - start)) > 0x1_0000_0000_0000_0000,
        decreases s@.len() - i,
    {
        let b: u8 = s[i];
        if b < 0x30 || b > 0x39 {
            proof {
                assert(!is_digit(digits[i - start]));
                if !negative {
                    assert(digits =~= s@);
                }
            }
            return Err(DecodeError::InvalidNumber);
        }
        proof {
            assert(digits.take(i - start + 1).drop_last() =~= digits.take(i - start));
            assert(digits.take(i - start + 1).last() == b);
        }
        if !too_big {
            acc = acc * 10 + (b - 0x30) as i128;
            if acc > 0x1_0000_0000_0000_0000 {
                too_big = true;
            }
        }
        i = i + 1;
    }
    proof {
        assert(digits.take(i - start) =~= digits);
        assert(all_digits(digits));
        if !negative {
            assert(digits =~= s@);
        }
    }
    if too_big {
        return Err(DecodeError::InvalidNumber);
    }
    let value: i128 = if negative { -acc } else { acc };
    if min <= value && value <= max {
        Ok(value)
    } else {
        Err(DecodeError::InvalidNumber)
    }
}

/// What reading a text field gives: the text, where the bytes are UTF-8.
pub open spec fn text_spec(s: Seq<u8>) -> Result<Seq<char>, DecodeError> {
    if valid_utf8(s) {
        Ok(decode_utf8(s))
    } else {
        Err(DecodeError::InvalidUtf8)
    }
}

/// Reads a text field.
fn parse_text<'a>(s: &'a [u8]) -> (r: Result<&'a str, DecodeError>)
    ensures
        match text_spec(s@) {
            Ok(v) => r is Ok && r.unwrap()@ == v,
            Err(e) => r == Err::<&'a str, DecodeError>(e),
        },
{
    match utf8_text(s) {
        Some(text) => {
            proof {
                vstd::utf8::encode_utf8_decode_utf8(text@);
            }
            Ok(text)
        },
        None => Err(DecodeError::InvalidUtf8),
    }
}

/// What applying `f` to every item of a list gives: the results in order,
/// or the first error that `f` gives.
pub open spec fn try_map<A, B>(items: Seq<A>, f: spec_fn(A) -> Result<B, DecodeError>) -> Result<
    Seq<B>,
    DecodeError,
>
    decreases items.len(),
{
    if items.len() == 0 {
        Ok(Seq::empty())
    } else {
        match f(items[0]) {
            Err(e) => Err(e),
            Ok(v) => match try_map(items.skip(1), f) {
                Ok(vs) => Ok(seq![v] + vs),
                Err(e) => Err(e),
            },
        }
    }
}

/// `try_map` on a list, from what it gives on the list without its last item.
pub proof fn lemma_try_map_last<A, B>(items: Seq<A>, f: spec_fn(A) -> Result<B, DecodeError>)
    requires
        items.len() > 0,
    ensures
        try_map(items, f) == match try_map(items.drop_last(), f) {
            Err(e) => Err(e),
            Ok(vs) => match f(items.last()) {
                Ok(v) => Ok(vs.push(v)),
                Err(e) => Err(e),
            },
        },
    decreases items.len(),
{
    if items.len() == 1 {
        assert(items.drop_last() =~= Seq::<A>::empty());
        assert(items.skip(1) =~= Seq::<A>::empty());
        if let Ok(v) = f(items[0]) {
            assert(seq![v] + Seq::<B>::empty() =~= Seq::<B>::empty().push(v));
        }
    } else {
        lemma_try_map_last(items.skip(1), f);
        assert(items.skip(1).drop_last() =~= items.drop_last().skip(1));
        assert(items.drop_last()[0] == items[0]);
        assert(items.skip(1).last() == items.last());
        if let Ok(v) = f(items[0]) {
            if let Ok(vs) = try_map(items.drop_last().skip(1), f) {
                if let Ok(w) = f(items.last()) {
                    assert(seq![v] + vs.push(w) =~= (seq![v] + vs).push(w));
                }
            }
        }
    }
}

/// The kind name of the one component kind that has a custom id: `Custom`.
pub open spec fn custom_kind() -> Seq<u8> {
    seq![0x43u8, 0x75u8, 0x73u8, 0x74u8, 0x6fu8, 0x6du8]
}

/// Whether `s` is the kind name `Custom`.
fn is_custom_kind(s: &[u8]) -> (r: bool)
    ensures
        r == (s@ == custom_kind()),
{
    let r = s.len() == 6 && s[0] == 0x43 && s[1] == 0x75 && s[2] == 0x73 && s[3] == 0x74 && s[4]
        == 0x6f && s[5] == 0x6d;
    proof {
        if r {
            assert(s@ =~= custom_kind());
        }
    }
    r
}

/// One component of the text format.
#[derive(Clone, Debug)]
pub struct Component<'a> {
    pub kind: &'a str,
    pub position: Point,
    pub rotation: u8,
    pub permanent_id: u64,
    pub custom_string: &'a str,
    pub custom_id: Option<i64>,
}

/// What a `Component` stands for.
pub struct ComponentModel {
    pub kind: Seq<char>,
    pub position: Point,
    pub rotation: u8,
    pub permanent_id: u64,
    pub custom_string: Seq<char>,
    pub custom_id: Option<i64>,
}

impl<'a> View for Component<'a> {
    type V = ComponentModel;

    open spec fn view(&self) -> ComponentModel {
        ComponentModel {
            kind: self.kind@,
            position: self.position,
            rotation: self.rotation,
            permanent_id: self.permanent_id,
            custom_string: self.custom_string@,
            custom_id: self.custom_id,
        }
    }
}

/// What one component of the text format decodes to. Its fields are parted
/// by backticks: kind, x, y, rotation, permanent id and custom string, and,
/// behind those, the custom id for a component of kind `Custom` and for no
/// other.
pub open spec fn component_spec(item: Seq<u8>) -> Result<ComponentModel, DecodeError> {
    let f = split(item, 0x60);
    if f.len() != (if f[0] == custom_kind() { 7nat } else { 6nat }) {
        Err(DecodeError::FieldCount)
    } else {
        match text_spec(f[0]) {
            Err(e) => Err(e),
            Ok(kind) => match number_spec(f[1], i16::MIN as int, i16::MAX as int) {
                Err(e) => Err(e),
                Ok(x) => match number_spec(f[2], i16::MIN as int, i16::MAX as int) {
                    Err(e) => Err(e),
                    Ok(y) => match number_spec(f[3], 0, u8::MAX as int) {
                        Err(e) => Err(e),
                        Ok(rotation) => match number_spec(f[4], 0, u64::MAX as int) {
                            Err(e) => Err(e),
                            Ok(permanent_id) => match text_spec(f[5]) {
                                Err(e) => Err(e),
                                Ok(custom_string) => match (if f.len() == 7 {
                                    match number_spec(f[6], i64::MIN as int, i64::MAX as int) {
                                        Ok(id) => Ok(Some(id as i64)),
                                        Err(e) => Err(e),
                                    }
                                } else {
                                    Ok(None)
                                }) {
                                    Err(e) => Err(e),
                                    Ok(custom_id) => Ok(
                                        ComponentModel {
                                            kind,
                                            position: Point { x: x as i16, y: y as i16 },
                                            rotation: rotation as u8,
                                            permanent_id: permanent_id as u64,
                                            custom_string,
                                            custom_id,
                                        },
                                    ),
                                },
                            },
                        },
                    },
                },
            },
        }
    }
}

/// Decodes one component of the text format.
pub fn parse_component<'a>(item: &'a [u8]) -> (r: Result<Component<'a>, DecodeError>)
    ensures
        match component_spec(item@) {
            Ok(v) => r is Ok && r.unwrap()@ == v,
            Err(e) => r == Err::<Component<'a>, DecodeError>(e),
        },
{
    let f = split_bytes(item, 0x60);
    let custom = is_custom_kind(f[0]);
    let expected: usize = if custom { 7 } else { 6 };
    if f.len() != expected {
        return Err(DecodeError::FieldCount);
    }
    proof {
    }
    let kind = parse_text(f[0])?;
    let x = parse_number(f[1], -0x8000, 0x7fff)?;
    let y = parse_number(f[2], -0x8000, 0x7fff)?;
    let rotation = parse_number(f[3], 0, 0xff)?;
    let permanent_id = parse_number(f[4], 0, 0xffff_ffff_ffff_ffff)?;
    let custom_string = parse_text(f[5])?;
    let custom_id = if custom {
        Some(parse_number(f[6], -0x8000_0000_0000_0000, 0x7fff_ffff_ffff_ffff)? as i64)
    } else {
        None
    };
    Ok(
        Component {
            kind,
            position: Point { x: x as i16, y: y as i16 },
            rotation: rotation as u8,
            permanent_id: permanent_id as u64,
            custom_string,
            custom_id,
        },
    )
}

/// An error among the first items of a list is the error of the whole list.
pub proof fn lemma_try_map_error<A, B>(
    items: Seq<A>,
    f: spec_fn(A) -> Result<B, DecodeError>,
    k: int,
)
    requires
        0 <= k <= items.len(),
        try_map(items.take(k), f) is Err,
    ensures
        try_map(items, f) == try_map(items.take(k), f),
    decreases items.len() - k,
{
    if k < items.len() {
        lemma_try_map_last(items.take(k + 1), f);
        assert(items.take(k + 1).drop_last() =~= items.take(k));
        lemma_try_map_error(items, f, k + 1);
    } else {
        assert(items.take(k) =~= items);
    }
}

/// One step of `try_map` from the front of a list: what the first `k + 1`
/// items give, from what the first `k` give and what `f` makes of the next.
pub proof fn lemma_try_map_step<A, B>(
    items: Seq<A>,
    f: spec_fn(A) -> Result<B, DecodeError>,
    k: int,
)
    requires
        0 <= k < items.len(),
        try_map(items.take(k), f) is Ok,
    ensures
        match f(items[k]) {
            Ok(v) => try_map(items.take(k + 1), f) == Ok::<Seq<B>, DecodeError>(
                try_map(items.take(k), f).unwrap().push(v),
            ),
            Err(e) => try_map(items, f) == Err::<Seq<B>, DecodeError>(e),
        },
{
    lemma_try_map_last(items.take(k + 1), f);
    assert(items.take(k + 1).drop_last() =~= items.take(k));
    if f(items[k]) is Err {
        lemma_try_map_error(items, f, k + 1);
    }
}

/// The number of a coordinate of the text format.
pub open spec fn coordinate_spec(s: Seq<u8>) -> Result<int, DecodeError> {
    number_spec(s, i16::MIN as int, i16::MAX as int)
}

/// The points that a list of numbers gives when read as x, y, x, y and so on.
pub open spec fn paired(numbers: Seq<int>) -> Seq<Point> {
    Seq::new(
        numbers.len() / 2,
        |i: int| Point { x: numbers[2 * i] as i16, y: numbers[2 * i + 1] as i16 },
    )
}

/// What the path of a circuit decodes to. The path is a list of numbers
/// parted by commas, read as x, y, x, y and so on; an empty field is an empty
/// path, and an odd count of numbers is an error.
pub open spec fn path_spec(s: Seq<u8>) -> Result<Seq<Point>, DecodeError> {
    if s.len() == 0 {
        Ok(Seq::empty())
    } else if split(s, 0x2c).len() % 2 != 0 {
        Err(DecodeError::FieldCount)
    } else {
        match try_map(split(s, 0x2c), |p: Seq<u8>| coordinate_spec(p)) {
            Ok(numbers) => Ok(paired(numbers)),
            Err(e) => Err(e),
        }
    }
}

/// Decodes the path of a circuit.
pub fn parse_path(s: &[u8]) -> (r: Result<Vec<Point>, DecodeError>)
    ensures
        match path_spec(s@) {
            Ok(v) => r is Ok && r.unwrap()@ == v,
            Err(e) => r == Err::<Vec<Point>, DecodeError>(e),
        },
{
    let mut points: Vec<Point> = Vec::new();
    if s.len() == 0 {
        return Ok(points);
    }
    let coords = split_bytes(s, 0x2c);
    if coords.len() % 2 != 0 {
        return Err(DecodeError::FieldCount);
    }
    let ghost items = split(s@, 0x2c);
    let ghost f = |p: Seq<u8>| coordinate_spec(p);
    let ghost mut numbers: Seq<int> = Seq::empty();
    let mut i: usize = 0;
    proof {
        assert(items.take(0) =~= Seq::<Seq<u8>>::empty());
    }
    while i < coords.len()
        invariant
            i <= coords@.len(),
            i % 2 == 0,
            coords@.len() % 2 == 0,
            items == pieces(coords@),
            items == split(s@, 0x2c),
            f == (|p: Seq<u8>| coordinate_spec(p)),
            try_map(items.take(i as int), f) == Ok::<Seq<int>, DecodeError>(numbers),
            numbers.len() == i,
            points@ == paired(numbers),
        decreases coords@.len() - i,
    {
        proof {
            lemma_try_map_step(items, f, i as int);
        }
        let x = parse_number(coords[i], -0x8000, 0x7fff)?;
        proof {
            lemma_try_map_step(items, f, i + 1);
        }
        let y = parse_number(coords[i + 1], -0x8000, 0x7fff)?;
        proof {
            let grown = numbers.push(x as int).push(y as int);
            assert(paired(grown) =~= paired(numbers).push(Point { x: x as i16, y: y as i16 }));
            numbers = grown;
        }
        points.push(Point { x: x as i16, y: y as i16 });
        i = i + 2;
    }
    proof {
        assert(items.take(i as int) =~= items);
    }
    Ok(points)
}

/// One circuit of the text format: a wire, as a list of the points it runs
/// through.
#[derive(Clone, Debug)]
pub struct Circuit<'a> {
    pub id: u64,
    pub kind: u8,
    pub color: u8,
    pub comment: &'a str,
    pub path: Vec<Point>,
}

/// What a `Circuit` stands for.
pub struct CircuitModel {
    pub id: u64,
    pub kind: u8,
    pub color: u8,
    pub comment: Seq<char>,
    pub path: Seq<Point>,
}

impl<'a> View for Circuit<'a> {
    type V = CircuitModel;

    open spec fn view(&self) -> CircuitModel {
        CircuitModel {
            id: self.id,
            kind: self.kind,
            color: self.color,
            comment: self.comment@,
            path: self.path@,
        }
    }
}

/// What one circuit of the text format decodes to. Its five fields are
/// parted by backticks: id, kind, color, comment and path.
pub open spec fn circuit_spec(item: Seq<u8>) -> Result<CircuitModel, DecodeError> {
    let f = split(item, 0x60);
    if f.len() != 5 {
        Err(DecodeError::FieldCount)
    } else {
        match number_spec(f[0], 0, u64::MAX as int) {
            Err(e) => Err(e),
            Ok(id) => match number_spec(f[1], 0, u8::MAX as int) {
                Err(e) => Err(e),
                Ok(kind) => match number_spec(f[2], 0, u8::MAX as int) {
                    Err(e) => Err(e),
                    Ok(color) => match text_spec(f[3]) {
                        Err(e) => Err(e),
                        Ok(comment) => match path_spec(f[4]) {
                            Err(e) => Err(e),
                            Ok(path) => Ok(
                                CircuitModel {
                                    id: id as u64,
                                    kind: kind as u8,
                                    color: color as u8,
                                    comment,
                                    path,
                                },
                            ),
                        },
                    },
                },
            },
        }
    }
}

/// Decodes one circuit of the text format.
pub fn parse_circuit<'a>(item: &'a [u8]) -> (r: Result<Circuit<'a>, DecodeError>)
    ensures
        match circuit_spec(item@) {
            Ok(v) => r is Ok && r.unwrap()@ == v,
            Err(e) => r == Err::<Circuit<'a>, DecodeError>(e),
        },
{
    let f = split_bytes(item, 0x60);
    if f.len() != 5 {
        return Err(DecodeError::FieldCount);
    }
    proof {
    }
    let id = parse_number(f[0], 0, 0xffff_ffff_ffff_ffff)?;
    let kind = parse_number(f[1], 0, 0xff)?;
    let color = parse_number(f[2], 0, 0xff)?;
    let comment = parse_text(f[3])?;
    let path = parse_path(f[4])?;
    Ok(Circuit { id: id as u64, kind: kind as u8, color: color as u8, comment, path })
}

/// What a list field decodes to: its items are parted by semicolons, and an
/// empty field is an empty list.
pub open spec fn list_spec<B>(field: Seq<u8>, f: spec_fn(Seq<u8>) -> Result<B, DecodeError>)
    -> Result<Seq<B>, DecodeError> {
    if field.len() == 0 {
        Ok(Seq::empty())
    } else {
        try_map(split(field, 0x3b), f)
    }
}

/// Decodes the list of components.
pub fn parse_components<'a>(field: &'a [u8]) -> (r: Result<Vec<Component<'a>>, DecodeError>)
    ensures
        match list_spec(field@, |item: Seq<u8>| component_spec(item)) {
            Ok(v) => r is Ok && views(r.unwrap()@) == v,
            Err(e) => r == Err::<Vec<Component<'a>>, DecodeError>(e),
        },
{
    let mut done: Vec<Component<'a>> = Vec::new();
    if field.len() == 0 {
        proof {
            assert(views(done@) =~= Seq::<ComponentModel>::empty());
        }
        return Ok(done);
    }
    let parts = split_bytes(field, 0x3b);
    let ghost items = split(field@, 0x3b);
    let ghost f = |item: Seq<u8>| component_spec(item);
    let mut i: usize = 0;
    proof {
        assert(items.take(0) =~= Seq::<Seq<u8>>::empty());
        assert(views(done@) =~= Seq::<ComponentModel>::empty());
    }
    while i < parts.len()
        invariant
            i <= parts@.len(),
            field@.len() > 0,
            items == pieces(parts@),
            items == split(field@, 0x3b),
            f == (|item: Seq<u8>| component_spec(item)),
            try_map(items.take(i as int), f) == Ok::<Seq<ComponentModel>, DecodeError>(
                views(done@),
            ),
        decreases parts@.len() - i,
    {
        proof {
            lemma_try_map_step(items, f, i as int);
        }
        let component = parse_component(parts[i])?;
        proof {
            assert(views(done@.push(component)) =~= views(done@).push(component@));
        }
        done.push(component);
        i = i + 1;
    }
    proof {
        assert(items.take(i as int) =~= items);
    }
    Ok(done)
}

/// Decodes the list of circuits.
pub fn parse_circuits<'a>(field: &'a [u8]) -> (r: Result<Vec<Circuit<'a>>, DecodeError>)
    ensures
        match list_spec(field@, |item: Seq<u8>| circuit_spec(item)) {
            Ok(v) => r is Ok && views(r.unwrap()@) == v,
            Err(e) => r == Err::<Vec<Circuit<'a>>, DecodeError>(e),
        },
{
    let mut done: Vec<Circuit<'a>> = Vec::new();
    if field.len() == 0 {
        proof {
            assert(views(done@) =~= Seq::<CircuitModel>::empty());
        }
        return Ok(done);
    }
    let parts = split_bytes(field, 0x3b);
    let ghost items = split(field@, 0x3b);
    let ghost f = |item: Seq<u8>| circuit_spec(item);
    let mut i: usize = 0;
    proof {
        assert(items.take(0) =~= Seq::<Seq<u8>>::empty());
        assert(views(done@) =~= Seq::<CircuitModel>::empty());
    }
    while i < parts.len()
        invariant
            i <= parts@.len(),
            field@.len() > 0,
            items == pieces(parts@),
            items == split(field@, 0x3b),
            f == (|item: Seq<u8>| circuit_spec(item)),
            try_map(items.take(i as int), f) == Ok::<Seq<CircuitModel>, DecodeError>(views(done@)),
        decreases parts@.len() - i,
    {
        proof {
            lemma_try_map_step(items, f, i as int);
        }
        let circuit = parse_circuit(parts[i])?;
        proof {
            assert(views(done@.push(circuit)) =~= views(done@).push(circuit@));
        }
        done.push(circuit);
        i = i + 1;
    }
    proof {
        assert(items.take(i as int) =~= items);
    }
    Ok(done)
}

/// What the score field decodes to: the count of gates and the delay, parted
/// by a comma; both are zero where the field is empty.
pub open spec fn score_spec(field: Seq<u8>) -> Result<(i64, i64), DecodeError> {
    if field.len() == 0 {
        Ok((0i64, 0i64))
    } else if split(field, 0x2c).len() != 2 {
        Err(DecodeError::FieldCount)
    } else {
        match number_spec(split(field, 0x2c)[0], i64::MIN as int, i64::MAX as int) {
            Err(e) => Err(e),
            Ok(nand) => match number_spec(split(field, 0x2c)[1], i64::MIN as int, i64::MAX as int) {
                Err(e) => Err(e),
                Ok(delay) => Ok((nand as i64, delay as i64)),
            },
        }
    }
}

/// Decodes the score field.
pub fn parse_score(field: &[u8]) -> (r: Result<(i64, i64), DecodeError>)
    ensures
        r == score_spec(field@),
{
    if field.len() == 0 {
        return Ok((0, 0));
    }
    let parts = split_bytes(field, 0x2c);
    if parts.len() != 2 {
        return Err(DecodeError::FieldCount);
    }
    proof {
    }
    let nand = parse_number(parts[0], -0x8000_0000_0000_0000, 0x7fff_ffff_ffff_ffff)?;
    let delay = parse_number(parts[1], -0x8000_0000_0000_0000, 0x7fff_ffff_ffff_ffff)?;
    Ok((nand as i64, delay as i64))
}

/// A whole circuit as the text format stores it.
#[derive(Clone, Debug)]
pub struct CircuitData<'a> {
    pub components: Vec<Component<'a>>,
    pub circuits: Vec<Circuit<'a>>,
    pub nand: i64,
    pub delay: i64,
    pub version: i64,
}

/// What a `CircuitData` stands for.
pub struct CircuitDataModel {
    pub components: Seq<ComponentModel>,
    pub circuits: Seq<CircuitModel>,
    pub nand: i64,
    pub delay: i64,
    pub version: i64,
}

impl<'a> View for CircuitData<'a> {
    type V = CircuitDataModel;

    open spec fn view(&self) -> CircuitDataModel {
        CircuitDataModel {
            components: views(self.components@),
            circuits: views(self.circuits@),
            nand: self.nand,
            delay: self.delay,
            version: self.version,
        }
    }
}

/// What the version field decodes to: the number in the fifth part, and zero
/// where there is no fifth part or it is empty.
pub open spec fn version_spec(parts: Seq<Seq<u8>>) -> Result<i64, DecodeError> {
    if parts.len() == 5 && parts[4].len() > 0 {
        match number_spec(parts[4], i64::MIN as int, i64::MAX as int) {
            Ok(v) => Ok(v as i64),
            Err(e) => Err(e),
        }
    } else {
        Ok(0i64)
    }
}

/// What a body of the text format decodes to.
///
/// The body must be UTF-8 and fall into four or five parts at its `|`
/// bytes. The first part is not read. The second holds the components, the
/// third the circuits, the fourth the score, and the fifth, where there is
/// one, the version.
pub open spec fn body_spec(body: Seq<u8>) -> Result<CircuitDataModel, DecodeError> {
    let parts = split(body, 0x7c);
    if !valid_utf8(body) {
        Err(DecodeError::InvalidUtf8)
    } else if parts.len() != 4 && parts.len() != 5 {
        Err(DecodeError::FieldCount)
    } else {
        match list_spec(parts[1], |item: Seq<u8>| component_spec(item)) {
            Err(e) => Err(e),
            Ok(components) => match list_spec(parts[2], |item: Seq<u8>| circuit_spec(item)) {
                Err(e) => Err(e),
                Ok(circuits) => match score_spec(parts[3]) {
                    Err(e) => Err(e),
                    Ok((nand, delay)) => match version_spec(parts) {
                        Err(e) => Err(e),
                        Ok(version) => Ok(
                            CircuitDataModel { components, circuits, nand, delay, version },
                        ),
                    },
                },
            },
        }
    }
}

impl<'a> CircuitData<'a> {
    /// Decodes a body of the text format. On success all of `input` is
    /// consumed; on failure `input` stays where it was.
    pub fn parse(input: &mut &'a [u8]) -> (r: Result<Self, DecodeError>)
        ensures
            match body_spec(old(input)@) {
                Ok(v) => r is Ok && r.unwrap()@ == v && final(input)@.len() == 0,
                Err(e) => r == Err::<Self, DecodeError>(e) && final(input)@ == old(input)@,
            },
    {
        let body: &'a [u8] = *input;
        if utf8_text(body).is_none() {
            return Err(DecodeError::InvalidUtf8);
        }
        let parts = split_bytes(body, 0x7c);
        if parts.len() != 4 && parts.len() != 5 {
            return Err(DecodeError::FieldCount);
        }
        proof {
        }
        let components = parse_components(parts[1])?;
        let circuits = parse_circuits(parts[2])?;
        let (nand, delay) = parse_score(parts[3])?;
        let version: i64 = if parts.len() == 5 && parts[4].len() > 0 {
            parse_number(parts[4], -0x8000_0000_0000_0000, 0x7fff_ffff_ffff_ffff)? as i64
        } else {
            0
        };
        *input = slice_subrange(body, body.len(), body.len());
        Ok(CircuitData { components, circuits, nand, delay, version })
    }
}

} // verus!
