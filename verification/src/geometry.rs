//! The check that no two wires join the same two points.

use crate::error::DecodeError;
use crate::parser::Parse;
use crate::slice::Slice;
use crate::wire::{Point, WireDirection, WirePath, WireSegment, WireSegments};
use std::collections::BTreeMap;
use vstd::prelude::*;

verus! {

/// A record that has the geometry of a wire: a start point and a path.
pub trait Wired<'a>: View {
    /// The point where the wire starts.
    spec fn start_of(v: Self::V) -> Point;

    /// The path that the wire takes from its start.
    spec fn path_of(v: Self::V) -> WirePath;

    /// The point where the wire starts.
    fn start(&self) -> (r: Point)
        ensures
            r == Self::start_of(self@),
    ;

    /// The path that the wire takes from its start.
    fn path(&self) -> (r: &WireSegments<'a>)
        ensures
            r@ == Self::path_of(self@),
    ;
}

/// A position: `(x, y)`. The end of a wire can lie anywhere, so a position
/// is not held to the range of a `Point`.
pub type Position = (int, int);

/// The key of the edge between two positions: the lesser position first,
/// then the other, positions being ordered by `x` and then by `y`. Two wires
/// that join the same two positions have the same key, whichever way each
/// of them runs.
pub type EdgeKey = (int, int, int, int);

/// An `EdgeKey` in machine integers.
pub type Edge = (i128, i128, i128, i128);

/// The key that an `Edge` stands for.
pub open spec fn key_of(edge: Edge) -> EdgeKey {
    (edge.0 as int, edge.1 as int, edge.2 as int, edge.3 as int)
}

/// The position one segment away from `p`.
pub open spec fn step(p: Position, s: WireSegment) -> Position {
    (p.0 + s.direction.dx() * s.length, p.1 + s.direction.dy() * s.length)
}

/// The position reached from `start` along all of `segments`.
pub open spec fn walk(start: Position, segments: Seq<WireSegment>) -> Position
    decreases segments.len(),
{
    if segments.len() == 0 {
        start
    } else {
        step(walk(start, segments.drop_last()), segments.last())
    }
}

/// The position where a wire that starts at `start` and runs along
/// `segments` ends.
pub open spec fn end_point(start: Point, segments: Seq<WireSegment>) -> Position {
    walk((start.x as int, start.y as int), segments)
}

/// Whether `a` comes before `b`, or is `b`, in the order of positions.
pub open spec fn at_most(a: Position, b: Position) -> bool {
    a.0 < b.0 || (a.0 == b.0 && a.1 <= b.1)
}

/// The key of the edge between `a` and `b`.
pub open spec fn edge_key(a: Position, b: Position) -> EdgeKey {
    if at_most(a, b) {
        (a.0, a.1, b.0, b.1)
    } else {
        (b.0, b.1, a.0, a.1)
    }
}

/// The edge key of a wire that runs along segments. A teleport wire has
/// none: no path leads to its end.
pub open spec fn wire_edge(start: Point, path: WirePath) -> Option<EdgeKey> {
    match path {
        WirePath::TeleWireEnd(_) => None,
        WirePath::Segments(segments) => Some(
            edge_key((start.x as int, start.y as int), end_point(start, segments)),
        ),
    }
}

/// The edge keys of a list of wires, in the order of the wires.
pub open spec fn edges_of<'a, W: Wired<'a>>(wires: Seq<W::V>) -> Seq<Option<EdgeKey>> {
    Seq::new(wires.len(), |i: int| wire_edge(W::start_of(wires[i]), W::path_of(wires[i])))
}

/// The last position of `keys` that holds `key`, where there is one.
pub open spec fn last_index_of(keys: Seq<Option<EdgeKey>>, key: EdgeKey) -> Option<nat>
    decreases keys.len(),
{
    if keys.len() == 0 {
        None
    } else if keys.last() == Some(key) {
        Some((keys.len() - 1) as nat)
    } else {
        last_index_of(keys.drop_last(), key)
    }
}

/// `last_index_of` finds a position that holds the key and is followed by
/// none that does, and finds one wherever there is one.
pub proof fn lemma_last_index_of(keys: Seq<Option<EdgeKey>>, key: EdgeKey)
    ensures
        match last_index_of(keys, key) {
            Some(i) => i < keys.len() && keys[i as int] == Some(key) && forall|j: int|
                i < j < keys.len() ==> #[trigger] keys[j] != Some(key),
            None => forall|j: int| 0 <= j < keys.len() ==> #[trigger] keys[j] != Some(key),
        },
    decreases keys.len(),
{
    if keys.len() > 0 && keys.last() != Some(key) {
        lemma_last_index_of(keys.drop_last(), key);
        match last_index_of(keys.drop_last(), key) {
            Some(i) => {
                assert forall|j: int| i < j < keys.len() implies #[trigger] keys[j] != Some(
                    key,
                ) by {
                    if j < keys.len() - 1 {
                        assert(keys[j] == keys.drop_last()[j]);
                    }
                }
            },
            None => {
                assert forall|j: int| 0 <= j < keys.len() implies #[trigger] keys[j] != Some(
                    key,
                ) by {
                    if j < keys.len() - 1 {
                        assert(keys[j] == keys.drop_last()[j]);
                    }
                }
            },
        }
    }
}

/// The overlaps among a list of edge keys. Each position whose key occurs
/// earlier in the list gives one pair: the last earlier position with that
/// key, and the position itself. The pairs stand in the order of their second
/// positions.
pub open spec fn overlaps(keys: Seq<Option<EdgeKey>>) -> Seq<(usize, usize)>
    decreases keys.len(),
{
    if keys.len() == 0 {
        Seq::empty()
    } else {
        let before = overlaps(keys.drop_last());
        match keys.last() {
            Some(key) => match last_index_of(keys.drop_last(), key) {
                Some(i) => before.push((i as usize, (keys.len() - 1) as usize)),
                None => before,
            },
            None => before,
        }
    }
}

/// A list of keys has an overlap exactly where two of its positions hold the
/// same key.
pub proof fn lemma_overlaps(keys: Seq<Option<EdgeKey>>)
    ensures
        overlaps(keys).len() > 0 <==> exists|i: int, j: int|
            0 <= i < j < keys.len() && #[trigger] keys[i] is Some && keys[i] == #[trigger] keys[j],
    decreases keys.len(),
{
    if keys.len() > 0 {
        let front = keys.drop_last();
        let last = keys.len() - 1;
        lemma_overlaps(front);
        if overlaps(front).len() > 0 {
            let (i, j) = choose|i: int, j: int|
                0 <= i < j < front.len() && #[trigger] front[i] is Some && front[i]
                    == #[trigger] front[j];
            assert(keys[i] == front[i] && keys[j] == front[j]);
        } else {
            match keys.last() {
                Some(key) => {
                    lemma_last_index_of(front, key);
                    match last_index_of(front, key) {
                        Some(i) => {
                            assert(keys[i as int] == front[i as int]);
                            assert(keys[i as int] is Some && keys[i as int] == keys[last]);
                        },
                        None => {
                            assert forall|i: int, j: int|
                                0 <= i < j < keys.len() && #[trigger] keys[i] is Some
                                implies keys[i] != #[trigger] keys[j] by {
                                if j < last {
                                    assert(keys[i] == front[i] && keys[j] == front[j]);
                                } else {
                                    assert(keys[i] == front[i]);
                                }
                            }
                        },
                    }
                },
                None => {
                    assert forall|i: int, j: int|
                        0 <= i < j < keys.len() && #[trigger] keys[i] is Some implies keys[i]
                        != #[trigger] keys[j] by {
                        if j < last {
                            assert(keys[i] == front[i] && keys[j] == front[j]);
                        }
                    }
                },
            }
        }
    }
}

/// What the check of a list of wires comes to: an overlap fails it, the
/// first overlap found being named.
pub open spec fn check_wires_spec<'a, W: Wired<'a>>(wires: Seq<W::V>) -> Result<(), DecodeError> {
    let found = overlaps(edges_of::<W>(wires));
    if found.len() > 0 {
        Err(DecodeError::OverlappingWires { first: found[0].0, second: found[0].1 })
    } else {
        Ok(())
    }
}

/// The position where a wire that starts at `start` and runs along
/// `segments` ends.
pub fn path_end<'a>(start: Point, segments: &Slice<'a, u64, WireSegment>) -> (r: (i128, i128))
    ensures
        (r.0 as int, r.1 as int) == end_point(start, segments@),
        -32768 - 255 * usize::MAX <= r.0 <= 32767 + 255 * usize::MAX,
        -32768 - 255 * usize::MAX <= r.1 <= 32767 + 255 * usize::MAX,
{
    let mut x: i128 = start.x as i128;
    let mut y: i128 = start.y as i128;
    let mut done: usize = 0;
    let mut it = segments.iter();
    proof {
        assert(segments@.take(0) =~= Seq::<WireSegment>::empty());
        assert(segments@.skip(0) =~= segments@);
    }
    loop
        invariant
            done <= segments@.len() <= usize::MAX,
            it@ == segments@.skip(done as int),
            (x as int, y as int) == walk(
                (start.x as int, start.y as int),
                segments@.take(done as int),
            ),
            -32768 - 255 * done <= x <= 32767 + 255 * done,
            -32768 - 255 * done <= y <= 32767 + 255 * done,
        ensures
            (x as int, y as int) == walk((start.x as int, start.y as int), segments@),
            -32768 - 255 * usize::MAX <= x <= 32767 + 255 * usize::MAX,
            -32768 - 255 * usize::MAX <= y <= 32767 + 255 * usize::MAX,
        decreases segments@.len() - done,
    {
        match it.next() {
            None => {
                proof {
                    assert(segments@.take(done as int) =~= segments@);
                }
                break ;
            },
            Some(segment) => {
                let segment: &WireSegment = segment.as_inner_ref();
                proof {
                    assert(segments@.take(done + 1).drop_last() =~= segments@.take(done as int));
                    assert(segments@.take(done + 1).last() == segments@[done as int]);
                    assert(segments@.skip(done as int).skip(1) =~= segments@.skip(done + 1));
                }
                let len: i128 = segment.length as i128;
                match segment.direction {
                    WireDirection::Right => {
                        x = x + len;
                    },
                    WireDirection::DownRight => {
                        x = x + len;
                        y = y + len;
                    },
                    WireDirection::Down => {
                        y = y + len;
                    },
                    WireDirection::DownLeft => {
                        x = x - len;
                        y = y + len;
                    },
                    WireDirection::Left => {
                        x = x - len;
                    },
                    WireDirection::UpLeft => {
                        x = x - len;
                        y = y - len;
                    },
                    WireDirection::Up => {
                        y = y - len;
                    },
                    WireDirection::UpRight => {
                        x = x + len;
                        y = y - len;
                    },
                }
                done = done + 1;
            },
        }
    }
    (x, y)
}

/// The key of the edge between `a` and `b`.
pub fn edge_between(a: (i128, i128), b: (i128, i128)) -> (r: Edge)
    ensures
        key_of(r) == edge_key((a.0 as int, a.1 as int), (b.0 as int, b.1 as int)),
{
    if a.0 < b.0 || (a.0 == b.0 && a.1 <= b.1) {
        (a.0, a.1, b.0, b.1)
    } else {
        (b.0, b.1, a.0, a.1)
    }
}

/// Notes in `seen` that the wire at `index` has the edge `key`, and gives
/// the wire that was noted for that edge before, if there was one.
fn note_edge(seen: &mut BTreeMap<Edge, usize>, key: Edge, index: usize) -> (r: Option<usize>)
    ensures
        final(seen)@ == old(seen)@.insert(key, index),
        match r {
            Some(earlier) => old(seen)@.contains_key(key) && earlier == old(seen)@[key],
            None => !old(seen)@.contains_key(key),
        },
{
    proof {
        broadcast use vstd::laws_cmp::group_laws_cmp;

    }
    seen.insert(key, index)
}

/// Whether `seen` holds, for every edge, the last position of `keys` that
/// has its key.
pub open spec fn notes(seen: Map<Edge, usize>, keys: Seq<Option<EdgeKey>>) -> bool {
    forall|edge: Edge|
        match last_index_of(keys, key_of(edge)) {
            Some(i) => #[trigger] seen.contains_key(edge) && seen[edge] == i,
            None => !seen.contains_key(edge),
        }
}

/// Looks for wires that join the same two points.
///
/// Every wire that runs along segments is keyed by its two end points, the
/// lesser first. The wires are gone through in order, to the last one; each
/// wire whose key was met before gives one pair, of the last earlier wire
/// with that key and of the wire itself. Teleport wires take no part.
pub fn find_overlaps<'a, N, W: Parse<'a> + Wired<'a>>(wires: &Slice<'a, N, W>) -> (r: Vec<
    (usize, usize),
>)
    ensures
        r@ == overlaps(edges_of::<W>(wires@)),
{
    let mut seen: BTreeMap<Edge, usize> = BTreeMap::new();
    let mut found: Vec<(usize, usize)> = Vec::new();
    let mut done: usize = 0;
    let mut it = wires.iter();
    let ghost keys = edges_of::<W>(wires@);
    proof {
        assert(keys.take(0) =~= Seq::<Option<EdgeKey>>::empty());
        assert(wires@.skip(0) =~= wires@);
    }
    loop
        invariant
            done <= wires@.len() <= usize::MAX,
            it@ == wires@.skip(done as int),
            keys == edges_of::<W>(wires@),
            found@ == overlaps(keys.take(done as int)),
            notes(seen@, keys.take(done as int)),
        ensures
            found@ == overlaps(keys),
        decreases wires@.len() - done,
    {
        let ghost before = keys.take(done as int);
        let ghost after = keys.take(done + 1);
        match it.next() {
            None => {
                proof {
                    assert(keys.take(done as int) =~= keys);
                }
                break ;
            },
            Some(wire) => {
                let wire: &W = wire.as_inner_ref();
                proof {
                    assert(wire@ == wires@[done as int]);
                    assert(after.drop_last() =~= before);
                    assert(after.last() == keys[done as int]);
                    assert(wires@.skip(done as int).skip(1) =~= wires@.skip(done + 1));
                }
                match wire.path() {
                    WireSegments::TeleWireEnd(_) => {
                        proof {
                            assert(keys[done as int] is None);
                            assert forall|edge: Edge|
                                match last_index_of(after, key_of(edge)) {
                                    Some(i) => #[trigger] seen@.contains_key(edge) && seen@[edge]
                                        == i,
                                    None => !seen@.contains_key(edge),
                                } by {
                                assert(last_index_of(after, key_of(edge)) == last_index_of(
                                    before,
                                    key_of(edge),
                                ));
                            }
                        }
                    },
                    WireSegments::Segments(segments) => {
                        let start = wire.start();
                        let end = path_end(start, segments);
                        let edge = edge_between((start.x as i128, start.y as i128), end);
                        let ghost noted = seen@;
                        let earlier = note_edge(&mut seen, edge, done);
                        proof {
                            assert(keys[done as int] == Some(key_of(edge)));
                            assert forall|other: Edge|
                                match last_index_of(after, key_of(other)) {
                                    Some(i) => #[trigger] seen@.contains_key(other) && seen@[other]
                                        == i,
                                    None => !seen@.contains_key(other),
                                } by {
                                if other != edge {
                                    assert(key_of(other) != key_of(edge));
                                    assert(last_index_of(after, key_of(other)) == last_index_of(
                                        before,
                                        key_of(other),
                                    ));
                                    assert(noted.contains_key(other) == seen@.contains_key(other));
                                }
                            }
                        }
                        if let Some(earlier) = earlier {
                            found.push((earlier, done));
                        }
                    },
                }
                done = done + 1;
            },
        }
    }
    found
}

/// Checks that no two wires of a list join the same two points.
pub fn check_wires<'a, N, W: Parse<'a> + Wired<'a>>(wires: &Slice<'a, N, W>) -> (r: Result<
    (),
    DecodeError,
>)
    ensures
        r == check_wires_spec::<W>(wires@),
{
    let found = find_overlaps(wires);
    if found.len() > 0 {
        let (first, second) = found[0];
        Err(DecodeError::OverlappingWires { first, second })
    } else {
        Ok(())
    }
}

/// The key of an edge does not depend on the way the edge runs.
pub proof fn lemma_edge_key_symmetric(a: Position, b: Position)
    ensures
        edge_key(a, b) == edge_key(b, a),
{
}

/// Two wires that run along segments between the same two points fail the
/// check of the list they are in, whichever way each of them runs.
pub proof fn lemma_same_ends_overlap<'a, W: Wired<'a>>(wires: Seq<W::V>, i: int, j: int)
    requires
        0 <= i < j < wires.len(),
        edges_of::<W>(wires)[i] is Some,
        edges_of::<W>(wires)[i] == edges_of::<W>(wires)[j],
    ensures
        check_wires_spec::<W>(wires) is Err,
        check_wires_spec::<W>(wires)->Err_0 is OverlappingWires,
{
    lemma_overlaps(edges_of::<W>(wires));
}

} // verus!
