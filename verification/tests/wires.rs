use turing_complete_saves_parser::geometry::{check_wires, edge_between, find_overlaps, path_end};
use turing_complete_saves_parser::v10::Wire;
use turing_complete_saves_parser::wire::{Point, WireDirection, WireSegment, WireSegments};
use turing_complete_saves_parser::{DecodeError, Slice};

fn run(direction: WireDirection, length: u8) -> WireSegment {
    WireSegment { length, direction }
}

fn wire(start: Point, segments: Vec<WireSegment>) -> Wire<'static> {
    Wire { color: 0, comment: "", start, segments: WireSegments::Segments(Slice::from(segments)) }
}

fn teleport(start: Point, end: Point) -> Wire<'static> {
    Wire { color: 0, comment: "", start, segments: WireSegments::TeleWireEnd(end) }
}

#[test]
fn path_end_follows_every_direction() {
    let start = Point { x: 10, y: 10 };
    let cases = [
        (WireDirection::Right, 13, 10),
        (WireDirection::DownRight, 13, 13),
        (WireDirection::Down, 10, 13),
        (WireDirection::DownLeft, 7, 13),
        (WireDirection::Left, 7, 10),
        (WireDirection::UpLeft, 7, 7),
        (WireDirection::Up, 10, 7),
        (WireDirection::UpRight, 13, 7),
    ];
    for (direction, x, y) in cases {
        let segments: Slice<'_, u64, WireSegment> = Slice::from(vec![run(direction, 3)]);
        assert_eq!(path_end(start, &segments), (x, y));
    }
}

#[test]
fn path_end_adds_up_the_segments() {
    let segments: Slice<'_, u64, WireSegment> = Slice::from(vec![
        run(WireDirection::Right, 31),
        run(WireDirection::Down, 4),
        run(WireDirection::UpLeft, 2),
        run(WireDirection::Left, 0),
    ]);
    assert_eq!(path_end(Point { x: -5, y: 7 }, &segments), (24, 9));
    let none: Slice<'_, u64, WireSegment> = Slice::from(vec![]);
    assert_eq!(path_end(Point { x: -5, y: 7 }, &none), (-5, 7));
}

#[test]
fn path_end_of_a_decoded_path() {
    let data = [0x05u8, 0x43];
    let mut input: &[u8] = &data;
    let segments: Slice<'_, u64, WireSegment> = Slice::parse_until_end(&mut input).unwrap();
    assert_eq!(path_end(Point { x: 0, y: 0 }, &segments), (5, 3));
}

#[test]
fn path_end_is_not_held_to_the_range_of_a_point() {
    let segments: Slice<'_, u64, WireSegment> = Slice::from(vec![run(WireDirection::Right, 1)]);
    assert_eq!(path_end(Point { x: i16::MAX, y: 0 }, &segments), (32768, 0));
    let segments: Slice<'_, u64, WireSegment> = Slice::from(vec![run(WireDirection::UpLeft, 31)]);
    assert_eq!(path_end(Point { x: i16::MIN, y: i16::MIN }, &segments), (-32799, -32799));
    let segments: Slice<'_, u64, WireSegment> =
        Slice::from(vec![run(WireDirection::Right, 5), run(WireDirection::Left, 5)]);
    assert_eq!(path_end(Point { x: i16::MAX, y: 0 }, &segments), (32767, 0));
}

#[test]
fn edge_key_does_not_depend_on_the_way() {
    let a = (0, 0);
    let b = (5, 0);
    assert_eq!(edge_between(a, b), (0, 0, 5, 0));
    assert_eq!(edge_between(b, a), (0, 0, 5, 0));
    let c = (0, -3);
    assert_eq!(edge_between(a, c), (0, -3, 0, 0));
    assert_eq!(edge_between(c, a), (0, -3, 0, 0));
    assert_eq!(edge_between(a, a), (0, 0, 0, 0));
}

#[test]
fn forward_and_reverse_wire_overlap() {
    let wires: Slice<'_, u64, Wire<'_>> = Slice::from(vec![
        wire(Point { x: 0, y: 0 }, vec![run(WireDirection::Right, 5)]),
        wire(Point { x: 5, y: 0 }, vec![run(WireDirection::Left, 5)]),
    ]);
    assert_eq!(find_overlaps(&wires), vec![(0, 1)]);
    assert_eq!(check_wires(&wires), Err(DecodeError::OverlappingWires { first: 0, second: 1 }));
}

#[test]
fn wires_with_different_paths_but_same_ends_overlap() {
    let wires: Slice<'_, u64, Wire<'_>> = Slice::from(vec![
        wire(
            Point { x: 0, y: 0 },
            vec![run(WireDirection::Right, 2), run(WireDirection::Right, 3)],
        ),
        teleport(Point { x: 0, y: 0 }, Point { x: 5, y: 0 }),
        wire(
            Point { x: 0, y: 0 },
            vec![
                run(WireDirection::DownRight, 2),
                run(WireDirection::UpRight, 2),
                run(WireDirection::Right, 1),
            ],
        ),
    ]);
    assert_eq!(check_wires(&wires), Err(DecodeError::OverlappingWires { first: 0, second: 2 }));
}

#[test]
fn every_later_duplicate_is_paired_with_the_latest_earlier_one() {
    let a = || wire(Point { x: 0, y: 0 }, vec![run(WireDirection::Down, 4)]);
    let b = || wire(Point { x: 1, y: 1 }, vec![run(WireDirection::Right, 1)]);
    let wires: Slice<'_, u64, Wire<'_>> = Slice::from(vec![a(), b(), a(), a(), b()]);
    assert_eq!(find_overlaps(&wires), vec![(0, 2), (2, 3), (1, 4)]);
    assert_eq!(check_wires(&wires), Err(DecodeError::OverlappingWires { first: 0, second: 2 }));
}

#[test]
fn distinct_wires_pass() {
    let wires: Slice<'_, u64, Wire<'_>> = Slice::from(vec![
        wire(Point { x: 0, y: 0 }, vec![run(WireDirection::Right, 5)]),
        wire(Point { x: 0, y: 0 }, vec![run(WireDirection::Right, 6)]),
        wire(Point { x: 0, y: 1 }, vec![run(WireDirection::Right, 5)]),
    ]);
    assert_eq!(find_overlaps(&wires), vec![]);
    assert_eq!(check_wires(&wires), Ok(()));
    let none: Slice<'_, u64, Wire<'_>> = Slice::from(vec![]);
    assert_eq!(check_wires(&none), Ok(()));
}

#[test]
fn teleport_wires_take_no_part() {
    let wires: Slice<'_, u64, Wire<'_>> = Slice::from(vec![
        teleport(Point { x: 0, y: 0 }, Point { x: 5, y: 0 }),
        teleport(Point { x: 0, y: 0 }, Point { x: 5, y: 0 }),
        teleport(Point { x: 5, y: 0 }, Point { x: 0, y: 0 }),
    ]);
    assert_eq!(check_wires(&wires), Ok(()));
}

#[test]
fn wires_that_end_beyond_the_range_of_a_point_are_told_apart() {
    // the two ends differ by 65536 in x: 16-bit coordinates would make them one
    let mut far = vec![run(WireDirection::Right, 31); 2114];
    far.push(run(WireDirection::Right, 3));
    let far_segments: Slice<'_, u64, WireSegment> = Slice::from(far.clone());
    assert_eq!(path_end(Point { x: i16::MAX, y: 0 }, &far_segments), (32768 + 65536, 0));
    let wires: Slice<'_, u64, Wire<'_>> = Slice::from(vec![
        wire(Point { x: i16::MAX, y: 0 }, vec![run(WireDirection::Right, 1)]),
        wire(Point { x: i16::MAX, y: 0 }, far),
    ]);
    assert_eq!(check_wires(&wires), Ok(()));
    let wires: Slice<'_, u64, Wire<'_>> = Slice::from(vec![
        wire(Point { x: i16::MAX, y: 0 }, vec![run(WireDirection::Right, 1)]),
        wire(Point { x: i16::MAX, y: 0 }, vec![run(WireDirection::Right, 1)]),
    ]);
    assert_eq!(check_wires(&wires), Err(DecodeError::OverlappingWires { first: 0, second: 1 }));
}

#[test]
fn zero_length_wire_has_a_point_edge() {
    let wires: Slice<'_, u64, Wire<'_>> = Slice::from(vec![
        wire(Point { x: 3, y: 3 }, vec![]),
        wire(Point { x: 3, y: 3 }, vec![run(WireDirection::Up, 2), run(WireDirection::Down, 2)]),
    ]);
    assert_eq!(check_wires(&wires), Err(DecodeError::OverlappingWires { first: 0, second: 1 }));
}
