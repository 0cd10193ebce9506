use turing_complete_saves_parser::wire::{
    Point, WireDirection, WireSegment, WireSegments,
};
use turing_complete_saves_parser::{DecodeError, Encode, Parse, Slice};

fn segments_of(path: &WireSegments<'_>) -> Vec<WireSegment> {
    match path {
        WireSegments::Segments(segments) => {
            let mut all = Vec::new();
            let mut it = segments.iter();
            while let Some(s) = it.next() {
                all.push(*s.as_inner_ref());
            }
            all
        }
        WireSegments::TeleWireEnd(_) => panic!("teleport path"),
    }
}

#[test]
fn terminator_ends_the_path_and_is_no_segment() {
    let data = [0x01u8, 0x22, 0x00];
    let mut input: &[u8] = &data;
    let path = WireSegments::parse(&mut input).unwrap();
    assert!(input.is_empty());
    let segments = segments_of(&path);
    assert_eq!(segments.len(), 2);
    assert_eq!(segments[0], WireSegment { length: 1, direction: WireDirection::Right });
    assert_eq!(segments[1], WireSegment { length: 2, direction: WireDirection::DownRight });
}

#[test]
fn bytes_behind_the_terminator_are_left() {
    let data = [0xe5u8, 0x40, 0x01, 0x02];
    let mut input: &[u8] = &data;
    let path = WireSegments::parse(&mut input).unwrap();
    assert_eq!(input, &[0x01u8, 0x02][..]);
    assert_eq!(
        segments_of(&path),
        vec![WireSegment { length: 5, direction: WireDirection::UpRight }]
    );
}

#[test]
fn terminator_alone_is_an_empty_path() {
    for terminator in [0x00u8, 0x40, 0x60, 0x80, 0xa0, 0xc0, 0xe0] {
        let data = [terminator, 0x11];
        let mut input: &[u8] = &data;
        let path = WireSegments::parse(&mut input).unwrap();
        assert_eq!(input, &[0x11u8][..]);
        assert!(segments_of(&path).is_empty());
    }
}

#[test]
fn path_without_terminator_is_truncated() {
    let data = [0x01u8, 0x22, 0x43];
    let mut input: &[u8] = &data;
    assert!(matches!(WireSegments::parse(&mut input), Err(DecodeError::Truncated)));
    assert_eq!(input, &data[..]);
    let mut input: &[u8] = &[];
    assert!(matches!(WireSegments::parse(&mut input), Err(DecodeError::Truncated)));
}

#[test]
fn teleport_byte_first_means_a_point_follows() {
    // what follows the point would be segments and a terminator
    let data = [0x20u8, 0x05, 0x00, 0xfe, 0xff, 0x01, 0x22, 0x00];
    let mut input: &[u8] = &data;
    let path = WireSegments::parse(&mut input).unwrap();
    assert!(matches!(path, WireSegments::TeleWireEnd(Point { x: 5, y: -2 })));
    assert_eq!(input, &[0x01u8, 0x22, 0x00][..]);
}

#[test]
fn teleport_point_may_look_like_a_terminator() {
    let data = [0x20u8, 0x00, 0x00, 0x00, 0x00];
    let mut input: &[u8] = &data;
    let path = WireSegments::parse(&mut input).unwrap();
    assert!(matches!(path, WireSegments::TeleWireEnd(Point { x: 0, y: 0 })));
    assert!(input.is_empty());
}

#[test]
fn teleport_with_a_short_point_is_truncated() {
    let data = [0x20u8, 0x05, 0x00, 0xfe];
    let mut input: &[u8] = &data;
    assert!(matches!(WireSegments::parse(&mut input), Err(DecodeError::Truncated)));
    assert_eq!(input, &data[..]);
}

#[test]
fn teleport_byte_later_in_a_path_is_a_terminator() {
    let data = [0x01u8, 0x20, 0x05];
    let mut input: &[u8] = &data;
    let path = WireSegments::parse(&mut input).unwrap();
    assert_eq!(input, &[0x05u8][..]);
    assert_eq!(segments_of(&path).len(), 1);
}

#[test]
fn teleport_path_encodes_sentinel_then_point() {
    let mut out = Vec::new();
    WireSegments::TeleWireEnd(Point { x: 5, y: -2 }).encode(&mut out);
    assert_eq!(out, vec![0x20, 0x05, 0x00, 0xfe, 0xff]);
    let mut input: &[u8] = &out;
    let back = WireSegments::parse(&mut input).unwrap();
    assert!(matches!(back, WireSegments::TeleWireEnd(Point { x: 5, y: -2 })));
}

#[test]
fn segment_list_encodes_without_a_terminator() {
    let segments: Slice<'_, u64, WireSegment> = Slice::from(vec![
        WireSegment { length: 1, direction: WireDirection::Right },
        WireSegment { length: 31, direction: WireDirection::UpRight },
    ]);
    let mut out = Vec::new();
    WireSegments::Segments(segments).encode(&mut out);
    assert_eq!(out, vec![0x01, 0xff]);
}

#[test]
fn decoded_segment_list_encodes_to_its_span() {
    let data = [0x01u8, 0x22, 0x00];
    let mut input: &[u8] = &data;
    let path = WireSegments::parse(&mut input).unwrap();
    let mut out = Vec::new();
    path.encode(&mut out);
    assert_eq!(out, vec![0x01, 0x22]);
}

#[test]
fn segment_byte_holds_length_and_direction() {
    let directions = [
        WireDirection::Right,
        WireDirection::DownRight,
        WireDirection::Down,
        WireDirection::DownLeft,
        WireDirection::Left,
        WireDirection::UpLeft,
        WireDirection::Up,
        WireDirection::UpRight,
    ];
    for byte in 0u8..=255 {
        let mut input: &[u8] = &[byte];
        let segment = WireSegment::parse(&mut input).unwrap();
        assert_eq!(segment.length, byte & 0x1f);
        assert_eq!(segment.direction, directions[(byte >> 5) as usize]);
        let mut out = Vec::new();
        segment.encode(&mut out);
        assert_eq!(out, vec![byte]);
    }
}

#[test]
fn direction_codes() {
    assert_eq!(WireDirection::from_code(0), Some(WireDirection::Right));
    assert_eq!(WireDirection::from_code(3), Some(WireDirection::DownLeft));
    assert_eq!(WireDirection::from_code(7), Some(WireDirection::UpRight));
    assert_eq!(WireDirection::from_code(8), None);
    assert_eq!(WireDirection::Up.to_code(), 6);
    let mut input: &[u8] = &[4, 9];
    assert_eq!(WireDirection::parse(&mut input), Ok(WireDirection::Left));
    assert_eq!(WireDirection::parse(&mut input), Err(DecodeError::UnknownDiscriminant));
    assert_eq!(input, &[9u8][..]);
}

#[test]
fn point_is_two_signed_16_bit_integers() {
    let mut input: &[u8] = &[0x05, 0x00, 0xfe, 0xff, 0x01];
    assert_eq!(Point::parse(&mut input), Ok(Point { x: 5, y: -2 }));
    assert_eq!(input, &[0x01u8][..]);
    let mut out = Vec::new();
    Point { x: -32768, y: 32767 }.encode(&mut out);
    assert_eq!(out, vec![0x00, 0x80, 0xff, 0x7f]);
}

#[test]
fn points_are_ordered_by_x_then_y() {
    let a = Point { x: 1, y: 9 };
    let b = Point { x: 2, y: -9 };
    let c = Point { x: 2, y: 0 };
    assert!(a.le(&b) && b.le(&c) && a.le(&c) && a.le(&a));
    assert!(!b.le(&a) && !c.le(&b));
    assert!(a < b && b < c);
    assert_eq!(a.min(b), a);
    assert_eq!(b.max(c), c);
}
