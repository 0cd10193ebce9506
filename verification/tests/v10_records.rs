use turing_complete_saves_parser::v10::{
    check_components, CircuitData, Component, ComponentKind, Point, SyncState, Wire, WireDirection,
    WireSegment, WireSegments,
};
use turing_complete_saves_parser::{DecodeError, Encode, Parse, Slice};

fn header(out: &mut Vec<u8>) {
    (-7i64).encode(out); // custom_id
    0x0403_0201u32.encode(out); // hub_id
    12i64.encode(out); // gate
    34i64.encode(out); // delay
    true.encode(out); // menu_visible
    1000u64.encode(out); // clock_speed
    2u16.encode(out); // dependencies
    5i64.encode(out);
    (-6i64).encode(out);
    "adder".encode(out); // description
    Point { x: 3, y: -4 }.encode(out); // camera_position
    1u8.encode(out); // synced
    0u16.encode(out); // skipped
    3u16.encode(out); // player_data
    out.extend_from_slice(&[9, 8, 7]);
    "hub".encode(out); // hub_description
}

fn component(out: &mut Vec<u8>, kind: u16, word_size: i64) {
    kind.encode(out);
    Point { x: 1, y: 2 }.encode(out);
    3u8.encode(out); // rotation
    99u64.encode(out); // permanent_id
    "label".encode(out); // custom_string
    1u16.encode(out); // settings
    0xffu64.encode(out);
    16i64.encode(out); // buffer_size
    (-1i16).encode(out); // ui_order
    word_size.encode(out);
    1u16.encode(out); // linked_components
    11i64.encode(out);
    22i64.encode(out);
    "link".encode(out);
    33i64.encode(out);
    1u16.encode(out); // selected_programs
    ("rom", "main").encode(out);
    if kind == 78 {
        555i64.encode(out); // custom id
        1u16.encode(out); // static_states
        (1i64, 2i64).encode(out);
    }
}

fn teleport_wire(out: &mut Vec<u8>, start: Point, end: Point) {
    4u8.encode(out); // color
    "jump".encode(out);
    start.encode(out);
    out.push(0x20);
    end.encode(out);
}

fn segment_wire(out: &mut Vec<u8>, start: Point, segments: &[u8]) {
    5u8.encode(out); // color
    "run".encode(out);
    start.encode(out);
    out.extend_from_slice(segments);
    out.push(0x00);
}

fn body(components: &[(u16, i64)], wires: &dyn Fn(&mut Vec<u8>) -> u64) -> Vec<u8> {
    let mut out = Vec::new();
    header(&mut out);
    (components.len() as u64).encode(&mut out);
    for (kind, word_size) in components {
        component(&mut out, *kind, *word_size);
    }
    let count_at = out.len();
    0u64.encode(&mut out);
    let count = wires(&mut out);
    out[count_at..count_at + 8].copy_from_slice(&count.to_le_bytes());
    out
}

fn collect<'a, N, T: Parse<'a> + Clone>(slice: &Slice<'a, N, T>) -> Vec<T> {
    let mut all = Vec::new();
    let mut it = slice.iter();
    while let Some(e) = it.next() {
        all.push(e.as_inner_ref().clone());
    }
    all
}

#[test]
fn decodes_every_field() {
    let data = body(&[(1, 0), (78, 0)], &|out| {
        teleport_wire(out, Point { x: 0, y: 0 }, Point { x: 9, y: 9 });
        segment_wire(out, Point { x: 1, y: 1 }, &[0x05, 0x43]);
        2
    });
    let mut input: &[u8] = &data;
    let circuit = CircuitData::parse(&mut input).unwrap();
    assert!(input.is_empty());
    assert_eq!(circuit.custom_id, -7);
    assert_eq!(circuit.hub_id, 0x0403_0201);
    assert_eq!(circuit.gate, 12);
    assert_eq!(circuit.delay, 34);
    assert!(circuit.menu_visible);
    assert_eq!(circuit.clock_speed, 1000);
    assert_eq!(collect(&circuit.dependencies), vec![5, -6]);
    assert_eq!(circuit.description, "adder");
    assert_eq!(circuit.camera_position, Point { x: 3, y: -4 });
    assert_eq!(circuit.synced, SyncState::Synced);
    assert_eq!(collect(&circuit.player_data), vec![9, 8, 7]);
    assert_eq!(circuit.hub_description, "hub");

    let components: Vec<Component<'_>> = collect(&circuit.components);
    assert_eq!(components.len(), 2);
    assert_eq!(components[0].kind, ComponentKind::Off);
    assert_eq!(components[0].position, Point { x: 1, y: 2 });
    assert_eq!(components[0].rotation, 3);
    assert_eq!(components[0].permanent_id, 99);
    assert_eq!(components[0].custom_string, "label");
    assert_eq!(collect(&components[0].settings), vec![0xff]);
    assert_eq!(components[0].buffer_size, 16);
    assert_eq!(components[0].ui_order, -1);
    assert_eq!(components[0].word_size, 0);
    let links = collect(&components[0].linked_components);
    assert_eq!(links.len(), 1);
    assert_eq!(
        (links[0].permanent_id, links[0].inner_id, links[0].name, links[0].offset),
        (11, 22, "link", 33)
    );
    assert_eq!(collect(&components[0].selected_programs.programs), vec![("rom", "main")]);
    assert!(components[0].custom_data.is_none());
    assert_eq!(components[1].kind, ComponentKind::Custom);
    let custom = components[1].custom_data.as_ref().unwrap();
    assert_eq!(custom.id, 555);
    assert_eq!(collect(&custom.static_states), vec![(1, 2)]);

    let wires: Vec<Wire<'_>> = collect(&circuit.wires);
    assert_eq!(wires.len(), 2);
    assert_eq!((wires[0].color, wires[0].comment), (4, "jump"));
    assert_eq!(wires[0].start, Point { x: 0, y: 0 });
    assert!(matches!(wires[0].segments, WireSegments::TeleWireEnd(Point { x: 9, y: 9 })));
    assert_eq!((wires[1].color, wires[1].comment), (5, "run"));
    assert_eq!(wires[1].start, Point { x: 1, y: 1 });
    match &wires[1].segments {
        WireSegments::Segments(segments) => assert_eq!(
            collect(segments),
            vec![
                WireSegment { length: 5, direction: WireDirection::Right },
                WireSegment { length: 3, direction: WireDirection::Down },
            ]
        ),
        WireSegments::TeleWireEnd(_) => panic!("teleport path"),
    }
}

#[test]
fn bytes_behind_the_circuit_are_left() {
    let mut data = body(&[], &|_| 0);
    let len = data.len();
    data.extend_from_slice(&[1, 2, 3]);
    let mut input: &[u8] = &data;
    assert!(CircuitData::parse(&mut input).is_ok());
    assert_eq!(input, &data[len..]);
}

#[test]
fn circuit_with_teleport_wires_round_trips() {
    let data = body(&[(1, 0), (78, 0), (101, 8)], &|out| {
        teleport_wire(out, Point { x: 0, y: 0 }, Point { x: 9, y: 9 });
        teleport_wire(out, Point { x: 0, y: 0 }, Point { x: 9, y: 9 });
        2
    });
    let mut input: &[u8] = &data;
    let circuit = CircuitData::parse(&mut input).unwrap();
    let mut written = Vec::new();
    circuit.encode(&mut written);
    assert_eq!(written, data);
    let mut input: &[u8] = &written;
    let again = CircuitData::parse(&mut input).unwrap();
    assert!(input.is_empty());
    let mut rewritten = Vec::new();
    again.encode(&mut rewritten);
    assert_eq!(rewritten, data);
    assert_eq!(again.description, circuit.description);
    assert_eq!(collect(&again.wires).len(), 2);
}

#[test]
fn skipped_field_is_written_as_zero_and_bool_as_one() {
    let mut data = body(&[], &|_| 0);
    // menu_visible is the byte behind custom_id, hub_id, gate and delay
    let menu_at = 8 + 4 + 8 + 8;
    assert_eq!(data[menu_at], 1);
    data[menu_at] = 0x80;
    // the skipped field is behind clock_speed, dependencies, description, camera and synced
    let skipped_at = menu_at + 1 + 8 + (2 + 16) + (2 + 5) + 4 + 1;
    data[skipped_at] = 0xab;
    data[skipped_at + 1] = 0xcd;
    let mut input: &[u8] = &data;
    let circuit = CircuitData::parse(&mut input).unwrap();
    assert!(circuit.menu_visible);
    let mut written = Vec::new();
    circuit.encode(&mut written);
    assert_eq!(written[menu_at], 1);
    assert_eq!(&written[skipped_at..skipped_at + 2], &[0, 0]);
    assert_eq!(written.len(), data.len());
}

#[test]
fn segment_wire_is_written_without_its_terminator() {
    let data = body(&[], &|out| {
        segment_wire(out, Point { x: 1, y: 1 }, &[0x05, 0x43]);
        1
    });
    let mut input: &[u8] = &data;
    let circuit = CircuitData::parse(&mut input).unwrap();
    let mut written = Vec::new();
    circuit.encode(&mut written);
    assert_eq!(written[..], data[..data.len() - 1]);
    let mut input: &[u8] = &written;
    assert!(matches!(CircuitData::parse(&mut input), Err(DecodeError::Truncated)));
}

#[test]
fn overlapping_wires_fail_the_decode() {
    let data = body(&[], &|out| {
        segment_wire(out, Point { x: 0, y: 0 }, &[0x05]);
        segment_wire(out, Point { x: 5, y: 0 }, &[0x85]);
        2
    });
    let mut input: &[u8] = &data;
    let r = CircuitData::parse(&mut input);
    assert!(matches!(r, Err(DecodeError::OverlappingWires { first: 0, second: 1 })));
    assert_eq!(input, &data[..]);
}

#[test]
fn wire_may_end_beyond_the_range_of_a_point() {
    let data = body(&[], &|out| {
        segment_wire(out, Point { x: i16::MAX, y: 0 }, &[0x01]);
        1
    });
    let mut input: &[u8] = &data;
    assert!(CircuitData::parse(&mut input).is_ok());
}

#[test]
fn unknown_kind_code_is_rejected() {
    let mut data = Vec::new();
    component(&mut data, 123, 0);
    let mut input: &[u8] = &data;
    assert!(matches!(Component::parse(&mut input), Err(DecodeError::UnknownDiscriminant)));
    assert_eq!(input, &data[..]);
    let mut data = Vec::new();
    component(&mut data, 0xffff, 0);
    let mut input: &[u8] = &data;
    assert!(matches!(Component::parse(&mut input), Err(DecodeError::UnknownDiscriminant)));
    let mut data = Vec::new();
    component(&mut data, 122, 0);
    let mut input: &[u8] = &data;
    assert_eq!(Component::parse(&mut input).unwrap().kind, ComponentKind::ImmStaticValue);
    let data = body(&[(1, 0), (200, 0)], &|_| 0);
    let mut input: &[u8] = &data;
    assert!(matches!(CircuitData::parse(&mut input), Err(DecodeError::UnknownDiscriminant)));
}

#[test]
fn kind_codes_map_both_ways() {
    assert_eq!(ComponentKind::from_code(0), Some(ComponentKind::Nothing));
    assert_eq!(ComponentKind::from_code(78), Some(ComponentKind::Custom));
    assert_eq!(ComponentKind::from_code(101), Some(ComponentKind::StaticIndexer));
    assert_eq!(ComponentKind::from_code(123), None);
    for code in 0u16..=122 {
        assert_eq!(ComponentKind::from_code(code).unwrap().to_code(), code);
    }
    assert_eq!(SyncState::from_code(2), Some(SyncState::ChangedAfterSync));
    assert_eq!(SyncState::from_code(3), None);
}

#[test]
fn unknown_sync_state_is_rejected() {
    let mut data = body(&[], &|_| 0);
    let synced_at = 8 + 4 + 8 + 8 + 1 + 8 + (2 + 16) + (2 + 5) + 4;
    assert_eq!(data[synced_at], 1);
    data[synced_at] = 3;
    let mut input: &[u8] = &data;
    assert!(matches!(CircuitData::parse(&mut input), Err(DecodeError::UnknownDiscriminant)));
}

#[test]
fn unsupported_kinds_are_rejected() {
    for kind in [48u16, 97, 98] {
        let data = body(&[(1, 0), (kind, 8)], &|_| 0);
        let mut input: &[u8] = &data;
        assert!(matches!(
            CircuitData::parse(&mut input),
            Err(DecodeError::UnsupportedComponent { index: 1 })
        ));
        assert_eq!(input, &data[..]);
    }
}

#[test]
fn static_indexer_needs_a_positive_word_size() {
    for word_size in [0i64, -1, i64::MIN] {
        let data = body(&[(101, word_size)], &|_| 0);
        let mut input: &[u8] = &data;
        assert!(matches!(
            CircuitData::parse(&mut input),
            Err(DecodeError::NonPositiveWordSize { index: 0 })
        ));
    }
    let data = body(&[(101, 1)], &|_| 0);
    let mut input: &[u8] = &data;
    assert!(CircuitData::parse(&mut input).is_ok());
    // other kinds may have any word size
    let data = body(&[(1, -5)], &|_| 0);
    let mut input: &[u8] = &data;
    assert!(CircuitData::parse(&mut input).is_ok());
}

#[test]
fn first_faulty_component_decides() {
    let data = body(&[(1, 0), (101, 0), (48, 0)], &|_| 0);
    let mut input: &[u8] = &data;
    let r = CircuitData::parse(&mut input);
    assert!(matches!(r, Err(DecodeError::NonPositiveWordSize { index: 1 })));
}

#[test]
fn components_are_checked_before_wires() {
    let data = body(&[(48, 0)], &|out| {
        segment_wire(out, Point { x: 0, y: 0 }, &[0x05]);
        segment_wire(out, Point { x: 0, y: 0 }, &[0x05]);
        2
    });
    let mut input: &[u8] = &data;
    assert!(matches!(
        CircuitData::parse(&mut input),
        Err(DecodeError::UnsupportedComponent { index: 0 })
    ));
}

#[test]
fn check_components_on_owned_components() {
    let mut data = Vec::new();
    component(&mut data, 78, 4);
    let mut input: &[u8] = &data;
    let custom = Component::parse(&mut input).unwrap();
    let mut indexer = custom.clone();
    indexer.kind = ComponentKind::StaticIndexer;
    indexer.custom_data = None;
    let ok: Slice<'_, u64, Component<'_>> = Slice::from(vec![custom.clone(), indexer.clone()]);
    assert_eq!(check_components(&ok), Ok(()));
    let mut bad = indexer.clone();
    bad.word_size = 0;
    let faulty: Slice<'_, u64, Component<'_>> = Slice::from(vec![custom, indexer, bad]);
    assert_eq!(check_components(&faulty), Err(DecodeError::NonPositiveWordSize { index: 2 }));
}

#[test]
fn every_cut_of_a_circuit_is_truncated() {
    let data = body(&[(78, 0)], &|out| {
        teleport_wire(out, Point { x: 0, y: 0 }, Point { x: 9, y: 9 });
        segment_wire(out, Point { x: 1, y: 1 }, &[0x05, 0x43]);
        2
    });
    for cut in 0..data.len() {
        let mut input: &[u8] = &data[..cut];
        assert!(
            matches!(CircuitData::parse(&mut input), Err(DecodeError::Truncated)),
            "cut at {}",
            cut
        );
        assert_eq!(input.len(), cut);
    }
}

#[test]
fn changed_circuit_encodes_the_change() {
    let data = body(&[(1, 0)], &|out| {
        teleport_wire(out, Point { x: 0, y: 0 }, Point { x: 9, y: 9 });
        1
    });
    let mut input: &[u8] = &data;
    let mut circuit = CircuitData::parse(&mut input).unwrap();
    circuit.wires.materialize();
    {
        let mut it = circuit.wires.iter_mut();
        let wire = it.next().unwrap();
        wire.color = 77;
        wire.segments = WireSegments::TeleWireEnd(Point { x: -1, y: -1 });
    }
    circuit.gate = 13;
    let mut written = Vec::new();
    circuit.encode(&mut written);
    let mut input: &[u8] = &written;
    let again = CircuitData::parse(&mut input).unwrap();
    assert_eq!(again.gate, 13);
    let wires = collect(&again.wires);
    assert_eq!(wires[0].color, 77);
    assert!(matches!(wires[0].segments, WireSegments::TeleWireEnd(Point { x: -1, y: -1 })));
}
