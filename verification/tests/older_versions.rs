use turing_complete_saves_parser::wire::{Point, WireSegments};
use turing_complete_saves_parser::{v6, v7, DecodeError, Encode, Parse, Slice};

fn collect<'a, N, T: Parse<'a> + Clone>(slice: &Slice<'a, N, T>) -> Vec<T> {
    let mut all = Vec::new();
    let mut it = slice.iter();
    while let Some(e) = it.next() {
        all.push(e.as_inner_ref().clone());
    }
    all
}

fn v7_component(out: &mut Vec<u8>, kind: u16) {
    kind.encode(out);
    Point { x: 1, y: 2 }.encode(out);
    3u8.encode(out); // rotation
    99u64.encode(out); // permanent_id
    "label".encode(out); // custom_string
    2u16.encode(out); // settings
    1u64.encode(out);
    2u64.encode(out);
    16i64.encode(out); // buffer_size
    (-1i16).encode(out); // ui_order
    8i64.encode(out); // word_size
    77i64.encode(out); // discarded
    if kind == 78 {
        555i64.encode(out); // custom id
        1u16.encode(out); // static_states
        (1i64, 2i64).encode(out);
        1u16.encode(out); // linked_word_sizes
        (3i64, 4i64).encode(out);
    }
    if [50, 82, 102, 83, 90, 88, 91].contains(&kind) {
        1u16.encode(out); // programs
        ("rom", "main").encode(out);
        1u16.encode(out); // watched_components
        5i64.encode(out);
        6i64.encode(out);
        "watched".encode(out);
    }
}

fn v7_body(kinds: &[u16], wires: &[(Point, &[u8])]) -> Vec<u8> {
    let mut out = Vec::new();
    (-7i64).encode(&mut out);
    2u32.encode(&mut out);
    12i64.encode(&mut out);
    34i64.encode(&mut out);
    true.encode(&mut out);
    1000u64.encode(&mut out);
    1u16.encode(&mut out);
    5i64.encode(&mut out);
    "adder".encode(&mut out);
    Point { x: 3, y: -4 }.encode(&mut out);
    0u8.encode(&mut out);
    0xffffu16.encode(&mut out);
    0u16.encode(&mut out);
    "hub".encode(&mut out);
    (kinds.len() as u64).encode(&mut out);
    for kind in kinds {
        v7_component(&mut out, *kind);
    }
    (wires.len() as u64).encode(&mut out);
    for (start, path) in wires {
        4u8.encode(&mut out);
        "w".encode(&mut out);
        start.encode(&mut out);
        out.extend_from_slice(path);
    }
    out
}

#[test]
fn v7_decodes_components_by_kind() {
    let data = v7_body(&[1, 78, 50, 88], &[(Point { x: 0, y: 0 }, &[0x20, 1, 0, 2, 0])]);
    let mut input: &[u8] = &data;
    let circuit = v7::CircuitData::parse(&mut input).unwrap();
    assert!(input.is_empty());
    assert_eq!(circuit.custom_id, -7);
    assert_eq!(circuit.clock_speed, 1000);
    assert_eq!(circuit.synced, v7::SyncState::Unsynced);
    assert_eq!(circuit.hub_description, "hub");
    let components = collect(&circuit.components);
    assert_eq!(components.len(), 4);
    assert_eq!(components[0].kind, v7::ComponentKind::Off);
    assert_eq!(collect(&components[0].settings), vec![1, 2]);
    assert_eq!(components[0].word_size, 8);
    assert_eq!(components[0].discarded, 77);
    assert!(components[0].custom_data.is_none() && components[0].assembler_data.is_none());
    assert_eq!(components[1].kind, v7::ComponentKind::Custom);
    let custom = components[1].custom_data.as_ref().unwrap();
    assert_eq!(custom.id, 555);
    assert_eq!(collect(&custom.static_states), vec![(1, 2)]);
    assert_eq!(collect(&custom.linked_word_sizes), vec![(3, 4)]);
    assert!(components[1].assembler_data.is_none());
    assert_eq!(components[2].kind, v7::ComponentKind::Assembler);
    assert!(components[2].custom_data.is_none());
    let programs = components[2].assembler_data.as_ref().unwrap();
    assert_eq!(collect(&programs.programs), vec![("rom", "main")]);
    let watched = collect(&programs.watched_components);
    assert_eq!((watched[0].permanent_id, watched[0].inner_id, watched[0].name), (5, 6, "watched"));
    assert_eq!(components[3].kind, v7::ComponentKind::Console);
    assert!(components[3].assembler_data.is_some());
    let wires = collect(&circuit.wires);
    assert!(matches!(wires[0].segments, WireSegments::TeleWireEnd(Point { x: 1, y: 2 })));
}

#[test]
fn v7_rejects_unknown_kinds_and_overlaps() {
    let data = v7_body(&[119], &[]);
    let mut input: &[u8] = &data;
    assert!(matches!(v7::CircuitData::parse(&mut input), Err(DecodeError::UnknownDiscriminant)));
    let data = v7_body(&[118], &[]);
    let mut input: &[u8] = &data;
    assert!(v7::CircuitData::parse(&mut input).is_ok());
    let data = v7_body(
        &[],
        &[(Point { x: 0, y: 0 }, &[0x05, 0x00]), (Point { x: 5, y: 0 }, &[0x85, 0x00])],
    );
    let mut input: &[u8] = &data;
    assert!(matches!(
        v7::CircuitData::parse(&mut input),
        Err(DecodeError::OverlappingWires { first: 0, second: 1 })
    ));
    assert_eq!(input, &data[..]);
}

#[test]
fn v7_has_no_rule_on_word_sizes_or_kinds() {
    // kinds 48 and 101 are maker and indexer kinds; this version decodes them as any other
    let data = v7_body(&[48, 101], &[]);
    let mut input: &[u8] = &data;
    assert!(v7::CircuitData::parse(&mut input).is_ok());
}

#[test]
fn v7_every_cut_is_truncated() {
    let data = v7_body(&[78, 50], &[(Point { x: 0, y: 0 }, &[0x05, 0x00])]);
    for cut in 0..data.len() {
        let mut input: &[u8] = &data[..cut];
        assert!(matches!(v7::CircuitData::parse(&mut input), Err(DecodeError::Truncated)));
    }
}

fn v6_component(out: &mut Vec<u8>, kind: u16) {
    kind.encode(out);
    Point { x: 1, y: 2 }.encode(out);
    3u8.encode(out); // rotation
    99u64.encode(out); // permanent_id
    "label".encode(out); // custom_string
    10u64.encode(out); // settings
    20u64.encode(out);
    (-1i16).encode(out); // ui_order
    if kind == 92 {
        555i64.encode(out); // custom id
        Point { x: -1, y: -2 }.encode(out); // custom_nudge
    }
    if [94, 64, 68].contains(&kind) {
        1u16.encode(out); // programs
        (42i64, "main").encode(out);
    }
}

fn v6_body(kinds: &[u16], wires: &[(Point, &[u8])]) -> Vec<u8> {
    let mut out = Vec::new();
    (-7i64).encode(&mut out);
    2u32.encode(&mut out);
    12i64.encode(&mut out);
    34i64.encode(&mut out);
    2u8.encode(&mut out); // menu_visible
    1000u32.encode(&mut out);
    1u16.encode(&mut out);
    5i64.encode(&mut out);
    "adder".encode(&mut out);
    Point { x: 3, y: -4 }.encode(&mut out);
    1u8.encode(&mut out); // synced
    0xeeu8.encode(&mut out); // skipped
    0xffffu16.encode(&mut out); // skipped
    2u16.encode(&mut out);
    out.extend_from_slice(&[9, 8]);
    "hub".encode(&mut out);
    (kinds.len() as u64).encode(&mut out);
    for kind in kinds {
        v6_component(&mut out, *kind);
    }
    (wires.len() as u64).encode(&mut out);
    for (start, path) in wires {
        2u8.encode(&mut out); // width
        4u8.encode(&mut out); // color
        "w".encode(&mut out);
        start.encode(&mut out);
        out.extend_from_slice(path);
    }
    out
}

#[test]
fn v6_decodes_components_by_kind() {
    let data = v6_body(&[1, 92, 94, 64], &[(Point { x: 0, y: 0 }, &[0x05, 0x43, 0x00])]);
    let mut input: &[u8] = &data;
    let circuit = v6::CircuitData::parse(&mut input).unwrap();
    assert!(input.is_empty());
    assert!(circuit.menu_visible);
    assert_eq!(circuit.clock_speed, 1000u32);
    assert_eq!(circuit.synced, v6::SyncState::Synced);
    assert_eq!(collect(&circuit.player_data), vec![9, 8]);
    let components = collect(&circuit.components);
    assert_eq!(components[0].kind, v6::ComponentKind::Off);
    assert_eq!(components[0].settings, [10, 20]);
    assert_eq!(components[0].ui_order, -1);
    assert!(components[0].custom_data.is_none() && components[0].assembler_data.is_none());
    assert_eq!(components[1].kind, v6::ComponentKind::Custom);
    let custom = components[1].custom_data.unwrap();
    assert_eq!((custom.id, custom.custom_nudge), (555, Point { x: -1, y: -2 }));
    assert_eq!(components[2].kind, v6::ComponentKind::Program);
    assert_eq!(
        collect(&components[2].assembler_data.as_ref().unwrap().programs),
        vec![(42, "main")]
    );
    assert_eq!(components[3].kind, v6::ComponentKind::Program81);
    assert!(components[3].assembler_data.is_some());
    let wires = collect(&circuit.wires);
    assert_eq!((wires[0].width, wires[0].color, wires[0].comment), (2, 4, "w"));
    match &wires[0].segments {
        WireSegments::Segments(segments) => assert_eq!(collect(segments).len(), 2),
        WireSegments::TeleWireEnd(_) => panic!("teleport path"),
    }
}

#[test]
fn v6_rejects_unknown_kinds_and_overlaps() {
    assert_eq!(v6::ComponentKind::from_code(257).map(|k| k.to_code()), Some(257));
    assert_eq!(v6::ComponentKind::from_code(258), None);
    let data = v6_body(&[258], &[]);
    let mut input: &[u8] = &data;
    assert!(matches!(v6::CircuitData::parse(&mut input), Err(DecodeError::UnknownDiscriminant)));
    let data = v6_body(
        &[],
        &[(Point { x: 0, y: 0 }, &[0x45, 0x00]), (Point { x: 0, y: 5 }, &[0xc5, 0x00])],
    );
    let mut input: &[u8] = &data;
    assert!(matches!(
        v6::CircuitData::parse(&mut input),
        Err(DecodeError::OverlappingWires { first: 0, second: 1 })
    ));
}

#[test]
fn v6_every_cut_is_truncated() {
    let data = v6_body(&[92, 94], &[(Point { x: 0, y: 0 }, &[0x20, 1, 0, 2, 0])]);
    for cut in 0..data.len() {
        let mut input: &[u8] = &data[..cut];
        assert!(matches!(v6::CircuitData::parse(&mut input), Err(DecodeError::Truncated)));
    }
}
