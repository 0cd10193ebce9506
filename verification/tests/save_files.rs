use turing_complete_saves_parser::v10;
use turing_complete_saves_parser::wire::Point;
use turing_complete_saves_parser::{CircuitData, DecodeError, Encode, Parse, Record, Version};

fn v10_body() -> Vec<u8> {
    let mut out = Vec::new();
    1i64.encode(&mut out);
    2u32.encode(&mut out);
    3i64.encode(&mut out);
    4i64.encode(&mut out);
    false.encode(&mut out);
    5u64.encode(&mut out);
    0u16.encode(&mut out);
    "d".encode(&mut out);
    Point { x: 0, y: 0 }.encode(&mut out);
    2u8.encode(&mut out);
    0u16.encode(&mut out);
    0u16.encode(&mut out);
    "h".encode(&mut out);
    0u64.encode(&mut out);
    1u64.encode(&mut out);
    6u8.encode(&mut out);
    "w".encode(&mut out);
    Point { x: 1, y: 2 }.encode(&mut out);
    out.push(0x20);
    Point { x: 3, y: 4 }.encode(&mut out);
    out
}

fn compressed(tag: u8, body: &[u8]) -> Vec<u8> {
    let mut file = vec![tag];
    file.extend(snap::raw::Encoder::new().compress_vec(body).unwrap());
    file
}

#[test]
fn compressed_versions_are_decompressed() {
    let body = b"some body bytes, some body bytes, some body bytes".to_vec();
    for (tag, version) in [
        (6u8, Version::V6),
        (7, Version::V7),
        (8, Version::V8),
        (9, Version::V9),
        (10, Version::V10),
    ] {
        let file = compressed(tag, &body);
        let mut input: &[u8] = &file;
        let data = CircuitData::parse(&mut input).unwrap();
        assert!(input.is_empty());
        assert_eq!(data.version(), version);
        assert_eq!(data.body(), &body[..]);
    }
    let file = compressed(10, &body);
    let mut input: &[u8] = &file;
    assert!(matches!(CircuitData::parse(&mut input), Ok(CircuitData::V10(b)) if b == body));
}

#[test]
fn oldest_binary_version_is_stored_as_it_is() {
    let file = [0u8, 1, 2, 3];
    let mut input: &[u8] = &file;
    let data = CircuitData::parse(&mut input).unwrap();
    assert!(input.is_empty());
    assert!(matches!(&data, CircuitData::V0(b) if b == &[1u8, 2, 3]));
    assert!(matches!(data.decode(), Ok(Record::Undecoded(Version::V0, b)) if b == [1u8, 2, 3]));
}

#[test]
fn text_version_is_stored_as_it_is() {
    let file = b"1|||".to_vec();
    let mut input: &[u8] = &file;
    let data = CircuitData::parse(&mut input).unwrap();
    assert_eq!(data.version(), Version::Legacy);
    assert_eq!(data.body(), b"|||");
}

#[test]
fn other_version_bytes_are_rejected() {
    for tag in [1u8, 2, 3, 4, 5, 11, 0x30, 0x32, 0xff] {
        let file = [tag, 0, 0, 0];
        let mut input: &[u8] = &file;
        assert!(matches!(CircuitData::parse(&mut input), Err(DecodeError::UnsupportedVersion)));
        assert_eq!(input, &file[..]);
        assert_eq!(Version::from_tag(tag), Err(DecodeError::UnsupportedVersion));
    }
}

#[test]
fn version_tags() {
    assert_eq!(Version::from_tag(0), Ok(Version::V0));
    assert_eq!(Version::from_tag(b'1'), Ok(Version::Legacy));
    assert_eq!(Version::from_tag(6), Ok(Version::V6));
    assert_eq!(Version::from_tag(10), Ok(Version::V10));
    assert!(!Version::V0.compressed());
    assert!(!Version::Legacy.compressed());
    assert!(Version::V6.compressed());
    assert!(Version::V10.compressed());
}

#[test]
fn empty_file_is_truncated() {
    let mut input: &[u8] = &[];
    assert!(matches!(CircuitData::parse(&mut input), Err(DecodeError::Truncated)));
}

#[test]
fn corrupt_compressed_body_is_rejected() {
    let file = [10u8, 0xff, 0xff, 0xff, 0xff, 0xff, 0xff];
    let mut input: &[u8] = &file;
    assert!(matches!(CircuitData::parse(&mut input), Err(DecodeError::Compression)));
    assert_eq!(input, &file[..]);
    let file = [7u8];
    let mut input: &[u8] = &file;
    assert!(matches!(CircuitData::parse(&mut input), Err(DecodeError::Compression)));
}

#[test]
fn new_wraps_a_body_under_its_version() {
    let data = CircuitData::new(Version::V8, vec![1, 2]);
    assert!(matches!(&data, CircuitData::V8(b) if b == &[1u8, 2]));
    assert_eq!(data.version(), Version::V8);
    assert!(matches!(data.decode(), Ok(Record::Undecoded(Version::V8, b)) if b == [1u8, 2]));
}

#[test]
fn save_file_decodes_in_two_steps() {
    let file = compressed(10, &v10_body());
    let mut input: &[u8] = &file;
    let data = CircuitData::parse(&mut input).unwrap();
    match data.decode().unwrap() {
        Record::V10(circuit) => {
            assert_eq!(circuit.custom_id, 1);
            assert_eq!(circuit.description, "d");
            assert_eq!(circuit.synced, v10::SyncState::ChangedAfterSync);
        }
        _ => panic!("not a version 10 record"),
    }
}

#[test]
fn body_under_the_wrong_version_does_not_decode() {
    let data = CircuitData::new(Version::V6, v10_body());
    assert!(data.decode().is_err());
}

#[test]
fn encode_final_round_trips_through_a_save_file() {
    let body = v10_body();
    let mut input: &[u8] = &body;
    let circuit = v10::CircuitData::parse(&mut input).unwrap();
    let file = circuit.encode_final();
    assert_eq!(file[0], 10);
    assert_eq!(snap::raw::Decoder::new().decompress_vec(&file[1..]).unwrap(), body);
    let mut input: &[u8] = &file;
    let data = CircuitData::parse(&mut input).unwrap();
    assert_eq!(data.body(), &body[..]);
    match data.decode().unwrap() {
        Record::V10(again) => {
            assert_eq!(again.custom_id, circuit.custom_id);
            assert_eq!(again.hub_id, circuit.hub_id);
            assert_eq!(again.gate, circuit.gate);
            assert_eq!(again.delay, circuit.delay);
            assert_eq!(again.menu_visible, circuit.menu_visible);
            assert_eq!(again.clock_speed, circuit.clock_speed);
            assert_eq!(again.description, circuit.description);
            assert_eq!(again.camera_position, circuit.camera_position);
            assert_eq!(again.synced, circuit.synced);
            assert_eq!(again.hub_description, circuit.hub_description);
            let mut rewritten = Vec::new();
            again.encode(&mut rewritten);
            assert_eq!(rewritten, body);
        }
        _ => panic!("not a version 10 record"),
    }
}

#[test]
fn try_encode_final_gives_the_same_file() {
    let body = v10_body();
    let mut input: &[u8] = &body;
    let circuit = v10::CircuitData::parse(&mut input).unwrap();
    assert_eq!(circuit.try_encode_final(), Some(circuit.encode_final()));
}
