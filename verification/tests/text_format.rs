use turing_complete_saves_parser::legacy::{
    parse_circuit, parse_component, parse_path, parse_score, split_bytes, CircuitData,
};
use turing_complete_saves_parser::wire::Point;
use turing_complete_saves_parser::{self as saves, DecodeError, Record};

fn decode(text: &str) -> Result<CircuitData<'_>, DecodeError> {
    let mut input: &[u8] = text.as_bytes();
    CircuitData::parse(&mut input)
}

#[test]
fn text_save_scenario() {
    let file = "1|A`0`0`0`1`x|1`0`10`comment`0,0,5,0|10,2|";
    let mut input: &[u8] = file.as_bytes();
    let data = saves::CircuitData::parse(&mut input).unwrap();
    assert!(input.is_empty());
    assert_eq!(data.version(), saves::Version::Legacy);
    let record = data.decode().unwrap();
    let save = match record {
        Record::Legacy(save) => save,
        _ => panic!("not a text record"),
    };
    assert_eq!(save.components.len(), 1);
    let component = &save.components[0];
    assert_eq!(component.kind, "A");
    assert_eq!(component.position, Point { x: 0, y: 0 });
    assert_eq!(component.rotation, 0);
    assert_eq!(component.permanent_id, 1);
    assert_eq!(component.custom_string, "x");
    assert_eq!(component.custom_id, None);
    assert_eq!(save.circuits.len(), 1);
    let circuit = &save.circuits[0];
    assert_eq!(circuit.id, 1);
    assert_eq!(circuit.kind, 0);
    assert_eq!(circuit.color, 10);
    assert_eq!(circuit.comment, "comment");
    assert_eq!(circuit.path, vec![Point { x: 0, y: 0 }, Point { x: 5, y: 0 }]);
    assert_eq!(save.nand, 10);
    assert_eq!(save.delay, 2);
    assert_eq!(save.version, 0);
}

#[test]
fn four_parts_and_five_parts_are_accepted() {
    let save = decode("|||").unwrap();
    assert!(save.components.is_empty() && save.circuits.is_empty());
    assert_eq!((save.nand, save.delay, save.version), (0, 0, 0));
    let save = decode("||||").unwrap();
    assert_eq!(save.version, 0);
    let save = decode("ignored|||3,4|17").unwrap();
    assert_eq!((save.nand, save.delay, save.version), (3, 4, 17));
    let save = decode("|||-3,4|-1").unwrap();
    assert_eq!((save.nand, save.delay, save.version), (-3, 4, -1));
}

#[test]
fn other_part_counts_are_rejected() {
    for text in ["", "|", "||", "|||||", "||||||"] {
        assert!(matches!(decode(text), Err(DecodeError::FieldCount)), "{:?}", text);
    }
}

#[test]
fn failure_leaves_the_cursor() {
    let text = "||";
    let mut input: &[u8] = text.as_bytes();
    assert!(CircuitData::parse(&mut input).is_err());
    assert_eq!(input, text.as_bytes());
}

#[test]
fn save_text_that_is_not_utf8_is_rejected() {
    let mut input: &[u8] = &[b'|', 0xff, b'|', b'|'];
    assert!(matches!(CircuitData::parse(&mut input), Err(DecodeError::InvalidUtf8)));
}

#[test]
fn several_components_and_circuits() {
    let text = "|And`1`-2`3`4`a;Custom`5`6`1`7`b`-99|8`1`2`c`;9`3`4``1,2,3,4,-5,-6|1,2|6";
    let save = decode(text).unwrap();
    assert_eq!(save.components.len(), 2);
    assert_eq!(save.components[0].kind, "And");
    assert_eq!(save.components[0].position, Point { x: 1, y: -2 });
    assert_eq!(save.components[0].rotation, 3);
    assert_eq!(save.components[0].permanent_id, 4);
    assert_eq!(save.components[1].kind, "Custom");
    assert_eq!(save.components[1].custom_id, Some(-99));
    assert_eq!(save.circuits.len(), 2);
    assert!(save.circuits[0].path.is_empty());
    assert_eq!(save.circuits[0].comment, "c");
    assert_eq!(save.circuits[1].comment, "");
    assert_eq!(
        save.circuits[1].path,
        vec![Point { x: 1, y: 2 }, Point { x: 3, y: 4 }, Point { x: -5, y: -6 }]
    );
    assert_eq!(save.version, 6);
}

#[test]
fn custom_component_needs_its_id_and_no_other_has_one() {
    assert!(parse_component(b"Custom`0`0`0`1`x`42").is_ok());
    assert!(matches!(parse_component(b"Custom`0`0`0`1`x"), Err(DecodeError::FieldCount)));
    assert!(matches!(parse_component(b"A`0`0`0`1`x`42"), Err(DecodeError::FieldCount)));
    assert!(matches!(parse_component(b"A`0`0`0`1"), Err(DecodeError::FieldCount)));
    assert!(matches!(parse_component(b""), Err(DecodeError::FieldCount)));
    assert!(matches!(parse_component(b"custom`0`0`0`1`x`42"), Err(DecodeError::FieldCount)));
}

#[test]
fn numbers_must_be_decimal_and_in_range() {
    assert!(matches!(parse_component(b"A`x`0`0`1`x"), Err(DecodeError::InvalidNumber)));
    assert!(matches!(parse_component(b"A``0`0`1`x"), Err(DecodeError::InvalidNumber)));
    assert!(matches!(parse_component(b"A`0`+1`0`1`x"), Err(DecodeError::InvalidNumber)));
    assert!(matches!(parse_component(b"A`0`0`256`1`x"), Err(DecodeError::InvalidNumber)));
    assert!(matches!(parse_component(b"A`0`0`-1`1`x"), Err(DecodeError::InvalidNumber)));
    assert!(matches!(parse_component(b"A`32768`0`0`1`x"), Err(DecodeError::InvalidNumber)));
    assert!(matches!(parse_component(b"A`0`-32769`0`1`x"), Err(DecodeError::InvalidNumber)));
    assert!(matches!(parse_component(b"A`0`0`0`-`x"), Err(DecodeError::InvalidNumber)));
    assert!(matches!(parse_component(b"A`0`0`0`1 `x"), Err(DecodeError::InvalidNumber)));
    assert!(matches!(
        parse_component(b"A`0`0`0`18446744073709551616`x"),
        Err(DecodeError::InvalidNumber)
    ));
    assert!(matches!(
        parse_component(b"A`0`0`0`99999999999999999999999999999999999999999999999999`x"),
        Err(DecodeError::InvalidNumber)
    ));
    let c = parse_component(b"A`32767`-32768`255`18446744073709551615`x").unwrap();
    assert_eq!(c.position, Point { x: 32767, y: -32768 });
    assert_eq!(c.rotation, 255);
    assert_eq!(c.permanent_id, u64::MAX);
    let c = parse_component(b"A`007`-0`000`0001`x").unwrap();
    assert_eq!(c.position, Point { x: 7, y: 0 });
    assert_eq!(c.permanent_id, 1);
    let c = parse_component(b"Custom`0`0`0`1`x`-9223372036854775808").unwrap();
    assert_eq!(c.custom_id, Some(i64::MIN));
    assert!(matches!(
        parse_component(b"Custom`0`0`0`1`x`9223372036854775808"),
        Err(DecodeError::InvalidNumber)
    ));
}

#[test]
fn circuit_has_five_fields() {
    let c = parse_circuit(b"7`1`255`hello`1,2").unwrap();
    assert_eq!((c.id, c.kind, c.color, c.comment), (7, 1, 255, "hello"));
    assert_eq!(c.path, vec![Point { x: 1, y: 2 }]);
    assert!(matches!(parse_circuit(b"7`1`255`hello"), Err(DecodeError::FieldCount)));
    assert!(matches!(parse_circuit(b"7`1`255`hello`1,2`x"), Err(DecodeError::FieldCount)));
    assert!(matches!(parse_circuit(b"7`1`256`hello`1,2"), Err(DecodeError::InvalidNumber)));
    assert!(matches!(parse_circuit(b"-7`1`25`hello`1,2"), Err(DecodeError::InvalidNumber)));
    let bad_comment = [b'7', b'`', b'1', b'`', b'2', b'`', 0xff, b'`'];
    assert!(matches!(parse_circuit(&bad_comment), Err(DecodeError::InvalidUtf8)));
}

#[test]
fn path_is_pairs_of_coordinates() {
    assert_eq!(parse_path(b""), Ok(vec![]));
    assert_eq!(parse_path(b"1,2"), Ok(vec![Point { x: 1, y: 2 }]));
    assert_eq!(parse_path(b"0,0,5,0"), Ok(vec![Point { x: 0, y: 0 }, Point { x: 5, y: 0 }]));
    assert_eq!(parse_path(b"1"), Err(DecodeError::FieldCount));
    assert_eq!(parse_path(b"1,2,3"), Err(DecodeError::FieldCount));
    assert_eq!(parse_path(b"1,"), Err(DecodeError::InvalidNumber));
    assert_eq!(parse_path(b",1"), Err(DecodeError::InvalidNumber));
    assert_eq!(parse_path(b"1,2,3,x"), Err(DecodeError::InvalidNumber));
    assert_eq!(parse_path(b"1,40000"), Err(DecodeError::InvalidNumber));
}

#[test]
fn score_is_two_numbers_or_nothing() {
    assert_eq!(parse_score(b""), Ok((0, 0)));
    assert_eq!(parse_score(b"10,2"), Ok((10, 2)));
    assert_eq!(parse_score(b"10"), Err(DecodeError::FieldCount));
    assert_eq!(parse_score(b"10,2,3"), Err(DecodeError::FieldCount));
    assert_eq!(parse_score(b"10,"), Err(DecodeError::InvalidNumber));
}

#[test]
fn errors_come_in_the_order_of_the_fields() {
    assert!(matches!(decode("|A`x`0`0`1`y|bad|"), Err(DecodeError::InvalidNumber)));
    assert!(matches!(decode("|A`0`0`0`1`y|bad|"), Err(DecodeError::FieldCount)));
    assert!(matches!(decode("|A`0`0`0`1`y;|1`0`0`c`|"), Err(DecodeError::FieldCount)));
    assert!(matches!(decode("|||1,2|x"), Err(DecodeError::InvalidNumber)));
    assert!(matches!(decode("|||1|2"), Err(DecodeError::FieldCount)));
}

#[test]
fn split_keeps_empty_pieces() {
    assert_eq!(split_bytes(b"", b','), vec![&b""[..]]);
    assert_eq!(split_bytes(b"a", b','), vec![&b"a"[..]]);
    assert_eq!(split_bytes(b",", b','), vec![&b""[..], &b""[..]]);
    assert_eq!(split_bytes(b"a,,bc,", b','), vec![&b"a"[..], &b""[..], &b"bc"[..], &b""[..]]);
}
