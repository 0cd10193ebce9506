use turing_complete_saves_parser::text::parse_text;
use turing_complete_saves_parser::{DecodeError, Encode, EncodeInt, Parse};

#[test]
fn u16_is_little_endian() {
    let data = [0x34u8, 0x12, 0xff];
    let mut input: &[u8] = &data;
    assert_eq!(u16::parse(&mut input), Ok(0x1234));
    assert_eq!(input, &[0xffu8][..]);
}

#[test]
fn u16_truncated_leaves_cursor() {
    let data = [0x34u8];
    let mut input: &[u8] = &data;
    assert_eq!(u16::parse(&mut input), Err(DecodeError::Truncated));
    assert_eq!(input, &[0x34u8][..]);
}

#[test]
fn every_width_decodes() {
    let data = [0x01u8, 0x02, 0x03, 0x04, 0x05, 0x06, 0x07, 0x08, 0x09];
    let mut input: &[u8] = &data;
    assert_eq!(u8::parse(&mut input), Ok(0x01));
    assert_eq!(input.len(), 8);
    let mut input: &[u8] = &data;
    assert_eq!(u32::parse(&mut input), Ok(0x0403_0201));
    assert_eq!(input.len(), 5);
    let mut input: &[u8] = &data;
    assert_eq!(u64::parse(&mut input), Ok(0x0807_0605_0403_0201));
    assert_eq!(input, &[0x09u8][..]);
    let mut input: &[u8] = &data;
    assert_eq!(i32::parse(&mut input), Ok(0x0403_0201));
    let mut input: &[u8] = &data;
    assert_eq!(i64::parse(&mut input), Ok(0x0807_0605_0403_0201));
}

#[test]
fn signed_values_are_twos_complement() {
    let mut input: &[u8] = &[0xff];
    assert_eq!(i8::parse(&mut input), Ok(-1));
    let mut input: &[u8] = &[0x00, 0x80];
    assert_eq!(i16::parse(&mut input), Ok(i16::MIN));
    let mut input: &[u8] = &[0xfe, 0xff, 0xff, 0xff];
    assert_eq!(i32::parse(&mut input), Ok(-2));
    let mut input: &[u8] = &[0x00, 0x00, 0x00, 0x00, 0x00, 0x00, 0x00, 0x80];
    assert_eq!(i64::parse(&mut input), Ok(i64::MIN));
    let mut input: &[u8] = &[0xff, 0x7f];
    assert_eq!(i16::parse(&mut input), Ok(i16::MAX));
}

#[test]
fn integers_encode_little_endian() {
    let mut out = vec![0xaau8];
    0x1234u16.encode(&mut out);
    (-2i32).encode(&mut out);
    0x0807_0605_0403_0201u64.encode(&mut out);
    (-1i8).encode(&mut out);
    i64::MIN.encode(&mut out);
    assert_eq!(
        out,
        vec![
            0xaa, 0x34, 0x12, 0xfe, 0xff, 0xff, 0xff, 0x01, 0x02, 0x03, 0x04, 0x05, 0x06, 0x07,
            0x08, 0xff, 0, 0, 0, 0, 0, 0, 0, 0x80
        ]
    );
}

#[test]
fn integers_round_trip() {
    let values = [0i64, 1, -1, 255, 256, -32768, i64::MAX, i64::MIN, 0x0102_0304_0506_0708];
    for v in values {
        let mut out = Vec::new();
        v.encode(&mut out);
        assert_eq!(out.len(), 8);
        let mut input: &[u8] = &out;
        assert_eq!(i64::parse(&mut input), Ok(v));
        assert!(input.is_empty());
    }
    for v in [0u16, 1, 255, 256, 0xffff] {
        let mut out = Vec::new();
        v.encode(&mut out);
        let mut input: &[u8] = &out;
        assert_eq!(u16::parse(&mut input), Ok(v));
    }
}

#[test]
fn encode_le_bytes_overwrites_in_place() {
    let mut field = [0xeeu8; 4];
    0x0a0b_0c0du32.encode_le_bytes(&mut field);
    assert_eq!(field, [0x0d, 0x0c, 0x0b, 0x0a]);
    let mut field = [0xeeu8; 2];
    (-2i16).encode_le_bytes(&mut field);
    assert_eq!(field, [0xfe, 0xff]);
}

#[test]
fn counts_convert_both_ways() {
    assert_eq!(u16::from_count(65535), Some(65535u16));
    assert_eq!(u16::from_count(65536), None);
    assert_eq!(i8::from_count(127), Some(127i8));
    assert_eq!(i8::from_count(128), None);
    assert_eq!(7u64.to_count(), Some(7));
    assert_eq!((-7i64).to_count(), None);
    assert_eq!(7i64.to_count(), Some(7));
    assert_eq!(<u64 as EncodeInt>::width(), 8);
    assert_eq!(<i16 as EncodeInt>::width(), 2);
}

#[test]
fn bool_is_any_nonzero_byte() {
    let mut input: &[u8] = &[0x00, 0x01, 0x02, 0xff];
    assert_eq!(bool::parse(&mut input), Ok(false));
    assert_eq!(bool::parse(&mut input), Ok(true));
    assert_eq!(bool::parse(&mut input), Ok(true));
    assert_eq!(bool::parse(&mut input), Ok(true));
    assert_eq!(bool::parse(&mut input), Err(DecodeError::Truncated));
}

#[test]
fn bool_encodes_as_one_or_zero() {
    let mut out = Vec::new();
    true.encode(&mut out);
    false.encode(&mut out);
    assert_eq!(out, vec![1, 0]);
}

#[test]
fn pair_decodes_in_order() {
    let mut input: &[u8] = &[0x01, 0x02, 0x00, 0x09];
    assert_eq!(<(u8, u16)>::parse(&mut input), Ok((1, 2)));
    assert_eq!(input, &[0x09u8][..]);
}

#[test]
fn pair_failure_leaves_cursor() {
    let data = [0x01u8, 0x02];
    let mut input: &[u8] = &data;
    assert_eq!(<(u8, u16)>::parse(&mut input), Err(DecodeError::Truncated));
    assert_eq!(input, &data[..]);
}

#[test]
fn option_encodes_only_what_is_there() {
    let mut out = Vec::new();
    Some(0x0102u16).encode(&mut out);
    None::<u16>.encode(&mut out);
    assert_eq!(out, vec![0x02, 0x01]);
}

#[test]
fn text_has_a_16_bit_length() {
    let data = [0x03u8, 0x00, b'a', b'b', b'c', b'd'];
    let mut input: &[u8] = &data;
    assert_eq!(<&str>::parse(&mut input), Ok("abc"));
    assert_eq!(input, &[b'd'][..]);
}

#[test]
fn text_with_multibyte_characters() {
    let data = [0x04u8, 0x00, 0xc3, 0xa9, 0xc3, 0xa8];
    let mut input: &[u8] = &data;
    assert_eq!(<&str>::parse(&mut input), Ok("éè"));
    assert!(input.is_empty());
}

#[test]
fn text_that_is_not_utf8_is_rejected() {
    let data = [0x02u8, 0x00, 0xff, 0xfe];
    let mut input: &[u8] = &data;
    assert_eq!(<&str>::parse(&mut input), Err(DecodeError::InvalidUtf8));
    assert_eq!(input, &data[..]);
}

#[test]
fn text_shorter_than_its_length_is_truncated() {
    let data = [0x05u8, 0x00, b'a', b'b'];
    let mut input: &[u8] = &data;
    assert_eq!(<&str>::parse(&mut input), Err(DecodeError::Truncated));
    assert_eq!(input, &data[..]);
}

#[test]
fn text_with_a_64_bit_signed_length() {
    let data = [0x02u8, 0, 0, 0, 0, 0, 0, 0, b'h', b'i', b'!'];
    let mut input: &[u8] = &data;
    assert_eq!(parse_text::<i64>(&mut input), Ok("hi"));
    assert_eq!(input, &[b'!'][..]);
}

#[test]
fn text_with_a_negative_length_is_rejected() {
    let data = [0xffu8, 0xff, 0xff, 0xff, 0xff, 0xff, 0xff, 0xff, b'h'];
    let mut input: &[u8] = &data;
    assert_eq!(parse_text::<i64>(&mut input), Err(DecodeError::InvalidLength));
    assert_eq!(input, &data[..]);
}

#[test]
fn text_encodes_length_then_bytes() {
    let mut out = Vec::new();
    "hé".encode(&mut out);
    assert_eq!(out, vec![0x03, 0x00, b'h', 0xc3, 0xa9]);
    let mut out = Vec::new();
    "".encode(&mut out);
    assert_eq!(out, vec![0x00, 0x00]);
}

#[test]
fn text_round_trips() {
    let mut out = Vec::new();
    let text = "wire ✓ comment";
    text.encode(&mut out);
    out.push(0x77);
    let mut input: &[u8] = &out;
    assert_eq!(<&str>::parse(&mut input), Ok(text));
    assert_eq!(input, &[0x77u8][..]);
}

#[test]
fn every_cut_of_a_value_is_truncated() {
    let mut whole = Vec::new();
    (0x0102_0304u32, "abc").encode(&mut whole);
    for cut in 0..whole.len() {
        let mut input: &[u8] = &whole[..cut];
        assert_eq!(<(u32, &str)>::parse(&mut input), Err(DecodeError::Truncated));
        assert_eq!(input.len(), cut);
    }
    let mut input: &[u8] = &whole;
    assert_eq!(<(u32, &str)>::parse(&mut input), Ok((0x0102_0304, "abc")));
    assert!(input.is_empty());
}

#[test]
fn cursor_advances_by_the_sum_of_the_widths() {
    let data = [1u8, 2, 0, 3, 0, 0, 0, 4, 0, 0, 0, 0, 0, 0, 0, 9, 9];
    let mut input: &[u8] = &data;
    assert_eq!(u8::parse(&mut input), Ok(1));
    assert_eq!(data.len() - input.len(), 1);
    assert_eq!(u16::parse(&mut input), Ok(2));
    assert_eq!(data.len() - input.len(), 1 + 2);
    assert_eq!(u32::parse(&mut input), Ok(3));
    assert_eq!(data.len() - input.len(), 1 + 2 + 4);
    assert_eq!(u64::parse(&mut input), Ok(4));
    assert_eq!(data.len() - input.len(), 1 + 2 + 4 + 8);
    assert_eq!(input, &[9u8, 9][..]);
}
