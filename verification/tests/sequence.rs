use turing_complete_saves_parser::{DecodeError, Either, Encode, Parse, Slice};

#[test]
fn counted_sequence_keeps_its_span() {
    let data = [0x02u8, 0x00, 0x0a, 0x00, 0x0b, 0x00, 0xff];
    let mut input: &[u8] = &data;
    let slice: Slice<'_, u16, u16> = Slice::parse_with_length_prefix(&mut input).unwrap();
    assert_eq!(input, &[0xffu8][..]);
    assert!(!slice.is_owned());
    let mut it = slice.iter();
    assert_eq!(it.next().map(|e| *e.as_inner_ref()), Some(0x0a));
    assert_eq!(it.next().map(|e| *e.as_inner_ref()), Some(0x0b));
    assert!(it.next().is_none());
    assert!(it.next().is_none());
}

#[test]
fn traversing_twice_gives_the_same_elements() {
    let data = [0x03u8, 0x00, 1, 0, 2, 0, 3, 0];
    let mut input: &[u8] = &data;
    let slice: Slice<'_, u16, u16> = Slice::parse_with_length_prefix(&mut input).unwrap();
    let mut first = Vec::new();
    let mut it = slice.iter();
    while let Some(e) = it.next() {
        first.push(e.collapse_copy());
    }
    let mut second = Vec::new();
    let mut it = slice.iter();
    while let Some(e) = it.next() {
        second.push(e.collapse_copy());
    }
    assert_eq!(first, vec![1, 2, 3]);
    assert_eq!(first, second);
}

trait CollapseCopy {
    fn collapse_copy(&self) -> u16;
}

impl CollapseCopy for Either<u16, &u16> {
    fn collapse_copy(&self) -> u16 {
        *self.as_inner_ref()
    }
}

#[test]
fn counted_sequence_with_too_few_elements_is_truncated() {
    let data = [0x03u8, 0x00, 1, 0, 2, 0];
    let mut input: &[u8] = &data;
    let r: Result<Slice<'_, u16, u16>, _> = Slice::parse_with_length_prefix(&mut input);
    assert_eq!(r.err(), Some(DecodeError::Truncated));
    assert_eq!(input, &data[..]);
}

#[test]
fn counted_sequence_with_a_negative_count_is_rejected() {
    let data = [0xffu8, 0xff, 1, 0];
    let mut input: &[u8] = &data;
    let r: Result<Slice<'_, i16, u16>, _> = Slice::parse_with_length_prefix(&mut input);
    assert_eq!(r.err(), Some(DecodeError::InvalidLength));
    assert_eq!(input, &data[..]);
}

#[test]
fn empty_counted_sequence() {
    let data = [0x00u8, 0x00, 0x07];
    let mut input: &[u8] = &data;
    let slice: Slice<'_, u16, u64> = Slice::parse_with_length_prefix(&mut input).unwrap();
    assert_eq!(input, &[0x07u8][..]);
    assert!(slice.iter().next().is_none());
}

#[test]
fn sequence_until_end_takes_the_whole_span() {
    let data = [1u8, 0, 2, 0];
    let mut input: &[u8] = &data;
    let slice: Slice<'_, u64, u16> = Slice::parse_until_end(&mut input).unwrap();
    assert!(input.is_empty());
    let mut it = slice.iter();
    assert_eq!(it.next().map(|e| *e.as_inner_ref()), Some(1));
    assert_eq!(it.next().map(|e| *e.as_inner_ref()), Some(2));
    assert!(it.next().is_none());
}

#[test]
fn sequence_until_end_rejects_leftover_bytes() {
    let data = [1u8, 0, 2];
    let mut input: &[u8] = &data;
    let r: Result<Slice<'_, u64, u16>, _> = Slice::parse_until_end(&mut input);
    assert_eq!(r.err(), Some(DecodeError::Truncated));
    assert_eq!(input, &data[..]);
}

#[test]
fn nested_sequences_decode_lazily() {
    // two texts pairs, count 2
    let mut data = Vec::new();
    2u16.encode(&mut data);
    ("a", "bc").encode(&mut data);
    ("", "d").encode(&mut data);
    data.push(0xee);
    let mut input: &[u8] = &data;
    let slice: Slice<'_, u16, (&str, &str)> = Slice::parse_with_length_prefix(&mut input).unwrap();
    assert_eq!(input, &[0xeeu8][..]);
    let mut it = slice.iter();
    assert_eq!(it.next().map(|e| *e.as_inner_ref()), Some(("a", "bc")));
    assert_eq!(it.next().map(|e| *e.as_inner_ref()), Some(("", "d")));
    assert!(it.next().is_none());
}

#[test]
fn owned_sequence_yields_references() {
    let slice: Slice<'_, u16, u32> = Slice::from(vec![7u32, 8, 9]);
    assert!(slice.is_owned());
    let mut it = slice.iter();
    assert!(matches!(it.next(), Some(Either::Right(&7))));
    assert!(matches!(it.next(), Some(Either::Right(&8))));
    assert!(matches!(it.next(), Some(Either::Right(&9))));
    assert!(it.next().is_none());
}

#[test]
fn unmaterialized_sequence_yields_values() {
    let data = [0x01u8, 0x00, 0x05, 0x00, 0x00, 0x00];
    let mut input: &[u8] = &data;
    let slice: Slice<'_, u16, u32> = Slice::parse_with_length_prefix(&mut input).unwrap();
    let mut it = slice.iter();
    assert!(matches!(it.next(), Some(Either::Left(5))));
}

#[test]
fn owned_sequence_can_be_changed_in_place() {
    let mut slice: Slice<'_, u16, u32> = Slice::from(vec![1u32, 2, 3]);
    {
        let mut it = slice.iter_mut();
        while let Some(e) = it.next() {
            *e *= 10;
        }
    }
    let mut out = Vec::new();
    slice.encode_with_length_prefix(&mut out);
    assert_eq!(out, vec![3, 0, 10, 0, 0, 0, 20, 0, 0, 0, 30, 0, 0, 0]);
}

#[test]
fn materialize_keeps_the_elements() {
    let data = [0x02u8, 0x00, 0x0a, 0x00, 0x0b, 0x00];
    let mut input: &[u8] = &data;
    let mut slice: Slice<'_, u16, u16> = Slice::parse_with_length_prefix(&mut input).unwrap();
    assert!(!slice.is_owned());
    slice.materialize();
    assert!(slice.is_owned());
    {
        let mut it = slice.iter_mut();
        *it.next().unwrap() = 0x0c;
    }
    let mut out = Vec::new();
    slice.encode_with_length_prefix(&mut out);
    assert_eq!(out, vec![2, 0, 0x0c, 0, 0x0b, 0]);
}

#[test]
fn count_is_patched_in_after_the_elements() {
    let slice: Slice<'_, u64, u8> = Slice::from(vec![5u8, 6, 7]);
    let mut out = vec![0xaa, 0xbb];
    slice.encode_with_length_prefix(&mut out);
    assert_eq!(out, vec![0xaa, 0xbb, 3, 0, 0, 0, 0, 0, 0, 0, 5, 6, 7]);
}

#[test]
fn encode_without_length_prefix_writes_only_elements() {
    let slice: Slice<'_, u64, u16> = Slice::from(vec![0x0102u16, 0x0304]);
    let mut out = vec![0xaa];
    slice.encode_without_length_prefix(&mut out);
    assert_eq!(out, vec![0xaa, 0x02, 0x01, 0x04, 0x03]);
}

#[test]
fn unmaterialized_sequence_re_encodes_its_elements() {
    let data = [0x02u8, 0x00, 0x05, 0x02];
    let mut input: &[u8] = &data;
    let slice: Slice<'_, u16, bool> = Slice::parse_with_length_prefix(&mut input).unwrap();
    let mut out = Vec::new();
    slice.encode_with_length_prefix(&mut out);
    assert_eq!(out, vec![0x02, 0x00, 0x01, 0x01]);
}

#[test]
fn counted_sequence_round_trips() {
    let slice: Slice<'_, u16, (i64, i64)> = Slice::from(vec![(1i64, -1i64), (i64::MIN, i64::MAX)]);
    let mut out = Vec::new();
    slice.encode(&mut out);
    let mut input: &[u8] = &out;
    let back: Slice<'_, u16, (i64, i64)> = Slice::parse(&mut input).unwrap();
    assert!(input.is_empty());
    let mut it = back.iter();
    assert_eq!(it.next().map(|e| *e.as_inner_ref()), Some((1, -1)));
    assert_eq!(it.next().map(|e| *e.as_inner_ref()), Some((i64::MIN, i64::MAX)));
    assert!(it.next().is_none());
}

#[test]
fn clone_of_a_sequence_has_the_same_elements() {
    let data = [0x02u8, 0x00, 0x0a, 0x00, 0x0b, 0x00];
    let mut input: &[u8] = &data;
    let slice: Slice<'_, u16, u16> = Slice::parse_with_length_prefix(&mut input).unwrap();
    let copy = slice.clone();
    let mut out = Vec::new();
    copy.encode_with_length_prefix(&mut out);
    assert_eq!(out, data.to_vec());
    let owned: Slice<'_, u16, u16> = Slice::from(vec![1u16]);
    assert!(owned.clone().is_owned());
}

#[test]
fn either_as_ref_keeps_the_side() {
    let left: Either<u8, u16> = Either::Left(3);
    assert!(matches!(left.as_ref(), Either::Left(&3)));
    let right: Either<u8, u16> = Either::Right(4);
    assert!(matches!(right.as_ref(), Either::Right(&4)));
}

#[test]
fn either_collapse_gives_the_inner_value() {
    assert_eq!(Either::<u8, u8>::Left(3).collapse(), 3);
    assert_eq!(Either::<u8, u8>::Right(4).collapse(), 4);
}

#[test]
fn either_as_inner_ref_sees_through_both_sides() {
    let x = 9u32;
    let owned: Either<u32, &u32> = Either::Left(8);
    let borrowed: Either<u32, &u32> = Either::Right(&x);
    assert_eq!(*owned.as_inner_ref(), 8);
    assert_eq!(*borrowed.as_inner_ref(), 9);
}

#[test]
fn either_parse_left_and_right_decode_the_left_type() {
    let data = [0x34u8, 0x12, 0x56, 0x78];
    let mut input: &[u8] = &data;
    let a: Either<u16, u8> = Either::parse_left(&mut input).unwrap();
    assert!(matches!(a, Either::Left(0x1234)));
    let b: Either<u16, u8> = Either::parse_right(&mut input).unwrap();
    assert!(matches!(b, Either::Left(0x7856)));
    assert!(input.is_empty());
    let r: Result<Either<u16, u8>, _> = Either::parse_left(&mut input);
    assert!(matches!(r, Err(DecodeError::Truncated)));
}

#[test]
fn either_encodes_what_it_holds() {
    let mut out = Vec::new();
    Either::<u8, u16>::Left(1).encode(&mut out);
    Either::<u8, u16>::Right(2).encode(&mut out);
    assert_eq!(out, vec![1, 2, 0]);
}
