use zfs::binary::Reader;
use zfs::error::Error;
use zfs::xdr::{Bitmask, Enum, EnumMapping, I32, I64, String, U32, U64};

#[test]
fn integers_decode_most_significant_byte_first() {
    assert_eq!(I32::decode(&[0, 0, 1, 2]).0, 258);
    assert_eq!(I32::decode(&[0xff, 0xff, 0xff, 0xfe]).0, -2);
    assert_eq!(I32::decode(&[0x80, 0, 0, 0]).0, i32::MIN);
    assert_eq!(U32::decode(&[0xff, 0xff, 0xff, 0xfe]).0, 4294967294);
    assert_eq!(U32::decode(&[0x12, 0x34, 0x56, 0x78]).0, 0x12345678);
    assert_eq!(I64::decode(&[0xff; 8]).0, -1);
    assert_eq!(I64::decode(&[0, 0, 0, 1, 0, 0, 0, 0]).0, 1 << 32);
    assert_eq!(U64::decode(&[1, 2, 3, 4, 5, 6, 7, 8]).0, 0x0102030405060708);
    assert_eq!(U64::decode(&[0xff; 8]).0, u64::MAX);
}

#[test]
fn integers_encode_most_significant_byte_first() {
    assert_eq!(I32(-2).encode(), [0xff, 0xff, 0xff, 0xfe]);
    assert_eq!(U32(0x12345678).encode(), [0x12, 0x34, 0x56, 0x78]);
    assert_eq!(I64(i64::MIN).encode(), [0x80, 0, 0, 0, 0, 0, 0, 0]);
    assert_eq!(U64(0x0102030405060708).encode(), [1, 2, 3, 4, 5, 6, 7, 8]);
}

#[test]
fn integers_round_trip() {
    for v in [0i32, 1, -1, 258, i32::MIN, i32::MAX] {
        assert_eq!(I32::decode(&I32(v).encode()).0, v);
    }
    for v in [0u32, 1, 0x8000_0000, u32::MAX] {
        assert_eq!(U32::decode(&U32(v).encode()).0, v);
    }
    for v in [0i64, -1, i64::MIN, i64::MAX, 1 << 40] {
        assert_eq!(I64::decode(&I64(v).encode()).0, v);
    }
    for v in [0u64, u64::MAX, 1 << 63, 0xdead_beef_0000_0001] {
        assert_eq!(U64::decode(&U64(v).encode()).0, v);
    }
}

#[test]
fn integers_read_from_a_reader() {
    let mut r = Reader::new(vec![0, 0, 0, 5, 0xff, 0xff, 0xff, 0xff, 0, 0, 0, 0, 0, 0, 0, 9, 1]);
    assert_eq!(I32::read(&mut r), Ok(I32(5)));
    assert_eq!(U32::read(&mut r), Ok(U32(u32::MAX)));
    assert_eq!(U64::read(&mut r), Ok(U64(9)));
    assert_eq!(r.position(), 16);
    assert_eq!(I64::read(&mut r), Err(Error::UnexpectedEof));
    assert_eq!(r.position(), 16);
}

#[derive(Debug, Clone, Copy, PartialEq)]
enum Color {
    Red,
    Yellow,
    Blue,
}

const COLORS: EnumMapping<Color, 3> = [(Color::Red, 2), (Color::Yellow, 3), (Color::Blue, 5)];

#[test]
fn enum_decodes_each_table_entry() {
    let e = Enum::new(&COLORS);
    for (tag, value) in COLORS {
        assert_eq!(e.decode(&I32(value).encode()), Ok(tag));
    }
}

#[test]
fn enum_refuses_an_unmapped_integer() {
    let e = Enum::new(&COLORS);
    assert_eq!(e.decode(&I32(4).encode()), Err(Error::UnknownValue(4)));
    assert_eq!(e.decode(&I32(-1).encode()), Err(Error::UnknownValue(-1)));
}

#[test]
fn enum_takes_the_first_of_two_entries_with_one_integer() {
    let table: EnumMapping<Color, 2> = [(Color::Blue, 7), (Color::Red, 7)];
    assert_eq!(Enum::new(&table).decode(&[0, 0, 0, 7]), Ok(Color::Blue));
}

#[test]
fn enum_read_consumes_the_integer_even_when_unmapped() {
    let e = Enum::new(&COLORS);
    let mut r = Reader::new(vec![0, 0, 0, 3, 0, 0, 0, 9, 0]);
    assert_eq!(e.read(&mut r), Ok(Color::Yellow));
    assert_eq!(e.read(&mut r), Err(Error::UnknownValue(9)));
    assert_eq!(r.position(), 8);
    assert_eq!(e.read(&mut r), Err(Error::UnexpectedEof));
    assert_eq!(r.position(), 8);
}

const BITS: EnumMapping<Color, 3> = [(Color::Red, 0x1), (Color::Yellow, 0x2), (Color::Blue, 0x4)];

#[test]
fn bitmask_keeps_the_set_bits_in_table_order() {
    let b = Bitmask::new(&BITS);
    assert_eq!(b.decode(&[0, 0, 0, 0]), vec![]);
    assert_eq!(b.decode(&[0, 0, 0, 5]), vec![Color::Red, Color::Blue]);
    assert_eq!(b.decode(&[0, 0, 0, 7]), vec![Color::Red, Color::Yellow, Color::Blue]);
    for (tag, value) in BITS {
        assert_eq!(b.decode(&I32(value).encode()), vec![tag]);
    }
}

#[test]
fn bitmask_ignores_unnamed_bits() {
    let b = Bitmask::new(&BITS);
    assert_eq!(b.decode(&[0, 0, 0, 8]), vec![]);
    assert_eq!(b.decode(&[0x80, 0, 0, 0x0a]), vec![Color::Yellow]);
}

#[test]
fn bitmask_read_moves_past_the_integer() {
    let b = Bitmask::new(&BITS);
    let mut r = Reader::new(vec![0, 0, 0, 6, 0, 0]);
    assert_eq!(b.read(&mut r), Ok(vec![Color::Yellow, Color::Blue]));
    assert_eq!(r.position(), 4);
    assert_eq!(b.read(&mut r), Err(Error::UnexpectedEof));
}

fn round_trip(n: usize) {
    let text: std::string::String = "abcdefghij".chars().cycle().take(n).collect();
    let bytes = String::encode(&text);
    assert_eq!(bytes.len() % 4, 0);
    assert_eq!(bytes.len(), 4 + (n + 3) / 4 * 4);
    let mut r = Reader::new(bytes.clone());
    let s = String::read(&mut r).unwrap();
    assert_eq!(s.0, text);
    assert_eq!(r.position(), bytes.len() as u64);
    assert_eq!(r.position() % 4, 0);
}

#[test]
fn string_round_trips_for_several_lengths() {
    for n in [0, 1, 3, 4, 5, 255] {
        round_trip(n);
    }
}

#[test]
fn string_encoding_has_length_bytes_and_zero_padding() {
    assert_eq!(String::encode("abcde"), vec![0, 0, 0, 5, b'a', b'b', b'c', b'd', b'e', 0, 0, 0]);
    assert_eq!(String::encode(""), vec![0, 0, 0, 0]);
}

#[test]
fn string_decodes_multibyte_text() {
    let mut r = Reader::new(vec![0, 0, 0, 3, b'x', 0xc3, 0xa9, 0]);
    let s = String::read(&mut r).unwrap();
    assert_eq!(s.0, "xé");
    assert_eq!(s.0.chars().count(), 2);
    assert_eq!(r.position(), 8);
}

#[test]
fn string_skips_padding_without_checking_it() {
    let mut r = Reader::new(vec![0, 0, 0, 1, b'z', 7, 7, 7]);
    assert_eq!(String::read(&mut r).unwrap().0, "z");
    assert_eq!(r.position(), 8);
}

#[test]
fn string_refuses_invalid_utf8() {
    let mut r = Reader::new(vec![0, 0, 0, 2, 0xff, 0xfe, 0, 0]);
    assert_eq!(String::read(&mut r).unwrap_err(), Error::InvalidUtf8);
    assert_eq!(r.position(), 6);
}

#[test]
fn string_longer_than_the_source_fails() {
    let mut r = Reader::new(vec![0, 0, 0, 9, b'a', b'b']);
    assert_eq!(String::read(&mut r).unwrap_err(), Error::UnexpectedEof);
    assert_eq!(r.position(), 4);
    let mut short = Reader::new(vec![0, 0]);
    assert_eq!(String::read(&mut short).unwrap_err(), Error::UnexpectedEof);
    assert_eq!(short.position(), 0);
}

#[test]
fn string_at_the_end_without_padding_bytes_still_aligns() {
    let mut r = Reader::new(vec![0, 0, 0, 1, b'q']);
    assert_eq!(String::read(&mut r).unwrap().0, "q");
    assert_eq!(r.position(), 8);
}
