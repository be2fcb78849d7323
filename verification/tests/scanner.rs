use wit::errors::ErrorKind;
use wit::numeral::dec_render;
use wit::numeral::parse_dec;
use wit::refs::NameShape;
use wit::refs::classify_name;
use wit::scan::Find;
use wit::scan::Replace;
use wit::text::lower_hex_str;
use wit::text::str_eq;
use wit::text::str_starts_with;

#[test]
fn find_variants() {
    let v: Vec<u8> = b"hello world".to_vec();
    assert_eq!(v.find(b' ').unwrap(), 5);
    assert_eq!(v.find_from(b'l', 3).unwrap(), 3);
    assert_eq!(v.find_from(b'l', 4).unwrap(), 9);
    let err = v.find_from(b'z', 0).unwrap_err();
    assert_eq!(err.kind, ErrorKind::Io);
    assert_eq!(v.find_some(b'o', 5), Some(7));
    assert_eq!(v.find_some(b'z', 0), None);
    assert_eq!(v.find_signed(b'w', 0), 6);
    assert_eq!(v.find_signed(b'z', 0), -1);
    assert_eq!(v.find_exact(b'h', 0), 0);
}

#[test]
fn replace_single_bytes() {
    let mut v: Vec<u8> = b"a-b-c".to_vec();
    assert_eq!(v.replace(&b"-".to_vec(), &b"+".to_vec()), b"a+b+c".to_vec());
    assert_eq!(v, b"a-b-c".to_vec());
}

#[test]
fn replace_matches_first_byte_only() {
    // The pattern "a9" never occurs, but its first byte does: both
    // occurrences of 'a' are replaced and one following byte is skipped.
    let mut v: Vec<u8> = b"a1a2".to_vec();
    assert_eq!(v.replace(&b"a9".to_vec(), &b"Z".to_vec()), b"ZZ".to_vec());
}

#[test]
fn replace_pattern_overrunning_the_end() {
    let mut v: Vec<u8> = b"xa".to_vec();
    assert_eq!(v.replace(&b"abc".to_vec(), &b"Z".to_vec()), b"xZ".to_vec());
}

#[test]
fn replace_without_occurrence_copies_all() {
    let mut v: Vec<u8> = b"plain".to_vec();
    assert_eq!(v.replace(&b"z".to_vec(), &b"y".to_vec()), b"plain".to_vec());
}

#[test]
fn decimal_render_and_parse() {
    assert_eq!(dec_render(0), b"0".to_vec());
    assert_eq!(dec_render(1234), b"1234".to_vec());
    assert_eq!(parse_dec(&b"00123".to_vec()), Some(123));
    assert_eq!(parse_dec(&b"".to_vec()), None);
    assert_eq!(parse_dec(&b"12x".to_vec()), None);
    assert_eq!(parse_dec(&b"9999999999999999999999999".to_vec()), None);
    assert_eq!(parse_dec(&dec_render(usize::MAX)), Some(usize::MAX));
}

#[test]
fn string_helpers() {
    assert!(str_eq("HEAD", "HEAD"));
    assert!(!str_eq("HEAD", "head"));
    assert!(str_starts_with("abcdef", "abc"));
    assert!(!str_starts_with("ab", "abc"));
    assert_eq!(lower_hex_str("AbC1dEf"), "abc1def");
}

#[test]
fn name_shapes() {
    assert_eq!(classify_name(""), NameShape::Blank);
    assert_eq!(classify_name(" \t\n"), NameShape::Blank);
    assert_eq!(classify_name("HEAD"), NameShape::Head);
    assert_eq!(classify_name("AbCd"), NameShape::ShortHex);
    assert_eq!(classify_name("abc"), NameShape::Other);
    assert_eq!(classify_name("main"), NameShape::Other);
    assert_eq!(
        classify_name("0123456789abcdef0123456789abcdef01234567"),
        NameShape::FullHex
    );
    assert_eq!(
        classify_name("0123456789abcdef0123456789abcdef012345678"),
        NameShape::Other
    );
}
