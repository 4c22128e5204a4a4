use ftnl_desktop::encoding::{copy_array, from_be, to_be};
use ftnl_desktop::secrets::{SecretBytes, SecretKey, SecretText};
use ftnl_desktop::text::{
    ascii_text, chars_of, comes_before, contains_control, find_char, only_digits, only_graphic,
    only_tokens, same_text, same_text_ignoring_ascii_case, to_decimal, to_hex,
};

#[test]
fn character_classes() {
    assert!(contains_control("a\u{7f}"));
    assert!(contains_control("\u{9f}"));
    assert!(!contains_control("a\u{a0}b "));
    assert!(only_tokens("aZ9-_"));
    assert!(!only_tokens("a.b"));
    assert!(!only_tokens("é"));
    assert!(only_graphic("!~"));
    assert!(!only_graphic("a b"));
    assert!(only_digits("0123456789"));
    assert!(!only_digits("12a"));
    assert!(only_digits(""));
}

#[test]
fn comparisons() {
    assert!(same_text("é", "é"));
    assert!(!same_text("a", "ab"));
    assert!(!same_text("a", "b"));
    assert!(same_text_ignoring_ascii_case("LocalHost", "lOCALhOST"));
    assert!(!same_text_ignoring_ascii_case("É", "é"));
    assert!(!same_text_ignoring_ascii_case("a", "ab"));
    assert!(comes_before("", "a"));
    assert!(comes_before("a", "ab"));
    assert!(comes_before("Z", "a"));
    assert!(!comes_before("a", "a"));
    assert!(!comes_before("b", "a"));
}

#[test]
fn texts_from_bytes_and_back() {
    assert_eq!(ascii_text(b"abc"), "abc");
    assert_eq!(to_hex(&[0x00, 0x9f, 0xab]), "009fab");
    assert_eq!(to_decimal(0), "0");
    assert_eq!(to_decimal(1_048_576), "1048576");
    assert_eq!(to_decimal(u64::MAX), "18446744073709551615");
    assert_eq!(chars_of("aé"), vec!['a', 'é']);
    assert_eq!(find_char(&chars_of("a.b.c"), '.'), 1);
    assert_eq!(find_char(&chars_of("abc"), '.'), 3);
}

#[test]
fn big_endian_numbers() {
    assert_eq!(to_be(0x0102_0304, 4), vec![1, 2, 3, 4]);
    assert_eq!(to_be(0x0102_0304, 2), vec![3, 4]);
    assert_eq!(from_be(&[1, 2, 3, 4]), 0x0102_0304);
    assert_eq!(from_be(&[0xff; 8]), u64::MAX);
    assert_eq!(from_be(&[]), 0);
    assert_eq!(copy_array::<2>(&[1, 2, 3, 4], 1), [2, 3]);
}

#[test]
fn secrets_hold_what_they_were_given() {
    let mut bytes = [7u8; 32];
    let key = SecretKey::take(&mut bytes);
    assert_eq!(bytes, [0; 32]);
    assert_eq!(key.as_array(), &[7; 32]);
    assert_eq!(SecretBytes::new(vec![1, 2]).as_slice(), &[1, 2]);
    let text = SecretText::new("secret".into());
    assert_eq!(text.as_str(), "secret");
}
