use std::collections::HashMap;

use alkahest::taginput::{is_whitespace, parse_hex, parse_tag_input, swap_bytes_u32, swap_bytes_u64, trim, TAG_HASH_NONE};
use alkahest::text::{push_decimal, str_eq, truncate_string_stripped};

#[test]
fn truncate_keeps_short_text() {
    assert_eq!(truncate_string_stripped("abc", 5), "abc");
    assert_eq!(truncate_string_stripped("", 1), "");
}

#[test]
fn truncate_cuts_long_text() {
    assert_eq!(truncate_string_stripped("hello world", 5), "hello...");
    // A text exactly as long as the limit still gets the ellipsis.
    assert_eq!(truncate_string_stripped("abcde", 5), "abcde...");
    assert_eq!(truncate_string_stripped("abc", 0), "...");
}

#[test]
fn truncate_escapes_newlines() {
    assert_eq!(truncate_string_stripped("a\nb", 10), "a\\nb");
    assert_eq!(truncate_string_stripped("a\nbcdef", 3), "a\\n...");
}

#[test]
fn truncate_counts_bytes_but_keeps_characters() {
    // Four characters, eight bytes: long enough to be cut at four characters.
    assert_eq!(truncate_string_stripped("éééé", 4), "éééé...");
    assert_eq!(truncate_string_stripped("éé", 5), "éé");
}

#[test]
fn decimal_digits() {
    let mut s = String::from("n=");
    push_decimal(&mut s, 0);
    assert_eq!(s, "n=0");
    let mut t = String::new();
    push_decimal(&mut t, 18446744073709551615);
    assert_eq!(t, "18446744073709551615");
    let mut u = String::new();
    push_decimal(&mut u, 1200);
    assert_eq!(u, "1200");
}

#[test]
fn string_equality() {
    assert!(str_eq("abc", "abc"));
    assert!(!str_eq("abc", "abd"));
    assert!(!str_eq("abc", "ab"));
    assert!(str_eq("", ""));
}

#[test]
fn whitespace_and_trim() {
    assert!(is_whitespace(' '));
    assert!(is_whitespace('\t'));
    assert!(is_whitespace('\u{3000}'));
    assert!(!is_whitespace('a'));
    assert_eq!(trim("  ab c \n"), "ab c");
    assert_eq!(trim("   "), "");
    assert_eq!(trim("x"), "x");
}

#[test]
fn hex_parsing() {
    assert_eq!(parse_hex("ff", 0x1_0000_0000), Some(255));
    assert_eq!(parse_hex("+1A", 0x1_0000_0000), Some(26));
    assert_eq!(parse_hex("", 0x1_0000_0000), None);
    assert_eq!(parse_hex("+", 0x1_0000_0000), None);
    assert_eq!(parse_hex("-1", 0x1_0000_0000), None);
    assert_eq!(parse_hex("xyz", 0x1_0000_0000), None);
    assert_eq!(parse_hex("100000000", 0x1_0000_0000), None);
    assert_eq!(parse_hex("ffffffffffffffff", 0x1_0000_0000_0000_0000), Some(u64::MAX));
    assert_eq!(parse_hex("10000000000000000", 0x1_0000_0000_0000_0000), None);
}

#[test]
fn byte_swaps() {
    assert_eq!(swap_bytes_u32(0x11223344), 0x44332211);
    assert_eq!(swap_bytes_u64(0x0123456789abcdef), 0xefcdab8967452301);
}

#[test]
fn tag_input_32_bit() {
    let table = HashMap::new();
    assert_eq!(parse_tag_input("  ff000080 ", &table), 0x800000ff);
    assert_eq!(parse_tag_input("zz", &table), 0);
    assert_eq!(parse_tag_input("", &table), 0);
}

#[test]
fn tag_input_64_bit() {
    let mut table = HashMap::new();
    table.insert(0xefcdab8967452301u64, 0x1234u32);
    assert_eq!(parse_tag_input("0123456789abcdef", &table), 0x1234);
    assert_eq!(parse_tag_input("0123456789abcdee", &table), TAG_HASH_NONE);
    // Not hex: reads as 0, which the table does not hold.
    assert_eq!(parse_tag_input("0123456789abcdeg", &table), TAG_HASH_NONE);
}
