use arena_lang::module::replace_escape_characters;
use arena_lang::text::{replace_all, str_eq, to_decimal, to_hex};

#[test]
fn decimal_of_numbers() {
    assert_eq!(to_decimal(0), "0");
    assert_eq!(to_decimal(7), "7");
    assert_eq!(to_decimal(10), "10");
    assert_eq!(to_decimal(4096), "4096");
    assert_eq!(to_decimal(u64::MAX), "18446744073709551615");
}

#[test]
fn hex_of_numbers() {
    assert_eq!(to_hex(0), "0");
    assert_eq!(to_hex(10), "a");
    assert_eq!(to_hex(255), "ff");
    assert_eq!(to_hex(4096), "1000");
    assert_eq!(to_hex(0xdead_beef), "deadbeef");
    assert_eq!(to_hex(u64::MAX), "ffffffffffffffff");
}

#[test]
fn hex_agrees_with_the_standard_formatting() {
    for n in [1u64, 15, 16, 17, 12345, 0x8000_0000_0000_0000] {
        assert_eq!(to_hex(n), format!("{:x}", n));
        assert_eq!(to_decimal(n), format!("{}", n));
    }
}

#[test]
fn strings_compare_by_content() {
    assert!(str_eq("", ""));
    assert!(str_eq("void", "void"));
    assert!(!str_eq("void", "voi"));
    assert!(!str_eq("i32", "i64"));
}

#[test]
fn replace_all_replaces_from_the_left_without_overlap() {
    assert_eq!(replace_all("aaa", "aa", "b"), "ba");
    assert_eq!(replace_all("abcabc", "bc", "x"), "axax");
    assert_eq!(replace_all("abc", "d", "x"), "abc");
    assert_eq!(replace_all("", "a", "x"), "");
    assert_eq!(replace_all("ab", "abc", "x"), "ab");
    assert_eq!(replace_all("abab", "ab", ""), "");
    assert_eq!(replace_all("abc", "", "x"), "abc");
    assert_eq!(replace_all("héllo", "l", "L"), "héLLo");
}

#[test]
fn replace_all_agrees_with_the_standard_replace() {
    for (s, from, to) in [
        ("a\\nb\\nc", "\\n", "\n"),
        ("xxxx", "xx", "y"),
        ("hello world", "o", "00"),
        ("\\\\\\\\", "\\\\", "\\"),
    ] {
        assert_eq!(replace_all(s, from, to), s.replace(from, to));
    }
}

#[test]
fn escape_sequences_give_way_to_their_characters() {
    assert_eq!(replace_escape_characters("a\\nb".to_string()), "a\nb");
    assert_eq!(replace_escape_characters("tab\\there".to_string()), "tab\there");
    assert_eq!(replace_escape_characters("cr\\r".to_string()), "cr\r");
    assert_eq!(replace_escape_characters("say \\\"hi\\\"".to_string()), "say \"hi\"");
    assert_eq!(replace_escape_characters("back\\\\slash".to_string()), "back\\slash");
    assert_eq!(replace_escape_characters("plain".to_string()), "plain");
    assert_eq!(replace_escape_characters("".to_string()), "");
}

#[test]
fn escape_sequences_are_replaced_one_kind_after_the_other() {
    // The line feed is replaced before the backslash, so a doubled
    // backslash before an `n` becomes a backslash and a line feed.
    assert_eq!(replace_escape_characters("\\\\n".to_string()), "\\\n");
}
