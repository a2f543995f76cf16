use ble_central::text::{
    chars_of, contains_substring, digit_value_of, fold_hex_char, is_space_char, parse_decimal,
    push_decimal, push_signed_decimal, same_text, trim_line, uuid_matches,
};

#[test]
fn chars_of_lists_every_character() {
    assert_eq!(chars_of("a-é"), vec!['a', '-', 'é']);
    assert!(chars_of("").is_empty());
}

#[test]
fn only_hexadecimal_letters_are_folded() {
    assert_eq!(fold_hex_char('A'), 'a');
    assert_eq!(fold_hex_char('F'), 'f');
    assert_eq!(fold_hex_char('G'), 'G');
    assert_eq!(fold_hex_char('a'), 'a');
    assert_eq!(fold_hex_char('9'), '9');
    assert_eq!(fold_hex_char('-'), '-');
}

#[test]
fn uuid_comparison_ignores_case_of_hex_digits_only() {
    assert!(uuid_matches(
        "226CAA55-6476-4566-7562-66734470666D",
        "226caa55-6476-4566-7562-66734470666d"
    ));
    assert!(uuid_matches("abcdef", "ABCDEF"));
    assert!(!uuid_matches("g", "G"));
    assert!(!uuid_matches("226caa55", "226cbb55"));
    assert!(!uuid_matches("226caa55", "226caa5"));
    assert!(!uuid_matches("226caa55-", "226caa55"));
    assert!(uuid_matches("", ""));
}

#[test]
fn substring_search_finds_every_position() {
    assert!(contains_substring("MJ_HT_V1", "MJ_HT_V1"));
    assert!(contains_substring("xxMJ_HT_V1", "MJ_HT_V1"));
    assert!(contains_substring("MJ_HT_V1xx", "MJ_HT_V1"));
    assert!(contains_substring("aab", "ab"));
    assert!(contains_substring("anything", ""));
    assert!(contains_substring("", ""));
    assert!(!contains_substring("", "a"));
    assert!(!contains_substring("MJ_HT_V", "MJ_HT_V1"));
    assert!(!contains_substring("mj_ht_v1", "MJ_HT_V1"));
    assert!(!contains_substring("abab", "ba b"));
}

#[test]
fn text_equality_is_exact() {
    assert!(same_text("AA:BB", "AA:BB"));
    assert!(!same_text("AA:BB", "aa:bb"));
    assert!(!same_text("AA:BB", "AA:B"));
    assert!(same_text("", ""));
}

#[test]
fn numbers_are_written_in_decimal() {
    for n in [0u64, 7, 10, 99, 100, 12345, u32::MAX as u64, u64::MAX] {
        let mut out = String::from("n=");
        push_decimal(&mut out, n);
        assert_eq!(out, format!("n={}", n));
    }
    for n in [0i32, -1, 1, -60, i16::MIN as i32, i32::MIN, i32::MAX] {
        let mut out = String::new();
        push_signed_decimal(&mut out, n);
        assert_eq!(out, format!("{}", n));
    }
}

#[test]
fn lines_are_trimmed_of_spaces_at_both_ends() {
    assert_eq!(trim_line("  a b \t\r\n"), "a b");
    assert_eq!(trim_line("ab"), "ab");
    assert_eq!(trim_line(" \n"), "");
    assert_eq!(trim_line(""), "");
    assert_eq!(trim_line("é "), "é");
    assert!(is_space_char(' ') && is_space_char('\t') && is_space_char('\n') && is_space_char('\r'));
    assert!(!is_space_char('a') && !is_space_char('0'));
}

#[test]
fn decimal_numbers_are_parsed_up_to_the_bound() {
    assert_eq!(parse_decimal("0", 0), Some(0));
    assert_eq!(parse_decimal("1", 0), None);
    assert_eq!(parse_decimal(" 42 ", 100), Some(42));
    assert_eq!(parse_decimal("+42", 100), Some(42));
    assert_eq!(parse_decimal("++42", 100), None);
    assert_eq!(parse_decimal("4 2", 100), None);
    assert_eq!(parse_decimal("101", 100), None);
    assert_eq!(parse_decimal("100", 100), Some(100));
    assert_eq!(parse_decimal("", 100), None);
    assert_eq!(digit_value_of('7'), Some(7));
    assert_eq!(digit_value_of('a'), None);
}

#[test]
fn what_is_written_is_read_back() {
    for n in [0u32, 1, 9, 10, 255, 256, 65535, u32::MAX] {
        let mut out = String::new();
        push_decimal(&mut out, n as u64);
        assert_eq!(parse_decimal(&out, u32::MAX), Some(n));
    }
}
