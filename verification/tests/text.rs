use ethproofs_client::text::{
    decimal_string, first_number_token, from_chars, hex_string, parse_u64_chars, split_whitespace,
    take_chars, to_chars,
};

fn parse(s: &str) -> Option<u64> {
    let chars = to_chars(s);
    parse_u64_chars(&chars, 0, chars.len())
}

#[test]
fn decimals_are_written() {
    assert_eq!(decimal_string(0), "0");
    assert_eq!(decimal_string(10), "10");
    assert_eq!(decimal_string(u64::MAX), "18446744073709551615");
}

#[test]
fn numbers_are_read() {
    assert_eq!(parse("0"), Some(0));
    assert_eq!(parse("00042"), Some(42));
    assert_eq!(parse("+7"), Some(7));
    assert_eq!(parse("18446744073709551615"), Some(u64::MAX));
    assert_eq!(parse("18446744073709551616"), None);
    assert_eq!(parse("99999999999999999999999"), None);
    assert_eq!(parse(""), None);
    assert_eq!(parse("+"), None);
    assert_eq!(parse("-1"), None);
    assert_eq!(parse("1 "), None);
    assert_eq!(parse("12a"), None);
}

#[test]
fn written_numbers_read_back() {
    for n in [0u64, 9, 10, 99, 100, 12345, u64::MAX - 1, u64::MAX] {
        assert_eq!(parse(&decimal_string(n)), Some(n));
        assert_eq!(decimal_string(n), n.to_string());
    }
}

#[test]
fn first_number_between_underscores() {
    assert_eq!(first_number_token(&to_chars("block_12_34"), '_'), Some(12));
    assert_eq!(first_number_token(&to_chars("7"), '_'), Some(7));
    assert_eq!(first_number_token(&to_chars("a__b"), '_'), None);
    assert_eq!(first_number_token(&to_chars(""), '_'), None);
    assert_eq!(first_number_token(&to_chars("x1_2y_3"), '_'), Some(3));
}

#[test]
fn words_between_white_space() {
    assert_eq!(split_whitespace("queued 5"), vec!["queued", "5"]);
    assert_eq!(split_whitespace("  a \t b\n"), vec!["a", "b"]);
    assert_eq!(split_whitespace("a\u{00a0}b\u{3000}c"), vec!["a", "b", "c"]);
    assert!(split_whitespace(" \n ").is_empty());
    let odd = "x\u{200b}y \u{2003}z";
    assert_eq!(split_whitespace(odd), odd.split_whitespace().collect::<Vec<_>>());
}

#[test]
fn characters_are_cut_out() {
    let chars = to_chars("añb");
    assert_eq!(from_chars(&chars, 1, 3), "ñb");
    assert_eq!(take_chars("ñandú", 2), "ña");
    assert_eq!(take_chars("ab", 6), "ab");
}

#[test]
fn bytes_are_written_in_hex() {
    assert_eq!(hex_string(&[0, 1, 0xab, 0xff]), "0001abff");
    assert_eq!(hex_string(&[]), "");
}
