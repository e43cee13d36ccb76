use battery_deck::text::{
    chars_of, decimal_string, find_exec, parse_i32, parse_u32, parse_u8, split_lines, split_tokens,
    trim_chars, trim_end_non_digit_chars, trim_start_chars,
};

fn s(v: &[char]) -> String {
    v.iter().collect()
}

#[test]
fn trims_unicode_whitespace() {
    let v = chars_of("\u{3000}\t  Model Name: Mac \r\n");
    assert_eq!(s(&trim_chars(&v)), "Model Name: Mac");
    assert_eq!(s(&trim_start_chars(&v)), "Model Name: Mac \r\n");
    assert_eq!(s(&trim_chars(&chars_of("   "))), "");
}

#[test]
fn splits_lines_like_str_lines() {
    let text = "a\r\nb\n\nc\r";
    let got: Vec<String> = split_lines(&chars_of(text)).iter().map(|l| s(l)).collect();
    let want: Vec<String> = text.lines().map(|l| l.to_string()).collect();
    assert_eq!(got, want);
    assert!(split_lines(&chars_of("")).is_empty());
    assert_eq!(split_lines(&chars_of("x\n")).len(), 1);
}

#[test]
fn splits_tokens_like_split_whitespace() {
    let text = "  -InternalBattery-0 (id=1)\t85%;  charging ";
    let got: Vec<String> = split_tokens(&chars_of(text)).iter().map(|l| s(l)).collect();
    let want: Vec<String> = text.split_whitespace().map(|l| l.to_string()).collect();
    assert_eq!(got, want);
}

#[test]
fn parses_numbers_like_from_str() {
    assert_eq!(parse_u32(&chars_of("4294967295")), Some(u32::MAX));
    assert_eq!(parse_u32(&chars_of("4294967296")), None);
    assert_eq!(parse_u32(&chars_of("+12")), Some(12));
    assert_eq!(parse_u32(&chars_of("-1")), None);
    assert_eq!(parse_u32(&chars_of("")), None);
    assert_eq!(parse_u32(&chars_of("+")), None);
    assert_eq!(parse_u32(&chars_of("12.5")), None);
    assert_eq!(parse_u8(&chars_of("255")), Some(255));
    assert_eq!(parse_u8(&chars_of("256")), None);
    assert_eq!(parse_i32(&chars_of("-2147483648")), Some(i32::MIN));
    assert_eq!(parse_i32(&chars_of("-2147483649")), None);
    assert_eq!(parse_i32(&chars_of("2147483647")), Some(i32::MAX));
    assert_eq!(parse_i32(&chars_of("-")), None);
    assert_eq!(parse_i32(&chars_of("-0")), Some(0));
}

#[test]
fn trims_trailing_non_digits() {
    assert_eq!(s(&trim_end_non_digit_chars(&chars_of("85%;"))), "85");
    assert_eq!(s(&trim_end_non_digit_chars(&chars_of("%;"))), "");
}

#[test]
fn finds_first_occurrence() {
    assert_eq!(find_exec(&chars_of("abcabc"), &chars_of("ca")), Some(2));
    assert_eq!(find_exec(&chars_of("abc"), &chars_of("d")), None);
    assert_eq!(find_exec(&chars_of("abc"), &chars_of("")), Some(0));
}

#[test]
fn prints_decimal() {
    assert_eq!(decimal_string(0), "0");
    assert_eq!(decimal_string(4294967295), "4294967295");
}
