use google_image_dl::text::{append_decimal, append_percent_encoded, chars_of, percent_encode};

#[test]
fn chars_of_keeps_every_character_in_order() {
    assert_eq!(chars_of("a.b?c"), vec!['a', '.', 'b', '?', 'c']);
    assert_eq!(chars_of("né"), vec!['n', 'é']);
    assert_eq!(chars_of(""), Vec::<char>::new());
}

#[test]
fn decimal_of_zero_is_a_single_digit() {
    let mut text = String::new();
    append_decimal(&mut text, 0);
    assert_eq!(text, "0");
}

#[test]
fn decimal_has_no_leading_zero() {
    let mut text = String::new();
    append_decimal(&mut text, 7);
    assert_eq!(text, "7");
    let mut text = String::new();
    append_decimal(&mut text, 10);
    assert_eq!(text, "10");
    let mut text = String::new();
    append_decimal(&mut text, 1005);
    assert_eq!(text, "1005");
}

#[test]
fn decimal_of_the_largest_number() {
    let mut text = String::new();
    append_decimal(&mut text, u64::MAX);
    assert_eq!(text, "18446744073709551615");
}

#[test]
fn decimal_is_appended_behind_what_is_there() {
    let mut text = String::from("start=");
    append_decimal(&mut text, 11);
    assert_eq!(text, "start=11");
}

#[test]
fn decimal_agrees_with_the_standard_formatting() {
    for n in [0u64, 1, 9, 10, 99, 100, 12345, 4294967296, u64::MAX - 1] {
        let mut text = String::new();
        append_decimal(&mut text, n);
        assert_eq!(text, format!("{}", n));
    }
}

#[test]
fn unreserved_characters_are_kept() {
    assert_eq!(percent_encode("hedgehog"), "hedgehog");
    assert_eq!(percent_encode("AZaz09-._~"), "AZaz09-._~");
}

#[test]
fn separators_are_escaped() {
    assert_eq!(percent_encode("cute hedgehog"), "cute%20hedgehog");
    assert_eq!(percent_encode("a&b=c"), "a%26b%3Dc");
    assert_eq!(percent_encode("50%"), "50%25");
    assert_eq!(percent_encode("a+b"), "a%2Bb");
    assert_eq!(percent_encode("x#y?z/w"), "x%23y%3Fz%2Fw");
}

#[test]
fn bytes_next_to_the_unreserved_ranges_are_escaped() {
    assert_eq!(percent_encode("/:@[`{"), "%2F%3A%40%5B%60%7B");
    assert_eq!(percent_encode("\u{0}\u{7f}"), "%00%7F");
}

#[test]
fn other_scripts_are_escaped_byte_by_byte() {
    assert_eq!(percent_encode("é"), "%C3%A9");
    assert_eq!(percent_encode("ハリネズミ"), "%E3%83%8F%E3%83%AA%E3%83%8D%E3%82%BA%E3%83%9F");
    assert_eq!(percent_encode("🦔"), "%F0%9F%A6%94");
}

#[test]
fn empty_text_encodes_to_nothing() {
    assert_eq!(percent_encode(""), "");
}

#[test]
fn encoded_text_is_url_safe() {
    let encoded = percent_encode("q=1&r=2 #frag/é?");
    assert!(encoded
        .chars()
        .all(|c| c.is_ascii_alphanumeric() || "-._~%".contains(c)));
}

#[test]
fn encoding_is_appended_behind_what_is_there() {
    let mut text = String::from("&q=");
    append_percent_encoded(&mut text, "a b");
    assert_eq!(text, "&q=a%20b");
}
