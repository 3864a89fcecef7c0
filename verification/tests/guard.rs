use stockbot::guard::{has_bounded_digits, has_bounded_host, MAX_DIGIT_RUN, MAX_HOST_LEN};

#[test]
fn the_bounds() {
    assert_eq!(MAX_DIGIT_RUN, 32767);
    assert_eq!(MAX_HOST_LEN, 640);
}

#[test]
fn digits_in_a_row_are_counted() {
    assert!(has_bounded_digits(""));
    assert!(has_bounded_digits("no digits at all"));
    assert!(has_bounded_digits(&"1".repeat(MAX_DIGIT_RUN)));
    assert!(!has_bounded_digits(&"1".repeat(MAX_DIGIT_RUN + 1)));
    assert!(!has_bounded_digits(&(String::from("abc") + &"0".repeat(40_000) + "def")));
    assert!(!has_bounded_digits(&("x".repeat(70_000) + &"5".repeat(MAX_DIGIT_RUN + 1))));
}

#[test]
fn a_run_of_digits_ends_at_any_other_byte() {
    let half = "9".repeat(MAX_DIGIT_RUN);
    assert!(has_bounded_digits(&format!("{}.{}", half, half)));
    assert!(has_bounded_digits(&format!("{}e{}", half, half)));
    assert!(has_bounded_digits(&format!("{}é{} {}", half, half, half)));
    assert!(!has_bounded_digits(&format!("{}.{}0", half, half)));
    assert!(!has_bounded_digits(&format!("0{}.{}", half, half)));
    assert!(has_bounded_digits(&"0123456789,".repeat(10_000)));
}

#[test]
fn the_host_part_is_measured() {
    assert!(has_bounded_host(""));
    assert!(has_bounded_host("https://api.robinhood.com/fundamentals/AMD/"));
    assert!(has_bounded_host(&(String::from("http://") + &"a".repeat(MAX_HOST_LEN))));
    assert!(!has_bounded_host(&(String::from("http://") + &"a".repeat(MAX_HOST_LEN + 1))));
    assert!(has_bounded_host(&(String::from("http://") + &"a".repeat(MAX_HOST_LEN) + "/b")));
    assert!(!has_bounded_host(&(String::from("http://") + &"a".repeat(MAX_HOST_LEN + 1) + "?b")));
}

#[test]
fn the_host_part_ends_at_slash_backslash_query_and_fragment() {
    let long = "a".repeat(5000);
    for end in ["/", "\\", "?", "#"] {
        assert!(has_bounded_host(&format!("http://example.com{}{}", end, long)));
        assert!(!has_bounded_host(&format!("http://{}{}", long, end)));
    }
    assert!(!has_bounded_host(&format!("http://example.com:{}", long)));
    assert!(!has_bounded_host(&format!("http://example.com@{}", long)));
}

#[test]
fn the_host_part_begins_behind_the_first_colon_and_its_slashes() {
    let long = "a".repeat(5000);
    assert!(has_bounded_host(&long));
    assert!(has_bounded_host(&format!("//{}", long)));
    assert!(has_bounded_host(&format!("{}:", long)));
    assert!(has_bounded_host(&format!("{}://example.com/{}", long, long)));
    assert!(!has_bounded_host(&format!("http:{}", long)));
    assert!(!has_bounded_host(&format!("http:/{}", long)));
    assert!(!has_bounded_host(&format!("http:////\\\\\t\r\n//{}", long)));
    assert!(has_bounded_host(&format!("http:////\\\\\t\r\n//b/{}", long)));
    assert!(has_bounded_host("http:"));
    assert!(has_bounded_host("http://"));
    assert!(has_bounded_host(&format!("http:{}", "/".repeat(5000))));
}
