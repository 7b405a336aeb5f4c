use diff_grep::text::{cut, numeral, same_text, trim};

#[test]
fn numeral_of_zero() {
    assert_eq!(numeral(0), "0");
}

#[test]
fn numeral_of_single_digits() {
    assert_eq!(numeral(7), "7");
    assert_eq!(numeral(9), "9");
}

#[test]
fn numeral_of_round_numbers() {
    assert_eq!(numeral(10), "10");
    assert_eq!(numeral(100), "100");
    assert_eq!(numeral(1000000), "1000000");
}

#[test]
fn numeral_of_every_digit() {
    assert_eq!(numeral(1234567890), "1234567890");
}

#[test]
fn numeral_of_the_largest_number() {
    assert_eq!(numeral(u32::MAX), "4294967295");
}

#[test]
fn numeral_agrees_with_the_standard_library() {
    let mut n: u32 = 1;
    while n < 1_000_000_000 {
        assert_eq!(numeral(n), n.to_string());
        assert_eq!(numeral(n - 1), (n - 1).to_string());
        n = n * 7 + 3;
    }
}

#[test]
fn trim_takes_both_ends_away() {
    assert_eq!(trim("  foo bar \t\n"), "foo bar");
}

#[test]
fn trim_leaves_inner_whitespace() {
    assert_eq!(trim("a  b"), "a  b");
}

#[test]
fn trim_of_whitespace_is_empty() {
    assert_eq!(trim(" \t \r\n"), "");
    assert_eq!(trim(""), "");
}

#[test]
fn trim_knows_wide_whitespace() {
    assert_eq!(trim("\u{3000}x\u{a0}"), "x");
}

#[test]
fn cut_in_the_middle() {
    assert_eq!(cut("some needle here", 5, 11), ("some ", "needle", " here"));
}

#[test]
fn cut_at_the_ends() {
    assert_eq!(cut("needle", 0, 6), ("", "needle", ""));
    assert_eq!(cut("needle", 0, 0), ("", "", "needle"));
    assert_eq!(cut("needle", 6, 6), ("needle", "", ""));
}

#[test]
fn cut_counts_bytes() {
    // each of the two letters before the match takes two bytes
    assert_eq!(cut("éé needle", 5, 11), ("éé ", "needle", ""));
}

#[test]
fn same_text_compares_characters() {
    assert!(same_text("auto", "auto"));
    assert!(same_text("", ""));
    assert!(!same_text("auto", "Auto"));
    assert!(!same_text("auto", "aut"));
    assert!(!same_text("auto", "autos"));
    assert!(same_text("héllo", "héllo"));
    assert!(!same_text("héllo", "hèllo"));
}
