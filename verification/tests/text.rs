use crab_dlna::text::{chars_of, contains, decimal_string, join};

#[test]
fn decimal_of_zero_is_one_digit() {
    assert_eq!(decimal_string(0), "0");
}

#[test]
fn decimal_of_single_digits() {
    assert_eq!(decimal_string(7), "7");
    assert_eq!(decimal_string(9), "9");
}

#[test]
fn decimal_has_no_leading_zero() {
    assert_eq!(decimal_string(10), "10");
    assert_eq!(decimal_string(9000), "9000");
    assert_eq!(decimal_string(1234567890), "1234567890");
}

#[test]
fn decimal_of_the_largest_number() {
    assert_eq!(decimal_string(u64::MAX), "18446744073709551615");
    assert_eq!(decimal_string(u64::MAX), u64::MAX.to_string());
}

#[test]
fn chars_of_text_in_order() {
    assert_eq!(chars_of("a.ü"), vec!['a', '.', 'ü']);
    assert_eq!(chars_of(""), Vec::<char>::new());
}

#[test]
fn contains_finds_a_word_in_the_middle() {
    assert!(contains("[type] Kodi (living room) @ http://host/", "Kodi"));
}

#[test]
fn contains_finds_at_both_ends() {
    assert!(contains("Kodi and more", "Kodi"));
    assert!(contains("more and Kodi", "Kodi"));
    assert!(contains("Kodi", "Kodi"));
}

#[test]
fn contains_tells_letter_case_apart() {
    assert!(!contains("a kodi box", "Kodi"));
    assert!(!contains("a KODI box", "Kodi"));
}

#[test]
fn contains_empty_needle_everywhere() {
    assert!(contains("anything", ""));
    assert!(contains("", ""));
}

#[test]
fn contains_needle_longer_than_hay() {
    assert!(!contains("Kod", "Kodi"));
    assert!(!contains("", "K"));
}

#[test]
fn contains_after_a_false_start() {
    assert!(contains("KoKodi", "Kodi"));
    assert!(contains("aab", "ab"));
    assert!(!contains("abab", "abb"));
}

#[test]
fn contains_agrees_with_std() {
    let hays = ["", "a", "ab", "aba", "abab", "Kodi", "xKodix", "ünïcödé"];
    let needles = ["", "a", "b", "ab", "ba", "Kodi", "ö", "zz"];
    for hay in hays {
        for needle in needles {
            assert_eq!(contains(hay, needle), hay.contains(needle));
        }
    }
}

#[test]
fn join_writes_parts_in_a_row() {
    assert_eq!(join(&vec!["a", "", "bc", "d"]), "abcd");
    assert_eq!(join(&Vec::new()), "");
}
