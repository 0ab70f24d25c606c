use iot_fleet::text::{byte_list_text, i32_text, remove_all, same_text, u64_text};

#[test]
fn every_occurrence_is_taken_out_from_the_left() {
    assert_eq!(remove_all("a-b-c", "-"), "abc");
    assert_eq!(remove_all("aaa", "aa"), "a");
    assert_eq!(remove_all("aaaa", "aa"), "");
    assert_eq!(remove_all("abab", "ba"), "ab");
    assert_eq!(remove_all("abc", ""), "abc");
    assert_eq!(remove_all("", "x"), "");
    assert_eq!(remove_all("ab", "abc"), "ab");
    assert_eq!(remove_all("abc", "abc"), "");
    assert_eq!(remove_all("xabcx", "abc"), "xx");
    assert_eq!(remove_all("ñandú ñ", "ñ"), "andú ");
    assert_eq!(remove_all("aXbXXc", "X"), "abc");
    for (text, pattern) in [("Bearer Bearer x", "Bearer "), ("ababa", "aba"), ("éé", "é"), ("abcabc", "bc")] {
        assert_eq!(remove_all(text, pattern), text.replace(pattern, ""));
    }
}

#[test]
fn numbers_are_written_in_decimal() {
    assert_eq!(u64_text(0), "0");
    assert_eq!(u64_text(7), "7");
    assert_eq!(u64_text(10), "10");
    assert_eq!(u64_text(1_234_567_890), "1234567890");
    assert_eq!(u64_text(u64::MAX), "18446744073709551615");
    assert_eq!(i32_text(0), "0");
    assert_eq!(i32_text(-1), "-1");
    assert_eq!(i32_text(i32::MAX), "2147483647");
    assert_eq!(i32_text(i32::MIN), "-2147483648");
}

#[test]
fn bytes_are_listed_in_square_brackets() {
    let bytes = [0, 1, 22, 255, 4, 5];
    assert_eq!(byte_list_text(&bytes, 0), "[]");
    assert_eq!(byte_list_text(&bytes, 1), "[0]");
    assert_eq!(byte_list_text(&bytes, 4), "[0, 1, 22, 255]");
    assert_eq!(byte_list_text(&bytes, 6), "[0, 1, 22, 255, 4, 5]");
    assert_eq!(byte_list_text(&bytes, 6), format!("{:?}", &bytes[..6]));
}

#[test]
fn texts_are_the_same_when_their_characters_are() {
    assert!(same_text("", ""));
    assert!(same_text("é", "é"));
    assert!(!same_text("a", "A"));
    assert!(!same_text("a", "ab"));
}
