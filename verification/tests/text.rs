use miniledger::text::{
    get_char_at, get_first_char, get_first_char_with_question_mark, get_second_char, str_eq,
    take_chars, u64_to_string,
};

#[test]
fn test_char_access() {
    let s = "Hello世界";
    assert_eq!(get_char_at(s, 0), Some('H'));
    assert_eq!(get_char_at(s, 5), Some('世'));
    assert_eq!(get_char_at(s, 10), None);
}

#[test]
fn test_take_chars() {
    let s = "Hello世界🦀";
    assert_eq!(take_chars(s, 3), "Hel");
    assert_eq!(take_chars(s, 6), "Hello世");
}

#[test]
fn take_chars_edges() {
    assert_eq!(take_chars("", 3), "");
    assert_eq!(take_chars("abc", 0), "");
    assert_eq!(take_chars("abc", 3), "abc");
    assert_eq!(take_chars("abc", 10), "abc");
}

#[test]
fn first_and_second_char() {
    assert_eq!(get_first_char("Hello"), Some('H'));
    assert_eq!(get_second_char("Hello"), Some('e'));
    assert_eq!(get_first_char_with_question_mark("Hello"), Some('H'));

    assert_eq!(get_first_char(""), None);
    assert_eq!(get_second_char(""), None);
    assert_eq!(get_first_char_with_question_mark(""), None);

    assert_eq!(get_first_char("x"), Some('x'));
    assert_eq!(get_second_char("x"), None);
}

#[test]
fn string_equality_by_characters() {
    assert!(str_eq("", ""));
    assert!(str_eq("Hello世界", "Hello世界"));
    assert!(!str_eq("Hello", "Hello世界"));
    assert!(!str_eq("abc", "abd"));
}

#[test]
fn decimal_rendering() {
    assert_eq!(u64_to_string(0), "0");
    assert_eq!(u64_to_string(7), "7");
    assert_eq!(u64_to_string(10), "10");
    assert_eq!(u64_to_string(470), "470");
    assert_eq!(u64_to_string(u64::MAX), "18446744073709551615");
}
