use lognarrator_client::string_map::StringMap;
use lognarrator_client::text::{
    chars_of, contains, i64_to_string, joined, replace_all, str_eq, string_of, u64_to_string,
};

fn replaced(text: &str, from: &str, to: &str) -> String {
    string_of(&replace_all(&chars_of(text), &chars_of(from), &chars_of(to)))
}

#[test]
fn chars_round_trip_through_strings() {
    let text = "héllo, wörld ✓";
    let chars = chars_of(text);
    assert_eq!(chars.len(), text.chars().count());
    assert_eq!(string_of(&chars), text);
}

#[test]
fn str_eq_compares_by_characters() {
    assert!(str_eq("abc", "abc"));
    assert!(!str_eq("abc", "abd"));
    assert!(!str_eq("abc", "ab"));
    assert!(str_eq("", ""));
}

#[test]
fn contains_is_substring_containment() {
    assert!(contains("an error occurred", "error"));
    assert!(contains("an error occurred", ""));
    assert!(contains("error", "error"));
    assert!(!contains("All good", "error"));
    assert!(!contains("err", "error"));
    assert!(contains("xxerrorerror", "rorerr"));
}

#[test]
fn replace_all_replaces_every_occurrence_left_to_right() {
    assert_eq!(replaced("a-b-c", "-", "+"), "a+b+c");
    assert_eq!(replaced("aaa", "aa", "b"), "ba");
    assert_eq!(replaced("abc", "x", "y"), "abc");
    assert_eq!(replaced("abc", "abc", ""), "");
    assert_eq!(replaced("${A}${A}", "${A}", "1"), "11");
}

#[test]
fn replace_all_with_empty_pattern_changes_nothing() {
    assert_eq!(replaced("abc", "", "-"), "abc");
}

#[test]
fn decimal_text_of_numbers() {
    assert_eq!(u64_to_string(0), "0");
    assert_eq!(u64_to_string(7), "7");
    assert_eq!(u64_to_string(1048576), "1048576");
    assert_eq!(u64_to_string(u64::MAX), "18446744073709551615");
    assert_eq!(i64_to_string(0), "0");
    assert_eq!(i64_to_string(-42), "-42");
    assert_eq!(i64_to_string(i64::MAX), "9223372036854775807");
    assert_eq!(i64_to_string(i64::MIN), "-9223372036854775808");
}

#[test]
fn joined_texts() {
    assert_eq!(joined("logs_", "2023"), "logs_2023");
    assert_eq!(joined("", ""), "");
}

#[test]
fn string_map_keeps_one_value_per_key() {
    let mut map = StringMap::new();
    assert_eq!(map.len(), 0);
    assert_eq!(map.insert("a".to_string(), "1".to_string()), None);
    assert_eq!(map.insert("b".to_string(), "2".to_string()), None);
    assert_eq!(map.insert("a".to_string(), "3".to_string()), Some("1".to_string()));
    assert_eq!(map.len(), 2);
    assert_eq!(map.get("a"), Some(&"3".to_string()));
    assert_eq!(map.get("b"), Some(&"2".to_string()));
    assert_eq!(map.get("c"), None);
    assert!(map.contains_key("a"));
    assert!(!map.contains_key("c"));
}

#[test]
fn string_map_remove_takes_the_key_out() {
    let mut map = StringMap::new();
    map.insert("a".to_string(), "1".to_string());
    map.insert("b".to_string(), "2".to_string());
    assert_eq!(map.remove("a"), Some("1".to_string()));
    assert_eq!(map.remove("a"), None);
    assert_eq!(map.len(), 1);
    assert_eq!(map.get("b"), Some(&"2".to_string()));
    assert_eq!(map.position("b"), Some(0));
    assert_eq!(map.key_at(0), "b");
    assert_eq!(map.value_at(0), "2");
}

#[test]
fn string_map_clone_is_independent() {
    let mut map = StringMap::new();
    map.insert("a".to_string(), "1".to_string());
    let mut copy = map.clone();
    copy.insert("a".to_string(), "2".to_string());
    assert_eq!(map.get("a"), Some(&"1".to_string()));
    assert_eq!(copy.get("a"), Some(&"2".to_string()));
}
