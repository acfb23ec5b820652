use user_registry::error::{UserError, ValidationError};
use user_registry::string_map::StringMap;
use user_registry::text::{
    chars_of, contains_char, contains_ignore_case, contains_str, decimal_string, ends_with_char,
    is_blank_str, starts_with_char, str_eq,
};

#[test]
fn blank_means_only_whitespace() {
    assert!(is_blank_str(""));
    assert!(is_blank_str(" "));
    assert!(is_blank_str(" \t\r\n\u{a0}\u{3000}"));
    assert!(!is_blank_str(" a "));
    assert!(!is_blank_str("_"));
    for text in ["", "  ", "\u{2003}", " x", "\u{200b}"] {
        assert_eq!(is_blank_str(text), text.trim().is_empty());
    }
}

#[test]
fn characters_come_in_order() {
    assert_eq!(chars_of("añ€"), vec!['a', 'ñ', '€']);
    assert_eq!(chars_of(""), Vec::<char>::new());
}

#[test]
fn character_search() {
    assert!(contains_char("a@b", '@'));
    assert!(!contains_char("ab", '@'));
    assert!(!contains_char("", '@'));
    assert!(starts_with_char("@a", '@'));
    assert!(!starts_with_char("a@", '@'));
    assert!(!starts_with_char("", '@'));
    assert!(ends_with_char("a@", '@'));
    assert!(!ends_with_char("@a", '@'));
    assert!(!ends_with_char("", '@'));
    assert!(ends_with_char("é", 'é'));
}

#[test]
fn string_equality() {
    assert!(str_eq("", ""));
    assert!(str_eq("abc", "abc"));
    assert!(!str_eq("abc", "abd"));
    assert!(!str_eq("abc", "ab"));
}

#[test]
fn substring_search_agrees_with_std() {
    let cases = [
        ("", ""),
        ("abc", ""),
        ("", "a"),
        ("abc", "abc"),
        ("abc", "bc"),
        ("abc", "ab"),
        ("abc", "b"),
        ("abc", "ac"),
        ("abc", "abcd"),
        ("aab", "ab"),
        ("ñandú", "dú"),
        ("ñandú", "du"),
    ];
    for (hay, needle) in cases {
        assert_eq!(contains_str(hay, needle), hay.contains(needle));
    }
    assert!(contains_str("hello world", "o w"));
    assert!(!contains_str("hello world", "ow"));
}

#[test]
fn search_ignores_case() {
    assert!(contains_ignore_case("John Doe", "JOHN"));
    assert!(contains_ignore_case("JOHN DOE", "n d"));
    assert!(contains_ignore_case("John", ""));
    assert!(!contains_ignore_case("John", "Jon"));
    assert!(contains_ignore_case("ÄRGER", "ärg"));
    for (hay, needle) in [("Hello", "LL"), ("Hello", "lo w"), ("İstanbul", "i"), ("ΣΑΣ", "σας")] {
        assert_eq!(
            contains_ignore_case(hay, needle),
            hay.to_lowercase().contains(&needle.to_lowercase())
        );
    }
}

#[test]
fn decimal_rendering() {
    assert_eq!(decimal_string(0), "0");
    assert_eq!(decimal_string(7), "7");
    assert_eq!(decimal_string(10), "10");
    assert_eq!(decimal_string(151), "151");
    assert_eq!(decimal_string(1234567890), "1234567890");
    assert_eq!(decimal_string(u32::MAX), "4294967295");
    for n in [9u32, 99, 100, 101, 4000000000] {
        assert_eq!(decimal_string(n), n.to_string());
    }
}

#[test]
fn error_messages() {
    assert_eq!(
        ValidationError::EmptyField("name".to_string()).message(),
        "Field 'name' cannot be empty"
    );
    assert_eq!(
        ValidationError::InvalidEmail("x".to_string()).message(),
        "Invalid email format: x"
    );
    assert_eq!(ValidationError::InvalidAge(200).message(), "Invalid age: 200");
    assert_eq!(
        ValidationError::DuplicateEmail("a@b.c".to_string()).message(),
        "Email already exists: a@b.c"
    );
    assert_eq!(
        ValidationError::InvalidRole("root".to_string()).message(),
        "Invalid role: root"
    );
    assert_eq!(UserError::NotFound(42).message(), "User with id 42 not found");
    assert_eq!(
        UserError::Validation(ValidationError::InvalidAge(151)).message(),
        "Invalid age: 151"
    );
    let error = UserError::Validation(ValidationError::EmptyField("email".to_string()));
    assert_eq!(error.clone(), error);
}

#[test]
fn string_map_inserts_finds_and_removes() {
    let mut map: StringMap<u32> = StringMap::new();
    assert!(map.is_empty());
    assert_eq!(map.len(), 0);
    assert_eq!(map.insert("a".to_string(), 1), None);
    assert_eq!(map.insert("b".to_string(), 2), None);
    assert_eq!(map.insert("a".to_string(), 3), Some(1));
    assert_eq!(map.len(), 2);
    assert!(map.contains_key("a"));
    assert!(!map.contains_key("c"));
    assert_eq!(map.get("a"), Some(&3));
    assert_eq!(map.get("b"), Some(&2));
    assert_eq!(map.key_at(0), "a");
    assert_eq!(*map.value_at(0), 3);
    assert_eq!(map.key_at(1), "b");
    let copy = map.clone();
    assert_eq!(copy, map);
    assert_eq!(map.remove("c"), None);
    assert_eq!(map.remove("a"), Some(3));
    assert_eq!(map.remove("a"), None);
    assert_eq!(map.len(), 1);
    assert_eq!(map.get("b"), Some(&2));
    assert_eq!(copy.len(), 2);
}

#[test]
fn string_maps_are_equal_whatever_the_order() {
    let mut one: StringMap<String> = StringMap::new();
    one.insert("a".to_string(), "1".to_string());
    one.insert("b".to_string(), "2".to_string());
    let mut other: StringMap<String> = StringMap::new();
    other.insert("b".to_string(), "2".to_string());
    other.insert("a".to_string(), "1".to_string());
    assert_eq!(one, other);
    other.insert("a".to_string(), "3".to_string());
    assert_ne!(one, other);
    other.insert("a".to_string(), "1".to_string());
    other.insert("c".to_string(), "1".to_string());
    assert_ne!(one, other);
    assert_ne!(other, one);
    assert_eq!(StringMap::<u32>::new(), StringMap::<u32>::new());
}
