use print_layout::text::{
    find_char, find_sub, str_contains, str_eq, str_starts_with, trim_copy, u32_to_string,
};

#[test]
fn test_u32_to_string() {
    assert_eq!(u32_to_string(0), "0");
    assert_eq!(u32_to_string(7), "7");
    assert_eq!(u32_to_string(10), "10");
    assert_eq!(u32_to_string(12345), "12345");
    assert_eq!(u32_to_string(4294967295), "4294967295");
}

#[test]
fn test_trim_copy() {
    assert_eq!(trim_copy("  hello \t "), "hello");
    assert_eq!(trim_copy("hello"), "hello");
    assert_eq!(trim_copy("   "), "");
    assert_eq!(trim_copy(""), "");
}

#[test]
fn test_str_predicates() {
    assert!(str_eq("abc", "abc"));
    assert!(!str_eq("abc", "abd"));
    assert!(!str_eq("abc", "ab"));
    assert!(str_starts_with("printer office", "printer "));
    assert!(!str_starts_with("print", "printer "));
    assert!(str_contains("a printer is idle", "idle"));
    assert!(!str_contains("a printer is busy", "idle"));
}

#[test]
fn test_find_functions() {
    assert_eq!(find_char("a:b:c", ':', 0), 1);
    assert_eq!(find_char("a:b:c", ':', 2), 3);
    assert_eq!(find_char("abc", ':', 0), 3);
    assert_eq!(find_sub("hello world", "world"), Some(6));
    assert_eq!(find_sub("hello world", "worlds"), None);
}
