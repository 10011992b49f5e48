use rcloud::strs::{fields_of, find_slash, sort_strings, split_lines, str_contains, str_le_exec, u64_to_dec};

#[test]
fn test_str_contains() {
    assert!(str_contains("debian-nocloud.raw", "nocloud"));
    assert!(str_contains("abc", ""));
    assert!(str_contains("abc", "abc"));
    assert!(!str_contains("abc", "abcd"));
    assert!(!str_contains("mississippi", "ssia"));
    assert!(str_contains("mississippi", "ssis"));
}

#[test]
fn test_u64_to_dec() {
    assert_eq!(u64_to_dec(0), "0");
    assert_eq!(u64_to_dec(7), "7");
    assert_eq!(u64_to_dec(2048), "2048");
    assert_eq!(u64_to_dec(10), "10");
    assert_eq!(u64_to_dec(18446744073709551615), "18446744073709551615");
}

#[test]
fn test_split_lines() {
    let parts = split_lines("a\nb\n\nc");
    assert_eq!(parts, vec!["a", "b", "", "c"]);
    let parts = split_lines("one\n");
    assert_eq!(parts, vec!["one", ""]);
    let parts = split_lines("");
    assert_eq!(parts, vec![""]);
}

#[test]
fn test_fields_of() {
    let fields = fields_of(" vnet0      52:54:00:aa:bb:cc    ipv4         192.168.122.100/24");
    assert_eq!(fields, vec!["vnet0", "52:54:00:aa:bb:cc", "ipv4", "192.168.122.100/24"]);
    assert_eq!(fields_of(""), Vec::<String>::new());
    assert_eq!(fields_of("  \t "), Vec::<String>::new());
}

#[test]
fn test_find_slash() {
    assert_eq!(find_slash("192.168.122.100/24"), 15);
    assert_eq!(find_slash("10.0.0.1"), 8);
}

#[test]
fn test_str_le_exec() {
    assert!(str_le_exec("a", "b"));
    assert!(str_le_exec("a", "ab"));
    assert!(!str_le_exec("ab", "a"));
    assert!(str_le_exec("", "a"));
    assert!(str_le_exec("abc", "abc"));
    assert!(!str_le_exec("b", "ab"));
}

#[test]
fn test_sort_strings() {
    let sorted = sort_strings(vec![
        "pear".to_string(),
        "apple".to_string(),
        "orange".to_string(),
        "apple".to_string(),
    ]);
    assert_eq!(
        sorted,
        vec!["apple".to_string(), "apple".to_string(), "orange".to_string(), "pear".to_string()]
    );
    assert_eq!(sort_strings(vec![]), Vec::<String>::new());
}
