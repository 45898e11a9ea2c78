use dotnet_outdated::text::{decimal_string, push_decimal, same_text};

#[test]
fn decimal_of_single_digits() {
    assert_eq!(decimal_string(0), "0");
    assert_eq!(decimal_string(1), "1");
    assert_eq!(decimal_string(9), "9");
}

#[test]
fn decimal_of_longer_numbers() {
    assert_eq!(decimal_string(10), "10");
    assert_eq!(decimal_string(42), "42");
    assert_eq!(decimal_string(100), "100");
    assert_eq!(decimal_string(1234567890), "1234567890");
}

#[test]
fn decimal_of_the_largest_number() {
    assert_eq!(decimal_string(u64::MAX), "18446744073709551615");
    assert_eq!(decimal_string(u64::MAX), u64::MAX.to_string());
}

#[test]
fn decimal_agrees_with_the_standard_library() {
    let mut n: u64 = 0;
    while n < 2000 {
        assert_eq!(decimal_string(n), n.to_string());
        n += 1;
    }
}

#[test]
fn push_decimal_appends_behind_what_is_there() {
    let mut buf = String::from("depth=");
    push_decimal(&mut buf, 307);
    assert_eq!(buf, "depth=307");
}

#[test]
fn same_text_compares_characters() {
    assert!(same_text("", ""));
    assert!(same_text("Name", "Name"));
    assert!(!same_text("Name", "name"));
    assert!(!same_text("Name", "Names"));
    assert!(!same_text("Names", "Name"));
    assert!(same_text("gr\u{fc}n", "gr\u{fc}n"));
    assert!(!same_text("gr\u{fc}n", "grun"));
}
