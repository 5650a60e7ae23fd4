use restaurant::text::{append_decimal, split_once_char};

fn decimal(n: i32) -> String {
    let mut s = String::new();
    append_decimal(n, &mut s);
    s
}

#[test]
fn decimal_rendering() {
    assert_eq!(decimal(0), "0");
    assert_eq!(decimal(7), "7");
    assert_eq!(decimal(10), "10");
    assert_eq!(decimal(4096), "4096");
    assert_eq!(decimal(-1), "-1");
    assert_eq!(decimal(-305), "-305");
    assert_eq!(decimal(i32::MAX), "2147483647");
    assert_eq!(decimal(i32::MIN), "-2147483648");
}

#[test]
fn decimal_appends() {
    let mut s = "id=".to_string();
    append_decimal(42, &mut s);
    assert_eq!(s, "id=42");
}

#[test]
fn split_at_first_occurrence() {
    assert_eq!(split_once_char("a:b:c", ':'), Some(("a".to_string(), "b:c".to_string())));
    assert_eq!(split_once_char(":x", ':'), Some(("".to_string(), "x".to_string())));
    assert_eq!(split_once_char("x:", ':'), Some(("x".to_string(), "".to_string())));
    assert_eq!(split_once_char("\u{e9}t\u{e9} x", ' '), Some(("\u{e9}t\u{e9}".to_string(), "x".to_string())));
    assert_eq!(split_once_char("none", ':'), None);
    assert_eq!(split_once_char("", ':'), None);
}
