use userror::location::{annotate, decimal_string, location};

#[test]
fn location_tag() {
    assert_eq!(location("foo.rs", 42), "foo.rs:42");
}

#[test]
fn annotated_message() {
    assert_eq!(annotate("foo.rs", 42, "hello"), "foo.rs:42: hello");
}

#[test]
fn annotated_format() {
    assert_eq!(
        annotate("foo.rs", 42, &format!("value={}", 5)),
        "foo.rs:42: value=5"
    );
    assert_eq!(
        annotate("foo.rs", 42, &format!("{:?} {{}} {:>3}", "a", 7)),
        "foo.rs:42: \"a\" {}   7"
    );
}

#[test]
fn decimal_numbers() {
    assert_eq!(decimal_string(0), "0");
    assert_eq!(decimal_string(7), "7");
    assert_eq!(decimal_string(10), "10");
    assert_eq!(decimal_string(1203), "1203");
    assert_eq!(decimal_string(u32::MAX), "4294967295");
}
