use webp_converter::greeting::greet;

#[test]
fn greets_a_name() {
    assert_eq!(greet("World"), "Hello, World! You've been greeted from Rust!");
}

#[test]
fn greets_the_empty_name() {
    assert_eq!(greet(""), "Hello, ! You've been greeted from Rust!");
}

#[test]
fn greets_a_name_outside_ascii() {
    assert_eq!(greet("世界"), "Hello, 世界! You've been greeted from Rust!");
}

#[test]
fn greeting_keeps_the_name_as_given() {
    assert_eq!(greet(" a  b "), "Hello,  a  b ! You've been greeted from Rust!");
}
