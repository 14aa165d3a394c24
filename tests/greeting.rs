use workout::greeting::greets;

#[test]
fn test_greets() {
    assert_eq!(greets("You"), String::from("Hello, You 🦀 !"));
}

#[test]
fn greets_empty_name() {
    assert_eq!(greets(""), String::from("Hello,  🦀 !"));
}
