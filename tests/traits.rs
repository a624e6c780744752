use stringlet::{SlimStringlet, VarStringlet};

#[test]
fn traits_test_from_string() {
    let s: SlimStringlet<4> = String::from("hey").try_into().unwrap();
    assert_eq!(s.as_ref(), "hey");
}

#[test]
fn traits_test_from_long_str() {
    let s: VarStringlet<16> = "Rustacean".try_into().unwrap();
    assert_eq!(&s, "Rustacean");
}

#[test]
fn traits_test_from_str() {
    let s = SlimStringlet::<8>::try_from("hello").unwrap();
    assert_eq!(s.as_ref(), "hello");
}
