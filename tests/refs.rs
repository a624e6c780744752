use stringlet::{SlimStringlet, Stringlet, VarStringlet};

#[test]
fn test_deref() {
    let s = Stringlet::<3>::try_from("Abc").unwrap();
    assert!(s.contains('b'));
    let s = VarStringlet::<4>::try_from("Abc").unwrap();
    assert!(s.contains('b'));
    let s = SlimStringlet::<4>::try_from("Abc").unwrap();
    assert!(s.contains('b'));
}

#[test]
fn test_as_ref() {
    let s = Stringlet::<1>::try_from("A").unwrap();
    let s: &str = s.as_ref();
    assert_eq!(s, "A");
}
