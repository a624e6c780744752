use stringlet::{SlimStringlet, Stringlet, TrimStringlet, VarStringlet};

#[test]
fn test_new() {
    let s = Stringlet::<0>::new();
    assert!(s.is_empty());
    let s = TrimStringlet::<0>::new();
    assert!(s.is_empty());
    let s = TrimStringlet::<1>::new();
    assert!(s.is_empty());
    let s = VarStringlet::<8>::new();
    assert!(s.is_empty());
    let s = SlimStringlet::<8>::new();
    assert!(s.is_empty());
}

#[test]
fn test_default() {
    let s: Stringlet<0> = Default::default();
    assert!(s.is_empty());
    let s: TrimStringlet<0> = Default::default();
    assert!(s.is_empty());
    let s: TrimStringlet<1> = Default::default();
    assert!(s.is_empty());
    let s: VarStringlet<16> = Default::default();
    assert!(s.is_empty());
    let s: SlimStringlet<16> = Default::default();
    assert!(s.is_empty());
}
