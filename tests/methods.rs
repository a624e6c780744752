use stringlet::{
    ConfigBase, Fixed, Slim, SlimStringlet, Stringlet, TrimStringlet, Var, VarStringlet,
};

#[test]
fn test_big() {
    let _f: Stringlet<64>;
    let _v: VarStringlet<255>;
    let _s: SlimStringlet<64>;
}

#[test]
fn test_as_str() {
    let f: Stringlet<7> = "A123456".try_into().unwrap();
    assert_eq!(f.as_str(), "A123456");
    let v: VarStringlet<16> = "A123456".try_into().unwrap();
    assert_eq!(v.as_str(), "A123456");
    let s: SlimStringlet<16> = "A123456".try_into().unwrap();
    assert_eq!(s.as_str(), "A123456");
}

#[test]
fn test_const() {
    let abcd = Stringlet::<4>::from_utf8_bytes_unchecked([b'A', b'b', b'c', b'd']);
    assert_eq!(&abcd, "Abcd");
    let a123456 = Stringlet::<7>::from_str_unchecked("A123456");
    assert_eq!(&a123456, "A123456");
}

fn all_lengths<const SIZE: usize>()
where
    Stringlet<SIZE>: ConfigBase<Fixed, SIZE, 0>,
    VarStringlet<SIZE>: ConfigBase<Var, SIZE, 1>,
    SlimStringlet<SIZE>: ConfigBase<Slim, SIZE, 0>,
{
    const STR64: &str = "0123456789_123456789_123456789_123456789_123456789_123456789_123";
    for len in 0..=SIZE {
        let str = VarStringlet::<SIZE>::from_str(&STR64[..len]).unwrap();
        assert_eq!(str.is_empty(), len == 0);
        assert_eq!(str.len(), len);
        let str = SlimStringlet::<SIZE>::from_str(&STR64[..len]).unwrap();
        assert_eq!(str.is_empty(), len == 0);
        assert_eq!(str.len(), len);
    }
    let fixed = Stringlet::<SIZE>::from_str(&STR64[..SIZE]).unwrap();
    assert_eq!(fixed.is_empty(), SIZE == 0);
    assert_eq!(fixed.len(), SIZE);
}

#[test]
fn test_len() {
    all_lengths::<0>();
    all_lengths::<1>();
    all_lengths::<2>();
    all_lengths::<3>();
    all_lengths::<4>();
    all_lengths::<5>();
    all_lengths::<6>();
    all_lengths::<7>();
    all_lengths::<8>();
    all_lengths::<9>();
    all_lengths::<10>();
    all_lengths::<11>();
    all_lengths::<12>();
    all_lengths::<13>();
    all_lengths::<14>();
    all_lengths::<15>();
    all_lengths::<16>();
    all_lengths::<17>();
    all_lengths::<18>();
    all_lengths::<19>();
    all_lengths::<20>();
    all_lengths::<21>();
    all_lengths::<22>();
    all_lengths::<23>();
    all_lengths::<24>();
    all_lengths::<25>();
    all_lengths::<26>();
    all_lengths::<27>();
    all_lengths::<28>();
    all_lengths::<29>();
    all_lengths::<30>();
    all_lengths::<31>();
    all_lengths::<32>();
    all_lengths::<33>();
    all_lengths::<34>();
    all_lengths::<35>();
    all_lengths::<36>();
    all_lengths::<37>();
    all_lengths::<38>();
    all_lengths::<39>();
    all_lengths::<40>();
    all_lengths::<41>();
    all_lengths::<42>();
    all_lengths::<43>();
    all_lengths::<44>();
    all_lengths::<45>();
    all_lengths::<46>();
    all_lengths::<47>();
    all_lengths::<48>();
    all_lengths::<49>();
    all_lengths::<50>();
    all_lengths::<51>();
    all_lengths::<52>();
    all_lengths::<53>();
    all_lengths::<54>();
    all_lengths::<55>();
    all_lengths::<56>();
    all_lengths::<57>();
    all_lengths::<58>();
    all_lengths::<59>();
    all_lengths::<60>();
    all_lengths::<61>();
    all_lengths::<62>();
    all_lengths::<63>();
    all_lengths::<64>();
}

#[test]
fn test_empty() {
    assert!(Stringlet::<0>::from_str("").unwrap().is_empty());
    assert!(!Stringlet::<1>::from_str("a").unwrap().is_empty());
    assert!(!Stringlet::<2>::from_str("ab").unwrap().is_empty());

    assert!(VarStringlet::<0>::from_str("").unwrap().is_empty());
    assert!(VarStringlet::<1>::from_str("").unwrap().is_empty());
    assert!(VarStringlet::<2>::from_str("").unwrap().is_empty());
    assert!(!VarStringlet::<1>::from_str("a").unwrap().is_empty());
    assert!(!VarStringlet::<2>::from_str("ab").unwrap().is_empty());

    assert!(SlimStringlet::<0>::from_str("").unwrap().is_empty());
    assert!(SlimStringlet::<1>::from_str("").unwrap().is_empty());
    assert!(SlimStringlet::<2>::from_str("").unwrap().is_empty());
    assert!(!SlimStringlet::<1>::from_str("a").unwrap().is_empty());
    assert!(!SlimStringlet::<2>::from_str("ab").unwrap().is_empty());
}

fn names<const SIZE: usize>()
where
    Stringlet<SIZE>: ConfigBase<Fixed, SIZE, 0>,
    VarStringlet<SIZE>: ConfigBase<Var, SIZE, 1>,
    SlimStringlet<SIZE>: ConfigBase<Slim, SIZE, 0>,
{
    assert_eq!(format!("Stringlet<{SIZE}>"), Stringlet::<SIZE>::type_label());
    assert_eq!(format!("VarStringlet<{SIZE}>"), VarStringlet::<SIZE>::type_label());
    assert_eq!(format!("SlimStringlet<{SIZE}>"), SlimStringlet::<SIZE>::type_label());
}

#[test]
fn test_all_type_names() {
    names::<0>();
    names::<1>();
    names::<2>();
    names::<3>();
    names::<4>();
    names::<5>();
    names::<6>();
    names::<7>();
    names::<8>();
    names::<9>();
    names::<10>();
    names::<11>();
    names::<12>();
    names::<13>();
    names::<14>();
    names::<15>();
    names::<17>();
    names::<18>();
    names::<19>();
    names::<20>();
    names::<21>();
    names::<22>();
    names::<23>();
    names::<24>();
    names::<25>();
    names::<26>();
    names::<27>();
    names::<28>();
    names::<29>();
    names::<30>();
    names::<31>();
    names::<32>();
    names::<33>();
    names::<34>();
    names::<35>();
    names::<36>();
    names::<37>();
    names::<38>();
    names::<39>();
    names::<40>();
    names::<41>();
    names::<42>();
    names::<43>();
    names::<44>();
    names::<45>();
    names::<46>();
    names::<47>();
    names::<48>();
    names::<49>();
    names::<50>();
    names::<51>();
    names::<52>();
    names::<53>();
    names::<54>();
    names::<55>();
    names::<56>();
    names::<57>();
    names::<58>();
    names::<59>();
    names::<60>();
    names::<61>();
    names::<62>();
    names::<63>();
    names::<64>();
}

#[test]
fn type_labels_of_every_kind() {
    assert_eq!(Stringlet::<16>::type_label(), "Stringlet<16>");
    assert_eq!(TrimStringlet::<7>::type_label(), "TrimStringlet<7>");
    assert_eq!(VarStringlet::<255>::type_label(), "VarStringlet<255>");
    assert_eq!(VarStringlet::<100>::type_label(), "VarStringlet<100>");
    assert_eq!(SlimStringlet::<0>::type_label(), "SlimStringlet<0>");
}
