use stringlet::{SlimStringlet, VarStringlet, Stringlet};

#[test]
fn impl_for_test_from_string() {
    let s: SlimStringlet<4> = String::from("hey").try_into().unwrap();
    assert_eq!(s.as_ref(), "hey");
}

#[test]
fn impl_for_test_from_long_str() {
    let s: VarStringlet<16> = "Rustacean".try_into().unwrap();
    assert_eq!(&s, "Rustacean");
}

#[test]
fn impl_for_test_from_str() {
    let s = SlimStringlet::<8>::try_from("hello").unwrap();
    assert_eq!(s.as_ref(), "hello");
}

#[test]
fn impl_for_test_eq() {
    let s_x_1 = VarStringlet::<1>::try_from("x").unwrap();
    let s_x_2 = VarStringlet::<1>::try_from("x").unwrap();
    let s_y = VarStringlet::<1>::try_from("y").unwrap();
    let s2_x = VarStringlet::<2>::try_from("x").unwrap();
    let s2_y = VarStringlet::<2>::try_from("y").unwrap();
    let s2_xy = VarStringlet::<2>::try_from("xy").unwrap();

    let f_x_1 = Stringlet::<1>::try_from("x").unwrap();
    let f_x_2 = Stringlet::<1>::try_from("x").unwrap();
    let f_y = Stringlet::<1>::try_from("y").unwrap();
    let f2_xy = Stringlet::<2>::try_from("xy").unwrap();

    assert_eq!(s_x_1, s_x_2);
    assert_eq!(s_x_2, s2_x);
    assert_eq!(s2_x, f_x_1);
    assert_eq!(f_x_1, f_x_2);
    assert_eq!(s_y, s2_y);
    assert_eq!(s2_y, f_y);
    assert_eq!(s2_xy, f2_xy);

    assert_ne!(s_x_1, s_y);
    assert_ne!(s_x_1, s2_y);
    assert_ne!(s2_y, s_x_1);
    assert_ne!(s_x_1, s2_xy);
    assert_ne!(s2_xy, s_x_1);

    assert_ne!(s_x_1, f_y);
    assert_ne!(s_x_1, f2_xy);
    assert_ne!(f2_xy, s_x_1);
}
