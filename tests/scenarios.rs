use std::cmp::Ordering;
use stringlet::{
    FromBytesError, LengthError, SlimStringlet, Stringlet, TrimStringlet, VarStringlet, TAG,
};

#[test]
fn fixed_three_aha() {
    let s = Stringlet::<3>::from_str("aha").unwrap();
    assert_eq!(s.len(), 3);
    assert_eq!(s.as_str(), "aha");
    assert_eq!(s.as_bytes(), b"aha");
}

#[test]
fn var_five_empty() {
    let s = VarStringlet::<5>::from_str("").unwrap();
    assert!(s.is_empty());
    assert_eq!(s.len(), 0);
}

#[test]
fn slim_four_ab_tags_tail() {
    let s = SlimStringlet::<4>::from_str("ab").unwrap();
    assert_eq!(s.len(), 2);
    assert_eq!(s.last(), TAG | 2);
    assert_eq!(s.last(), 0b11_000010);
    assert_eq!(s.as_str(), "ab");
}

#[test]
fn fixed_three_refuses_five_bytes() {
    let r = Stringlet::<3>::from_str("hello");
    assert_eq!(r.unwrap_err(), LengthError { len: 5, capacity: 3 });
}

#[test]
fn slim_xy_equals_var_xy() {
    let a = SlimStringlet::<2>::from_str("xy").unwrap();
    let b = VarStringlet::<3>::from_str("xy").unwrap();
    assert!(a == b);
    assert!(b == a);
}

#[test]
fn fixed_x_before_fixed_xy() {
    let a = Stringlet::<1>::from_str("x").unwrap();
    let b = Stringlet::<2>::from_str("xy").unwrap();
    assert!(a != b);
    assert!(a < b);
    assert_eq!(a.partial_cmp(&b), Some(Ordering::Less));
    assert_eq!(b.partial_cmp(&a), Some(Ordering::Greater));
}

#[test]
fn x_equal_across_configurations() {
    let a = VarStringlet::<1>::from_str("x").unwrap();
    let b = SlimStringlet::<2>::from_str("x").unwrap();
    let c = TrimStringlet::<2>::from_str("x").unwrap();
    let d = Stringlet::<1>::from_str("x").unwrap();
    assert!(a == b && b == c && c == d && d == a);
    assert!(a == "x" && b == "x" && c == "x" && d == "x");
    assert!(a == String::from("x"));
    assert!(b != "y");
}

#[test]
fn capacity_zero_holds_only_empty() {
    assert!(Stringlet::<0>::from_str("").unwrap().is_empty());
    assert!(VarStringlet::<0>::from_str("").unwrap().is_empty());
    assert!(TrimStringlet::<0>::from_str("").unwrap().is_empty());
    assert!(SlimStringlet::<0>::from_str("").unwrap().is_empty());
    assert_eq!(Stringlet::<0>::from_str("a").unwrap_err(), LengthError { len: 1, capacity: 0 });
    assert_eq!(VarStringlet::<0>::from_str("a").unwrap_err(), LengthError { len: 1, capacity: 0 });
    assert_eq!(TrimStringlet::<0>::from_str("a").unwrap_err(), LengthError { len: 1, capacity: 0 });
    assert_eq!(SlimStringlet::<0>::from_str("a").unwrap_err(), LengthError { len: 1, capacity: 0 });
}

#[test]
fn slim_sixty_four_empty_and_full() {
    let full = "0123456789_123456789_123456789_123456789_123456789_123456789_123";
    let e = SlimStringlet::<64>::from_str("").unwrap();
    assert!(e.is_empty());
    assert_eq!(e.len(), 0);
    assert_eq!(e.last(), TAG);
    let f = SlimStringlet::<64>::from_str(full).unwrap();
    assert!(!f.is_empty());
    assert_eq!(f.len(), 64);
    assert_eq!(f.as_str(), full);
    let g = SlimStringlet::<64>::from_str(&full[..1]).unwrap();
    assert_eq!(g.len(), 1);
    assert_eq!(g.last(), TAG | 63);
}

#[test]
fn trim_lengths() {
    assert_eq!(TrimStringlet::<3>::from_str("abc").unwrap().len(), 3);
    assert_eq!(TrimStringlet::<3>::from_str("ab").unwrap().len(), 2);
    assert_eq!(TrimStringlet::<3>::from_str("a").unwrap_err(), LengthError { len: 1, capacity: 3 });
    assert_eq!(TrimStringlet::<1>::from_str("").unwrap().len(), 0);
    assert_eq!(TrimStringlet::<3>::from_str("ab").unwrap().last(), TAG | 1);
}

#[test]
fn var_largest_capacity() {
    let long = "é".repeat(127) + "a";
    assert_eq!(long.len(), 255);
    let v = VarStringlet::<255>::from_str(&long).unwrap();
    assert_eq!(v.len(), 255);
    assert_eq!(v.as_str(), long);
    let w = VarStringlet::<255>::from_str(&long[..2]).unwrap();
    assert_eq!(w.len(), 2);
    assert_eq!(w.as_str(), "é");
    assert!(VarStringlet::<255>::from_str(&(long.clone() + "b")).is_err());
}

#[test]
fn multibyte_content_keeps_its_length() {
    let s = SlimStringlet::<8>::from_str("né").unwrap();
    assert_eq!(s.len(), 3);
    assert_eq!(s.as_str(), "né");
    let t = SlimStringlet::<3>::from_str("né").unwrap();
    assert_eq!(t.len(), 3);
    assert!(s == t);
}

#[test]
fn from_bytes_errors() {
    assert_eq!(VarStringlet::<4>::from_utf8(&[0xff]).unwrap_err(), FromBytesError::Encoding);
    assert_eq!(
        VarStringlet::<2>::from_utf8(b"abc").unwrap_err(),
        FromBytesError::Length(LengthError { len: 3, capacity: 2 })
    );
    assert_eq!(Stringlet::<2>::from_utf8_bytes([0xc3, 0x28]).unwrap_err(), FromBytesError::Encoding);
    let ok = VarStringlet::<4>::from_utf8("é".as_bytes()).unwrap();
    assert_eq!(ok.as_str(), "é");
    assert_eq!(ok.len(), 2);
    let arr = SlimStringlet::<2>::from_utf8_bytes([0xc3, 0xa9]).unwrap();
    assert_eq!(arr.as_str(), "é");
}

#[test]
fn order_matches_text_order() {
    let pairs = [("", "a"), ("a", "b"), ("ab", "b"), ("a", "ab"), ("é", "z"), ("b", "b")];
    for (x, y) in pairs {
        let a = SlimStringlet::<4>::from_str(x).unwrap();
        let b = VarStringlet::<3>::from_str(y).unwrap();
        assert_eq!(a.partial_cmp(&b), Some(x.cmp(y)));
        assert_eq!(b.partial_cmp(&a), Some(y.cmp(x)));
        assert_eq!(a == b, x == y);
        let c = SlimStringlet::<4>::from_str(y).unwrap();
        assert_eq!(a.cmp(&c), x.cmp(y));
    }
}

#[test]
fn text_conversions() {
    let s: SlimStringlet<5> = "hello".parse().unwrap();
    assert_eq!(&*s, "hello");
    assert!("hello world".parse::<SlimStringlet<5>>().is_err());
    assert!(VarStringlet::<2>::try_from(String::from("hello world")).is_err());
    let c = s.clone();
    assert!(c == s);
    assert_eq!(Stringlet::<0>::default(), Stringlet::<0>::new());
}
