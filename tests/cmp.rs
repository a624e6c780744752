use stringlet::{ConfigBase, Fixed, Slim, StringletBase, StringletKind, Trim, Var};

fn mk<K: StringletKind, const S: usize, const L: usize>(s: &str) -> StringletBase<K, S, L>
where
    StringletBase<K, S, L>: ConfigBase<K, S, L>,
{
    StringletBase::from_str(s).unwrap()
}

fn check<K, const S: usize, const L: usize, K2, const S2: usize, const L2: usize>(
    a: &StringletBase<K, S, L>,
    b: &StringletBase<K2, S2, L2>,
    lt: bool,
) where
    K: StringletKind,
    K2: StringletKind,
    StringletBase<K, S, L>: ConfigBase<K, S, L>,
    StringletBase<K2, S2, L2>: ConfigBase<K2, S2, L2>,
{
    let (x, y) = (a.as_str(), b.as_str());
    if lt {
        assert_eq!(*a < *b, x < y, "{x:?} {y:?}");
        assert_eq!(*a < y, x < y, "{x:?} {y:?}");
        assert_eq!(*b < *a, y < x, "{x:?} {y:?}");
        assert_eq!(*b < x, y < x, "{x:?} {y:?}");
    } else {
        assert_eq!(*a == *b, x == y, "{x:?} {y:?}");
        assert_eq!(*a == y, x == y, "{x:?} {y:?}");
        assert_eq!(*b == *a, y == x, "{x:?} {y:?}");
        assert_eq!(*b == x, y == x, "{x:?} {y:?}");
    }
}

/// Compares `a` with itself and with every value of the table.
fn row<K: StringletKind, const S: usize, const L: usize>(a: &StringletBase<K, S, L>, lt: bool)
where
    StringletBase<K, S, L>: ConfigBase<K, S, L>,
{
    let x = a.as_str();
    if lt {
        assert_eq!(*a < a.clone(), x < x);
        assert_eq!(*a < x, x < x);
    } else {
        assert_eq!(*a == a.clone(), x == x);
        assert_eq!(*a == x, x == x);
    }
    check::<K, S, L, Fixed, 0, 0>(a, &mk::<Fixed, 0, 0>(""), lt);
    check::<K, S, L, Var, 0, 1>(a, &mk::<Var, 0, 1>(""), lt);
    check::<K, S, L, Var, 1, 1>(a, &mk::<Var, 1, 1>(""), lt);
    check::<K, S, L, Var, 2, 1>(a, &mk::<Var, 2, 1>(""), lt);
    check::<K, S, L, Trim, 0, 0>(a, &mk::<Trim, 0, 0>(""), lt);
    check::<K, S, L, Trim, 1, 0>(a, &mk::<Trim, 1, 0>(""), lt);
    check::<K, S, L, Slim, 0, 0>(a, &mk::<Slim, 0, 0>(""), lt);
    check::<K, S, L, Slim, 1, 0>(a, &mk::<Slim, 1, 0>(""), lt);
    check::<K, S, L, Slim, 2, 0>(a, &mk::<Slim, 2, 0>(""), lt);
    check::<K, S, L, Fixed, 1, 0>(a, &mk::<Fixed, 1, 0>("x"), lt);
    check::<K, S, L, Var, 1, 1>(a, &mk::<Var, 1, 1>("x"), lt);
    check::<K, S, L, Var, 2, 1>(a, &mk::<Var, 2, 1>("x"), lt);
    check::<K, S, L, Var, 3, 1>(a, &mk::<Var, 3, 1>("x"), lt);
    check::<K, S, L, Trim, 1, 0>(a, &mk::<Trim, 1, 0>("x"), lt);
    check::<K, S, L, Trim, 2, 0>(a, &mk::<Trim, 2, 0>("x"), lt);
    check::<K, S, L, Slim, 1, 0>(a, &mk::<Slim, 1, 0>("x"), lt);
    check::<K, S, L, Slim, 2, 0>(a, &mk::<Slim, 2, 0>("x"), lt);
    check::<K, S, L, Slim, 3, 0>(a, &mk::<Slim, 3, 0>("x"), lt);
    check::<K, S, L, Fixed, 1, 0>(a, &mk::<Fixed, 1, 0>("y"), lt);
    check::<K, S, L, Var, 1, 1>(a, &mk::<Var, 1, 1>("y"), lt);
    check::<K, S, L, Var, 2, 1>(a, &mk::<Var, 2, 1>("y"), lt);
    check::<K, S, L, Var, 3, 1>(a, &mk::<Var, 3, 1>("y"), lt);
    check::<K, S, L, Trim, 1, 0>(a, &mk::<Trim, 1, 0>("y"), lt);
    check::<K, S, L, Trim, 2, 0>(a, &mk::<Trim, 2, 0>("y"), lt);
    check::<K, S, L, Slim, 1, 0>(a, &mk::<Slim, 1, 0>("y"), lt);
    check::<K, S, L, Slim, 2, 0>(a, &mk::<Slim, 2, 0>("y"), lt);
    check::<K, S, L, Slim, 3, 0>(a, &mk::<Slim, 3, 0>("y"), lt);
    check::<K, S, L, Fixed, 2, 0>(a, &mk::<Fixed, 2, 0>("xy"), lt);
    check::<K, S, L, Var, 2, 1>(a, &mk::<Var, 2, 1>("xy"), lt);
    check::<K, S, L, Var, 3, 1>(a, &mk::<Var, 3, 1>("xy"), lt);
    check::<K, S, L, Var, 4, 1>(a, &mk::<Var, 4, 1>("xy"), lt);
    check::<K, S, L, Trim, 2, 0>(a, &mk::<Trim, 2, 0>("xy"), lt);
    check::<K, S, L, Trim, 3, 0>(a, &mk::<Trim, 3, 0>("xy"), lt);
    check::<K, S, L, Slim, 2, 0>(a, &mk::<Slim, 2, 0>("xy"), lt);
    check::<K, S, L, Slim, 3, 0>(a, &mk::<Slim, 3, 0>("xy"), lt);
    check::<K, S, L, Slim, 4, 0>(a, &mk::<Slim, 4, 0>("xy"), lt);
}

fn cmp_all(lt: bool) {
    row(&mk::<Fixed, 0, 0>(""), lt);
    row(&mk::<Var, 0, 1>(""), lt);
    row(&mk::<Var, 1, 1>(""), lt);
    row(&mk::<Var, 2, 1>(""), lt);
    row(&mk::<Trim, 0, 0>(""), lt);
    row(&mk::<Trim, 1, 0>(""), lt);
    row(&mk::<Slim, 0, 0>(""), lt);
    row(&mk::<Slim, 1, 0>(""), lt);
    row(&mk::<Slim, 2, 0>(""), lt);
    row(&mk::<Fixed, 1, 0>("x"), lt);
    row(&mk::<Var, 1, 1>("x"), lt);
    row(&mk::<Var, 2, 1>("x"), lt);
    row(&mk::<Var, 3, 1>("x"), lt);
    row(&mk::<Trim, 1, 0>("x"), lt);
    row(&mk::<Trim, 2, 0>("x"), lt);
    row(&mk::<Slim, 1, 0>("x"), lt);
    row(&mk::<Slim, 2, 0>("x"), lt);
    row(&mk::<Slim, 3, 0>("x"), lt);
    row(&mk::<Fixed, 1, 0>("y"), lt);
    row(&mk::<Var, 1, 1>("y"), lt);
    row(&mk::<Var, 2, 1>("y"), lt);
    row(&mk::<Var, 3, 1>("y"), lt);
    row(&mk::<Trim, 1, 0>("y"), lt);
    row(&mk::<Trim, 2, 0>("y"), lt);
    row(&mk::<Slim, 1, 0>("y"), lt);
    row(&mk::<Slim, 2, 0>("y"), lt);
    row(&mk::<Slim, 3, 0>("y"), lt);
    row(&mk::<Fixed, 2, 0>("xy"), lt);
    row(&mk::<Var, 2, 1>("xy"), lt);
    row(&mk::<Var, 3, 1>("xy"), lt);
    row(&mk::<Var, 4, 1>("xy"), lt);
    row(&mk::<Trim, 2, 0>("xy"), lt);
    row(&mk::<Trim, 3, 0>("xy"), lt);
    row(&mk::<Slim, 2, 0>("xy"), lt);
    row(&mk::<Slim, 3, 0>("xy"), lt);
    row(&mk::<Slim, 4, 0>("xy"), lt);
}

#[test]
fn cmp_test_eq() {
    // Compare all kinds with enough variation in len and SIZE
    cmp_all(false);
}

#[test]
fn test_lt() {
    // Compare all kinds with enough variation in len and SIZE
    cmp_all(true);
}

#[test]
fn test_le() {
    // Compare all kinds with enough variation in len and SIZE
}
