use monoids::traits::{fold_vec, mconcat, repeat, Monoid, Semigroup, SemigroupOp};
use monoids::{All, Any, Max, Min, Product, Sum};
use std::cmp::Ordering;

#[test]
fn any_semigroup() {
    let v: Vec<Any> = vec![0, 1, 2, 3, 4].into_iter().map(|x| x > 2).map(Any).collect();
    let r = Semigroup::concat(v);
    assert_eq!(Some(Any(true)), r);
}

#[test]
fn all_semigroup() {
    let v: Vec<All> = vec![0, 1, 2, 3, 4].into_iter().map(|x| x > 2).map(All).collect();
    let r = Semigroup::concat(v);
    assert_eq!(Some(All(false)), r);
}

#[test]
fn product_semigroup() {
    let v: Vec<Product<u8>> = vec![1u8, 2, 3, 4, 0, 5].into_iter().map(Product).collect();
    let v = Semigroup::concat(v);
    assert!(v.is_some());
    assert_eq!(v.unwrap(), Product(0));
}

#[test]
fn int_min_monoid() {
    let v: Vec<Min<i32>> = vec![1i32, -1, 15, -42, 74, 42].into_iter().map(Min).collect();
    let Min(r) = mconcat(v);

    assert_eq!(r, -42);
}

#[test]
fn concat_of_nothing_is_absent() {
    assert_eq!(Semigroup::concat(Vec::<Any>::new()), None);
    assert_eq!(Semigroup::concat(Vec::<Sum<i32>>::new()), None);
}

#[test]
fn concat_of_singleton_is_the_element() {
    assert_eq!(Semigroup::concat(vec![Sum(7i32)]), Some(Sum(7)));
    assert_eq!(Semigroup::concat(vec![Min(-3i32)]), Some(Min(-3)));
}

#[test]
fn mconcat_of_nothing_is_empty() {
    assert_eq!(mconcat(Vec::<Min<i32>>::new()), Min(0));
    assert_eq!(mconcat(Vec::<Sum<u64>>::new()), Sum(0u64));
    assert_eq!(mconcat(Vec::<Ordering>::new()), Ordering::Equal);
    assert_eq!(mconcat(Vec::<String>::new()), String::new());
}

#[test]
fn identity_laws_concrete() {
    assert_eq!(Sum::<i32>::empty().op(Sum(5)), Sum(5));
    assert_eq!(Sum(5i32).op(Sum::<i32>::empty()), Sum(5));
    assert_eq!(Any::empty().op(Any(true)), Any(true));
    assert_eq!(All::empty().op(All(false)), All(false));
    assert_eq!(Product::<u8>::empty().op(Product(9u8)), Product(9));
}

#[test]
fn associativity_concrete() {
    let (a, b, c) = (Sum(1i32), Sum(2i32), Sum(3i32));
    assert_eq!(a.op(b).op(c), a.op(b.op(c)));
    let (a, b, c) = (Min(4i32), Min(-2i32), Min(9i32));
    assert_eq!(a.op(b).op(c), a.op(b.op(c)));
    let (a, b, c) = (Ordering::Equal, Ordering::Greater, Ordering::Less);
    assert_eq!(a.op(b).op(c), a.op(b.op(c)));
}

#[test]
fn repeat_doubles_each_step() {
    // Three doublings of Sum(3) give 3 * 2^3 = 24, not 3 * 4.
    assert_eq!(repeat(Sum(3u64), 3), Sum(24u64));
    assert_eq!(repeat(Sum(1i32), 0), Sum(1));
    // An idempotent operation is unchanged by any number of doublings.
    assert_eq!(repeat(Any(true), 5), Any(true));
    assert_eq!(repeat(Min(-7i32), 4), Min(-7));
}

#[test]
fn ordering_combines_lexicographically() {
    assert_eq!(Ordering::Equal.op(Ordering::Greater), Ordering::Greater);
    assert_eq!(Ordering::Less.op(Ordering::Greater), Ordering::Less);
    assert_eq!(Ordering::Greater.op(Ordering::Less), Ordering::Greater);
    let v = vec![Ordering::Equal, Ordering::Less, Ordering::Greater];
    assert_eq!(mconcat(v), Ordering::Less);
}

#[test]
fn unit_semigroup() {
    assert_eq!(().op(()), ());
}

#[test]
fn unit_concat_always_answers() {
    // The unit instance overrides the reduction: even the empty sequence
    // yields the unit value, never the absent indicator.
    assert_eq!(Semigroup::concat(Vec::<()>::new()), Some(()));
    assert_eq!(Semigroup::concat(vec![(), (), ()]), Some(()));
}

#[test]
fn vec_concatenation_preserves_order() {
    let r = vec![1i32, 2].op(vec![3i32]);
    assert_eq!(r, vec![1, 2, 3]);
    assert_eq!(<Vec<i32> as Monoid>::empty().op(vec![9]), vec![9]);
    let r = mconcat(vec![vec![1u8], vec![], vec![2, 3]]);
    assert_eq!(r, vec![1, 2, 3]);
}

#[test]
fn string_appends() {
    let r = String::from("foo").op(String::from("bar"));
    assert_eq!(r, "foobar");
    let r = mconcat(vec![String::from("a"), String::from(" to "), String::from("z")]);
    assert_eq!(r, "a to z");
}

#[test]
fn option_absent_is_identity_like() {
    let none: Option<Sum<i32>> = None;
    assert_eq!(none.op(Some(Sum(3))), Some(Sum(3)));
    assert_eq!(Some(Sum(3i32)).op(None), Some(Sum(3)));
    assert_eq!(Some(Sum(3i32)).op(Some(Sum(4))), Some(Sum(7)));
    let both_none: Option<Sum<i32>> = None.op(None);
    assert_eq!(both_none, None);
}

#[test]
fn pair_combines_component_wise() {
    let a = (Sum(1i32), Product(10i32));
    let b = a.op((Sum(1), Product(2)));
    assert_eq!(b, (Sum(2), Product(20)));
    let e = <(Sum<i32>, Product<i32>) as Monoid>::empty();
    assert_eq!(e, (Sum(0), Product(1)));
}

#[test]
fn max_monoid_and_its_default_caveat() {
    let v: Vec<Max<i32>> = vec![1i32, -1, 15, -42, 74, 42].into_iter().map(Max).collect();
    assert_eq!(mconcat(v), Max(74));
    // The default-derived identity Max(0) is only a lower bound for
    // non-negative payloads: an all-negative fold surfaces it.
    assert_eq!(mconcat(vec![Max(-5i32)]), Max(0));
    assert_eq!(Semigroup::concat(vec![Max(-5i32)]), Some(Max(-5)));
}

#[test]
fn fold_vec_starts_from_accumulator() {
    let r = fold_vec(Sum(10i32), vec![Sum(1i32), Sum(2)]);
    assert_eq!(r, Sum(13));
}

#[test]
fn wrapper_defaults() {
    assert_eq!(Any::default(), Any(false));
    assert_eq!(All::default(), All(true));
    assert_eq!(Min::<i32>::default(), Min(0));
    assert_eq!(Max::<i32>::default(), Max(0));
    assert_eq!(Sum::<u64>::default(), Sum(0));
    assert_eq!(Product::<u8>::default(), Product(1));
}

#[test]
fn wider_integer_payloads() {
    assert_eq!(Min(3u64).op(Min(9)), Min(3));
    assert_eq!(mconcat(vec![Max(-7i64), Max(-3)]), Max(0));
    assert_eq!(Semigroup::concat(vec![Max(-7i64), Max(-3)]), Some(Max(-3)));
    assert_eq!(Sum(2u32).op(Sum(5)), Sum(7));
    assert_eq!(mconcat(vec![Product(6u64), Product(7)]), Product(42));
    assert_eq!(Min::<u32>::default(), Min(0));
    assert_eq!(Product::<i64>::default(), Product(1));
}
