use partial_functional::monoid::reduce;
use partial_functional::{All, Any, First, Last, Max, Min, Monoid, Product, Semigroup, Sum};

#[test]
fn sum_of_a_sequence_is_its_arithmetic_sum() {
    let values: Vec<Sum<u32>> = vec![10, 24, 3, 7, 42].into_iter().map(Sum::from).collect();

    assert_eq!(reduce(values), Sum(86u32));
    assert_eq!(reduce(Vec::<Sum<i64>>::new()), Sum(0i64));
}

#[test]
fn sum_reaching_the_largest_value() {
    assert_eq!(Sum(u8::MAX - 1).combine(Sum(1u8)), Sum(u8::MAX));
    assert_eq!(Sum(i8::MIN + 1).combine(Sum(-1i8)), Sum(i8::MIN));
}

#[test]
fn product_multiplies() {
    assert_eq!(Product(5).combine(Product(10)), Product(50));
    let values: Vec<Product<i32>> = vec![Product(-2), Product(3), Product(7)];
    assert_eq!(reduce(values), Product(-42));
}

#[test]
fn min_and_max_of_a_sequence() {
    let raw = vec![3u32, 1, 4, 1, 5];
    let mins: Vec<Min<u32>> = raw.iter().copied().map(Min::from).collect();
    let maxs: Vec<Max<u32>> = raw.iter().copied().map(Max::from).collect();

    assert_eq!(reduce(mins), Min(1u32));
    assert_eq!(reduce(maxs), Max(5u32));
}

#[test]
fn min_and_max_of_nothing_are_the_bounds() {
    assert_eq!(reduce(Vec::<Min<u32>>::new()), Min(u32::MAX));
    assert_eq!(reduce(Vec::<Max<u32>>::new()), Max(u32::MIN));
    assert_eq!(reduce(Vec::<Min<i16>>::new()), Min(i16::MAX));
    assert_eq!(reduce(Vec::<Max<i16>>::new()), Max(i16::MIN));
}

#[test]
fn min_and_max_with_ties() {
    assert_eq!(Min(4i32).combine(Min(4)), Min(4));
    assert_eq!(Max(-4i32).combine(Max(-4)), Max(-4));
    assert_eq!(Min(10).combine(Min(5)), Min(5));
    assert_eq!(Max(10).combine(Max(5)), Max(10));
}

#[test]
fn neutral_elements_of_the_numeric_wrappers() {
    assert_eq!(Sum::<u32>::empty(), Sum(0));
    assert_eq!(Product::<u32>::empty(), Product(1));
    assert_eq!(Product::<i128>::empty(), Product(1));
    assert_eq!(Min::<u32>::empty(), Min(u32::MAX));
    assert_eq!(Max::<u32>::empty(), Max(u32::MIN));
    assert_eq!(Min::<i64>::empty(), Min(i64::MAX));
    assert_eq!(Max::<i64>::empty(), Max(i64::MIN));
    assert_eq!(Min::<usize>::default(), Min(usize::MAX));
    assert_eq!(Max::<isize>::default(), Max(isize::MIN));
    assert_eq!(Product::<u8>::default(), Product(1));
    assert_eq!(Sum::<i8>::default(), Sum(0));
}

#[test]
fn neutral_elements_are_neutral_on_both_sides() {
    let x = Min(17u16);
    assert_eq!(Min::empty().combine(x), x);
    assert_eq!(x.combine(Min::empty()), x);

    let y = Max(-17i16);
    assert_eq!(Max::empty().combine(y), y);
    assert_eq!(y.combine(Max::empty()), y);

    let z = Product(9u64);
    assert_eq!(Product::empty().combine(z), z);
    assert_eq!(z.combine(Product::empty()), z);

    let w = First::from('c');
    assert_eq!(First::empty().combine(w), w);
    assert_eq!(w.combine(First::empty()), w);
}

#[test]
fn combining_is_associative_on_samples() {
    let (a, b, c) = (Sum(1u32), Sum(20u32), Sum(300u32));
    assert_eq!(a.combine(b).combine(c), a.combine(b.combine(c)));

    let (a, b, c) = (Last::from(1), Last(None), Last::from(3));
    assert_eq!(a.combine(b).combine(c), a.combine(b.combine(c)));

    let (a, b, c) = (First(None), First::from(2), First::from(3));
    assert_eq!(a.combine(b).combine(c), a.combine(b.combine(c)));

    let (a, b, c) = (Min(8i8), Min(-3i8), Min(5i8));
    assert_eq!(a.combine(b).combine(c), a.combine(b.combine(c)));
}

#[test]
fn first_and_last_of_a_sequence() {
    let firsts: Vec<First<u32>> = vec![First(None), First::from(53), First(None), First::from(42)];
    let lasts: Vec<Last<u32>> = vec![Last(None), Last::from(53), Last(None), Last::from(42)];

    assert_eq!(reduce(firsts), First::from(53));
    assert_eq!(reduce(lasts), Last::from(42));
}

#[test]
fn first_and_last_with_nothing_present() {
    let firsts: Vec<First<u32>> = vec![First(None), First(None)];
    let lasts: Vec<Last<u32>> = vec![Last(None), Last(None)];

    assert_eq!(reduce(firsts), First(None));
    assert_eq!(reduce(lasts), Last(None));
}

#[test]
fn first_keeps_the_left_value() {
    let five = First::from(5);
    let no_value = First(None);
    let ten = First::from(10);

    assert_eq!(First::from(10), ten.combine(five));
    assert_eq!(First::from(10), ten.combine(no_value));
    assert_eq!(First::from(10), no_value.combine(ten));
    assert_eq!(First(None::<i32>), no_value.combine(no_value));
}

#[test]
fn first_converts_to_and_from_option() {
    let f: First<u8> = Some(4).into();
    assert_eq!(f, First::from(4));
    let o: Option<u8> = f.into();
    assert_eq!(o, Some(4));
}

#[test]
fn logical_aggregators() {
    let alls: Vec<All> = vec![true, true, false].into_iter().map(All::from).collect();
    let anys: Vec<Any> = vec![true, true, false].into_iter().map(Any::from).collect();

    assert_eq!(reduce(alls), All(false));
    assert_eq!(reduce(anys), Any(true));
    assert_eq!(reduce(Vec::<All>::new()), All(true));
    assert_eq!(reduce(Vec::<Any>::new()), Any(false));
}

#[test]
fn wrappers_compare_with_their_inner_value() {
    assert_eq!(Sum(3), 3);
    assert!(Min(3) < 4);
    assert!(Max(3) > 2);
    assert!(Product(3) != 4);
    assert!(All(false) < true);
    assert!(Any(true) >= false);
}

#[test]
fn order_lines_total_quantity_and_cents() {
    let lines: Vec<(Sum<u32>, Sum<u64>)> = vec![
        (Sum(2), Sum(1998)),
        (Sum(1), Sum(199)),
        (Sum(3), Sum(399)),
    ];

    let mut total = reduce(lines);
    assert_eq!(total, (Sum(6), Sum(2596)));

    total = total.combine((Sum(1), Sum(2998)));
    assert_eq!(total, (Sum(7), Sum(5594)));
}
