use partial_functional::semigroup::combine_all;
use partial_functional::{All, Any, Last, Monoid, Product, Semigroup, Sum};

#[test]
fn all_equality_with_primitive() {
    let any = All::from(true);

    assert_eq!(any, true);
}

#[test]
fn all_ordering_with_primitive() {
    let any = All::from(true);

    assert_eq!(any > true, false);
}

#[test]
fn any_equality_with_primitive() {
    let any = Any::from(true);

    assert_eq!(any, true);
}

#[test]
fn any_ordering_with_primitive() {
    let any = Any::from(true);

    assert_eq!(any > true, false);
}

#[test]
fn combine_with_into() {
    let x = Last::empty()
        .combine(53.into())
        .combine(None.into())
        .combine(42.into());

    assert_eq!(x.0, Some(42));
}

#[test]
fn mod_option_combine_macro() {
    let sum: Option<Sum<i32>> = combine_all(
        None,
        vec![
            Some(Sum::from(10)),
            None,
            Some(Sum::from(5)),
            Some(Sum::from(7)),
            None,
            Some(Sum::from(42)),
            None,
        ],
    );

    assert_eq!(sum.unwrap(), 64);
}

#[test]
fn mod_combine_macro() {
    let b: Option<i32> = None;
    let x = combine_all(Last::from(53), vec![Last::from(None), Last::from(42), Last::from(b)]);

    assert_eq!(x.0, Some(42));
}

#[test]
fn last_to_option_conversion() {
    let last = Last::from(42);
    let res: Option<i32> = last.into();

    assert_eq!(res, Some(42));
}

fn product_matches_fold(vec: Vec<u8>) -> bool {
    let left: Product<u128> = vec.iter().copied().map(|x| x as u128).product::<u128>().into();
    let right = vec
        .iter()
        .copied()
        .map(|x| Product::from(x as u128))
        .fold(Product::default(), |a, x| a.combine(x));

    left == right
}

#[test]
fn product_of_vec_is_same_as_product_combine() {
    let cases: Vec<Vec<u8>> = vec![
        vec![2, 3],
        vec![15, 1, 7],
        vec![255, 255, 255, 255],
        vec![0, 200, 13],
        vec![1, 2, 3, 4, 5, 6, 7, 8, 9, 10, 11, 12, 13, 14, 15],
    ];
    for case in cases {
        assert!(product_matches_fold(case));
    }
}
