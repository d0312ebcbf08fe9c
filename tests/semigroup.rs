use std::cmp::Ordering;
use std::marker::PhantomData;

use partial_functional::semigroup::combine_all;
use partial_functional::{Last, Semigroup, Sum};

#[test]
fn semigroup_option_combine_macro() {
    let sum: Option<Sum<i32>> = combine_all(
        None,
        vec![
            Some(Sum::from(10)),
            None,
            Some(Sum::from(5)),
            Some(Sum::from(7)),
            None,
            Some(Sum::from(42)),
            None,
        ],
    );

    assert_eq!(sum.unwrap(), 64);
}

#[test]
fn semigroup_combine_macro() {
    let b: Option<i32> = None;
    let x = combine_all(Last::from(53), vec![Last::from(None), Last::from(42), Last::from(b)]);

    assert_eq!(x.0, Some(42));
}

#[test]
fn option_combines_both_values_or_keeps_the_present_one() {
    let five = Some(5u32);
    let ten = Some(10u32);

    assert_eq!(Some(15), five.combine(ten));
    assert_eq!(Some(5), five.combine(None));
    assert_eq!(Some(10), None.combine(ten));
    assert_eq!(None::<u32>, None.combine(None));
}

#[test]
fn result_keeps_the_first_ok() {
    let five: Result<u32, &'static str> = Ok(5);
    let two_kb: Result<u32, &'static str> = Ok(2048);
    let err: Result<u32, &'static str> = Err("An error occured");
    let err_again: Result<u32, &'static str> = Err("Another error");

    assert_eq!(Ok(5), five.combine(err));
    assert_eq!(Ok(2048), two_kb.combine(five));
    assert_eq!(Ok(5), err.combine(five));
    assert_eq!(Err("Another error"), err.combine(err_again));
}

#[test]
fn ordering_is_decided_by_the_first_difference() {
    let name = String::from("Chris").cmp(&String::from("Chris"));
    let age = 43u8.cmp(&23u8);

    assert_eq!(Ordering::Greater, name.combine(age));
    assert_eq!(Ordering::Less, Ordering::Less.combine(Ordering::Greater));
    assert_eq!(Ordering::Greater, Ordering::Greater.combine(Ordering::Less));
    assert_eq!(Ordering::Equal, Ordering::Equal.combine(Ordering::Equal));
}

#[test]
fn strings_and_vectors_concatenate() {
    let s = String::from("foo").combine(String::from("bar"));
    assert_eq!(s, "foobar");

    let v = vec![1, 2].combine(vec![3]);
    assert_eq!(v, vec![1, 2, 3]);
}

#[test]
fn integers_combine_by_addition() {
    assert_eq!(7i32.combine(-10), -3);
    assert_eq!(250u8.combine(5), 255);
}

#[test]
fn phantom_data_combines_to_itself() {
    let p: PhantomData<u8> = PhantomData;
    assert_eq!(p.combine(PhantomData), PhantomData);
}

#[test]
fn pairs_combine_field_by_field() {
    let a = (Sum(2u32), Last::from("x"));
    let b = (Sum(5u32), Last(None));
    assert_eq!(a.combine(b), (Sum(7u32), Last::from("x")));
}

#[test]
fn combine_all_with_no_values_gives_the_seed() {
    let x = combine_all(Sum(9u64), vec![]);
    assert_eq!(x, Sum(9u64));
}
