use ledgers::amounts::{lower, raise, Balance};
use ledgers::incrementer::add_to;

#[test]
fn lower_takes_away() {
    let mut amount: Balance = 10;
    lower(&mut amount, 3);
    assert_eq!(amount, 7);
    lower(&mut amount, 7);
    assert_eq!(amount, 0);
    lower(&mut amount, 0);
    assert_eq!(amount, 0);
}

#[test]
fn raise_adds() {
    let mut amount: Balance = 0;
    raise(&mut amount, 3);
    assert_eq!(amount, 3);
    raise(&mut amount, Balance::MAX - 3);
    assert_eq!(amount, Balance::MAX);
}

#[test]
fn add_to_goes_both_ways() {
    let mut number: i32 = 5;
    add_to(&mut number, -8);
    assert_eq!(number, -3);
    add_to(&mut number, i32::MAX);
    assert_eq!(number, i32::MAX - 3);
    add_to(&mut number, 3);
    assert_eq!(number, i32::MAX);
}
