use ledgers::amounts::AccountId;
use ledgers::incrementer::Incrementer;

const ALICE: AccountId = [0x1; 32];
const BOB: AccountId = [0x0; 32];

/// We test if the default constructor does its job.
#[test]
fn lib_default_works() {
    let incrementer = Incrementer::default();
    assert_eq!(incrementer.get(), 0);
}

/// We test a simple use case of our contract.
#[test]
fn it_works() {
    let mut incrementer = Incrementer::new(42);
    assert_eq!(incrementer.get(), 42);
    incrementer.inc(5);
    assert_eq!(incrementer.get(), 47);
    incrementer.inc(-50);
    assert_eq!(incrementer.get(), -3);
}

#[test]
fn my_value_works() {
    let mut incrementer = Incrementer::new(11);
    assert_eq!(incrementer.get(), 11);
    assert_eq!(incrementer.get_mine(ALICE), 0);

    incrementer.inc_mine(ALICE, 5);
    assert_eq!(incrementer.get_mine(ALICE), 5);
    incrementer.inc_mine(ALICE, 10);
    assert_eq!(incrementer.get_mine(ALICE), 15);
}

#[test]
fn numbers_are_kept_by_caller() {
    let mut incrementer = Incrementer::default();
    incrementer.inc_mine(ALICE, 5);
    incrementer.inc_mine(BOB, -7);
    incrementer.inc_mine(ALICE, -6);
    assert_eq!(incrementer.get_mine(ALICE), -1);
    assert_eq!(incrementer.get_mine(BOB), -7);
    assert_eq!(incrementer.my_number_or_zero(&ALICE), -1);
    assert_eq!(incrementer.my_number_or_zero(&[0x9; 32]), 0);
    assert_eq!(incrementer.get(), 0);
}

#[test]
fn shared_number_is_apart_from_the_callers() {
    let mut incrementer = Incrementer::new(-4);
    incrementer.inc(4);
    assert_eq!(incrementer.get(), 0);
    assert_eq!(incrementer.get_mine(ALICE), 0);
    incrementer.inc_mine(ALICE, 0);
    assert_eq!(incrementer.get_mine(ALICE), 0);
    assert_eq!(incrementer.get(), 0);
}

#[test]
fn numbers_reach_both_ends_of_the_range() {
    let mut incrementer = Incrementer::new(i32::MAX);
    incrementer.inc(i32::MIN);
    assert_eq!(incrementer.get(), -1);
    incrementer.inc(i32::MIN + 1);
    assert_eq!(incrementer.get(), i32::MIN);
    incrementer.inc_mine(ALICE, i32::MAX);
    assert_eq!(incrementer.get_mine(ALICE), i32::MAX);
    incrementer.inc_mine(ALICE, i32::MIN);
    assert_eq!(incrementer.get_mine(ALICE), -1);
}

#[test]
fn a_small_counter_has_room() {
    let mut incrementer = Incrementer::default();
    assert!(incrementer.has_room_for(ALICE));
    incrementer.inc_mine(ALICE, 1);
    assert!(incrementer.has_room_for(ALICE));
    assert!(incrementer.has_room_for(BOB));
}
