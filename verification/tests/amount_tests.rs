use guild_sc::amount::{Amount, MAX_NATIVE};

#[test]
fn amount_zero_is_zero() {
    assert_eq!(Amount::zero().to_u64(), Some(0));
    assert!(Amount::zero().is_zero());
    assert!(!Amount::from_u64(1).is_zero());
}

#[test]
fn amount_plus_adds() {
    let a = Amount::from_u64(7);
    let b = Amount::from_u64(35);
    assert_eq!(a.plus(&b).to_u64(), Some(42));
}

#[test]
fn amount_minus_subtracts() {
    let a = Amount::from_u64(50);
    let b = Amount::from_u64(8);
    assert_eq!(a.minus(&b).to_u64(), Some(42));
    assert_eq!(a.minus(&a).to_u64(), Some(0));
}

#[test]
fn amount_checked_minus_refuses_a_negative_result() {
    let a = Amount::from_u64(8);
    let b = Amount::from_u64(50);
    assert!(a.checked_minus(&b).is_none());
    assert_eq!(b.checked_minus(&a).unwrap().to_u64(), Some(42));
    assert_eq!(a.checked_minus(&a).unwrap().to_u64(), Some(0));
}

#[test]
fn amount_times_multiplies() {
    let a = Amount::from_u64(6);
    let b = Amount::from_u64(7);
    assert_eq!(a.times(&b).to_u64(), Some(42));
    assert_eq!(a.times(&Amount::zero()).to_u64(), Some(0));
}

#[test]
fn amount_divided_by_rounds_down() {
    let a = Amount::from_u64(85);
    let b = Amount::from_u64(2);
    assert_eq!(a.divided_by(&b).to_u64(), Some(42));
    assert_eq!(b.divided_by(&a).to_u64(), Some(0));
}

#[test]
fn amount_comparisons() {
    let small = Amount::from_u64(3);
    let large = Amount::from_u64(4);
    assert!(small.less_than(&large));
    assert!(!large.less_than(&small));
    assert!(!small.less_than(&small));
    assert!(small.at_most(&large));
    assert!(small.at_most(&small));
    assert!(!large.at_most(&small));
    assert!(small.same_as(&Amount::from_u64(3)));
    assert!(!small.same_as(&large));
}

#[test]
fn amount_smaller_picks_the_smaller() {
    let small = Amount::from_u64(3);
    let large = Amount::from_u64(4);
    assert_eq!(small.smaller(&large).to_u64(), Some(3));
    assert_eq!(large.smaller(&small).to_u64(), Some(3));
}

#[test]
fn amount_duplicate_holds_the_same_number() {
    let a = Amount::from_u64(123_456_789);
    let b = a.duplicate();
    assert!(a.same_as(&b));
    assert_eq!(b.plus(&Amount::from_u64(1)).to_u64(), Some(123_456_790));
    assert_eq!(a.to_u64(), Some(123_456_789));
}

#[test]
fn amount_to_u64_stops_at_the_signed_range() {
    assert_eq!(MAX_NATIVE, i64::MAX as u64);
    assert_eq!(Amount::from_u64(MAX_NATIVE).to_u64(), Some(MAX_NATIVE));
    assert_eq!(Amount::from_u64(MAX_NATIVE + 1).to_u64(), None);
    assert_eq!(Amount::from_u64(u64::MAX).to_u64(), None);
}

#[test]
fn amount_has_no_upper_bound() {
    let big = Amount::from_u128(u128::MAX);
    let bigger = big.times(&big);
    assert!(big.less_than(&bigger));
    assert!(bigger.divided_by(&big).same_as(&big));
    assert_eq!(bigger.to_u64(), None);
}

#[test]
fn amount_from_u128_keeps_the_value() {
    let a = Amount::from_u128(1u128 << 64);
    let b = Amount::from_u64(u64::MAX).plus(&Amount::from_u64(1));
    assert!(a.same_as(&b));
}

#[test]
fn amount_bytes_round_trip() {
    assert_eq!(Amount::zero().to_be_bytes(), Vec::<u8>::new());
    assert_eq!(Amount::from_u64(1).to_be_bytes(), vec![1]);
    assert_eq!(Amount::from_u64(256).to_be_bytes(), vec![1, 0]);
    assert_eq!(Amount::from_u64(0x0102_03).to_be_bytes(), vec![1, 2, 3]);
    assert_eq!(Amount::from_be_bytes(&[1, 2, 3]).to_u64(), Some(0x0102_03));
    assert_eq!(Amount::from_be_bytes(&[0, 0, 7]).to_u64(), Some(7));
    assert_eq!(Amount::from_be_bytes(&[]).to_u64(), Some(0));
    let big = Amount::from_u128(u128::MAX).times(&Amount::from_u64(3));
    assert!(Amount::from_be_bytes(&big.to_be_bytes()).same_as(&big));
}
