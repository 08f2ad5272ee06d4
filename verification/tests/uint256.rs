use stylus_inheritance_examples::uint256::U256;

#[test]
fn addition_carries_between_limbs() {
    let almost = U256 { lo: u128::MAX, hi: 0 };
    let one = U256::from_u128(1);
    let sum = almost.add(one);
    assert_eq!(sum, U256 { lo: 0, hi: 1 });
}

#[test]
fn subtraction_borrows_between_limbs() {
    let high = U256 { lo: 0, hi: 1 };
    let one = U256::from_u128(1);
    let diff = high.sub(one);
    assert_eq!(diff, U256 { lo: u128::MAX, hi: 0 });
}

#[test]
fn addition_and_subtraction_round_trip() {
    let a = U256 { lo: 12345, hi: 678 };
    let b = U256 { lo: u128::MAX - 100, hi: 90 };
    let sum = a.add(b);
    assert_eq!(sum.sub(b), a);
    assert_eq!(sum.sub(a), b);
}

#[test]
fn comparisons_order_by_value() {
    let small = U256 { lo: u128::MAX, hi: 0 };
    let large = U256 { lo: 0, hi: 1 };
    assert!(small.lt(&large));
    assert!(!large.lt(&small));
    assert!(small.le(&large));
    assert!(small.le(&small));
    assert!(!large.le(&small));
}

#[test]
fn zero_and_max_are_extremes() {
    let zero = U256::zero();
    let max = U256::max_value();
    assert!(zero.lt(&max));
    assert_eq!(max.sub(max), zero);
    assert_eq!(zero.add(max), max);
}
