use stylus_inheritance_examples::base::ChildContract;
use stylus_inheritance_examples::uint256::U256;

#[test]
fn test_inheritance_basic() {
    // Deploy the child contract
    let mut contract = ChildContract::new();

    // Test base contract's methods through the component
    let value = U256::from_u128(42);
    contract
        .base_contract
        .set_value(value)
        .expect("set_value should succeed");

    let result = contract
        .base_contract
        .get_value()
        .expect("get_value should succeed");
    assert_eq!(result, value, "get_value should return the set value");

    // Test child contract's own methods
    let additional_value = U256::from_u128(99);
    contract
        .set_additional_value(additional_value)
        .expect("set_additional_value should succeed");

    let result = contract
        .get_additional_value()
        .expect("get_additional_value should succeed");
    assert_eq!(
        result, additional_value,
        "get_additional_value should return the set value"
    );
}
