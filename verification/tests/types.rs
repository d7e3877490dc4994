use economic_fact_engine::types::{AML_THRESHOLD_STROOPS, TREE_DEPTH, USDC_CODE, USDC_ISSUER};

#[test]
fn constants_values() {
    assert_eq!(AML_THRESHOLD_STROOPS, 99_999_999_999_i64);
    assert_eq!(USDC_CODE, "USDC");
    assert_eq!(TREE_DEPTH, 20);
    assert!(!USDC_ISSUER.is_empty());
}
