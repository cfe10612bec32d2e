use scan_samples::decimal::decimal_string;
use scan_samples::samples::basic_function;
use scan_samples::samples::const_function;
use scan_samples::samples::error_handling_function;
use scan_samples::samples::function_with_params;
use scan_samples::samples::generic_function;
use scan_samples::samples::public_function;
use scan_samples::samples::undocumented_function;
use scan_samples::samples::TestStruct;
use scan_samples::samples::TestTrait;

#[test]
fn basic_function_returns_test() {
    assert_eq!(basic_function(), "test".to_string());
}

#[test]
fn function_with_params_joins_with_underscore() {
    assert_eq!(function_with_params("test", 42), "test_42".to_string());
}

#[test]
fn function_with_params_negative_number() {
    assert_eq!(function_with_params("x", -5), "x_-5".to_string());
}

#[test]
fn function_with_params_extreme_numbers() {
    assert_eq!(function_with_params("a", i32::MIN), "a_-2147483648".to_string());
    assert_eq!(function_with_params("a", i32::MAX), "a_2147483647".to_string());
    assert_eq!(function_with_params("", 0), "_0".to_string());
}

#[test]
fn decimal_string_renders_digits() {
    assert_eq!(decimal_string(0), "0".to_string());
    assert_eq!(decimal_string(7), "7".to_string());
    assert_eq!(decimal_string(100), "100".to_string());
    assert_eq!(decimal_string(-1), "-1".to_string());
    assert_eq!(decimal_string(-2100200300), "-2100200300".to_string());
}

#[test]
fn undocumented_function_returns_true() {
    assert!(undocumented_function());
}

#[test]
fn public_function_counts_entries() {
    assert_eq!(public_function(vec![]), 0);
    assert_eq!(public_function(vec!["a".to_string(), "b".to_string()]), 2);
}

#[test]
fn generic_function_prefixes_value() {
    assert_eq!(generic_function("42"), "Value: 42".to_string());
    assert_eq!(generic_function(""), "Value: ".to_string());
}

#[test]
fn test_struct_holds_and_updates_value() {
    let mut s = TestStruct::new("first".to_string());
    assert_eq!(s.get_value(), "first");
    assert_eq!(s.update_value("second".to_string()), "second");
    assert_eq!(s.get_value(), "second");
    s.undocumented_method("third".to_string());
    assert_eq!(s.get_value(), "third");
}

#[test]
fn trait_method_prefixes_trait() {
    let s = TestStruct::new("abc".to_string());
    assert_eq!(s.trait_method(), "Trait: abc".to_string());
}

#[test]
fn error_handling_function_on_empty_input() {
    assert_eq!(error_handling_function(""), Err("Input cannot be empty"));
}

#[test]
fn error_handling_function_on_nonempty_input() {
    assert_eq!(error_handling_function("hello"), Ok(5));
    assert_eq!(error_handling_function(" "), Ok(1));
}

#[test]
fn const_function_adds() {
    assert_eq!(const_function(2, 3), 5);
    assert_eq!(const_function(-2, -3), -5);
    assert_eq!(const_function(i32::MAX, i32::MIN), -1);
}
