use std::collections::HashMap;

use boundary_marshal::wrapper_data_types::{
    bool_inc_test, error_inc_test, hash_map_inc_test, i16_inc_test, i32_inc_test, i64_inc_test,
    i8_inc_test, optional_type_inc_test, string_inc_test, u16_inc_test, u32_inc_test,
    u64_inc_test, u8_inc_test, vector_inc_test, void_inc_test, ArithmeticError,
};

#[test]
fn lib_internal() {
    println!("\n\n----- Start of Tests -----");
    println!("Running boolean test...");
    assert_eq!(false, bool_inc_test(true));
    println!("Passed");

    println!("Running signed int tests...");
    assert_eq!(1, i8_inc_test(0));
    assert_eq!(1, i16_inc_test(0));
    assert_eq!(1, i32_inc_test(0));
    assert_eq!(1, i64_inc_test(0));
    println!("Passed");

    println!("Running unsigned int tests...");
    assert_eq!(1, u8_inc_test(0));
    assert_eq!(1, u16_inc_test(0));
    assert_eq!(1, u32_inc_test(0));
    assert_eq!(1u64, u64_inc_test(0));
    println!("Passed");

    println!("Running String test...");
    let message: String = "Hello World!".to_string();
    let target_message: String = format!("{}{}", message, message);
    assert_eq!(target_message, string_inc_test(message.clone()));
    println!("Passed");

    println!("Running option type test...");
    assert_eq!(Some(1), optional_type_inc_test(Some(0)));
    println!("Passed");

    println!("Running vector test...");
    let my_array: Vec<String> = vec!["one".to_string(), "two".to_string(), "three".to_string()];
    let mut target_my_array: Vec<String> = my_array.to_vec();
    target_my_array.append(&mut my_array.clone());
    assert_eq!(target_my_array, vector_inc_test(my_array.clone()));
    println!("Passed");

    println!("Running HashMap test...");
    let mut initial_hash_map: HashMap<String, i32> =
        [("one".to_string(), 1),
        ("two".to_string(), 2),
        ("three".to_string(), 3)]
        .iter().cloned().collect();
    let result_hash_map = hash_map_inc_test(initial_hash_map.clone());
    initial_hash_map.insert(String::from("zero"), 0);
    assert_eq!(initial_hash_map, result_hash_map);
    println!("Passed");

    println!("Running void test...");
    assert_eq!((), void_inc_test(0));
    println!("Passed");

    // ----- Error Code Test On Success -----
    println!("Running Error Code Test On Success test...");
    let value_1: u64 = 0;
    let value_2: u64 = 5;
    let r_value: Result<u64, ArithmeticError> = error_inc_test(value_1, value_2);
    if r_value.is_ok() {
        println!("Passed");
        println!("     Returned value = {:?}", r_value.unwrap());
    }
    else {
        println!("Passed");
        println!("     Returned value = {:?}", r_value.unwrap_err());
    }

    // ----- Error Code Test On Failure -----
    println!("Running Error Code Test On Failure test...");
    let value_1: u64 = u64::MAX;
    let value_2: u64 = 1;
    let r_value: Result<u64, ArithmeticError> = error_inc_test(value_1, value_2);
    if r_value.is_ok() {
        println!("Passed");
        println!("     Returned value = {:?}", r_value.unwrap());
    }
    else {
        println!("Passed");
        println!("     Returned value = {:?}", r_value.unwrap_err());
    }

    println!("----- End of Tests -----\n");
}

#[test]
fn signed_increment_reaches_each_maximum() {
    assert_eq!(i8::MAX, i8_inc_test(i8::MAX - 1));
    assert_eq!(i16::MAX, i16_inc_test(i16::MAX - 1));
    assert_eq!(i32::MAX, i32_inc_test(i32::MAX - 1));
    assert_eq!(i64::MAX, i64_inc_test(i64::MAX - 1));
}

#[test]
fn signed_increment_leaves_each_minimum() {
    assert_eq!(-127, i8_inc_test(i8::MIN));
    assert_eq!(-32767, i16_inc_test(i16::MIN));
    assert_eq!(-2147483647, i32_inc_test(i32::MIN));
    assert_eq!(-9223372036854775807, i64_inc_test(i64::MIN));
    assert_eq!(0, i32_inc_test(-1));
}

#[test]
fn unsigned_increment_reaches_each_maximum() {
    assert_eq!(255, u8_inc_test(254));
    assert_eq!(65535, u16_inc_test(65534));
    assert_eq!(4294967295, u32_inc_test(4294967294));
    assert_eq!(18446744073709551615, u64_inc_test(18446744073709551614));
}

#[test]
fn string_double_is_two_copies() {
    assert_eq!("abab", string_inc_test("ab".to_string()));
    assert_eq!("", string_inc_test(String::new()));
    let doubled = string_inc_test("héllo wörld ✓".to_string());
    assert_eq!("héllo wörld ✓héllo wörld ✓", doubled);
    let (first, second) = doubled.split_at(doubled.len() / 2);
    assert_eq!("héllo wörld ✓", first);
    assert_eq!("héllo wörld ✓", second);
}

#[test]
fn optional_increment_keeps_absence() {
    assert_eq!(None, optional_type_inc_test(None));
    assert_eq!(Some(1), optional_type_inc_test(Some(0)));
    assert_eq!(Some(0), optional_type_inc_test(Some(-1)));
    assert_eq!(Some(i32::MAX), optional_type_inc_test(Some(i32::MAX - 1)));
    assert_eq!(Some(i32::MIN + 1), optional_type_inc_test(Some(i32::MIN)));
}

#[test]
fn vector_double_keeps_order_in_both_halves() {
    let list: Vec<String> = vec!["b".to_string(), "a".to_string(), "b".to_string()];
    let doubled = vector_inc_test(list.clone());
    assert_eq!(6, doubled.len());
    assert_eq!(list[..], doubled[..3]);
    assert_eq!(list[..], doubled[3..]);
    assert_eq!(vec!["b", "a", "b", "b", "a", "b"], doubled);
}

#[test]
fn vector_double_of_nothing_is_nothing() {
    let doubled = vector_inc_test(Vec::new());
    assert!(doubled.is_empty());
}

#[test]
fn hash_map_gains_zero_entry() {
    let mut mapping: HashMap<String, i32> = HashMap::new();
    mapping.insert("one".to_string(), 1);
    mapping.insert("minus".to_string(), -7);
    let result = hash_map_inc_test(mapping.clone());
    assert_eq!(3, result.len());
    assert_eq!(Some(&0), result.get("zero"));
    assert_eq!(Some(&1), result.get("one"));
    assert_eq!(Some(&-7), result.get("minus"));
    assert_ne!(mapping, result);
}

#[test]
fn hash_map_overwrites_zero_entry() {
    let mut mapping: HashMap<String, i32> = HashMap::new();
    mapping.insert("zero".to_string(), 41);
    mapping.insert("two".to_string(), 2);
    let result = hash_map_inc_test(mapping);
    assert_eq!(2, result.len());
    assert_eq!(Some(&0), result.get("zero"));
    assert_eq!(Some(&2), result.get("two"));
}

#[test]
fn hash_map_of_nothing_holds_only_zero() {
    let result = hash_map_inc_test(HashMap::new());
    assert_eq!(1, result.len());
    assert_eq!(Some(&0), result.get("zero"));
}

#[test]
fn void_takes_any_value() {
    assert_eq!((), void_inc_test(i32::MAX));
    assert_eq!((), void_inc_test(i32::MIN));
}

#[test]
fn checked_sum_of_small_operands() {
    assert_eq!(Ok(5), error_inc_test(0, 5));
    assert_eq!(Ok(u64::MAX), error_inc_test(u64::MAX, 0));
    assert_eq!(Ok(u64::MAX), error_inc_test(u64::MAX - 1, 1));
}

#[test]
fn checked_sum_overflow_carries_operands() {
    assert_eq!(
        Err(ArithmeticError::IntegerOverflow { a: u64::MAX, b: 1 }),
        error_inc_test(u64::MAX, 1)
    );
    assert_eq!(
        Err(ArithmeticError::IntegerOverflow { a: 1, b: u64::MAX }),
        error_inc_test(1, u64::MAX)
    );
    assert_eq!(
        Err(ArithmeticError::IntegerOverflow { a: u64::MAX, b: u64::MAX }),
        error_inc_test(u64::MAX, u64::MAX)
    );
}
