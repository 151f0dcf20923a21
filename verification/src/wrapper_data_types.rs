//! One transform per value shape: scalars, text, optionals, sequences,
//! mappings, and a fallible sum of unsigned integers.

use std::collections::HashMap;
use vstd::prelude::*;
use crate::mapping::{insert_entry, lemma_same_entries};
use crate::shapes::{mapping_insert_zero, sequence_double, text_double};

verus! {

/// What went wrong in an arithmetic operation.
#[derive(Debug, Clone, Copy, PartialEq, Eq, Structural)]
pub enum ArithmeticError {
    /// The sum of `a` and `b` does not fit in 64 unsigned bits.
    IntegerOverflow { a: u64, b: u64 },
}

/// Flips a boolean.
pub fn bool_inc_test(value: bool) -> (result: bool)
    ensures
        result == !value,
{
    return !value
}

/// The successor of an `i8` below its maximum.
pub fn i8_inc_test(value: i8) -> (result: i8)
    requires
        value < i8::MAX,
    ensures
        result == value + 1,
{
    return value + 1
}

/// The successor of an `i16` below its maximum.
pub fn i16_inc_test(value: i16) -> (result: i16)
    requires
        value < i16::MAX,
    ensures
        result == value + 1,
{
    return value + 1
}

/// The successor of an `i32` below its maximum.
pub fn i32_inc_test(value: i32) -> (result: i32)
    requires
        value < i32::MAX,
    ensures
        result == value + 1,
{
    return value + 1
}

/// The successor of an `i64` below its maximum.
pub fn i64_inc_test(value: i64) -> (result: i64)
    requires
        value < i64::MAX,
    ensures
        result == value + 1,
{
    return value + 1
}

/// The successor of a `u8` below its maximum.
pub fn u8_inc_test(value: u8) -> (result: u8)
    requires
        value < u8::MAX,
    ensures
        result == value + 1,
{
    return value + 1
}

/// The successor of a `u16` below its maximum.
pub fn u16_inc_test(value: u16) -> (result: u16)
    requires
        value < u16::MAX,
    ensures
        result == value + 1,
{
    return value + 1
}

/// The successor of a `u32` below its maximum.
pub fn u32_inc_test(value: u32) -> (result: u32)
    requires
        value < u32::MAX,
    ensures
        result == value + 1,
{
    return value + 1
}

/// The successor of a `u64` below its maximum.
pub fn u64_inc_test(value: u64) -> (result: u64)
    requires
        value < u64::MAX,
    ensures
        result == value + 1,
{
    return value + 1
}

/// Increments the integer inside an optional value and leaves an absent one
/// absent. A present `i32::MAX` has no successor and is not accepted.
pub fn optional_type_inc_test(value: Option<i32>) -> (result: Option<i32>)
    requires
        value matches Some(x) ==> x < i32::MAX,
    ensures
        value is None ==> result is None,
        value matches Some(x) ==> (result matches Some(y) && y == x + 1),
{
    let r_value: Option<i32>;

    match value {
        Option::Some(val) => r_value = Some(val + 1),
        Option::None => r_value = None,
    };

    return r_value
}

/// The text followed by a copy of itself.
pub fn string_inc_test(value: String) -> (result: String)
    ensures
        result@ == text_double(value@),
{
    let mut doubled = value.clone();
    doubled.append(value.as_str());
    return doubled;
}

/// The list followed by a copy of itself.
pub fn vector_inc_test(mut value: Vec<String>) -> (result: Vec<String>)
    ensures
        result@ == sequence_double(value@),
        result.deep_view() == sequence_double(value.deep_view()),
{
    let mut new_value: Vec<String> = value.clone();
    new_value.append(&mut value);

    return new_value;
}

/// A copy of the mapping in which `"zero"` maps to 0.
pub fn hash_map_inc_test(value: HashMap<String, i32>) -> (result: HashMap<String, i32>)
    ensures
        result.deep_view() == mapping_insert_zero(value.deep_view()),
{
    let mut result = value.clone();
    proof {
        lemma_same_entries(value, result);
    }
    insert_entry(&mut result, String::from_str("zero"), 0);

    return result;
}

/// Takes any `i32` and does nothing with it.
pub fn void_inc_test(_value: i32) -> (result: ())
    ensures
        result == (),
{
    return ();
}

/// The sum of `a` and `b` where it fits in a `u64`; otherwise the overflow
/// error that carries both operands.
pub fn error_inc_test(a: u64, b: u64) -> (result: Result<u64, ArithmeticError>)
    ensures
        a + b <= u64::MAX ==> (result matches Ok(sum) && sum == a + b),
        a + b > u64::MAX ==> (result matches Err(e) && e == (
            ArithmeticError::IntegerOverflow { a, b }
        )),
{
    let a1: u64 = a;
    a1.checked_add(b).ok_or(ArithmeticError::IntegerOverflow { a, b })
}

} // verus!
