//! The smallest boundary call: one boolean in, one boolean out.

use vstd::prelude::*;

verus! {

/// Flips a boolean.
pub fn bool_inc_test(value: bool) -> (result: bool)
    ensures
        result == !value,
{
    !value
}

} // verus!
