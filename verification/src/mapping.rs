//! Mappings from text to 32-bit integers, held in a `HashMap<String, i32>`
//! and read through its deep view, a `Map<Seq<char>, i32>`.
//!
//! vstd describes `HashMap::insert` only for key types known to obey its key
//! model, and `String` is not among them. What an insertion does to a mapping
//! with text keys is therefore stated here, over the deep view, and taken on
//! trust.

use std::collections::HashMap;
use vstd::prelude::*;

verus! {

/// Two mappings that hold the same keyed values stand for the same mapping
/// from text to integers.
pub proof fn lemma_same_entries(left: HashMap<String, i32>, right: HashMap<String, i32>)
    requires
        left@ == right@,
    ensures
        left.deep_view() == right.deep_view(),
{
    reveal(vstd::std_specs::hash::hash_map_deep_view_impl);
    assert(left.deep_view() =~= right.deep_view());
}

/// `HashMap::insert` on a mapping from text to integers: afterwards the key
/// maps to the value, every other entry is as it was, and what the key
/// mapped to before is handed back.
#[verifier::external_body]
pub(crate) fn insert_entry(
    mapping: &mut HashMap<String, i32>,
    key: String,
    value: i32,
) -> (previous: Option<i32>)
    ensures
        final(mapping).deep_view() == old(mapping).deep_view().insert(key@, value),
        previous == if old(mapping).deep_view().contains_key(key@) {
            Some(old(mapping).deep_view()[key@])
        } else {
            None
        },
{
    mapping.insert(key, value)
}

} // verus!
