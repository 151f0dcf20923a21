//! Mathematical models of the transforms that text, sequences and mappings
//! are put through, and what holds of each.

use vstd::prelude::*;

verus! {

/// A text followed by a copy of itself.
pub open spec fn text_double(text: Seq<char>) -> Seq<char> {
    text + text
}

/// A list followed by a copy of itself.
pub open spec fn sequence_double<T>(list: Seq<T>) -> Seq<T> {
    list + list
}

/// The key under which the mapping transform stores its entry.
pub open spec fn zero_key() -> Seq<char> {
    "zero"@
}

/// A mapping with the entry `"zero" -> 0` put in, over whatever `"zero"` had.
pub open spec fn mapping_insert_zero(mapping: Map<Seq<char>, i32>) -> Map<Seq<char>, i32> {
    mapping.insert(zero_key(), 0)
}

/// The two halves of a doubled text are each the text: cutting the result in
/// the middle gives back two copies of what went in.
pub proof fn lemma_text_double_halves(text: Seq<char>)
    ensures
        text_double(text).len() == 2 * text.len(),
        text_double(text).subrange(0, text.len() as int) == text,
        text_double(text).subrange(text.len() as int, 2 * text.len() as int) == text,
{
    assert(text_double(text).subrange(0, text.len() as int) =~= text);
    assert(text_double(text).subrange(text.len() as int, 2 * text.len() as int) =~= text);
}

/// A doubled list is twice as long as the list, and each of its halves is the
/// list, item for item in the same order.
pub proof fn lemma_sequence_double_halves<T>(list: Seq<T>)
    ensures
        sequence_double(list).len() == 2 * list.len(),
        sequence_double(list).subrange(0, list.len() as int) == list,
        sequence_double(list).subrange(list.len() as int, 2 * list.len() as int) == list,
        forall|i: int|
            0 <= i < list.len() ==> sequence_double(list)[i] == list[i] && sequence_double(
                list,
            )[list.len() + i] == list[i],
{
    assert(sequence_double(list).subrange(0, list.len() as int) =~= list);
    assert(sequence_double(list).subrange(list.len() as int, 2 * list.len() as int) =~= list);
}

/// Putting the zero entry in keeps every other key with its value, adds no
/// key but `"zero"`, and leaves `"zero"` at 0 whether or not it was there.
pub proof fn lemma_mapping_insert_zero(mapping: Map<Seq<char>, i32>)
    ensures
        mapping_insert_zero(mapping).contains_key(zero_key()),
        mapping_insert_zero(mapping)[zero_key()] == 0,
        forall|key: Seq<char>|
            mapping.contains_key(key) ==> mapping_insert_zero(mapping).contains_key(key),
        forall|key: Seq<char>|
            mapping.contains_key(key) && key != zero_key() ==> mapping_insert_zero(mapping)[key]
                == mapping[key],
        forall|key: Seq<char>|
            mapping_insert_zero(mapping).contains_key(key) ==> key == zero_key()
                || mapping.contains_key(key),
{
}

} // verus!
