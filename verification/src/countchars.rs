//! Counting the characters of a text handed over as a boundary buffer.

use vstd::prelude::*;
use crate::text::{decode_text, decoded, well_formed, BoundaryError};

verus! {

/// The characters of the text in a well-formed buffer, counted in 32 bits:
/// a count that does not fit keeps its low 32 bits.
pub open spec fn character_count(buffer: Seq<u8>) -> nat {
    decoded(buffer).len() % 0x1_0000_0000
}

/// Counts the characters of the text in `buffer`. A buffer that is not
/// well-formed is refused.
pub fn count_characters(buffer: &[u8]) -> (result: Result<u32, BoundaryError>)
    ensures
        well_formed(buffer@) ==> (result matches Ok(count) && count == character_count(buffer@)),
        !well_formed(buffer@) ==> (result matches Err(e) && e == BoundaryError::Encoding),
{
    let text = match decode_text(buffer) {
        Ok(text) => text,
        Err(e) => {
            return Err(e);
        },
    };
    let count: u64 = text.unicode_len() as u64;
    assert((count as u32) == count % 0x1_0000_0000) by (bit_vector);
    Ok(#[verifier::truncate] (count as u32))
}

} // verus!
