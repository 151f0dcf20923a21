//! Text at the boundary: a byte buffer that holds UTF-8 and ends in one zero
//! byte, which is the only zero byte in it.

use vstd::prelude::*;
use vstd::slice::slice_subrange;
use vstd::utf8::*;
use crate::shapes::text_double;

verus! {

/// Why a value could not be taken across the boundary.
#[derive(Debug, Clone, Copy, PartialEq, Eq, Structural)]
pub enum BoundaryError {
    /// The bytes handed over are not well-formed text.
    Encoding,
}

/// The error of `core::str::from_utf8`, carried through unread.
#[verifier::external_type_specification]
#[verifier::external_body]
pub struct ExUtf8Error(core::str::Utf8Error);

/// `core::str::from_utf8` accepts a byte slice exactly when it is valid
/// UTF-8, and the string slice it then returns has those bytes as its
/// encoding.
pub assume_specification[ core::str::from_utf8 ](v: &[u8]) -> (result: Result<
    &str,
    core::str::Utf8Error,
>)
    ensures
        result is Ok <==> valid_utf8(v@),
        result matches Ok(text) ==> encode_utf8(text@) == v@,
;

/// The buffer ends in a zero byte and holds no other.
pub open spec fn framed(buffer: Seq<u8>) -> bool {
    &&& buffer.len() > 0
    &&& buffer.last() == 0
    &&& forall|i: int| 0 <= i < buffer.len() - 1 ==> buffer[i] != 0
}

/// The bytes in front of the terminator.
pub open spec fn payload(buffer: Seq<u8>) -> Seq<u8> {
    buffer.drop_last()
}

/// The buffer is framed and what it frames is valid UTF-8.
pub open spec fn well_formed(buffer: Seq<u8>) -> bool {
    framed(buffer) && valid_utf8(payload(buffer))
}

/// The text that a well-formed buffer stands for.
pub open spec fn decoded(buffer: Seq<u8>) -> Seq<char> {
    decode_utf8(payload(buffer))
}

/// The boundary form of a text: its UTF-8 bytes, then the terminator.
pub open spec fn encoded(text: Seq<char>) -> Seq<u8> {
    encode_utf8(text).push(0)
}

/// Only the character U+0000 has a zero byte in its encoding.
proof fn lemma_scalar_zero_byte(scalar: u32, i: int)
    requires
        is_scalar(scalar),
        0 <= i < encode_scalar(scalar).len(),
    ensures
        encode_scalar(scalar)[i] == 0 <==> scalar == 0,
{
    assert(has_width_1_encoding(scalar) ==> (leading_byte_width_1(scalar) == 0 <==> scalar == 0))
        by (bit_vector);
    assert(leading_byte_width_2(scalar) != 0) by (bit_vector);
    assert(leading_byte_width_3(scalar) != 0) by (bit_vector);
    assert(leading_byte_width_4(scalar) != 0) by (bit_vector);
    assert(last_continuation_byte(scalar) != 0) by (bit_vector);
    assert(second_last_continuation_byte(scalar) != 0) by (bit_vector);
    assert(third_last_continuation_byte(scalar) != 0) by (bit_vector);
}

/// The encoding of a text holds a zero byte exactly when the text holds the
/// character U+0000.
pub proof fn lemma_zero_byte_iff_nul(text: Seq<char>)
    ensures
        encode_utf8(text).contains(0u8) <==> text.contains('\0'),
    decreases text.len(),
{
    if text.len() > 0 {
        let head = encode_scalar(text[0] as u32);
        let rest = text.drop_first();
        lemma_zero_byte_iff_nul(rest);
        char_is_scalar(text[0]);
        assert(encode_utf8(text) == head + encode_utf8(rest));
        if encode_utf8(text).contains(0u8) {
            let i: int = choose|i: int|
                0 <= i < encode_utf8(text).len() && encode_utf8(text)[i] == 0u8;
            if i < head.len() {
                lemma_scalar_zero_byte(text[0] as u32, i);
                char_u32_cast(text[0], 0u32);
                char_u32_cast('\0', 0u32);
            } else {
                assert(encode_utf8(rest)[i - head.len()] == 0u8);
                let j: int = choose|j: int| 0 <= j < rest.len() && rest[j] == '\0';
                assert(text[j + 1] == '\0');
            }
        }
        if text.contains('\0') {
            let j: int = choose|j: int| 0 <= j < text.len() && text[j] == '\0';
            if j == 0 {
                lemma_scalar_zero_byte(0u32, 0);
                assert(encode_utf8(text)[0] == 0u8);
            } else {
                assert(rest[j - 1] == '\0');
                let i: int = choose|i: int|
                    0 <= i < encode_utf8(rest).len() && encode_utf8(rest)[i] == 0u8;
                assert(encode_utf8(text)[head.len() + i] == 0u8);
            }
        }
    }
}

/// The encoding of two texts in a row is the two encodings in a row.
pub proof fn lemma_encode_concat(left: Seq<char>, right: Seq<char>)
    ensures
        encode_utf8(left + right) == encode_utf8(left) + encode_utf8(right),
    decreases left.len(),
{
    if left.len() == 0 {
        assert(left + right =~= right);
        assert(encode_utf8(left) + encode_utf8(right) =~= encode_utf8(right));
    } else {
        lemma_encode_concat(left.drop_first(), right);
        assert((left + right).drop_first() =~= left.drop_first() + right);
        assert(encode_utf8(left + right) =~= encode_utf8(left) + encode_utf8(right));
    }
}

/// The encoding of a doubled text is the encoding of the text twice over, and
/// each half of it decodes to the text.
pub proof fn lemma_text_double_pieces(text: Seq<char>)
    ensures
        encode_utf8(text_double(text)) == encode_utf8(text) + encode_utf8(text),
        decode_utf8(encode_utf8(text_double(text)).subrange(0, encode_utf8(text).len() as int))
            == text,
        decode_utf8(
            encode_utf8(text_double(text)).subrange(
                encode_utf8(text).len() as int,
                2 * encode_utf8(text).len() as int,
            ),
        ) == text,
{
    let bytes = encode_utf8(text);
    lemma_encode_concat(text, text);
    encode_utf8_decode_utf8(text);
    assert((bytes + bytes).subrange(0, bytes.len() as int) =~= bytes);
    assert((bytes + bytes).subrange(bytes.len() as int, 2 * bytes.len() as int) =~= bytes);
}

/// Doubling a text brings no character U+0000 into it.
pub proof fn lemma_double_has_no_nul(text: Seq<char>)
    requires
        !text.contains('\0'),
    ensures
        !text_double(text).contains('\0'),
{
    if text_double(text).contains('\0') {
        let i: int = choose|i: int|
            0 <= i < text_double(text).len() && text_double(text)[i] == '\0';
        if i < text.len() {
            assert(text[i] == '\0');
        } else {
            assert(text[i - text.len()] == '\0');
        }
    }
}

/// A text without the character U+0000 comes back unchanged from its
/// boundary form.
pub proof fn lemma_encoded_round_trip(text: Seq<char>)
    requires
        !text.contains('\0'),
    ensures
        well_formed(encoded(text)),
        decoded(encoded(text)) == text,
{
    lemma_zero_byte_iff_nul(text);
    encode_utf8_valid_utf8(text);
    encode_utf8_decode_utf8(text);
    assert(payload(encoded(text)) =~= encode_utf8(text));
    assert forall|i: int| 0 <= i < encoded(text).len() - 1 implies encoded(text)[i] != 0 by {
        assert(encode_utf8(text)[i] == encoded(text)[i]);
    }
}

/// What a well-formed buffer decodes to encodes to that buffer again.
pub proof fn lemma_decoded_round_trip(buffer: Seq<u8>)
    requires
        well_formed(buffer),
    ensures
        !decoded(buffer).contains('\0'),
        encoded(decoded(buffer)) == buffer,
{
    decode_utf8_encode_utf8(payload(buffer));
    lemma_zero_byte_iff_nul(decoded(buffer));
    assert(encoded(decoded(buffer)) =~= buffer);
}

/// Tells whether the buffer ends in its only zero byte.
pub fn is_framed(buffer: &[u8]) -> (result: bool)
    ensures
        result == framed(buffer@),
{
    let n: usize = buffer.len();
    if n == 0 {
        return false;
    }
    if buffer[n - 1] != 0 {
        return false;
    }
    let mut i: usize = 0;
    while i < n - 1
        invariant
            n == buffer@.len(),
            n > 0,
            i <= n - 1,
            forall|j: int| 0 <= j < i ==> buffer@[j] != 0,
        decreases n - i,
    {
        if buffer[i] == 0 {
            return false;
        }
        i += 1;
    }
    true
}

/// Reads the text out of a boundary buffer, or refuses the buffer when it is
/// not well-formed.
pub fn decode_text(buffer: &[u8]) -> (result: Result<&str, BoundaryError>)
    ensures
        well_formed(buffer@) ==> (result matches Ok(text) && text@ == decoded(buffer@)),
        !well_formed(buffer@) ==> (result matches Err(e) && e == BoundaryError::Encoding),
{
    if !is_framed(buffer) {
        return Err(BoundaryError::Encoding);
    }
    let body = slice_subrange(buffer, 0, buffer.len() - 1);
    assert(body@ == payload(buffer@));
    match core::str::from_utf8(body) {
        Ok(text) => {
            proof {
                encode_utf8_decode_utf8(text@);
            }
            Ok(text)
        },
        Err(_) => Err(BoundaryError::Encoding),
    }
}

/// Writes a text in its boundary form. A text that holds the character
/// U+0000 has none and is refused.
pub fn encode_text(text: &str) -> (result: Result<Vec<u8>, BoundaryError>)
    ensures
        !text@.contains('\0') ==> (result matches Ok(buffer) && buffer@ == encoded(text@)),
        text@.contains('\0') ==> (result matches Err(e) && e == BoundaryError::Encoding),
{
    let bytes = text.as_bytes();
    proof {
        lemma_zero_byte_iff_nul(text@);
    }
    let mut buffer: Vec<u8> = Vec::new();
    let mut i: usize = 0;
    while i < bytes.len()
        invariant
            bytes@ == encode_utf8(text@),
            bytes@.contains(0u8) <==> text@.contains('\0'),
            i <= bytes@.len(),
            buffer@ == bytes@.subrange(0, i as int),
            forall|j: int| 0 <= j < i ==> bytes@[j] != 0,
        decreases bytes@.len() - i,
    {
        if bytes[i] == 0 {
            assert(bytes@[i as int] == 0u8);
            return Err(BoundaryError::Encoding);
        }
        buffer.push(bytes[i]);
        i += 1;
    }
    assert(buffer@ == bytes@);
    buffer.push(0);
    Ok(buffer)
}

/// Takes a text across the boundary and back: reads it out of `buffer`,
/// doubles it, and writes the doubled text in its boundary form. A buffer
/// that is not well-formed is refused.
pub fn text_passthrough(buffer: &[u8]) -> (result: Result<Vec<u8>, BoundaryError>)
    ensures
        well_formed(buffer@) ==> (result matches Ok(out) && out@ == encoded(
            text_double(decoded(buffer@)),
        )),
        !well_formed(buffer@) ==> (result matches Err(e) && e == BoundaryError::Encoding),
{
    let text = match decode_text(buffer) {
        Ok(text) => text,
        Err(e) => {
            return Err(e);
        },
    };
    let mut doubled = String::from_str(text);
    doubled.append(text);
    proof {
        lemma_decoded_round_trip(buffer@);
        lemma_double_has_no_nul(text@);
    }
    encode_text(doubled.as_str())
}

} // verus!
