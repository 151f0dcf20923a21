use boundary_marshal::countchars::count_characters;
use boundary_marshal::text::{encode_text, BoundaryError};

#[test]
fn count_hello_world() {
    // The text as it crosses the boundary: its bytes and the terminator.
    let message = "Hello World!";
    let c_string = encode_text(message).expect("a text without NUL has a boundary form");

    // Call into the library function to count the characters.
    let count = count_characters(&c_string);
    println!("\nThe number of characters in {} = {:?}", message, count);
    assert_eq!(Ok(12), count);
}

#[test]
fn count_counts_characters_not_bytes() {
    assert_eq!(Ok(2), count_characters(b"Hi\0"));
    assert_eq!(Ok(0), count_characters(b"\0"));
    // Two bytes, three bytes and four bytes for one character each.
    assert_eq!(Ok(1), count_characters(&[0xC3, 0xA9, 0]));
    assert_eq!(Ok(1), count_characters(&[0xE2, 0x9C, 0x93, 0]));
    assert_eq!(Ok(1), count_characters(&[0xF0, 0x9F, 0x98, 0x80, 0]));
    let buffer = encode_text("héllo ✓ 😀").unwrap();
    assert_eq!(16, buffer.len());
    assert_eq!(Ok(9), count_characters(&buffer));
}

#[test]
fn count_refuses_malformed_utf8() {
    // A lone continuation byte, a cut-off sequence, an overlong form, a surrogate.
    assert_eq!(Err(BoundaryError::Encoding), count_characters(&[0x80, 0]));
    assert_eq!(Err(BoundaryError::Encoding), count_characters(&[0x48, 0xC3, 0]));
    assert_eq!(Err(BoundaryError::Encoding), count_characters(&[0xC0, 0x80, 0]));
    assert_eq!(Err(BoundaryError::Encoding), count_characters(&[0xED, 0xA0, 0x80, 0]));
    assert_eq!(Err(BoundaryError::Encoding), count_characters(&[0xFF, 0]));
}

#[test]
fn count_refuses_bad_framing() {
    assert_eq!(Err(BoundaryError::Encoding), count_characters(b""));
    assert_eq!(Err(BoundaryError::Encoding), count_characters(b"Hi"));
    assert_eq!(Err(BoundaryError::Encoding), count_characters(b"H\0i\0"));
    assert_eq!(Err(BoundaryError::Encoding), count_characters(b"Hi\0\0"));
    assert_eq!(Err(BoundaryError::Encoding), count_characters(b"\0Hi"));
}
