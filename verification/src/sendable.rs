//! Which texts can be sent as header values, said of their characters.
//!
//! The header types judge a text by the bytes of its encoding. A caller
//! thinks in characters: a text can be sent unless it holds a control
//! character other than the tab.

use crate::header::{is_header_value, is_value_byte};
use vstd::prelude::*;
use vstd::utf8::*;

verus! {

/// The characters a header value may hold: everything from the space
/// upwards but DEL, and the horizontal tab.
pub open spec fn is_value_char(c: char) -> bool {
    (c >= ' ' && c != '\u{7f}') || c == '\t'
}

/// Whether every character of a text is one a header value may hold.
pub open spec fn is_value_text(text: Seq<char>) -> bool {
    forall|i: int| 0 <= i < text.len() ==> is_value_char(#[trigger] text[i])
}

/// Whether every byte is one a header value may hold.
pub open spec fn all_value_bytes(bytes: Seq<u8>) -> bool {
    forall|i: int| 0 <= i < bytes.len() ==> is_value_byte(#[trigger] bytes[i])
}

/// The bytes of one encoded character are value bytes if and only if the
/// character is a value character: below 128 the byte is the character, and
/// from 128 on every byte of the encoding is at least 128.
proof fn lemma_encoded_char(c: char)
    ensures
        all_value_bytes(encode_scalar(c as u32)) <==> is_value_char(c),
{
    let v = c as u32;
    let bytes = encode_scalar(v);
    char_is_scalar(c);
    assert(forall|x: u8| 0x80u8 | x >= 0x80u8) by (bit_vector);
    assert(forall|x: u8| 0xC0u8 | x >= 0x80u8) by (bit_vector);
    assert(forall|x: u8| 0xE0u8 | x >= 0x80u8) by (bit_vector);
    assert(forall|x: u8| 0xF0u8 | x >= 0x80u8) by (bit_vector);
    assert(v <= 0x7F ==> v & 0x7F == v) by (bit_vector);
    if has_width_1_encoding(v) {
        assert(bytes[0] == v);
        if is_value_char(c) {
            assert(all_value_bytes(bytes));
        }
        if all_value_bytes(bytes) {
            assert(is_value_byte(bytes[0]));
        }
    } else {
        assert(is_value_char(c));
        assert(forall|i: int| 0 <= i < bytes.len() ==> #[trigger] bytes[i] >= 0x80u8);
    }
}

/// A text can be made into a header value if and only if it holds no
/// control character other than the tab.
pub proof fn lemma_header_value_by_chars(text: Seq<char>)
    ensures
        is_header_value(text) <==> is_value_text(text),
    decreases text.len(),
{
    if text.len() > 0 {
        let head = encode_scalar(text[0] as u32);
        let rest = text.drop_first();
        let tail = encode_utf8(rest);
        lemma_encoded_char(text[0]);
        lemma_header_value_by_chars(rest);
        assert(encode_utf8(text) == head + tail);
        assert(all_value_bytes(head + tail) <==> all_value_bytes(head) && all_value_bytes(tail)) by {
            if all_value_bytes(head + tail) {
                assert forall|i: int| 0 <= i < head.len() implies is_value_byte(
                    #[trigger] head[i],
                ) by {
                    assert((head + tail)[i] == head[i]);
                }
                assert forall|i: int| 0 <= i < tail.len() implies is_value_byte(
                    #[trigger] tail[i],
                ) by {
                    assert((head + tail)[head.len() + i] == tail[i]);
                }
            }
        }
        assert(is_value_text(text) <==> is_value_char(text[0]) && is_value_text(rest)) by {
            if is_value_text(text) {
                assert forall|i: int| 0 <= i < rest.len() implies is_value_char(
                    #[trigger] rest[i],
                ) by {
                    assert(rest[i] == text[i + 1]);
                }
            }
            if is_value_char(text[0]) && is_value_text(rest) {
                assert forall|i: int| 0 <= i < text.len() implies is_value_char(
                    #[trigger] text[i],
                ) by {
                    if i > 0 {
                        assert(text[i] == rest[i - 1]);
                    }
                }
            }
        }
    }
}

} // verus!
