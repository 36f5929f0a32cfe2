//! Which texts can be sent as a header value.
//!
//! A header value is a sequence of bytes. A text is sent as its UTF-8
//! encoding, so it can be sent when none of its characters is a control
//! character other than the tab.

use crate::header::{value_byte_allowed, value_bytes_allowed};
use vstd::prelude::*;
use vstd::utf8::*;

verus! {

/// A character that may stand in a header value: a tab, or anything from
/// the space upward except DEL.
pub open spec fn char_allowed(c: char) -> bool {
    c == '\t' || (c >= ' ' && c != '\u{7f}')
}

/// Every character of the text may stand in a header value.
pub open spec fn text_allowed(text: Seq<char>) -> bool {
    forall|i: int| 0 <= i < text.len() ==> char_allowed(#[trigger] text[i])
}

/// The text of an optional fragment.
pub open spec fn text_of(fragment: Option<String>) -> Option<Seq<char>> {
    match fragment {
        Some(s) => Some(s@),
        None => None,
    }
}

proof fn lemma_wide_scalar_bytes(s: u32)
    by (bit_vector)
    ensures
        leading_byte_width_2(s) >= 0x80,
        leading_byte_width_3(s) >= 0x80,
        leading_byte_width_4(s) >= 0x80,
        last_continuation_byte(s) >= 0x80,
        second_last_continuation_byte(s) >= 0x80,
        third_last_continuation_byte(s) >= 0x80,
{
}

proof fn lemma_narrow_scalar_byte(s: u32)
    by (bit_vector)
    requires
        s <= 0x7F,
    ensures
        leading_byte_width_1(s) == s,
{
}

/// The bytes of one encoded character are allowed exactly when the
/// character is.
proof fn lemma_scalar_allowed(c: char)
    ensures
        value_bytes_allowed(encode_scalar(c as u32)) <==> char_allowed(c),
{
    let s = c as u32;
    let bytes = encode_scalar(s);
    lemma_wide_scalar_bytes(s);
    if has_width_1_encoding(s) {
        lemma_narrow_scalar_byte(s);
        assert(bytes[0] == s);
        if char_allowed(c) {
            assert forall|i: int| 0 <= i < bytes.len() implies value_byte_allowed(
                #[trigger] bytes[i],
            ) by {
                assert(bytes[i] == bytes[0]);
            }
        } else {
            assert(!value_byte_allowed(bytes[0]));
        }
    } else {
        assert(char_allowed(c));
        assert forall|i: int| 0 <= i < bytes.len() implies value_byte_allowed(
            #[trigger] bytes[i],
        ) by {
            assert(bytes[i] >= 0x80);
        }
    }
}

/// Allowed byte sequences are closed under concatenation and splitting.
pub proof fn lemma_bytes_allowed_concat(a: Seq<u8>, b: Seq<u8>)
    ensures
        value_bytes_allowed(a + b) <==> value_bytes_allowed(a) && value_bytes_allowed(b),
{
    let ab = a + b;
    if value_bytes_allowed(ab) {
        assert forall|i: int| 0 <= i < a.len() implies value_byte_allowed(#[trigger] a[i]) by {
            assert(ab[i] == a[i]);
        }
        assert forall|i: int| 0 <= i < b.len() implies value_byte_allowed(#[trigger] b[i]) by {
            assert(ab[a.len() + i] == b[i]);
        }
    }
    if value_bytes_allowed(a) && value_bytes_allowed(b) {
        assert forall|i: int| 0 <= i < ab.len() implies value_byte_allowed(#[trigger] ab[i]) by {
            if i < a.len() {
                assert(ab[i] == a[i]);
            } else {
                assert(ab[i] == b[i - a.len()]);
            }
        }
    }
}

/// Allowed texts are closed under concatenation and splitting.
pub proof fn lemma_text_allowed_concat(a: Seq<char>, b: Seq<char>)
    ensures
        text_allowed(a + b) <==> text_allowed(a) && text_allowed(b),
{
    let ab = a + b;
    if text_allowed(ab) {
        assert forall|i: int| 0 <= i < a.len() implies char_allowed(#[trigger] a[i]) by {
            assert(ab[i] == a[i]);
        }
        assert forall|i: int| 0 <= i < b.len() implies char_allowed(#[trigger] b[i]) by {
            assert(ab[a.len() + i] == b[i]);
        }
    }
    if text_allowed(a) && text_allowed(b) {
        assert forall|i: int| 0 <= i < ab.len() implies char_allowed(#[trigger] ab[i]) by {
            if i < a.len() {
                assert(ab[i] == a[i]);
            } else {
                assert(ab[i] == b[i - a.len()]);
            }
        }
    }
}

/// A text with a control character other than the tab, a line feed for
/// one, or with DEL is not allowed.
pub proof fn lemma_control_character_refused(text: Seq<char>, at: int)
    requires
        0 <= at < text.len(),
        (text[at] < ' ' && text[at] != '\t') || text[at] == '\u{7f}',
    ensures
        !text_allowed(text),
{
    assert(!char_allowed(text[at]));
}

/// A text is allowed exactly when every byte of its UTF-8 encoding is.
pub proof fn lemma_text_allowed_bytes(text: Seq<char>)
    ensures
        text_allowed(text) <==> value_bytes_allowed(encode_utf8(text)),
    decreases text.len(),
{
    if text.len() > 0 {
        let head = seq![text[0]];
        let tail = text.drop_first();
        assert(text =~= head + tail);
        lemma_text_allowed_concat(head, tail);
        lemma_text_allowed_bytes(tail);
        lemma_scalar_allowed(text[0]);
        lemma_bytes_allowed_concat(encode_scalar(text[0] as u32), encode_utf8(tail));
        assert(text_allowed(head) <==> char_allowed(text[0])) by {
            assert(head[0] == text[0]);
        }
    }
}

} // verus!
