//! Text on its way to the native engine.
//!
//! The engine reads a text as bytes up to the first zero byte, the terminator.
//! A text can therefore cross the boundary only if none of its own bytes is
//! zero, and it crosses as its bytes followed by one terminator.

use crate::error::{ErrorCode, ErrorCodeView};
use vstd::prelude::*;
use vstd::utf8::*;

verus! {

/// True when one of the bytes is the terminator.
pub open spec fn has_nul(bytes: Seq<u8>) -> bool {
    exists|i: int| 0 <= i < bytes.len() && bytes[i] == 0u8
}

/// True when the buffer is a text in bounded form: it ends in the terminator
/// and holds no other.
pub open spec fn is_nul_terminated(buffer: Seq<u8>) -> bool {
    &&& buffer.len() > 0
    &&& buffer.last() == 0u8
    &&& !has_nul(buffer.drop_last())
}

/// The bytes of a text in UTF-8, as the engine reads them.
pub open spec fn bytes_of(text: Seq<char>) -> Seq<u8> {
    encode_utf8(text)
}

/// True when the text can cross the boundary: it does not hold the
/// terminator character.
pub open spec fn representable(text: Seq<char>) -> bool {
    !text.contains('\0')
}

/// The bounded form of a text: its bytes and one terminator.
pub open spec fn bounded_form(text: Seq<char>) -> Seq<u8> {
    bytes_of(text).push(0u8)
}

/// Gives a text its bounded form, in a buffer of its own.
///
/// Fails with [`ErrorCode::Unhandled`] exactly when the text holds the
/// terminator.
pub fn nul_terminated(text: &str) -> (r: Result<Vec<u8>, ErrorCode>)
    ensures
        match r {
            Ok(buffer) => {
                &&& representable(text@)
                &&& buffer@ == bounded_form(text@)
                &&& is_nul_terminated(buffer@)
            },
            Err(e) => !representable(text@) && e@ == ErrorCodeView::Unhandled,
        },
{
    proof {
        lemma_has_nul_iff_nul_char(text@);
    }
    let bytes = text.as_bytes();
    let mut buffer: Vec<u8> = Vec::new();
    let mut i: usize = 0;
    while i < bytes.len()
        invariant
            bytes@ == bytes_of(text@),
            has_nul(bytes@) <==> text@.contains('\0'),
            0 <= i <= bytes@.len(),
            buffer@ == bytes@.take(i as int),
            forall|j: int| 0 <= j < i ==> bytes@[j] != 0u8,
        decreases bytes@.len() - i,
    {
        if bytes[i] == 0 {
            return Err(ErrorCode::Unhandled);
        }
        buffer.push(bytes[i]);
        proof {
            assert(bytes@.take(i as int).push(bytes@[i as int]) =~= bytes@.take(i as int + 1));
        }
        i += 1;
    }
    proof {
        assert(bytes@.take(i as int) =~= bytes@);
        lemma_bounded_form_is_nul_terminated(text@);
    }
    buffer.push(0);
    Ok(buffer)
}

/// The bounded form of a text that can cross the boundary is well formed,
/// and the text's bytes are read back from it by dropping the terminator.
pub proof fn lemma_bounded_form_is_nul_terminated(text: Seq<char>)
    requires
        representable(text),
    ensures
        is_nul_terminated(bounded_form(text)),
        bounded_form(text).drop_last() == bytes_of(text),
        bounded_form(text).len() == bytes_of(text).len() + 1,
{
    lemma_has_nul_iff_nul_char(text);
    assert(bounded_form(text).drop_last() =~= bytes_of(text));
}

/// Two texts with one bounded form are the same text.
pub proof fn lemma_bounded_form_injective(a: Seq<char>, b: Seq<char>)
    requires
        bounded_form(a) == bounded_form(b),
    ensures
        a == b,
{
    assert(bounded_form(a).drop_last() =~= bytes_of(a));
    assert(bounded_form(b).drop_last() =~= bytes_of(b));
    encode_utf8_decode_utf8(a);
    encode_utf8_decode_utf8(b);
}

proof fn lemma_scalar_bytes(c: u32)
    by (bit_vector)
    requires
        c <= 0x10FFFF,
    ensures
        c <= 0x7F ==> (((c & 0x7F) as u8 == 0u8) <==> c == 0),
        0xC0u8 | ((c >> 6) & 0x1F) as u8 != 0u8,
        0xE0u8 | ((c >> 12) & 0x0F) as u8 != 0u8,
        0xF0u8 | ((c >> 18) & 0x7) as u8 != 0u8,
        0x80u8 | (c & 0x3F) as u8 != 0u8,
        0x80u8 | ((c >> 6) & 0x3F) as u8 != 0u8,
        0x80u8 | ((c >> 12) & 0x3F) as u8 != 0u8,
{
}

/// The encoding of one character holds the terminator exactly when the
/// character is the terminator character.
proof fn lemma_scalar_has_nul(c: char)
    ensures
        has_nul(encode_scalar(c as u32)) <==> c == '\0',
        encode_scalar(c as u32).len() > 0,
{
    let s = c as u32;
    lemma_scalar_bytes(s);
    let e = encode_scalar(s);
    if c == '\0' {
        assert(e[0] == 0u8);
    } else {
        assert(forall|i: int| 0 <= i < e.len() ==> e[i] != 0u8);
    }
}

/// A text's bytes hold the terminator exactly when the text holds the
/// terminator character.
pub proof fn lemma_has_nul_iff_nul_char(text: Seq<char>)
    ensures
        has_nul(bytes_of(text)) <==> text.contains('\0'),
    decreases text.len(),
{
    if text.len() == 0 {
        assert(bytes_of(text) =~= Seq::<u8>::empty());
    } else {
        let head = encode_scalar(text[0] as u32);
        let rest = text.drop_first();
        let tail = bytes_of(rest);
        lemma_scalar_has_nul(text[0]);
        lemma_has_nul_iff_nul_char(rest);
        assert(bytes_of(text) == head + tail);
        if has_nul(head + tail) {
            let i = choose|i: int| 0 <= i < (head + tail).len() && (head + tail)[i] == 0u8;
            if i < head.len() {
                assert(head[i] == 0u8);
                assert(text[0] == '\0');
            } else {
                assert(tail[i - head.len()] == 0u8);
                let j = choose|j: int| 0 <= j < rest.len() && rest[j] == '\0';
                assert(text[j + 1] == '\0');
            }
        }
        if text.contains('\0') {
            let j = choose|j: int| 0 <= j < text.len() && text[j] == '\0';
            if j == 0 {
                let i = choose|i: int| 0 <= i < head.len() && head[i] == 0u8;
                assert((head + tail)[i] == 0u8);
            } else {
                assert(rest[j - 1] == '\0');
                assert(rest.contains('\0'));
                let i = choose|i: int| 0 <= i < tail.len() && tail[i] == 0u8;
                assert((head + tail)[i + head.len()] == 0u8);
            }
        }
    }
}

} // verus!
