//! Zero bytes in byte strings, and how they relate to NUL characters in text.
//!
//! C reads a string up to its first zero byte, so text can cross to C only if
//! its encoding holds none. UTF-8 uses the zero byte for the NUL character and
//! for nothing else, which is what the lemmas of this module establish.

use vstd::prelude::*;
use vstd::utf8::*;

verus! {

/// No byte of `bytes` is zero.
pub open spec fn nul_free(bytes: Seq<u8>) -> bool {
    forall|i: int| 0 <= i < bytes.len() ==> bytes[i] != 0u8
}

/// `position` is the index of the first zero byte of `bytes`.
pub open spec fn is_first_nul(bytes: Seq<u8>, position: int) -> bool {
    &&& 0 <= position < bytes.len()
    &&& bytes[position] == 0u8
    &&& forall|i: int| 0 <= i < position ==> bytes[i] != 0u8
}

/// The bytes that C reads for `text`: its encoding, then the terminator.
pub open spec fn c_run(text: Seq<char>) -> Seq<u8> {
    encode_utf8(text).push(0u8)
}

/// Finds the first zero byte of `bytes`.
pub fn find_nul(bytes: &[u8]) -> (found: Option<usize>)
    ensures
        match found {
            Some(position) => is_first_nul(bytes@, position as int),
            None => nul_free(bytes@),
        },
{
    let mut i: usize = 0;
    while i < bytes.len()
        invariant
            i <= bytes@.len(),
            forall|j: int| 0 <= j < i ==> bytes@[j] != 0u8,
        decreases bytes@.len() - i,
    {
        if bytes[i] == 0 {
            return Some(i);
        }
        i += 1;
    }
    None
}

proof fn lemma_tagged_byte_nonzero(x: u8)
    by (bit_vector)
    ensures
        0x80u8 | x != 0u8,
        0xC0u8 | x != 0u8,
        0xE0u8 | x != 0u8,
        0xF0u8 | x != 0u8,
{
}

proof fn lemma_single_byte_zero(v: u32)
    by (bit_vector)
    requires
        v <= 0x7F,
    ensures
        ((v & 0x7F) as u8 == 0u8) <==> v == 0u32,
{
}

/// The encoding of one character holds a zero byte exactly when the character
/// is NUL.
pub proof fn lemma_scalar_nul(c: char)
    ensures
        nul_free(encode_scalar(c as u32)) <==> c != '\0',
{
    let v = c as u32;
    char_is_scalar(c);
    let encoded = encode_scalar(v);
    if has_width_1_encoding(v) {
        lemma_single_byte_zero(v);
        assert(encoded[0] == leading_byte_width_1(v));
    } else if has_width_2_encoding(v) {
        lemma_tagged_byte_nonzero(((v >> 6) & 0x1F) as u8);
        lemma_tagged_byte_nonzero((v & 0x3F) as u8);
    } else if has_width_3_encoding(v) {
        lemma_tagged_byte_nonzero(((v >> 12) & 0x0F) as u8);
        lemma_tagged_byte_nonzero(((v >> 6) & 0x3F) as u8);
        lemma_tagged_byte_nonzero((v & 0x3F) as u8);
    } else {
        lemma_tagged_byte_nonzero(((v >> 18) & 0x7) as u8);
        lemma_tagged_byte_nonzero(((v >> 12) & 0x3F) as u8);
        lemma_tagged_byte_nonzero(((v >> 6) & 0x3F) as u8);
        lemma_tagged_byte_nonzero((v & 0x3F) as u8);
    }
}

/// Encoded text holds a zero byte exactly when the text holds a NUL character.
pub proof fn lemma_text_nul(text: Seq<char>)
    ensures
        nul_free(encode_utf8(text)) <==> !text.contains('\0'),
    decreases text.len(),
{
    if text.len() > 0 {
        let head = encode_scalar(text[0] as u32);
        let rest = text.drop_first();
        let tail = encode_utf8(rest);
        lemma_scalar_nul(text[0]);
        lemma_text_nul(rest);
        assert(encode_utf8(text) == head + tail);
        if nul_free(head + tail) {
            assert forall|i: int| 0 <= i < head.len() implies head[i] != 0u8 by {
                assert((head + tail)[i] == head[i]);
            }
            assert forall|i: int| 0 <= i < tail.len() implies tail[i] != 0u8 by {
                assert((head + tail)[head.len() + i] == tail[i]);
            }
            assert forall|i: int| 0 <= i < text.len() implies text[i] != '\0' by {
                if i > 0 {
                    assert(rest[i - 1] == text[i]);
                    assert(rest.contains(text[i]));
                }
            }
        }
        if !text.contains('\0') {
            assert(text[0] != '\0');
            assert forall|i: int| 0 <= i < rest.len() implies rest[i] != '\0' by {
                assert(text[i + 1] == rest[i]);
                assert(text.contains(rest[i]));
            }
        }
    }
}

/// Encoding goes through concatenation.
pub proof fn lemma_encode_concat(front: Seq<char>, back: Seq<char>)
    ensures
        encode_utf8(front + back) == encode_utf8(front) + encode_utf8(back),
    decreases front.len(),
{
    if front.len() == 0 {
        assert(front + back =~= back);
        assert(encode_utf8(front) + encode_utf8(back) =~= encode_utf8(back));
    } else {
        lemma_encode_concat(front.drop_first(), back);
        assert((front + back).drop_first() =~= front.drop_first() + back);
        assert(encode_utf8(front + back) =~= encode_utf8(front) + encode_utf8(back));
    }
}

/// Text followed by a NUL character encodes to the bytes of the text followed
/// by one zero byte.
pub proof fn lemma_encode_terminated(text: Seq<char>)
    ensures
        encode_utf8(text.push('\0')) == encode_utf8(text).push(0u8),
{
    let nul = seq!['\0'];
    assert(text.push('\0') =~= text + nul);
    lemma_encode_concat(text, nul);
    assert(encode_utf8(nul) =~= seq![0u8]) by {
        reveal_with_fuel(encode_utf8, 2);
        assert(nul.drop_first() =~= Seq::<char>::empty());
        assert('\0' as u32 == 0u32);
        assert(0u32 & 0x7F == 0u32) by (bit_vector);
    }
    assert(encode_utf8(text) + seq![0u8] =~= encode_utf8(text).push(0u8));
}

/// In the run of NUL-free text the terminator is the first zero byte.
pub proof fn lemma_run_ends_at_first_nul(text: Seq<char>)
    requires
        !text.contains('\0'),
    ensures
        is_first_nul(c_run(text), encode_utf8(text).len() as int),
{
    lemma_text_nul(text);
}

} // verus!
