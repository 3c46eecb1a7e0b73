//! Text and the bytes that encode it.
//!
//! Requests arrive as text, and they are searched and cut by byte. The facts
//! here carry what is found among the bytes over to the characters.

use vstd::prelude::*;
use vstd::string::*;
use vstd::utf8::*;

verus! {

/// A byte with its top bit set is none of the first 128, whatever its other
/// bits are.
proof fn lemma_marked_byte_is_high(bits: u8)
    by (bit_vector)
    ensures
        0x80u8 | bits >= 0x80,
        0xc0u8 | bits >= 0x80,
        0xe0u8 | bits >= 0x80,
        0xf0u8 | bits >= 0x80,
{
}

/// A character of the first 128 is encoded by the one byte of the same number.
proof fn lemma_low_scalar_byte(scalar: u32)
    by (bit_vector)
    requires
        scalar <= 0x7f,
    ensures
        (scalar & 0x7f) as u8 == scalar as u8,
        (scalar & 0x7f) as u8 <= 0x7f,
        (scalar as u8) as u32 == scalar,
{
}

/// How one character is encoded: a character of the first 128 by the byte of
/// the same number, any other by two to four bytes that all lie above 127.
pub proof fn lemma_encoding_of_char(c: char)
    ensures
        1 <= encode_scalar(c as u32).len() <= 4,
        c as u32 <= 0x7f ==> encode_scalar(c as u32) =~= seq![c as u8],
        c as u32 > 0x7f ==> forall|k: int|
            0 <= k < encode_scalar(c as u32).len() ==> #[trigger] encode_scalar(c as u32)[k]
                >= 0x80,
{
    let scalar = c as u32;
    char_is_scalar(c);
    if has_width_1_encoding(scalar) {
        lemma_low_scalar_byte(scalar);
    } else {
        lemma_marked_byte_is_high(((scalar >> 6) & 0x1f) as u8);
        lemma_marked_byte_is_high(((scalar >> 12) & 0x0f) as u8);
        lemma_marked_byte_is_high(((scalar >> 18) & 0x7) as u8);
        lemma_marked_byte_is_high((scalar & 0x3f) as u8);
        lemma_marked_byte_is_high(((scalar >> 6) & 0x3f) as u8);
        lemma_marked_byte_is_high(((scalar >> 12) & 0x3f) as u8);
    }
}

/// Where a byte of the first 128 occurs among the bytes of a character: it is
/// the whole encoding of the character of the same number, and it occurs in
/// the encoding of no other character.
pub proof fn lemma_ascii_byte_in_encoding(c: char, ascii: char)
    requires
        ascii <= '\u{7f}',
    ensures
        ascii as u8 <= 0x7f,
        c == ascii ==> encode_scalar(c as u32) =~= seq![ascii as u8],
        c != ascii ==> forall|k: int|
            0 <= k < encode_scalar(c as u32).len() ==> #[trigger] encode_scalar(c as u32)[k]
                != ascii as u8,
{
    lemma_encoding_of_char(c);
}

/// The encoding of a text is the encoding of its first character followed by
/// the encoding of the rest.
pub proof fn lemma_encoding_unfolds(text: Seq<char>)
    requires
        text.len() > 0,
    ensures
        encode_utf8(text) == encode_scalar(text[0] as u32) + encode_utf8(text.drop_first()),
{
}

/// A text can be encoded in two parts: the bytes of a text are the bytes of
/// any beginning of it followed by the bytes of what is left, and the two
/// meet at the first byte of a character.
pub proof fn lemma_encoding_splits(text: Seq<char>, k: int)
    requires
        0 <= k <= text.len(),
    ensures
        encode_utf8(text) =~= encode_utf8(text.take(k)) + encode_utf8(text.skip(k)),
        is_char_boundary(encode_utf8(text), encode_utf8(text.take(k)).len() as int),
    decreases k,
{
    let bytes = encode_utf8(text);
    encode_utf8_valid_utf8(text);
    if k == 0 {
        assert(text.take(0) =~= Seq::<char>::empty());
        assert(text.skip(0) =~= text);
    } else {
        // split behind the first character what follows it
        let rest = text.drop_first();
        let head = encode_scalar(text[0] as u32);
        lemma_encoding_splits(rest, k - 1);
        lemma_encoding_unfolds(text);
        encode_utf8_first_scalar(text);
        assert(pop_first_scalar(bytes) =~= encode_utf8(rest));
        let beginning = text.take(k);
        assert(beginning[0] == text[0]);
        assert(beginning.drop_first() =~= rest.take(k - 1));
        lemma_encoding_unfolds(beginning);
        assert(text.skip(k) =~= rest.skip(k - 1));
        assert(encode_utf8(beginning).len() == head.len() + encode_utf8(rest.take(k - 1)).len());
    }
}

/// The first byte of a character, or the end of the bytes, is where the
/// encoding of some beginning of the text ends.
pub proof fn lemma_boundary_is_between_characters(text: Seq<char>, n: int) -> (k: int)
    requires
        is_char_boundary(encode_utf8(text), n),
    ensures
        0 <= k <= text.len(),
        encode_utf8(text.take(k)).len() == n,
    decreases text.len(),
{
    let bytes = encode_utf8(text);
    encode_utf8_valid_utf8(text);
    if n == 0 {
        assert(text.take(0) =~= Seq::<char>::empty());
        0
    } else {
        let rest = text.drop_first();
        let head = encode_scalar(text[0] as u32);
        lemma_encoding_unfolds(text);
        encode_utf8_first_scalar(text);
        assert(pop_first_scalar(bytes) =~= encode_utf8(rest));
        let k = lemma_boundary_is_between_characters(rest, n - head.len());
        let beginning = text.take(k + 1);
        assert(beginning[0] == text[0]);
        assert(beginning.drop_first() =~= rest.take(k));
        lemma_encoding_unfolds(beginning);
        k + 1
    }
}

/// No character comes before the one of number zero.
proof fn lemma_nul_is_first(c: char)
    ensures
        '\0' <= c,
{
}

/// A text of plain characters takes one byte for each of them.
pub proof fn lemma_plain_text_length(text: Seq<char>)
    requires
        forall|j: int| 0 <= j < text.len() ==> #[trigger] text[j] <= '\u{7f}',
    ensures
        encode_utf8(text).len() == text.len(),
{
    assert forall|j: int| 0 <= j < text.len() implies '\0' <= #[trigger] text[j] <= '\u{7f}' by {
        lemma_nul_is_first(text[j]);
    }
    is_ascii_chars_encode_utf8(text);
}

/// Two texts with the same encoding are the same text.
pub proof fn lemma_encoding_is_injective(a: Seq<char>, b: Seq<char>)
    requires
        encode_utf8(a) == encode_utf8(b),
    ensures
        a == b,
{
    encode_utf8_decode_utf8(a);
    encode_utf8_decode_utf8(b);
}

/// Tells whether two texts are the same, character for character.
pub fn same_text(a: &str, b: &str) -> (same: bool)
    ensures
        same == (a@ == b@),
{
    let left = a.as_bytes();
    let right = b.as_bytes();
    if left.len() != right.len() {
        return false;
    }
    let mut i: usize = 0;
    while i < left.len()
        invariant
            left@ == encode_utf8(a@),
            right@ == encode_utf8(b@),
            left@.len() == right@.len(),
            0 <= i <= left@.len(),
            forall|j: int| 0 <= j < i ==> left@[j] == right@[j],
        decreases left@.len() - i,
    {
        if left[i] != right[i] {
            return false;
        }
        i = i + 1;
    }
    proof {
        assert(left@ =~= right@);
        lemma_encoding_is_injective(a@, b@);
    }
    true
}

} // verus!
