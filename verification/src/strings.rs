//! Text helpers: comparison of string slices, the characters that a text
//! lacks, and the terminator byte in UTF-8 encoded text.

use vstd::prelude::*;
use vstd::slice::*;
use vstd::string::*;
use vstd::utf8::*;

verus! {

/// True when the character `c` does not occur in `s`.
pub open spec fn lacks(s: Seq<char>, c: char) -> bool {
    forall|i: int| 0 <= i < s.len() ==> #[trigger] s[i] != c
}

/// True when no character of `s` is the terminator character (code zero).
pub open spec fn nul_free(s: Seq<char>) -> bool {
    lacks(s, '\0')
}

/// True when `s` holds no line break: neither a line feed nor a carriage
/// return.
pub open spec fn single_line(s: Seq<char>) -> bool {
    lacks(s, '\n') && lacks(s, '\r')
}

/// True when `c` is a control character: one that comes before the space.
pub open spec fn is_control(c: char) -> bool {
    c < ' '
}

/// True when no character of `s` is a control character.
pub open spec fn printable(s: Seq<char>) -> bool {
    forall|i: int| 0 <= i < s.len() ==> !is_control(#[trigger] s[i])
}

/// True when no byte of `b` is the terminator byte (zero).
pub open spec fn nul_free_bytes(b: Seq<u8>) -> bool {
    forall|i: int| 0 <= i < b.len() ==> #[trigger] b[i] != 0u8
}

/// A concatenation lacks a character exactly when both parts lack it.
pub proof fn lemma_lacks_concat(a: Seq<char>, b: Seq<char>, c: char)
    ensures
        lacks(a + b, c) <==> lacks(a, c) && lacks(b, c),
{
    if lacks(a + b, c) {
        assert forall|i: int| 0 <= i < a.len() implies #[trigger] a[i] != c by {
            assert((a + b)[i] == a[i]);
        }
        assert forall|i: int| 0 <= i < b.len() implies #[trigger] b[i] != c by {
            assert((a + b)[a.len() + i] == b[i]);
        }
    }
}

/// A text without control characters lacks each of them.
pub proof fn lemma_printable_lacks(s: Seq<char>, c: char)
    requires
        printable(s),
        is_control(c),
    ensures
        lacks(s, c),
{
    assert forall|i: int| 0 <= i < s.len() implies #[trigger] s[i] != c by {
        assert(!is_control(s[i]));
    }
}

/// No byte of the encoding of a scalar other than zero is zero.
proof fn lemma_encode_scalar_nul_free(c: u32)
    requires
        is_scalar(c),
        c != 0,
    ensures
        nul_free_bytes(encode_scalar(c)),
{
    assert(has_width_1_encoding(c) ==> leading_byte_width_1(c) != 0) by (bit_vector)
        requires
            c != 0,
    ;
    assert(leading_byte_width_2(c) != 0) by (bit_vector);
    assert(leading_byte_width_3(c) != 0) by (bit_vector);
    assert(leading_byte_width_4(c) != 0) by (bit_vector);
    assert(last_continuation_byte(c) != 0) by (bit_vector);
    assert(second_last_continuation_byte(c) != 0) by (bit_vector);
    assert(third_last_continuation_byte(c) != 0) by (bit_vector);
}

/// The UTF-8 encoding of a text holds a terminator byte exactly when the
/// text holds a terminator character.
pub proof fn lemma_encode_utf8_nul_free(chars: Seq<char>)
    ensures
        nul_free_bytes(encode_utf8(chars)) == nul_free(chars),
    decreases chars.len(),
{
    if chars.len() > 0 {
        let first = chars[0] as u32;
        let head = encode_scalar(first);
        let rest = chars.drop_first();
        let tail = encode_utf8(rest);
        char_is_scalar(chars[0]);
        lemma_encode_utf8_nul_free(rest);
        assert(encode_utf8(chars) == head + tail);
        assert(head.len() > 0);
        if chars[0] == '\0' {
            assert(head[0] == 0u8) by {
                assert(leading_byte_width_1(0u32) == 0u8) by (bit_vector);
            }
            assert((head + tail)[0] == 0u8);
        } else {
            assert(first != 0) by {
                char_u32_cast(chars[0], first);
            }
            lemma_encode_scalar_nul_free(first);
            if nul_free(rest) {
                assert forall|i: int| 0 <= i < chars.len() implies #[trigger] chars[i] != '\0' by {
                    if i > 0 {
                        assert(chars[i] == rest[i - 1]);
                    }
                }
            } else {
                let i = choose|i: int| 0 <= i < rest.len() && #[trigger] rest[i] == '\0';
                assert(chars[i + 1] == '\0');
                let j = choose|j: int| 0 <= j < tail.len() && #[trigger] tail[j] == 0u8;
                assert((head + tail)[head.len() + j] == 0u8);
            }
        }
    }
}

/// Compares two string slices character by character.
pub fn str_eq(a: &str, b: &str) -> (equal: bool)
    ensures
        equal == (a@ == b@),
{
    let x = a.as_bytes();
    let y = b.as_bytes();
    proof {
        encode_utf8_decode_utf8(a@);
        encode_utf8_decode_utf8(b@);
    }
    if x.len() != y.len() {
        return false;
    }
    let mut i: usize = 0;
    while i < x.len()
        invariant
            i <= x.len(),
            x.len() == y.len(),
            forall|j: int| 0 <= j < i ==> x@[j] == y@[j],
            x@ == encode_utf8(a@),
            y@ == encode_utf8(b@),
            decode_utf8(encode_utf8(a@)) == a@,
            decode_utf8(encode_utf8(b@)) == b@,
        decreases x.len() - i,
    {
        if x[i] != y[i] {
            return false;
        }
        i += 1;
    }
    assert(x@ =~= y@);
    true
}

} // verus!
