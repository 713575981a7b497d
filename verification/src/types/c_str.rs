//! Runs of bytes as C reads them: up to the first zero byte.

use vstd::prelude::*;
use vstd::utf8::{
    char_u32_cast, encode_scalar, encode_utf8, last_continuation_byte, leading_byte_width_1,
    leading_byte_width_2, leading_byte_width_3, leading_byte_width_4, second_last_continuation_byte,
    third_last_continuation_byte,
};

verus! {

/// Whether a zero byte occurs among `bytes`.
pub open spec fn has_nul(bytes: Seq<u8>) -> bool {
    exists|i: int| 0 <= i < bytes.len() && bytes[i] == 0
}

/// Whether the first zero byte of `bytes` stands at index `at`.
pub open spec fn is_first_nul(bytes: Seq<u8>, at: int) -> bool {
    &&& 0 <= at < bytes.len()
    &&& bytes[at] == 0
    &&& forall|i: int| 0 <= i < at ==> bytes[i] != 0
}

/// The index of the first zero byte of `bytes`; their number where none is zero.
pub open spec fn nul_position(bytes: Seq<u8>) -> int {
    if has_nul(bytes) {
        choose|at: int| is_first_nul(bytes, at)
    } else {
        bytes.len() as int
    }
}

/// What a reader of C strings finds in `memory`: the bytes before the first
/// zero byte.
pub open spec fn c_str(memory: Seq<u8>) -> Seq<u8> {
    memory.take(nul_position(memory))
}

/// Where a zero byte occurs, one occurs first.
pub proof fn lemma_first_nul_exists(bytes: Seq<u8>)
    requires
        has_nul(bytes),
    ensures
        is_first_nul(bytes, nul_position(bytes)),
    decreases bytes.len(),
{
    let some = choose|i: int| 0 <= i < bytes.len() && bytes[i] == 0;
    if exists|i: int| 0 <= i < some && bytes[i] == 0 {
        let earlier = choose|i: int| 0 <= i < some && bytes[i] == 0;
        let front = bytes.take(some);
        assert(front[earlier] == 0);
        lemma_first_nul_exists(front);
        let at = nul_position(front);
        assert forall|i: int| 0 <= i < at implies bytes[i] != 0 by {
            assert(front[i] == bytes[i]);
        }
        assert(is_first_nul(bytes, at));
    } else {
        assert(is_first_nul(bytes, some));
    }
}

/// The first zero byte stands in one place only.
pub proof fn lemma_first_nul_unique(bytes: Seq<u8>, at: int)
    requires
        is_first_nul(bytes, at),
    ensures
        has_nul(bytes),
        nul_position(bytes) == at,
        c_str(bytes) == bytes.take(at),
{
}

/// Bytes without a zero among them, once terminated, read back as they were.
pub proof fn lemma_terminated(bytes: Seq<u8>)
    requires
        !has_nul(bytes),
    ensures
        has_nul(bytes.push(0u8)),
        nul_position(bytes.push(0u8)) == bytes.len(),
        c_str(bytes.push(0u8)) == bytes,
{
    lemma_first_nul_unique(bytes.push(0u8), bytes.len() as int);
}

/// What a reader finds never holds a zero byte.
pub proof fn lemma_c_str_has_no_nul(memory: Seq<u8>)
    ensures
        !has_nul(c_str(memory)),
        c_str(memory).len() <= memory.len(),
        has_nul(memory) ==> c_str(memory).len() < memory.len(),
        !has_nul(memory) ==> c_str(memory) == memory,
{
    if has_nul(memory) {
        lemma_first_nul_exists(memory);
    }
}

/// No byte of the encoding of a scalar value is zero, but for the one byte
/// that the scalar value zero is encoded as.
proof fn lemma_scalar_bytes(scalar: u32)
    by (bit_vector)
    ensures
        scalar <= 0x7f ==> (leading_byte_width_1(scalar) == 0 <==> scalar == 0),
        leading_byte_width_2(scalar) != 0,
        leading_byte_width_3(scalar) != 0,
        leading_byte_width_4(scalar) != 0,
        last_continuation_byte(scalar) != 0,
        second_last_continuation_byte(scalar) != 0,
        third_last_continuation_byte(scalar) != 0,
{
}

/// The encoding of a scalar value holds a zero byte exactly when the scalar
/// value is zero.
proof fn lemma_scalar_nul(scalar: u32)
    ensures
        has_nul(encode_scalar(scalar)) <==> scalar == 0,
{
    lemma_scalar_bytes(scalar);
    let bytes = encode_scalar(scalar);
    if scalar == 0 {
        assert(bytes[0] == 0);
    }
}

/// A zero byte stands in one of two runs of bytes that are joined exactly
/// when it stands in what they are joined to.
proof fn lemma_nul_in_joined(front: Seq<u8>, back: Seq<u8>)
    ensures
        has_nul(front + back) <==> has_nul(front) || has_nul(back),
{
    let joined = front + back;
    if has_nul(front) {
        let i = choose|i: int| 0 <= i < front.len() && front[i] == 0;
        assert(joined[i] == 0);
    }
    if has_nul(back) {
        let i = choose|i: int| 0 <= i < back.len() && back[i] == 0;
        assert(joined[front.len() + i] == 0);
    }
}

/// One of the bytes of a text is zero exactly when one of its characters is
/// the character NUL: no other character has a zero byte in its encoding.
pub proof fn lemma_nul_byte_is_nul_char(text: Seq<char>)
    ensures
        has_nul(encode_utf8(text)) <==> text.contains('\0'),
    decreases text.len(),
{
    if text.len() > 0 {
        let first = text[0];
        let rest = text.drop_first();
        lemma_nul_byte_is_nul_char(rest);
        lemma_scalar_nul(first as u32);
        lemma_nul_in_joined(encode_scalar(first as u32), encode_utf8(rest));
        char_u32_cast(first, first as u32);
        if text.contains('\0') {
            let i = choose|i: int| 0 <= i < text.len() && text[i] == '\0';
            if i > 0 {
                assert(rest[i - 1] == '\0');
            }
        }
    }
}

} // verus!
