//! Byte sizes of the persisted fields.
//!
//! A record is stored as an 8-byte type discriminator followed by its fields in
//! declared order. Integers and keys take their natural width. A bounded text
//! field takes a 4-byte length prefix and then its UTF-8 bytes; the space
//! reserved for it allows four bytes for each scalar value the bound admits.

use vstd::prelude::*;
use vstd::utf8::*;

verus! {

/// Bytes of the type discriminator in front of every record.
pub const DISCRIMINATOR_LENGTH: usize = 8;

/// Bytes of an identity key.
pub const PUBLIC_KEY_LENGTH: usize = 32;

/// Bytes of the length prefix in front of a text field.
pub const STRING_LENGTH_PREFIX: usize = 4;

/// Largest number of bytes that UTF-8 spends on one scalar value.
pub const MAX_BYTES_PER_SCALAR: usize = 4;

/// Bytes of a `u32`.
pub const U32: usize = 4;

/// Bytes of a `u64`.
pub const U64: usize = 8;

/// Bytes of the stored derivation discriminant.
pub const BUMP_LENGTH: usize = 1;

/// Bytes reserved for a text field that holds at most `max_scalars` scalar values.
pub open spec fn text_reserve(max_scalars: nat) -> nat {
    STRING_LENGTH_PREFIX as nat + max_scalars * MAX_BYTES_PER_SCALAR as nat
}

/// Bytes that `text` takes when written: the prefix and its UTF-8 encoding.
pub open spec fn text_len(text: Seq<char>) -> nat {
    STRING_LENGTH_PREFIX as nat + encode_utf8(text).len()
}

/// Computes the bytes to reserve for a text field bounded by `max_scalars`.
pub fn reserved_text_len(max_scalars: usize) -> (reserved: usize)
    requires
        text_reserve(max_scalars as nat) <= usize::MAX,
    ensures
        reserved == text_reserve(max_scalars as nat),
{
    STRING_LENGTH_PREFIX + max_scalars * MAX_BYTES_PER_SCALAR
}

/// Computes the bytes that `text` takes when written.
pub fn written_text_len(text: &str) -> (written: usize)
    requires
        text_len(text@) <= usize::MAX,
    ensures
        written == text_len(text@),
{
    STRING_LENGTH_PREFIX + text.len()
}

/// One scalar value is encoded in one to four bytes.
pub proof fn lemma_scalar_width(c: char)
    ensures
        1 <= encode_scalar(c as u32).len() <= MAX_BYTES_PER_SCALAR,
{
}

/// A text of `n` scalar values is encoded in at least `n` and at most `4 * n` bytes.
pub proof fn lemma_utf8_len_bounds(text: Seq<char>)
    ensures
        text.len() <= encode_utf8(text).len() <= text.len() * MAX_BYTES_PER_SCALAR as nat,
    decreases text.len(),
{
    if text.len() > 0 {
        lemma_scalar_width(text[0]);
        lemma_utf8_len_bounds(text.drop_first());
    }
}

/// A text within its bound never outgrows the bytes reserved for it.
pub proof fn lemma_text_fits(text: Seq<char>, max_scalars: nat)
    requires
        text.len() <= max_scalars,
    ensures
        text_len(text) <= text_reserve(max_scalars),
{
    lemma_utf8_len_bounds(text);
    assert(text.len() * 4 <= max_scalars * 4) by (nonlinear_arith)
        requires
            text.len() <= max_scalars,
    ;
}

} // verus!
