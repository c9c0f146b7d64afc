//! Fixed-width text fields: the content is what stands before the first zero
//! byte, the rest is padding.
//!
//! The content is handed out as bytes, whatever its encoding, and as a
//! `String` where it is UTF-8.  Assets written in another code page are read
//! through `text_bytes` and converted by the caller.

use vstd::prelude::*;
use vstd::utf8::{decode_utf8, valid_utf8};

verus! {

/// The index of the first zero byte of `field` at or after `from`, or the
/// field's length where there is none.
pub open spec fn zero_from(field: Seq<u8>, from: int) -> int
    decreases field.len() - from,
{
    if from >= field.len() || field[from] == 0 {
        from
    } else {
        zero_from(field, from + 1)
    }
}

/// The content of a text field: its bytes up to the first zero byte, which is
/// left out.
pub open spec fn text_of(field: Seq<u8>) -> Seq<u8> {
    field.subrange(0, zero_from(field, 0))
}

/// The content of a text field as characters, where it is UTF-8.
pub open spec fn str_of(field: Seq<u8>) -> Option<Seq<char>> {
    if valid_utf8(text_of(field)) {
        Some(decode_utf8(text_of(field)))
    } else {
        None
    }
}

/// `zero_from` stays inside the field, passes over no zero byte and stops at
/// one unless it reaches the end.
pub proof fn lemma_zero_from(field: Seq<u8>, from: int)
    requires
        0 <= from <= field.len(),
    ensures
        from <= zero_from(field, from) <= field.len(),
        forall|i: int| from <= i < zero_from(field, from) ==> field[i] != 0,
        zero_from(field, from) < field.len() ==> field[zero_from(field, from)] == 0,
    decreases field.len() - from,
{
    if from < field.len() && field[from] != 0 {
        lemma_zero_from(field, from + 1);
    }
}

/// The content is a prefix of the field that holds no zero byte, and it is
/// the whole field or is followed by a zero byte.  Only one sequence is all
/// that, so this says what `text_of` is.
pub proof fn lemma_text_of(field: Seq<u8>)
    ensures
        text_of(field).len() <= field.len(),
        text_of(field) == field.subrange(0, text_of(field).len() as int),
        forall|i: int| 0 <= i < text_of(field).len() ==> text_of(field)[i] != 0,
        text_of(field).len() < field.len() ==> field[text_of(field).len() as int] == 0,
{
    lemma_zero_from(field, 0);
}

/// `String::from_utf8` of std: the string that the bytes encode, and `None`
/// exactly where they are not UTF-8.
#[verifier::external_body]
fn utf8_string(bytes: Vec<u8>) -> (r: Option<String>)
    ensures
        match r {
            Some(s) => valid_utf8(bytes@) && s@ == decode_utf8(bytes@),
            None => !valid_utf8(bytes@),
        },
{
    String::from_utf8(bytes).ok()
}

/// The content bytes of a text field.
pub fn text_bytes(v: &[u8]) -> (r: Vec<u8>)
    ensures
        r@ == text_of(v@),
{
    let n: usize = v.len();
    let mut out: Vec<u8> = Vec::new();
    let mut i: usize = 0;
    while i < n && v[i] != 0
        invariant
            i <= n,
            n == v@.len(),
            out@ == v@.subrange(0, i as int),
            zero_from(v@, 0) == zero_from(v@, i as int),
        decreases n - i,
    {
        out.push(v[i]);
        i += 1;
        assert(out@ =~= v@.subrange(0, i as int));
    }
    out
}

/// The content of a text field as a `String`; `None` where the content is
/// not UTF-8.
pub fn to_str(v: &[u8]) -> (r: Option<String>)
    ensures
        match r {
            Some(s) => str_of(v@) == Some(s@),
            None => str_of(v@).is_none(),
        },
{
    utf8_string(text_bytes(v))
}

} // verus!
