//! Decoding the values held in fields, shared by the game objects read from records.

use vstd::prelude::*;
use vstd::utf8::{decode_utf8, valid_utf8};

use crate::bytes::{le_value, lemma_le_value_at, u32_at_le};
use crate::error::{decode_failed, TesError};
use crate::plugin::FieldModel;
use crate::strings::is_zstring;
use crate::tes3::field::Tes3Field;

verus! {

/// The string held by field data: its characters if the data is UTF-8.
pub open spec fn string_value(data: Seq<u8>) -> Option<Seq<char>> {
    if valid_utf8(data) {
        Some(decode_utf8(data))
    } else {
        None
    }
}

/// The string held by null-terminated field data.
pub open spec fn zstring_value(data: Seq<u8>) -> Option<Seq<char>> {
    if is_zstring(data) && valid_utf8(data.drop_last()) {
        Some(decode_utf8(data.drop_last()))
    } else {
        None
    }
}

/// The `k`-th little-endian `u32` word of `s`.
pub open spec fn word(s: Seq<u8>, k: int) -> u32 {
    le_value(s.subrange(4 * k, 4 * k + 4)) as u32
}

/// The `k`-th word of `s` is the little-endian number in bytes `4k` to `4k + 3`.
pub proof fn lemma_word_at_le(s: Seq<u8>, k: int)
    requires
        0 <= k,
        4 * k + 4 <= s.len(),
    ensures
        word(s, k) as int == u32_at_le(s, 4 * k),
{
    lemma_le_value_at(s, 4 * k);
}

/// Applies `step` to each field in turn, starting from `init`; `None` once a step fails.
pub open spec fn fold_fields<M>(
    init: M,
    step: spec_fn(M, FieldModel) -> Option<M>,
    s: Seq<FieldModel>,
) -> Option<M>
    decreases s.len(),
{
    if s.len() == 0 {
        Some(init)
    } else {
        match fold_fields(init, step, s.drop_last()) {
            None => None,
            Some(m) => step(m, s.last()),
        }
    }
}

/// One more field is one more step.
pub proof fn lemma_fold_step<M>(
    init: M,
    step: spec_fn(M, FieldModel) -> Option<M>,
    s: Seq<FieldModel>,
    i: int,
)
    requires
        0 <= i < s.len(),
    ensures
        fold_fields(init, step, s.take(i + 1)) == match fold_fields(init, step, s.take(i)) {
            None => None,
            Some(m) => step(m, s[i]),
        },
{
    assert(s.take(i + 1).drop_last() =~= s.take(i));
    assert(s.take(i + 1).last() == s[i]);
}

/// Once a step fails, the fold fails.
pub proof fn lemma_fold_none<M>(
    init: M,
    step: spec_fn(M, FieldModel) -> Option<M>,
    s: Seq<FieldModel>,
    i: int,
)
    requires
        0 <= i <= s.len(),
        fold_fields(init, step, s.take(i)) is None,
    ensures
        fold_fields(init, step, s) is None,
    decreases s.len() - i,
{
    if i < s.len() {
        lemma_fold_step(init, step, s, i);
        lemma_fold_none(init, step, s, i + 1);
    } else {
        assert(s.take(i) =~= s);
    }
}

/// Reads a field's data as a null-terminated string, as an owned `String`.
pub fn field_zstring(field: &Tes3Field) -> (r: Result<String, TesError>)
    ensures
        r is Ok <==> zstring_value(field@.data) is Some,
        r matches Ok(s) ==> s@ == zstring_value(field@.data).unwrap(),
        r matches Err(e) ==> e is DecodeFailed,
{
    let s = field.get_zstring()?;
    Ok(s.to_owned())
}

/// Reads a field's data as a string, as an owned `String`.
pub fn field_string(field: &Tes3Field) -> (r: Result<String, TesError>)
    ensures
        r is Ok <==> string_value(field@.data) is Some,
        r matches Ok(s) ==> s@ == string_value(field@.data).unwrap(),
{
    let s = field.get_string()?;
    Ok(s.to_owned())
}

/// Reads the `k`-th little-endian `u32` word of `data`.
pub fn word_at(data: &[u8], k: usize) -> (r: u32)
    requires
        4 * k + 4 <= data@.len(),
    ensures
        r == word(data@, k as int),
{
    let len = data.len();
    assert(4 * k + 4 <= len);
    crate::bytes::read_u32_at(data, 4 * k).unwrap()
}

/// Fails unless a record has the expected type.
pub fn check_record_type(name: &[u8; 4], expected: &[u8; 4]) -> (r: Result<(), TesError>)
    ensures
        r is Ok <==> name@ == expected@,
        r matches Err(e) ==> e is DecodeFailed,
{
    if crate::tags::same_tag(name, expected) {
        Ok(())
    } else {
        Err(decode_failed("Unexpected record type"))
    }
}

} // verus!
