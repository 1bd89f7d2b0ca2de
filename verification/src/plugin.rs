//! The wire format shared by the fields of both games' plugin files, and the status of lazily
//! parsed records.

use vstd::prelude::*;

pub mod record;

use crate::bytes::{le_bytes, le_value, lemma_le_bytes_len, lemma_le_bytes_of_value, lemma_le_value_of_bytes, pow256};

verus! {

/// The abstract content of a field: its 4-byte name and its data.
pub struct FieldModel {
    pub name: Seq<u8>,
    pub data: Seq<u8>,
}

/// The serialized form of a field: name, data length as a little-endian `u32`, data.
pub open spec fn field_bytes(m: FieldModel) -> Seq<u8> {
    m.name + le_bytes(m.data.len(), 4) + m.data
}

/// Parses one field from the front of `s`, giving the field and the number of bytes it took.
pub open spec fn parse_field(s: Seq<u8>) -> Option<(FieldModel, nat)> {
    if s.len() < 8 {
        None
    } else {
        let size = le_value(s.subrange(4, 8));
        if 8 + size > s.len() {
            None
        } else {
            Some(
                (
                    FieldModel { name: s.subrange(0, 4), data: s.subrange(8, 8 + size as int) },
                    (8 + size) as nat,
                ),
            )
        }
    }
}

/// The data of a field can be recorded in its 4-byte length.
pub open spec fn field_fits(m: FieldModel) -> bool {
    m.name.len() == 4 && m.data.len() < 4294967296
}

/// Initialization status of a lazy-loaded record
#[derive(Debug, Copy, Clone, PartialEq, Eq, Structural)]
pub enum RecordStatus {
    Initialized,
    Finalized,
    Failed,
}

/// Reading back a written field gives the same field, and consumes exactly the written bytes,
/// whatever follows it.
pub proof fn lemma_field_roundtrip(m: FieldModel, rest: Seq<u8>)
    requires
        field_fits(m),
    ensures
        field_bytes(m).len() == 8 + m.data.len(),
        parse_field(field_bytes(m) + rest) == Some((m, field_bytes(m).len())),
{
    let s = field_bytes(m) + rest;
    lemma_le_bytes_len(m.data.len(), 4);
    reveal_with_fuel(pow256, 5);
    lemma_le_value_of_bytes(m.data.len(), 4);
    assert(s.subrange(4, 8) =~= le_bytes(m.data.len(), 4));
    assert(s.subrange(0, 4) =~= m.name);
    assert(s.subrange(8, 8 + m.data.len() as int) =~= m.data);
}

/// A parsed field is exactly the bytes it was parsed from: writing it again reproduces them.
pub proof fn lemma_parse_field_canonical(s: Seq<u8>)
    requires
        parse_field(s) is Some,
    ensures
        ({
            let (m, n) = parse_field(s).unwrap();
            &&& field_fits(m)
            &&& n <= s.len()
            &&& field_bytes(m) =~= s.subrange(0, n as int)
            &&& n == 8 + m.data.len()
        }),
{
    let (m, n) = parse_field(s).unwrap();
    lemma_le_bytes_of_value(s.subrange(4, 8));
    reveal_with_fuel(pow256, 5);
    assert(field_bytes(m) =~= s.subrange(0, n as int));
}

} // verus!
