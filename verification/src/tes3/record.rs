//! Records of Morrowind plugin files.

use vstd::prelude::*;
use vstd::utf8::{decode_utf8, valid_utf8};

use crate::bytes::{le_bytes, le_value, lemma_le_bytes_len, push_u32};
use crate::common::{data_len_ok, read_exact, read_u32, MAX_DATA};
use crate::error::{decode_failed, limit_exceeded, TesError};
use crate::plugin::{field_bytes, field_fits, parse_field, FieldModel, RecordStatus};
use crate::strings::{is_zstring, zeros};
use crate::tags::{
    same_tag, slice_is_tag, CELL, DELE, DIAL, GMST, INFO, LAND, MGEF, NAME, PGRD, SCPT, SKIL, SSCR,
    TES3, WEAP,
};
use crate::tes3::field::{display_name_of, display_name_spec, name_array, Tes3Field};

verus! {

/// Flag bit of a deleted record
pub const FLAG_DELETED: u32 = 0x0020;

/// Flag bit of a record whose references persist
pub const FLAG_PERSISTENT: u32 = 0x0400;

/// Flag bit of a record that starts disabled
pub const FLAG_INITIALLY_DISABLED: u32 = 0x0800;

/// Flag bit of a blocked record
pub const FLAG_BLOCKED: u32 = 0x2000;

/// Size of the `DELE` field written for a deleted record
pub const DELETED_FIELD_SIZE: usize = 12;

/// The abstract content of a record.
pub struct RecordModel {
    pub name: Seq<u8>,
    pub is_deleted: bool,
    pub is_persistent: bool,
    pub is_initially_disabled: bool,
    pub is_blocked: bool,
    pub status: RecordStatus,
    /// The field data as read, kept until the record is changed
    pub raw_data: Seq<u8>,
    /// Whether fields were added or removed since the record was read
    pub changed: bool,
    pub fields: Seq<FieldModel>,
}

/// Parses a sequence of fields that fills `s` exactly.
pub open spec fn parse_fields(s: Seq<u8>) -> Option<Seq<FieldModel>>
    decreases s.len(),
{
    if s.len() == 0 {
        Some(Seq::empty())
    } else {
        match parse_field(s) {
            None => None,
            Some((m, n)) => if 0 < n <= s.len() {
                match parse_fields(s.subrange(n as int, s.len() as int)) {
                    Some(rest) => Some(seq![m] + rest),
                    None => None,
                }
            } else {
                None
            },
        }
    }
}

/// The fields that parse from the front of `s` before the first failure (all of them if
/// [`parse_fields`] succeeds).
pub open spec fn parsed_prefix(s: Seq<u8>) -> Seq<FieldModel>
    decreases s.len(),
{
    if s.len() == 0 {
        Seq::empty()
    } else {
        match parse_field(s) {
            None => Seq::empty(),
            Some((m, n)) => if 0 < n <= s.len() {
                seq![m] + parsed_prefix(s.subrange(n as int, s.len() as int))
            } else {
                Seq::empty()
            },
        }
    }
}

/// Serializing one more field appends its bytes.
pub proof fn lemma_fields_bytes_take(s: Seq<FieldModel>, i: int)
    requires
        0 <= i < s.len(),
    ensures
        fields_bytes(s.take(i + 1)) == fields_bytes(s.take(i)) + field_bytes(s[i]),
{
    assert(s.take(i + 1).drop_last() =~= s.take(i));
    assert(s.take(i + 1).last() == s[i]);
}

/// Serializing a sequence with one more field at the end appends its bytes.
pub proof fn lemma_fields_bytes_push(s: Seq<FieldModel>, m: FieldModel)
    ensures
        fields_bytes(s.push(m)) == fields_bytes(s) + field_bytes(m),
{
    assert(s.push(m).drop_last() =~= s);
}

/// When all of `s` parses as fields, the parsed prefix is all of them.
pub proof fn lemma_parse_fields_prefix(s: Seq<u8>)
    requires
        parse_fields(s) is Some,
    ensures
        parse_fields(s).unwrap() == parsed_prefix(s),
    decreases s.len(),
{
    if s.len() > 0 {
        let (m, n) = parse_field(s).unwrap();
        lemma_parse_fields_prefix(s.subrange(n as int, s.len() as int));
    }
}

/// The serialized fields, one after another.
pub open spec fn fields_bytes(s: Seq<FieldModel>) -> Seq<u8>
    decreases s.len(),
{
    if s.len() == 0 {
        Seq::empty()
    } else {
        fields_bytes(s.drop_last()) + field_bytes(s.last())
    }
}

/// The sum of the sizes of some fields: for each, 8 bytes of name and length, then its data.
pub open spec fn fields_size(s: Seq<FieldModel>) -> int
    decreases s.len(),
{
    if s.len() == 0 {
        0
    } else {
        fields_size(s.drop_last()) + 8 + s.last().data.len()
    }
}

/// Serialized fields take the sum of their sizes.
pub proof fn lemma_fields_bytes_len(s: Seq<FieldModel>)
    requires
        forall|i: int| 0 <= i < s.len() ==> field_fits(#[trigger] s[i]),
    ensures
        fields_bytes(s).len() == fields_size(s),
    decreases s.len(),
{
    if s.len() > 0 {
        assert(field_fits(s[s.len() - 1]));
        lemma_le_bytes_len(s.last().data.len(), 4);
        let init = s.drop_last();
        assert forall|i: int| 0 <= i < init.len() implies field_fits(#[trigger] init[i]) by {
            assert(init[i] == s[i]);
        }
        lemma_fields_bytes_len(init);
    }
}

/// The fields that remain after dropping the `DELE` markers.
pub open spec fn strip_dele(s: Seq<FieldModel>) -> Seq<FieldModel>
    decreases s.len(),
{
    if s.len() == 0 {
        s
    } else if s.last().name == DELE@ {
        strip_dele(s.drop_last())
    } else {
        strip_dele(s.drop_last()).push(s.last())
    }
}

/// Some field is a `DELE` marker.
pub open spec fn any_dele(s: Seq<FieldModel>) -> bool {
    exists|i: int| 0 <= i < s.len() && #[trigger] s[i].name == DELE@
}

/// No field is a `DELE` marker.
pub open spec fn no_dele(s: Seq<FieldModel>) -> bool {
    forall|i: int| 0 <= i < s.len() ==> #[trigger] s[i].name != DELE@
}

/// The `DELE` field written after the fields of a deleted record.
pub open spec fn dele_field() -> FieldModel {
    FieldModel { name: DELE@, data: seq![0u8, 0u8, 0u8, 0u8] }
}

/// The size of a record is its 16-byte header, the sum of the sizes of its fields, and 12
/// more for the `DELE` field written for a deleted record.
pub proof fn lemma_record_size(m: RecordModel)
    requires
        forall|i: int| 0 <= i < m.fields.len() ==> field_fits(#[trigger] m.fields[i]),
    ensures
        16 + fields_bytes(written_fields(m)).len() == 16 + fields_size(m.fields) + if m.is_deleted {
            12int
        } else {
            0int
        },
{
    let w = written_fields(m);
    assert forall|i: int| 0 <= i < w.len() implies field_fits(#[trigger] w[i]) by {
        if i < m.fields.len() {
            assert(w[i] == m.fields[i]);
        } else {
            assert(w[i] == dele_field());
        }
    }
    lemma_fields_bytes_len(w);
    if m.is_deleted {
        assert(w.drop_last() =~= m.fields);
    }
}

/// The flag word of a record.
pub open spec fn record_flags(m: RecordModel) -> u32 {
    (if m.is_deleted { FLAG_DELETED } else { 0u32 }) | (if m.is_persistent {
        FLAG_PERSISTENT
    } else {
        0u32
    }) | (if m.is_initially_disabled { FLAG_INITIALLY_DISABLED } else { 0u32 }) | (
    if m.is_blocked {
        FLAG_BLOCKED
    } else {
        0u32
    })
}

/// A record after adding a field: a `DELE` field marks it deleted, any other field is
/// appended; either way the record is changed.
pub open spec fn with_field_added(m: RecordModel, f: FieldModel) -> RecordModel {
    if f.name == DELE@ {
        RecordModel { changed: true, is_deleted: true, ..m }
    } else {
        RecordModel { changed: true, fields: m.fields.push(f), ..m }
    }
}

/// A record after adding fields in turn.
pub open spec fn with_fields_added(m: RecordModel, fs: Seq<FieldModel>) -> RecordModel
    decreases fs.len(),
{
    if fs.len() == 0 {
        m
    } else {
        with_field_added(with_fields_added(m, fs.drop_last()), fs.last())
    }
}

/// Adding fields none of which is `DELE` appends them all in order: after `n` such fields a
/// record holds its earlier fields and then those `n`, and nothing else about it changes but
/// that it is marked changed (when `n > 0`). From a new, empty record, it has exactly `n`.
pub proof fn lemma_fields_added(m: RecordModel, fs: Seq<FieldModel>)
    requires
        forall|i: int| 0 <= i < fs.len() ==> (#[trigger] fs[i]).name != DELE@,
    ensures
        with_fields_added(m, fs).fields == m.fields + fs,
        with_fields_added(m, fs).fields.len() == m.fields.len() + fs.len(),
        with_fields_added(m, fs) == (RecordModel {
            fields: m.fields + fs,
            changed: if fs.len() == 0 { m.changed } else { true },
            ..m
        }),
    decreases fs.len(),
{
    if fs.len() == 0 {
        assert(m.fields + fs =~= m.fields);
    } else {
        let init = fs.drop_last();
        assert forall|i: int| 0 <= i < init.len() implies (#[trigger] init[i]).name != DELE@ by {
            assert(init[i] == fs[i]);
        }
        lemma_fields_added(m, init);
        assert(fs.last() == fs[fs.len() - 1]);
        assert((m.fields + init).push(fs.last()) =~= m.fields + fs);
    }
}

/// The fields serialized for a changed record: its fields, then `DELE` if it is deleted.
pub open spec fn written_fields(m: RecordModel) -> Seq<FieldModel> {
    if m.is_deleted {
        m.fields.push(dele_field())
    } else {
        m.fields
    }
}

/// The field data serialized for a record: the data as read if unchanged, else its fields.
pub open spec fn record_data(m: RecordModel) -> Seq<u8> {
    if m.changed {
        fields_bytes(written_fields(m))
    } else {
        m.raw_data
    }
}

/// The serialized form of a record: name, data size, four zero bytes, flags, data.
pub open spec fn record_bytes(m: RecordModel) -> Seq<u8> {
    m.name + le_bytes(record_data(m).len(), 4) + zeros(4) + le_bytes(record_flags(m) as nat, 4)
        + record_data(m)
}

/// The header fields of a record at the front of `s`: name, flags, data, and bytes consumed.
pub open spec fn parse_record_header(s: Seq<u8>) -> Option<(Seq<u8>, u32, Seq<u8>, nat)> {
    if s.len() < 16 {
        None
    } else {
        let size = le_value(s.subrange(4, 8));
        if 16 + size > s.len() {
            None
        } else {
            Some(
                (
                    s.subrange(0, 4),
                    le_value(s.subrange(12, 16)) as u32,
                    s.subrange(16, 16 + size as int),
                    (16 + size) as nat,
                ),
            )
        }
    }
}

/// The record read lazily from the header at the front of `s`.
pub open spec fn lazy_record(name: Seq<u8>, flags: u32, data: Seq<u8>) -> RecordModel {
    RecordModel {
        name,
        is_deleted: flags & FLAG_DELETED != 0,
        is_persistent: flags & FLAG_PERSISTENT != 0,
        is_initially_disabled: flags & FLAG_INITIALLY_DISABLED != 0,
        is_blocked: flags & FLAG_BLOCKED != 0,
        status: RecordStatus::Initialized,
        raw_data: data,
        changed: false,
        fields: Seq::empty(),
    }
}

/// Record types that carry an ID in their `NAME` field.
pub open spec fn has_id_spec(name: Seq<u8>) -> bool {
    !(name == CELL@ || name == DIAL@ || name == MGEF@ || name == INFO@ || name == LAND@ || name
        == PGRD@ || name == SCPT@ || name == SKIL@ || name == SSCR@ || name == TES3@)
}

/// The index of the first `NAME` field, if any.
pub open spec fn first_name_field(s: Seq<FieldModel>) -> Option<int> {
    if exists|i: int| 0 <= i < s.len() && #[trigger] s[i].name == NAME@ {
        Some(
            choose|i: int|
                0 <= i < s.len() && #[trigger] s[i].name == NAME@ && forall|j: int|
                    0 <= j < i ==> #[trigger] s[j].name != NAME@,
        )
    } else {
        None
    }
}

/// The ID decoded from a `NAME` field's data: plain for game settings and weapons, else
/// null-terminated.
pub open spec fn id_from_data(record_name: Seq<u8>, data: Seq<u8>) -> Option<Seq<char>> {
    if record_name == GMST@ || record_name == WEAP@ {
        if valid_utf8(data) {
            Some(decode_utf8(data))
        } else {
            None
        }
    } else if is_zstring(data) && valid_utf8(data.drop_last()) {
        Some(decode_utf8(data.drop_last()))
    } else {
        None
    }
}

/// Serializing fields front to back: the first field, then the rest.
pub proof fn lemma_fields_bytes_front(s: Seq<FieldModel>)
    requires
        s.len() > 0,
    ensures
        fields_bytes(s) =~= field_bytes(s[0]) + fields_bytes(s.drop_first()),
    decreases s.len(),
{
    if s.len() > 1 {
        lemma_fields_bytes_front(s.drop_last());
        assert(s.drop_last().drop_first() =~= s.drop_first().drop_last());
        assert(s.drop_last()[0] == s[0]);
        assert(s.drop_first().last() == s.last());
        assert(fields_bytes(s.drop_first()) == fields_bytes(s.drop_first().drop_last())
            + field_bytes(s.drop_first().last()));
        assert(fields_bytes(s) == fields_bytes(s.drop_last()) + field_bytes(s.last()));
    } else {
        assert(s.drop_first().len() == 0);
        assert(s.drop_last().len() == 0);
        assert(fields_bytes(s.drop_first()) =~= Seq::<u8>::empty());
        assert(fields_bytes(s.drop_last()) =~= Seq::<u8>::empty());
        assert(s.last() == s[0]);
        assert(fields_bytes(s) == fields_bytes(s.drop_last()) + field_bytes(s.last()));
    }
}

/// Serialized fields parse back to the same fields.
pub proof fn lemma_fields_roundtrip(s: Seq<FieldModel>)
    requires
        forall|i: int| 0 <= i < s.len() ==> field_fits(#[trigger] s[i]),
    ensures
        parse_fields(fields_bytes(s)) == Some(s),
    decreases s.len(),
{
    if s.len() > 0 {
        lemma_fields_bytes_front(s);
        let b = fields_bytes(s);
        let rest = fields_bytes(s.drop_first());
        assert(field_fits(s[0]));
        crate::plugin::lemma_field_roundtrip(s[0], rest);
        let n = field_bytes(s[0]).len();
        assert(b.subrange(n as int, b.len() as int) =~= rest);
        assert forall|i: int| 0 <= i < s.drop_first().len() implies field_fits(
            #[trigger] s.drop_first()[i],
        ) by {
            assert(s.drop_first()[i] == s[i + 1]);
        }
        lemma_fields_roundtrip(s.drop_first());
        assert(seq![s[0]] + s.drop_first() =~= s);
    } else {
        assert(fields_bytes(s).len() == 0);
    }
}

/// Dropping the markers from fields without any, then adding a marker, keeps the fields and
/// records the marker.
pub proof fn lemma_strip_dele_written(m: RecordModel)
    requires
        no_dele(m.fields),
    ensures
        strip_dele(written_fields(m)) == m.fields,
        any_dele(written_fields(m)) == m.is_deleted,
{
    lemma_strip_dele_none(m.fields);
    if m.is_deleted {
        assert(m.fields.push(dele_field()).drop_last() =~= m.fields);
        assert(m.fields.push(dele_field())[m.fields.len() as int] == dele_field());
    }
}

/// Fields without markers are kept as they are.
pub proof fn lemma_strip_dele_none(s: Seq<FieldModel>)
    requires
        no_dele(s),
    ensures
        strip_dele(s) == s,
        !any_dele(s),
    decreases s.len(),
{
    if s.len() > 0 {
        assert(no_dele(s.drop_last())) by {
            assert forall|i: int| 0 <= i < s.drop_last().len() implies #[trigger] s.drop_last()[i].name
                != DELE@ by {
                assert(s.drop_last()[i] == s[i]);
            }
        }
        lemma_strip_dele_none(s.drop_last());
        assert(s.last() == s[s.len() - 1]);
        assert(s.drop_last().push(s.last()) =~= s);
    }
}

/// The flag word records each of the four flags in its own bit.
pub proof fn lemma_record_flags(d: bool, p: bool, i: bool, b: bool)
    ensures
        ({
            let x = (if d { FLAG_DELETED } else { 0u32 }) | (if p { FLAG_PERSISTENT } else { 0u32 })
                | (if i { FLAG_INITIALLY_DISABLED } else { 0u32 }) | (if b {
                FLAG_BLOCKED
            } else {
                0u32
            });
            &&& (x & FLAG_DELETED != 0) == d
            &&& (x & FLAG_PERSISTENT != 0) == p
            &&& (x & FLAG_INITIALLY_DISABLED != 0) == i
            &&& (x & FLAG_BLOCKED != 0) == b
        }),
{
    assert({
        let x = (if d { 0x0020u32 } else { 0u32 }) | (if p { 0x0400u32 } else { 0u32 }) | (if i {
            0x0800u32
        } else {
            0u32
        }) | (if b { 0x2000u32 } else { 0u32 });
        &&& (x & 0x0020u32 != 0) == d
        &&& (x & 0x0400u32 != 0) == p
        &&& (x & 0x0800u32 != 0) == i
        &&& (x & 0x2000u32 != 0) == b
    }) by (bit_vector);
}

/// Reading back a written record.
///
/// The header read from the bytes of a record gives back its name, its flag word, and the data
/// it was written with; that data is its raw data if it is unchanged. For a changed record whose
/// fields fit, the data parses into its fields followed by a `DELE` marker if it is deleted, so
/// that parsing keeps exactly its fields and marks it deleted exactly when it was. Each of the
/// four flags is recovered from the flag word. Whatever follows the record in the input is left
/// unread.
pub proof fn lemma_record_roundtrip(m: RecordModel, rest: Seq<u8>)
    requires
        m.name.len() == 4,
        record_data(m).len() <= MAX_DATA,
        m.changed ==> no_dele(m.fields),
        m.changed ==> forall|i: int| 0 <= i < m.fields.len() ==> field_fits(#[trigger] m.fields[i]),
    ensures
        parse_record_header(record_bytes(m) + rest) == Some(
            (m.name, record_flags(m), record_data(m), record_bytes(m).len()),
        ),
        lazy_record(m.name, record_flags(m), record_data(m)) == (RecordModel {
            status: RecordStatus::Initialized,
            raw_data: record_data(m),
            changed: false,
            fields: Seq::empty(),
            ..m
        }),
        m.changed ==> parse_fields(record_data(m)) == Some(written_fields(m)),
        m.changed ==> strip_dele(written_fields(m)) == m.fields,
        m.changed ==> any_dele(written_fields(m)) == m.is_deleted,
{
    let s = record_bytes(m) + rest;
    let data = record_data(m);
    lemma_le_bytes_len(data.len(), 4);
    lemma_le_bytes_len(record_flags(m) as nat, 4);
    reveal_with_fuel(crate::bytes::pow256, 5);
    crate::bytes::lemma_le_value_of_bytes(data.len(), 4);
    crate::bytes::lemma_le_value_of_bytes(record_flags(m) as nat, 4);
    assert(s.subrange(0, 4) =~= m.name);
    assert(s.subrange(4, 8) =~= le_bytes(data.len(), 4));
    assert(s.subrange(12, 16) =~= le_bytes(record_flags(m) as nat, 4));
    assert(s.subrange(16, 16 + data.len() as int) =~= data);
    lemma_record_flags(m.is_deleted, m.is_persistent, m.is_initially_disabled, m.is_blocked);
    if m.changed {
        lemma_strip_dele_written(m);
        assert forall|i: int| 0 <= i < written_fields(m).len() implies field_fits(
            #[trigger] written_fields(m)[i],
        ) by {
            if i < m.fields.len() {
                assert(written_fields(m)[i] == m.fields[i]);
            } else {
                assert(written_fields(m)[i] == dele_field());
            }
        }
        lemma_fields_roundtrip(written_fields(m));
    }
}

/// The record that [`Tes3Record::read`] reads from the front of `s`, and the bytes it takes.
pub open spec fn read_record_spec(s: Seq<u8>) -> Option<(RecordModel, nat)> {
    match parse_record_header(s) {
        None => None,
        Some((name, flags, data, n)) => match parse_fields(data) {
            None => None,
            Some(parsed) => {
                let lazy = lazy_record(name, flags, data);
                Some(
                    (
                        RecordModel {
                            status: RecordStatus::Finalized,
                            fields: strip_dele(parsed),
                            is_deleted: lazy.is_deleted || any_dele(parsed),
                            ..lazy
                        },
                        n,
                    ),
                )
            },
        },
    }
}

/// A game object in a plugin
///
/// A record consists of a 4-byte ASCII identifier, such as `b"CREA"`, and a series of fields.
/// A record read with [`Tes3Record::read_lazy`] keeps its field data unparsed until
/// [`Tes3Record::finalize`] is called.
pub struct Tes3Record {
    name: [u8; 4],
    /// Whether the record is deleted
    pub is_deleted: bool,
    /// Whether references to this object persist
    pub is_persistent: bool,
    /// Whether this object starts disabled
    pub is_initially_disabled: bool,
    /// Whether the record is blocked
    pub is_blocked: bool,
    status: RecordStatus,
    raw_data: Vec<u8>,
    changed: bool,
    fields: Vec<Tes3Field>,
}

impl View for Tes3Record {
    type V = RecordModel;

    closed spec fn view(&self) -> RecordModel {
        RecordModel {
            name: self.name@,
            is_deleted: self.is_deleted,
            is_persistent: self.is_persistent,
            is_initially_disabled: self.is_initially_disabled,
            is_blocked: self.is_blocked,
            status: self.status,
            raw_data: self.raw_data@,
            changed: self.changed,
            fields: self.fields@.map_values(|f: Tes3Field| f@),
        }
    }
}

impl Tes3Record {
    /// The raw data fits its 4-byte length, and no stored field is a `DELE` marker.
    pub open spec fn wf(&self) -> bool {
        &&& self@.raw_data.len() <= MAX_DATA
        &&& no_dele(self@.fields)
        &&& forall|i: int| 0 <= i < self@.fields.len() ==> field_fits(#[trigger] self@.fields[i])
        &&& self@.status == RecordStatus::Initialized ==> self@.fields.len() == 0 && !self@.changed
    }

    /// Parses the fields of a lazily read record
    ///
    /// Does nothing unless the record's status is [`RecordStatus::Initialized`]. Fields named
    /// `DELE` are not kept; they mark the record deleted instead. If a field fails to parse, the
    /// fields before it are kept, the status becomes [`RecordStatus::Failed`] and the call fails
    /// with [`TesError::DecodeFailed`]; otherwise the status becomes
    /// [`RecordStatus::Finalized`].
    pub fn finalize(&mut self) -> (r: Result<(), TesError>)
        requires
            old(self).wf(),
        ensures
            final(self).wf(),
            old(self)@.status != RecordStatus::Initialized ==> r is Ok && final(self)@ == old(
                self,
            )@,
            old(self)@.status == RecordStatus::Initialized ==> ({
                let parsed = parsed_prefix(old(self)@.raw_data);
                let ok = parse_fields(old(self)@.raw_data) is Some;
                &&& r is Ok <==> ok
                &&& r matches Err(e) ==> e is DecodeFailed
                &&& final(self)@ == (RecordModel {
                    status: if ok {
                        RecordStatus::Finalized
                    } else {
                        RecordStatus::Failed
                    },
                    fields: strip_dele(parsed),
                    is_deleted: old(self)@.is_deleted || any_dele(parsed),
                    ..old(self)@
                })
            }),
    {
        if self.status != RecordStatus::Initialized {
            return Ok(());
        }
        let mut fields: Vec<Tes3Field> = Vec::new();
        let mut deleted = self.is_deleted;
        let mut failed = false;
        let ghost raw = self@.raw_data;
        let ghost mut p: Seq<FieldModel> = Seq::empty();
        let mut rem: &[u8] = self.raw_data.as_slice();
        proof {
            assert(fields@.map_values(|f: Tes3Field| f@) =~= strip_dele(p));
            assert(p + parsed_prefix(rem@) =~= parsed_prefix(rem@));
        }
        while rem.len() > 0
            invariant_except_break
                !failed,
                parsed_prefix(raw) == p + parsed_prefix(rem@),
                (parse_fields(raw) is Some) == (parse_fields(rem@) is Some),
            invariant
                fields@.map_values(|f: Tes3Field| f@) == strip_dele(p),
                deleted == (self.is_deleted || any_dele(p)),
                no_dele(strip_dele(p)),
                forall|i: int|
                    0 <= i < strip_dele(p).len() ==> field_fits(#[trigger] strip_dele(p)[i]),
            ensures
                parsed_prefix(raw) == p,
                (parse_fields(raw) is Some) == !failed,
            decreases rem@.len(),
        {
            let ghost before = rem@;
            match Tes3Field::read(&mut rem) {
                Ok(field) => {
                    field.lemma_fits();
                    proof {
                        let (m, n) = parse_field(before).unwrap();
                        assert(n >= 8);
                        assert(p + parsed_prefix(before) =~= p.push(m) + parsed_prefix(rem@));
                        assert(p.push(m).drop_last() =~= p);
                        assert(any_dele(p.push(m)) == (any_dele(p) || m.name == DELE@)) by {
                            if m.name == DELE@ {
                                assert(p.push(m)[p.len() as int].name == DELE@);
                            }
                            if any_dele(p) {
                                let i = choose|i: int| 0 <= i < p.len() && #[trigger] p[i].name == DELE@;
                                assert(p.push(m)[i].name == DELE@);
                            }
                            if any_dele(p.push(m)) {
                                let i = choose|i: int|
                                    0 <= i < p.push(m).len() && #[trigger] p.push(m)[i].name == DELE@;
                                if i < p.len() {
                                    assert(p[i].name == DELE@);
                                }
                            }
                        }
                        p = p.push(m);
                    }
                    if slice_is_tag(field.name(), &DELE) {
                        deleted = true;
                    } else {
                        fields.push(field);
                        proof {
                            assert(fields@.map_values(|f: Tes3Field| f@) =~= strip_dele(p));
                        }
                    }
                },
                Err(_) => {
                    proof {
                        assert(parsed_prefix(before) =~= Seq::<FieldModel>::empty());
                        assert(p + parsed_prefix(before) =~= p);
                    }
                    failed = true;
                    break ;
                },
            }
            proof {
                if rem@.len() == 0 {
                    assert(p + parsed_prefix(rem@) =~= p);
                }
            }
        }
        self.fields = fields;
        self.is_deleted = deleted;
        if failed {
            self.status = RecordStatus::Failed;
            return Err(decode_failed("Failed decoding field"));
        }
        self.status = RecordStatus::Finalized;
        self.changed = false;
        Ok(())
    }

    /// Creates a new, empty record
    pub fn new(name: &[u8; 4]) -> (r: Tes3Record)
        ensures
            r.wf(),
            r@ == (RecordModel {
                name: name@,
                is_deleted: false,
                is_persistent: false,
                is_initially_disabled: false,
                is_blocked: false,
                status: RecordStatus::Finalized,
                raw_data: Seq::empty(),
                changed: false,
                fields: Seq::empty(),
            }),
    {
        let r = Tes3Record {
            name: *name,
            is_deleted: false,
            is_persistent: false,
            is_initially_disabled: false,
            is_blocked: false,
            status: RecordStatus::Finalized,
            raw_data: Vec::new(),
            changed: false,
            fields: Vec::new(),
        };
        assert(r@.fields =~= Seq::<FieldModel>::empty());
        r
    }

    /// Reads a record from the front of a byte reader without parsing its fields
    ///
    /// Call [`Tes3Record::finalize`] to parse the fields.
    pub fn read_lazy<'a>(f: &mut &'a [u8]) -> (r: Result<Tes3Record, TesError>)
        ensures
            r is Ok <==> parse_record_header(old(f)@) is Some,
            r matches Ok(rec) ==> ({
                let (name, flags, data, n) = parse_record_header(old(f)@).unwrap();
                &&& rec.wf()
                &&& rec@ == lazy_record(name, flags, data)
                &&& final(f)@ == old(f)@.subrange(n as int, old(f)@.len() as int)
            }),
            r matches Err(e) ==> e is UnexpectedEof,
    {
        let ghost start = f@;
        let name_bytes = read_exact(f, 4)?;
        let name = name_array(name_bytes);
        let ghost s1 = f@;
        let size = read_u32(f)? as usize;
        let ghost s2 = f@;
        let _unused = read_exact(f, 4)?;
        let ghost s3 = f@;
        let flags = read_u32(f)?;
        let ghost s4 = f@;
        proof {
            assert(s1.subrange(0, 4) =~= start.subrange(4, 8));
            assert(s3.subrange(0, 4) =~= start.subrange(12, 16));
            assert(s4 =~= start.subrange(16, start.len() as int));
        }
        let data_bytes = read_exact(f, size)?;
        let raw_data = vstd::slice::slice_to_vec(data_bytes);
        proof {
            assert(raw_data@ =~= start.subrange(16, 16 + size as int));
            assert(f@ =~= start.subrange(16 + size as int, start.len() as int));
        }
        let r = Tes3Record {
            name,
            is_deleted: flags & FLAG_DELETED != 0,
            is_persistent: flags & FLAG_PERSISTENT != 0,
            is_initially_disabled: flags & FLAG_INITIALLY_DISABLED != 0,
            is_blocked: flags & FLAG_BLOCKED != 0,
            status: RecordStatus::Initialized,
            raw_data,
            changed: false,
            fields: Vec::new(),
        };
        assert(r@.fields =~= Seq::<FieldModel>::empty());
        Ok(r)
    }

    /// Sums the serialized sizes of the fields written for this record
    fn field_size(&self) -> (r: u128)
        requires
            self.wf(),
        ensures
            r as nat == fields_bytes(written_fields(self@)).len(),
            r <= usize::MAX * 4294967304 + 12,
    {
        let mut total: u128 = 0;
        let mut i: usize = 0;
        let count = self.fields.len();
        let ghost view = self@.fields;
        while i < self.fields.len()
            invariant
                view == self@.fields,
                self.wf(),
                i <= self.fields@.len(),
                total as nat == fields_bytes(view.take(i as int)).len(),
                total <= i * 4294967304,
                self.fields@.len() <= usize::MAX,
            decreases self.fields@.len() - i,
        {
            let size = self.fields[i].size();
            proof {
                assert(view[i as int] == self.fields@[i as int]@);
                lemma_fields_bytes_take(view, i as int);
            }
            total = total + size as u128;
            i = i + 1;
        }
        proof {
            assert(view.take(i as int) =~= view);
            if self.is_deleted {
                lemma_fields_bytes_push(view, dele_field());
                lemma_le_bytes_len(4, 4);
            }
            assert(total <= usize::MAX * 4294967304) by (nonlinear_arith)
                requires
                    total <= i * 4294967304,
                    i <= usize::MAX,
            ;
        }
        if self.is_deleted {
            total + 12
        } else {
            total
        }
    }

    /// Calculates the size in bytes of this record: its 16-byte header and the field data
    /// written for it (the largest `usize` if that is larger)
    pub fn size(&self) -> (r: usize)
        requires
            self.wf(),
        ensures
            r as nat == if 16 + fields_bytes(written_fields(self@)).len() <= usize::MAX {
                16 + fields_bytes(written_fields(self@)).len()
            } else {
                usize::MAX as nat
            },
    {
        let total = self.field_size();
        if total + 16 <= usize::MAX as u128 {
            (total + 16) as usize
        } else {
            usize::MAX
        }
    }

    /// Returns the number of fields currently in the record
    pub fn len(&self) -> (r: usize)
        ensures
            r == self@.fields.len(),
    {
        self.fields.len()
    }

    /// Returns whether this record contains no fields
    pub fn is_empty(&self) -> (r: bool)
        ensures
            r == (self@.fields.len() == 0),
    {
        self.fields.len() == 0
    }

    /// Returns the record's fields
    pub fn fields(&self) -> (r: &[Tes3Field])
        requires
            self@.status == RecordStatus::Finalized,
        ensures
            r@.map_values(|f: Tes3Field| f@) == self@.fields,
    {
        self.fields.as_slice()
    }

    /// Adds a field to this record
    ///
    /// A `DELE` field is not stored; it marks the record deleted instead.
    pub fn add_field(&mut self, field: Tes3Field)
        requires
            old(self).wf(),
            old(self)@.status == RecordStatus::Finalized,
        ensures
            final(self).wf(),
            final(self)@ == with_field_added(old(self)@, field@),
    {
        field.lemma_fits();
        self.changed = true;
        if slice_is_tag(field.name(), &DELE) {
            self.is_deleted = true;
        } else {
            self.fields.push(field);
            proof {
                assert(self@.fields =~= old(self)@.fields.push(field@));
            }
        }
    }

    /// Replaces the data of the field at position `i`, as editing the fields in place does
    ///
    /// The record is not marked changed. Fails with [`TesError::LimitExceeded`], changing
    /// nothing, if the data is larger than [`MAX_DATA`].
    pub fn set_field_data(&mut self, i: usize, data: Vec<u8>) -> (r: Result<(), TesError>)
        requires
            old(self).wf(),
            old(self)@.status == RecordStatus::Finalized,
            i < old(self)@.fields.len(),
        ensures
            final(self).wf(),
            r is Ok <==> data_len_ok(data@.len()),
            r is Ok ==> final(self)@ == (RecordModel {
                fields: old(self)@.fields.update(
                    i as int,
                    FieldModel { name: old(self)@.fields[i as int].name, data: data@ },
                ),
                ..old(self)@
            }),
            r is Err ==> final(self)@ == old(self)@,
    {
        let name = crate::tes3::field::name_array(self.fields[i].name());
        proof {
            assert(self@.fields[i as int] == self.fields@[i as int]@);
        }
        let field = Tes3Field::new(&name, data)?;
        field.lemma_fits();
        self.fields.set(i, field);
        proof {
            assert(self@.fields =~= old(self)@.fields.update(
                i as int,
                FieldModel { name: old(self)@.fields[i as int].name, data: data@ },
            ));
            assert forall|k: int| 0 <= k < self@.fields.len() implies self@.fields[k].name != DELE@ by {
                assert(old(self)@.fields[k].name != DELE@);
            }
        }
        Ok(())
    }

    /// Removes all fields from this record
    pub fn clear(&mut self)
        requires
            old(self).wf(),
            old(self)@.status == RecordStatus::Finalized,
        ensures
            final(self).wf(),
            final(self)@ == (RecordModel {
                changed: true,
                fields: Seq::<FieldModel>::empty(),
                ..old(self)@
            }),
    {
        self.changed = true;
        self.fields.clear();
        assert(self@.fields =~= Seq::<FieldModel>::empty());
    }

    /// Writes the record: its name, data size, four zero bytes, flags, and data
    ///
    /// An unchanged record writes the data it was read with; a changed one writes its fields,
    /// followed by a `DELE` field if it is deleted. Fails with [`TesError::LimitExceeded`] if
    /// that data is larger than [`MAX_DATA`], after the name has been written.
    pub fn write(&self, f: &mut Vec<u8>) -> (r: Result<(), TesError>)
        requires
            self.wf(),
        ensures
            r is Ok <==> (!self@.changed || fields_bytes(written_fields(self@)).len() <= MAX_DATA),
            r is Ok ==> final(f)@ == old(f)@ + record_bytes(self@),
            r matches Err(e) ==> e is LimitExceeded && final(f)@ == old(f)@ + self@.name,
    {
        let flags = (if self.is_deleted { FLAG_DELETED } else { 0u32 }) | (if self.is_persistent {
            FLAG_PERSISTENT
        } else {
            0u32
        }) | (if self.is_initially_disabled { FLAG_INITIALLY_DISABLED } else { 0u32 }) | (
        if self.is_blocked {
            FLAG_BLOCKED
        } else {
            0u32
        });
        f.extend_from_slice(self.name.as_slice());
        let ghost base = f@;
        if !self.changed {
            push_u32(f, self.raw_data.len() as u32);
            push_u32(f, 0);
            push_u32(f, flags);
            f.extend_from_slice(self.raw_data.as_slice());
            proof {
                reveal_with_fuel(le_bytes, 5);
                assert(le_bytes(0, 4) =~= zeros(4));
                assert(f@ =~= old(f)@ + record_bytes(self@));
            }
            return Ok(());
        }
        let total = self.field_size();
        if total > MAX_DATA as u128 {
            return Err(limit_exceeded("Record data too long to be serialized", MAX_DATA, MAX_DATA));
        }
        push_u32(f, total as u32);
        push_u32(f, 0);
        push_u32(f, flags);
        self.write_fields(f);
        proof {
            reveal_with_fuel(le_bytes, 5);
            assert(le_bytes(0, 4) =~= zeros(4));
            assert(f@ =~= old(f)@ + record_bytes(self@));
        }
        Ok(())
    }

    /// Writes the fields of a changed record, then `DELE` if it is deleted
    fn write_fields(&self, f: &mut Vec<u8>)
        requires
            self.wf(),
        ensures
            final(f)@ == old(f)@ + fields_bytes(written_fields(self@)),
    {
        let ghost header = f@;
        let ghost view = self@.fields;
        let mut i: usize = 0;
        while i < self.fields.len()
            invariant
                view == self@.fields,
                self.wf(),
                i <= self.fields@.len(),
                f@ == header + fields_bytes(view.take(i as int)),
            decreases self.fields@.len() - i,
        {
            self.fields[i].write(f);
            proof {
                assert(view[i as int] == self.fields@[i as int]@);
                lemma_fields_bytes_take(view, i as int);
            }
            i = i + 1;
        }
        proof {
            assert(view.take(i as int) =~= view);
        }
        if self.is_deleted {
            let del = Tes3Field::new(&DELE, vec![0u8; 4]).unwrap();
            del.write(f);
            proof {
                assert(del@ == dele_field()) by {
                    assert(del@.data =~= seq![0u8, 0u8, 0u8, 0u8]);
                }
                lemma_fields_bytes_push(view, dele_field());
            }
        }
    }

    /// Returns whether this is a record type that has an ID
    pub fn has_id(&self) -> (r: bool)
        ensures
            r == has_id_spec(self@.name),
    {
        !(same_tag(&self.name, &CELL) || same_tag(&self.name, &DIAL) || same_tag(&self.name, &MGEF)
            || same_tag(&self.name, &INFO) || same_tag(&self.name, &LAND) || same_tag(
            &self.name,
            &PGRD,
        ) || same_tag(&self.name, &SCPT) || same_tag(&self.name, &SKIL) || same_tag(
            &self.name,
            &SSCR,
        ) || same_tag(&self.name, &TES3))
    }

    /// Returns the record ID: the data of its first `NAME` field, for record types that have one
    ///
    /// Returns `None` for record types without an ID, when there is no `NAME` field, or when its
    /// data does not decode.
    pub fn id(&self) -> (r: Option<&str>)
        requires
            has_id_spec(self@.name) ==> self@.status == RecordStatus::Finalized,
        ensures
            !has_id_spec(self@.name) ==> r is None,
            has_id_spec(self@.name) ==> match first_name_field(self@.fields) {
                None => r is None,
                Some(i) => match id_from_data(self@.name, self@.fields[i].data) {
                    None => r is None,
                    Some(chars) => r matches Some(s) && s@ == chars,
                },
            },
    {
        if !self.has_id() {
            return None;
        }
        let mut i: usize = 0;
        let ghost view = self@.fields;
        while i < self.fields.len()
            invariant
                view == self@.fields,
                has_id_spec(self@.name),
                i <= self.fields@.len(),
                forall|j: int| 0 <= j < i ==> #[trigger] view[j].name != NAME@,
            decreases self.fields@.len() - i,
        {
            let field = &self.fields[i];
            proof {
                assert(view[i as int] == field@);
            }
            if slice_is_tag(field.name(), &NAME) {
                proof {
                    assert(first_name_field(view) == Some(i as int));
                }
                let plain = same_tag(&self.name, &GMST) || same_tag(&self.name, &WEAP);
                if plain {
                    return match field.get_string() {
                        Ok(s) => Some(s),
                        Err(_) => None,
                    };
                } else {
                    return match field.get_zstring() {
                        Ok(s) => Some(s),
                        Err(_) => None,
                    };
                }
            }
            i = i + 1;
        }
        None
    }

    /// Reads a record from the front of a byte reader and parses its fields
    pub fn read<'a>(f: &mut &'a [u8]) -> (r: Result<Tes3Record, TesError>)
        ensures
            r is Ok <==> read_record_spec(old(f)@) is Some,
            r matches Ok(rec) ==> ({
                let (m, n) = read_record_spec(old(f)@).unwrap();
                &&& rec.wf()
                &&& rec@ == m
                &&& n <= old(f)@.len()
                &&& final(f)@ == old(f)@.subrange(n as int, old(f)@.len() as int)
            }),
    {
        let mut record = Self::read_lazy(f)?;
        record.finalize()?;
        proof {
            lemma_parse_fields_prefix(record@.raw_data);
        }
        Ok(record)
    }

    /// Returns the record name
    pub fn name(&self) -> (r: &[u8; 4])
        ensures
            r@ == self@.name,
    {
        &self.name
    }

    /// Returns the record name as a string, or `"<invalid>"` if it is not UTF-8
    pub fn display_name(&self) -> (r: &str)
        ensures
            r@ == display_name_spec(self@.name),
    {
        display_name_of(self.name.as_slice())
    }

    /// Returns whether the record's fields have been parsed
    pub fn status(&self) -> (r: RecordStatus)
        ensures
            r == self@.status,
    {
        self.status
    }
}

} // verus!
