//! Morrowind plugin files (.esm, .esp) and saves (.ess).

use vstd::prelude::*;
use vstd::string::StringSliceAdditionalSpecFns;
use vstd::utf8::encode_utf8;

use crate::bytes::{le_bytes, le_value, push_u32, push_u64};
use crate::common::{check_size, data_len_ok, MAX_DATA};
use crate::error::{decode_failed, limit_exceeded, TesError};
use crate::plugin::{FieldModel, RecordStatus};
use crate::strings::{no_nul, read_string_dyn, serialize_str, str_eq, str_len, until_nul, zeros};
use crate::tags::{same_tag, slice_is_tag, DATA, GMDT, HEDR, MAST, SCRD, SCRS, TES3};
use crate::tes3::field::{zstring_of, Tes3Field};
use crate::tes3::form::{
    field_zstring, fold_fields, lemma_fold_none, lemma_fold_step, string_value, word, word_at,
    zstring_value,
};
use crate::tes3::record::{
    fields_bytes, first_name_field, has_id_spec, id_from_data, read_record_spec, record_bytes,
    written_fields, RecordModel, Tes3Record,
};

verus! {

/// Maximum length in bytes of the plugin author string
pub const AUTHOR_LENGTH: usize = 32;

/// Maximum length in bytes of the plugin description string
pub const DESCRIPTION_LENGTH: usize = 256;

/// Maximum length in bytes of the player name in a save
pub const NAME_LENGTH: usize = 32;

/// Maximum length in bytes of the player cell name in a save
pub const CELL_LENGTH: usize = 64;

/// The bits of the `f32` version number 1.2
pub const VERSION_1_2: u32 = 0x3f99999a;

/// The bits of the `f32` version number 1.3, the version of new plugins
pub const VERSION_1_3: u32 = 0x3fa66666;

/// Length of the `HEDR` field
pub const HEADER_LENGTH: usize = 300;

/// Flag bit of a master file
pub const FLAG_MASTER: u32 = 0x1;

/// Length of the `GMDT` field of a save
pub const GAME_DATA_LENGTH: usize = 124;

/// The ID of a record: the data of its first `NAME` field, for record types that have one.
pub open spec fn record_id(m: RecordModel) -> Option<Seq<char>> {
    if has_id_spec(m.name) {
        match first_name_field(m.fields) {
            Some(i) => id_from_data(m.name, m.fields[i].data),
            None => None,
        }
    } else {
        None
    }
}

/// Converts a string to lower case: calls std's `str::to_lowercase`.
///
/// Its result, a function of the string alone, is named [`lowercase`]; nothing more is claimed
/// of it.
#[verifier::external_body]
fn to_lowercase(s: &str) -> (r: String)
    ensures
        r@ == lowercase(s@),
{
    s.to_lowercase()
}

/// The lower-case form of a string, as std's `str::to_lowercase` computes it.
pub uninterp spec fn lowercase(s: Seq<char>) -> Seq<char>;

/// Save game information
///
/// For saves (.ess files), this information is included in the TES3 record. Health and the
/// hour of the day are held as the bits of `f32` values.
pub struct SaveInfo {
    current_health: u32,
    max_health: u32,
    hour: u32,
    unknown1: [u8; 12],
    current_cell: String,
    unknown2: [u8; 4],
    player_name: String,
}

/// The abstract content of save game information.
pub struct SaveInfoModel {
    pub current_health: u32,
    pub max_health: u32,
    pub hour: u32,
    pub unknown1: Seq<u8>,
    pub current_cell: Seq<char>,
    pub unknown2: Seq<u8>,
    pub player_name: Seq<char>,
}

impl View for SaveInfo {
    type V = SaveInfoModel;

    closed spec fn view(&self) -> SaveInfoModel {
        SaveInfoModel {
            current_health: self.current_health,
            max_health: self.max_health,
            hour: self.hour,
            unknown1: self.unknown1@,
            current_cell: self.current_cell@,
            unknown2: self.unknown2@,
            player_name: self.player_name@,
        }
    }
}

impl SaveInfo {
    /// The cell and player names fit their fixed-size slots.
    pub open spec fn wf(&self) -> bool {
        encode_utf8(self@.current_cell).len() <= CELL_LENGTH && encode_utf8(self@.player_name).len()
            <= NAME_LENGTH
    }

    /// Get the bits of the player's current health
    pub fn current_health_bits(&self) -> (r: u32)
        ensures
            r == self@.current_health,
    {
        self.current_health
    }

    /// Get the bits of the player's maximum health
    pub fn max_health_bits(&self) -> (r: u32)
        ensures
            r == self@.max_health,
    {
        self.max_health
    }

    /// Get the bits of the current hour of the day in the game
    pub fn hour_bits(&self) -> (r: u32)
        ensures
            r == self@.hour,
    {
        self.hour
    }

    /// Gets the name of the player's current cell
    pub fn current_cell(&self) -> (r: &str)
        ensures
            r@ == self@.current_cell,
    {
        self.current_cell.as_str()
    }

    /// Sets the name of the player's current cell
    ///
    /// Fails with [`TesError::LimitExceeded`], changing nothing, if the name is longer than
    /// [`CELL_LENGTH`] bytes.
    pub fn set_current_cell(&mut self, cell: String) -> (r: Result<(), TesError>)
        requires
            old(self).wf(),
        ensures
            final(self).wf(),
            r is Ok <==> encode_utf8(cell@).len() <= CELL_LENGTH,
            r is Ok ==> final(self)@ == (SaveInfoModel { current_cell: cell@, ..old(self)@ }),
            r is Err ==> final(self)@ == old(self)@,
    {
        check_size(str_len(cell.as_str()), CELL_LENGTH, "cell name too long")?;
        self.current_cell = cell;
        Ok(())
    }

    /// The bytes of the `GMDT` field that holds this information.
    fn game_data(&self) -> (r: Vec<u8>)
        requires
            self.wf(),
        ensures
            r@ == game_data_bytes(self@),
            r@.len() == GAME_DATA_LENGTH,
    {
        let mut out: Vec<u8> = Vec::new();
        push_u32(&mut out, self.current_health);
        push_u32(&mut out, self.max_health);
        push_u32(&mut out, self.hour);
        let mut i: usize = 0;
        let ghost start = out@;
        while i < 12
            invariant
                i <= 12,
                out@ == start + self.unknown1@.take(i as int),
            decreases 12 - i,
        {
            out.push(self.unknown1[i]);
            assert(self.unknown1@.take(i + 1) =~= self.unknown1@.take(i as int).push(self.unknown1@[i as int]));
            i = i + 1;
        }
        assert(self.unknown1@.take(12) =~= self.unknown1@);
        serialize_str(self.current_cell.as_str(), CELL_LENGTH, &mut out);
        let ghost mid = out@;
        let mut j: usize = 0;
        while j < 4
            invariant
                j <= 4,
                out@ == mid + self.unknown2@.take(j as int),
            decreases 4 - j,
        {
            out.push(self.unknown2[j]);
            assert(self.unknown2@.take(j + 1) =~= self.unknown2@.take(j as int).push(self.unknown2@[j as int]));
            j = j + 1;
        }
        assert(self.unknown2@.take(4) =~= self.unknown2@);
        serialize_str(self.player_name.as_str(), NAME_LENGTH, &mut out);
        proof {
            crate::bytes::lemma_le_bytes_len(self.current_health as nat, 4);
            crate::bytes::lemma_le_bytes_len(self.max_health as nat, 4);
            crate::bytes::lemma_le_bytes_len(self.hour as nat, 4);
            assert(out@ =~= game_data_bytes(self@));
        }
        out
    }

    /// Gets the player's name
    pub fn player_name(&self) -> (r: &str)
        ensures
            r@ == self@.player_name,
    {
        self.player_name.as_str()
    }

    /// Sets the player's name shown in the save menu
    ///
    /// Fails with [`TesError::LimitExceeded`], changing nothing, if the name is longer than
    /// [`NAME_LENGTH`] bytes.
    pub fn set_player_name(&mut self, name: String) -> (r: Result<(), TesError>)
        requires
            old(self).wf(),
        ensures
            final(self).wf(),
            r is Ok <==> encode_utf8(name@).len() <= NAME_LENGTH,
            r is Ok ==> final(self)@ == (SaveInfoModel { player_name: name@, ..old(self)@ }),
            r is Err ==> final(self)@ == old(self)@,
    {
        check_size(str_len(name.as_str()), NAME_LENGTH, "player name too long")?;
        self.player_name = name;
        Ok(())
    }
}

/// The abstract content of a plugin.
pub struct PluginModel {
    pub version: u32,
    pub is_master: bool,
    pub author: Seq<char>,
    pub description: Seq<char>,
    pub save: Option<SaveInfoModel>,
    pub screen_data: Seq<u8>,
    pub masters: Seq<(Seq<char>, u64)>,
    pub records: Seq<RecordModel>,
}

/// Some master has the same name as `name`, ignoring case.
pub open spec fn has_master(masters: Seq<(Seq<char>, u64)>, name: Seq<char>) -> bool {
    exists|i: int| 0 <= i < masters.len() && lowercase(#[trigger] masters[i].0) == lowercase(name)
}

/// Some record has the ID `id`.
pub open spec fn id_matches(records: Seq<RecordModel>, id: Seq<char>, j: int) -> bool {
    0 <= j < records.len() && record_id(records[j]) == Some(id)
}

/// Records with the ID `id` have more than one type.
pub open spec fn id_has_types(records: Seq<RecordModel>, id: Seq<char>) -> bool {
    exists|j: int, k: int|
        #[trigger] id_matches(records, id, j) && #[trigger] id_matches(records, id, k)
            && records[j].name != records[k].name
}

/// The last record with the ID `id` and the type `name`, if any.
#[verifier::opaque]
pub open spec fn last_with_type(records: Seq<RecordModel>, id: Seq<char>, name: Seq<u8>) -> Option<
    int,
> {
    if exists|j: int| #[trigger] id_matches(records, id, j) && records[j].name == name {
        Some(
            choose|j: int|
                #[trigger] id_matches(records, id, j) && records[j].name == name && forall|k: int|
                    j < k < records.len() ==> !(#[trigger] id_matches(records, id, k)
                        && records[k].name == name),
        )
    } else {
        None
    }
}

/// The record at position `j` has the ID `id` and the type `name`.
pub open spec fn id_type_matches(records: Seq<RecordModel>, id: Seq<char>, name: Seq<u8>, j: int) -> bool {
    id_matches(records, id, j) && records[j].name == name
}

/// More than one record has the ID `id` and the type `name`.
pub open spec fn id_type_repeats(records: Seq<RecordModel>, id: Seq<char>, name: Seq<u8>) -> bool {
    exists|j: int, k: int|
        j != k && #[trigger] id_type_matches(records, id, name, j) && #[trigger] id_type_matches(
            records,
            id,
            name,
            k,
        )
}

/// The last record with the ID `id`, if any.
#[verifier::opaque]
pub open spec fn last_with_id(records: Seq<RecordModel>, id: Seq<char>) -> Option<int> {
    if exists|j: int| #[trigger] id_matches(records, id, j) {
        Some(
            choose|j: int|
                #[trigger] id_matches(records, id, j) && forall|k: int|
                    j < k < records.len() ==> !#[trigger] id_matches(records, id, k),
        )
    } else {
        None
    }
}

/// The save information in the 124 bytes of a `GMDT` field: current and maximum health and
/// the hour (the bits of `f32` values), 12 unknown bytes, the cell name padded to 64 bytes, 4
/// unknown bytes, and the player name padded to 32 bytes.
pub open spec fn parse_game_data(d: Seq<u8>) -> Option<SaveInfoModel> {
    if d.len() < GAME_DATA_LENGTH {
        None
    } else {
        match (
            string_value(until_nul(d.subrange(24, 88))),
            string_value(until_nul(d.subrange(92, 124))),
        ) {
            (Some(cell), Some(name)) => Some(
                SaveInfoModel {
                    current_health: word(d, 0),
                    max_health: word(d, 1),
                    hour: word(d, 2),
                    unknown1: d.subrange(12, 24),
                    current_cell: cell,
                    unknown2: d.subrange(88, 92),
                    player_name: name,
                },
            ),
            _ => None,
        }
    }
}

/// What the header fields after `HEDR` have given so far.
pub struct HeaderState {
    pub masters: Seq<(Seq<char>, u64)>,
    /// A master name still waiting for its `DATA` size
    pub pending: Option<Seq<char>>,
    pub save: Option<SaveInfoModel>,
    pub screen: Seq<u8>,
}

/// The state before any header field after `HEDR` is read.
pub open spec fn empty_header() -> HeaderState {
    HeaderState { masters: Seq::empty(), pending: None, save: None, screen: Seq::empty() }
}

/// Reading one header field after `HEDR`: a master name (`MAST`) must be followed by its size
/// (`DATA`) before the next master; masters may not repeat, ignoring case; `GMDT` holds save
/// information, `SCRS` a screenshot, and `SCRD` is skipped.
pub open spec fn header_step(st: HeaderState, f: FieldModel) -> Option<HeaderState> {
    if f.name == MAST@ {
        if st.pending is Some {
            None
        } else {
            match zstring_value(f.data) {
                Some(n) => Some(HeaderState { pending: Some(n), ..st }),
                None => None,
            }
        }
    } else if f.name == DATA@ {
        match st.pending {
            None => None,
            Some(n) => if f.data.len() == 8 && !has_master(st.masters, n) {
                Some(
                    HeaderState {
                        masters: st.masters.push((n, le_value(f.data) as u64)),
                        pending: None,
                        ..st
                    },
                )
            } else {
                None
            },
        }
    } else if f.name == GMDT@ {
        match parse_game_data(f.data) {
            Some(g) => Some(HeaderState { save: Some(g), ..st }),
            None => None,
        }
    } else if f.name == SCRD@ {
        Some(st)
    } else if f.name == SCRS@ {
        Some(HeaderState { screen: f.data, ..st })
    } else {
        None
    }
}

/// [`header_step`] as a function value.
pub open spec fn header_step_fn() -> spec_fn(HeaderState, FieldModel) -> Option<HeaderState> {
    |st: HeaderState, f: FieldModel| header_step(st, f)
}

/// The records read one after another until the end of `s`.
pub open spec fn parse_records(s: Seq<u8>) -> Option<Seq<RecordModel>>
    decreases s.len(),
{
    if s.len() == 0 {
        Some(Seq::empty())
    } else {
        match read_record_spec(s) {
            None => None,
            Some((m, n)) => if 0 < n <= s.len() {
                match parse_records(s.subrange(n as int, s.len() as int)) {
                    Some(rest) => Some(seq![m] + rest),
                    None => None,
                }
            } else {
                None
            },
        }
    }
}

/// The plugin header held by a `TES3` record whose first field is the 300-byte `HEDR`
/// (version, flags, author padded to 32 bytes, description padded to 256 bytes, record count),
/// followed by the header fields of [`header_step`]; the plugin has no records yet.
pub open spec fn plugin_header(h: RecordModel) -> Option<PluginModel> {
    if h.name != TES3@ || h.fields.len() == 0 || h.fields[0].name != HEDR@
        || h.fields[0].data.len() != HEADER_LENGTH {
        None
    } else {
        let hd = h.fields[0].data;
        match (
            string_value(until_nul(hd.subrange(8, 40))),
            string_value(until_nul(hd.subrange(40, 296))),
            fold_fields(empty_header(), header_step_fn(), h.fields.drop_first()),
        ) {
            (Some(author), Some(description), Some(st)) => if st.pending is None {
                Some(
                    PluginModel {
                        version: word(hd, 0),
                        is_master: word(hd, 1) & FLAG_MASTER != 0,
                        author,
                        description,
                        save: st.save,
                        screen_data: st.screen,
                        masters: st.masters,
                        records: Seq::empty(),
                    },
                )
            } else {
                None
            },
            _ => None,
        }
    }
}

/// The plugin read from `s`: its header record ([`plugin_header`]), then records until the end.
pub open spec fn parse_plugin(s: Seq<u8>) -> Option<PluginModel> {
    match read_record_spec(s) {
        None => None,
        Some((h, n)) => match (plugin_header(h), parse_records(s.subrange(n as int, s.len() as int))) {
            (Some(p), Some(records)) => Some(PluginModel { records, ..p }),
            _ => None,
        },
    }
}

/// A string laid out in `size` bytes: its UTF-8 bytes, then zeros.
pub open spec fn padded(s: Seq<char>, size: nat) -> Seq<u8> {
    encode_utf8(s) + zeros((size - encode_utf8(s).len()) as nat)
}

/// The record count written in a header: the number of records, capped at `u32::MAX`.
pub open spec fn record_count(n: nat) -> u32 {
    if n > u32::MAX { u32::MAX } else { n as u32 }
}

/// The 300 bytes of the `HEDR` field written for a plugin.
pub open spec fn header_data(p: PluginModel) -> Seq<u8> {
    le_bytes(p.version as nat, 4) + le_bytes(if p.is_master { FLAG_MASTER as nat } else { 0 }, 4)
        + padded(p.author, AUTHOR_LENGTH as nat) + padded(p.description, DESCRIPTION_LENGTH as nat)
        + le_bytes(record_count(p.records.len()) as nat, 4)
}

/// The `MAST` and `DATA` field pair written for each master.
pub open spec fn master_fields(masters: Seq<(Seq<char>, u64)>) -> Seq<FieldModel>
    decreases masters.len(),
{
    if masters.len() == 0 {
        Seq::empty()
    } else {
        master_fields(masters.drop_last()) + seq![
            FieldModel { name: MAST@, data: zstring_of(masters.last().0) },
            FieldModel { name: DATA@, data: le_bytes(masters.last().1 as nat, 8) },
        ]
    }
}

/// The 124 bytes of the `GMDT` field written for save information.
pub open spec fn game_data_bytes(g: SaveInfoModel) -> Seq<u8> {
    le_bytes(g.current_health as nat, 4) + le_bytes(g.max_health as nat, 4) + le_bytes(
        g.hour as nat,
        4,
    ) + g.unknown1 + padded(g.current_cell, CELL_LENGTH as nat) + g.unknown2 + padded(
        g.player_name,
        NAME_LENGTH as nat,
    )
}

/// The fixed contents of the `SCRD` field written before a screenshot.
pub open spec fn screen_header() -> Seq<u8> {
    seq![0u8, 0, 0xff, 0, 0, 0xff, 0, 0, 0xff, 0, 0, 0, 0, 0, 0, 0, 0x20, 0, 0, 0]
}

/// The fields of the header record written for a plugin: `HEDR`, the masters, `GMDT` for a
/// save, and `SCRD` and `SCRS` if there is a screenshot.
pub open spec fn header_fields(p: PluginModel) -> Seq<FieldModel> {
    seq![FieldModel { name: HEDR@, data: header_data(p) }] + master_fields(p.masters) + (
    match p.save {
        Some(g) => seq![FieldModel { name: GMDT@, data: game_data_bytes(g) }],
        None => Seq::empty(),
    }) + (if p.screen_data.len() > 0 {
        seq![
            FieldModel { name: SCRD@, data: screen_header() },
            FieldModel { name: SCRS@, data: p.screen_data },
        ]
    } else {
        Seq::empty()
    })
}

/// The `TES3` header record written for a plugin.
pub open spec fn header_record(p: PluginModel) -> RecordModel {
    RecordModel {
        name: TES3@,
        is_deleted: false,
        is_persistent: false,
        is_initially_disabled: false,
        is_blocked: false,
        status: RecordStatus::Finalized,
        raw_data: Seq::empty(),
        changed: true,
        fields: header_fields(p),
    }
}

/// The bytes of records written one after another.
pub open spec fn records_bytes(records: Seq<RecordModel>) -> Seq<u8>
    decreases records.len(),
{
    if records.len() == 0 {
        Seq::empty()
    } else {
        records_bytes(records.drop_last()) + record_bytes(records.last())
    }
}

/// A record can be written: it is unchanged, or its fields fit in a record.
pub open spec fn record_writable(m: RecordModel) -> bool {
    !m.changed || fields_bytes(written_fields(m)).len() <= MAX_DATA
}

/// A plugin can be written: no master name holds a zero byte or is too long, the header
/// record's fields fit, and every record can be written.
pub open spec fn plugin_writable(p: PluginModel) -> bool {
    &&& forall|i: int|
        0 <= i < p.masters.len() ==> no_nul(encode_utf8(#[trigger] p.masters[i].0))
            && data_len_ok(zstring_of(p.masters[i].0).len())
    &&& fields_bytes(header_fields(p)).len() <= MAX_DATA
    &&& forall|i: int| 0 <= i < p.records.len() ==> record_writable(#[trigger] p.records[i])
}

/// The bytes of a written plugin: the header record, then each record.
pub open spec fn plugin_bytes(p: PluginModel) -> Seq<u8> {
    record_bytes(header_record(p)) + records_bytes(p.records)
}

/// The header state while reading a plugin.
struct HeaderReader {
    masters: Vec<(String, u64)>,
    pending: Option<String>,
    save: Option<SaveInfo>,
    screen: Vec<u8>,
}

impl View for HeaderReader {
    type V = HeaderState;

    closed spec fn view(&self) -> HeaderState {
        HeaderState {
            masters: self.masters@.map_values(|m: (String, u64)| (m.0@, m.1)),
            pending: match self.pending {
                Some(p) => Some(p@),
                None => None,
            },
            save: match self.save {
                Some(s) => Some(s@),
                None => None,
            },
            screen: self.screen@,
        }
    }
}

/// Reads the save information of a `GMDT` field.
fn read_game_data(data: &[u8]) -> (r: Result<SaveInfo, TesError>)
    ensures
        r is Ok <==> parse_game_data(data@) is Some,
        r matches Ok(g) ==> g@ == parse_game_data(data@).unwrap() && g.wf(),
{
    if data.len() < GAME_DATA_LENGTH {
        return Err(TesError::UnexpectedEof);
    }
    let current_health = word_at(data, 0);
    let max_health = word_at(data, 1);
    let hour = word_at(data, 2);
    let u1 = vstd::slice::slice_subrange(data, 12, 24);
    let unknown1 = [u1[0], u1[1], u1[2], u1[3], u1[4], u1[5], u1[6], u1[7], u1[8], u1[9], u1[10], u1[11]];
    let mut cell_reader = vstd::slice::slice_subrange(data, 24, 88);
    assert(data@.subrange(24, 88).take(64) =~= data@.subrange(24, 88));
    assert(data@.subrange(92, 124).take(32) =~= data@.subrange(92, 124));
    let current_cell = read_string_dyn(64, &mut cell_reader)?;
    let u2 = vstd::slice::slice_subrange(data, 88, 92);
    let unknown2 = [u2[0], u2[1], u2[2], u2[3]];
    let mut name_reader = vstd::slice::slice_subrange(data, 92, 124);
    let player_name = read_string_dyn(32, &mut name_reader)?;
    proof {
        assert(unknown1@ =~= data@.subrange(12, 24));
        assert(unknown2@ =~= data@.subrange(88, 92));
        assert(data@.subrange(24, 88).take(64) =~= data@.subrange(24, 88));
        assert(data@.subrange(92, 124).take(32) =~= data@.subrange(92, 124));
        lemma_decoded_len(data@.subrange(24, 88));
        lemma_decoded_len(data@.subrange(92, 124));
    }
    Ok(
        SaveInfo {
            current_health,
            max_health,
            hour,
            unknown1,
            current_cell,
            unknown2,
            player_name,
        },
    )
}

/// A string decoded from the bytes before the first null of a buffer encodes to no more bytes
/// than the buffer holds.
pub proof fn lemma_decoded_len(b: Seq<u8>)
    requires
        vstd::utf8::valid_utf8(until_nul(b)),
    ensures
        encode_utf8(vstd::utf8::decode_utf8(until_nul(b))).len() <= b.len(),
{
    crate::strings::lemma_until_nul_no_nul(b);
    vstd::utf8::decode_utf8_encode_utf8(until_nul(b));
}

impl HeaderReader {
    fn apply_field(&mut self, field: &Tes3Field) -> (r: Result<(), TesError>)
        requires
            old(self).save matches Some(g) ==> g.wf(),
            data_len_ok(old(self).screen@.len()),
        ensures
            final(self).save matches Some(g) ==> g.wf(),
            data_len_ok(final(self).screen@.len()),
            r is Ok <==> header_step(old(self)@, field@) is Some,
            r is Ok ==> final(self)@ == header_step(old(self)@, field@).unwrap(),
    {
        let name = field.name();
        if slice_is_tag(name, &MAST) {
            if self.pending.is_some() {
                return Err(decode_failed("Missing size for master"));
            }
            self.pending = Some(field_zstring(field)?);
        } else if slice_is_tag(name, &DATA) {
            let pending = self.pending.take();
            match pending {
                None => {
                    return Err(decode_failed("Data field without master"));
                },
                Some(n) => {
                    let size = field.get_u64()?;
                    let lower = to_lowercase(n.as_str());
                    let mut i: usize = 0;
                    while i < self.masters.len()
                        invariant
                            i <= self.masters@.len(),
                            self.masters@ == old(self).masters@,
                            lower@ == lowercase(n@),
                            self.save == old(self).save,
                            self.pending is None,
                            self.screen == old(self).screen,
                            old(self).save matches Some(g) ==> g.wf(),
                            old(self).pending == Some(n),
                            field@.name == DATA@,
                            data_len_ok(old(self).screen@.len()),
                            forall|j: int|
                                0 <= j < i ==> lowercase(#[trigger] old(self)@.masters[j].0)
                                    != lowercase(n@),
                        decreases self.masters@.len() - i,
                    {
                        let other = to_lowercase(self.masters[i].0.as_str());
                        proof {
                            assert(old(self)@.masters[i as int].0 == self.masters@[i as int].0@);
                        }
                        if str_eq(other.as_str(), lower.as_str()) {
                            assert(lowercase(old(self)@.masters[i as int].0) == lowercase(n@));
                            assert(has_master(old(self)@.masters, n@));
                            assert(old(self)@.pending == Some(n@));
                            assert(field@.name == DATA@);
                            assert(field@.name != MAST@);
                            assert(header_step(old(self)@, field@) is None);
                            return Err(TesError::DuplicateMaster(n));
                        }
                        i = i + 1;
                    }
                    self.masters.push((n, size));
                    assert(self@.masters =~= old(self)@.masters.push((n@, size)));
                },
            }
        } else if slice_is_tag(name, &GMDT) {
            self.save = Some(read_game_data(field.get())?);
        } else if slice_is_tag(name, &SCRD) {
        } else if slice_is_tag(name, &SCRS) {
            field.lemma_fits();
            self.screen = vstd::slice::slice_to_vec(field.get());
        } else {
            return Err(decode_failed("Unexpected field in header"));
        }
        Ok(())
    }
}

/// Reads records until the end of the reader.
fn read_records<'a>(f: &mut &'a [u8]) -> (r: Result<Vec<Tes3Record>, TesError>)
    ensures
        r is Ok <==> parse_records(old(f)@) is Some,
        r matches Ok(v) ==> v@.map_values(|x: Tes3Record| x@) == parse_records(old(f)@).unwrap()
            && final(f)@.len() == 0 && forall|k: int|
            0 <= k < v@.len() ==> (#[trigger] v@[k]).wf() && v@[k]@.status
                == RecordStatus::Finalized,
{
    let mut records: Vec<Tes3Record> = Vec::new();
    let ghost rest = f@;
    proof {
        assert(records@.map_values(|r: Tes3Record| r@) =~= Seq::<RecordModel>::empty());
    }
    while f.len() > 0
        invariant
            rest == old(f)@,
            parse_records(f@) is None ==> parse_records(rest) is None,
            parse_records(f@) matches Some(tail) ==> parse_records(rest) == Some(
                records@.map_values(|r: Tes3Record| r@) + tail,
            ),
            forall|k: int|
                0 <= k < records@.len() ==> (#[trigger] records@[k]).wf() && records@[k]@.status
                    == RecordStatus::Finalized,
        decreases f@.len(),
    {
        let ghost before = f@;
        let ghost done = records@.map_values(|r: Tes3Record| r@);
        let rec = match Tes3Record::read(f) {
            Ok(rec) => rec,
            Err(e) => {
                assert(parse_records(before) is None);
                return Err(e);
            },
        };
        let ghost m = rec@;
        records.push(rec);
        proof {
            assert(records@.map_values(|r: Tes3Record| r@) =~= done.push(m));
            if let Some(tail) = parse_records(f@) {
                assert(parse_records(before) == Some(seq![m] + tail));
                assert(done + (seq![m] + tail) =~= done.push(m) + tail);
            }
        }
    }
    proof {
        assert(parse_records(f@) == Some(Seq::<RecordModel>::empty()));
        assert(records@.map_values(|r: Tes3Record| r@) + Seq::<RecordModel>::empty()
            =~= records@.map_values(|r: Tes3Record| r@));
    }
    Ok(records)
}

/// Represents a plugin file
///
/// Plugins consist of a header (version, master flag, author, description, masters, and for
/// saves the save information and screenshot) and a series of records.
pub struct Plugin {
    version: u32,
    /// Indicates whether this plugin is a master
    pub is_master: bool,
    author: String,
    description: String,
    save: Option<SaveInfo>,
    screen_data: Vec<u8>,
    masters: Vec<(String, u64)>,
    records: Vec<Tes3Record>,
}

/// Replacing a record and then viewing is viewing and then replacing the record's view.
proof fn lemma_map_update_records(s: Seq<Tes3Record>, i: int, x: Tes3Record)
    requires
        0 <= i < s.len(),
    ensures
        s.update(i, x).map_values(|r: Tes3Record| r@) == s.map_values(|r: Tes3Record| r@).update(
            i,
            x@,
        ),
{
    assert(s.update(i, x).map_values(|r: Tes3Record| r@) =~= s.map_values(|r: Tes3Record| r@).update(
        i,
        x@,
    ));
}

impl View for Plugin {
    type V = PluginModel;

    closed spec fn view(&self) -> PluginModel {
        PluginModel {
            version: self.version,
            is_master: self.is_master,
            author: self.author@,
            description: self.description@,
            save: match self.save {
                Some(s) => Some(s@),
                None => None,
            },
            screen_data: self.screen_data@,
            masters: self.masters@.map_values(|m: (String, u64)| (m.0@, m.1)),
            records: self.records@.map_values(|r: Tes3Record| r@),
        }
    }
}

impl Plugin {
    /// The author and description fit their fixed-size slots, the save information is
    /// well-formed, and every record is well-formed and parsed if it has an ID.
    pub closed spec fn wf(&self) -> bool {
        &&& encode_utf8(self.author@).len() <= AUTHOR_LENGTH
        &&& encode_utf8(self.description@).len() <= DESCRIPTION_LENGTH
        &&& (self.save matches Some(s) ==> s.wf())
        &&& data_len_ok(self.screen_data@.len())
        &&& forall|i: int| 0 <= i < self.records@.len() ==> (#[trigger] self.records@[i]).wf()
        &&& forall|i: int|
            0 <= i < self.records@.len() ==> has_id_spec((#[trigger] self.records@[i])@.name)
                ==> self.records@[i]@.status == RecordStatus::Finalized
    }

    /// Create a new, empty plugin of version 1.3
    ///
    /// Fails with [`TesError::LimitExceeded`] if the author string is longer than
    /// [`AUTHOR_LENGTH`] bytes or the description longer than [`DESCRIPTION_LENGTH`] bytes.
    pub fn new(author: String, description: String) -> (r: Result<Plugin, TesError>)
        ensures
            r is Ok <==> encode_utf8(author@).len() <= AUTHOR_LENGTH && encode_utf8(
                description@,
            ).len() <= DESCRIPTION_LENGTH,
            r matches Ok(p) ==> p.wf() && p@ == (PluginModel {
                version: VERSION_1_3,
                is_master: false,
                author: author@,
                description: description@,
                save: None,
                screen_data: Seq::empty(),
                masters: Seq::empty(),
                records: Seq::empty(),
            }),
    {
        check_size(str_len(author.as_str()), AUTHOR_LENGTH, "author value too long")?;
        check_size(str_len(description.as_str()), DESCRIPTION_LENGTH, "description value too long")?;
        let p = Plugin {
            version: VERSION_1_3,
            is_master: false,
            author,
            description,
            save: None,
            screen_data: Vec::new(),
            masters: Vec::new(),
            records: Vec::new(),
        };
        assert(p@.masters =~= Seq::<(Seq<char>, u64)>::empty());
        assert(p@.records =~= Seq::<RecordModel>::empty());
        Ok(p)
    }

    /// Reads a plugin from a byte reader: the header record, then records to the end
    ///
    /// Fails if the header is not a `TES3` record whose first field is a 300-byte `HEDR`, if a
    /// header field is unexpected or out of order, if a master repeats, or if any record or
    /// field does not decode.
    pub fn read<'a>(f: &mut &'a [u8]) -> (r: Result<Plugin, TesError>)
        ensures
            r is Ok <==> parse_plugin(old(f)@) is Some,
            r matches Ok(p) ==> p.wf() && p@ == parse_plugin(old(f)@).unwrap() && final(f)@.len()
                == 0,
    {
        let header = Tes3Record::read(f)?;
        let mut plugin = Self::from_header(&header)?;
        let records = read_records(f)?;
        plugin.records = records;
        Ok(plugin)
    }

    /// The plugin described by a header record, with no records yet.
    fn from_header(header: &Tes3Record) -> (r: Result<Plugin, TesError>)
        requires
            header.wf(),
            header@.status == RecordStatus::Finalized,
        ensures
            r is Ok <==> plugin_header(header@) is Some,
            r matches Ok(p) ==> p.wf() && p@ == plugin_header(header@).unwrap(),
    {
        if !same_tag(header.name(), &TES3) {
            return Err(decode_failed("Expected TES3 record"));
        }
        let fields = header.fields();
        if fields.len() == 0 || !slice_is_tag(fields[0].name(), &HEDR) {
            return Err(decode_failed("Missing HEDR field"));
        }
        let hedr = fields[0].get();
        if hedr.len() != HEADER_LENGTH {
            return Err(decode_failed("Invalid HEDR field"));
        }
        proof {
            assert(fields@.map_values(|f: Tes3Field| f@)[0] == fields@[0]@);
        }
        let version = word_at(hedr, 0);
        let flags = word_at(hedr, 1);
        assert(hedr@.subrange(8, 40).take(32) =~= hedr@.subrange(8, 40));
        assert(hedr@.subrange(40, 296).take(256) =~= hedr@.subrange(40, 296));
        let mut author_reader = vstd::slice::slice_subrange(hedr, 8, 40);
        let author = read_string_dyn(AUTHOR_LENGTH, &mut author_reader)?;
        let mut description_reader = vstd::slice::slice_subrange(hedr, 40, 296);
        let description = read_string_dyn(DESCRIPTION_LENGTH, &mut description_reader)?;
        proof {
            lemma_decoded_len(hedr@.subrange(8, 40));
            lemma_decoded_len(hedr@.subrange(40, 296));
        }
        let mut state = HeaderReader {
            masters: Vec::new(),
            pending: None,
            save: None,
            screen: Vec::new(),
        };
        let ghost view = header@.fields.drop_first();
        let ghost step = header_step_fn();
        proof {
            assert(state@.masters =~= Seq::<(Seq<char>, u64)>::empty());
            assert(state@ == empty_header());
            assert(view.take(0) =~= Seq::<FieldModel>::empty());
        }
        let mut i: usize = 1;
        while i < fields.len()
            invariant
                fields@.map_values(|f: Tes3Field| f@) == header@.fields,
                view == header@.fields.drop_first(),
                step == header_step_fn(),
                1 <= i <= fields@.len(),
                state.save matches Some(g) ==> g.wf(),
                data_len_ok(state.screen@.len()),
                fold_fields(empty_header(), step, view.take(i - 1)) == Some(state@),
            decreases fields@.len() - i,
        {
            let field = &fields[i];
            proof {
                assert(view[i - 1] == field@);
                lemma_fold_step(empty_header(), step, view, i - 1);
            }
            let ghost before = state@;
            match state.apply_field(field) {
                Ok(()) => {
                    assert(step(before, view[i - 1]) == Some(state@));
                },
                Err(e) => {
                    proof {
                        assert(step(before, view[i - 1]) is None);
                        lemma_fold_none(empty_header(), step, view, i as int);
                    }
                    return Err(e);
                },
            }
            i = i + 1;
        }
        proof {
            assert(view.take(i - 1) =~= view);
        }
        if state.pending.is_some() {
            return Err(decode_failed("Missing size for master"));
        }
        let p = Plugin {
            version,
            is_master: flags & FLAG_MASTER != 0,
            author,
            description,
            save: state.save,
            screen_data: state.screen,
            masters: state.masters,
            records: Vec::new(),
        };
        assert(p@.records =~= Seq::<RecordModel>::empty());
        Ok(p)
    }

    /// Returns the bits of the plugin's `f32` version number
    pub fn version(&self) -> (r: u32)
        ensures
            r == self@.version,
    {
        self.version
    }

    /// Returns the plugin author string
    pub fn author(&self) -> (r: &str)
        ensures
            r@ == self@.author,
    {
        self.author.as_str()
    }

    /// Sets the plugin author string
    ///
    /// Fails with [`TesError::LimitExceeded`], changing nothing, if it is longer than
    /// [`AUTHOR_LENGTH`] bytes.
    pub fn set_author(&mut self, author: String) -> (r: Result<(), TesError>)
        requires
            old(self).wf(),
        ensures
            final(self).wf(),
            r is Ok <==> encode_utf8(author@).len() <= AUTHOR_LENGTH,
            r is Ok ==> final(self)@ == (PluginModel { author: author@, ..old(self)@ }),
            r is Err ==> final(self)@ == old(self)@,
    {
        check_size(str_len(author.as_str()), AUTHOR_LENGTH, "author value too long")?;
        self.author = author;
        Ok(())
    }

    /// Returns the plugin description string
    pub fn description(&self) -> (r: &str)
        ensures
            r@ == self@.description,
    {
        self.description.as_str()
    }

    /// Sets the plugin description string
    ///
    /// Fails with [`TesError::LimitExceeded`], changing nothing, if it is longer than
    /// [`DESCRIPTION_LENGTH`] bytes.
    pub fn set_description(&mut self, description: String) -> (r: Result<(), TesError>)
        requires
            old(self).wf(),
        ensures
            final(self).wf(),
            r is Ok <==> encode_utf8(description@).len() <= DESCRIPTION_LENGTH,
            r is Ok ==> final(self)@ == (PluginModel { description: description@, ..old(self)@ }),
            r is Err ==> final(self)@ == old(self)@,
    {
        check_size(str_len(description.as_str()), DESCRIPTION_LENGTH, "description value too long")?;
        self.description = description;
        Ok(())
    }

    /// Get save game information if any is present
    pub fn get_save_info(&self) -> (r: Option<&SaveInfo>)
        ensures
            r is Some <==> self@.save is Some,
            r matches Some(s) ==> self@.save == Some(s@),
    {
        match self.save {
            Some(ref info) => Some(info),
            None => None,
        }
    }

    /// Get save game information mutably if any is present
    ///
    /// The plugin stays well formed if the information does.
    pub fn get_save_info_mut(&mut self) -> (r: Option<&mut SaveInfo>)
        requires
            old(self).wf(),
        ensures
            r is Some <==> old(self)@.save is Some,
            r matches Some(s) ==> old(self)@.save == Some(s@) && s.wf(),
            r matches Some(s) ==> final(self)@ == (PluginModel { save: Some(final(s)@), ..old(self)@ }),
            r matches Some(s) ==> (final(s).wf() ==> final(self).wf()),
            r is None ==> final(self)@ == old(self)@ && final(self).wf(),
    {
        match self.save {
            Some(ref mut info) => Some(info),
            None => None,
        }
    }

    /// Returns the plugin's masters: file names and sizes
    pub fn masters(&self) -> (r: &[(String, u64)])
        ensures
            r@.map_values(|m: (String, u64)| (m.0@, m.1)) == self@.masters,
    {
        self.masters.as_slice()
    }

    /// Returns the plugin's records
    pub fn records(&self) -> (r: &[Tes3Record])
        ensures
            r@.map_values(|r: Tes3Record| r@) == self@.records,
    {
        self.records.as_slice()
    }

    /// Adds a new master to this plugin
    ///
    /// Fails with [`TesError::DuplicateMaster`], changing nothing, if a master of the same name
    /// (ignoring case) is already present.
    pub fn add_master(&mut self, name: String, size: u64) -> (r: Result<(), TesError>)
        requires
            old(self).wf(),
        ensures
            final(self).wf(),
            r is Ok <==> !has_master(old(self)@.masters, name@),
            r is Ok ==> final(self)@ == (PluginModel {
                masters: old(self)@.masters.push((name@, size)),
                ..old(self)@
            }),
            r matches Err(e) ==> e is DuplicateMaster && final(self)@ == old(self)@,
    {
        let lower = to_lowercase(name.as_str());
        let mut i: usize = 0;
        while i < self.masters.len()
            invariant
                self.wf(),
                self@ == old(self)@,
                i <= self.masters@.len(),
                lower@ == lowercase(name@),
                forall|j: int| 0 <= j < i ==> lowercase(#[trigger] self@.masters[j].0) != lowercase(name@),
            decreases self.masters@.len() - i,
        {
            let other = to_lowercase(self.masters[i].0.as_str());
            proof {
                assert(self@.masters[i as int].0 == self.masters@[i as int].0@);
            }
            if str_eq(other.as_str(), lower.as_str()) {
                return Err(TesError::DuplicateMaster(name));
            }
            i = i + 1;
        }
        self.masters.push((name, size));
        assert(self@.masters =~= old(self)@.masters.push((name@, size)));
        Ok(())
    }

    /// Whether a record of this plugin has the ID `id`.
    fn contains_id(&self, id: &str) -> (r: bool)
        requires
            self.wf(),
        ensures
            r == exists|j: int| #[trigger] id_matches(self@.records, id@, j),
    {
        let ghost recs = self@.records;
        let mut i: usize = 0;
        while i < self.records.len()
            invariant
                self.wf(),
                recs == self@.records,
                i <= self.records@.len(),
                forall|j: int| 0 <= j < i ==> !#[trigger] id_matches(recs, id@, j),
            decreases self.records@.len() - i,
        {
            let rec = &self.records[i];
            proof {
                assert(recs[i as int] == rec@);
            }
            let hit = match rec.id() {
                Some(s) => str_eq(s, id),
                None => false,
            };
            if hit {
                assert(id_matches(recs, id@, i as int));
                return true;
            }
            i = i + 1;
        }
        false
    }

    /// Adds a record to this plugin
    ///
    /// Fails with [`TesError::DuplicateId`], changing nothing, if the record has an ID and a
    /// record of this plugin already has the same ID.
    pub fn add_record(&mut self, record: Tes3Record) -> (r: Result<(), TesError>)
        requires
            old(self).wf(),
            record.wf(),
            has_id_spec(record@.name) ==> record@.status == RecordStatus::Finalized,
        ensures
            final(self).wf(),
            r is Err <==> (record_id(record@) matches Some(id) && exists|j: int|
                #[trigger] id_matches(old(self)@.records, id, j)),
            r matches Err(e) ==> (e matches TesError::DuplicateId(s) && record_id(record@) == Some(s@)),
            r is Err ==> final(self)@ == old(self)@,
            r is Ok ==> final(self)@ == (PluginModel { records: old(self)@.records.push(record@), ..old(self)@ }),
    {
        let dup = match record.id() {
            Some(id) => if self.contains_id(id) {
                Some(id.to_owned())
            } else {
                None
            },
            None => None,
        };
        if let Some(id) = dup {
            return Err(TesError::DuplicateId(id));
        }
        self.records.push(record);
        assert(self@.records =~= old(self)@.records.push(record@));
        Ok(())
    }

    /// Finds the position of the record with the ID `id`.
    #[verifier::rlimit(40)]
    fn find_record(&self, id: &str) -> (r: Result<Option<usize>, TesError>)
        requires
            self.wf(),
        ensures
            r is Err <==> id_has_types(self@.records, id@),
            r matches Err(e) ==> e is LimitExceeded,
            r matches Ok(found) ==> match last_with_id(self@.records, id@) {
                None => found is None,
                Some(j) => found matches Some(k) && k as int == j,
            },
            r matches Ok(Some(j)) ==> j < self@.records.len() && id_matches(self@.records, id@, j as int),
    {
        reveal(last_with_id);
        let mut first: Option<usize> = None;
        let mut last: Option<usize> = None;
        let mut mixed = false;
        let mut i: usize = 0;
        let ghost recs = self@.records;
        while i < self.records.len()
            invariant
                self.wf(),
                recs == self@.records,
                i <= self.records@.len(),
                first is None <==> last is None,
                first is None ==> forall|j: int| 0 <= j < i ==> !#[trigger] id_matches(recs, id@, j),
                first matches Some(f) ==> f < i && id_matches(recs, id@, f as int),
                last matches Some(l) ==> l < i && id_matches(recs, id@, l as int) && forall|k: int|
                    l < k < i ==> !#[trigger] id_matches(recs, id@, k),
                mixed ==> id_has_types(recs, id@),
                !mixed ==> (first matches Some(f) ==> forall|k: int|
                    0 <= k < i && #[trigger] id_matches(recs, id@, k) ==> recs[k].name
                        == recs[f as int].name),
            decreases self.records@.len() - i,
        {
            let rec = &self.records[i];
            proof {
                assert(recs[i as int] == rec@);
            }
            let this_id = rec.id();
            let hit = match this_id {
                Some(s) => str_eq(s, id),
                None => false,
            };
            proof {
                assert(hit == id_matches(recs, id@, i as int));
            }
            if hit {
                match first {
                    None => {
                        first = Some(i);
                    },
                    Some(f) => {
                        if !crate::tags::same_tag(self.records[f].name(), rec.name()) {
                            proof {
                                assert(id_matches(recs, id@, f as int));
                                assert(id_matches(recs, id@, i as int));
                            }
                            mixed = true;
                        }
                    },
                }
                last = Some(i);
            }
            i = i + 1;
        }
        if mixed {
            return Err(limit_exceeded("More than one record with the given ID", 1, 2));
        }
        proof {
            if id_has_types(recs, id@) {
                let (j, k) = choose|j: int, k: int|
                    #[trigger] id_matches(recs, id@, j) && #[trigger] id_matches(recs, id@, k)
                        && recs[j].name != recs[k].name;
                assert(recs[j].name == recs[first.unwrap() as int].name);
            }
        }
        match last {
            None => Ok(None),
            Some(l) => {
                proof {
                    assert(id_matches(recs, id@, l as int));
                    let j = last_with_id(recs, id@).unwrap();
                    if j < l {
                    } else if l < j {
                    }
                }
                Ok(Some(l))
            },
        }
    }

    /// Finds the record with the ID `id`
    ///
    /// Returns `None` if no record has that ID, and the last such record otherwise. Fails with
    /// [`TesError::LimitExceeded`] if records of more than one type have that ID.
    pub fn get_record(&self, id: &str) -> (r: Result<Option<&Tes3Record>, TesError>)
        requires
            self.wf(),
        ensures
            r is Err <==> id_has_types(self@.records, id@),
            r matches Err(e) ==> e is LimitExceeded,
            r matches Ok(found) ==> match last_with_id(self@.records, id@) {
                None => found is None,
                Some(j) => found matches Some(rec) && rec@ == self@.records[j],
            },
            r matches Ok(Some(rec)) ==> rec.wf() && rec@.status == RecordStatus::Finalized,
    {
        match self.find_record(id)? {
            None => Ok(None),
            Some(j) => {
                proof {
                    assert(self@.records[j as int] == self.records@[j as int]@);
                    assert(self.records@[j as int].wf());
                }
                Ok(Some(&self.records[j]))
            },
        }
    }

    /// Finds the record with the ID `id`, mutably
    ///
    /// Returns `None` if no record has that ID, and the last such record otherwise. Fails with
    /// [`TesError::LimitExceeded`] if records of more than one type have that ID. The plugin
    /// stays well formed if the record does and is still finalized if its type has an ID.
    pub fn get_record_mut(&mut self, id: &str) -> (r: Result<Option<&mut Tes3Record>, TesError>)
        requires
            old(self).wf(),
        ensures
            r is Err <==> id_has_types(old(self)@.records, id@),
            r matches Err(e) ==> e is LimitExceeded,
            !(r matches Ok(Some(_))) ==> final(self)@ == old(self)@ && final(self).wf(),
            r matches Ok(found) ==> match last_with_id(old(self)@.records, id@) {
                None => found is None,
                Some(j) => found is Some,
            },
            r matches Ok(Some(rec)) ==> ({
                let j = last_with_id(old(self)@.records, id@).unwrap();
                &&& rec@ == old(self)@.records[j]
                &&& rec.wf()
                &&& final(self)@ == (PluginModel {
                    records: old(self)@.records.update(j, final(rec)@),
                    ..old(self)@
                })
                &&& (final(rec).wf() && (has_id_spec(final(rec)@.name) ==> final(rec)@.status
                    == RecordStatus::Finalized) ==> final(self).wf())
            }),
    {
        match self.find_record(id)? {
            None => Ok(None),
            Some(j) => Ok(Some(self.record_at_mut(j))),
        }
    }

    /// The record at a position, mutably.
    fn record_at_mut(&mut self, j: usize) -> (rec: &mut Tes3Record)
        requires
            old(self).wf(),
            j < old(self)@.records.len(),
        ensures
            rec@ == old(self)@.records[j as int],
            rec.wf(),
            final(self)@ == (PluginModel {
                records: old(self)@.records.update(j as int, final(rec)@),
                ..old(self)@
            }),
            final(rec).wf() && (has_id_spec(final(rec)@.name) ==> final(rec)@.status
                == RecordStatus::Finalized) ==> final(self).wf(),
    {
        let ghost before = self.records@;
        assert(self@.records[j as int] == before[j as int]@);
        let rec = &mut self.records[j];
        proof {
            lemma_map_update_records(before, j as int, *final(rec));
        }
        rec
    }

    /// Finds the position of the last record with the ID `id` and the type `name`.
    /// Whether more than one record has the ID `id` and the type `name`.
    #[verifier::rlimit(40)]
    pub(crate) fn repeats_with_type(&self, id: &str, name: &[u8; 4]) -> (r: bool)
        requires
            self.wf(),
        ensures
            r == id_type_repeats(self@.records, id@, name@),
    {
        let ghost recs = self@.records;
        let mut first: Option<usize> = None;
        let mut i: usize = 0;
        while i < self.records.len()
            invariant
                self.wf(),
                recs == self@.records,
                i <= self.records@.len(),
                first is None ==> forall|j: int|
                    0 <= j < i ==> !#[trigger] id_type_matches(recs, id@, name@, j),
                first matches Some(f) ==> f < i && id_type_matches(recs, id@, name@, f as int)
                    && forall|j: int|
                    0 <= j < i && j != f ==> !#[trigger] id_type_matches(recs, id@, name@, j),
            decreases self.records@.len() - i,
        {
            let rec = &self.records[i];
            proof {
                assert(recs[i as int] == rec@);
            }
            let hit = if crate::tags::same_tag(rec.name(), name) {
                match rec.id() {
                    Some(s) => str_eq(s, id),
                    None => false,
                }
            } else {
                false
            };
            proof {
                assert(hit == id_type_matches(recs, id@, name@, i as int));
            }
            if hit {
                match first {
                    Some(f) => {
                        assert(id_type_matches(recs, id@, name@, f as int));
                        assert(id_type_matches(recs, id@, name@, i as int));
                        return true;
                    },
                    None => {
                        first = Some(i);
                    },
                }
            }
            i = i + 1;
        }
        proof {
            if id_type_repeats(recs, id@, name@) {
                let (j, k) = choose|j: int, k: int|
                    j != k && #[trigger] id_type_matches(recs, id@, name@, j)
                        && #[trigger] id_type_matches(recs, id@, name@, k);
                assert(id_type_matches(recs, id@, name@, j));
                assert(id_type_matches(recs, id@, name@, k));
            }
        }
        false
    }

    fn find_record_with_type(&self, id: &str, name: &[u8; 4]) -> (r: Option<usize>)
        requires
            self.wf(),
        ensures
            match last_with_type(self@.records, id@, name@) {
                None => r is None,
                Some(j) => r matches Some(k) && k as int == j,
            },
            r matches Some(j) ==> j < self@.records.len(),
    {
        reveal(last_with_type);
        let mut last: Option<usize> = None;
        let mut i: usize = 0;
        let ghost recs = self@.records;
        while i < self.records.len()
            invariant
                self.wf(),
                recs == self@.records,
                i <= self.records@.len(),
                last is None ==> forall|j: int|
                    0 <= j < i ==> !(#[trigger] id_matches(recs, id@, j) && recs[j].name == name@),
                last matches Some(l) ==> l < i && id_matches(recs, id@, l as int) && recs[l as int].name
                    == name@ && forall|k: int|
                    l < k < i ==> !(#[trigger] id_matches(recs, id@, k) && recs[k].name == name@),
            decreases self.records@.len() - i,
        {
            let rec = &self.records[i];
            proof {
                assert(recs[i as int] == rec@);
            }
            if crate::tags::same_tag(rec.name(), name) {
                let hit = match rec.id() {
                    Some(s) => str_eq(s, id),
                    None => false,
                };
                if hit {
                    last = Some(i);
                }
            }
            i = i + 1;
        }
        match last {
            None => None,
            Some(l) => {
                proof {
                    assert(id_matches(recs, id@, l as int) && recs[l as int].name == name@);
                    let j = last_with_type(recs, id@, name@).unwrap();
                    if j < l {
                    } else if l < j {
                    }
                }
                Some(l)
            },
        }
    }

    /// Finds the last record with the ID `id` and the type `name`
    pub fn get_record_with_type(&self, id: &str, name: &[u8; 4]) -> (r: Option<&Tes3Record>)
        requires
            self.wf(),
        ensures
            match last_with_type(self@.records, id@, name@) {
                None => r is None,
                Some(j) => r matches Some(rec) && rec@ == self@.records[j],
            },
    {
        match self.find_record_with_type(id, name) {
            None => None,
            Some(j) => {
                proof {
                    assert(self@.records[j as int] == self.records@[j as int]@);
                }
                Some(&self.records[j])
            },
        }
    }

    /// Finds the last record with the ID `id` and the type `name`, mutably
    ///
    /// The plugin stays well formed if the record does and is still finalized if its type has
    /// an ID.
    pub fn get_record_with_type_mut(&mut self, id: &str, name: &[u8; 4]) -> (r: Option<&mut Tes3Record>)
        requires
            old(self).wf(),
        ensures
            r is Some <==> last_with_type(old(self)@.records, id@, name@) is Some,
            r is None ==> final(self)@ == old(self)@ && final(self).wf(),
            r matches Some(rec) ==> ({
                let j = last_with_type(old(self)@.records, id@, name@).unwrap();
                &&& rec@ == old(self)@.records[j]
                &&& rec.wf()
                &&& final(self)@ == (PluginModel {
                    records: old(self)@.records.update(j, final(rec)@),
                    ..old(self)@
                })
                &&& (final(rec).wf() && (has_id_spec(final(rec)@.name) ==> final(rec)@.status
                    == RecordStatus::Finalized) ==> final(self).wf())
            }),
    {
        match self.find_record_with_type(id, name) {
            None => None,
            Some(j) => Some(self.record_at_mut(j)),
        }
    }

    /// Collects the records of the type `name`, in order
    pub fn get_records_by_type(&self, name: &[u8; 4]) -> (r: Vec<&Tes3Record>)
        ensures
            r@.map_values(|rec: &Tes3Record| rec@) == self@.records.filter(
                |rec: RecordModel| rec.name == name@,
            ),
    {
        let mut out: Vec<&Tes3Record> = Vec::new();
        let mut i: usize = 0;
        let ghost recs = self@.records;
        while i < self.records.len()
            invariant
                recs == self@.records,
                i <= self.records@.len(),
                out@.map_values(|rec: &Tes3Record| rec@) == recs.take(i as int).filter(
                    |rec: RecordModel| rec.name == name@,
                ),
            decreases self.records@.len() - i,
        {
            let rec = &self.records[i];
            proof {
                assert(recs[i as int] == rec@);
                assert(recs.take(i + 1).drop_last() =~= recs.take(i as int));
                reveal(Seq::filter);
            }
            if crate::tags::same_tag(rec.name(), name) {
                out.push(rec);
            }
            proof {
                assert(out@.map_values(|rec: &Tes3Record| rec@) =~= recs.take(i + 1).filter(
                    |rec: RecordModel| rec.name == name@,
                ));
            }
            i = i + 1;
        }
        proof {
            assert(recs.take(i as int) =~= recs);
        }
        out
    }

    /// Writes the plugin: its `TES3` header record, then every record
    ///
    /// The header record holds the `HEDR` field (version, master flag, padded author and
    /// description, and the record count capped at `u32::MAX`), a `MAST` and `DATA` pair for each
    /// master, the `GMDT` field of a save, and `SCRD` and `SCRS` if there is a screenshot. Fails
    /// if a master name holds a zero byte, or if the header record or a record is too large;
    /// what was written before the failure stays in `f`.
    pub fn write(&self, f: &mut Vec<u8>) -> (r: Result<(), TesError>)
        requires
            self.wf(),
        ensures
            r is Ok <==> plugin_writable(self@),
            r is Ok ==> final(f)@ == old(f)@ + plugin_bytes(self@),
            old(f)@.is_prefix_of(final(f)@),
    {
        let ghost p = self@;
        let mut header = Tes3Record::new(&TES3);
        let mut buf: Vec<u8> = Vec::new();
        let num_records: u32 = if self.records.len() > 4294967295 {
            4294967295
        } else {
            self.records.len() as u32
        };
        push_u32(&mut buf, self.version);
        push_u32(&mut buf, if self.is_master { FLAG_MASTER } else { 0 });
        serialize_str(self.author.as_str(), AUTHOR_LENGTH, &mut buf);
        serialize_str(self.description.as_str(), DESCRIPTION_LENGTH, &mut buf);
        push_u32(&mut buf, num_records);
        proof {
            crate::bytes::lemma_le_bytes_len(self.version as nat, 4);
            crate::bytes::lemma_le_bytes_len(if self.is_master { FLAG_MASTER as nat } else { 0 }, 4);
            crate::bytes::lemma_le_bytes_len(num_records as nat, 4);
            assert(buf@ =~= header_data(p));
        }
        let hedr = Tes3Field::new(&HEDR, buf).unwrap();
        header.add_field(hedr);
        let ghost hedr_field = FieldModel { name: HEDR@, data: header_data(p) };
        proof {
            assert(header@.fields =~= seq![hedr_field] + master_fields(p.masters.take(0)));
        }
        let mut i: usize = 0;
        while i < self.masters.len()
            invariant
                p == self@,
                self.wf(),
                i <= self.masters@.len(),
                header.wf(),
                header@ == (RecordModel { fields: header@.fields, ..header_record(p) }),
                header@.fields == seq![hedr_field] + master_fields(p.masters.take(i as int)),
                forall|k: int|
                    0 <= k < i ==> no_nul(encode_utf8(#[trigger] p.masters[k].0)) && data_len_ok(
                        zstring_of(p.masters[k].0).len(),
                    ),
            decreases self.masters@.len() - i,
        {
            let ghost before = header@.fields;
            proof {
                assert(p.masters[i as int] == (self.masters@[i as int].0@, self.masters@[i as int].1));
            }
            let name = self.masters[i].0.clone();
            let mast = match Tes3Field::new_zstring(&MAST, name) {
                Ok(field) => field,
                Err(e) => {
                    assert(!(no_nul(encode_utf8(p.masters[i as int].0)) && data_len_ok(
                        zstring_of(p.masters[i as int].0).len(),
                    )));
                    assert(f@.subrange(0, f@.len() as int) =~= f@);
                    return Err(e);
                },
            };
            header.add_field(mast);
            header.add_field(Tes3Field::new_u64(&DATA, self.masters[i].1));
            proof {
                let t = p.masters.take(i + 1);
                assert(t.drop_last() =~= p.masters.take(i as int));
                assert(header@.fields =~= seq![hedr_field] + master_fields(t));
            }
            i = i + 1;
        }
        proof {
            assert(p.masters.take(i as int) =~= p.masters);
        }
        let ghost with_masters = header@.fields;
        match &self.save {
            Some(save) => {
                let gmdt = Tes3Field::new(&GMDT, save.game_data()).unwrap();
                header.add_field(gmdt);
            },
            None => {},
        }
        let ghost with_save = header@.fields;
        if self.screen_data.len() > 0 {
            let scrd = Tes3Field::new(&SCRD, vec![0u8, 0, 0xff, 0, 0, 0xff, 0, 0, 0xff, 0, 0, 0, 0, 0, 0, 0, 0x20, 0, 0, 0]).unwrap();
            header.add_field(scrd);
            let scrs = Tes3Field::new(&SCRS, vstd::slice::slice_to_vec(self.screen_data.as_slice())).unwrap();
            header.add_field(scrs);
        }
        proof {
            assert(header@.fields =~= header_fields(p));
            assert(header@ == header_record(p));
        }
        let ghost start = f@;
        match header.write(f) {
            Ok(()) => {},
            Err(e) => {
                assert(f@.subrange(0, start.len() as int) =~= start);
                return Err(e);
            },
        }
        let mut k: usize = 0;
        while k < self.records.len()
            invariant
                p == self@,
                self.wf(),
                start == old(f)@,
                k <= self.records@.len(),
                plugin_writable(p) <==> forall|j: int|
                    k <= j < p.records.len() ==> record_writable(#[trigger] p.records[j]),
                f@ == start + record_bytes(header_record(p)) + records_bytes(p.records.take(k as int)),
            decreases self.records@.len() - k,
        {
            proof {
                assert(p.records[k as int] == self.records@[k as int]@);
            }
            let ghost before = f@;
            match self.records[k].write(f) {
                Ok(()) => {},
                Err(e) => {
                    assert(f@.subrange(0, start.len() as int) =~= start);
                    return Err(e);
                },
            }
            proof {
                let t = p.records.take(k + 1);
                assert(t.drop_last() =~= p.records.take(k as int));
                assert(f@ =~= start + record_bytes(header_record(p)) + records_bytes(t));
            }
            k = k + 1;
        }
        proof {
            assert(p.records.take(k as int) =~= p.records);
        }
        Ok(())
    }
}

} // verus!
