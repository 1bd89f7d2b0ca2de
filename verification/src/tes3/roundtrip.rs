//! Reading back a written Morrowind plugin.

use vstd::prelude::*;
use vstd::utf8::{decode_utf8, encode_utf8, valid_utf8};

use crate::bytes::{
    le_bytes, le_value, lemma_le_bytes_len, lemma_le_value_of_bytes, lemma_u32_at_le_of_bytes, pow256,
    u32_at_le,
};
use crate::common::MAX_DATA;
use crate::plugin::{field_fits, FieldModel, RecordStatus};
use crate::strings::{is_zstring, no_nul};
use crate::tags::{DATA, GMDT, HEDR, MAST, SCRD, SCRS};
use crate::tes3::field::zstring_of;
use crate::tes3::form::{fold_fields, zstring_value};
use crate::strings::{lemma_padded_string_roundtrip, until_nul, zeros};
use crate::tes3::form::{lemma_word_at_le, string_value, word};
use crate::tes3::plugin::{
    empty_header, game_data_bytes, has_master, header_step, header_step_fn, lowercase,
    master_fields, padded, parse_game_data, header_data, header_fields, screen_header,
    HeaderState, PluginModel, SaveInfoModel, AUTHOR_LENGTH, CELL_LENGTH, DESCRIPTION_LENGTH,
    FLAG_MASTER, NAME_LENGTH, header_record, parse_plugin, parse_records, plugin_bytes,
    plugin_header, plugin_writable, records_bytes,
};
use crate::tes3::record::{
    lemma_record_roundtrip, lemma_strip_dele_written, no_dele, parse_fields, read_record_spec,
    record_bytes, record_data, written_fields, RecordModel,
};

verus! {

/// Folding over two sequences in turn is folding over the first, then over the second from
/// where the first left off.
pub proof fn lemma_fold_append<M>(
    init: M,
    step: spec_fn(M, FieldModel) -> Option<M>,
    a: Seq<FieldModel>,
    b: Seq<FieldModel>,
)
    ensures
        fold_fields(init, step, a + b) == match fold_fields(init, step, a) {
            None => None,
            Some(m) => fold_fields(m, step, b),
        },
    decreases b.len(),
{
    if b.len() == 0 {
        assert(a + b =~= a);
    } else {
        lemma_fold_append(init, step, a, b.drop_last());
        assert((a + b).drop_last() =~= a + b.drop_last());
        assert((a + b).last() == b.last());
    }
}

/// A string with no zero byte, followed by a zero, reads back as itself.
pub proof fn lemma_zstring_roundtrip(s: Seq<char>)
    requires
        no_nul(encode_utf8(s)),
    ensures
        zstring_value(zstring_of(s)) == Some(s),
{
    let b = encode_utf8(s);
    assert(zstring_of(s).drop_last() =~= b);
    vstd::utf8::encode_utf8_valid_utf8(s);
    vstd::utf8::encode_utf8_decode_utf8(s);
}

/// No two masters have the same name, ignoring case.
pub open spec fn masters_distinct(ms: Seq<(Seq<char>, u64)>) -> bool {
    forall|i: int, j: int|
        0 <= i < j < ms.len() ==> lowercase(#[trigger] ms[i].0) != lowercase(#[trigger] ms[j].0)
}

/// No master name holds a zero byte.
pub open spec fn master_names_ok(ms: Seq<(Seq<char>, u64)>) -> bool {
    forall|i: int| 0 <= i < ms.len() ==> no_nul(encode_utf8(#[trigger] ms[i].0))
}

/// Reading the `MAST` and `DATA` fields written for distinct masters gives those masters back.
pub proof fn lemma_fold_masters(ms: Seq<(Seq<char>, u64)>)
    requires
        masters_distinct(ms),
        master_names_ok(ms),
    ensures
        fold_fields(empty_header(), header_step_fn(), master_fields(ms)) == Some(
            HeaderState { masters: ms, ..empty_header() },
        ),
    decreases ms.len(),
{
    let step = header_step_fn();
    if ms.len() == 0 {
        assert(ms =~= Seq::<(Seq<char>, u64)>::empty());
    } else {
        let init = ms.drop_last();
        let (name, size) = ms.last();
        assert forall|i: int, j: int| 0 <= i < j < init.len() implies lowercase(
            #[trigger] init[i].0,
        ) != lowercase(#[trigger] init[j].0) by {
            assert(init[i] == ms[i] && init[j] == ms[j]);
        }
        assert forall|i: int| 0 <= i < init.len() implies no_nul(encode_utf8(#[trigger] init[i].0)) by {
            assert(init[i] == ms[i]);
        }
        lemma_fold_masters(init);
        let mast = FieldModel { name: MAST@, data: zstring_of(name) };
        let data = FieldModel { name: DATA@, data: le_bytes(size as nat, 8) };
        let pair = seq![mast, data];
        lemma_fold_append(empty_header(), step, master_fields(init), pair);
        let st0 = HeaderState { masters: init, ..empty_header() };
        assert(no_nul(encode_utf8(name))) by {
            assert(ms[ms.len() - 1] == ms.last());
        }
        lemma_zstring_roundtrip(name);
        lemma_le_bytes_len(size as nat, 8);
        reveal_with_fuel(pow256, 9);
        lemma_le_value_of_bytes(size as nat, 8);
        assert(!has_master(init, name)) by {
            if has_master(init, name) {
                let i = choose|i: int| 0 <= i < init.len() && lowercase(#[trigger] init[i].0) == lowercase(name);
                assert(ms[i] == init[i]);
                assert(ms[ms.len() - 1] == ms.last());
                assert(lowercase(ms[i].0) != lowercase(ms[ms.len() - 1].0));
            }
        }
        assert(MAST@ != DATA@) by {
            assert(MAST@[0] != DATA@[0]);
        }
        let st1 = HeaderState { pending: Some(name), ..st0 };
        assert(header_step(st0, mast) == Some(st1));
        assert(header_step(st1, data) == Some(HeaderState { masters: ms, ..empty_header() })) by {
            assert(init.push((name, size)) =~= ms);
        }
        assert(pair.drop_last() =~= seq![mast]);
        assert(seq![mast].drop_last() =~= Seq::<FieldModel>::empty());
        assert(fold_fields(st0, step, Seq::<FieldModel>::empty()) == Some(st0));
        assert(seq![mast].last() == mast);
        assert(step(st0, mast) == Some(st1));
        assert(fold_fields(st0, step, seq![mast]) == Some(st1));
        assert(pair.last() == data);
        assert(step(st1, data) == Some(HeaderState { masters: ms, ..empty_header() }));
    }
}

/// Save information whose parts have the lengths of the format and whose names hold no zero
/// byte and fit their slots.
pub open spec fn save_shaped(g: SaveInfoModel) -> bool {
    &&& g.unknown1.len() == 12
    &&& g.unknown2.len() == 4
    &&& no_nul(encode_utf8(g.current_cell))
    &&& encode_utf8(g.current_cell).len() <= CELL_LENGTH
    &&& no_nul(encode_utf8(g.player_name))
    &&& encode_utf8(g.player_name).len() <= NAME_LENGTH
}

/// A string padded to `n` bytes is `n` bytes long and reads back as itself.
pub proof fn lemma_padded_roundtrip(s: Seq<char>, n: nat)
    requires
        no_nul(encode_utf8(s)),
        encode_utf8(s).len() <= n,
    ensures
        padded(s, n).len() == n,
        string_value(until_nul(padded(s, n))) == Some(s),
{
    lemma_padded_string_roundtrip(s, (n - encode_utf8(s).len()) as nat);
}

/// The word written as the little-endian bytes of `v` at word `k` reads back as `v`.
pub proof fn lemma_word_of(s: Seq<u8>, k: int, v: u32)
    requires
        0 <= k,
        4 * k + 4 <= s.len(),
        s.subrange(4 * k, 4 * k + 4) == le_bytes(v as nat, 4),
    ensures
        word(s, k) == v,
{
    reveal_with_fuel(pow256, 5);
    lemma_le_value_of_bytes(v as nat, 4);
}

/// The `GMDT` field keeps the player's current health in its first four bytes, the maximum
/// health in the next four and the hour of the day in the four after that, each as a
/// little-endian number: reading takes them from there, and writing puts them there.
pub proof fn lemma_game_data_layout(d: Seq<u8>, g: SaveInfoModel)
    ensures
        parse_game_data(d) matches Some(s) ==> {
            &&& s.current_health as int == u32_at_le(d, 0)
            &&& s.max_health as int == u32_at_le(d, 4)
            &&& s.hour as int == u32_at_le(d, 8)
        },
        u32_at_le(game_data_bytes(g), 0) == g.current_health,
        u32_at_le(game_data_bytes(g), 4) == g.max_health,
        u32_at_le(game_data_bytes(g), 8) == g.hour,
{
    if parse_game_data(d) is Some {
        lemma_word_at_le(d, 0);
        lemma_word_at_le(d, 1);
        lemma_word_at_le(d, 2);
    }
    let b = game_data_bytes(g);
    lemma_le_bytes_len(g.current_health as nat, 4);
    lemma_le_bytes_len(g.max_health as nat, 4);
    lemma_le_bytes_len(g.hour as nat, 4);
    assert(b.subrange(0, 4) =~= le_bytes(g.current_health as nat, 4));
    assert(b.subrange(4, 8) =~= le_bytes(g.max_health as nat, 4));
    assert(b.subrange(8, 12) =~= le_bytes(g.hour as nat, 4));
    lemma_u32_at_le_of_bytes(b, 0, g.current_health);
    lemma_u32_at_le_of_bytes(b, 4, g.max_health);
    lemma_u32_at_le_of_bytes(b, 8, g.hour);
}

/// Reading back the `GMDT` data written for save information gives it back.
pub proof fn lemma_game_data_roundtrip(g: SaveInfoModel)
    requires
        save_shaped(g),
    ensures
        game_data_bytes(g).len() == 124,
        parse_game_data(game_data_bytes(g)) == Some(g),
{
    let d = game_data_bytes(g);
    lemma_le_bytes_len(g.current_health as nat, 4);
    lemma_le_bytes_len(g.max_health as nat, 4);
    lemma_le_bytes_len(g.hour as nat, 4);
    lemma_padded_roundtrip(g.current_cell, CELL_LENGTH as nat);
    lemma_padded_roundtrip(g.player_name, NAME_LENGTH as nat);
    assert(d.subrange(0, 4) =~= le_bytes(g.current_health as nat, 4));
    assert(d.subrange(4, 8) =~= le_bytes(g.max_health as nat, 4));
    assert(d.subrange(8, 12) =~= le_bytes(g.hour as nat, 4));
    assert(d.subrange(12, 24) =~= g.unknown1);
    assert(d.subrange(24, 88) =~= padded(g.current_cell, CELL_LENGTH as nat));
    assert(d.subrange(88, 92) =~= g.unknown2);
    assert(d.subrange(92, 124) =~= padded(g.player_name, NAME_LENGTH as nat));
    lemma_word_of(d, 0, g.current_health);
    lemma_word_of(d, 1, g.max_health);
    lemma_word_of(d, 2, g.hour);
}

/// The header information of a plugin can be written and read back: author and description
/// hold no zero byte and fit their slots, masters are distinct and hold no zero byte, and the
/// save information is well shaped.
pub open spec fn header_roundtrips(p: PluginModel) -> bool {
    &&& no_nul(encode_utf8(p.author))
    &&& encode_utf8(p.author).len() <= AUTHOR_LENGTH
    &&& no_nul(encode_utf8(p.description))
    &&& encode_utf8(p.description).len() <= DESCRIPTION_LENGTH
    &&& masters_distinct(p.masters)
    &&& master_names_ok(p.masters)
    &&& (p.save matches Some(g) ==> save_shaped(g))
}

/// The header fields after `HEDR` are those of the masters, then of the save, then of the
/// screenshot.
pub open spec fn save_fields(p: PluginModel) -> Seq<FieldModel> {
    match p.save {
        Some(g) => seq![FieldModel { name: GMDT@, data: game_data_bytes(g) }],
        None => Seq::empty(),
    }
}

/// The screenshot fields written for a plugin.
pub open spec fn screen_fields(p: PluginModel) -> Seq<FieldModel> {
    if p.screen_data.len() > 0 {
        seq![
            FieldModel { name: SCRD@, data: screen_header() },
            FieldModel { name: SCRS@, data: p.screen_data },
        ]
    } else {
        Seq::empty()
    }
}

proof fn lemma_tags_differ()
    ensures
        GMDT@ != MAST@,
        GMDT@ != DATA@,
        SCRD@ != MAST@,
        SCRD@ != DATA@,
        SCRD@ != GMDT@,
        SCRS@ != MAST@,
        SCRS@ != DATA@,
        SCRS@ != GMDT@,
        SCRS@ != SCRD@,
{
    assert(GMDT@[0] != MAST@[0]);
    assert(GMDT@[0] != DATA@[0]);
    assert(SCRD@[0] != MAST@[0]);
    assert(SCRD@[0] != DATA@[0]);
    assert(SCRD@[0] != GMDT@[0]);
    assert(SCRS@[0] != MAST@[0]);
    assert(SCRS@[0] != DATA@[0]);
    assert(SCRS@[0] != GMDT@[0]);
    assert(SCRS@[3] != SCRD@[3]);
}

/// Folding over a single field is one step.
pub proof fn lemma_fold_one<M>(init: M, step: spec_fn(M, FieldModel) -> Option<M>, f: FieldModel)
    ensures
        fold_fields(init, step, seq![f]) == step(init, f),
{
    assert(seq![f].drop_last() =~= Seq::<FieldModel>::empty());
    assert(fold_fields(init, step, Seq::<FieldModel>::empty()) == Some(init));
}

/// Folding over two fields is two steps.
pub proof fn lemma_fold_two<M>(
    init: M,
    step: spec_fn(M, FieldModel) -> Option<M>,
    f: FieldModel,
    g: FieldModel,
)
    ensures
        fold_fields(init, step, seq![f, g]) == match step(init, f) {
            None => None,
            Some(m) => step(m, g),
        },
{
    assert(seq![f, g].drop_last() =~= seq![f]);
    lemma_fold_one(init, step, f);
}

proof fn lemma_fold_save(st0: HeaderState, p: PluginModel)
    requires
        st0.pending is None,
        st0.save is None,
        p.save matches Some(g) ==> save_shaped(g),
    ensures
        fold_fields(st0, header_step_fn(), save_fields(p)) == Some(HeaderState { save: p.save, ..st0 }),
{
    lemma_tags_differ();
    match p.save {
        Some(g) => {
            lemma_game_data_roundtrip(g);
            lemma_fold_one(st0, header_step_fn(), FieldModel { name: GMDT@, data: game_data_bytes(g) });
        },
        None => {
            assert(HeaderState { save: p.save, ..st0 } == st0);
        },
    }
}

proof fn lemma_fold_screen(st1: HeaderState, p: PluginModel)
    requires
        st1.screen.len() == 0,
    ensures
        fold_fields(st1, header_step_fn(), screen_fields(p)) == Some(
            HeaderState { screen: p.screen_data, ..st1 },
        ),
{
    lemma_tags_differ();
    if p.screen_data.len() > 0 {
        lemma_fold_two(
            st1,
            header_step_fn(),
            FieldModel { name: SCRD@, data: screen_header() },
            FieldModel { name: SCRS@, data: p.screen_data },
        );
    } else {
        assert(p.screen_data =~= st1.screen);
        assert(HeaderState { screen: p.screen_data, ..st1 } == st1);
    }
}

/// Reading the header fields written after `HEDR` gives back the masters, the save
/// information and the screenshot.
pub proof fn lemma_fold_header(p: PluginModel)
    requires
        header_roundtrips(p),
    ensures
        fold_fields(empty_header(), header_step_fn(), header_fields(p).drop_first()) == Some(
            HeaderState {
                masters: p.masters,
                pending: None,
                save: p.save,
                screen: p.screen_data,
            },
        ),
{
    let step = header_step_fn();
    assert(header_fields(p).drop_first() =~= master_fields(p.masters) + save_fields(p)
        + screen_fields(p));
    lemma_fold_masters(p.masters);
    lemma_fold_append(empty_header(), step, master_fields(p.masters) + save_fields(p), screen_fields(p));
    lemma_fold_append(empty_header(), step, master_fields(p.masters), save_fields(p));
    let st0 = HeaderState { masters: p.masters, ..empty_header() };
    lemma_fold_save(st0, p);
    lemma_fold_screen(HeaderState { save: p.save, ..st0 }, p);
}

/// The `HEDR` data written for a plugin is 300 bytes and reads back as its version, master
/// flag, author and description.
pub proof fn lemma_header_data(p: PluginModel)
    requires
        header_roundtrips(p),
    ensures
        header_data(p).len() == 300,
        word(header_data(p), 0) == p.version,
        (word(header_data(p), 1) & FLAG_MASTER != 0) == p.is_master,
        string_value(until_nul(header_data(p).subrange(8, 40))) == Some(p.author),
        string_value(until_nul(header_data(p).subrange(40, 296))) == Some(p.description),
{
    let d = header_data(p);
    let flags: u32 = if p.is_master { 1 } else { 0 };
    lemma_le_bytes_len(p.version as nat, 4);
    lemma_le_bytes_len(flags as nat, 4);
    lemma_le_bytes_len(crate::tes3::plugin::record_count(p.records.len()) as nat, 4);
    lemma_padded_roundtrip(p.author, AUTHOR_LENGTH as nat);
    lemma_padded_roundtrip(p.description, DESCRIPTION_LENGTH as nat);
    assert(d.subrange(0, 4) =~= le_bytes(p.version as nat, 4));
    assert(d.subrange(4, 8) =~= le_bytes(flags as nat, 4));
    assert(d.subrange(8, 40) =~= padded(p.author, AUTHOR_LENGTH as nat));
    assert(d.subrange(40, 296) =~= padded(p.description, DESCRIPTION_LENGTH as nat));
    lemma_word_of(d, 0, p.version);
    lemma_word_of(d, 1, flags);
    assert(1u32 & 1u32 != 0) by (bit_vector);
    assert(0u32 & 1u32 == 0) by (bit_vector);
}

/// A record that can be written and read back: its name has 4 bytes, its data fits, a changed
/// record keeps no `DELE` marker among its fields and each of them fits, and the data of an
/// unchanged record parses into fields.
pub open spec fn record_roundtrips(m: RecordModel) -> bool {
    &&& m.name.len() == 4
    &&& record_data(m).len() <= MAX_DATA
    &&& m.changed ==> no_dele(m.fields) && forall|i: int|
        0 <= i < m.fields.len() ==> field_fits(#[trigger] m.fields[i])
    &&& !m.changed ==> parse_fields(m.raw_data) is Some
}

/// The record that reading the written bytes of a record gives.
pub open spec fn reread(m: RecordModel) -> RecordModel {
    read_record_spec(record_bytes(m)).unwrap().0
}

/// Reading the bytes of a record gives the record that [`reread`] names, and takes exactly its
/// bytes, whatever follows.
pub proof fn lemma_read_record_bytes(m: RecordModel, rest: Seq<u8>)
    requires
        record_roundtrips(m),
    ensures
        read_record_spec(record_bytes(m) + rest) == Some((reread(m), record_bytes(m).len())),
        record_bytes(m).len() >= 16,
{
    lemma_record_roundtrip(m, rest);
    lemma_record_roundtrip(m, Seq::empty());
    assert(record_bytes(m) + Seq::<u8>::empty() =~= record_bytes(m));
}

/// The bytes of records start with the bytes of the first.
pub proof fn lemma_records_bytes_front(rs: Seq<RecordModel>)
    requires
        rs.len() > 0,
    ensures
        records_bytes(rs) == record_bytes(rs[0]) + records_bytes(rs.drop_first()),
    decreases rs.len(),
{
    if rs.len() == 1 {
        assert(rs.drop_last() =~= Seq::<RecordModel>::empty());
        assert(rs.drop_first() =~= Seq::<RecordModel>::empty());
        assert(records_bytes(rs) =~= record_bytes(rs[0]) + records_bytes(rs.drop_first()));
    } else {
        lemma_records_bytes_front(rs.drop_last());
        assert(rs.drop_last().drop_first() =~= rs.drop_first().drop_last());
        assert(rs.drop_first().last() == rs.last());
        assert(records_bytes(rs) =~= record_bytes(rs[0]) + records_bytes(rs.drop_first()));
    }
}

/// Reading written records gives back the records that [`reread`] names.
pub proof fn lemma_parse_records_bytes(rs: Seq<RecordModel>)
    requires
        forall|i: int| 0 <= i < rs.len() ==> record_roundtrips(#[trigger] rs[i]),
    ensures
        parse_records(records_bytes(rs)) == Some(rs.map_values(|m: RecordModel| reread(m))),
    decreases rs.len(),
{
    if rs.len() == 0 {
        assert(rs.map_values(|m: RecordModel| reread(m)) =~= Seq::<RecordModel>::empty());
    } else {
        let tail = rs.drop_first();
        assert forall|i: int| 0 <= i < tail.len() implies record_roundtrips(#[trigger] tail[i]) by {
            assert(tail[i] == rs[i + 1]);
        }
        lemma_parse_records_bytes(tail);
        lemma_records_bytes_front(rs);
        let s = records_bytes(rs);
        let rest = records_bytes(tail);
        lemma_read_record_bytes(rs[0], rest);
        let n = record_bytes(rs[0]).len();
        assert(s.subrange(n as int, s.len() as int) =~= rest);
        assert(seq![reread(rs[0])] + tail.map_values(|m: RecordModel| reread(m)) =~= rs.map_values(
            |m: RecordModel| reread(m),
        ));
    }
}

/// Reading back a written plugin
///
/// The bytes that [`crate::tes3::Plugin::write`] produces for a plugin read back, with
/// [`crate::tes3::Plugin::read`], as the same plugin: the same version, master flag, author,
/// description, masters, save information and screenshot, and each record as reading its own
/// bytes gives it. This holds when the author and description hold no zero byte and fit,
/// masters are distinct ignoring case, the plugin can be written, and each record can be
/// written and read back.
pub proof fn lemma_plugin_roundtrip(p: PluginModel)
    requires
        header_roundtrips(p),
        plugin_writable(p),
        p.screen_data.len() <= MAX_DATA,
        forall|i: int| 0 <= i < p.records.len() ==> record_roundtrips(#[trigger] p.records[i]),
    ensures
        parse_plugin(plugin_bytes(p)) == Some(
            PluginModel { records: p.records.map_values(|m: RecordModel| reread(m)), ..p },
        ),
{
    let h = header_record(p);
    let rest = records_bytes(p.records);
    let s = plugin_bytes(p);
    lemma_tags_differ();
    assert(crate::tags::DELE@[0] != HEDR@[0] && crate::tags::DELE@[0] != MAST@[0]);
    assert(crate::tags::DELE@[1] != DATA@[1] && crate::tags::DELE@[0] != GMDT@[0]);
    assert(crate::tags::DELE@[0] != SCRD@[0] && crate::tags::DELE@[0] != SCRS@[0]);
    lemma_header_data(p);
    let hf = header_fields(p);
    lemma_header_fields_kept(p);
    assert forall|i: int| 0 <= i < hf.len() implies #[trigger] hf[i].name != crate::tags::DELE@
        && field_fits(hf[i]) by {
        assert(kept_field(hf[i]));
    }
    assert(record_roundtrips(h));
    lemma_read_record_bytes(h, rest);
    lemma_record_roundtrip(h, rest);
    lemma_strip_dele_written(h);
    let n = record_bytes(h).len();
    assert(s.subrange(n as int, s.len() as int) =~= rest);
    let hh = reread(h);
    assert(hh.fields == hf);
    assert(hh.name == crate::tags::TES3@);
    lemma_fold_header(p);
    assert(hf[0].data == header_data(p));
    lemma_parse_records_bytes(p.records);
    assert(plugin_header(hh) == Some(PluginModel { records: Seq::empty(), ..p }));
}

/// A field that a written record keeps: no `DELE` marker, and its data fits.
pub open spec fn kept_field(f: FieldModel) -> bool {
    f.name != crate::tags::DELE@ && field_fits(f)
}

proof fn lemma_master_fields_kept(ms: Seq<(Seq<char>, u64)>)
    requires
        forall|i: int|
            0 <= i < ms.len() ==> crate::common::data_len_ok(zstring_of(#[trigger] ms[i].0).len()),
    ensures
        forall|i: int|
            0 <= i < master_fields(ms).len() ==> kept_field(#[trigger] master_fields(ms)[i]),
        master_fields(ms).len() == 2 * ms.len(),
    decreases ms.len(),
{
    if ms.len() > 0 {
        let init = ms.drop_last();
        assert forall|i: int| 0 <= i < init.len() implies crate::common::data_len_ok(
            zstring_of(#[trigger] init[i].0).len(),
        ) by {
            assert(init[i] == ms[i]);
        }
        lemma_master_fields_kept(init);
        assert(crate::common::data_len_ok(zstring_of(ms[ms.len() - 1].0).len()));
        lemma_le_bytes_len(ms.last().1 as nat, 8);
        assert(crate::tags::DELE@[0] != MAST@[0] && crate::tags::DELE@[1] != DATA@[1]);
    }
}

/// Each header field of a plugin that can be written is no `DELE` marker and fits.
proof fn lemma_header_fields_kept(p: PluginModel)
    requires
        header_roundtrips(p),
        plugin_writable(p),
        p.screen_data.len() <= MAX_DATA,
    ensures
        forall|i: int| 0 <= i < header_fields(p).len() ==> kept_field(#[trigger] header_fields(p)[i]),
{
    lemma_header_data(p);
    lemma_master_fields_kept(p.masters);
    assert(crate::tags::DELE@[0] != HEDR@[0] && crate::tags::DELE@[0] != GMDT@[0]);
    assert(crate::tags::DELE@[0] != SCRD@[0] && crate::tags::DELE@[0] != SCRS@[0]);
    if let Some(g) = p.save {
        lemma_game_data_roundtrip(g);
    }
    let a = seq![FieldModel { name: HEDR@, data: header_data(p) }];
    let m = master_fields(p.masters);
    let sv = save_fields(p);
    let sc = screen_fields(p);
    assert(header_fields(p) =~= a + m + sv + sc);
    assert forall|i: int| 0 <= i < sv.len() implies kept_field(#[trigger] sv[i]) by {}
    assert forall|i: int| 0 <= i < sc.len() implies kept_field(#[trigger] sc[i]) by {}
    assert forall|i: int| 0 <= i < header_fields(p).len() implies kept_field(
        #[trigger] header_fields(p)[i],
    ) by {
        let hf = a + m + sv + sc;
        if i < 1 {
        } else if i < 1 + m.len() {
            assert(hf[i] == m[i - 1]);
        } else if i < 1 + m.len() + sv.len() {
            assert(hf[i] == sv[i - 1 - m.len()]);
        } else {
            assert(hf[i] == sc[i - 1 - m.len() - sv.len()]);
        }
    }
}

} // verus!
