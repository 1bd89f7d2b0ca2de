//! The reference to the player in Morrowind saves.

use vstd::prelude::*;

use crate::bytes::{le_bytes, push_u32};
use crate::error::{decode_failed, TesError};
use crate::plugin::{FieldModel, RecordStatus};
use crate::tags::{slice_is_tag, ACDT, CHRD, REFR};
use crate::tes3::form::{check_record_type, fold_fields, lemma_fold_none, lemma_fold_step, word, word_at};
use crate::tes3::record::Tes3Record;

verus! {

/// A statistic, such as an attribute, skill, health, etc.
#[derive(Debug, Copy, Clone)]
pub struct Stat<T> {
    pub current: T,
    pub base: T,
}

/// Length of the `ACDT` data of the player reference
pub const ACDT_LENGTH: usize = 264;

/// Length of the `CHRD` data of the player reference
pub const CHRD_LENGTH: usize = 216;

/// The abstract content of the player reference; `f32` values are held as their bits.
pub struct PlayerReferenceModel {
    pub unknown1: Seq<u8>,
    pub flags: u32,
    pub breath_meter: u32,
    pub unknown2: Seq<u8>,
    pub health: Stat<u32>,
    pub fatigue: Stat<u32>,
    pub magicka: Stat<u32>,
    pub unknown3: Seq<u8>,
    pub attributes: Seq<Stat<u32>>,
    pub magic_effects: Seq<u32>,
    pub unknown4: Seq<u8>,
    pub gold: u32,
    pub count_down: u8,
    pub unknown5: Seq<u8>,
    pub skills: Seq<Stat<i32>>,
}

/// The statistic held by words `k` (current) and `k + 1` (base) of `d`.
pub open spec fn stat_u32(d: Seq<u8>, k: int) -> Stat<u32> {
    Stat { current: word(d, k), base: word(d, k + 1) }
}

/// The integer statistic held by words `k` (current) and `k + 1` (base) of `d`.
pub open spec fn stat_i32(d: Seq<u8>, k: int) -> Stat<i32> {
    Stat { current: word(d, k) as i32, base: word(d, k + 1) as i32 }
}

/// The player reference with its `ACDT` part read from `d`: 12 unknown bytes, flags, breath,
/// 20 unknown bytes, health, fatigue and magicka, 16 unknown bytes, the 8 attributes, the 27
/// magic effect values, 4 unknown bytes, gold, the count-down byte and 3 unknown bytes.
pub open spec fn with_acdt(m: PlayerReferenceModel, d: Seq<u8>) -> PlayerReferenceModel {
    PlayerReferenceModel {
        unknown1: d.subrange(0, 12),
        flags: word(d, 3),
        breath_meter: word(d, 4),
        unknown2: d.subrange(20, 40),
        health: stat_u32(d, 10),
        fatigue: stat_u32(d, 12),
        magicka: stat_u32(d, 14),
        unknown3: d.subrange(64, 80),
        attributes: Seq::new(8, |k: int| stat_u32(d, 20 + 2 * k)),
        magic_effects: Seq::new(27, |k: int| word(d, 36 + k)),
        unknown4: d.subrange(252, 256),
        gold: word(d, 64),
        count_down: d[260],
        unknown5: d.subrange(261, 264),
        ..m
    }
}

/// The player reference with its skills read from `CHRD` data: 27 pairs of `i32`s.
pub open spec fn with_chrd(m: PlayerReferenceModel, d: Seq<u8>) -> PlayerReferenceModel {
    PlayerReferenceModel { skills: Seq::new(27, |k: int| stat_i32(d, 2 * k)), ..m }
}

/// Reading one field of the player reference: `ACDT` and `CHRD` must be long enough; other
/// fields are skipped.
pub open spec fn reference_step(m: PlayerReferenceModel, f: FieldModel) -> Option<PlayerReferenceModel> {
    if f.name == ACDT@ {
        if f.data.len() >= ACDT_LENGTH {
            Some(with_acdt(m, f.data))
        } else {
            None
        }
    } else if f.name == CHRD@ {
        if f.data.len() >= CHRD_LENGTH {
            Some(with_chrd(m, f.data))
        } else {
            None
        }
    } else {
        Some(m)
    }
}

/// [`reference_step`] as a function value.
pub open spec fn reference_step_fn() -> spec_fn(PlayerReferenceModel, FieldModel) -> Option<PlayerReferenceModel> {
    |m: PlayerReferenceModel, f: FieldModel| reference_step(m, f)
}

/// The player reference before any field is read: all zero.
pub open spec fn empty_reference() -> PlayerReferenceModel {
    PlayerReferenceModel {
        unknown1: Seq::new(12, |i: int| 0u8),
        flags: 0,
        breath_meter: 0,
        unknown2: Seq::new(20, |i: int| 0u8),
        health: Stat { current: 0, base: 0 },
        fatigue: Stat { current: 0, base: 0 },
        magicka: Stat { current: 0, base: 0 },
        unknown3: Seq::new(16, |i: int| 0u8),
        attributes: Seq::new(8, |i: int| Stat { current: 0u32, base: 0u32 }),
        magic_effects: Seq::new(27, |i: int| 0u32),
        unknown4: Seq::new(4, |i: int| 0u8),
        gold: 0,
        count_down: 0,
        unknown5: Seq::new(3, |i: int| 0u8),
        skills: Seq::new(27, |i: int| Stat { current: 0i32, base: 0i32 }),
    }
}

/// The player reference read from a record's fields.
pub open spec fn reference_from_fields(fields: Seq<FieldModel>) -> Option<PlayerReferenceModel> {
    fold_fields(empty_reference(), reference_step_fn(), fields)
}

/// The little-endian bytes of a sequence of statistics, current before base.
pub open spec fn stats_u32_bytes(s: Seq<Stat<u32>>) -> Seq<u8>
    decreases s.len(),
{
    if s.len() == 0 {
        Seq::empty()
    } else {
        stats_u32_bytes(s.drop_last()) + le_bytes(s.last().current as nat, 4) + le_bytes(
            s.last().base as nat,
            4,
        )
    }
}

/// The little-endian bytes of a sequence of integer statistics, current before base.
pub open spec fn stats_i32_bytes(s: Seq<Stat<i32>>) -> Seq<u8>
    decreases s.len(),
{
    if s.len() == 0 {
        Seq::empty()
    } else {
        stats_i32_bytes(s.drop_last()) + le_bytes((s.last().current as u32) as nat, 4) + le_bytes(
            (s.last().base as u32) as nat,
            4,
        )
    }
}

/// The little-endian bytes of a sequence of words.
pub open spec fn words_bytes(s: Seq<u32>) -> Seq<u8>
    decreases s.len(),
{
    if s.len() == 0 {
        Seq::empty()
    } else {
        words_bytes(s.drop_last()) + le_bytes(s.last() as nat, 4)
    }
}

/// The bytes of a statistic: current, then base.
pub open spec fn stat_bytes(s: Stat<u32>) -> Seq<u8> {
    le_bytes(s.current as nat, 4) + le_bytes(s.base as nat, 4)
}

/// The `ACDT` data written for the player reference.
pub open spec fn acdt_bytes(p: PlayerReferenceModel) -> Seq<u8> {
    p.unknown1 + le_bytes(p.flags as nat, 4) + le_bytes(p.breath_meter as nat, 4) + p.unknown2
        + stat_bytes(p.health) + stat_bytes(p.fatigue) + stat_bytes(p.magicka) + p.unknown3
        + stats_u32_bytes(p.attributes) + words_bytes(p.magic_effects) + p.unknown4 + le_bytes(
        p.gold as nat,
        4,
    ) + seq![p.count_down] + p.unknown5
}

/// The `CHRD` data written for the player reference.
pub open spec fn chrd_bytes(p: PlayerReferenceModel) -> Seq<u8> {
    stats_i32_bytes(p.skills)
}

/// A record's fields with the data of every `ACDT` and `CHRD` field replaced as the player
/// reference is written.
pub open spec fn written_reference_fields(
    fields: Seq<FieldModel>,
    p: PlayerReferenceModel,
) -> Seq<FieldModel> {
    fields.map_values(
        |f: FieldModel|
            if f.name == ACDT@ {
                FieldModel { name: f.name, data: acdt_bytes(p) }
            } else if f.name == CHRD@ {
                FieldModel { name: f.name, data: chrd_bytes(p) }
            } else {
                f
            },
    )
}

/// The bytes of `n` statistics are `8 * n` bytes long.
pub proof fn lemma_stats_u32_bytes_len(s: Seq<Stat<u32>>)
    ensures
        stats_u32_bytes(s).len() == 8 * s.len(),
    decreases s.len(),
{
    if s.len() > 0 {
        lemma_stats_u32_bytes_len(s.drop_last());
        crate::bytes::lemma_le_bytes_len(s.last().current as nat, 4);
        crate::bytes::lemma_le_bytes_len(s.last().base as nat, 4);
    }
}

/// The bytes of `n` integer statistics are `8 * n` bytes long.
pub proof fn lemma_stats_i32_bytes_len(s: Seq<Stat<i32>>)
    ensures
        stats_i32_bytes(s).len() == 8 * s.len(),
    decreases s.len(),
{
    if s.len() > 0 {
        lemma_stats_i32_bytes_len(s.drop_last());
        crate::bytes::lemma_le_bytes_len((s.last().current as u32) as nat, 4);
        crate::bytes::lemma_le_bytes_len((s.last().base as u32) as nat, 4);
    }
}

/// The bytes of `n` words are `4 * n` bytes long.
pub proof fn lemma_words_bytes_len(s: Seq<u32>)
    ensures
        words_bytes(s).len() == 4 * s.len(),
    decreases s.len(),
{
    if s.len() > 0 {
        lemma_words_bytes_len(s.drop_last());
        crate::bytes::lemma_le_bytes_len(s.last() as nat, 4);
    }
}

/// The player reference's parts have the lengths of the formats.
pub open spec fn reference_shaped(p: PlayerReferenceModel) -> bool {
    &&& p.unknown1.len() == 12
    &&& p.unknown2.len() == 20
    &&& p.unknown3.len() == 16
    &&& p.attributes.len() == 8
    &&& p.magic_effects.len() == 27
    &&& p.unknown4.len() == 4
    &&& p.unknown5.len() == 3
    &&& p.skills.len() == 27
}

/// The data written for a well-shaped player reference has the lengths that reading expects.
pub proof fn lemma_reference_bytes_len(p: PlayerReferenceModel)
    requires
        reference_shaped(p),
    ensures
        acdt_bytes(p).len() == ACDT_LENGTH,
        chrd_bytes(p).len() == CHRD_LENGTH,
{
    lemma_stats_u32_bytes_len(p.attributes);
    lemma_stats_i32_bytes_len(p.skills);
    lemma_words_bytes_len(p.magic_effects);
    crate::bytes::lemma_le_bytes_len(p.flags as nat, 4);
    crate::bytes::lemma_le_bytes_len(p.breath_meter as nat, 4);
    crate::bytes::lemma_le_bytes_len(p.gold as nat, 4);
    crate::bytes::lemma_le_bytes_len(p.health.current as nat, 4);
    crate::bytes::lemma_le_bytes_len(p.health.base as nat, 4);
    crate::bytes::lemma_le_bytes_len(p.fatigue.current as nat, 4);
    crate::bytes::lemma_le_bytes_len(p.fatigue.base as nat, 4);
    crate::bytes::lemma_le_bytes_len(p.magicka.current as nat, 4);
    crate::bytes::lemma_le_bytes_len(p.magicka.base as nat, 4);
}


/// Word `j` of the bytes of words is word `j`.
pub proof fn lemma_words_bytes_word(s: Seq<u32>, j: int)
    requires
        0 <= j < s.len(),
    ensures
        words_bytes(s).subrange(4 * j, 4 * j + 4) == le_bytes(s[j] as nat, 4),
    decreases s.len(),
{
    lemma_words_bytes_len(s.drop_last());
    crate::bytes::lemma_le_bytes_len(s.last() as nat, 4);
    if j < s.len() - 1 {
        lemma_words_bytes_word(s.drop_last(), j);
        assert(words_bytes(s).subrange(4 * j, 4 * j + 4) =~= words_bytes(s.drop_last()).subrange(
            4 * j,
            4 * j + 4,
        ));
    } else {
        assert(words_bytes(s).subrange(4 * j, 4 * j + 4) =~= le_bytes(s[j] as nat, 4));
    }
}

/// Statistic `j` of the bytes of statistics is statistic `j`.
proof fn lemma_stats_u32_bytes_stat(s: Seq<Stat<u32>>, j: int)
    requires
        0 <= j < s.len(),
    ensures
        stats_u32_bytes(s).subrange(8 * j, 8 * j + 4) == le_bytes(s[j].current as nat, 4),
        stats_u32_bytes(s).subrange(8 * j + 4, 8 * j + 8) == le_bytes(s[j].base as nat, 4),
    decreases s.len(),
{
    lemma_stats_u32_bytes_len(s.drop_last());
    crate::bytes::lemma_le_bytes_len(s.last().current as nat, 4);
    crate::bytes::lemma_le_bytes_len(s.last().base as nat, 4);
    let t = stats_u32_bytes(s);
    let u = stats_u32_bytes(s.drop_last());
    if j < s.len() - 1 {
        lemma_stats_u32_bytes_stat(s.drop_last(), j);
        assert(t.subrange(8 * j, 8 * j + 4) =~= u.subrange(8 * j, 8 * j + 4));
        assert(t.subrange(8 * j + 4, 8 * j + 8) =~= u.subrange(8 * j + 4, 8 * j + 8));
    } else {
        assert(t.subrange(8 * j, 8 * j + 4) =~= le_bytes(s[j].current as nat, 4));
        assert(t.subrange(8 * j + 4, 8 * j + 8) =~= le_bytes(s[j].base as nat, 4));
    }
}

/// Integer statistic `j` of the bytes of integer statistics is statistic `j`.
proof fn lemma_stats_i32_bytes_stat(s: Seq<Stat<i32>>, j: int)
    requires
        0 <= j < s.len(),
    ensures
        stats_i32_bytes(s).subrange(8 * j, 8 * j + 4) == le_bytes((s[j].current as u32) as nat, 4),
        stats_i32_bytes(s).subrange(8 * j + 4, 8 * j + 8) == le_bytes((s[j].base as u32) as nat, 4),
    decreases s.len(),
{
    lemma_stats_i32_bytes_len(s.drop_last());
    crate::bytes::lemma_le_bytes_len((s.last().current as u32) as nat, 4);
    crate::bytes::lemma_le_bytes_len((s.last().base as u32) as nat, 4);
    let t = stats_i32_bytes(s);
    let u = stats_i32_bytes(s.drop_last());
    if j < s.len() - 1 {
        lemma_stats_i32_bytes_stat(s.drop_last(), j);
        assert(t.subrange(8 * j, 8 * j + 4) =~= u.subrange(8 * j, 8 * j + 4));
        assert(t.subrange(8 * j + 4, 8 * j + 8) =~= u.subrange(8 * j + 4, 8 * j + 8));
    } else {
        assert(t.subrange(8 * j, 8 * j + 4) =~= le_bytes((s[j].current as u32) as nat, 4));
        assert(t.subrange(8 * j + 4, 8 * j + 8) =~= le_bytes((s[j].base as u32) as nat, 4));
    }
}

/// The word written as the little-endian bytes of `v` reads back as `v`.
pub proof fn lemma_word_of(s: Seq<u8>, k: int, v: u32)
    requires
        0 <= k,
        4 * k + 4 <= s.len(),
        s.subrange(4 * k, 4 * k + 4) == le_bytes(v as nat, 4),
    ensures
        word(s, k) == v,
{
    reveal_with_fuel(crate::bytes::pow256, 5);
    crate::bytes::lemma_le_value_of_bytes(v as nat, 4);
}

/// Reading back the `CHRD` data written for a player reference gives its skills.
pub proof fn lemma_chrd_roundtrip(m: PlayerReferenceModel, p: PlayerReferenceModel)
    requires
        reference_shaped(p),
    ensures
        with_chrd(m, chrd_bytes(p)) == (PlayerReferenceModel { skills: p.skills, ..m }),
{
    let d = chrd_bytes(p);
    lemma_reference_bytes_len(p);
    assert forall|k: int| 0 <= k < 27 implies #[trigger] stat_i32(d, 2 * k) == p.skills[k] by {
        lemma_stats_i32_bytes_stat(p.skills, k);
        lemma_word_of(d, 2 * k, p.skills[k].current as u32);
        lemma_word_of(d, 2 * k + 1, p.skills[k].base as u32);
        let c = p.skills[k].current;
        let b = p.skills[k].base;
        assert((c as u32) as i32 == c) by (bit_vector);
        assert((b as u32) as i32 == b) by (bit_vector);
    }
    assert(with_chrd(m, d).skills =~= p.skills);
}

/// Reading back the `ACDT` data written for a player reference gives everything but its skills.
pub proof fn lemma_acdt_roundtrip(m: PlayerReferenceModel, p: PlayerReferenceModel)
    requires
        reference_shaped(p),
    ensures
        with_acdt(m, acdt_bytes(p)) == (PlayerReferenceModel { skills: m.skills, ..p }),
{
    let d = acdt_bytes(p);
    lemma_reference_bytes_len(p);
    lemma_stats_u32_bytes_len(p.attributes);
    lemma_words_bytes_len(p.magic_effects);
    crate::bytes::lemma_le_bytes_len(p.flags as nat, 4);
    crate::bytes::lemma_le_bytes_len(p.breath_meter as nat, 4);
    crate::bytes::lemma_le_bytes_len(p.gold as nat, 4);
    crate::bytes::lemma_le_bytes_len(p.health.current as nat, 4);
    crate::bytes::lemma_le_bytes_len(p.health.base as nat, 4);
    crate::bytes::lemma_le_bytes_len(p.fatigue.current as nat, 4);
    crate::bytes::lemma_le_bytes_len(p.fatigue.base as nat, 4);
    crate::bytes::lemma_le_bytes_len(p.magicka.current as nat, 4);
    crate::bytes::lemma_le_bytes_len(p.magicka.base as nat, 4);
    let attrs = stats_u32_bytes(p.attributes);
    let effects = words_bytes(p.magic_effects);
    assert(d.subrange(0, 12) =~= p.unknown1);
    assert(d.subrange(12, 16) =~= le_bytes(p.flags as nat, 4));
    assert(d.subrange(16, 20) =~= le_bytes(p.breath_meter as nat, 4));
    assert(d.subrange(20, 40) =~= p.unknown2);
    assert(d.subrange(40, 44) =~= le_bytes(p.health.current as nat, 4));
    assert(d.subrange(44, 48) =~= le_bytes(p.health.base as nat, 4));
    assert(d.subrange(48, 52) =~= le_bytes(p.fatigue.current as nat, 4));
    assert(d.subrange(52, 56) =~= le_bytes(p.fatigue.base as nat, 4));
    assert(d.subrange(56, 60) =~= le_bytes(p.magicka.current as nat, 4));
    assert(d.subrange(60, 64) =~= le_bytes(p.magicka.base as nat, 4));
    assert(d.subrange(64, 80) =~= p.unknown3);
    assert(d.subrange(80, 144) =~= attrs);
    assert(d.subrange(144, 252) =~= effects);
    assert(d.subrange(252, 256) =~= p.unknown4);
    assert(d.subrange(256, 260) =~= le_bytes(p.gold as nat, 4));
    assert(d[260] == p.count_down);
    assert(d.subrange(261, 264) =~= p.unknown5);
    lemma_word_of(d, 3, p.flags);
    lemma_word_of(d, 4, p.breath_meter);
    lemma_word_of(d, 10, p.health.current);
    lemma_word_of(d, 11, p.health.base);
    lemma_word_of(d, 12, p.fatigue.current);
    lemma_word_of(d, 13, p.fatigue.base);
    lemma_word_of(d, 14, p.magicka.current);
    lemma_word_of(d, 15, p.magicka.base);
    lemma_word_of(d, 64, p.gold);
    assert forall|k: int| 0 <= k < 8 implies #[trigger] stat_u32(d, 20 + 2 * k) == p.attributes[k] by {
        lemma_stats_u32_bytes_stat(p.attributes, k);
        assert(d.subrange(80 + 8 * k, 84 + 8 * k) =~= attrs.subrange(8 * k, 8 * k + 4));
        assert(d.subrange(84 + 8 * k, 88 + 8 * k) =~= attrs.subrange(8 * k + 4, 8 * k + 8));
        lemma_word_of(d, 20 + 2 * k, p.attributes[k].current);
        lemma_word_of(d, 21 + 2 * k, p.attributes[k].base);
    }
    assert forall|k: int| 0 <= k < 27 implies #[trigger] word(d, 36 + k) == p.magic_effects[k] by {
        lemma_words_bytes_word(p.magic_effects, k);
        assert(d.subrange(144 + 4 * k, 148 + 4 * k) =~= effects.subrange(4 * k, 4 * k + 4));
        lemma_word_of(d, 36 + k, p.magic_effects[k]);
    }
    let r = with_acdt(m, d);
    assert(r.attributes =~= p.attributes);
    assert(r.magic_effects =~= p.magic_effects);
}

/// Some field of `fields` has the name `name`.
pub open spec fn has_field(fields: Seq<FieldModel>, name: Seq<u8>) -> bool {
    exists|i: int| 0 <= i < fields.len() && #[trigger] fields[i].name == name
}

/// What reading gives after the player reference `p` was written into fields: `p`'s `ACDT`
/// part if an `ACDT` field was there, and its skills if a `CHRD` field was there; the rest as
/// before any field is read.
pub open spec fn read_after_write(a: bool, c: bool, p: PlayerReferenceModel) -> PlayerReferenceModel {
    let e = empty_reference();
    let base = if a { PlayerReferenceModel { skills: e.skills, ..p } } else { e };
    if c {
        PlayerReferenceModel { skills: p.skills, ..base }
    } else {
        base
    }
}

proof fn lemma_read_written_fields(fields: Seq<FieldModel>, p: PlayerReferenceModel)
    requires
        reference_shaped(p),
    ensures
        reference_from_fields(written_reference_fields(fields, p)) == Some(
            read_after_write(has_field(fields, ACDT@), has_field(fields, CHRD@), p),
        ),
    decreases fields.len(),
{
    let w = written_reference_fields(fields, p);
    lemma_reference_bytes_len(p);
    if fields.len() == 0 {
        assert(!has_field(fields, ACDT@));
        assert(!has_field(fields, CHRD@));
    } else {
        let init = fields.drop_last();
        lemma_read_written_fields(init, p);
        assert(w.drop_last() =~= written_reference_fields(init, p));
        let prev = read_after_write(has_field(init, ACDT@), has_field(init, CHRD@), p);
        let last = fields.last();
        assert(w.last() == (if last.name == ACDT@ {
            FieldModel { name: last.name, data: acdt_bytes(p) }
        } else if last.name == CHRD@ {
            FieldModel { name: last.name, data: chrd_bytes(p) }
        } else {
            last
        }));
        assert(has_field(fields, ACDT@) == (has_field(init, ACDT@) || last.name == ACDT@)) by {
            if has_field(fields, ACDT@) && !(last.name == ACDT@) {
                let i = choose|i: int| 0 <= i < fields.len() && #[trigger] fields[i].name == ACDT@;
                assert(init[i].name == ACDT@);
            }
            if has_field(init, ACDT@) {
                let i = choose|i: int| 0 <= i < init.len() && #[trigger] init[i].name == ACDT@;
                assert(fields[i].name == ACDT@);
            }
            if last.name == ACDT@ {
                assert(fields[fields.len() - 1].name == ACDT@);
            }
        }
        assert(has_field(fields, CHRD@) == (has_field(init, CHRD@) || last.name == CHRD@)) by {
            if has_field(fields, CHRD@) && !(last.name == CHRD@) {
                let i = choose|i: int| 0 <= i < fields.len() && #[trigger] fields[i].name == CHRD@;
                assert(init[i].name == CHRD@);
            }
            if has_field(init, CHRD@) {
                let i = choose|i: int| 0 <= i < init.len() && #[trigger] init[i].name == CHRD@;
                assert(fields[i].name == CHRD@);
            }
            if last.name == CHRD@ {
                assert(fields[fields.len() - 1].name == CHRD@);
            }
        }
        if last.name == ACDT@ {
            lemma_acdt_roundtrip(prev, p);
        } else if last.name == CHRD@ {
            lemma_chrd_roundtrip(prev, p);
        }
    }
}

/// Reading back a written player reference: when the record has both an `ACDT` and a `CHRD`
/// field, reading its fields after [`PlayerReference::write`] gives the reference that was
/// written.
pub proof fn lemma_reference_roundtrip(fields: Seq<FieldModel>, p: PlayerReferenceModel)
    requires
        reference_shaped(p),
        has_field(fields, ACDT@),
        has_field(fields, CHRD@),
    ensures
        reference_from_fields(written_reference_fields(fields, p)) == Some(p),
{
    lemma_read_written_fields(fields, p);
}

/// Changes to the reference to the player
///
/// Only the parts of the `REFR` record that describe the player are kept: its statistics,
/// attributes, skills, magic effects and gold. Values that are `f32` in the game are held as
/// their bits.
#[derive(Debug)]
pub struct PlayerReference {
    unknown1: [u8; 12],
    flags: u32,
    breath_meter: u32,
    unknown2: [u8; 20],
    pub health: Stat<u32>,
    pub fatigue: Stat<u32>,
    pub magicka: Stat<u32>,
    unknown3: [u8; 16],
    pub attributes: [Stat<u32>; 8],
    magic_effects: [u32; 27],
    unknown4: [u8; 4],
    gold: u32,
    count_down: u8,
    unknown5: [u8; 3],
    pub skills: [Stat<i32>; 27],
}

impl View for PlayerReference {
    type V = PlayerReferenceModel;

    closed spec fn view(&self) -> PlayerReferenceModel {
        PlayerReferenceModel {
            unknown1: self.unknown1@,
            flags: self.flags,
            breath_meter: self.breath_meter,
            unknown2: self.unknown2@,
            health: self.health,
            fatigue: self.fatigue,
            magicka: self.magicka,
            unknown3: self.unknown3@,
            attributes: self.attributes@,
            magic_effects: self.magic_effects@,
            unknown4: self.unknown4@,
            gold: self.gold,
            count_down: self.count_down,
            unknown5: self.unknown5@,
            skills: self.skills@,
        }
    }
}

fn stat_u32_at(d: &[u8], k: usize) -> (r: Stat<u32>)
    requires
        4 * k + 8 <= d@.len(),
        k < 100,
    ensures
        r == stat_u32(d@, k as int),
{
    Stat { current: word_at(d, k), base: word_at(d, k + 1) }
}

fn stat_i32_at(d: &[u8], k: usize) -> (r: Stat<i32>)
    requires
        4 * k + 8 <= d@.len(),
        k < 100,
    ensures
        r == stat_i32(d@, k as int),
{
    Stat {
        current: #[verifier::truncate] (word_at(d, k) as i32),
        base: #[verifier::truncate] (word_at(d, k + 1) as i32),
    }
}

fn push_stat_u32(out: &mut Vec<u8>, s: Stat<u32>)
    ensures
        final(out)@ == old(out)@ + stat_bytes(s),
{
    push_u32(out, s.current);
    push_u32(out, s.base);
    assert(final(out)@ =~= old(out)@ + stat_bytes(s));
}

fn push_bytes(out: &mut Vec<u8>, b: &[u8])
    ensures
        final(out)@ == old(out)@ + b@,
{
    out.extend_from_slice(b);
}

impl PlayerReference {
    /// The view of a player reference is well shaped.
    pub proof fn lemma_shaped(&self)
        ensures
            reference_shaped(self@),
    {
    }

    fn empty() -> (r: PlayerReference)
        ensures
            r@ == empty_reference(),
    {
        let z = Stat { current: 0u32, base: 0u32 };
        let zi = Stat { current: 0i32, base: 0i32 };
        let r = PlayerReference {
            unknown1: [0u8; 12],
            flags: 0,
            breath_meter: 0,
            unknown2: [0u8; 20],
            health: z,
            fatigue: z,
            magicka: z,
            unknown3: [0u8; 16],
            attributes: [z; 8],
            magic_effects: [0u32; 27],
            unknown4: [0u8; 4],
            gold: 0,
            count_down: 0,
            unknown5: [0u8; 3],
            skills: [zi; 27],
        };
        proof {
            let e = empty_reference();
            assert(r@.unknown1 =~= e.unknown1);
            assert(r@.unknown2 =~= e.unknown2);
            assert(r@.unknown3 =~= e.unknown3);
            assert(r@.unknown4 =~= e.unknown4);
            assert(r@.unknown5 =~= e.unknown5);
            assert(r@.attributes =~= e.attributes);
            assert(r@.magic_effects =~= e.magic_effects);
            assert(r@.skills =~= e.skills);
        }
        r
    }

    fn apply_acdt(&mut self, d: &[u8])
        requires
            d@.len() >= ACDT_LENGTH,
        ensures
            final(self)@ == with_acdt(old(self)@, d@),
    {
        self.unknown1 = [d[0], d[1], d[2], d[3], d[4], d[5], d[6], d[7], d[8], d[9], d[10], d[11]];
        self.flags = word_at(d, 3);
        self.breath_meter = word_at(d, 4);
        self.unknown2 = [d[20], d[21], d[22], d[23], d[24], d[25], d[26], d[27], d[28], d[29], d[30], d[31], d[32], d[33], d[34], d[35], d[36], d[37], d[38], d[39]];
        self.health = stat_u32_at(d, 10);
        self.fatigue = stat_u32_at(d, 12);
        self.magicka = stat_u32_at(d, 14);
        self.unknown3 = [d[64], d[65], d[66], d[67], d[68], d[69], d[70], d[71], d[72], d[73], d[74], d[75], d[76], d[77], d[78], d[79]];
        self.attributes = [stat_u32_at(d, 20), stat_u32_at(d, 22), stat_u32_at(d, 24), stat_u32_at(d, 26), stat_u32_at(d, 28), stat_u32_at(d, 30), stat_u32_at(d, 32), stat_u32_at(d, 34)];
        self.magic_effects = [word_at(d, 36), word_at(d, 37), word_at(d, 38), word_at(d, 39), word_at(d, 40), word_at(d, 41), word_at(d, 42), word_at(d, 43), word_at(d, 44), word_at(d, 45), word_at(d, 46), word_at(d, 47), word_at(d, 48), word_at(d, 49), word_at(d, 50), word_at(d, 51), word_at(d, 52), word_at(d, 53), word_at(d, 54), word_at(d, 55), word_at(d, 56), word_at(d, 57), word_at(d, 58), word_at(d, 59), word_at(d, 60), word_at(d, 61), word_at(d, 62)];
        self.unknown4 = [d[252], d[253], d[254], d[255]];
        self.gold = word_at(d, 64);
        self.count_down = d[260];
        self.unknown5 = [d[261], d[262], d[263]];
        proof {
            let m = with_acdt(old(self)@, d@);
            assert(self@.unknown1 =~= m.unknown1);
            assert(self@.unknown2 =~= m.unknown2);
            assert(self@.unknown3 =~= m.unknown3);
            assert(self@.unknown4 =~= m.unknown4);
            assert(self@.unknown5 =~= m.unknown5);
            assert(self@.attributes =~= m.attributes);
            assert(self@.magic_effects =~= m.magic_effects);
        }
    }

    fn apply_chrd(&mut self, d: &[u8])
        requires
            d@.len() >= CHRD_LENGTH,
        ensures
            final(self)@ == with_chrd(old(self)@, d@),
    {
        self.skills = [stat_i32_at(d, 0), stat_i32_at(d, 2), stat_i32_at(d, 4), stat_i32_at(d, 6), stat_i32_at(d, 8), stat_i32_at(d, 10), stat_i32_at(d, 12), stat_i32_at(d, 14), stat_i32_at(d, 16), stat_i32_at(d, 18), stat_i32_at(d, 20), stat_i32_at(d, 22), stat_i32_at(d, 24), stat_i32_at(d, 26), stat_i32_at(d, 28), stat_i32_at(d, 30), stat_i32_at(d, 32), stat_i32_at(d, 34), stat_i32_at(d, 36), stat_i32_at(d, 38), stat_i32_at(d, 40), stat_i32_at(d, 42), stat_i32_at(d, 44), stat_i32_at(d, 46), stat_i32_at(d, 48), stat_i32_at(d, 50), stat_i32_at(d, 52)];
        proof {
            assert(self@.skills =~= with_chrd(old(self)@, d@).skills);
        }
    }

    /// Reads the player reference from a `REFR` record
    ///
    /// Fields other than `ACDT` and `CHRD` are skipped. Fails if the record is not a `REFR`
    /// record, or if an `ACDT` field is shorter than [`ACDT_LENGTH`] or a `CHRD` field shorter
    /// than [`CHRD_LENGTH`].
    pub fn read(record: &Tes3Record) -> (r: Result<PlayerReference, TesError>)
        requires
            record@.status == RecordStatus::Finalized,
        ensures
            r is Ok <==> record@.name == REFR@ && reference_from_fields(record@.fields) is Some,
            r matches Ok(p) ==> p@ == reference_from_fields(record@.fields).unwrap(),
    {
        check_record_type(record.name(), &REFR)?;
        let fields = record.fields();
        let ghost view = record@.fields;
        let ghost step = reference_step_fn();
        let mut player = PlayerReference::empty();
        proof {
            assert(view.take(0) =~= Seq::<FieldModel>::empty());
        }
        let mut i: usize = 0;
        while i < fields.len()
            invariant
                fields@.map_values(|f: crate::tes3::field::Tes3Field| f@) == view,
                view == record@.fields,
                record@.name == REFR@,
                step == reference_step_fn(),
                i <= fields@.len(),
                fold_fields(empty_reference(), step, view.take(i as int)) == Some(player@),
            decreases fields@.len() - i,
        {
            let field = &fields[i];
            proof {
                assert(view[i as int] == field@);
                lemma_fold_step(empty_reference(), step, view, i as int);
            }
            let name = field.name();
            let data = field.get();
            if slice_is_tag(name, &ACDT) {
                if data.len() < ACDT_LENGTH {
                    proof {
                        assert(step(player@, view[i as int]) is None);
                        lemma_fold_none(empty_reference(), step, view, i + 1);
                    }
                    return Err(TesError::UnexpectedEof);
                }
                player.apply_acdt(data);
            } else if slice_is_tag(name, &CHRD) {
                if data.len() < CHRD_LENGTH {
                    proof {
                        assert(step(player@, view[i as int]) is None);
                        lemma_fold_none(empty_reference(), step, view, i + 1);
                    }
                    return Err(TesError::UnexpectedEof);
                }
                player.apply_chrd(data);
            }
            i = i + 1;
        }
        proof {
            assert(view.take(i as int) =~= view);
        }
        Ok(player)
    }

    fn acdt_data(&self) -> (r: Vec<u8>)
        ensures
            r@ == acdt_bytes(self@),
            r@.len() == ACDT_LENGTH,
    {
        proof {
            self.lemma_shaped();
            lemma_reference_bytes_len(self@);
        }
        let mut out: Vec<u8> = Vec::new();
        push_bytes(&mut out, self.unknown1.as_slice());
        push_u32(&mut out, self.flags);
        push_u32(&mut out, self.breath_meter);
        push_bytes(&mut out, self.unknown2.as_slice());
        push_stat_u32(&mut out, self.health);
        push_stat_u32(&mut out, self.fatigue);
        push_stat_u32(&mut out, self.magicka);
        push_bytes(&mut out, self.unknown3.as_slice());
        let ghost before = out@;
        let mut k: usize = 0;
        while k < 8
            invariant
                k <= 8,
                out@ == before + stats_u32_bytes(self@.attributes.take(k as int)),
            decreases 8 - k,
        {
            push_stat_u32(&mut out, self.attributes[k]);
            proof {
                let t = self@.attributes.take(k + 1);
                assert(t.drop_last() =~= self@.attributes.take(k as int));
                assert(out@ =~= before + stats_u32_bytes(t));
            }
            k = k + 1;
        }
        assert(self@.attributes.take(8) =~= self@.attributes);
        let ghost mid = out@;
        let mut j: usize = 0;
        while j < 27
            invariant
                j <= 27,
                out@ == mid + words_bytes(self@.magic_effects.take(j as int)),
            decreases 27 - j,
        {
            push_u32(&mut out, self.magic_effects[j]);
            proof {
                let t = self@.magic_effects.take(j + 1);
                assert(t.drop_last() =~= self@.magic_effects.take(j as int));
                assert(out@ =~= mid + words_bytes(t));
            }
            j = j + 1;
        }
        assert(self@.magic_effects.take(27) =~= self@.magic_effects);
        push_bytes(&mut out, self.unknown4.as_slice());
        push_u32(&mut out, self.gold);
        out.push(self.count_down);
        push_bytes(&mut out, self.unknown5.as_slice());
        assert(out@ =~= acdt_bytes(self@));
        out
    }

    fn chrd_data(&self) -> (r: Vec<u8>)
        ensures
            r@ == chrd_bytes(self@),
            r@.len() == CHRD_LENGTH,
    {
        proof {
            self.lemma_shaped();
            lemma_reference_bytes_len(self@);
        }
        let mut out: Vec<u8> = Vec::new();
        let mut k: usize = 0;
        assert(out@ =~= stats_i32_bytes(self@.skills.take(0)));
        while k < 27
            invariant
                k <= 27,
                out@ == stats_i32_bytes(self@.skills.take(k as int)),
            decreases 27 - k,
        {
            push_u32(&mut out, self.skills[k].current as u32);
            push_u32(&mut out, self.skills[k].base as u32);
            proof {
                let t = self@.skills.take(k + 1);
                assert(t.drop_last() =~= self@.skills.take(k as int));
                assert(out@ =~= stats_i32_bytes(t));
            }
            k = k + 1;
        }
        assert(self@.skills.take(27) =~= self@.skills);
        out
    }

    /// Updates a player reference record: the data of every `ACDT` and `CHRD` field is replaced
    /// by this reference's values, in the layout that [`PlayerReference::read`] reads
    pub fn write(&self, record: &mut Tes3Record) -> (r: Result<(), TesError>)
        requires
            old(record).wf(),
            old(record)@.status == RecordStatus::Finalized,
        ensures
            r is Ok,
            final(record).wf(),
            final(record)@ == (crate::tes3::record::RecordModel {
                fields: written_reference_fields(old(record)@.fields, self@),
                ..old(record)@
            }),
    {
        let ghost start = record@;
        let n = record.fields().len();
        let mut i: usize = 0;
        assert(written_reference_fields(start.fields, self@).take(0) + start.fields.skip(0)
            =~= start.fields);
        while i < n
            invariant
                n == start.fields.len(),
                i <= n,
                record.wf(),
                record@.status == RecordStatus::Finalized,
                record@ == (crate::tes3::record::RecordModel {
                    fields: written_reference_fields(start.fields, self@).take(i as int) + start.fields.skip(i as int),
                    ..start
                }),
            decreases n - i,
        {
            let fields = record.fields();
            let is_acdt = slice_is_tag(fields[i].name(), &ACDT);
            let is_chrd = slice_is_tag(fields[i].name(), &CHRD);
            proof {
                assert(fields@.map_values(|f: crate::tes3::field::Tes3Field| f@)[i as int] == record@.fields[i as int]);
                assert(record@.fields[i as int] == start.fields[i as int]);
            }
            let ghost before = record@;
            if is_acdt {
                let data = self.acdt_data();
                let _ = record.set_field_data(i, data);
            } else if is_chrd {
                let data = self.chrd_data();
                let _ = record.set_field_data(i, data);
            }
            proof {
                let w = written_reference_fields(start.fields, self@);
                assert(w[i as int] == record@.fields[i as int]);
                assert(record@.fields =~= w.take(i + 1) + start.fields.skip(i + 1));
            }
            i = i + 1;
        }
        proof {
            let w = written_reference_fields(start.fields, self@);
            assert(w.take(n as int) + start.fields.skip(n as int) =~= w);
        }
        Ok(())
    }
}

} // verus!
