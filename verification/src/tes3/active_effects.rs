//! The magical spells active on characters in Morrowind saves.

use vstd::prelude::*;
use vstd::utf8::{decode_utf8, valid_utf8};

use crate::error::{decode_failed, TesError};
use crate::plugin::{FieldModel, RecordStatus};
use crate::tags::{slice_is_tag, CNAM, INAM, NAM0, NAME, NPDT, SPDT, SPLM, TNAM, VNAM, XNAM};
use crate::tes3::field::Tes3Field;
use crate::tes3::form::{check_record_type, fold_fields, lemma_fold_none, lemma_fold_step, string_value, word, word_at};
use crate::tes3::player::{padded_string_at, padded_string_exec, u32_at};
use crate::tes3::record::Tes3Record;

verus! {

/// Type of magical spell/item an effect originated from
#[derive(Debug, Copy, Clone, PartialEq, Eq, Structural)]
pub enum MagicType {
    Spell,
    Enchantment,
    Potion,
}

impl MagicType {
    /// The number that stands for this value in the file formats
    pub open spec fn index(self) -> u8 {
        match self {
            MagicType::Spell => 1u8,
            MagicType::Enchantment => 2u8,
            MagicType::Potion => 3u8,
        }
    }

    /// The value that a number stands for, if any
    pub open spec fn from_index(v: u8) -> Option<MagicType> {
        match v {
            1u8 => Some(MagicType::Spell),
            2u8 => Some(MagicType::Enchantment),
            3u8 => Some(MagicType::Potion),
            _ => None,
        }
    }

    /// Gets the number that stands for this value
    pub fn to_u8(self) -> (r: u8)
        ensures
            r == self.index(),
    {
        match self {
            MagicType::Spell => 1u8,
            MagicType::Enchantment => 2u8,
            MagicType::Potion => 3u8,
        }
    }

    /// Gets the value that a number stands for, if any
    pub fn try_from_u8(v: u8) -> (r: Option<MagicType>)
        ensures
            r == MagicType::from_index(v),
    {
        match v {
            1u8 => Some(MagicType::Spell),
            2u8 => Some(MagicType::Enchantment),
            3u8 => Some(MagicType::Potion),
            _ => None,
        }
    }

    /// A value's number stands for that value.
    pub proof fn lemma_index_roundtrip(self)
        ensures
            MagicType::from_index(self.index()) == Some(self),
    {
    }

    /// A number that stands for a value is that value's number.
    pub proof fn lemma_from_index_roundtrip(v: u8)
        ensures
            MagicType::from_index(v) matches Some(x) ==> x.index() == v,
    {
    }
}


/// Maximum length of an ID on an active effect
pub const ID_LENGTH: usize = 32;

/// Maximum length of an associated item ID on an active effect
pub const ASSOCIATED_ID_LENGTH: usize = 35;

/// An associated item of an active magical effect
#[derive(Debug)]
pub struct EffectAssociatedItem {
    unknown1: i32,
    unknown2: u8,
    id: String,
}

/// The abstract content of an associated item.
pub struct EffectAssociatedItemModel {
    pub unknown1: i32,
    pub unknown2: u8,
    pub id: Seq<char>,
}

impl View for EffectAssociatedItem {
    type V = EffectAssociatedItemModel;

    closed spec fn view(&self) -> EffectAssociatedItemModel {
        EffectAssociatedItemModel { unknown1: self.unknown1, unknown2: self.unknown2, id: self.id@ }
    }
}

/// An active effect of a magical spell; the seconds it has been active are the bits of an
/// `f32`
#[derive(Debug)]
pub struct ActiveEffect {
    affected_actor: String,
    index: i32,
    unknown1: [u8; 4],
    magnitude: i32,
    seconds_active: u32,
    unknown2: [u8; 8],
    associated_items: Vec<EffectAssociatedItem>,
    summon: Option<String>,
    vampirism: Vec<u8>,
}

/// The abstract content of an active effect.
pub struct ActiveEffectModel {
    pub affected_actor: Seq<char>,
    pub index: i32,
    pub unknown1: Seq<u8>,
    pub magnitude: i32,
    pub seconds_active: u32,
    pub unknown2: Seq<u8>,
    pub associated_items: Seq<EffectAssociatedItemModel>,
    pub summon: Option<Seq<char>>,
    pub vampirism: Seq<u8>,
}

impl View for ActiveEffect {
    type V = ActiveEffectModel;

    closed spec fn view(&self) -> ActiveEffectModel {
        ActiveEffectModel {
            affected_actor: self.affected_actor@,
            index: self.index,
            unknown1: self.unknown1@,
            magnitude: self.magnitude,
            seconds_active: self.seconds_active,
            unknown2: self.unknown2@,
            associated_items: self.associated_items@.map_values(|i: EffectAssociatedItem| i@),
            summon: match self.summon {
                Some(s) => Some(s@),
                None => None,
            },
            vampirism: self.vampirism@,
        }
    }
}

impl ActiveEffect {
    /// Gets the ID of the actor the effect applies to
    pub fn affected_actor(&self) -> (r: &str)
        ensures
            r@ == self@.affected_actor,
    {
        self.affected_actor.as_str()
    }

    /// Gets the index of the effect
    pub fn index(&self) -> (r: i32)
        ensures
            r == self@.index,
    {
        self.index
    }

    /// Gets the magnitude of the effect
    pub fn magnitude(&self) -> (r: i32)
        ensures
            r == self@.magnitude,
    {
        self.magnitude
    }

    /// Gets the bits of the `f32` number of seconds the effect has been active
    pub fn seconds_active_bits(&self) -> (r: u32)
        ensures
            r == self@.seconds_active,
    {
        self.seconds_active
    }
}

/// An active magical spell
#[derive(Debug)]
pub struct ActiveSpell {
    index: i32,
    magic_type: MagicType,
    id: String,
    unknown1: [u8; 16],
    caster: String,
    source: String,
    unknown2: [u8; 44],
    target: Option<String>,
    effects: Vec<ActiveEffect>,
}

/// The abstract content of an active spell.
pub struct ActiveSpellModel {
    pub index: i32,
    pub magic_type: MagicType,
    pub id: Seq<char>,
    pub unknown1: Seq<u8>,
    pub caster: Seq<char>,
    pub source: Seq<char>,
    pub unknown2: Seq<u8>,
    pub target: Option<Seq<char>>,
    pub effects: Seq<ActiveEffectModel>,
}

impl View for ActiveSpell {
    type V = ActiveSpellModel;

    closed spec fn view(&self) -> ActiveSpellModel {
        ActiveSpellModel {
            index: self.index,
            magic_type: self.magic_type,
            id: self.id@,
            unknown1: self.unknown1@,
            caster: self.caster@,
            source: self.source@,
            unknown2: self.unknown2@,
            target: match self.target {
                Some(s) => Some(s@),
                None => None,
            },
            effects: self.effects@.map_values(|e: ActiveEffect| e@),
        }
    }
}

impl ActiveSpell {
    /// Gets the ID of the spell
    pub fn id(&self) -> (r: &str)
        ensures
            r@ == self@.id,
    {
        self.id.as_str()
    }

    /// Gets the effects of the spell
    pub fn effects(&self) -> (r: &[ActiveEffect])
        ensures
            r@.map_values(|e: ActiveEffect| e@) == self@.effects,
    {
        self.effects.as_slice()
    }
}

/// The spell that a `NAME` field starts: its index, and nothing else known yet.
pub open spec fn new_spell(index: i32) -> ActiveSpellModel {
    ActiveSpellModel {
        index,
        magic_type: MagicType::Spell,
        id: Seq::empty(),
        unknown1: Seq::new(16, |i: int| 0u8),
        caster: Seq::empty(),
        source: Seq::empty(),
        unknown2: Seq::new(44, |i: int| 0u8),
        target: None,
        effects: Seq::empty(),
    }
}

/// The spell with its `SPDT` data read from `d`: magic type (a `u32` truncated to a byte), ID
/// padded to 32 bytes, 16 unknown bytes, caster and source padded to 32 bytes, and 44 unknown
/// bytes.
pub open spec fn with_spdt(s: ActiveSpellModel, d: Seq<u8>) -> Option<ActiveSpellModel> {
    if d.len() < 160 {
        None
    } else {
        match (
            MagicType::from_index((word(d, 0) % 256) as u8),
            padded_string_at(d, 4, 32),
            padded_string_at(d, 52, 32),
            padded_string_at(d, 84, 32),
        ) {
            (Some(t), Some(id), Some(caster), Some(source)) => Some(
                ActiveSpellModel {
                    magic_type: t,
                    id,
                    unknown1: d.subrange(36, 52),
                    caster,
                    source,
                    unknown2: d.subrange(116, 160),
                    ..s
                },
            ),
            _ => None,
        }
    }
}

/// The effect held by `NPDT` data: affected actor padded to 32 bytes, index, 4 unknown bytes,
/// magnitude, the bits of the seconds active, and 8 unknown bytes.
pub open spec fn npdt_effect(d: Seq<u8>) -> Option<ActiveEffectModel> {
    if d.len() < 56 {
        None
    } else {
        match padded_string_at(d, 0, 32) {
            Some(actor) => Some(
                ActiveEffectModel {
                    affected_actor: actor,
                    index: word(d, 8) as i32,
                    unknown1: d.subrange(36, 40),
                    magnitude: word(d, 10) as i32,
                    seconds_active: word(d, 11),
                    unknown2: d.subrange(48, 56),
                    associated_items: Seq::empty(),
                    summon: None,
                    vampirism: Seq::empty(),
                },
            ),
            None => None,
        }
    }
}

/// The associated item held by `INAM` data: an `i32`, a byte, and an ID padded to 35 bytes.
pub open spec fn inam_item(d: Seq<u8>) -> Option<EffectAssociatedItemModel> {
    if d.len() < 40 {
        None
    } else {
        match padded_string_at(d, 5, 35) {
            Some(id) => Some(
                EffectAssociatedItemModel { unknown1: word(d, 0) as i32, unknown2: d[4], id },
            ),
            None => None,
        }
    }
}

/// The last spell's last effect changed by `f`, if there is one and `f` succeeds.
pub open spec fn update_last_effect(
    spells: Seq<ActiveSpellModel>,
    f: spec_fn(ActiveEffectModel) -> Option<ActiveEffectModel>,
) -> Option<Seq<ActiveSpellModel>> {
    if spells.len() == 0 || spells.last().effects.len() == 0 {
        None
    } else {
        let s = spells.last();
        match f(s.effects.last()) {
            Some(e) => Some(
                spells.drop_last().push(
                    ActiveSpellModel { effects: s.effects.drop_last().push(e), ..s },
                ),
            ),
            None => None,
        }
    }
}

/// Reading one field of an `SPLM` record: `NAME` starts a spell; `SPDT` and `TNAM` describe the
/// last spell; `NPDT` adds an effect to it; `INAM`, `CNAM` and `VNAM` describe its last effect;
/// `NAM0` and `XNAM` end an effect and a spell.
pub open spec fn spell_list_step(spells: Seq<ActiveSpellModel>, f: FieldModel) -> Option<Seq<ActiveSpellModel>> {
    let d = f.data;
    if f.name == NAME@ {
        if d.len() == 4 {
            Some(spells.push(new_spell(word(d, 0) as i32)))
        } else {
            None
        }
    } else if f.name == SPDT@ {
        if spells.len() == 0 {
            None
        } else {
            match with_spdt(spells.last(), d) {
                Some(s) => Some(spells.drop_last().push(s)),
                None => None,
            }
        }
    } else if f.name == TNAM@ {
        if spells.len() == 0 {
            None
        } else {
            match string_value(d) {
                Some(t) => Some(spells.drop_last().push(ActiveSpellModel { target: Some(t), ..spells.last() })),
                None => None,
            }
        }
    } else if f.name == NPDT@ {
        if spells.len() == 0 {
            None
        } else {
            match npdt_effect(d) {
                Some(e) => Some(
                    spells.drop_last().push(
                        ActiveSpellModel { effects: spells.last().effects.push(e), ..spells.last() },
                    ),
                ),
                None => None,
            }
        }
    } else if f.name == INAM@ {
        update_last_effect(
            spells,
            |e: ActiveEffectModel|
                match inam_item(d) {
                    Some(item) => Some(ActiveEffectModel { associated_items: e.associated_items.push(item), ..e }),
                    None => None,
                },
        )
    } else if f.name == CNAM@ {
        update_last_effect(
            spells,
            |e: ActiveEffectModel|
                if d.len() < 36 {
                    None
                } else {
                    match padded_string_at(d, 4, 32) {
                        Some(s) => Some(ActiveEffectModel { summon: Some(s), ..e }),
                        None => None,
                    }
                },
        )
    } else if f.name == VNAM@ {
        update_last_effect(spells, |e: ActiveEffectModel| Some(ActiveEffectModel { vampirism: d, ..e }))
    } else if f.name == NAM0@ || f.name == XNAM@ {
        Some(spells)
    } else {
        None
    }
}

/// [`spell_list_step`] as a function value.
pub open spec fn spell_list_step_fn() -> spec_fn(Seq<ActiveSpellModel>, FieldModel) -> Option<Seq<ActiveSpellModel>> {
    |s: Seq<ActiveSpellModel>, f: FieldModel| spell_list_step(s, f)
}

/// The active spells read from a record's fields.
pub open spec fn spell_list_from_fields(fields: Seq<FieldModel>) -> Option<Seq<ActiveSpellModel>> {
    fold_fields(Seq::empty(), spell_list_step_fn(), fields)
}

/// All active magical spells in the save game
#[derive(Debug)]
pub struct ActiveSpellList(Vec<ActiveSpell>);

impl View for ActiveSpellList {
    type V = Seq<ActiveSpellModel>;

    closed spec fn view(&self) -> Seq<ActiveSpellModel> {
        self.0@.map_values(|s: ActiveSpell| s@)
    }
}

fn read_spdt(s: &mut ActiveSpell, d: &[u8]) -> (r: Result<(), TesError>)
    ensures
        r is Ok <==> with_spdt(old(s)@, d@) is Some,
        r is Ok ==> final(s)@ == with_spdt(old(s)@, d@).unwrap(),
{
    if d.len() < 160 {
        return Err(TesError::UnexpectedEof);
    }
    let magic_type = match MagicType::try_from_u8((word_at(d, 0) % 256) as u8) {
        Some(t) => t,
        None => {
            return Err(decode_failed("Invalid magic type in SPDT"));
        },
    };
    let id = padded_string_exec(d, 4, 32)?;
    let caster = padded_string_exec(d, 52, 32)?;
    let source = padded_string_exec(d, 84, 32)?;
    let unknown1 = [d[36], d[37], d[38], d[39], d[40], d[41], d[42], d[43], d[44], d[45], d[46], d[47], d[48], d[49], d[50], d[51]];
    let unknown2 = [d[116], d[117], d[118], d[119], d[120], d[121], d[122], d[123], d[124], d[125], d[126], d[127], d[128], d[129], d[130], d[131], d[132], d[133], d[134], d[135], d[136], d[137], d[138], d[139], d[140], d[141], d[142], d[143], d[144], d[145], d[146], d[147], d[148], d[149], d[150], d[151], d[152], d[153], d[154], d[155], d[156], d[157], d[158], d[159]];
    assert(unknown1@ =~= d@.subrange(36, 52));
    assert(unknown2@ =~= d@.subrange(116, 160));
    s.magic_type = magic_type;
    s.id = id;
    s.unknown1 = unknown1;
    s.caster = caster;
    s.source = source;
    s.unknown2 = unknown2;
    Ok(())
}

fn read_npdt(d: &[u8]) -> (r: Result<ActiveEffect, TesError>)
    ensures
        r is Ok <==> npdt_effect(d@) is Some,
        r matches Ok(e) ==> e@ == npdt_effect(d@).unwrap(),
{
    if d.len() < 56 {
        return Err(TesError::UnexpectedEof);
    }
    let affected_actor = padded_string_exec(d, 0, 32)?;
    let unknown1 = [d[36], d[37], d[38], d[39]];
    let unknown2 = [d[48], d[49], d[50], d[51], d[52], d[53], d[54], d[55]];
    let e = ActiveEffect {
        affected_actor,
        index: #[verifier::truncate] (word_at(d, 8) as i32),
        unknown1,
        magnitude: #[verifier::truncate] (word_at(d, 10) as i32),
        seconds_active: word_at(d, 11),
        unknown2,
        associated_items: Vec::new(),
        summon: None,
        vampirism: Vec::new(),
    };
    proof {
        assert(unknown1@ =~= d@.subrange(36, 40));
        assert(unknown2@ =~= d@.subrange(48, 56));
        assert(e@.associated_items =~= Seq::<EffectAssociatedItemModel>::empty());
        assert(e@.vampirism =~= Seq::<u8>::empty());
    }
    Ok(e)
}

fn read_inam(d: &[u8]) -> (r: Result<EffectAssociatedItem, TesError>)
    ensures
        r is Ok <==> inam_item(d@) is Some,
        r matches Ok(i) ==> i@ == inam_item(d@).unwrap(),
{
    if d.len() < 40 {
        return Err(TesError::UnexpectedEof);
    }
    let id = padded_string_exec(d, 5, 35)?;
    Ok(EffectAssociatedItem { unknown1: #[verifier::truncate] (word_at(d, 0) as i32), unknown2: d[4], id })
}

impl ActiveSpellList {
    /// Gets the active spells
    pub fn iter(&self) -> (r: &[ActiveSpell])
        ensures
            r@.map_values(|s: ActiveSpell| s@) == self@,
    {
        self.0.as_slice()
    }

    fn apply_field(&mut self, field: &Tes3Field) -> (r: Result<(), TesError>)
        ensures
            r is Ok <==> spell_list_step(old(self)@, field@) is Some,
            r is Ok ==> final(self)@ == spell_list_step(old(self)@, field@).unwrap(),
    {
        let name = field.name();
        let d = field.get();
        let ghost old_list = self@;
        if slice_is_tag(name, &NAME) {
            if d.len() != 4 {
                return Err(decode_failed("unexpected data size for a number"));
            }
            let s = ActiveSpell {
                index: #[verifier::truncate] (word_at(d, 0) as i32),
                magic_type: MagicType::Spell,
                id: String::new(),
                unknown1: [0u8; 16],
                caster: String::new(),
                source: String::new(),
                unknown2: [0u8; 44],
                target: None,
                effects: Vec::new(),
            };
            proof {
                let n = new_spell(word(d@, 0) as i32);
                assert(s@.id =~= n.id);
                assert(s@.unknown1 =~= n.unknown1);
                assert(s@.caster =~= n.caster);
                assert(s@.source =~= n.source);
                assert(s@.unknown2 =~= n.unknown2);
                assert(s@.effects =~= n.effects);
            }
            self.0.push(s);
            assert(self@ =~= old_list.push(s@));
            return Ok(());
        } else if slice_is_tag(name, &NAM0) || slice_is_tag(name, &XNAM) {
            return Ok(());
        } else if !(slice_is_tag(name, &SPDT) || slice_is_tag(name, &TNAM) || slice_is_tag(name, &NPDT)
            || slice_is_tag(name, &INAM) || slice_is_tag(name, &CNAM) || slice_is_tag(name, &VNAM)) {
            return Err(decode_failed("Unexpected field in SPLM record"));
        }
        let mut spell = match self.0.pop() {
            Some(s) => s,
            None => {
                return Err(decode_failed("Orphaned field in SPLM record"));
            },
        };
        let ghost before = spell@;
        proof {
            assert(old_list.last() == before);
            assert(self@ =~= old_list.drop_last());
        }
        if slice_is_tag(name, &SPDT) {
            read_spdt(&mut spell, d)?;
        } else if slice_is_tag(name, &TNAM) {
            match crate::strings::str_from_utf8(d) {
                Some(t) => {
                    spell.target = Some(t.to_owned());
                },
                None => {
                    return Err(decode_failed("failed to decode string"));
                },
            }
        } else if slice_is_tag(name, &NPDT) {
            let e = read_npdt(d)?;
            let ghost ev = e@;
            spell.effects.push(e);
            assert(spell@.effects =~= before.effects.push(ev));
        } else {
            let mut effect = match spell.effects.pop() {
                Some(e) => e,
                None => {
                    return Err(decode_failed("Orphaned field in SPLM record"));
                },
            };
            let ghost eb = effect@;
            proof {
                assert(before.effects.last() == eb);
                assert(spell@.effects =~= before.effects.drop_last());
            }
            if slice_is_tag(name, &INAM) {
                let item = read_inam(d)?;
                let ghost iv = item@;
                effect.associated_items.push(item);
                assert(effect@.associated_items =~= eb.associated_items.push(iv));
            } else if slice_is_tag(name, &CNAM) {
                if d.len() < 36 {
                    return Err(TesError::UnexpectedEof);
                }
                let summon = padded_string_exec(d, 4, 32)?;
                effect.summon = Some(summon);
            } else {
                effect.vampirism = vstd::slice::slice_to_vec(d);
            }
            let ghost ea = effect@;
            spell.effects.push(effect);
            assert(spell@.effects =~= before.effects.drop_last().push(ea));
        }
        let ghost sa = spell@;
        self.0.push(spell);
        assert(self@ =~= old_list.drop_last().push(sa));
        Ok(())
    }

    /// Reads the active spells from an `SPLM` record
    ///
    /// Fails if the record is not an `SPLM` record, if a field of another type occurs, if a
    /// field describes a spell or effect before one was started, or if a field's data does not
    /// decode.
    pub fn read(record: &Tes3Record) -> (r: Result<ActiveSpellList, TesError>)
        requires
            record@.status == RecordStatus::Finalized,
        ensures
            r is Ok <==> record@.name == SPLM@ && spell_list_from_fields(record@.fields) is Some,
            r matches Ok(l) ==> l@ == spell_list_from_fields(record@.fields).unwrap(),
    {
        check_record_type(record.name(), &SPLM)?;
        let fields = record.fields();
        let ghost view = record@.fields;
        let ghost step = spell_list_step_fn();
        let mut list = ActiveSpellList(Vec::new());
        proof {
            assert(view.take(0) =~= Seq::<FieldModel>::empty());
            assert(list@ =~= Seq::<ActiveSpellModel>::empty());
        }
        let mut i: usize = 0;
        while i < fields.len()
            invariant
                fields@.map_values(|f: Tes3Field| f@) == view,
                view == record@.fields,
                record@.name == SPLM@,
                step == spell_list_step_fn(),
                i <= fields@.len(),
                fold_fields(Seq::<ActiveSpellModel>::empty(), step, view.take(i as int)) == Some(list@),
            decreases fields@.len() - i,
        {
            let field = &fields[i];
            proof {
                assert(view[i as int] == field@);
                lemma_fold_step(Seq::<ActiveSpellModel>::empty(), step, view, i as int);
            }
            let ghost before = list@;
            match list.apply_field(field) {
                Ok(()) => {
                    assert(step(before, view[i as int]) == Some(list@));
                },
                Err(e) => {
                    proof {
                        assert(step(before, view[i as int]) is None);
                        lemma_fold_none(Seq::<ActiveSpellModel>::empty(), step, view, i + 1);
                    }
                    return Err(e);
                },
            }
            i = i + 1;
        }
        proof {
            assert(view.take(i as int) =~= view);
        }
        Ok(list)
    }
}

} // verus!
