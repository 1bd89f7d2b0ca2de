//! Spells, abilities and diseases.

use vstd::prelude::*;

use crate::error::{decode_failed, TesError};
use crate::plugin::{FieldModel, RecordStatus};
use crate::tes3::field::Tes3Field;
use crate::tes3::form::{
    check_record_type, field_string, field_zstring, fold_fields, lemma_fold_none, lemma_fold_step,
    string_value, word, word_at, zstring_value,
};
use crate::tes3::record::Tes3Record;
use crate::tags::{slice_is_tag, ENAM, FNAM, NAME, SPDT, SPEL};
use crate::tes3::magic::{parse_spell_effect, SpellEffect, SpellEffectModel};

verus! {

/// The kind of a spell
#[derive(Debug, Copy, Clone, PartialEq, Eq, Structural)]
pub enum SpellType {
    Spell,
    Ability,
    Blight,
    Disease,
    Curse,
    Power,
}

impl SpellType {
    /// The number that stands for this value in the file formats
    pub open spec fn index(self) -> u8 {
        match self {
            SpellType::Spell => 0u8,
            SpellType::Ability => 1u8,
            SpellType::Blight => 2u8,
            SpellType::Disease => 3u8,
            SpellType::Curse => 4u8,
            SpellType::Power => 5u8,
        }
    }

    /// The value that a number stands for, if any
    pub open spec fn from_index(v: u8) -> Option<SpellType> {
        match v {
            0u8 => Some(SpellType::Spell),
            1u8 => Some(SpellType::Ability),
            2u8 => Some(SpellType::Blight),
            3u8 => Some(SpellType::Disease),
            4u8 => Some(SpellType::Curse),
            5u8 => Some(SpellType::Power),
            _ => None,
        }
    }

    /// Gets the number that stands for this value
    pub fn to_u8(self) -> (r: u8)
        ensures
            r == self.index(),
    {
        match self {
            SpellType::Spell => 0u8,
            SpellType::Ability => 1u8,
            SpellType::Blight => 2u8,
            SpellType::Disease => 3u8,
            SpellType::Curse => 4u8,
            SpellType::Power => 5u8,
        }
    }

    /// Gets the value that a number stands for, if any
    pub fn try_from_u8(v: u8) -> (r: Option<SpellType>)
        ensures
            r == SpellType::from_index(v),
    {
        match v {
            0u8 => Some(SpellType::Spell),
            1u8 => Some(SpellType::Ability),
            2u8 => Some(SpellType::Blight),
            3u8 => Some(SpellType::Disease),
            4u8 => Some(SpellType::Curse),
            5u8 => Some(SpellType::Power),
            _ => None,
        }
    }

    /// A value's number stands for that value.
    pub proof fn lemma_index_roundtrip(self)
        ensures
            SpellType::from_index(self.index()) == Some(self),
    {
    }

    /// A number that stands for a value is that value's number.
    pub proof fn lemma_from_index_roundtrip(v: u8)
        ensures
            SpellType::from_index(v) matches Some(x) ==> x.index() == v,
    {
    }
}

/// Spell flag: the cost is calculated automatically
pub const SPELL_AUTO_CALC: u32 = 0x01;

/// Spell flag: the player starts with the spell
pub const SPELL_PC_START: u32 = 0x02;

/// Spell flag: casting always succeeds
pub const SPELL_ALWAYS_SUCCEEDS: u32 = 0x04;

/// The abstract content of a spell.
pub struct SpellModel {
    pub id: Seq<char>,
    pub name: Seq<char>,
    pub spell_type: SpellType,
    pub cost: u32,
    pub flags: u32,
    pub effects: Seq<SpellEffectModel>,
}

/// The spell before any field is read.
pub open spec fn empty_spell() -> SpellModel {
    SpellModel {
        id: Seq::empty(),
        name: Seq::empty(),
        spell_type: SpellType::Spell,
        cost: 0,
        flags: 0,
        effects: Seq::empty(),
    }
}

/// The `SPDT` data decodes: a known spell type, the cost, and only known flags.
pub open spec fn spell_data_valid(s: Seq<u8>) -> bool {
    &&& s.len() >= 12
    &&& SpellType::from_index(word(s, 0) as u8) is Some
    &&& word(s, 2) & !7u32 == 0
}

/// Reading one field of a spell record.
pub open spec fn spell_step(c: SpellModel, f: FieldModel) -> Option<SpellModel> {
    if f.name == NAME@ {
        match zstring_value(f.data) {
            Some(v) => Some(SpellModel { id: v, ..c }),
            None => None,
        }
    } else if f.name == FNAM@ {
        match zstring_value(f.data) {
            Some(v) => Some(SpellModel { name: v, ..c }),
            None => None,
        }
    } else if f.name == SPDT@ {
        if spell_data_valid(f.data) {
            Some(
                SpellModel {
                    spell_type: SpellType::from_index(word(f.data, 0) as u8).unwrap(),
                    cost: word(f.data, 1),
                    flags: word(f.data, 2),
                    ..c
                },
            )
        } else {
            None
        }
    } else if f.name == ENAM@ {
        match parse_spell_effect(f.data) {
            Some(e) => Some(SpellModel { effects: c.effects.push(e), ..c }),
            None => None,
        }
    } else {
        None
    }
}

/// [`spell_step`] as a function value.
pub open spec fn spell_step_fn() -> spec_fn(SpellModel, FieldModel) -> Option<SpellModel> {
    |c: SpellModel, f: FieldModel| spell_step(c, f)
}

/// A spell, ability, or disease
pub struct Spell {
    id: String,
    name: String,
    spell_type: SpellType,
    cost: u32,
    flags: u32,
    effects: Vec<SpellEffect>,
}

impl View for Spell {
    type V = SpellModel;

    closed spec fn view(&self) -> SpellModel {
        SpellModel {
            id: self.id@,
            name: self.name@,
            spell_type: self.spell_type,
            cost: self.cost,
            flags: self.flags,
            effects: self.effects@.map_values(|e: SpellEffect| e@),
        }
    }
}

impl Spell {
    fn empty() -> (r: Spell)
        ensures
            r@ == empty_spell(),
    {
        let r = Spell {
            id: String::new(),
            name: String::new(),
            spell_type: SpellType::Spell,
            cost: 0,
            flags: 0,
            effects: Vec::new(),
        };
        assert(r@.effects =~= Seq::<SpellEffectModel>::empty());
        assert(r@.id =~= Seq::<char>::empty());
        assert(r@.name =~= Seq::<char>::empty());
        r
    }

    fn apply_field(&mut self, field: &Tes3Field) -> (r: Result<(), TesError>)
        ensures
            r is Ok <==> spell_step(old(self)@, field@) is Some,
            r is Ok ==> final(self)@ == spell_step(old(self)@, field@).unwrap(),
    {
        let name = field.name();
        if slice_is_tag(name, &NAME) {
            self.id = field_zstring(field)?;
        } else if slice_is_tag(name, &FNAM) {
            self.name = field_zstring(field)?;
        } else if slice_is_tag(name, &SPDT) {
            let data = field.get();
            if data.len() < 12 {
                return Err(TesError::UnexpectedEof);
            }
            let spell_type = match SpellType::try_from_u8(word_at(data, 0) as u8) {
                Some(t) => t,
                None => {
                    return Err(decode_failed("Invalid spell type"));
                },
            };
            let flags = word_at(data, 2);
            if flags & !7u32 != 0 {
                return Err(decode_failed("Invalid spell flags"));
            }
            self.spell_type = spell_type;
            self.cost = word_at(data, 1);
            self.flags = flags;
        } else if slice_is_tag(name, &ENAM) {
            let effect = SpellEffect::read(field.get())?;
            self.effects.push(effect);
            assert(self@.effects =~= old(self)@.effects.push(effect@));
        } else {
            return Err(decode_failed("Unexpected field in SPEL record"));
        }
        Ok(())
    }

    /// Reads a `SPEL` record
    ///
    /// Fails if the record has another type, if it holds an unexpected field, or if a field's
    /// data does not decode.
    pub fn read(record: &Tes3Record) -> (r: Result<Self, TesError>)
        requires
            record@.status == RecordStatus::Finalized,
        ensures
            r is Ok <==> record@.name == SPEL@ && fold_fields(empty_spell(), spell_step_fn(), record@.fields) is Some,
            r matches Ok(v) ==> v@ == fold_fields(empty_spell(), spell_step_fn(), record@.fields).unwrap(),
    {
        check_record_type(record.name(), &SPEL)?;
        let fields = record.fields();
        let ghost view = record@.fields;
        let ghost step = spell_step_fn();
        let mut value = Spell::empty();
        let mut i: usize = 0;
        proof {
            assert(view.take(0) =~= Seq::<FieldModel>::empty());
        }
        while i < fields.len()
            invariant
                fields@.map_values(|f: Tes3Field| f@) == view,
                step == spell_step_fn(),
                record@.name == SPEL@,
                view == record@.fields,
                i <= fields@.len(),
                fold_fields(empty_spell(), step, view.take(i as int)) == Some(value@),
            decreases fields@.len() - i,
        {
            let field = &fields[i];
            proof {
                assert(view[i as int] == field@);
                lemma_fold_step(empty_spell(), step, view, i as int);
            }
            let ghost before = value@;
            match value.apply_field(field) {
                Ok(()) => {
                    assert(step(before, view[i as int]) == Some(value@));
                },
                Err(e) => {
                    proof {
                        assert(step(before, view[i as int]) is None);
                        lemma_fold_none(empty_spell(), step, view, i + 1);
                    }
                    return Err(e);
                },
            }
            i = i + 1;
        }
        proof {
            assert(view.take(i as int) =~= view);
        }
        Ok(value)
    }

    /// Returns the spell's ID
    pub fn id(&self) -> (r: &str)
        ensures
            r@ == self@.id,
    {
        self.id.as_str()
    }

    /// Returns the spell's name
    pub fn name(&self) -> (r: &str)
        ensures
            r@ == self@.name,
    {
        self.name.as_str()
    }

    /// Returns the kind of spell
    pub fn spell_type(&self) -> (r: SpellType)
        ensures
            r == self@.spell_type,
    {
        self.spell_type
    }

    /// Returns the spell's cost
    pub fn cost(&self) -> (r: u32)
        ensures
            r == self@.cost,
    {
        self.cost
    }

    /// Is this spell's cost auto-calculated?
    pub fn is_auto_calc(&self) -> (r: bool)
        ensures
            r == (self@.flags & SPELL_AUTO_CALC != 0),
    {
        self.flags & SPELL_AUTO_CALC != 0
    }

    /// Is this a player start spell?
    pub fn is_player_start_spell(&self) -> (r: bool)
        ensures
            r == (self@.flags & SPELL_PC_START != 0),
    {
        self.flags & SPELL_PC_START != 0
    }

    /// Does casting this spell always succeed?
    pub fn always_succeeds(&self) -> (r: bool)
        ensures
            r == (self@.flags & SPELL_ALWAYS_SUCCEEDS != 0),
    {
        self.flags & SPELL_ALWAYS_SUCCEEDS != 0
    }

    /// Returns this spell's effects
    pub fn effects(&self) -> (r: &[SpellEffect])
        ensures
            r@.map_values(|e: SpellEffect| e@) == self@.effects,
    {
        self.effects.as_slice()
    }
}

} // verus!
