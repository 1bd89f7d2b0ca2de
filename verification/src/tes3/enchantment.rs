//! Enchantments.

use vstd::prelude::*;

use crate::error::{decode_failed, TesError};
use crate::plugin::{FieldModel, RecordStatus};
use crate::tes3::field::Tes3Field;
use crate::tes3::form::{
    check_record_type, field_string, field_zstring, fold_fields, lemma_fold_none, lemma_fold_step,
    string_value, word, word_at, zstring_value,
};
use crate::tes3::record::Tes3Record;
use crate::tags::{slice_is_tag, ENAM, ENCH, ENDT, NAME};
use crate::tes3::magic::{parse_spell_effect, SpellEffect, SpellEffectModel};

verus! {

/// How an enchantment is triggered
#[derive(Debug, Copy, Clone, PartialEq, Eq, Structural)]
pub enum EnchantmentType {
    CastOnce,
    CastWhenStrikes,
    CastWhenUsed,
    ConstantEffect,
}

impl EnchantmentType {
    /// The number that stands for this value in the file formats
    pub open spec fn index(self) -> u8 {
        match self {
            EnchantmentType::CastOnce => 0u8,
            EnchantmentType::CastWhenStrikes => 1u8,
            EnchantmentType::CastWhenUsed => 2u8,
            EnchantmentType::ConstantEffect => 3u8,
        }
    }

    /// The value that a number stands for, if any
    pub open spec fn from_index(v: u8) -> Option<EnchantmentType> {
        match v {
            0u8 => Some(EnchantmentType::CastOnce),
            1u8 => Some(EnchantmentType::CastWhenStrikes),
            2u8 => Some(EnchantmentType::CastWhenUsed),
            3u8 => Some(EnchantmentType::ConstantEffect),
            _ => None,
        }
    }

    /// Gets the number that stands for this value
    pub fn to_u8(self) -> (r: u8)
        ensures
            r == self.index(),
    {
        match self {
            EnchantmentType::CastOnce => 0u8,
            EnchantmentType::CastWhenStrikes => 1u8,
            EnchantmentType::CastWhenUsed => 2u8,
            EnchantmentType::ConstantEffect => 3u8,
        }
    }

    /// Gets the value that a number stands for, if any
    pub fn try_from_u8(v: u8) -> (r: Option<EnchantmentType>)
        ensures
            r == EnchantmentType::from_index(v),
    {
        match v {
            0u8 => Some(EnchantmentType::CastOnce),
            1u8 => Some(EnchantmentType::CastWhenStrikes),
            2u8 => Some(EnchantmentType::CastWhenUsed),
            3u8 => Some(EnchantmentType::ConstantEffect),
            _ => None,
        }
    }

    /// A value's number stands for that value.
    pub proof fn lemma_index_roundtrip(self)
        ensures
            EnchantmentType::from_index(self.index()) == Some(self),
    {
    }

    /// A number that stands for a value is that value's number.
    pub proof fn lemma_from_index_roundtrip(v: u8)
        ensures
            EnchantmentType::from_index(v) matches Some(x) ==> x.index() == v,
    {
    }
}

/// The enchantment type held in a `u32`.
pub open spec fn enchantment_type_of(w: u32) -> Option<EnchantmentType> {
    if w < 256 {
        EnchantmentType::from_index(w as u8)
    } else {
        None
    }
}

/// Enchantment data from the `ENDT` field
#[derive(Debug, Copy, Clone, PartialEq, Eq, Structural)]
pub struct EnchantmentData {
    pub enchantment_type: EnchantmentType,
    pub cost: u32,
    pub charge: u32,
    pub is_auto_calc: bool,
}

/// The enchantment data before an `ENDT` field is read.
pub open spec fn default_enchantment_data() -> EnchantmentData {
    EnchantmentData {
        enchantment_type: EnchantmentType::CastOnce,
        cost: 0,
        charge: 0,
        is_auto_calc: false,
    }
}

/// Decodes the 16 bytes of enchantment data: type, cost, charge and flags, one `u32` each, of
/// which the lowest bit of the flags is the auto-calculation flag.
pub open spec fn parse_enchantment_data(s: Seq<u8>) -> Option<EnchantmentData> {
    if s.len() < 16 {
        None
    } else {
        match enchantment_type_of(word(s, 0)) {
            None => None,
            Some(t) => Some(
                EnchantmentData {
                    enchantment_type: t,
                    cost: word(s, 1),
                    charge: word(s, 2),
                    is_auto_calc: word(s, 3) & 1 != 0,
                },
            ),
        }
    }
}

impl EnchantmentData {
    /// Decodes the 16 bytes of enchantment data at the front of `data`
    pub fn read(data: &[u8]) -> (r: Result<EnchantmentData, TesError>)
        ensures
            r is Ok <==> parse_enchantment_data(data@) is Some,
            r matches Ok(d) ==> parse_enchantment_data(data@) == Some(d),
    {
        if data.len() < 16 {
            return Err(TesError::UnexpectedEof);
        }
        let w = word_at(data, 0);
        let t = if w < 256 {
            EnchantmentType::try_from_u8(w as u8)
        } else {
            None
        };
        match t {
            None => Err(decode_failed("Invalid enchantment type")),
            Some(t) => Ok(
                EnchantmentData {
                    enchantment_type: t,
                    cost: word_at(data, 1),
                    charge: word_at(data, 2),
                    is_auto_calc: word_at(data, 3) & 1 != 0,
                },
            ),
        }
    }
}

/// The abstract content of an enchantment.
pub struct EnchantmentModel {
    pub id: Seq<char>,
    pub data: EnchantmentData,
    pub effects: Seq<SpellEffectModel>,
}

/// The enchantment before any field is read.
pub open spec fn empty_enchantment() -> EnchantmentModel {
    EnchantmentModel { id: Seq::empty(), data: default_enchantment_data(), effects: Seq::empty() }
}

/// Reading one field of an enchantment record.
pub open spec fn enchantment_step(c: EnchantmentModel, f: FieldModel) -> Option<EnchantmentModel> {
    if f.name == NAME@ {
        match zstring_value(f.data) {
            Some(v) => Some(EnchantmentModel { id: v, ..c }),
            None => None,
        }
    } else if f.name == ENDT@ {
        match parse_enchantment_data(f.data) {
            Some(d) => Some(EnchantmentModel { data: d, ..c }),
            None => None,
        }
    } else if f.name == ENAM@ {
        match parse_spell_effect(f.data) {
            Some(e) => Some(EnchantmentModel { effects: c.effects.push(e), ..c }),
            None => None,
        }
    } else {
        None
    }
}

/// [`enchantment_step`] as a function value.
pub open spec fn enchantment_step_fn() -> spec_fn(EnchantmentModel, FieldModel) -> Option<EnchantmentModel> {
    |c: EnchantmentModel, f: FieldModel| enchantment_step(c, f)
}

/// An enchantment
pub struct Enchantment {
    /// The enchantment's ID
    pub id: String,
    /// The enchantment's data
    pub data: EnchantmentData,
    effects: Vec<SpellEffect>,
}

impl View for Enchantment {
    type V = EnchantmentModel;

    closed spec fn view(&self) -> EnchantmentModel {
        EnchantmentModel {
            id: self.id@,
            data: self.data,
            effects: self.effects@.map_values(|e: SpellEffect| e@),
        }
    }
}

impl Enchantment {
    fn empty() -> (r: Enchantment)
        ensures
            r@ == empty_enchantment(),
    {
        let r = Enchantment {
            id: String::new(),
            data: EnchantmentData {
                enchantment_type: EnchantmentType::CastOnce,
                cost: 0,
                charge: 0,
                is_auto_calc: false,
            },
            effects: Vec::new(),
        };
        assert(r@.effects =~= Seq::<SpellEffectModel>::empty());
        assert(r@.id =~= Seq::<char>::empty());
        r
    }

    fn apply_field(&mut self, field: &Tes3Field) -> (r: Result<(), TesError>)
        ensures
            r is Ok <==> enchantment_step(old(self)@, field@) is Some,
            r is Ok ==> final(self)@ == enchantment_step(old(self)@, field@).unwrap(),
    {
        let name = field.name();
        if slice_is_tag(name, &NAME) {
            self.id = field_zstring(field)?;
        } else if slice_is_tag(name, &ENDT) {
            self.data = EnchantmentData::read(field.get())?;
        } else if slice_is_tag(name, &ENAM) {
            let effect = SpellEffect::read(field.get())?;
            self.add_effect(effect);
        } else {
            return Err(decode_failed("Unexpected field in ENCH record"));
        }
        Ok(())
    }

    /// Reads a `ENCH` record
    ///
    /// Fails if the record has another type, if it holds an unexpected field, or if a field's
    /// data does not decode.
    pub fn read(record: &Tes3Record) -> (r: Result<Self, TesError>)
        requires
            record@.status == RecordStatus::Finalized,
        ensures
            r is Ok <==> record@.name == ENCH@ && fold_fields(empty_enchantment(), enchantment_step_fn(), record@.fields) is Some,
            r matches Ok(v) ==> v@ == fold_fields(empty_enchantment(), enchantment_step_fn(), record@.fields).unwrap(),
    {
        check_record_type(record.name(), &ENCH)?;
        let fields = record.fields();
        let ghost view = record@.fields;
        let ghost step = enchantment_step_fn();
        let mut value = Enchantment::empty();
        let mut i: usize = 0;
        proof {
            assert(view.take(0) =~= Seq::<FieldModel>::empty());
        }
        while i < fields.len()
            invariant
                fields@.map_values(|f: Tes3Field| f@) == view,
                step == enchantment_step_fn(),
                record@.name == ENCH@,
                view == record@.fields,
                i <= fields@.len(),
                fold_fields(empty_enchantment(), step, view.take(i as int)) == Some(value@),
            decreases fields@.len() - i,
        {
            let field = &fields[i];
            proof {
                assert(view[i as int] == field@);
                lemma_fold_step(empty_enchantment(), step, view, i as int);
            }
            let ghost before = value@;
            match value.apply_field(field) {
                Ok(()) => {
                    assert(step(before, view[i as int]) == Some(value@));
                },
                Err(e) => {
                    proof {
                        assert(step(before, view[i as int]) is None);
                        lemma_fold_none(empty_enchantment(), step, view, i + 1);
                    }
                    return Err(e);
                },
            }
            i = i + 1;
        }
        proof {
            assert(view.take(i as int) =~= view);
        }
        Ok(value)
    }

    /// Returns this enchantment's effects
    pub fn iter_effects(&self) -> (r: &[SpellEffect])
        ensures
            r@.map_values(|e: SpellEffect| e@) == self@.effects,
    {
        self.effects.as_slice()
    }

    /// Adds an effect to this enchantment
    pub fn add_effect(&mut self, effect: SpellEffect)
        ensures
            final(self)@ == (EnchantmentModel { effects: old(self)@.effects.push(effect@), ..old(self)@ }),
    {
        self.effects.push(effect);
        assert(self@.effects =~= old(self)@.effects.push(effect@));
    }
}

} // verus!
