//! Potions, as held by `ALCH` records.

use vstd::prelude::*;

use crate::error::{decode_failed, TesError};
use crate::plugin::{FieldModel, RecordStatus};
use crate::tags::{slice_is_tag, ALCH, ALDT, ENAM, FNAM, MODL, NAME, SCRI, TEXT};
use crate::tes3::field::Tes3Field;
use crate::tes3::form::{
    check_record_type, field_zstring, fold_fields, lemma_fold_none, lemma_fold_step, zstring_value,
};
use crate::tes3::magic::{parse_spell_effect, SpellEffect, SpellEffectModel};
use crate::tes3::package::opt_chars;
use crate::tes3::player::{u32_at, u32_at_exec};
use crate::tes3::record::Tes3Record;

verus! {

/// A potion's stats, as held by its `ALDT` field; the weight is the bits of an `f32`
#[derive(Debug, Default, Copy, Clone, PartialEq, Eq, Structural)]
pub struct AlchemyData {
    pub weight: u32,
    pub value: u32,
    pub is_auto_calc: bool,
}

/// The stats held by the 12 bytes of `ALDT` data: weight, value, and an auto-calculation flag
/// (any nonzero `u32`).
pub open spec fn alchemy_data_from(d: Seq<u8>) -> AlchemyData {
    AlchemyData { weight: u32_at(d, 0), value: u32_at(d, 4), is_auto_calc: u32_at(d, 8) != 0 }
}

impl AlchemyData {
    /// Decodes a potion's stats from `ALDT` data
    ///
    /// Fails with [`TesError::UnexpectedEof`] if the data is shorter than 12 bytes.
    pub fn from_bytes(d: &[u8]) -> (r: Result<AlchemyData, TesError>)
        ensures
            r is Ok <==> d@.len() >= 12,
            r matches Ok(a) ==> a == alchemy_data_from(d@),
    {
        if d.len() < 12 {
            return Err(TesError::UnexpectedEof);
        }
        Ok(
            AlchemyData {
                weight: u32_at_exec(d, 0),
                value: u32_at_exec(d, 4),
                is_auto_calc: u32_at_exec(d, 8) != 0,
            },
        )
    }
}

/// The abstract content of a potion.
pub struct PotionModel {
    pub id: Seq<char>,
    pub model: Option<Seq<char>>,
    pub icon: Option<Seq<char>>,
    pub script: Option<Seq<char>>,
    pub name: Option<Seq<char>>,
    pub alchemy_data: AlchemyData,
    pub effects: Seq<SpellEffectModel>,
}

/// The potion before any field is read.
pub open spec fn empty_potion() -> PotionModel {
    PotionModel {
        id: Seq::empty(),
        model: None,
        icon: None,
        script: None,
        name: None,
        alchemy_data: AlchemyData { weight: 0, value: 0, is_auto_calc: false },
        effects: Seq::empty(),
    }
}

/// Reading one field of a potion record; `TEXT` holds the icon, and each `ENAM` an effect.
pub open spec fn potion_step(p: PotionModel, f: FieldModel) -> Option<PotionModel> {
    if f.name == ALDT@ {
        if f.data.len() >= 12 {
            Some(PotionModel { alchemy_data: alchemy_data_from(f.data), ..p })
        } else {
            None
        }
    } else if f.name == ENAM@ {
        match parse_spell_effect(f.data) {
            Some(e) => Some(PotionModel { effects: p.effects.push(e), ..p }),
            None => None,
        }
    } else {
        match zstring_value(f.data) {
            Some(v) => if f.name == NAME@ {
                Some(PotionModel { id: v, ..p })
            } else if f.name == MODL@ {
                Some(PotionModel { model: Some(v), ..p })
            } else if f.name == TEXT@ {
                Some(PotionModel { icon: Some(v), ..p })
            } else if f.name == SCRI@ {
                Some(PotionModel { script: Some(v), ..p })
            } else if f.name == FNAM@ {
                Some(PotionModel { name: Some(v), ..p })
            } else {
                None
            },
            None => None,
        }
    }
}

/// [`potion_step`] as a function value.
pub open spec fn potion_step_fn() -> spec_fn(PotionModel, FieldModel) -> Option<PotionModel> {
    |p: PotionModel, f: FieldModel| potion_step(p, f)
}

/// A Morrowind potion
pub struct Potion {
    id: String,
    model: Option<String>,
    icon: Option<String>,
    script: Option<String>,
    name: Option<String>,
    pub alchemy_data: AlchemyData,
    effects: Vec<SpellEffect>,
}

impl View for Potion {
    type V = PotionModel;

    closed spec fn view(&self) -> PotionModel {
        PotionModel {
            id: self.id@,
            model: opt_chars(self.model),
            icon: opt_chars(self.icon),
            script: opt_chars(self.script),
            name: opt_chars(self.name),
            alchemy_data: self.alchemy_data,
            effects: self.effects@.map_values(|e: SpellEffect| e@),
        }
    }
}

/// Borrows an optional string as an optional `&str`.
fn opt_str(o: &Option<String>) -> (r: Option<&str>)
    ensures
        r is Some <==> o is Some,
        r matches Some(s) ==> s@ == o.unwrap()@,
{
    match o {
        Some(s) => Some(s.as_str()),
        None => None,
    }
}

impl Potion {
    fn empty() -> (r: Potion)
        ensures
            r@ == empty_potion(),
    {
        let r = Potion {
            id: String::new(),
            model: None,
            icon: None,
            script: None,
            name: None,
            alchemy_data: AlchemyData { weight: 0, value: 0, is_auto_calc: false },
            effects: Vec::new(),
        };
        assert(r@.id =~= Seq::<char>::empty());
        assert(r@.effects =~= Seq::<SpellEffectModel>::empty());
        r
    }

    fn apply_field(&mut self, field: &Tes3Field) -> (r: Result<(), TesError>)
        ensures
            r is Ok <==> potion_step(old(self)@, field@) is Some,
            r is Ok ==> final(self)@ == potion_step(old(self)@, field@).unwrap(),
    {
        let name = field.name();
        if slice_is_tag(name, &ALDT) {
            self.alchemy_data = AlchemyData::from_bytes(field.get())?;
            return Ok(());
        }
        if slice_is_tag(name, &ENAM) {
            let effect = SpellEffect::read(field.get())?;
            self.effects.push(effect);
            assert(self@.effects =~= old(self)@.effects.push(effect@));
            return Ok(());
        }
        let value = field_zstring(field)?;
        if slice_is_tag(name, &NAME) {
            self.id = value;
        } else if slice_is_tag(name, &MODL) {
            self.model = Some(value);
        } else if slice_is_tag(name, &TEXT) {
            self.icon = Some(value);
        } else if slice_is_tag(name, &SCRI) {
            self.script = Some(value);
        } else if slice_is_tag(name, &FNAM) {
            self.name = Some(value);
        } else {
            return Err(decode_failed("Unexpected field in ALCH record"));
        }
        Ok(())
    }

    /// Reads a `ALCH` record
    ///
    /// Fails if the record has another type, if it holds an unexpected field, or if a field's
    /// data does not decode.
    pub fn read(record: &Tes3Record) -> (r: Result<Potion, TesError>)
        requires
            record@.status == RecordStatus::Finalized,
        ensures
            r is Ok <==> record@.name == ALCH@ && fold_fields(empty_potion(), potion_step_fn(), record@.fields) is Some,
            r matches Ok(v) ==> v@ == fold_fields(empty_potion(), potion_step_fn(), record@.fields).unwrap(),
    {
        check_record_type(record.name(), &ALCH)?;
        let fields = record.fields();
        let ghost view = record@.fields;
        let ghost step = potion_step_fn();
        let mut value = Potion::empty();
        let mut i: usize = 0;
        proof {
            assert(view.take(0) =~= Seq::<FieldModel>::empty());
        }
        while i < fields.len()
            invariant
                fields@.map_values(|f: Tes3Field| f@) == view,
                step == potion_step_fn(),
                record@.name == ALCH@,
                view == record@.fields,
                i <= fields@.len(),
                fold_fields(empty_potion(), step, view.take(i as int)) == Some(value@),
            decreases fields@.len() - i,
        {
            let field = &fields[i];
            proof {
                assert(view[i as int] == field@);
                lemma_fold_step(empty_potion(), step, view, i as int);
            }
            let ghost before = value@;
            match value.apply_field(field) {
                Ok(()) => {
                    assert(step(before, view[i as int]) == Some(value@));
                },
                Err(e) => {
                    proof {
                        assert(step(before, view[i as int]) is None);
                        lemma_fold_none(empty_potion(), step, view, i + 1);
                    }
                    return Err(e);
                },
            }
            i = i + 1;
        }
        proof {
            assert(view.take(i as int) =~= view);
        }
        Ok(value)
    }

    /// Get this item's ID
    pub fn id(&self) -> (r: &str)
        ensures
            r@ == self@.id,
    {
        self.id.as_str()
    }

    /// Set this item's ID
    pub fn set_id(&mut self, id: String)
        ensures
            final(self)@ == (PotionModel { id: id@, ..old(self)@ }),
    {
        self.id = id;
    }

    /// Get this item's NIF model, if any
    pub fn model(&self) -> (r: Option<&str>)
        ensures
            r is Some <==> self@.model is Some,
            r matches Some(s) ==> self@.model == Some(s@),
    {
        opt_str(&self.model)
    }

    /// Set this item's NIF model
    pub fn set_model(&mut self, model: Option<String>)
        ensures
            final(self)@ == (PotionModel { model: opt_chars(model), ..old(self)@ }),
    {
        self.model = model;
    }

    /// Get this item's name, if any
    pub fn name(&self) -> (r: Option<&str>)
        ensures
            r is Some <==> self@.name is Some,
            r matches Some(s) ==> self@.name == Some(s@),
    {
        opt_str(&self.name)
    }

    /// Set this item's name
    pub fn set_name(&mut self, name: Option<String>)
        ensures
            final(self)@ == (PotionModel { name: opt_chars(name), ..old(self)@ }),
    {
        self.name = name;
    }

    /// Get this item's script, if any
    pub fn script(&self) -> (r: Option<&str>)
        ensures
            r is Some <==> self@.script is Some,
            r matches Some(s) ==> self@.script == Some(s@),
    {
        opt_str(&self.script)
    }

    /// Set this item's script
    pub fn set_script(&mut self, script: Option<String>)
        ensures
            final(self)@ == (PotionModel { script: opt_chars(script), ..old(self)@ }),
    {
        self.script = script;
    }

    /// Get this item's icon texture, if any
    pub fn icon(&self) -> (r: Option<&str>)
        ensures
            r is Some <==> self@.icon is Some,
            r matches Some(s) ==> self@.icon == Some(s@),
    {
        opt_str(&self.icon)
    }

    /// Set this item's icon texture
    pub fn set_icon(&mut self, icon: Option<String>)
        ensures
            final(self)@ == (PotionModel { icon: opt_chars(icon), ..old(self)@ }),
    {
        self.icon = icon;
    }

    /// Get the bits of this item's `f32` weight
    pub fn weight_bits(&self) -> (r: u32)
        ensures
            r == self@.alchemy_data.weight,
    {
        self.alchemy_data.weight
    }

    /// Set this item's weight from the bits of an `f32`
    pub fn set_weight_bits(&mut self, weight: u32)
        ensures
            final(self)@ == (PotionModel { alchemy_data: AlchemyData { weight, ..old(self)@.alchemy_data }, ..old(self)@ }),
    {
        self.alchemy_data.weight = weight;
    }

    /// Get this item's value
    pub fn value(&self) -> (r: u32)
        ensures
            r == self@.alchemy_data.value,
    {
        self.alchemy_data.value
    }

    /// Set this item's value
    pub fn set_value(&mut self, value: u32)
        ensures
            final(self)@ == (PotionModel { alchemy_data: AlchemyData { value, ..old(self)@.alchemy_data }, ..old(self)@ }),
    {
        self.alchemy_data.value = value;
    }

    /// Gets this potion's effects
    pub fn iter_effects(&self) -> (r: &[SpellEffect])
        ensures
            r@.map_values(|e: SpellEffect| e@) == self@.effects,
    {
        self.effects.as_slice()
    }

    /// Adds an effect to this potion
    pub fn add_effect(&mut self, effect: SpellEffect)
        ensures
            final(self)@ == (PotionModel { effects: old(self)@.effects.push(effect@), ..old(self)@ }),
    {
        let ghost e = effect@;
        self.effects.push(effect);
        assert(self@.effects =~= old(self)@.effects.push(e));
    }
}

} // verus!
