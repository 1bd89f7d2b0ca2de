//! Game settings.

use vstd::prelude::*;

use crate::error::{decode_failed, TesError};
use crate::plugin::{FieldModel, RecordStatus};
use crate::tes3::field::Tes3Field;
use crate::tes3::form::{
    check_record_type, field_string, field_zstring, fold_fields, lemma_fold_none, lemma_fold_step,
    string_value, word, word_at, zstring_value,
};
use crate::tes3::record::Tes3Record;
use crate::bytes::le_value;
use crate::tags::{slice_is_tag, FLTV, GMST, INTV, NAME, STRV};

verus! {

/// Game setting variant - string, int, or float (held as the bits of an `f32`)
pub enum GameSettingValue {
    String(String),
    Int(i32),
    Float(u32),
}

/// The abstract value of a game setting.
pub enum GameSettingValueModel {
    String(Seq<char>),
    Int(i32),
    Float(u32),
}

/// The abstract content of a game setting.
pub struct GameSettingModel {
    pub id: Seq<char>,
    pub value: GameSettingValueModel,
}

/// The setting before any field is read.
pub open spec fn empty_setting() -> GameSettingModel {
    GameSettingModel { id: Seq::empty(), value: GameSettingValueModel::String(Seq::empty()) }
}

/// Reading one field of a game setting record.
pub open spec fn setting_step(c: GameSettingModel, f: FieldModel) -> Option<GameSettingModel> {
    if f.name == NAME@ {
        match string_value(f.data) {
            Some(v) => Some(GameSettingModel { id: v, ..c }),
            None => None,
        }
    } else if f.name == STRV@ {
        match string_value(f.data) {
            Some(v) => Some(GameSettingModel { value: GameSettingValueModel::String(v), ..c }),
            None => None,
        }
    } else if f.name == FLTV@ {
        if f.data.len() == 4 {
            Some(GameSettingModel { value: GameSettingValueModel::Float(le_value(f.data) as u32), ..c })
        } else {
            None
        }
    } else if f.name == INTV@ {
        if f.data.len() == 4 {
            Some(GameSettingModel { value: GameSettingValueModel::Int(le_value(f.data) as i32), ..c })
        } else {
            None
        }
    } else {
        None
    }
}

/// [`setting_step`] as a function value.
pub open spec fn setting_step_fn() -> spec_fn(GameSettingModel, FieldModel) -> Option<GameSettingModel> {
    |c: GameSettingModel, f: FieldModel| setting_step(c, f)
}

/// Game setting
pub struct GameSetting {
    id: String,
    value: GameSettingValue,
}

impl View for GameSetting {
    type V = GameSettingModel;

    closed spec fn view(&self) -> GameSettingModel {
        GameSettingModel {
            id: self.id@,
            value: match self.value {
                GameSettingValue::String(s) => GameSettingValueModel::String(s@),
                GameSettingValue::Int(i) => GameSettingValueModel::Int(i),
                GameSettingValue::Float(b) => GameSettingValueModel::Float(b),
            },
        }
    }
}

impl GameSetting {
    fn empty() -> (r: GameSetting)
        ensures
            r@ == empty_setting(),
    {
        let r = GameSetting { id: String::new(), value: GameSettingValue::String(String::new()) };
        assert(r@.id =~= Seq::<char>::empty());
        assert(r@.value == GameSettingValueModel::String(Seq::empty()));
        r
    }

    fn apply_field(&mut self, field: &Tes3Field) -> (r: Result<(), TesError>)
        ensures
            r is Ok <==> setting_step(old(self)@, field@) is Some,
            r is Ok ==> final(self)@ == setting_step(old(self)@, field@).unwrap(),
    {
        let name = field.name();
        if slice_is_tag(name, &NAME) {
            self.id = field_string(field)?;
        } else if slice_is_tag(name, &STRV) {
            self.value = GameSettingValue::String(field_string(field)?);
        } else if slice_is_tag(name, &FLTV) {
            self.value = GameSettingValue::Float(field.get_f32_bits()?);
        } else if slice_is_tag(name, &INTV) {
            self.value = GameSettingValue::Int(field.get_i32()?);
        } else {
            return Err(decode_failed("Unexpected field in GMST record"));
        }
        Ok(())
    }

    /// Reads a `GMST` record
    ///
    /// Fails if the record has another type, if it holds an unexpected field, or if a field's
    /// data does not decode.
    pub fn read(record: &Tes3Record) -> (r: Result<Self, TesError>)
        requires
            record@.status == RecordStatus::Finalized,
        ensures
            r is Ok <==> record@.name == GMST@ && fold_fields(empty_setting(), setting_step_fn(), record@.fields) is Some,
            r matches Ok(v) ==> v@ == fold_fields(empty_setting(), setting_step_fn(), record@.fields).unwrap(),
    {
        check_record_type(record.name(), &GMST)?;
        let fields = record.fields();
        let ghost view = record@.fields;
        let ghost step = setting_step_fn();
        let mut value = GameSetting::empty();
        let mut i: usize = 0;
        proof {
            assert(view.take(0) =~= Seq::<FieldModel>::empty());
        }
        while i < fields.len()
            invariant
                fields@.map_values(|f: Tes3Field| f@) == view,
                step == setting_step_fn(),
                record@.name == GMST@,
                view == record@.fields,
                i <= fields@.len(),
                fold_fields(empty_setting(), step, view.take(i as int)) == Some(value@),
            decreases fields@.len() - i,
        {
            let field = &fields[i];
            proof {
                assert(view[i as int] == field@);
                lemma_fold_step(empty_setting(), step, view, i as int);
            }
            let ghost before = value@;
            match value.apply_field(field) {
                Ok(()) => {
                    assert(step(before, view[i as int]) == Some(value@));
                },
                Err(e) => {
                    proof {
                        assert(step(before, view[i as int]) is None);
                        lemma_fold_none(empty_setting(), step, view, i + 1);
                    }
                    return Err(e);
                },
            }
            i = i + 1;
        }
        proof {
            assert(view.take(i as int) =~= view);
        }
        Ok(value)
    }

    /// Returns the setting's ID
    pub fn id(&self) -> (r: &str)
        ensures
            r@ == self@.id,
    {
        self.id.as_str()
    }

    /// Gets the value as the bits of a float if it is one
    pub fn get_float_bits(&self) -> (r: Option<u32>)
        ensures
            r == (match self@.value {
                GameSettingValueModel::Float(b) => Some(b),
                _ => None,
            }),
    {
        if let GameSettingValue::Float(value) = self.value {
            Some(value)
        } else {
            None
        }
    }

    /// Gets the value as an integer if it is one
    pub fn get_int(&self) -> (r: Option<i32>)
        ensures
            r == (match self@.value {
                GameSettingValueModel::Int(i) => Some(i),
                _ => None,
            }),
    {
        if let GameSettingValue::Int(value) = self.value {
            Some(value)
        } else {
            None
        }
    }

    /// Gets the value as a string if it is one
    pub fn get_string(&self) -> (r: Option<&str>)
        ensures
            r is Some <==> self@.value is String,
            r matches Some(s) ==> self@.value == GameSettingValueModel::String(s@),
    {
        if let GameSettingValue::String(ref value) = self.value {
            Some(value.as_str())
        } else {
            None
        }
    }
}

} // verus!
