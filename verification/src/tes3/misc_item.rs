//! Miscellaneous items.

use vstd::prelude::*;

use crate::error::{decode_failed, TesError};
use crate::plugin::{FieldModel, RecordStatus};
use crate::tes3::field::Tes3Field;
use crate::tes3::form::{
    check_record_type, field_string, field_zstring, fold_fields, lemma_fold_none, lemma_fold_step,
    string_value, word, word_at, zstring_value,
};
use crate::tes3::record::Tes3Record;
use crate::tags::{slice_is_tag, FNAM, ITEX, MCDT, MISC, MODL, NAME, SCRI};

verus! {

/// The abstract content of a miscellaneous item.
pub struct MiscItemModel {
    pub id: Seq<char>,
    pub model: Seq<char>,
    pub name: Option<Seq<char>>,
    /// The bits of the item's `f32` weight
    pub weight: u32,
    pub value: u32,
    pub unknown: u32,
    pub script: Option<Seq<char>>,
    pub icon: Option<Seq<char>>,
}

/// The item before any field is read.
pub open spec fn empty_misc_item() -> MiscItemModel {
    MiscItemModel {
        id: Seq::empty(),
        model: Seq::empty(),
        name: None,
        weight: 0,
        value: 0,
        unknown: 0,
        script: None,
        icon: None,
    }
}

/// Reading one field of a miscellaneous item record.
pub open spec fn misc_item_step(c: MiscItemModel, f: FieldModel) -> Option<MiscItemModel> {
    if f.name == NAME@ {
        match zstring_value(f.data) {
            Some(v) => Some(MiscItemModel { id: v, ..c }),
            None => None,
        }
    } else if f.name == MODL@ {
        match zstring_value(f.data) {
            Some(v) => Some(MiscItemModel { model: v, ..c }),
            None => None,
        }
    } else if f.name == FNAM@ {
        match zstring_value(f.data) {
            Some(v) => Some(MiscItemModel { name: Some(v), ..c }),
            None => None,
        }
    } else if f.name == MCDT@ {
        if f.data.len() >= 12 {
            Some(
                MiscItemModel {
                    weight: word(f.data, 0),
                    value: word(f.data, 1),
                    unknown: word(f.data, 2),
                    ..c
                },
            )
        } else {
            None
        }
    } else if f.name == SCRI@ {
        match zstring_value(f.data) {
            Some(v) => Some(MiscItemModel { script: Some(v), ..c }),
            None => None,
        }
    } else if f.name == ITEX@ {
        match zstring_value(f.data) {
            Some(v) => Some(MiscItemModel { icon: Some(v), ..c }),
            None => None,
        }
    } else {
        None
    }
}

/// [`misc_item_step`] as a function value.
pub open spec fn misc_item_step_fn() -> spec_fn(MiscItemModel, FieldModel) -> Option<MiscItemModel> {
    |c: MiscItemModel, f: FieldModel| misc_item_step(c, f)
}

/// A miscellaneous item
pub struct MiscItem {
    id: String,
    model: String,
    name: Option<String>,
    weight: u32,
    value: u32,
    unknown: u32,
    script: Option<String>,
    icon: Option<String>,
}

impl View for MiscItem {
    type V = MiscItemModel;

    closed spec fn view(&self) -> MiscItemModel {
        MiscItemModel {
            id: self.id@,
            model: self.model@,
            name: match self.name {
                Some(v) => Some(v@),
                None => None,
            },
            weight: self.weight,
            value: self.value,
            unknown: self.unknown,
            script: match self.script {
                Some(v) => Some(v@),
                None => None,
            },
            icon: match self.icon {
                Some(v) => Some(v@),
                None => None,
            },
        }
    }
}

/// The view of an optional string.
pub open spec fn opt_chars(s: Option<String>) -> Option<Seq<char>> {
    match s {
        Some(v) => Some(v@),
        None => None,
    }
}

impl MiscItem {
    fn empty() -> (r: MiscItem)
        ensures
            r@ == empty_misc_item(),
    {
        let r = MiscItem {
            id: String::new(),
            model: String::new(),
            name: None,
            weight: 0,
            value: 0,
            unknown: 0,
            script: None,
            icon: None,
        };
        assert(r@.id =~= Seq::<char>::empty());
        assert(r@.model =~= Seq::<char>::empty());
        r
    }

    fn apply_field(&mut self, field: &Tes3Field) -> (r: Result<(), TesError>)
        ensures
            r is Ok <==> misc_item_step(old(self)@, field@) is Some,
            r is Ok ==> final(self)@ == misc_item_step(old(self)@, field@).unwrap(),
    {
        let name = field.name();
        if slice_is_tag(name, &NAME) {
            self.id = field_zstring(field)?;
        } else if slice_is_tag(name, &MODL) {
            self.model = field_zstring(field)?;
        } else if slice_is_tag(name, &FNAM) {
            self.name = Some(field_zstring(field)?);
        } else if slice_is_tag(name, &MCDT) {
            let data = field.get();
            if data.len() < 12 {
                return Err(TesError::UnexpectedEof);
            }
            self.weight = word_at(data, 0);
            self.value = word_at(data, 1);
            self.unknown = word_at(data, 2);
        } else if slice_is_tag(name, &SCRI) {
            self.script = Some(field_zstring(field)?);
        } else if slice_is_tag(name, &ITEX) {
            self.icon = Some(field_zstring(field)?);
        } else {
            return Err(decode_failed("Unexpected field in MISC record"));
        }
        Ok(())
    }

    /// Reads a `MISC` record
    ///
    /// Fails if the record has another type, if it holds an unexpected field, or if a field's
    /// data does not decode.
    pub fn read(record: &Tes3Record) -> (r: Result<Self, TesError>)
        requires
            record@.status == RecordStatus::Finalized,
        ensures
            r is Ok <==> record@.name == MISC@ && fold_fields(empty_misc_item(), misc_item_step_fn(), record@.fields) is Some,
            r matches Ok(v) ==> v@ == fold_fields(empty_misc_item(), misc_item_step_fn(), record@.fields).unwrap(),
    {
        check_record_type(record.name(), &MISC)?;
        let fields = record.fields();
        let ghost view = record@.fields;
        let ghost step = misc_item_step_fn();
        let mut value = MiscItem::empty();
        let mut i: usize = 0;
        proof {
            assert(view.take(0) =~= Seq::<FieldModel>::empty());
        }
        while i < fields.len()
            invariant
                fields@.map_values(|f: Tes3Field| f@) == view,
                step == misc_item_step_fn(),
                record@.name == MISC@,
                view == record@.fields,
                i <= fields@.len(),
                fold_fields(empty_misc_item(), step, view.take(i as int)) == Some(value@),
            decreases fields@.len() - i,
        {
            let field = &fields[i];
            proof {
                assert(view[i as int] == field@);
                lemma_fold_step(empty_misc_item(), step, view, i as int);
            }
            let ghost before = value@;
            match value.apply_field(field) {
                Ok(()) => {
                    assert(step(before, view[i as int]) == Some(value@));
                },
                Err(e) => {
                    proof {
                        assert(step(before, view[i as int]) is None);
                        lemma_fold_none(empty_misc_item(), step, view, i + 1);
                    }
                    return Err(e);
                },
            }
            i = i + 1;
        }
        proof {
            assert(view.take(i as int) =~= view);
        }
        Ok(value)
    }

    /// Get this item's ID
    pub fn id(&self) -> (r: &str)
        ensures
            r@ == self@.id,
    {
        self.id.as_str()
    }

    /// Set this item's ID
    pub fn set_id(&mut self, id: String)
        ensures
            final(self)@ == (MiscItemModel { id: id@, ..old(self)@ }),
    {
        self.id = id;
    }

    /// Get this item's NIF model
    pub fn model(&self) -> (r: Option<&str>)
        ensures
            r matches Some(s) && s@ == self@.model,
    {
        Some(self.model.as_str())
    }

    /// Set this item's NIF model (none is stored as an empty model)
    pub fn set_model(&mut self, model: Option<String>)
        ensures
            final(self)@ == (MiscItemModel {
                model: match model {
                    Some(m) => m@,
                    None => Seq::empty(),
                },
                ..old(self)@
            }),
    {
        self.model = match model {
            Some(m) => m,
            None => String::new(),
        };
        assert(self@.model =~= (match model {
            Some(m) => m@,
            None => Seq::<char>::empty(),
        }));
    }

    /// Get this item's name, if any
    pub fn name(&self) -> (r: Option<&str>)
        ensures
            r is Some <==> self@.name is Some,
            r matches Some(s) ==> self@.name == Some(s@),
    {
        match &self.name {
            Some(v) => Some(v.as_str()),
            None => None,
        }
    }

    /// Set this item's name
    pub fn set_name(&mut self, name: Option<String>)
        ensures
            final(self)@ == (MiscItemModel { name: opt_chars(name), ..old(self)@ }),
    {
        self.name = name;
    }

    /// Get the bits of this item's `f32` weight
    pub fn weight_bits(&self) -> (r: u32)
        ensures
            r == self@.weight,
    {
        self.weight
    }

    /// Set this item's weight from the bits of an `f32`
    pub fn set_weight_bits(&mut self, weight: u32)
        ensures
            final(self)@ == (MiscItemModel { weight, ..old(self)@ }),
    {
        self.weight = weight;
    }

    /// Get this item's value
    pub fn value(&self) -> (r: u32)
        ensures
            r == self@.value,
    {
        self.value
    }

    /// Set this item's value
    pub fn set_value(&mut self, value: u32)
        ensures
            final(self)@ == (MiscItemModel { value, ..old(self)@ }),
    {
        self.value = value;
    }

    /// Get this item's script, if any
    pub fn script(&self) -> (r: Option<&str>)
        ensures
            r is Some <==> self@.script is Some,
            r matches Some(s) ==> self@.script == Some(s@),
    {
        match &self.script {
            Some(v) => Some(v.as_str()),
            None => None,
        }
    }

    /// Set this item's script
    pub fn set_script(&mut self, script: Option<String>)
        ensures
            final(self)@ == (MiscItemModel { script: opt_chars(script), ..old(self)@ }),
    {
        self.script = script;
    }

    /// Get this item's icon texture, if any
    pub fn icon(&self) -> (r: Option<&str>)
        ensures
            r is Some <==> self@.icon is Some,
            r matches Some(s) ==> self@.icon == Some(s@),
    {
        match &self.icon {
            Some(v) => Some(v.as_str()),
            None => None,
        }
    }

    /// Set this item's icon texture
    pub fn set_icon(&mut self, icon: Option<String>)
        ensures
            final(self)@ == (MiscItemModel { icon: opt_chars(icon), ..old(self)@ }),
    {
        self.icon = icon;
    }
}

} // verus!
