//! Birthsigns.

use vstd::prelude::*;

use crate::error::{decode_failed, TesError};
use crate::plugin::{FieldModel, RecordStatus};
use crate::tes3::field::Tes3Field;
use crate::tes3::form::{
    check_record_type, field_string, field_zstring, fold_fields, lemma_fold_none, lemma_fold_step,
    string_value, word, word_at, zstring_value,
};
use crate::tes3::record::Tes3Record;
use crate::strings::until_nul;
use crate::tags::{slice_is_tag, BSGN, DESC, FNAM, NAME, NPCS, TNAM};

verus! {

/// Length of the spell IDs listed by a birthsign
pub const ID_LENGTH: usize = 32;

/// The abstract content of a birthsign.
pub struct BirthsignModel {
    pub id: Seq<char>,
    pub name: Option<Seq<char>>,
    pub spells: Seq<Seq<char>>,
    pub texture: Option<Seq<char>>,
    pub description: Option<Seq<char>>,
}

/// The birthsign before any field is read.
pub open spec fn empty_birthsign() -> BirthsignModel {
    BirthsignModel {
        id: Seq::empty(),
        name: None,
        spells: Seq::empty(),
        texture: None,
        description: None,
    }
}

/// The spell ID held in the first [`ID_LENGTH`] bytes of an `NPCS` field, null-padded.
pub open spec fn spell_id_value(data: Seq<u8>) -> Option<Seq<char>> {
    if data.len() >= ID_LENGTH {
        string_value(until_nul(data.take(ID_LENGTH as int)))
    } else {
        None
    }
}

/// Reading one field of a birthsign record.
pub open spec fn birthsign_step(c: BirthsignModel, f: FieldModel) -> Option<BirthsignModel> {
    if f.name == NAME@ {
        match zstring_value(f.data) {
            Some(v) => Some(BirthsignModel { id: v, ..c }),
            None => None,
        }
    } else if f.name == FNAM@ {
        match zstring_value(f.data) {
            Some(v) => Some(BirthsignModel { name: Some(v), ..c }),
            None => None,
        }
    } else if f.name == NPCS@ {
        match spell_id_value(f.data) {
            Some(v) => Some(BirthsignModel { spells: c.spells.push(v), ..c }),
            None => None,
        }
    } else if f.name == TNAM@ {
        match zstring_value(f.data) {
            Some(v) => Some(BirthsignModel { texture: Some(v), ..c }),
            None => None,
        }
    } else if f.name == DESC@ {
        match zstring_value(f.data) {
            Some(v) => Some(BirthsignModel { description: Some(v), ..c }),
            None => None,
        }
    } else {
        None
    }
}

/// [`birthsign_step`] as a function value.
pub open spec fn birthsign_step_fn() -> spec_fn(BirthsignModel, FieldModel) -> Option<BirthsignModel> {
    |c: BirthsignModel, f: FieldModel| birthsign_step(c, f)
}

/// A birthsign
pub struct Birthsign {
    id: String,
    name: Option<String>,
    spells: Vec<String>,
    texture: Option<String>,
    description: Option<String>,
}

impl View for Birthsign {
    type V = BirthsignModel;

    closed spec fn view(&self) -> BirthsignModel {
        BirthsignModel {
            id: self.id@,
            name: match self.name {
                Some(v) => Some(v@),
                None => None,
            },
            spells: self.spells@.map_values(|s: String| s@),
            texture: match self.texture {
                Some(v) => Some(v@),
                None => None,
            },
            description: match self.description {
                Some(v) => Some(v@),
                None => None,
            },
        }
    }
}

impl Birthsign {
    fn empty() -> (r: Birthsign)
        ensures
            r@ == empty_birthsign(),
    {
        let r = Birthsign {
            id: String::new(),
            name: None,
            spells: Vec::new(),
            texture: None,
            description: None,
        };
        assert(r@.spells =~= Seq::<Seq<char>>::empty());
        assert(r@.id =~= Seq::<char>::empty());
        r
    }

    fn apply_field(&mut self, field: &Tes3Field) -> (r: Result<(), TesError>)
        ensures
            r is Ok <==> birthsign_step(old(self)@, field@) is Some,
            r is Ok ==> final(self)@ == birthsign_step(old(self)@, field@).unwrap(),
    {
        let name = field.name();
        if slice_is_tag(name, &NAME) {
            self.id = field_zstring(field)?;
        } else if slice_is_tag(name, &FNAM) {
            self.name = Some(field_zstring(field)?);
        } else if slice_is_tag(name, &NPCS) {
            let mut reader: &[u8] = field.get();
            let spell = crate::strings::read_string::<32>(&mut reader)?;
            self.spells.push(spell);
            assert(self@.spells =~= old(self)@.spells.push(spell@));
        } else if slice_is_tag(name, &TNAM) {
            self.texture = Some(field_zstring(field)?);
        } else if slice_is_tag(name, &DESC) {
            self.description = Some(field_zstring(field)?);
        } else {
            return Err(decode_failed("Unexpected field in BSGN record"));
        }
        Ok(())
    }

    /// Reads a `BSGN` record
    ///
    /// Fails if the record has another type, if it holds an unexpected field, or if a field's
    /// data does not decode.
    pub fn read(record: &Tes3Record) -> (r: Result<Self, TesError>)
        requires
            record@.status == RecordStatus::Finalized,
        ensures
            r is Ok <==> record@.name == BSGN@ && fold_fields(empty_birthsign(), birthsign_step_fn(), record@.fields) is Some,
            r matches Ok(v) ==> v@ == fold_fields(empty_birthsign(), birthsign_step_fn(), record@.fields).unwrap(),
    {
        check_record_type(record.name(), &BSGN)?;
        let fields = record.fields();
        let ghost view = record@.fields;
        let ghost step = birthsign_step_fn();
        let mut value = Birthsign::empty();
        let mut i: usize = 0;
        proof {
            assert(view.take(0) =~= Seq::<FieldModel>::empty());
        }
        while i < fields.len()
            invariant
                fields@.map_values(|f: Tes3Field| f@) == view,
                step == birthsign_step_fn(),
                record@.name == BSGN@,
                view == record@.fields,
                i <= fields@.len(),
                fold_fields(empty_birthsign(), step, view.take(i as int)) == Some(value@),
            decreases fields@.len() - i,
        {
            let field = &fields[i];
            proof {
                assert(view[i as int] == field@);
                lemma_fold_step(empty_birthsign(), step, view, i as int);
            }
            let ghost before = value@;
            match value.apply_field(field) {
                Ok(()) => {
                    assert(step(before, view[i as int]) == Some(value@));
                },
                Err(e) => {
                    proof {
                        assert(step(before, view[i as int]) is None);
                        lemma_fold_none(empty_birthsign(), step, view, i + 1);
                    }
                    return Err(e);
                },
            }
            i = i + 1;
        }
        proof {
            assert(view.take(i as int) =~= view);
        }
        Ok(value)
    }

    /// Returns the birthsign's ID
    pub fn id(&self) -> (r: &str)
        ensures
            r@ == self@.id,
    {
        self.id.as_str()
    }

    /// Returns the birthsign's name, if any
    pub fn name(&self) -> (r: Option<&str>)
        ensures
            r is Some <==> self@.name is Some,
            r matches Some(s) ==> self@.name == Some(s@),
    {
        match &self.name {
            Some(v) => Some(v.as_str()),
            None => None,
        }
    }

    /// Returns the birthsign's texture, if any
    pub fn texture(&self) -> (r: Option<&str>)
        ensures
            r is Some <==> self@.texture is Some,
            r matches Some(s) ==> self@.texture == Some(s@),
    {
        match &self.texture {
            Some(v) => Some(v.as_str()),
            None => None,
        }
    }

    /// Returns the birthsign's description, if any
    pub fn description(&self) -> (r: Option<&str>)
        ensures
            r is Some <==> self@.description is Some,
            r matches Some(s) ==> self@.description == Some(s@),
    {
        match &self.description {
            Some(v) => Some(v.as_str()),
            None => None,
        }
    }

    /// Gets the spells associated with this birthsign
    pub fn spells(&self) -> (r: &[String])
        ensures
            r@.map_values(|s: String| s@) == self@.spells,
    {
        self.spells.as_slice()
    }
}

} // verus!
