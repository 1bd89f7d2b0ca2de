//! Playable and non-playable races, as held by `RACE` records.

use vstd::prelude::*;

use crate::common::Attribute;
use crate::error::{decode_failed, TesError};
use crate::plugin::{FieldModel, RecordStatus};
use crate::tags::{slice_is_tag, DESC, FNAM, NAME, NPCS, RACE, RADT};
use crate::tes3::field::Tes3Field;
use crate::tes3::form::{
    check_record_type, field_string, field_zstring, fold_fields, lemma_fold_none, lemma_fold_step,
    string_value, zstring_value,
};
use crate::tes3::magic::Skill;
use crate::tes3::player::{padded_string_at, padded_string_exec, u32_at, u32_at_exec};
use crate::tes3::record::Tes3Record;

verus! {

/// Length of the IDs of a race's specials
pub const ID_LENGTH: usize = 32;

/// The abstract content of a race: up to 7 skill bonuses, the male and female starting value of
/// each attribute, the male and female height and weight (bits of `f32`s), flags, specials and a
/// description.
pub struct RaceModel {
    pub id: Seq<char>,
    pub name: Seq<char>,
    pub skills: Seq<Option<(Skill, u32)>>,
    pub attributes: Seq<(u32, u32)>,
    pub height: (u32, u32),
    pub weight: (u32, u32),
    pub is_playable: bool,
    pub is_beast_race: bool,
    pub specials: Seq<Seq<char>>,
    pub description: Option<Seq<char>>,
}

/// The race before any field is read.
pub open spec fn empty_race() -> RaceModel {
    RaceModel {
        id: Seq::empty(),
        name: Seq::empty(),
        skills: Seq::new(7, |k: int| None),
        attributes: Seq::new(8, |k: int| (0u32, 0u32)),
        height: (0, 0),
        weight: (0, 0),
        is_playable: false,
        is_beast_race: false,
        specials: Seq::empty(),
        description: None,
    }
}

/// The skill ID that stands for no skill
pub const NO_SKILL: u32 = 0xffffffff;

/// The skill of the `k`-th skill bonus in `RADT` data: the low byte of its ID, unless the ID is
/// -1.
pub open spec fn radt_skill_id(d: Seq<u8>, k: int) -> u32 {
    u32_at(d, 8 * k)
}

/// Each skill bonus in `RADT` data names no skill or a known one.
pub open spec fn race_data_valid(d: Seq<u8>) -> bool {
    &&& d.len() >= 140
    &&& forall|k: int|
        0 <= k < 7 ==> #[trigger] radt_skill_id(d, k) == NO_SKILL || Skill::from_index(
            (radt_skill_id(d, k) % 256) as u8,
        ) is Some
}

/// The race with the `RADT` data read: 7 skill bonuses (a skill ID, -1 for none, which leaves
/// the bonus as it was, and the bonus), then the male and female value of each of the 8
/// attributes, the male and female height and weight, and flags (1: playable, 2: beast race).
pub open spec fn with_race_data(r: RaceModel, d: Seq<u8>) -> RaceModel {
    let flags = u32_at(d, 136);
    RaceModel {
        skills: Seq::new(
            7,
            |k: int|
                if radt_skill_id(d, k) == NO_SKILL {
                    r.skills[k]
                } else {
                    Some(
                        (
                            Skill::from_index((radt_skill_id(d, k) % 256) as u8).unwrap(),
                            u32_at(d, 8 * k + 4),
                        ),
                    )
                },
        ),
        attributes: Seq::new(8, |k: int| (u32_at(d, 56 + 8 * k), u32_at(d, 60 + 8 * k))),
        height: (u32_at(d, 120), u32_at(d, 124)),
        weight: (u32_at(d, 128), u32_at(d, 132)),
        is_playable: flags & 1 != 0,
        is_beast_race: flags & 2 != 0,
        ..r
    }
}

/// Reading one field of a race record.
pub open spec fn race_step(r: RaceModel, f: FieldModel) -> Option<RaceModel> {
    if f.name == NAME@ {
        match zstring_value(f.data) {
            Some(v) => Some(RaceModel { id: v, ..r }),
            None => None,
        }
    } else if f.name == FNAM@ {
        match zstring_value(f.data) {
            Some(v) => Some(RaceModel { name: v, ..r }),
            None => None,
        }
    } else if f.name == RADT@ {
        if race_data_valid(f.data) {
            Some(with_race_data(r, f.data))
        } else {
            None
        }
    } else if f.name == NPCS@ {
        if f.data.len() < 32 {
            None
        } else {
            match padded_string_at(f.data, 0, 32) {
                Some(v) => Some(RaceModel { specials: r.specials.push(v), ..r }),
                None => None,
            }
        }
    } else if f.name == DESC@ {
        match string_value(f.data) {
            Some(v) => Some(RaceModel { description: Some(v), ..r }),
            None => None,
        }
    } else {
        None
    }
}

/// [`race_step`] as a function value.
pub open spec fn race_step_fn() -> spec_fn(RaceModel, FieldModel) -> Option<RaceModel> {
    |r: RaceModel, f: FieldModel| race_step(r, f)
}

/// A race
pub struct Race {
    id: String,
    name: String,
    skills: [Option<(Skill, u32)>; 7],
    attributes: [(u32, u32); 8],
    height: (u32, u32),
    weight: (u32, u32),
    is_playable: bool,
    is_beast_race: bool,
    specials: Vec<String>,
    description: Option<String>,
}

impl View for Race {
    type V = RaceModel;

    closed spec fn view(&self) -> RaceModel {
        RaceModel {
            id: self.id@,
            name: self.name@,
            skills: self.skills@,
            attributes: self.attributes@,
            height: self.height,
            weight: self.weight,
            is_playable: self.is_playable,
            is_beast_race: self.is_beast_race,
            specials: self.specials@.map_values(|s: String| s@),
            description: match self.description {
                Some(s) => Some(s@),
                None => None,
            },
        }
    }
}

impl Race {
    fn empty() -> (r: Race)
        ensures
            r@ == empty_race(),
    {
        let r = Race {
            id: String::new(),
            name: String::new(),
            skills: [None, None, None, None, None, None, None],
            attributes: [(0, 0), (0, 0), (0, 0), (0, 0), (0, 0), (0, 0), (0, 0), (0, 0)],
            height: (0, 0),
            weight: (0, 0),
            is_playable: false,
            is_beast_race: false,
            specials: Vec::new(),
            description: None,
        };
        assert(r@.id =~= Seq::<char>::empty());
        assert(r@.name =~= Seq::<char>::empty());
        assert(r@.skills =~= empty_race().skills);
        assert(r@.attributes =~= empty_race().attributes);
        assert(r@.specials =~= Seq::<Seq<char>>::empty());
        r
    }

    /// Reads the `RADT` data.
    fn read_data(&mut self, d: &[u8]) -> (r: Result<(), TesError>)
        ensures
            r is Ok <==> race_data_valid(d@),
            r is Ok ==> final(self)@ == with_race_data(old(self)@, d@),
    {
        if d.len() < 140 {
            return Err(TesError::UnexpectedEof);
        }
        let ghost before = self@;
        let mut skills = self.skills;
        let mut k: usize = 0;
        while k < 7
            invariant
                k <= 7,
                d@.len() >= 140,
                before.skills == old(self)@.skills,
                before == old(self)@,
                forall|j: int| 0 <= j < k ==> #[trigger] radt_skill_id(d@, j) == NO_SKILL || Skill::from_index(
                    (radt_skill_id(d@, j) % 256) as u8,
                ) is Some,
                forall|j: int|
                    0 <= j < k ==> #[trigger] skills@[j] == with_race_data(before, d@).skills[j],
                forall|j: int| k <= j < 7 ==> #[trigger] skills@[j] == before.skills[j],
            decreases 7 - k,
        {
            let id = u32_at_exec(d, 8 * k);
            if id != NO_SKILL {
                let skill = match Skill::try_from_u8((id % 256) as u8) {
                    Some(s) => s,
                    None => {
                        assert(!(radt_skill_id(d@, k as int) == NO_SKILL || Skill::from_index(
                            (radt_skill_id(d@, k as int) % 256) as u8,
                        ) is Some));
                        return Err(decode_failed("Invalid skill value"));
                    },
                };
                skills[k] = Some((skill, u32_at_exec(d, 8 * k + 4)));
            }
            k = k + 1;
        }
        let mut attributes = [(0u32, 0u32); 8];
        let mut a: usize = 0;
        while a < 8
            invariant
                a <= 8,
                d@.len() >= 140,
                forall|j: int|
                    0 <= j < a ==> #[trigger] attributes@[j] == (
                        u32_at(d@, 56 + 8 * j),
                        u32_at(d@, 60 + 8 * j),
                    ),
            decreases 8 - a,
        {
            attributes[a] = (u32_at_exec(d, 56 + 8 * a), u32_at_exec(d, 60 + 8 * a));
            a = a + 1;
        }
        let flags = u32_at_exec(d, 136);
        self.skills = skills;
        self.attributes = attributes;
        self.height = (u32_at_exec(d, 120), u32_at_exec(d, 124));
        self.weight = (u32_at_exec(d, 128), u32_at_exec(d, 132));
        self.is_playable = flags & 1 != 0;
        self.is_beast_race = flags & 2 != 0;
        assert(self@.skills =~= with_race_data(before, d@).skills);
        assert(self@.attributes =~= with_race_data(before, d@).attributes);
        assert(self@.specials =~= before.specials);
        Ok(())
    }

    fn apply_field(&mut self, field: &Tes3Field) -> (r: Result<(), TesError>)
        ensures
            r is Ok <==> race_step(old(self)@, field@) is Some,
            r is Ok ==> final(self)@ == race_step(old(self)@, field@).unwrap(),
    {
        let name = field.name();
        if slice_is_tag(name, &NAME) {
            self.id = field_zstring(field)?;
        } else if slice_is_tag(name, &FNAM) {
            self.name = field_zstring(field)?;
        } else if slice_is_tag(name, &RADT) {
            self.read_data(field.get())?;
        } else if slice_is_tag(name, &NPCS) {
            let d = field.get();
            if d.len() < ID_LENGTH {
                return Err(TesError::UnexpectedEof);
            }
            let special = padded_string_exec(d, 0, ID_LENGTH)?;
            let ghost v = special@;
            self.specials.push(special);
            assert(self@.specials =~= old(self)@.specials.push(v));
        } else if slice_is_tag(name, &DESC) {
            self.description = Some(field_string(field)?);
        } else {
            return Err(decode_failed("Unexpected field in RACE"));
        }
        Ok(())
    }

    /// Reads a `RACE` record
    ///
    /// Fails if the record has another type, if it holds an unexpected field, or if a field's
    /// data does not decode.
    pub fn read(record: &Tes3Record) -> (r: Result<Race, TesError>)
        requires
            record@.status == RecordStatus::Finalized,
        ensures
            r is Ok <==> record@.name == RACE@ && fold_fields(empty_race(), race_step_fn(), record@.fields) is Some,
            r matches Ok(v) ==> v@ == fold_fields(empty_race(), race_step_fn(), record@.fields).unwrap(),
    {
        check_record_type(record.name(), &RACE)?;
        let fields = record.fields();
        let ghost view = record@.fields;
        let ghost step = race_step_fn();
        let mut value = Race::empty();
        let mut i: usize = 0;
        proof {
            assert(view.take(0) =~= Seq::<FieldModel>::empty());
        }
        while i < fields.len()
            invariant
                fields@.map_values(|f: Tes3Field| f@) == view,
                step == race_step_fn(),
                record@.name == RACE@,
                view == record@.fields,
                i <= fields@.len(),
                fold_fields(empty_race(), step, view.take(i as int)) == Some(value@),
            decreases fields@.len() - i,
        {
            let field = &fields[i];
            proof {
                assert(view[i as int] == field@);
                lemma_fold_step(empty_race(), step, view, i as int);
            }
            let ghost before = value@;
            match value.apply_field(field) {
                Ok(()) => {
                    assert(step(before, view[i as int]) == Some(value@));
                },
                Err(e) => {
                    proof {
                        assert(step(before, view[i as int]) is None);
                        lemma_fold_none(empty_race(), step, view, i + 1);
                    }
                    return Err(e);
                },
            }
            i = i + 1;
        }
        proof {
            assert(view.take(i as int) =~= view);
        }
        Ok(value)
    }

    /// Gets the starting attributes for a male character of this race
    pub fn attributes_male(&self) -> (r: Vec<(Attribute, u32)>)
        ensures
            r@.len() == 8,
            forall|k: int| 0 <= k < 8 ==> #[trigger] r@[k] == (
                Attribute::from_index(k as u8).unwrap(),
                self@.attributes[k].0,
            ),
    {
        let mut r: Vec<(Attribute, u32)> = Vec::new();
        let mut k: u8 = 0;
        while k < 8
            invariant
                k <= 8,
                r@.len() == k,
                self@.attributes == self.attributes@,
                forall|j: int| 0 <= j < k ==> #[trigger] r@[j] == (
                    Attribute::from_index(j as u8).unwrap(),
                    self@.attributes[j].0,
                ),
            decreases 8 - k,
        {
            let a = Attribute::try_from_u8(k).unwrap();
            r.push((a, self.attributes[k as usize].0));
            k = k + 1;
        }
        r
    }

    /// Gets a starting attribute for a male character of this race
    pub fn attribute_male(&self, attribute: Attribute) -> (r: u32)
        ensures
            r == self@.attributes[attribute.index() as int].0,
    {
        self.attributes[attribute.to_u8() as usize].0
    }

    /// Gets the starting attributes for a female character of this race
    pub fn attributes_female(&self) -> (r: Vec<(Attribute, u32)>)
        ensures
            r@.len() == 8,
            forall|k: int| 0 <= k < 8 ==> #[trigger] r@[k] == (
                Attribute::from_index(k as u8).unwrap(),
                self@.attributes[k].1,
            ),
    {
        let mut r: Vec<(Attribute, u32)> = Vec::new();
        let mut k: u8 = 0;
        while k < 8
            invariant
                k <= 8,
                r@.len() == k,
                self@.attributes == self.attributes@,
                forall|j: int| 0 <= j < k ==> #[trigger] r@[j] == (
                    Attribute::from_index(j as u8).unwrap(),
                    self@.attributes[j].1,
                ),
            decreases 8 - k,
        {
            let a = Attribute::try_from_u8(k).unwrap();
            r.push((a, self.attributes[k as usize].1));
            k = k + 1;
        }
        r
    }

    /// Gets a starting attribute for a female character of this race
    pub fn attribute_female(&self, attribute: Attribute) -> (r: u32)
        ensures
            r == self@.attributes[attribute.index() as int].1,
    {
        self.attributes[attribute.to_u8() as usize].1
    }

    /// Gets the specials (abilities and powers) for a character of this race
    pub fn specials(&self) -> (r: &[String])
        ensures
            r@.map_values(|s: String| s@) == self@.specials,
    {
        self.specials.as_slice()
    }
}

} // verus!
