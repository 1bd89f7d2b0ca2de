//! Character classes.

use vstd::prelude::*;

use crate::common::{Attribute, Specialization};
use crate::error::{decode_failed, TesError};
use crate::plugin::{FieldModel, RecordStatus};
use crate::tags::{slice_is_tag, CLAS, CLDT, DESC, FNAM, NAME};
use crate::tes3::field::Tes3Field;
use crate::tes3::form::{
    check_record_type, field_string, field_zstring, fold_fields, lemma_fold_none, lemma_fold_step,
    string_value, word, word_at, zstring_value,
};
use crate::tes3::magic::{Skill, SkillType};
use crate::tes3::record::Tes3Record;

verus! {

/// The mask of the defined auto-calculation flags (weapons up to repair)
pub const AUTO_CALC_FLAGS_ALL: u32 = 0x3ffff;

/// The abstract content of a class.
pub struct ClassModel {
    pub id: Seq<char>,
    pub name: Seq<char>,
    pub description: Option<Seq<char>>,
    pub primary_attributes: Seq<Attribute>,
    pub specialization: Specialization,
    pub major_skills: Seq<Skill>,
    pub minor_skills: Seq<Skill>,
    pub is_playable: bool,
    pub auto_calc_flags: u32,
}

/// The class before any field is read.
pub open spec fn empty_class() -> ClassModel {
    ClassModel {
        id: Seq::empty(),
        name: Seq::empty(),
        description: None,
        primary_attributes: seq![Attribute::Strength, Attribute::Strength],
        specialization: Specialization::Combat,
        major_skills: seq![Skill::Armorer, Skill::Armorer, Skill::Armorer, Skill::Armorer, Skill::Armorer],
        minor_skills: seq![Skill::Armorer, Skill::Armorer, Skill::Armorer, Skill::Armorer, Skill::Armorer],
        is_playable: false,
        auto_calc_flags: 0,
    }
}

/// The skill named by word `k` of class data.
pub open spec fn class_skill(s: Seq<u8>, k: int) -> Option<Skill> {
    Skill::from_index(word(s, k) as u8)
}

/// The 60 bytes of class data decode: two attributes, a specialization, five pairs of minor
/// and major skills, the playable flag and known auto-calculation flags, one `u32` word each.
pub open spec fn class_data_valid(s: Seq<u8>) -> bool {
    &&& s.len() >= 60
    &&& Attribute::from_index(word(s, 0) as u8) is Some
    &&& Attribute::from_index(word(s, 1) as u8) is Some
    &&& Specialization::from_index(word(s, 2) as u8) is Some
    &&& forall|k: int| 3 <= k < 13 ==> (#[trigger] class_skill(s, k)) is Some
    &&& word(s, 14) & !AUTO_CALC_FLAGS_ALL == 0
}

/// The class with its `CLDT` data replaced by the data decoded from `s`.
pub open spec fn with_class_data(c: ClassModel, s: Seq<u8>) -> ClassModel {
    ClassModel {
        primary_attributes: seq![
            Attribute::from_index(word(s, 0) as u8).unwrap(),
            Attribute::from_index(word(s, 1) as u8).unwrap(),
        ],
        specialization: Specialization::from_index(word(s, 2) as u8).unwrap(),
        minor_skills: Seq::new(5, |k: int| class_skill(s, 3 + 2 * k).unwrap()),
        major_skills: Seq::new(5, |k: int| class_skill(s, 4 + 2 * k).unwrap()),
        is_playable: word(s, 13) != 0,
        auto_calc_flags: word(s, 14),
        ..c
    }
}

/// Reading one field of a class record.
pub open spec fn class_step(c: ClassModel, f: FieldModel) -> Option<ClassModel> {
    if f.name == NAME@ {
        match zstring_value(f.data) {
            Some(v) => Some(ClassModel { id: v, ..c }),
            None => None,
        }
    } else if f.name == FNAM@ {
        match zstring_value(f.data) {
            Some(v) => Some(ClassModel { name: v, ..c }),
            None => None,
        }
    } else if f.name == DESC@ {
        match string_value(f.data) {
            Some(v) => Some(ClassModel { description: Some(v), ..c }),
            None => None,
        }
    } else if f.name == CLDT@ {
        if class_data_valid(f.data) {
            Some(with_class_data(c, f.data))
        } else {
            None
        }
    } else {
        None
    }
}

/// [`class_step`] as a function value.
pub open spec fn class_step_fn() -> spec_fn(ClassModel, FieldModel) -> Option<ClassModel> {
    |c: ClassModel, f: FieldModel| class_step(c, f)
}

/// The class read from a record's fields.
pub open spec fn class_from_fields(fields: Seq<FieldModel>) -> Option<ClassModel> {
    fold_fields(empty_class(), class_step_fn(), fields)
}

/// Whether a skill is major, minor, or neither for a class.
pub open spec fn skill_type_spec(c: ClassModel, skill: Skill) -> SkillType {
    if c.major_skills.contains(skill) {
        SkillType::Major
    } else if c.minor_skills.contains(skill) {
        SkillType::Minor
    } else {
        SkillType::Miscellaneous
    }
}

/// The number that a word of class data gives for a skill is the word's first byte.
proof fn lemma_word_low_byte(s: Seq<u8>, k: int)
    requires
        0 <= k,
        4 * k + 4 <= s.len(),
    ensures
        word(s, k) as u8 == s[4 * k],
{
    crate::tes3::form::lemma_word_at_le(s, k);
    let w = word(s, k);
    let b0 = s[4 * k] as int;
    let q = s[4 * k + 1] as int + 256 * s[4 * k + 2] as int + 65536 * s[4 * k + 3] as int;
    assert(w as int == b0 + 256 * q);
    assert((w as u8) as u32 == w % 256) by (bit_vector);
    assert((b0 + 256 * q) % 256 == b0) by (nonlinear_arith)
        requires
            0 <= b0 < 256,
            0 <= q,
    ;
}

/// Class data (`CLDT`) names its five pairs of skills minor first: the class's minor skills
/// are the skills numbered by the first byte of words 3, 5, 7, 9 and 11, and its major skills
/// those numbered by words 4, 6, 8, 10 and 12. So a skill numbered by word 4 is a major skill
/// of the class, and one numbered by word 3 is a major or minor skill.
pub proof fn lemma_class_data_skills(c: ClassModel, s: Seq<u8>)
    requires
        class_data_valid(s),
    ensures
        forall|k: int|
            0 <= k < 5 ==> Skill::from_index(s[12 + 8 * k]) == Some(
                #[trigger] with_class_data(c, s).minor_skills[k],
            ),
        forall|k: int|
            0 <= k < 5 ==> Skill::from_index(s[16 + 8 * k]) == Some(
                #[trigger] with_class_data(c, s).major_skills[k],
            ),
        skill_type_spec(with_class_data(c, s), Skill::from_index(s[16]).unwrap()) == SkillType::Major,
{
    let m = with_class_data(c, s);
    assert forall|k: int| 0 <= k < 5 implies Skill::from_index(s[12 + 8 * k]) == Some(
        #[trigger] m.minor_skills[k],
    ) by {
        lemma_word_low_byte(s, 3 + 2 * k);
        assert(class_skill(s, 3 + 2 * k) is Some);
    }
    assert forall|k: int| 0 <= k < 5 implies Skill::from_index(s[16 + 8 * k]) == Some(
        #[trigger] m.major_skills[k],
    ) by {
        lemma_word_low_byte(s, 4 + 2 * k);
        assert(class_skill(s, 4 + 2 * k) is Some);
    }
    assert(Skill::from_index(s[16]) == Some(m.major_skills[0]));
    assert(m.major_skills.contains(m.major_skills[0]));
}

/// A character class
pub struct Class {
    id: String,
    name: String,
    description: Option<String>,
    primary_attributes: [Attribute; 2],
    /// The class's specialization
    pub specialization: Specialization,
    major_skills: [Skill; 5],
    minor_skills: [Skill; 5],
    /// Whether the player may choose the class
    pub is_playable: bool,
    auto_calc_flags: u32,
}

impl View for Class {
    type V = ClassModel;

    closed spec fn view(&self) -> ClassModel {
        ClassModel {
            id: self.id@,
            name: self.name@,
            description: match self.description {
                Some(d) => Some(d@),
                None => None,
            },
            primary_attributes: self.primary_attributes@,
            specialization: self.specialization,
            major_skills: self.major_skills@,
            minor_skills: self.minor_skills@,
            is_playable: self.is_playable,
            auto_calc_flags: self.auto_calc_flags,
        }
    }
}

impl Class {
    fn empty() -> (r: Class)
        ensures
            r@ == empty_class(),
    {
        let r = Class {
            id: String::new(),
            name: String::new(),
            description: None,
            primary_attributes: [Attribute::Strength, Attribute::Strength],
            specialization: Specialization::Combat,
            major_skills: [Skill::Armorer, Skill::Armorer, Skill::Armorer, Skill::Armorer, Skill::Armorer],
            minor_skills: [Skill::Armorer, Skill::Armorer, Skill::Armorer, Skill::Armorer, Skill::Armorer],
            is_playable: false,
            auto_calc_flags: 0,
        };
        assert(r@.primary_attributes =~= empty_class().primary_attributes);
        assert(r@.major_skills =~= empty_class().major_skills);
        assert(r@.minor_skills =~= empty_class().minor_skills);
        assert(r@.id =~= empty_class().id);
        assert(r@.name =~= empty_class().name);
        r
    }

    fn read_skill(data: &[u8], k: usize) -> (r: Result<Skill, TesError>)
        requires
            4 * k + 4 <= data@.len(),
        ensures
            r is Ok <==> class_skill(data@, k as int) is Some,
            r matches Ok(v) ==> class_skill(data@, k as int) == Some(v),
    {
        match Skill::try_from_u8(word_at(data, k) as u8) {
            Some(v) => Ok(v),
            None => Err(decode_failed("Invalid skill value")),
        }
    }

    fn apply_class_data(&mut self, data: &[u8]) -> (r: Result<(), TesError>)
        ensures
            r is Ok <==> class_data_valid(data@),
            r is Ok ==> final(self)@ == with_class_data(old(self)@, data@),
    {
        if data.len() < 60 {
            return Err(TesError::UnexpectedEof);
        }
        let a0 = match Attribute::try_from_u8(word_at(data, 0) as u8) {
            Some(a) => a,
            None => {
                return Err(decode_failed("Invalid attribute value"));
            },
        };
        let a1 = match Attribute::try_from_u8(word_at(data, 1) as u8) {
            Some(a) => a,
            None => {
                return Err(decode_failed("Invalid attribute value"));
            },
        };
        let spec = match Specialization::try_from_u8(word_at(data, 2) as u8) {
            Some(s) => s,
            None => {
                return Err(decode_failed("Invalid specialization"));
            },
        };
        let mut minors: Vec<Skill> = Vec::new();
        let mut majors: Vec<Skill> = Vec::new();
        let mut k: usize = 0;
        while k < 5
            invariant
                k <= 5,
                data@.len() >= 60,
                minors@.len() == k,
                majors@.len() == k,
                forall|j: int| 3 <= j < 3 + 2 * k ==> (#[trigger] class_skill(data@, j)) is Some,
                forall|j: int| 0 <= j < k ==> class_skill(data@, 3 + 2 * j) == Some(#[trigger] minors@[j]),
                forall|j: int| 0 <= j < k ==> class_skill(data@, 4 + 2 * j) == Some(#[trigger] majors@[j]),
            decreases 5 - k,
        {
            let minor = match Self::read_skill(data, 3 + 2 * k) {
                Ok(v) => v,
                Err(e) => {
                    return Err(e);
                },
            };
            let major = match Self::read_skill(data, 4 + 2 * k) {
                Ok(v) => v,
                Err(e) => {
                    return Err(e);
                },
            };
            minors.push(minor);
            majors.push(major);
            proof {
                assert forall|j: int| 3 <= j < 3 + 2 * (k + 1) implies (#[trigger] class_skill(
                    data@,
                    j,
                )) is Some by {
                    if j >= 3 + 2 * k {
                        if j == 3 + 2 * k {
                        } else {
                            assert(j == 4 + 2 * k);
                        }
                    }
                }
            }
            k = k + 1;
        }
        let flags = word_at(data, 14);
        if flags & !AUTO_CALC_FLAGS_ALL != 0 {
            return Err(decode_failed("Invalid auto-calc flags"));
        }
        self.primary_attributes = [a0, a1];
        self.specialization = spec;
        self.minor_skills = [minors[0], minors[1], minors[2], minors[3], minors[4]];
        self.major_skills = [majors[0], majors[1], majors[2], majors[3], majors[4]];
        self.is_playable = word_at(data, 13) != 0;
        self.auto_calc_flags = flags;
        proof {
            let m = with_class_data(old(self)@, data@);
            assert(self@.primary_attributes =~= m.primary_attributes);
            assert(self@.minor_skills =~= m.minor_skills);
            assert(self@.major_skills =~= m.major_skills);
        }
        Ok(())
    }

    fn apply_field(&mut self, field: &Tes3Field) -> (r: Result<(), TesError>)
        ensures
            r is Ok <==> class_step(old(self)@, field@) is Some,
            r is Ok ==> final(self)@ == class_step(old(self)@, field@).unwrap(),
    {
        let name = field.name();
        if slice_is_tag(name, &NAME) {
            self.id = field_zstring(field)?;
        } else if slice_is_tag(name, &FNAM) {
            self.name = field_zstring(field)?;
        } else if slice_is_tag(name, &DESC) {
            self.description = Some(field_string(field)?);
        } else if slice_is_tag(name, &CLDT) {
            self.apply_class_data(field.get())?;
        } else {
            return Err(decode_failed("Unexpected field in CLAS record"));
        }
        Ok(())
    }

    /// Reads class data from a `CLAS` record
    ///
    /// Fails if the record is not a `CLAS` record, if a field other than `NAME`, `FNAM`, `DESC`
    /// and `CLDT` occurs, or if a field's data does not decode.
    pub fn read(record: &Tes3Record) -> (r: Result<Class, TesError>)
        requires
            record@.status == RecordStatus::Finalized,
        ensures
            r is Ok <==> record@.name == CLAS@ && class_from_fields(record@.fields) is Some,
            r matches Ok(c) ==> c@ == class_from_fields(record@.fields).unwrap(),
    {
        check_record_type(record.name(), &CLAS)?;
        let fields = record.fields();
        let ghost view = record@.fields;
        let ghost step = class_step_fn();
        let mut class = Class::empty();
        let mut i: usize = 0;
        proof {
            assert(view.take(0) =~= Seq::<FieldModel>::empty());
        }
        while i < fields.len()
            invariant
                fields@.map_values(|f: Tes3Field| f@) == view,
                step == class_step_fn(),
                record@.name == CLAS@,
                view == record@.fields,
                i <= fields@.len(),
                fold_fields(empty_class(), step, view.take(i as int)) == Some(class@),
            decreases fields@.len() - i,
        {
            let field = &fields[i];
            proof {
                assert(view[i as int] == field@);
                lemma_fold_step(empty_class(), step, view, i as int);
            }
            let ghost before = class@;
            match class.apply_field(field) {
                Ok(()) => {
                    assert(step(before, view[i as int]) == Some(class@));
                },
                Err(e) => {
                    proof {
                        assert(step(before, view[i as int]) is None);
                        lemma_fold_none(empty_class(), step, view, i + 1);
                    }
                    return Err(e);
                },
            }
            i = i + 1;
        }
        proof {
            assert(view.take(i as int) =~= view);
        }
        Ok(class)
    }

    /// Returns whether a given skill is a major, minor, or misc skill for this class
    pub fn get_skill_type(&self, skill: Skill) -> (r: SkillType)
        ensures
            r == skill_type_spec(self@, skill),
    {
        let mut k: usize = 0;
        while k < 5
            invariant
                k <= 5,
                forall|j: int| 0 <= j < k ==> self.major_skills@[j] != skill,
            decreases 5 - k,
        {
            if self.major_skills[k] == skill {
                proof {
                    assert(self@.major_skills[k as int] == skill);
                }
                return SkillType::Major;
            }
            k = k + 1;
        }
        let mut k: usize = 0;
        while k < 5
            invariant
                k <= 5,
                forall|j: int| 0 <= j < 5 ==> self.major_skills@[j] != skill,
                forall|j: int| 0 <= j < k ==> self.minor_skills@[j] != skill,
            decreases 5 - k,
        {
            if self.minor_skills[k] == skill {
                proof {
                    assert(self@.minor_skills[k as int] == skill);
                }
                return SkillType::Minor;
            }
            k = k + 1;
        }
        SkillType::Miscellaneous
    }

    /// Returns this class's ID
    pub fn id(&self) -> (r: &str)
        ensures
            r@ == self@.id,
    {
        self.id.as_str()
    }

    /// Returns this class's name
    pub fn name(&self) -> (r: &str)
        ensures
            r@ == self@.name,
    {
        self.name.as_str()
    }

    /// Returns this class's description, if any
    pub fn description(&self) -> (r: Option<&str>)
        ensures
            r is Some <==> self@.description is Some,
            r matches Some(s) ==> self@.description == Some(s@),
    {
        match &self.description {
            Some(d) => Some(d.as_str()),
            None => None,
        }
    }

    /// Gets this class's primary attributes
    pub fn primary_attribute(&self) -> (r: &[Attribute; 2])
        ensures
            r@ == self@.primary_attributes,
    {
        &self.primary_attributes
    }

    /// Gets this class's major skills
    pub fn major_skills(&self) -> (r: &[Skill; 5])
        ensures
            r@ == self@.major_skills,
    {
        &self.major_skills
    }

    /// Gets this class's minor skills
    pub fn minor_skills(&self) -> (r: &[Skill; 5])
        ensures
            r@ == self@.minor_skills,
    {
        &self.minor_skills
    }
}

} // verus!
