//! Creatures, as held by `CREA` records.

use vstd::prelude::*;

use crate::error::{decode_failed, TesError};
use crate::plugin::{FieldModel, RecordStatus};
use crate::tags::{slice_is_tag, CNAM, CREA, FLAG, NAME, NPDT, XSCL};
use crate::tes3::actor::{actor_step, empty_actor, Actor, ActorModel};
use crate::tes3::field::Tes3Field;
use crate::tes3::form::{
    check_record_type, field_zstring, fold_fields, lemma_fold_none, lemma_fold_step, word,
    word_at, zstring_value,
};
use crate::tes3::player::u32_at;
use crate::tes3::record::Tes3Record;

verus! {

/// The kind of a creature
#[derive(Debug, Default, Copy, Clone, PartialEq, Eq, Structural)]
pub enum CreatureType {
    #[default]
    Creature,
    Daedra,
    Undead,
    Humanoid,
}

impl CreatureType {
    /// The number that stands for this value in the file formats
    pub open spec fn index(self) -> u32 {
        match self {
            CreatureType::Creature => 0u32,
            CreatureType::Daedra => 1u32,
            CreatureType::Undead => 2u32,
            CreatureType::Humanoid => 3u32,
        }
    }

    /// The value that a number stands for, if any
    pub open spec fn from_index(v: u32) -> Option<CreatureType> {
        match v {
            0u32 => Some(CreatureType::Creature),
            1u32 => Some(CreatureType::Daedra),
            2u32 => Some(CreatureType::Undead),
            3u32 => Some(CreatureType::Humanoid),
            _ => None,
        }
    }

    /// Gets the number that stands for this value
    pub fn to_u32(self) -> (r: u32)
        ensures
            r == self.index(),
    {
        match self {
            CreatureType::Creature => 0u32,
            CreatureType::Daedra => 1u32,
            CreatureType::Undead => 2u32,
            CreatureType::Humanoid => 3u32,
        }
    }

    /// Gets the value that a number stands for, if any
    pub fn try_from_u32(v: u32) -> (r: Option<CreatureType>)
        ensures
            r == CreatureType::from_index(v),
    {
        match v {
            0u32 => Some(CreatureType::Creature),
            1u32 => Some(CreatureType::Daedra),
            2u32 => Some(CreatureType::Undead),
            3u32 => Some(CreatureType::Humanoid),
            _ => None,
        }
    }

    /// A value's number stands for that value.
    pub proof fn lemma_index_roundtrip(self)
        ensures
            CreatureType::from_index(self.index()) == Some(self),
    {
    }

    /// A number that stands for a value is that value's number.
    pub proof fn lemma_from_index_roundtrip(v: u32)
        ensures
            CreatureType::from_index(v) matches Some(x) ==> x.index() == v,
    {
    }
}

/// A creature's stats, as held by its `NPDT` field
#[derive(Debug, Default, Copy, Clone)]
pub struct CreatureData {
    pub creature_type: CreatureType,
    pub level: u32,
    pub attributes: [u32; 8],
    pub health: u32,
    pub magicka: u32,
    pub fatigue: u32,
    pub soul: u32,
    pub combat: u32,
    pub magic: u32,
    pub stealth: u32,
    pub attack_min_1: u32,
    pub attack_max_1: u32,
    pub attack_min_2: u32,
    pub attack_max_2: u32,
    pub attack_min_3: u32,
    pub attack_max_3: u32,
    pub gold: u32,
}

/// The `NPDT` data decodes: 24 little-endian words, the first a known creature type.
pub open spec fn creature_data_valid(d: Seq<u8>) -> bool {
    d.len() >= 96 && CreatureType::from_index(word(d, 0)) is Some
}

/// The stats held by `NPDT` data: the creature type, the level, the 8 attributes, health,
/// magicka, fatigue, soul, the combat, magic and stealth skills, three attacks' minimum and
/// maximum damage, and the gold, each a little-endian `u32`.
pub open spec fn creature_data_from(d: Seq<u8>) -> CreatureData {
    CreatureData {
        creature_type: CreatureType::from_index(word(d, 0)).unwrap(),
        level: word(d, 1),
        attributes: [
            word(d, 2),
            word(d, 3),
            word(d, 4),
            word(d, 5),
            word(d, 6),
            word(d, 7),
            word(d, 8),
            word(d, 9),
        ],
        health: word(d, 10),
        magicka: word(d, 11),
        fatigue: word(d, 12),
        soul: word(d, 13),
        combat: word(d, 14),
        magic: word(d, 15),
        stealth: word(d, 16),
        attack_min_1: word(d, 17),
        attack_max_1: word(d, 18),
        attack_min_2: word(d, 19),
        attack_max_2: word(d, 20),
        attack_min_3: word(d, 21),
        attack_max_3: word(d, 22),
        gold: word(d, 23),
    }
}

impl CreatureData {
    /// Decodes a creature's stats from `NPDT` data
    ///
    /// Fails with [`TesError::UnexpectedEof`] if the data is shorter than 96 bytes, or with
    /// [`TesError::DecodeFailed`] if the creature type is unknown.
    pub fn from_bytes(d: &[u8]) -> (r: Result<CreatureData, TesError>)
        ensures
            r is Ok <==> creature_data_valid(d@),
            r matches Ok(c) ==> c == creature_data_from(d@),
    {
        if d.len() < 96 {
            return Err(TesError::UnexpectedEof);
        }
        let creature_type = match CreatureType::try_from_u32(word_at(d, 0)) {
            Some(t) => t,
            None => {
                return Err(decode_failed("Invalid creature type"));
            },
        };
        let r = CreatureData {
            creature_type,
            level: word_at(d, 1),
            attributes: [
                word_at(d, 2),
                word_at(d, 3),
                word_at(d, 4),
                word_at(d, 5),
                word_at(d, 6),
                word_at(d, 7),
                word_at(d, 8),
                word_at(d, 9),
            ],
            health: word_at(d, 10),
            magicka: word_at(d, 11),
            fatigue: word_at(d, 12),
            soul: word_at(d, 13),
            combat: word_at(d, 14),
            magic: word_at(d, 15),
            stealth: word_at(d, 16),
            attack_min_1: word_at(d, 17),
            attack_max_1: word_at(d, 18),
            attack_min_2: word_at(d, 19),
            attack_max_2: word_at(d, 20),
            attack_min_3: word_at(d, 21),
            attack_max_3: word_at(d, 22),
            gold: word_at(d, 23),
        };
        assert(r.attributes@ =~= creature_data_from(d@).attributes@);
        Ok(r)
    }
}

/// Creature flag: walks on two legs
pub const CREATURE_BIPED: u32 = 0x00000001;

/// All known creature flags
pub const CREATURE_FLAGS: u32 = 0x00001cff;

/// The abstract content of a creature; the scale is the bits of an `f32`.
pub struct CreatureModel {
    pub id: Seq<char>,
    pub sound_gen_creature: Option<Seq<char>>,
    pub data: CreatureData,
    pub flags: u32,
    pub scale: Option<u32>,
    pub actor: ActorModel,
}

/// The creature before any field is read.
pub open spec fn empty_creature() -> CreatureModel {
    CreatureModel {
        id: Seq::empty(),
        sound_gen_creature: None,
        data: CreatureData {
            creature_type: CreatureType::Creature,
            level: 0,
            attributes: [0u32, 0u32, 0u32, 0u32, 0u32, 0u32, 0u32, 0u32],
            health: 0,
            magicka: 0,
            fatigue: 0,
            soul: 0,
            combat: 0,
            magic: 0,
            stealth: 0,
            attack_min_1: 0,
            attack_max_1: 0,
            attack_min_2: 0,
            attack_max_2: 0,
            attack_min_3: 0,
            attack_max_3: 0,
            gold: 0,
        },
        flags: 0,
        scale: None,
        actor: empty_actor(false),
    }
}

/// Reading one field of a creature record; fields that all actors have are read into the actor,
/// whose inventory gets an entry for each item field.
pub open spec fn creature_step(c: CreatureModel, f: FieldModel) -> Option<CreatureModel> {
    if f.name == NAME@ {
        match zstring_value(f.data) {
            Some(v) => Some(CreatureModel { id: v, ..c }),
            None => None,
        }
    } else if f.name == CNAM@ {
        match zstring_value(f.data) {
            Some(v) => Some(CreatureModel { sound_gen_creature: Some(v), ..c }),
            None => None,
        }
    } else if f.name == NPDT@ {
        if creature_data_valid(f.data) {
            Some(CreatureModel { data: creature_data_from(f.data), ..c })
        } else {
            None
        }
    } else if f.name == FLAG@ {
        if f.data.len() == 4 && u32_at(f.data, 0) & !CREATURE_FLAGS == 0 {
            Some(CreatureModel { flags: u32_at(f.data, 0), ..c })
        } else {
            None
        }
    } else if f.name == XSCL@ {
        if f.data.len() == 4 {
            Some(CreatureModel { scale: Some(u32_at(f.data, 0)), ..c })
        } else {
            None
        }
    } else {
        match actor_step(c.actor, f) {
            Some(a) => Some(CreatureModel { actor: a, ..c }),
            None => None,
        }
    }
}

/// [`creature_step`] as a function value.
pub open spec fn creature_step_fn() -> spec_fn(CreatureModel, FieldModel) -> Option<CreatureModel> {
    |c: CreatureModel, f: FieldModel| creature_step(c, f)
}

/// A creature
pub struct Creature {
    id: String,
    sound_gen_creature: Option<String>,
    data: CreatureData,
    flags: u32,
    scale: Option<u32>,
    actor: Actor,
}

impl View for Creature {
    type V = CreatureModel;

    closed spec fn view(&self) -> CreatureModel {
        CreatureModel {
            id: self.id@,
            sound_gen_creature: match self.sound_gen_creature {
                Some(s) => Some(s@),
                None => None,
            },
            data: self.data,
            flags: self.flags,
            scale: self.scale,
            actor: self.actor@,
        }
    }
}

impl Creature {
    /// The creature's actor state is well formed.
    pub closed spec fn wf(&self) -> bool {
        self.actor.wf()
    }

    fn empty() -> (r: Creature)
        ensures
            r.wf(),
            r@ == empty_creature(),
    {
        let r = Creature {
            id: String::new(),
            sound_gen_creature: None,
            data: CreatureData {
                creature_type: CreatureType::Creature,
                level: 0,
                attributes: [0u32; 8],
                health: 0,
                magicka: 0,
                fatigue: 0,
                soul: 0,
                combat: 0,
                magic: 0,
                stealth: 0,
                attack_min_1: 0,
                attack_max_1: 0,
                attack_min_2: 0,
                attack_max_2: 0,
                attack_min_3: 0,
                attack_max_3: 0,
                gold: 0,
            },
            flags: 0,
            scale: None,
            actor: Actor::new(false),
        };
        assert(r@.id =~= Seq::<char>::empty());
        assert(r@.data.attributes =~= empty_creature().data.attributes);
        r
    }

    fn apply_field(&mut self, field: &Tes3Field) -> (r: Result<(), TesError>)
        requires
            old(self).wf(),
        ensures
            final(self).wf(),
            r is Ok <==> creature_step(old(self)@, field@) is Some,
            r is Ok ==> final(self)@ == creature_step(old(self)@, field@).unwrap(),
    {
        let name = field.name();
        if slice_is_tag(name, &NAME) {
            self.id = field_zstring(field)?;
        } else if slice_is_tag(name, &CNAM) {
            self.sound_gen_creature = Some(field_zstring(field)?);
        } else if slice_is_tag(name, &NPDT) {
            self.data = CreatureData::from_bytes(field.get())?;
        } else if slice_is_tag(name, &FLAG) {
            let flags = field.get_u32()?;
            proof {
                assert(field@.data.subrange(0, 4) =~= field@.data);
            }
            if flags & !CREATURE_FLAGS != 0 {
                return Err(decode_failed("Invalid creature flags"));
            }
            self.flags = flags;
        } else if slice_is_tag(name, &XSCL) {
            let scale = field.get_f32_bits()?;
            proof {
                assert(field@.data.subrange(0, 4) =~= field@.data);
            }
            self.scale = Some(scale);
        } else {
            self.actor.read_actor_field(field)?;
        }
        Ok(())
    }

    /// Reads a `CREA` record
    ///
    /// Fails if the record has another type, if it holds an unexpected field, or if a field's
    /// data does not decode.
    pub fn read(record: &Tes3Record) -> (r: Result<Creature, TesError>)
        requires
            record@.status == RecordStatus::Finalized,
        ensures
            r is Ok <==> record@.name == CREA@ && fold_fields(empty_creature(), creature_step_fn(), record@.fields) is Some,
            r matches Ok(v) ==> v.wf() && v@ == fold_fields(empty_creature(), creature_step_fn(), record@.fields).unwrap(),
    {
        check_record_type(record.name(), &CREA)?;
        let fields = record.fields();
        let ghost view = record@.fields;
        let ghost step = creature_step_fn();
        let mut value = Creature::empty();
        let mut i: usize = 0;
        proof {
            assert(view.take(0) =~= Seq::<FieldModel>::empty());
        }
        while i < fields.len()
            invariant
                fields@.map_values(|f: Tes3Field| f@) == view,
                step == creature_step_fn(),
                record@.name == CREA@,
                view == record@.fields,
                i <= fields@.len(),
                value.wf(),
                fold_fields(empty_creature(), step, view.take(i as int)) == Some(value@),
            decreases fields@.len() - i,
        {
            let field = &fields[i];
            proof {
                assert(view[i as int] == field@);
                lemma_fold_step(empty_creature(), step, view, i as int);
            }
            let ghost before = value@;
            match value.apply_field(field) {
                Ok(()) => {
                    assert(step(before, view[i as int]) == Some(value@));
                },
                Err(e) => {
                    proof {
                        assert(step(before, view[i as int]) is None);
                        lemma_fold_none(empty_creature(), step, view, i + 1);
                    }
                    return Err(e);
                },
            }
            i = i + 1;
        }
        proof {
            assert(view.take(i as int) =~= view);
        }
        Ok(value)
    }

    /// Gets this creature's ID
    pub fn id(&self) -> (r: &str)
        ensures
            r@ == self@.id,
    {
        self.id.as_str()
    }

    /// Gets this creature's name, if any
    pub fn name(&self) -> (r: Option<&str>)
        ensures
            r is Some <==> self@.actor.name is Some,
            r matches Some(s) ==> s@ == self@.actor.name.unwrap(),
    {
        self.actor.name()
    }

    /// Gets this creature's NIF model; empty if the record names none
    pub fn model(&self) -> (r: Option<&str>)
        ensures
            r is Some,
            r matches Some(s) ==> s@ == match self@.actor.model {
                Some(m) => m,
                None => Seq::empty(),
            },
    {
        match self.actor.model() {
            Some(m) => Some(m),
            None => {
                let e = "";
                proof {
                    reveal_strlit("");
                }
                Some(e)
            },
        }
    }

    /// Gets the creature whose sounds this creature uses, if any
    pub fn sound_gen_creature(&self) -> (r: Option<&str>)
        ensures
            r is Some <==> self@.sound_gen_creature is Some,
            r matches Some(s) ==> s@ == self@.sound_gen_creature.unwrap(),
    {
        match &self.sound_gen_creature {
            Some(s) => Some(s.as_str()),
            None => None,
        }
    }

    /// Get this creature's stats
    pub fn data(&self) -> (r: &CreatureData)
        ensures
            *r == self@.data,
    {
        &self.data
    }

    /// Gets this creature's scale, as the bits of an `f32`, if it has one
    pub fn scale_bits(&self) -> (r: Option<u32>)
        ensures
            r == self@.scale,
    {
        self.scale
    }

    /// Gets the creature's spells, inventory, AI packages and other state that all actors have
    pub fn actor(&self) -> (r: &Actor)
        ensures
            r@ == self@.actor,
    {
        &self.actor
    }
}

} // verus!
