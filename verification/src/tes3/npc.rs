//! NPCs, and the player character, as held by `NPC_` records.

use vstd::prelude::*;

use crate::common::{check_size, MAX_DATA};
use crate::error::{decode_failed, TesError};
use crate::plugin::{FieldModel, RecordStatus};
use crate::tags::{slice_is_tag, ANAM, BNAM, CNAM, FLAG, KNAM, NAME, NPC_, NPDT, RNAM};
use crate::tes3::actor::{actor_step, empty_actor, Actor, ActorModel};
use crate::tes3::field::Tes3Field;
use crate::tes3::form::{
    check_record_type, field_zstring, fold_fields, lemma_fold_none, lemma_fold_step, zstring_value,
};
use crate::tes3::package::u16_at;
use crate::tes3::player::{u32_at, u32_at_exec};
use crate::tes3::record::Tes3Record;
use crate::bytes::read_u16_at;

verus! {

/// NPC flag: female
pub const NPC_FEMALE: u32 = 0x0001;

/// NPC flag: essential
pub const NPC_ESSENTIAL: u32 = 0x0002;

/// NPC flag: respawns
pub const NPC_RESPAWN: u32 = 0x0004;

/// NPC flag: unknown meaning
pub const NPC_UNKNOWN: u32 = 0x0008;

/// NPC flag: stats are calculated automatically
pub const NPC_AUTO_CALC: u32 = 0x0010;

/// NPC flag: blood is a skeleton's
pub const NPC_BLOOD_SKELETON: u32 = 0x0400;

/// NPC flag: blood is sparks
pub const NPC_BLOOD_SPARKS: u32 = 0x0800;

/// All known NPC flags
pub const NPC_FLAGS: u32 = 0x0c1f;

/// Maximum length of certain strings in an NPC record
pub const NPC_STRING_LENGTH: usize = 32;

/// The abstract content of an NPC.
pub struct NpcModel {
    pub id: Seq<char>,
    pub race: Seq<char>,
    pub class: Seq<char>,
    pub faction: Seq<char>,
    pub head: Seq<char>,
    pub hair: Seq<char>,
    pub level: u16,
    pub attributes: Seq<u8>,
    pub skills: Seq<u8>,
    pub health: u16,
    pub magicka: u16,
    pub fatigue: u16,
    pub disposition: u8,
    pub reputation: u8,
    pub rank: u8,
    pub gold: u32,
    pub flags: u32,
    pub actor: ActorModel,
}

/// The NPC before any field is read.
pub open spec fn empty_npc() -> NpcModel {
    NpcModel {
        id: Seq::empty(),
        race: Seq::empty(),
        class: Seq::empty(),
        faction: Seq::empty(),
        head: Seq::empty(),
        hair: Seq::empty(),
        level: 0,
        attributes: Seq::new(8, |i: int| 0u8),
        skills: Seq::new(27, |i: int| 0u8),
        health: 0,
        magicka: 0,
        fatigue: 0,
        disposition: 0,
        reputation: 0,
        rank: 0,
        gold: 0,
        flags: 0,
        actor: empty_actor(true),
    }
}

/// The NPC with the `NPDT` data read: 12 bytes for an NPC whose stats are calculated
/// automatically (level, disposition, reputation, rank, 3 ignored bytes, gold), else the level,
/// the 8 attributes, the 27 skills, health, magicka, fatigue, disposition, reputation, rank, an
/// ignored byte and the gold.
pub open spec fn with_npc_data(n: NpcModel, d: Seq<u8>) -> Option<NpcModel> {
    if d.len() == 12 {
        Some(
            NpcModel {
                level: u16_at(d, 0),
                disposition: d[2],
                reputation: d[3],
                rank: d[4],
                gold: u32_at(d, 8),
                ..n
            },
        )
    } else if d.len() >= 51 {
        Some(
            NpcModel {
                level: u16_at(d, 0),
                attributes: d.subrange(2, 10),
                skills: d.subrange(10, 37),
                health: u16_at(d, 37),
                magicka: u16_at(d, 39),
                fatigue: u16_at(d, 41),
                disposition: d[43],
                reputation: d[44],
                rank: d[45],
                gold: u32_at(d, 47),
                ..n
            },
        )
    } else {
        None
    }
}

/// Reading one field of an NPC record; fields that all actors have are read into the actor.
pub open spec fn npc_step(n: NpcModel, f: FieldModel) -> Option<NpcModel> {
    if f.name == NAME@ {
        match zstring_value(f.data) {
            Some(v) => Some(NpcModel { id: v, ..n }),
            None => None,
        }
    } else if f.name == RNAM@ {
        match zstring_value(f.data) {
            Some(v) => Some(NpcModel { race: v, ..n }),
            None => None,
        }
    } else if f.name == CNAM@ {
        match zstring_value(f.data) {
            Some(v) => Some(NpcModel { class: v, ..n }),
            None => None,
        }
    } else if f.name == ANAM@ {
        match zstring_value(f.data) {
            Some(v) => Some(NpcModel { faction: v, ..n }),
            None => None,
        }
    } else if f.name == BNAM@ {
        match zstring_value(f.data) {
            Some(v) => Some(NpcModel { head: v, ..n }),
            None => None,
        }
    } else if f.name == KNAM@ {
        match zstring_value(f.data) {
            Some(v) => Some(NpcModel { hair: v, ..n }),
            None => None,
        }
    } else if f.name == NPDT@ {
        with_npc_data(n, f.data)
    } else if f.name == FLAG@ {
        if f.data.len() == 4 && u32_at(f.data, 0) & !NPC_FLAGS == 0 {
            Some(NpcModel { flags: u32_at(f.data, 0), ..n })
        } else {
            None
        }
    } else {
        match actor_step(n.actor, f) {
            Some(a) => Some(NpcModel { actor: a, ..n }),
            None => None,
        }
    }
}

/// [`npc_step`] as a function value.
pub open spec fn npc_step_fn() -> spec_fn(NpcModel, FieldModel) -> Option<NpcModel> {
    |n: NpcModel, f: FieldModel| npc_step(n, f)
}

/// An NPC (or the PC) in the game
pub struct Npc {
    id: String,
    race: String,
    class: String,
    faction: String,
    head: String,
    hair: String,
    pub level: u16,
    pub attributes: [u8; 8],
    pub skills: [u8; 27],
    health: u16,
    magicka: u16,
    fatigue: u16,
    disposition: u8,
    reputation: u8,
    rank: u8,
    gold: u32,
    flags: u32,
    actor: Actor,
}

impl View for Npc {
    type V = NpcModel;

    closed spec fn view(&self) -> NpcModel {
        NpcModel {
            id: self.id@,
            race: self.race@,
            class: self.class@,
            faction: self.faction@,
            head: self.head@,
            hair: self.hair@,
            level: self.level,
            attributes: self.attributes@,
            skills: self.skills@,
            health: self.health,
            magicka: self.magicka,
            fatigue: self.fatigue,
            disposition: self.disposition,
            reputation: self.reputation,
            rank: self.rank,
            gold: self.gold,
            flags: self.flags,
            actor: self.actor@,
        }
    }
}

impl Npc {
    /// The NPC's actor state is well formed.
    pub closed spec fn wf(&self) -> bool {
        self.actor.wf()
    }

    fn empty() -> (r: Npc)
        ensures
            r.wf(),
            r@ == empty_npc(),
    {
        let r = Npc {
            id: String::new(),
            race: String::new(),
            class: String::new(),
            faction: String::new(),
            head: String::new(),
            hair: String::new(),
            level: 0,
            attributes: [0u8; 8],
            skills: [0u8; 27],
            health: 0,
            magicka: 0,
            fatigue: 0,
            disposition: 0,
            reputation: 0,
            rank: 0,
            gold: 0,
            flags: 0,
            actor: Actor::new(true),
        };
        assert(r@.id =~= Seq::<char>::empty());
        assert(r@.race =~= Seq::<char>::empty());
        assert(r@.class =~= Seq::<char>::empty());
        assert(r@.faction =~= Seq::<char>::empty());
        assert(r@.head =~= Seq::<char>::empty());
        assert(r@.hair =~= Seq::<char>::empty());
        assert(r@.attributes =~= Seq::new(8, |i: int| 0u8));
        assert(r@.skills =~= Seq::new(27, |i: int| 0u8));
        r
    }

    /// Reads the `NPDT` data.
    fn read_data(&mut self, d: &[u8]) -> (r: Result<(), TesError>)
        requires
            old(self).wf(),
        ensures
            final(self).wf(),
            r is Ok <==> with_npc_data(old(self)@, d@) is Some,
            r is Ok ==> final(self)@ == with_npc_data(old(self)@, d@).unwrap(),
    {
        let len = d.len();
        if len == 12 {
            self.level = read_u16_at(d, 0).unwrap();
            self.disposition = d[2];
            self.reputation = d[3];
            self.rank = d[4];
            self.gold = u32_at_exec(d, 8);
            Ok(())
        } else if len >= 51 {
            self.level = read_u16_at(d, 0).unwrap();
            let attributes = [d[2], d[3], d[4], d[5], d[6], d[7], d[8], d[9]];
            assert(attributes@ =~= d@.subrange(2, 10));
            let mut skills = [0u8; 27];
            let mut k: usize = 0;
            while k < 27
                invariant
                    k <= 27,
                    d@.len() >= 51,
                    forall|j: int| 0 <= j < k ==> skills@[j] == d@[10 + j],
                decreases 27 - k,
            {
                skills[k] = d[10 + k];
                k = k + 1;
            }
            assert(skills@ =~= d@.subrange(10, 37));
            self.attributes = attributes;
            self.skills = skills;
            self.health = read_u16_at(d, 37).unwrap();
            self.magicka = read_u16_at(d, 39).unwrap();
            self.fatigue = read_u16_at(d, 41).unwrap();
            self.disposition = d[43];
            self.reputation = d[44];
            self.rank = d[45];
            self.gold = u32_at_exec(d, 47);
            Ok(())
        } else {
            Err(TesError::UnexpectedEof)
        }
    }

    fn apply_field(&mut self, field: &Tes3Field) -> (r: Result<(), TesError>)
        requires
            old(self).wf(),
        ensures
            final(self).wf(),
            r is Ok <==> npc_step(old(self)@, field@) is Some,
            r is Ok ==> final(self)@ == npc_step(old(self)@, field@).unwrap(),
    {
        let name = field.name();
        if slice_is_tag(name, &NAME) {
            self.id = field_zstring(field)?;
        } else if slice_is_tag(name, &RNAM) {
            self.race = field_zstring(field)?;
        } else if slice_is_tag(name, &CNAM) {
            self.class = field_zstring(field)?;
        } else if slice_is_tag(name, &ANAM) {
            self.faction = field_zstring(field)?;
        } else if slice_is_tag(name, &BNAM) {
            self.head = field_zstring(field)?;
        } else if slice_is_tag(name, &KNAM) {
            self.hair = field_zstring(field)?;
        } else if slice_is_tag(name, &NPDT) {
            self.read_data(field.get())?;
        } else if slice_is_tag(name, &FLAG) {
            let flags = field.get_u32()?;
            proof {
                assert(field@.data.subrange(0, 4) =~= field@.data);
            }
            if flags & !NPC_FLAGS != 0 {
                return Err(decode_failed("Invalid NPC flags"));
            }
            self.flags = flags;
        } else {
            self.actor.read_actor_field(field)?;
        }
        Ok(())
    }

    /// Reads an `NPC_` record
    ///
    /// Fails if the record has another type, if it holds an unexpected field, or if a field's
    /// data does not decode.
    pub fn read(record: &Tes3Record) -> (r: Result<Npc, TesError>)
        requires
            record@.status == RecordStatus::Finalized,
        ensures
            r is Ok <==> record@.name == NPC_@ && fold_fields(empty_npc(), npc_step_fn(), record@.fields) is Some,
            r matches Ok(v) ==> v.wf() && v@ == fold_fields(empty_npc(), npc_step_fn(), record@.fields).unwrap(),
    {
        check_record_type(record.name(), &NPC_)?;
        let fields = record.fields();
        let ghost view = record@.fields;
        let ghost step = npc_step_fn();
        let mut value = Npc::empty();
        let mut i: usize = 0;
        proof {
            assert(view.take(0) =~= Seq::<FieldModel>::empty());
        }
        while i < fields.len()
            invariant
                fields@.map_values(|f: Tes3Field| f@) == view,
                step == npc_step_fn(),
                record@.name == NPC_@,
                view == record@.fields,
                i <= fields@.len(),
                value.wf(),
                fold_fields(empty_npc(), step, view.take(i as int)) == Some(value@),
            decreases fields@.len() - i,
        {
            let field = &fields[i];
            proof {
                assert(view[i as int] == field@);
                lemma_fold_step(empty_npc(), step, view, i as int);
            }
            let ghost before = value@;
            match value.apply_field(field) {
                Ok(()) => {
                    assert(step(before, view[i as int]) == Some(value@));
                },
                Err(e) => {
                    proof {
                        assert(step(before, view[i as int]) is None);
                        lemma_fold_none(empty_npc(), step, view, i + 1);
                    }
                    return Err(e);
                },
            }
            i = i + 1;
        }
        proof {
            assert(view.take(i as int) =~= view);
        }
        Ok(value)
    }

    /// Gets the character's ID
    pub fn id(&self) -> (r: &str)
        ensures
            r@ == self@.id,
    {
        self.id.as_str()
    }

    /// Gets the character's name
    pub fn name(&self) -> (r: Option<&str>)
        ensures
            r is Some <==> self@.actor.name is Some,
            r matches Some(s) ==> s@ == self@.actor.name.unwrap(),
    {
        self.actor.name()
    }

    /// Sets the character's name
    ///
    /// Fails with [`TesError::LimitExceeded`], changing nothing, if the string is longer than
    /// [`MAX_DATA`] bytes.
    pub fn set_name(&mut self, name: String) -> (r: Result<(), TesError>)
        requires
            old(self).wf(),
        ensures
            final(self).wf(),
            r is Ok <==> vstd::utf8::encode_utf8(name@).len() <= MAX_DATA,
            r is Ok ==> final(self)@ == (NpcModel {
                actor: ActorModel { name: Some(name@), ..old(self)@.actor },
                ..old(self)@
            }),
            r is Err ==> final(self)@ == old(self)@,
    {
        let len = name.as_str().as_bytes().len();
        check_size(len, MAX_DATA, "NPC name too long")?;
        self.actor.set_name(Some(name));
        Ok(())
    }

    /// Gets the character's class
    pub fn class(&self) -> (r: &str)
        ensures
            r@ == self@.class,
    {
        self.class.as_str()
    }

    /// Sets the character's class
    ///
    /// Fails with [`TesError::LimitExceeded`], changing nothing, if the string is longer than
    /// [`MAX_DATA`] bytes.
    pub fn set_class(&mut self, class: String) -> (r: Result<(), TesError>)
        requires
            old(self).wf(),
        ensures
            final(self).wf(),
            r is Ok <==> vstd::utf8::encode_utf8(class@).len() <= MAX_DATA,
            r is Ok ==> final(self)@ == (NpcModel { class: class@, ..old(self)@ }),
            r is Err ==> final(self)@ == old(self)@,
    {
        let len = class.as_str().as_bytes().len();
        check_size(len, MAX_DATA, "NPC class too long")?;
        self.class = class;
        Ok(())
    }

    /// Gets whether the character is female
    pub fn is_female(&self) -> (r: bool)
        ensures
            r == (self@.flags & NPC_FEMALE != 0),
    {
        self.flags & NPC_FEMALE != 0
    }

    /// Sets whether the character is female
    pub fn set_is_female(&mut self, is_female: bool)
        requires
            old(self).wf(),
        ensures
            final(self).wf(),
            final(self)@ == (NpcModel {
                flags: if is_female {
                    old(self)@.flags | NPC_FEMALE
                } else {
                    old(self)@.flags & !NPC_FEMALE
                },
                ..old(self)@
            }),
    {
        if is_female {
            self.flags = self.flags | NPC_FEMALE;
        } else {
            self.flags = self.flags & !NPC_FEMALE;
        }
    }

    /// Gets the character's race
    pub fn race(&self) -> (r: &str)
        ensures
            r@ == self@.race,
    {
        self.race.as_str()
    }

    /// Sets the character's race
    ///
    /// Fails with [`TesError::LimitExceeded`], changing nothing, if the string is longer than
    /// [`MAX_DATA`] bytes.
    pub fn set_race(&mut self, race: String) -> (r: Result<(), TesError>)
        requires
            old(self).wf(),
        ensures
            final(self).wf(),
            r is Ok <==> vstd::utf8::encode_utf8(race@).len() <= MAX_DATA,
            r is Ok ==> final(self)@ == (NpcModel { race: race@, ..old(self)@ }),
            r is Err ==> final(self)@ == old(self)@,
    {
        let len = race.as_str().as_bytes().len();
        check_size(len, MAX_DATA, "NPC race too long")?;
        self.race = race;
        Ok(())
    }

    /// Gets the character's spells
    pub fn spells(&self) -> (r: &[String])
        ensures
            r@.map_values(|s: String| s@) == self@.actor.spells,
    {
        self.actor.iter_spells()
    }

    /// Gets the character's inventory, AI packages and other state that all actors have
    pub fn actor(&self) -> (r: &Actor)
        ensures
            r@ == self@.actor,
    {
        &self.actor
    }
}

} // verus!
