//! Changes to NPCs and creatures in Oblivion saves.

use vstd::prelude::*;
use vstd::utf8::{decode_utf8, encode_utf8, valid_utf8};

use crate::bytes::{le_value, read_u16_at, read_u32_at};
use crate::common::{check_size, Attribute, MAX_BSTRING};
use crate::error::{decode_failed, TesError};
use crate::save::{ChangeRecord, ChangeType};
use crate::strings::str_from_utf8;

verus! {

/// The change flags that an actor change record may carry: form flags, base health, base
/// attributes, base data, spell list, factions, full name, AI data, skills, combat style and
/// base modifiers.
pub const ACTOR_CHANGE_FLAGS_ALL: u32 = 0x100007fd;

/// The actor flags that base data may carry.
pub const ACTOR_FLAGS_ALL: u32 = 0x4010e29b;

/// The little-endian `u32` at byte `pos` of `d`.
pub open spec fn u32_at(d: Seq<u8>, pos: int) -> u32 {
    le_value(d.subrange(pos, pos + 4)) as u32
}

/// The little-endian `u16` at byte `pos` of `d`.
pub open spec fn u16_at(d: Seq<u8>, pos: int) -> u16 {
    le_value(d.subrange(pos, pos + 2)) as u16
}

/// An actor's attributes
#[derive(Debug, Copy, Clone, PartialEq, Eq, Structural)]
pub struct Attributes {
    pub strength: u8,
    pub intelligence: u8,
    pub willpower: u8,
    pub agility: u8,
    pub speed: u8,
    pub endurance: u8,
    pub personality: u8,
    pub luck: u8,
}

/// An actor's skills
#[derive(Debug, Copy, Clone, PartialEq, Eq, Structural)]
pub struct Skills {
    pub armorer: u8,
    pub athletics: u8,
    pub blade: u8,
    pub block: u8,
    pub blunt: u8,
    pub hand_to_hand: u8,
    pub heavy_armor: u8,
    pub alchemy: u8,
    pub alteration: u8,
    pub conjuration: u8,
    pub destruction: u8,
    pub illusion: u8,
    pub mysticism: u8,
    pub restoration: u8,
    pub acrobatics: u8,
    pub light_armor: u8,
    pub marksman: u8,
    pub mercantile: u8,
    pub security: u8,
    pub sneak: u8,
    pub speechcraft: u8,
}

/// Actor base data
#[derive(Debug, Copy, Clone, PartialEq, Eq, Structural)]
pub struct ActorBase {
    pub flags: u32,
    pub magicka: u16,
    pub fatigue: u16,
    pub gold: u16,
    pub level: i16,
    pub calc_min: u16,
    pub calc_max: u16,
}

/// The abstract content of an actor change; the modifier values are the bits of `f32`s.
pub struct ActorChangeModel {
    pub change_type: ChangeType,
    pub flags: Option<u32>,
    pub attributes: Option<Attributes>,
    pub base: Option<ActorBase>,
    pub factions: Seq<(u32, i8)>,
    pub spells: Seq<u32>,
    pub ai_data: Option<Seq<u8>>,
    pub base_health: Option<u32>,
    pub modifiers: Seq<(u8, u32)>,
    pub full_name: Option<Seq<char>>,
    pub skills: Option<Skills>,
    pub combat_style: Option<u32>,
}

/// The attributes in the 8 bytes at `pos`.
pub open spec fn attributes_at(d: Seq<u8>, pos: int) -> Attributes {
    Attributes {
        strength: d[pos + 0],
        intelligence: d[pos + 1],
        willpower: d[pos + 2],
        agility: d[pos + 3],
        speed: d[pos + 4],
        endurance: d[pos + 5],
        personality: d[pos + 6],
        luck: d[pos + 7],
    }
}

/// The skills in the 21 bytes at `pos`.
pub open spec fn skills_at(d: Seq<u8>, pos: int) -> Skills {
    Skills {
        armorer: d[pos + 0],
        athletics: d[pos + 1],
        blade: d[pos + 2],
        block: d[pos + 3],
        blunt: d[pos + 4],
        hand_to_hand: d[pos + 5],
        heavy_armor: d[pos + 6],
        alchemy: d[pos + 7],
        alteration: d[pos + 8],
        conjuration: d[pos + 9],
        destruction: d[pos + 10],
        illusion: d[pos + 11],
        mysticism: d[pos + 12],
        restoration: d[pos + 13],
        acrobatics: d[pos + 14],
        light_armor: d[pos + 15],
        marksman: d[pos + 16],
        mercantile: d[pos + 17],
        security: d[pos + 18],
        sneak: d[pos + 19],
        speechcraft: d[pos + 20],
    }
}

/// An actor's value of an Oblivion skill.
pub open spec fn skill_value(s: Skills, k: crate::tes4::Skill) -> u8 {
    match k {
        crate::tes4::Skill::Armorer => s.armorer,
        crate::tes4::Skill::Athletics => s.athletics,
        crate::tes4::Skill::Blade => s.blade,
        crate::tes4::Skill::Block => s.block,
        crate::tes4::Skill::Blunt => s.blunt,
        crate::tes4::Skill::HandToHand => s.hand_to_hand,
        crate::tes4::Skill::HeavyArmor => s.heavy_armor,
        crate::tes4::Skill::Alchemy => s.alchemy,
        crate::tes4::Skill::Alteration => s.alteration,
        crate::tes4::Skill::Conjuration => s.conjuration,
        crate::tes4::Skill::Destruction => s.destruction,
        crate::tes4::Skill::Illusion => s.illusion,
        crate::tes4::Skill::Mysticism => s.mysticism,
        crate::tes4::Skill::Restoration => s.restoration,
        crate::tes4::Skill::Acrobatics => s.acrobatics,
        crate::tes4::Skill::LightArmor => s.light_armor,
        crate::tes4::Skill::Marksman => s.marksman,
        crate::tes4::Skill::Mercantile => s.mercantile,
        crate::tes4::Skill::Security => s.security,
        crate::tes4::Skill::Sneak => s.sneak,
        crate::tes4::Skill::Speechcraft => s.speechcraft,
    }
}

/// An actor's value of an attribute.
pub open spec fn attribute_value(a: Attributes, k: Attribute) -> u8 {
    match k {
        Attribute::Strength => a.strength,
        Attribute::Intelligence => a.intelligence,
        Attribute::Willpower => a.willpower,
        Attribute::Agility => a.agility,
        Attribute::Speed => a.speed,
        Attribute::Endurance => a.endurance,
        Attribute::Personality => a.personality,
        Attribute::Luck => a.luck,
    }
}

/// The attribute bytes of an actor change are in the order of the attributes' actor values:
/// each attribute is the byte at its actor value's offset from the first.
pub proof fn lemma_attributes_in_actor_value_order(d: Seq<u8>, pos: int, k: Attribute)
    requires
        0 <= pos,
        pos + 8 <= d.len(),
    ensures
        attribute_value(attributes_at(d, pos), k) == d[pos + crate::tes4::attribute_actor_value(
            k,
        ).index()],
{
}

/// The skill bytes of an actor change are in the order of the skills' actor values: each skill
/// is the byte at its actor value's offset from Armorer's, so Blade is the third byte and Block
/// the fourth.
pub proof fn lemma_skills_in_actor_value_order(d: Seq<u8>, pos: int, k: crate::tes4::Skill)
    requires
        0 <= pos,
        pos + 21 <= d.len(),
    ensures
        skill_value(skills_at(d, pos), k) == d[pos + crate::tes4::skill_actor_value(k).index()
            - crate::tes4::ActorValue::Armorer.index()],
{
}

/// The base data in the 16 bytes at `pos`: actor flags, magicka, fatigue, gold, level, and the
/// calculated level's minimum and maximum.
pub open spec fn base_at(d: Seq<u8>, pos: int) -> ActorBase {
    ActorBase {
        flags: u32_at(d, pos),
        magicka: u16_at(d, pos + 4),
        fatigue: u16_at(d, pos + 6),
        gold: u16_at(d, pos + 8),
        level: u16_at(d, pos + 10) as i16,
        calc_min: u16_at(d, pos + 12),
        calc_max: u16_at(d, pos + 14),
    }
}

/// Whether a change flag is set.
pub open spec fn has_flag(flags: u32, flag: u32) -> bool {
    flags & flag != 0
}

/// One part of the data of an actor change: if `flag` is set, the part at `pos` is read by
/// `read`, which gives the changed model and the position after the part; otherwise nothing is
/// read.
pub open spec fn actor_part(
    m: ActorChangeModel,
    flags: u32,
    flag: u32,
    pos: int,
    read: spec_fn(ActorChangeModel, int) -> Option<(ActorChangeModel, int)>,
) -> Option<(ActorChangeModel, int)> {
    if has_flag(flags, flag) {
        read(m, pos)
    } else {
        Some((m, pos))
    }
}

/// The factions in the data at `pos`: a `u16` count, then that many pairs of a form ID and a
/// rank.
pub open spec fn read_factions(d: Seq<u8>) -> spec_fn(ActorChangeModel, int) -> Option<(ActorChangeModel, int)> {
    |m: ActorChangeModel, pos: int|
        if pos + 2 > d.len() {
            None
        } else {
            let n = u16_at(d, pos) as int;
            if pos + 2 + 5 * n > d.len() {
                None
            } else {
                Some(
                    (
                        ActorChangeModel {
                            factions: m.factions + Seq::new(
                                n as nat,
                                |k: int| (u32_at(d, pos + 2 + 5 * k), d[pos + 6 + 5 * k] as i8),
                            ),
                            ..m
                        },
                        pos + 2 + 5 * n,
                    ),
                )
            }
        }
}

/// The spells in the data at `pos`: a `u16` count, then that many form IDs.
pub open spec fn read_spells(d: Seq<u8>) -> spec_fn(ActorChangeModel, int) -> Option<(ActorChangeModel, int)> {
    |m: ActorChangeModel, pos: int|
        if pos + 2 > d.len() {
            None
        } else {
            let n = u16_at(d, pos) as int;
            if pos + 2 + 4 * n > d.len() {
                None
            } else {
                Some(
                    (
                        ActorChangeModel {
                            spells: m.spells + Seq::new(n as nat, |k: int| u32_at(d, pos + 2 + 4 * k)),
                            ..m
                        },
                        pos + 2 + 4 * n,
                    ),
                )
            }
        }
}

/// The modifiers in the data at `pos`: a `u16` count, then that many pairs of an actor value
/// and the bits of an `f32`.
pub open spec fn read_modifiers(d: Seq<u8>) -> spec_fn(ActorChangeModel, int) -> Option<(ActorChangeModel, int)> {
    |m: ActorChangeModel, pos: int|
        if pos + 2 > d.len() {
            None
        } else {
            let n = u16_at(d, pos) as int;
            if pos + 2 + 5 * n > d.len() {
                None
            } else {
                Some(
                    (
                        ActorChangeModel {
                            modifiers: m.modifiers + Seq::new(
                                n as nat,
                                |k: int| (d[pos + 2 + 5 * k], u32_at(d, pos + 3 + 5 * k)),
                            ),
                            ..m
                        },
                        pos + 2 + 5 * n,
                    ),
                )
            }
        }
}

/// The form flags: a `u32`.
pub open spec fn read_form_flags(d: Seq<u8>) -> spec_fn(ActorChangeModel, int) -> Option<(ActorChangeModel, int)> {
    |m: ActorChangeModel, pos: int|
        if pos + 4 > d.len() { None } else {
            Some((ActorChangeModel { flags: Some(u32_at(d, pos)), ..m }, pos + 4))
        }
}

/// The attributes: 8 bytes.
pub open spec fn read_attributes(d: Seq<u8>) -> spec_fn(ActorChangeModel, int) -> Option<(ActorChangeModel, int)> {
    |m: ActorChangeModel, pos: int|
        if pos + 8 > d.len() { None } else {
            Some((ActorChangeModel { attributes: Some(attributes_at(d, pos)), ..m }, pos + 8))
        }
}

/// The base data: 16 bytes whose actor flags must be known.
pub open spec fn read_base(d: Seq<u8>) -> spec_fn(ActorChangeModel, int) -> Option<(ActorChangeModel, int)> {
    |m: ActorChangeModel, pos: int|
        if pos + 16 > d.len() || u32_at(d, pos) & !ACTOR_FLAGS_ALL != 0 { None } else {
            Some((ActorChangeModel { base: Some(base_at(d, pos)), ..m }, pos + 16))
        }
}

/// The AI data: 4 bytes.
pub open spec fn read_ai_data(d: Seq<u8>) -> spec_fn(ActorChangeModel, int) -> Option<(ActorChangeModel, int)> {
    |m: ActorChangeModel, pos: int|
        if pos + 4 > d.len() { None } else {
            Some((ActorChangeModel { ai_data: Some(d.subrange(pos, pos + 4)), ..m }, pos + 4))
        }
}

/// The base health: a `u32`.
pub open spec fn read_base_health(d: Seq<u8>) -> spec_fn(ActorChangeModel, int) -> Option<(ActorChangeModel, int)> {
    |m: ActorChangeModel, pos: int|
        if pos + 4 > d.len() { None } else {
            Some((ActorChangeModel { base_health: Some(u32_at(d, pos)), ..m }, pos + 4))
        }
}

/// The full name: a string prefixed by its length in one byte.
pub open spec fn read_full_name(d: Seq<u8>) -> spec_fn(ActorChangeModel, int) -> Option<(ActorChangeModel, int)> {
    |m: ActorChangeModel, pos: int|
        if pos + 1 > d.len() || pos + 1 + d[pos] > d.len() || !valid_utf8(d.subrange(pos + 1, pos + 1 + d[pos])) { None } else {
            Some((ActorChangeModel { full_name: Some(decode_utf8(d.subrange(pos + 1, pos + 1 + d[pos]))), ..m }, pos + 1 + d[pos]))
        }
}

/// The skills: 21 bytes.
pub open spec fn read_skills(d: Seq<u8>) -> spec_fn(ActorChangeModel, int) -> Option<(ActorChangeModel, int)> {
    |m: ActorChangeModel, pos: int|
        if pos + 21 > d.len() { None } else {
            Some((ActorChangeModel { skills: Some(skills_at(d, pos)), ..m }, pos + 21))
        }
}

/// The combat style: a `u32`.
pub open spec fn read_combat_style(d: Seq<u8>) -> spec_fn(ActorChangeModel, int) -> Option<(ActorChangeModel, int)> {
    |m: ActorChangeModel, pos: int|
        if pos + 4 > d.len() { None } else {
            Some((ActorChangeModel { combat_style: Some(u32_at(d, pos)), ..m }, pos + 4))
        }
}

/// The change flag of each of the eleven parts, in the order they are read.
pub open spec fn stage_flag(k: int) -> u32 {
    if k == 0 {
        0x1
    } else if k == 1 {
        0x8
    } else if k == 2 {
        0x10
    } else if k == 3 {
        0x40
    } else if k == 4 {
        0x20
    } else if k == 5 {
        0x100
    } else if k == 6 {
        0x4
    } else if k == 7 {
        0x10000000
    } else if k == 8 {
        0x80
    } else if k == 9 {
        0x200
    } else {
        0x400
    }
}

/// The reader of each of the eleven parts, in the order they are read.
pub open spec fn stage_reader(d: Seq<u8>, k: int) -> spec_fn(ActorChangeModel, int) -> Option<(ActorChangeModel, int)> {
    if k == 0 {
        read_form_flags(d)
    } else if k == 1 {
        read_attributes(d)
    } else if k == 2 {
        read_base(d)
    } else if k == 3 {
        read_factions(d)
    } else if k == 4 {
        read_spells(d)
    } else if k == 5 {
        read_ai_data(d)
    } else if k == 6 {
        read_base_health(d)
    } else if k == 7 {
        read_modifiers(d)
    } else if k == 8 {
        read_full_name(d)
    } else if k == 9 {
        read_skills(d)
    } else {
        read_combat_style(d)
    }
}

/// Reading the parts from the `k`-th on, starting at byte `pos`.
pub open spec fn run_stages(
    m: ActorChangeModel,
    flags: u32,
    d: Seq<u8>,
    k: int,
    pos: int,
) -> Option<ActorChangeModel>
    decreases 11 - k,
{
    if k >= 11 {
        Some(m)
    } else {
        match actor_part(m, flags, stage_flag(k), pos, stage_reader(d, k)) {
            None => None,
            Some((m2, p2)) => run_stages(m2, flags, d, k + 1, p2),
        }
    }
}

/// The actor change read from the data of a change record of type `t` with change flags
/// `flags`: the parts whose flags are set, in the order form flags, attributes, base data,
/// factions, spells, AI data, base health, modifiers, full name (a string of at most 255 bytes
/// prefixed by its length), skills and combat style. Only NPC and creature changes with known
/// change flags and known actor flags decode; bytes after the last part are ignored.
pub open spec fn parse_actor_change(t: ChangeType, flags: u32, d: Seq<u8>) -> Option<ActorChangeModel> {
    if !(t == ChangeType::Npc || t == ChangeType::Creature) || flags & !ACTOR_CHANGE_FLAGS_ALL != 0 {
        None
    } else {
        let m0 = ActorChangeModel {
            change_type: t,
            flags: None,
            attributes: None,
            base: None,
            factions: Seq::empty(),
            spells: Seq::empty(),
            ai_data: None,
            base_health: None,
            modifiers: Seq::empty(),
            full_name: None,
            skills: None,
            combat_style: None,
        };
        run_stages(m0, flags, d, 0, 0)
    }
}

/// A change record for an NPC or creature
#[derive(Debug)]
pub struct ActorChange {
    change_type: ChangeType,
    flags: Option<u32>,
    attributes: Option<Attributes>,
    base: Option<ActorBase>,
    factions: Vec<(u32, i8)>,
    spells: Vec<u32>,
    ai_data: Option<[u8; 4]>,
    base_health: Option<u32>,
    modifiers: Vec<(u8, u32)>,
    full_name: Option<String>,
    skills: Option<Skills>,
    combat_style: Option<u32>,
}

impl View for ActorChange {
    type V = ActorChangeModel;

    closed spec fn view(&self) -> ActorChangeModel {
        ActorChangeModel {
            change_type: self.change_type,
            flags: self.flags,
            attributes: self.attributes,
            base: self.base,
            factions: self.factions@,
            spells: self.spells@,
            ai_data: match self.ai_data {
                Some(a) => Some(a@),
                None => None,
            },
            base_health: self.base_health,
            modifiers: self.modifiers@,
            full_name: match self.full_name {
                Some(n) => Some(n@),
                None => None,
            },
            skills: self.skills,
            combat_style: self.combat_style,
        }
    }
}

fn u32_at_exec(d: &[u8], pos: usize) -> (r: u32)
    requires
        pos + 4 <= d@.len(),
    ensures
        r == u32_at(d@, pos as int),
{
    read_u32_at(d, pos).unwrap()
}

fn u16_at_exec(d: &[u8], pos: usize) -> (r: u16)
    requires
        pos + 2 <= d@.len(),
    ensures
        r == u16_at(d@, pos as int),
{
    read_u16_at(d, pos).unwrap()
}

/// The change flag of each part, as [`stage_flag`] gives it.
fn stage_flag_exec(k: usize) -> (r: u32)
    requires
        k < 11,
    ensures
        r == stage_flag(k as int),
{
    if k == 0 {
        0x1
    } else if k == 1 {
        0x8
    } else if k == 2 {
        0x10
    } else if k == 3 {
        0x40
    } else if k == 4 {
        0x20
    } else if k == 5 {
        0x100
    } else if k == 6 {
        0x4
    } else if k == 7 {
        0x10000000
    } else if k == 8 {
        0x80
    } else if k == 9 {
        0x200
    } else {
        0x400
    }
}

impl ActorChange {
    fn read_form_flags(&mut self, d: &[u8], pos: usize) -> (r: Result<usize, TesError>)
        requires
            pos <= d@.len(),
        ensures
            r is Ok <==> read_form_flags(d@)(old(self)@, pos as int) is Some,
            r matches Ok(p) ==> read_form_flags(d@)(old(self)@, pos as int) == Some((final(self)@, p as int)),
    {
        if d.len() - pos < 4 {
            return Err(TesError::UnexpectedEof);
        }
        self.flags = Some(u32_at_exec(d, pos));
        Ok(pos + 4)
    }

    fn read_attributes(&mut self, d: &[u8], pos: usize) -> (r: Result<usize, TesError>)
        requires
            pos <= d@.len(),
        ensures
            r is Ok <==> read_attributes(d@)(old(self)@, pos as int) is Some,
            r matches Ok(p) ==> read_attributes(d@)(old(self)@, pos as int) == Some((final(self)@, p as int)),
    {
        if d.len() - pos < 8 {
            return Err(TesError::UnexpectedEof);
        }
        self.attributes = Some(
            Attributes {
                strength: d[pos + 0],
                intelligence: d[pos + 1],
                willpower: d[pos + 2],
                agility: d[pos + 3],
                speed: d[pos + 4],
                endurance: d[pos + 5],
                personality: d[pos + 6],
                luck: d[pos + 7],
            },
        );
        Ok(pos + 8)
    }

    fn read_base(&mut self, d: &[u8], pos: usize) -> (r: Result<usize, TesError>)
        requires
            pos <= d@.len(),
        ensures
            r is Ok <==> read_base(d@)(old(self)@, pos as int) is Some,
            r matches Ok(p) ==> read_base(d@)(old(self)@, pos as int) == Some((final(self)@, p as int)),
    {
        if d.len() - pos < 16 {
            return Err(TesError::UnexpectedEof);
        }
        let flags = u32_at_exec(d, pos);
        if flags & !ACTOR_FLAGS_ALL != 0 {
            return Err(decode_failed("Invalid actor flags"));
        }
        self.base = Some(
            ActorBase {
                flags,
                magicka: u16_at_exec(d, pos + 4),
                fatigue: u16_at_exec(d, pos + 6),
                gold: u16_at_exec(d, pos + 8),
                level: #[verifier::truncate] (u16_at_exec(d, pos + 10) as i16),
                calc_min: u16_at_exec(d, pos + 12),
                calc_max: u16_at_exec(d, pos + 14),
            },
        );
        Ok(pos + 16)
    }

    fn read_factions(&mut self, d: &[u8], pos: usize) -> (r: Result<usize, TesError>)
        requires
            pos <= d@.len(),
        ensures
            r is Ok <==> read_factions(d@)(old(self)@, pos as int) is Some,
            r matches Ok(p) ==> read_factions(d@)(old(self)@, pos as int) == Some((final(self)@, p as int)),
    {
        if d.len() - pos < 2 {
            return Err(TesError::UnexpectedEof);
        }
        let n = u16_at_exec(d, pos) as usize;
        if d.len() - pos - 2 < 5 * n {
            return Err(TesError::UnexpectedEof);
        }
        let len = d.len();
        let len = d.len();
        let ghost start = self.factions@;
        let mut i: usize = 0;
        while i < n
            invariant
                i <= n,
                n == u16_at(d@, pos as int),
                pos + 2 + 5 * n <= len,
                len == d@.len(),
                self.factions@ == start + Seq::new(
                    i as nat,
                    |k: int| (u32_at(d@, pos + 2 + 5 * k), d@[pos + 6 + 5 * k] as i8),
                ),
                self.flags == old(self).flags,
                self.attributes == old(self).attributes,
                self.base == old(self).base,
                self.spells == old(self).spells,
                self.ai_data == old(self).ai_data,
                self.base_health == old(self).base_health,
                self.modifiers == old(self).modifiers,
                self.full_name == old(self).full_name,
                self.skills == old(self).skills,
                self.combat_style == old(self).combat_style,
                self.change_type == old(self).change_type,
                start == old(self)@.factions,
            decreases n - i,
        {
            let at = pos + 2 + 5 * i;
            let id = u32_at_exec(d, at);
            let rank = #[verifier::truncate] (d[at + 4] as i8);
            self.factions.push((id, rank));
            assert(self.factions@ =~= start + Seq::new(
                (i + 1) as nat,
                |k: int| (u32_at(d@, pos + 2 + 5 * k), d@[pos + 6 + 5 * k] as i8),
            ));
            i = i + 1;
        }
        Ok(pos + 2 + 5 * n)
    }

    fn read_spells(&mut self, d: &[u8], pos: usize) -> (r: Result<usize, TesError>)
        requires
            pos <= d@.len(),
        ensures
            r is Ok <==> read_spells(d@)(old(self)@, pos as int) is Some,
            r matches Ok(p) ==> read_spells(d@)(old(self)@, pos as int) == Some((final(self)@, p as int)),
    {
        if d.len() - pos < 2 {
            return Err(TesError::UnexpectedEof);
        }
        let n = u16_at_exec(d, pos) as usize;
        if d.len() - pos - 2 < 4 * n {
            return Err(TesError::UnexpectedEof);
        }
        let len = d.len();
        let len = d.len();
        let ghost start = self.spells@;
        let mut i: usize = 0;
        while i < n
            invariant
                i <= n,
                n == u16_at(d@, pos as int),
                pos + 2 + 4 * n <= len,
                len == d@.len(),
                self.spells@ == start + Seq::new(i as nat, |k: int| u32_at(d@, pos + 2 + 4 * k)),
                self.flags == old(self).flags,
                self.attributes == old(self).attributes,
                self.base == old(self).base,
                self.factions == old(self).factions,
                self.ai_data == old(self).ai_data,
                self.base_health == old(self).base_health,
                self.modifiers == old(self).modifiers,
                self.full_name == old(self).full_name,
                self.skills == old(self).skills,
                self.combat_style == old(self).combat_style,
                self.change_type == old(self).change_type,
                start == old(self)@.spells,
            decreases n - i,
        {
            let at = pos + 2 + 4 * i;
            self.spells.push(u32_at_exec(d, at));
            assert(self.spells@ =~= start + Seq::new((i + 1) as nat, |k: int| u32_at(d@, pos + 2 + 4 * k)));
            i = i + 1;
        }
        Ok(pos + 2 + 4 * n)
    }

    fn read_ai_data(&mut self, d: &[u8], pos: usize) -> (r: Result<usize, TesError>)
        requires
            pos <= d@.len(),
        ensures
            r is Ok <==> read_ai_data(d@)(old(self)@, pos as int) is Some,
            r matches Ok(p) ==> read_ai_data(d@)(old(self)@, pos as int) == Some((final(self)@, p as int)),
    {
        if d.len() - pos < 4 {
            return Err(TesError::UnexpectedEof);
        }
        let a = [d[pos], d[pos + 1], d[pos + 2], d[pos + 3]];
        assert(a@ =~= d@.subrange(pos as int, pos + 4));
        self.ai_data = Some(a);
        Ok(pos + 4)
    }

    fn read_base_health(&mut self, d: &[u8], pos: usize) -> (r: Result<usize, TesError>)
        requires
            pos <= d@.len(),
        ensures
            r is Ok <==> read_base_health(d@)(old(self)@, pos as int) is Some,
            r matches Ok(p) ==> read_base_health(d@)(old(self)@, pos as int) == Some((final(self)@, p as int)),
    {
        if d.len() - pos < 4 {
            return Err(TesError::UnexpectedEof);
        }
        self.base_health = Some(u32_at_exec(d, pos));
        Ok(pos + 4)
    }

    fn read_modifiers(&mut self, d: &[u8], pos: usize) -> (r: Result<usize, TesError>)
        requires
            pos <= d@.len(),
        ensures
            r is Ok <==> read_modifiers(d@)(old(self)@, pos as int) is Some,
            r matches Ok(p) ==> read_modifiers(d@)(old(self)@, pos as int) == Some((final(self)@, p as int)),
    {
        if d.len() - pos < 2 {
            return Err(TesError::UnexpectedEof);
        }
        let n = u16_at_exec(d, pos) as usize;
        if d.len() - pos - 2 < 5 * n {
            return Err(TesError::UnexpectedEof);
        }
        let len = d.len();
        let len = d.len();
        let ghost start = self.modifiers@;
        let mut i: usize = 0;
        while i < n
            invariant
                i <= n,
                n == u16_at(d@, pos as int),
                pos + 2 + 5 * n <= len,
                len == d@.len(),
                self.modifiers@ == start + Seq::new(
                    i as nat,
                    |k: int| (d@[pos + 2 + 5 * k], u32_at(d@, pos + 3 + 5 * k)),
                ),
                self.flags == old(self).flags,
                self.attributes == old(self).attributes,
                self.base == old(self).base,
                self.factions == old(self).factions,
                self.spells == old(self).spells,
                self.ai_data == old(self).ai_data,
                self.base_health == old(self).base_health,
                self.full_name == old(self).full_name,
                self.skills == old(self).skills,
                self.combat_style == old(self).combat_style,
                self.change_type == old(self).change_type,
                start == old(self)@.modifiers,
            decreases n - i,
        {
            let at = pos + 2 + 5 * i;
            self.modifiers.push((d[at], u32_at_exec(d, at + 1)));
            assert(self.modifiers@ =~= start + Seq::new(
                (i + 1) as nat,
                |k: int| (d@[pos + 2 + 5 * k], u32_at(d@, pos + 3 + 5 * k)),
            ));
            i = i + 1;
        }
        Ok(pos + 2 + 5 * n)
    }

    fn read_full_name(&mut self, d: &[u8], pos: usize) -> (r: Result<usize, TesError>)
        requires
            pos <= d@.len(),
        ensures
            r is Ok <==> read_full_name(d@)(old(self)@, pos as int) is Some,
            r matches Ok(p) ==> read_full_name(d@)(old(self)@, pos as int) == Some((final(self)@, p as int)),
    {
        if d.len() - pos < 1 {
            return Err(TesError::UnexpectedEof);
        }
        let size = d[pos] as usize;
        if d.len() - pos - 1 < size {
            return Err(TesError::UnexpectedEof);
        }
        let bytes = vstd::slice::slice_subrange(d, pos + 1, pos + 1 + size);
        match str_from_utf8(bytes) {
            Some(name) => {
                self.full_name = Some(name.to_owned());
                Ok(pos + 1 + size)
            },
            None => Err(decode_failed("invalid full name")),
        }
    }

    fn read_skills(&mut self, d: &[u8], pos: usize) -> (r: Result<usize, TesError>)
        requires
            pos <= d@.len(),
        ensures
            r is Ok <==> read_skills(d@)(old(self)@, pos as int) is Some,
            r matches Ok(p) ==> read_skills(d@)(old(self)@, pos as int) == Some((final(self)@, p as int)),
    {
        if d.len() - pos < 21 {
            return Err(TesError::UnexpectedEof);
        }
        self.skills = Some(
            Skills {
                armorer: d[pos + 0],
                athletics: d[pos + 1],
                blade: d[pos + 2],
                block: d[pos + 3],
                blunt: d[pos + 4],
                hand_to_hand: d[pos + 5],
                heavy_armor: d[pos + 6],
                alchemy: d[pos + 7],
                alteration: d[pos + 8],
                conjuration: d[pos + 9],
                destruction: d[pos + 10],
                illusion: d[pos + 11],
                mysticism: d[pos + 12],
                restoration: d[pos + 13],
                acrobatics: d[pos + 14],
                light_armor: d[pos + 15],
                marksman: d[pos + 16],
                mercantile: d[pos + 17],
                security: d[pos + 18],
                sneak: d[pos + 19],
                speechcraft: d[pos + 20],
            },
        );
        Ok(pos + 21)
    }

    fn read_combat_style(&mut self, d: &[u8], pos: usize) -> (r: Result<usize, TesError>)
        requires
            pos <= d@.len(),
        ensures
            r is Ok <==> read_combat_style(d@)(old(self)@, pos as int) is Some,
            r matches Ok(p) ==> read_combat_style(d@)(old(self)@, pos as int) == Some((final(self)@, p as int)),
    {
        if d.len() - pos < 4 {
            return Err(TesError::UnexpectedEof);
        }
        self.combat_style = Some(u32_at_exec(d, pos));
        Ok(pos + 4)
    }

    fn run_stage(&mut self, d: &[u8], k: usize, pos: usize) -> (r: Result<usize, TesError>)
        requires
            pos <= d@.len(),
            k < 11,
        ensures
            r is Ok <==> stage_reader(d@, k as int)(old(self)@, pos as int) is Some,
            r matches Ok(p) ==> stage_reader(d@, k as int)(old(self)@, pos as int) == Some(
                (final(self)@, p as int),
            ),
    {
        if k == 0 {
            self.read_form_flags(d, pos)
        } else if k == 1 {
            self.read_attributes(d, pos)
        } else if k == 2 {
            self.read_base(d, pos)
        } else if k == 3 {
            self.read_factions(d, pos)
        } else if k == 4 {
            self.read_spells(d, pos)
        } else if k == 5 {
            self.read_ai_data(d, pos)
        } else if k == 6 {
            self.read_base_health(d, pos)
        } else if k == 7 {
            self.read_modifiers(d, pos)
        } else if k == 8 {
            self.read_full_name(d, pos)
        } else if k == 9 {
            self.read_skills(d, pos)
        } else {
            self.read_combat_style(d, pos)
        }
    }

    /// Read an actor change from a change record
    ///
    /// Fails unless the record changes an NPC or a creature, its change flags are known, and
    /// the parts of its data that the flags announce decode; see [`parse_actor_change`].
    pub fn read(record: &ChangeRecord) -> (r: Result<ActorChange, TesError>)
        ensures
            r is Ok <==> parse_actor_change(record@.change_type, record@.flags, record@.data) is Some,
            r matches Ok(a) ==> a@ == parse_actor_change(
                record@.change_type,
                record@.flags,
                record@.data,
            ).unwrap(),
    {
        let change_type = record.change_type();
        if !(change_type == ChangeType::Npc || change_type == ChangeType::Creature) {
            return Err(decode_failed("ActorChange expects an NPC or creature change record"));
        }
        let flags = record.flags();
        if flags & !ACTOR_CHANGE_FLAGS_ALL != 0 {
            return Err(decode_failed("Invalid actor change flags"));
        }
        let d = record.data();
        let mut ac = ActorChange {
            change_type,
            flags: None,
            attributes: None,
            base: None,
            factions: Vec::new(),
            spells: Vec::new(),
            ai_data: None,
            base_health: None,
            modifiers: Vec::new(),
            full_name: None,
            skills: None,
            combat_style: None,
        };
        proof {
            assert(ac@.factions =~= Seq::<(u32, i8)>::empty());
            assert(ac@.spells =~= Seq::<u32>::empty());
            assert(ac@.modifiers =~= Seq::<(u8, u32)>::empty());
        }
        let mut pos: usize = 0;
        let mut k: usize = 0;
        while k < 11
            invariant
                k <= 11,
                pos <= d@.len(),
                d@ == record@.data,
                parse_actor_change(record@.change_type, record@.flags, record@.data) == run_stages(
                    ac@,
                    flags,
                    d@,
                    k as int,
                    pos as int,
                ),
            decreases 11 - k,
        {
            if flags & stage_flag_exec(k) != 0 {
                pos = ac.run_stage(d, k, pos)?;
            }
            k = k + 1;
        }
        Ok(ac)
    }

    /// Get the actor's attributes
    pub fn attributes(&self) -> (r: Option<&Attributes>)
        ensures
            match r {
                Some(a) => self@.attributes == Some(*a),
                None => self@.attributes is None,
            },
    {
        match &self.attributes {
            Some(a) => Some(a),
            None => None,
        }
    }

    /// Get the actor's attributes mutably
    pub fn attributes_mut(&mut self) -> (r: Option<&mut Attributes>)
        ensures
            r is Some <==> old(self)@.attributes is Some,
            r matches Some(a) ==> old(self)@.attributes == Some(*a)
                && final(self)@ == (ActorChangeModel { attributes: Some(*final(a)), ..old(self)@ }),
            r is None ==> final(self)@ == old(self)@,
    {
        match self.attributes {
            Some(ref mut a) => Some(a),
            None => None,
        }
    }

    /// Get the actor's skills mutably
    pub fn skills_mut(&mut self) -> (r: Option<&mut Skills>)
        ensures
            r is Some <==> old(self)@.skills is Some,
            r matches Some(s) ==> old(self)@.skills == Some(*s)
                && final(self)@ == (ActorChangeModel { skills: Some(*final(s)), ..old(self)@ }),
            r is None ==> final(self)@ == old(self)@,
    {
        match self.skills {
            Some(ref mut s) => Some(s),
            None => None,
        }
    }

    /// Get the actor's skills
    pub fn skills(&self) -> (r: Option<&Skills>)
        ensures
            match r {
                Some(a) => self@.skills == Some(*a),
                None => self@.skills is None,
            },
    {
        match &self.skills {
            Some(a) => Some(a),
            None => None,
        }
    }

    /// Get the actor's full name
    pub fn full_name(&self) -> (r: Option<&str>)
        ensures
            match r {
                Some(n) => self@.full_name == Some(n@),
                None => self@.full_name is None,
            },
    {
        match &self.full_name {
            Some(n) => Some(n.as_str()),
            None => None,
        }
    }

    /// Set the actor's full name
    ///
    /// Fails with [`TesError::LimitExceeded`], changing nothing, if the name is longer than
    /// [`MAX_BSTRING`] bytes.
    pub fn set_full_name(&mut self, name: Option<String>) -> (r: Result<(), TesError>)
        ensures
            r is Ok <==> match name {
                Some(n) => encode_utf8(n@).len() <= MAX_BSTRING,
                None => true,
            },
            r is Ok ==> final(self)@ == (ActorChangeModel {
                full_name: match name {
                    Some(n) => Some(n@),
                    None => None,
                },
                ..old(self)@
            }),
            r is Err ==> final(self)@ == old(self)@,
    {
        if let Some(s) = &name {
            check_size(crate::strings::str_len(s.as_str()), MAX_BSTRING, "NPC full name too long")?;
        }
        self.full_name = name;
        Ok(())
    }
}

} // verus!
