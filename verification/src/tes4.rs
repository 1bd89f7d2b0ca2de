//! Oblivion's form IDs, actor values, skills and spell effects.

use vstd::prelude::*;

pub mod group;

use vstd::utf8::{decode_utf8, encode_utf8, valid_utf8};

use crate::bytes::{le_bytes, push_u32};
use crate::plugin::record::Field;
use crate::plugin::FieldModel;
use crate::strings::no_nul;
use crate::tags::{EFID, EFIT, FULL, SCIT};
use crate::tes3::field::zstring_of;
use crate::common::{Attribute, EffectRange, MagicSchool, Specialization};
use crate::error::{decode_failed, limit_exceeded, TesError};
use crate::strings::{check_zstring, is_zstring, str_eq, str_from_utf8};
use crate::tes3::form::{word, word_at};

verus! {

/// All possible actor values
#[derive(Debug, Copy, Clone, PartialEq, Eq, Structural)]
pub enum ActorValue {
    Strength,
    Intelligence,
    Willpower,
    Agility,
    Speed,
    Endurance,
    Personality,
    Luck,
    Health,
    Magicka,
    Fatigue,
    Encumbrance,
    Armorer,
    Athletics,
    Blade,
    Block,
    Blunt,
    HandToHand,
    HeavyArmor,
    Alchemy,
    Alteration,
    Conjuration,
    Destruction,
    Illusion,
    Mysticism,
    Restoration,
    Acrobatics,
    LightArmor,
    Marksman,
    Mercantile,
    Security,
    Sneak,
    Speechcraft,
    Aggression,
    Confidence,
    Energy,
    Responsibility,
    Bounty,
    Fame,
    Infamy,
    MagickaMultiplier,
    NightEyeBonus,
    AttackBonus,
    DefendBonus,
    CastingPenalty,
    Blindness,
    Chameleon,
    Invisibility,
    Paralysis,
    Silence,
    Confusion,
    DetectItemRange,
    SpellAbsorbChance,
    SpellReflectChance,
    SwimSpeedMultiplier,
    WaterBreathing,
    WaterWalking,
    StuntedMagicka,
    DetectLifeRange,
    ReflectDamage,
    Telekinesis,
    ResistFire,
    ResistFrost,
    ResistDisease,
    ResistMagic,
    ResistNormalWeapons,
    ResistParalysis,
    ResistPoison,
    ResistShock,
    Vampirism,
    Darkness,
    ResistWaterDamage,
}

impl ActorValue {
    /// The number that stands for this value in the file formats
    pub open spec fn index(self) -> u8 {
        match self {
            ActorValue::Strength => 0u8,
            ActorValue::Intelligence => 1u8,
            ActorValue::Willpower => 2u8,
            ActorValue::Agility => 3u8,
            ActorValue::Speed => 4u8,
            ActorValue::Endurance => 5u8,
            ActorValue::Personality => 6u8,
            ActorValue::Luck => 7u8,
            ActorValue::Health => 8u8,
            ActorValue::Magicka => 9u8,
            ActorValue::Fatigue => 10u8,
            ActorValue::Encumbrance => 11u8,
            ActorValue::Armorer => 12u8,
            ActorValue::Athletics => 13u8,
            ActorValue::Blade => 14u8,
            ActorValue::Block => 15u8,
            ActorValue::Blunt => 16u8,
            ActorValue::HandToHand => 17u8,
            ActorValue::HeavyArmor => 18u8,
            ActorValue::Alchemy => 19u8,
            ActorValue::Alteration => 20u8,
            ActorValue::Conjuration => 21u8,
            ActorValue::Destruction => 22u8,
            ActorValue::Illusion => 23u8,
            ActorValue::Mysticism => 24u8,
            ActorValue::Restoration => 25u8,
            ActorValue::Acrobatics => 26u8,
            ActorValue::LightArmor => 27u8,
            ActorValue::Marksman => 28u8,
            ActorValue::Mercantile => 29u8,
            ActorValue::Security => 30u8,
            ActorValue::Sneak => 31u8,
            ActorValue::Speechcraft => 32u8,
            ActorValue::Aggression => 33u8,
            ActorValue::Confidence => 34u8,
            ActorValue::Energy => 35u8,
            ActorValue::Responsibility => 36u8,
            ActorValue::Bounty => 37u8,
            ActorValue::Fame => 38u8,
            ActorValue::Infamy => 39u8,
            ActorValue::MagickaMultiplier => 40u8,
            ActorValue::NightEyeBonus => 41u8,
            ActorValue::AttackBonus => 42u8,
            ActorValue::DefendBonus => 43u8,
            ActorValue::CastingPenalty => 44u8,
            ActorValue::Blindness => 45u8,
            ActorValue::Chameleon => 46u8,
            ActorValue::Invisibility => 47u8,
            ActorValue::Paralysis => 48u8,
            ActorValue::Silence => 49u8,
            ActorValue::Confusion => 50u8,
            ActorValue::DetectItemRange => 51u8,
            ActorValue::SpellAbsorbChance => 52u8,
            ActorValue::SpellReflectChance => 53u8,
            ActorValue::SwimSpeedMultiplier => 54u8,
            ActorValue::WaterBreathing => 55u8,
            ActorValue::WaterWalking => 56u8,
            ActorValue::StuntedMagicka => 57u8,
            ActorValue::DetectLifeRange => 58u8,
            ActorValue::ReflectDamage => 59u8,
            ActorValue::Telekinesis => 60u8,
            ActorValue::ResistFire => 61u8,
            ActorValue::ResistFrost => 62u8,
            ActorValue::ResistDisease => 63u8,
            ActorValue::ResistMagic => 64u8,
            ActorValue::ResistNormalWeapons => 65u8,
            ActorValue::ResistParalysis => 66u8,
            ActorValue::ResistPoison => 67u8,
            ActorValue::ResistShock => 68u8,
            ActorValue::Vampirism => 69u8,
            ActorValue::Darkness => 70u8,
            ActorValue::ResistWaterDamage => 71u8,
        }
    }

    /// The value that a number stands for, if any
    pub open spec fn from_index(v: u8) -> Option<ActorValue> {
        match v {
            0u8 => Some(ActorValue::Strength),
            1u8 => Some(ActorValue::Intelligence),
            2u8 => Some(ActorValue::Willpower),
            3u8 => Some(ActorValue::Agility),
            4u8 => Some(ActorValue::Speed),
            5u8 => Some(ActorValue::Endurance),
            6u8 => Some(ActorValue::Personality),
            7u8 => Some(ActorValue::Luck),
            8u8 => Some(ActorValue::Health),
            9u8 => Some(ActorValue::Magicka),
            10u8 => Some(ActorValue::Fatigue),
            11u8 => Some(ActorValue::Encumbrance),
            12u8 => Some(ActorValue::Armorer),
            13u8 => Some(ActorValue::Athletics),
            14u8 => Some(ActorValue::Blade),
            15u8 => Some(ActorValue::Block),
            16u8 => Some(ActorValue::Blunt),
            17u8 => Some(ActorValue::HandToHand),
            18u8 => Some(ActorValue::HeavyArmor),
            19u8 => Some(ActorValue::Alchemy),
            20u8 => Some(ActorValue::Alteration),
            21u8 => Some(ActorValue::Conjuration),
            22u8 => Some(ActorValue::Destruction),
            23u8 => Some(ActorValue::Illusion),
            24u8 => Some(ActorValue::Mysticism),
            25u8 => Some(ActorValue::Restoration),
            26u8 => Some(ActorValue::Acrobatics),
            27u8 => Some(ActorValue::LightArmor),
            28u8 => Some(ActorValue::Marksman),
            29u8 => Some(ActorValue::Mercantile),
            30u8 => Some(ActorValue::Security),
            31u8 => Some(ActorValue::Sneak),
            32u8 => Some(ActorValue::Speechcraft),
            33u8 => Some(ActorValue::Aggression),
            34u8 => Some(ActorValue::Confidence),
            35u8 => Some(ActorValue::Energy),
            36u8 => Some(ActorValue::Responsibility),
            37u8 => Some(ActorValue::Bounty),
            38u8 => Some(ActorValue::Fame),
            39u8 => Some(ActorValue::Infamy),
            40u8 => Some(ActorValue::MagickaMultiplier),
            41u8 => Some(ActorValue::NightEyeBonus),
            42u8 => Some(ActorValue::AttackBonus),
            43u8 => Some(ActorValue::DefendBonus),
            44u8 => Some(ActorValue::CastingPenalty),
            45u8 => Some(ActorValue::Blindness),
            46u8 => Some(ActorValue::Chameleon),
            47u8 => Some(ActorValue::Invisibility),
            48u8 => Some(ActorValue::Paralysis),
            49u8 => Some(ActorValue::Silence),
            50u8 => Some(ActorValue::Confusion),
            51u8 => Some(ActorValue::DetectItemRange),
            52u8 => Some(ActorValue::SpellAbsorbChance),
            53u8 => Some(ActorValue::SpellReflectChance),
            54u8 => Some(ActorValue::SwimSpeedMultiplier),
            55u8 => Some(ActorValue::WaterBreathing),
            56u8 => Some(ActorValue::WaterWalking),
            57u8 => Some(ActorValue::StuntedMagicka),
            58u8 => Some(ActorValue::DetectLifeRange),
            59u8 => Some(ActorValue::ReflectDamage),
            60u8 => Some(ActorValue::Telekinesis),
            61u8 => Some(ActorValue::ResistFire),
            62u8 => Some(ActorValue::ResistFrost),
            63u8 => Some(ActorValue::ResistDisease),
            64u8 => Some(ActorValue::ResistMagic),
            65u8 => Some(ActorValue::ResistNormalWeapons),
            66u8 => Some(ActorValue::ResistParalysis),
            67u8 => Some(ActorValue::ResistPoison),
            68u8 => Some(ActorValue::ResistShock),
            69u8 => Some(ActorValue::Vampirism),
            70u8 => Some(ActorValue::Darkness),
            71u8 => Some(ActorValue::ResistWaterDamage),
            _ => None,
        }
    }

    /// Gets the number that stands for this value
    pub fn to_u8(self) -> (r: u8)
        ensures
            r == self.index(),
    {
        match self {
            ActorValue::Strength => 0u8,
            ActorValue::Intelligence => 1u8,
            ActorValue::Willpower => 2u8,
            ActorValue::Agility => 3u8,
            ActorValue::Speed => 4u8,
            ActorValue::Endurance => 5u8,
            ActorValue::Personality => 6u8,
            ActorValue::Luck => 7u8,
            ActorValue::Health => 8u8,
            ActorValue::Magicka => 9u8,
            ActorValue::Fatigue => 10u8,
            ActorValue::Encumbrance => 11u8,
            ActorValue::Armorer => 12u8,
            ActorValue::Athletics => 13u8,
            ActorValue::Blade => 14u8,
            ActorValue::Block => 15u8,
            ActorValue::Blunt => 16u8,
            ActorValue::HandToHand => 17u8,
            ActorValue::HeavyArmor => 18u8,
            ActorValue::Alchemy => 19u8,
            ActorValue::Alteration => 20u8,
            ActorValue::Conjuration => 21u8,
            ActorValue::Destruction => 22u8,
            ActorValue::Illusion => 23u8,
            ActorValue::Mysticism => 24u8,
            ActorValue::Restoration => 25u8,
            ActorValue::Acrobatics => 26u8,
            ActorValue::LightArmor => 27u8,
            ActorValue::Marksman => 28u8,
            ActorValue::Mercantile => 29u8,
            ActorValue::Security => 30u8,
            ActorValue::Sneak => 31u8,
            ActorValue::Speechcraft => 32u8,
            ActorValue::Aggression => 33u8,
            ActorValue::Confidence => 34u8,
            ActorValue::Energy => 35u8,
            ActorValue::Responsibility => 36u8,
            ActorValue::Bounty => 37u8,
            ActorValue::Fame => 38u8,
            ActorValue::Infamy => 39u8,
            ActorValue::MagickaMultiplier => 40u8,
            ActorValue::NightEyeBonus => 41u8,
            ActorValue::AttackBonus => 42u8,
            ActorValue::DefendBonus => 43u8,
            ActorValue::CastingPenalty => 44u8,
            ActorValue::Blindness => 45u8,
            ActorValue::Chameleon => 46u8,
            ActorValue::Invisibility => 47u8,
            ActorValue::Paralysis => 48u8,
            ActorValue::Silence => 49u8,
            ActorValue::Confusion => 50u8,
            ActorValue::DetectItemRange => 51u8,
            ActorValue::SpellAbsorbChance => 52u8,
            ActorValue::SpellReflectChance => 53u8,
            ActorValue::SwimSpeedMultiplier => 54u8,
            ActorValue::WaterBreathing => 55u8,
            ActorValue::WaterWalking => 56u8,
            ActorValue::StuntedMagicka => 57u8,
            ActorValue::DetectLifeRange => 58u8,
            ActorValue::ReflectDamage => 59u8,
            ActorValue::Telekinesis => 60u8,
            ActorValue::ResistFire => 61u8,
            ActorValue::ResistFrost => 62u8,
            ActorValue::ResistDisease => 63u8,
            ActorValue::ResistMagic => 64u8,
            ActorValue::ResistNormalWeapons => 65u8,
            ActorValue::ResistParalysis => 66u8,
            ActorValue::ResistPoison => 67u8,
            ActorValue::ResistShock => 68u8,
            ActorValue::Vampirism => 69u8,
            ActorValue::Darkness => 70u8,
            ActorValue::ResistWaterDamage => 71u8,
        }
    }

    /// Gets the value that a number stands for, if any
    pub fn try_from_u8(v: u8) -> (r: Option<ActorValue>)
        ensures
            r == ActorValue::from_index(v),
    {
        match v {
            0u8 => Some(ActorValue::Strength),
            1u8 => Some(ActorValue::Intelligence),
            2u8 => Some(ActorValue::Willpower),
            3u8 => Some(ActorValue::Agility),
            4u8 => Some(ActorValue::Speed),
            5u8 => Some(ActorValue::Endurance),
            6u8 => Some(ActorValue::Personality),
            7u8 => Some(ActorValue::Luck),
            8u8 => Some(ActorValue::Health),
            9u8 => Some(ActorValue::Magicka),
            10u8 => Some(ActorValue::Fatigue),
            11u8 => Some(ActorValue::Encumbrance),
            12u8 => Some(ActorValue::Armorer),
            13u8 => Some(ActorValue::Athletics),
            14u8 => Some(ActorValue::Blade),
            15u8 => Some(ActorValue::Block),
            16u8 => Some(ActorValue::Blunt),
            17u8 => Some(ActorValue::HandToHand),
            18u8 => Some(ActorValue::HeavyArmor),
            19u8 => Some(ActorValue::Alchemy),
            20u8 => Some(ActorValue::Alteration),
            21u8 => Some(ActorValue::Conjuration),
            22u8 => Some(ActorValue::Destruction),
            23u8 => Some(ActorValue::Illusion),
            24u8 => Some(ActorValue::Mysticism),
            25u8 => Some(ActorValue::Restoration),
            26u8 => Some(ActorValue::Acrobatics),
            27u8 => Some(ActorValue::LightArmor),
            28u8 => Some(ActorValue::Marksman),
            29u8 => Some(ActorValue::Mercantile),
            30u8 => Some(ActorValue::Security),
            31u8 => Some(ActorValue::Sneak),
            32u8 => Some(ActorValue::Speechcraft),
            33u8 => Some(ActorValue::Aggression),
            34u8 => Some(ActorValue::Confidence),
            35u8 => Some(ActorValue::Energy),
            36u8 => Some(ActorValue::Responsibility),
            37u8 => Some(ActorValue::Bounty),
            38u8 => Some(ActorValue::Fame),
            39u8 => Some(ActorValue::Infamy),
            40u8 => Some(ActorValue::MagickaMultiplier),
            41u8 => Some(ActorValue::NightEyeBonus),
            42u8 => Some(ActorValue::AttackBonus),
            43u8 => Some(ActorValue::DefendBonus),
            44u8 => Some(ActorValue::CastingPenalty),
            45u8 => Some(ActorValue::Blindness),
            46u8 => Some(ActorValue::Chameleon),
            47u8 => Some(ActorValue::Invisibility),
            48u8 => Some(ActorValue::Paralysis),
            49u8 => Some(ActorValue::Silence),
            50u8 => Some(ActorValue::Confusion),
            51u8 => Some(ActorValue::DetectItemRange),
            52u8 => Some(ActorValue::SpellAbsorbChance),
            53u8 => Some(ActorValue::SpellReflectChance),
            54u8 => Some(ActorValue::SwimSpeedMultiplier),
            55u8 => Some(ActorValue::WaterBreathing),
            56u8 => Some(ActorValue::WaterWalking),
            57u8 => Some(ActorValue::StuntedMagicka),
            58u8 => Some(ActorValue::DetectLifeRange),
            59u8 => Some(ActorValue::ReflectDamage),
            60u8 => Some(ActorValue::Telekinesis),
            61u8 => Some(ActorValue::ResistFire),
            62u8 => Some(ActorValue::ResistFrost),
            63u8 => Some(ActorValue::ResistDisease),
            64u8 => Some(ActorValue::ResistMagic),
            65u8 => Some(ActorValue::ResistNormalWeapons),
            66u8 => Some(ActorValue::ResistParalysis),
            67u8 => Some(ActorValue::ResistPoison),
            68u8 => Some(ActorValue::ResistShock),
            69u8 => Some(ActorValue::Vampirism),
            70u8 => Some(ActorValue::Darkness),
            71u8 => Some(ActorValue::ResistWaterDamage),
            _ => None,
        }
    }

    /// A value's number stands for that value.
    pub proof fn lemma_index_roundtrip(self)
        ensures
            ActorValue::from_index(self.index()) == Some(self),
    {
    }

    /// A number that stands for a value is that value's number.
    pub proof fn lemma_from_index_roundtrip(v: u8)
        ensures
            ActorValue::from_index(v) matches Some(x) ==> x.index() == v,
    {
    }
}

/// All possible skills
#[derive(Debug, Copy, Clone, PartialEq, Eq, Structural)]
pub enum Skill {
    Armorer,
    Athletics,
    Blade,
    Block,
    Blunt,
    HandToHand,
    HeavyArmor,
    Alchemy,
    Alteration,
    Conjuration,
    Destruction,
    Illusion,
    Mysticism,
    Restoration,
    Acrobatics,
    LightArmor,
    Marksman,
    Mercantile,
    Security,
    Sneak,
    Speechcraft,
}

impl Skill {
    /// The number that stands for this value in the file formats
    pub open spec fn index(self) -> u8 {
        match self {
            Skill::Armorer => 0u8,
            Skill::Athletics => 1u8,
            Skill::Blade => 2u8,
            Skill::Block => 3u8,
            Skill::Blunt => 4u8,
            Skill::HandToHand => 5u8,
            Skill::HeavyArmor => 6u8,
            Skill::Alchemy => 7u8,
            Skill::Alteration => 8u8,
            Skill::Conjuration => 9u8,
            Skill::Destruction => 10u8,
            Skill::Illusion => 11u8,
            Skill::Mysticism => 12u8,
            Skill::Restoration => 13u8,
            Skill::Acrobatics => 14u8,
            Skill::LightArmor => 15u8,
            Skill::Marksman => 16u8,
            Skill::Mercantile => 17u8,
            Skill::Security => 18u8,
            Skill::Sneak => 19u8,
            Skill::Speechcraft => 20u8,
        }
    }

    /// The value that a number stands for, if any
    pub open spec fn from_index(v: u8) -> Option<Skill> {
        match v {
            0u8 => Some(Skill::Armorer),
            1u8 => Some(Skill::Athletics),
            2u8 => Some(Skill::Blade),
            3u8 => Some(Skill::Block),
            4u8 => Some(Skill::Blunt),
            5u8 => Some(Skill::HandToHand),
            6u8 => Some(Skill::HeavyArmor),
            7u8 => Some(Skill::Alchemy),
            8u8 => Some(Skill::Alteration),
            9u8 => Some(Skill::Conjuration),
            10u8 => Some(Skill::Destruction),
            11u8 => Some(Skill::Illusion),
            12u8 => Some(Skill::Mysticism),
            13u8 => Some(Skill::Restoration),
            14u8 => Some(Skill::Acrobatics),
            15u8 => Some(Skill::LightArmor),
            16u8 => Some(Skill::Marksman),
            17u8 => Some(Skill::Mercantile),
            18u8 => Some(Skill::Security),
            19u8 => Some(Skill::Sneak),
            20u8 => Some(Skill::Speechcraft),
            _ => None,
        }
    }

    /// Gets the number that stands for this value
    pub fn to_u8(self) -> (r: u8)
        ensures
            r == self.index(),
    {
        match self {
            Skill::Armorer => 0u8,
            Skill::Athletics => 1u8,
            Skill::Blade => 2u8,
            Skill::Block => 3u8,
            Skill::Blunt => 4u8,
            Skill::HandToHand => 5u8,
            Skill::HeavyArmor => 6u8,
            Skill::Alchemy => 7u8,
            Skill::Alteration => 8u8,
            Skill::Conjuration => 9u8,
            Skill::Destruction => 10u8,
            Skill::Illusion => 11u8,
            Skill::Mysticism => 12u8,
            Skill::Restoration => 13u8,
            Skill::Acrobatics => 14u8,
            Skill::LightArmor => 15u8,
            Skill::Marksman => 16u8,
            Skill::Mercantile => 17u8,
            Skill::Security => 18u8,
            Skill::Sneak => 19u8,
            Skill::Speechcraft => 20u8,
        }
    }

    /// Gets the value that a number stands for, if any
    pub fn try_from_u8(v: u8) -> (r: Option<Skill>)
        ensures
            r == Skill::from_index(v),
    {
        match v {
            0u8 => Some(Skill::Armorer),
            1u8 => Some(Skill::Athletics),
            2u8 => Some(Skill::Blade),
            3u8 => Some(Skill::Block),
            4u8 => Some(Skill::Blunt),
            5u8 => Some(Skill::HandToHand),
            6u8 => Some(Skill::HeavyArmor),
            7u8 => Some(Skill::Alchemy),
            8u8 => Some(Skill::Alteration),
            9u8 => Some(Skill::Conjuration),
            10u8 => Some(Skill::Destruction),
            11u8 => Some(Skill::Illusion),
            12u8 => Some(Skill::Mysticism),
            13u8 => Some(Skill::Restoration),
            14u8 => Some(Skill::Acrobatics),
            15u8 => Some(Skill::LightArmor),
            16u8 => Some(Skill::Marksman),
            17u8 => Some(Skill::Mercantile),
            18u8 => Some(Skill::Security),
            19u8 => Some(Skill::Sneak),
            20u8 => Some(Skill::Speechcraft),
            _ => None,
        }
    }

    /// A value's number stands for that value.
    pub proof fn lemma_index_roundtrip(self)
        ensures
            Skill::from_index(self.index()) == Some(self),
    {
    }

    /// A number that stands for a value is that value's number.
    pub proof fn lemma_from_index_roundtrip(v: u8)
        ensures
            Skill::from_index(v) matches Some(x) ==> x.index() == v,
    {
    }
}

/// The specialization that a skill belongs to.
pub open spec fn skill_specialization(s: Skill) -> Specialization {
    match s {
        Skill::Armorer => Specialization::Combat,
        Skill::Athletics => Specialization::Combat,
        Skill::Blade => Specialization::Combat,
        Skill::Block => Specialization::Combat,
        Skill::Blunt => Specialization::Combat,
        Skill::HandToHand => Specialization::Combat,
        Skill::HeavyArmor => Specialization::Combat,
        Skill::Alchemy => Specialization::Magic,
        Skill::Alteration => Specialization::Magic,
        Skill::Conjuration => Specialization::Magic,
        Skill::Destruction => Specialization::Magic,
        Skill::Illusion => Specialization::Magic,
        Skill::Mysticism => Specialization::Magic,
        Skill::Restoration => Specialization::Magic,
        Skill::Acrobatics => Specialization::Stealth,
        Skill::LightArmor => Specialization::Stealth,
        Skill::Marksman => Specialization::Stealth,
        Skill::Mercantile => Specialization::Stealth,
        Skill::Security => Specialization::Stealth,
        Skill::Sneak => Specialization::Stealth,
        Skill::Speechcraft => Specialization::Stealth,
    }
}

/// The actor value that stands for a skill.
pub open spec fn skill_actor_value(s: Skill) -> ActorValue {
    match s {
        Skill::Armorer => ActorValue::Armorer,
        Skill::Athletics => ActorValue::Athletics,
        Skill::Blade => ActorValue::Blade,
        Skill::Block => ActorValue::Block,
        Skill::Blunt => ActorValue::Blunt,
        Skill::HandToHand => ActorValue::HandToHand,
        Skill::HeavyArmor => ActorValue::HeavyArmor,
        Skill::Alchemy => ActorValue::Alchemy,
        Skill::Alteration => ActorValue::Alteration,
        Skill::Conjuration => ActorValue::Conjuration,
        Skill::Destruction => ActorValue::Destruction,
        Skill::Illusion => ActorValue::Illusion,
        Skill::Mysticism => ActorValue::Mysticism,
        Skill::Restoration => ActorValue::Restoration,
        Skill::Acrobatics => ActorValue::Acrobatics,
        Skill::LightArmor => ActorValue::LightArmor,
        Skill::Marksman => ActorValue::Marksman,
        Skill::Mercantile => ActorValue::Mercantile,
        Skill::Security => ActorValue::Security,
        Skill::Sneak => ActorValue::Sneak,
        Skill::Speechcraft => ActorValue::Speechcraft,
    }
}

/// The actor value that stands for an attribute.
pub open spec fn attribute_actor_value(a: Attribute) -> ActorValue {
    match a {
        Attribute::Strength => ActorValue::Strength,
        Attribute::Intelligence => ActorValue::Intelligence,
        Attribute::Willpower => ActorValue::Willpower,
        Attribute::Agility => ActorValue::Agility,
        Attribute::Speed => ActorValue::Speed,
        Attribute::Endurance => ActorValue::Endurance,
        Attribute::Personality => ActorValue::Personality,
        Attribute::Luck => ActorValue::Luck,
    }
}

/// The skill that an actor value stands for, if any.
pub open spec fn actor_value_skill(v: ActorValue) -> Option<Skill> {
    match v {
        ActorValue::Armorer => Some(Skill::Armorer),
        ActorValue::Athletics => Some(Skill::Athletics),
        ActorValue::Blade => Some(Skill::Blade),
        ActorValue::Block => Some(Skill::Block),
        ActorValue::Blunt => Some(Skill::Blunt),
        ActorValue::HandToHand => Some(Skill::HandToHand),
        ActorValue::HeavyArmor => Some(Skill::HeavyArmor),
        ActorValue::Alchemy => Some(Skill::Alchemy),
        ActorValue::Alteration => Some(Skill::Alteration),
        ActorValue::Conjuration => Some(Skill::Conjuration),
        ActorValue::Destruction => Some(Skill::Destruction),
        ActorValue::Illusion => Some(Skill::Illusion),
        ActorValue::Mysticism => Some(Skill::Mysticism),
        ActorValue::Restoration => Some(Skill::Restoration),
        ActorValue::Acrobatics => Some(Skill::Acrobatics),
        ActorValue::LightArmor => Some(Skill::LightArmor),
        ActorValue::Marksman => Some(Skill::Marksman),
        ActorValue::Mercantile => Some(Skill::Mercantile),
        ActorValue::Security => Some(Skill::Security),
        ActorValue::Sneak => Some(Skill::Sneak),
        ActorValue::Speechcraft => Some(Skill::Speechcraft),
        _ => None,
    }
}

/// The attribute that an actor value stands for, if any.
pub open spec fn actor_value_attribute(v: ActorValue) -> Option<Attribute> {
    match v {
        ActorValue::Strength => Some(Attribute::Strength),
        ActorValue::Intelligence => Some(Attribute::Intelligence),
        ActorValue::Willpower => Some(Attribute::Willpower),
        ActorValue::Agility => Some(Attribute::Agility),
        ActorValue::Speed => Some(Attribute::Speed),
        ActorValue::Endurance => Some(Attribute::Endurance),
        ActorValue::Personality => Some(Attribute::Personality),
        ActorValue::Luck => Some(Attribute::Luck),
        _ => None,
    }
}

impl Skill {
    /// Gets the skill's specialization
    pub fn specialization(&self) -> (r: Specialization)
        ensures
            r == skill_specialization(*self),
    {
        match *self {
            Skill::Armorer => Specialization::Combat,
            Skill::Athletics => Specialization::Combat,
            Skill::Blade => Specialization::Combat,
            Skill::Block => Specialization::Combat,
            Skill::Blunt => Specialization::Combat,
            Skill::HandToHand => Specialization::Combat,
            Skill::HeavyArmor => Specialization::Combat,
            Skill::Alchemy => Specialization::Magic,
            Skill::Alteration => Specialization::Magic,
            Skill::Conjuration => Specialization::Magic,
            Skill::Destruction => Specialization::Magic,
            Skill::Illusion => Specialization::Magic,
            Skill::Mysticism => Specialization::Magic,
            Skill::Restoration => Specialization::Magic,
            Skill::Acrobatics => Specialization::Stealth,
            Skill::LightArmor => Specialization::Stealth,
            Skill::Marksman => Specialization::Stealth,
            Skill::Mercantile => Specialization::Stealth,
            Skill::Security => Specialization::Stealth,
            Skill::Sneak => Specialization::Stealth,
            Skill::Speechcraft => Specialization::Stealth,
        }
    }

    /// Gets the skill that an actor value stands for
    ///
    /// Fails with [`TesError::InvalidMapping`] if the actor value is not a skill.
    pub fn try_from_actor_value(value: ActorValue) -> (r: Result<Skill, TesError>)
        ensures
            r is Ok <==> actor_value_skill(value) is Some,
            r matches Ok(s) ==> actor_value_skill(value) == Some(s),
            r matches Err(e) ==> e is InvalidMapping,
    {
        match value {
            ActorValue::Armorer => Ok(Skill::Armorer),
            ActorValue::Athletics => Ok(Skill::Athletics),
            ActorValue::Blade => Ok(Skill::Blade),
            ActorValue::Block => Ok(Skill::Block),
            ActorValue::Blunt => Ok(Skill::Blunt),
            ActorValue::HandToHand => Ok(Skill::HandToHand),
            ActorValue::HeavyArmor => Ok(Skill::HeavyArmor),
            ActorValue::Alchemy => Ok(Skill::Alchemy),
            ActorValue::Alteration => Ok(Skill::Alteration),
            ActorValue::Conjuration => Ok(Skill::Conjuration),
            ActorValue::Destruction => Ok(Skill::Destruction),
            ActorValue::Illusion => Ok(Skill::Illusion),
            ActorValue::Mysticism => Ok(Skill::Mysticism),
            ActorValue::Restoration => Ok(Skill::Restoration),
            ActorValue::Acrobatics => Ok(Skill::Acrobatics),
            ActorValue::LightArmor => Ok(Skill::LightArmor),
            ActorValue::Marksman => Ok(Skill::Marksman),
            ActorValue::Mercantile => Ok(Skill::Mercantile),
            ActorValue::Security => Ok(Skill::Security),
            ActorValue::Sneak => Ok(Skill::Sneak),
            ActorValue::Speechcraft => Ok(Skill::Speechcraft),
            _ => Err(TesError::InvalidMapping("actor value".to_owned(), "Skill".to_owned())),
        }
    }
}

impl From<Skill> for ActorValue {
    fn from(value: Skill) -> (r: ActorValue) {
        match value {
            Skill::Armorer => ActorValue::Armorer,
            Skill::Athletics => ActorValue::Athletics,
            Skill::Blade => ActorValue::Blade,
            Skill::Block => ActorValue::Block,
            Skill::Blunt => ActorValue::Blunt,
            Skill::HandToHand => ActorValue::HandToHand,
            Skill::HeavyArmor => ActorValue::HeavyArmor,
            Skill::Alchemy => ActorValue::Alchemy,
            Skill::Alteration => ActorValue::Alteration,
            Skill::Conjuration => ActorValue::Conjuration,
            Skill::Destruction => ActorValue::Destruction,
            Skill::Illusion => ActorValue::Illusion,
            Skill::Mysticism => ActorValue::Mysticism,
            Skill::Restoration => ActorValue::Restoration,
            Skill::Acrobatics => ActorValue::Acrobatics,
            Skill::LightArmor => ActorValue::LightArmor,
            Skill::Marksman => ActorValue::Marksman,
            Skill::Mercantile => ActorValue::Mercantile,
            Skill::Security => ActorValue::Security,
            Skill::Sneak => ActorValue::Sneak,
            Skill::Speechcraft => ActorValue::Speechcraft,
        }
    }
}

impl vstd::std_specs::convert::FromSpecImpl<Skill> for ActorValue {
    open spec fn obeys_from_spec() -> bool {
        true
    }

    open spec fn from_spec(v: Skill) -> ActorValue {
        skill_actor_value(v)
    }
}

impl From<Attribute> for ActorValue {
    fn from(value: Attribute) -> (r: ActorValue) {
        match value {
            Attribute::Strength => ActorValue::Strength,
            Attribute::Intelligence => ActorValue::Intelligence,
            Attribute::Willpower => ActorValue::Willpower,
            Attribute::Agility => ActorValue::Agility,
            Attribute::Speed => ActorValue::Speed,
            Attribute::Endurance => ActorValue::Endurance,
            Attribute::Personality => ActorValue::Personality,
            Attribute::Luck => ActorValue::Luck,
        }
    }
}

impl vstd::std_specs::convert::FromSpecImpl<Attribute> for ActorValue {
    open spec fn obeys_from_spec() -> bool {
        true
    }

    open spec fn from_spec(v: Attribute) -> ActorValue {
        attribute_actor_value(v)
    }
}

/// Gets the attribute that an actor value stands for
///
/// Fails with [`TesError::InvalidMapping`] if the actor value is not an attribute.
pub fn attribute_from_actor_value(value: ActorValue) -> (r: Result<Attribute, TesError>)
    ensures
        r is Ok <==> actor_value_attribute(value) is Some,
        r matches Ok(a) ==> actor_value_attribute(value) == Some(a),
        r matches Err(e) ==> e is InvalidMapping,
{
    match value {
        ActorValue::Strength => Ok(Attribute::Strength),
        ActorValue::Intelligence => Ok(Attribute::Intelligence),
        ActorValue::Willpower => Ok(Attribute::Willpower),
        ActorValue::Agility => Ok(Attribute::Agility),
        ActorValue::Speed => Ok(Attribute::Speed),
        ActorValue::Endurance => Ok(Attribute::Endurance),
        ActorValue::Personality => Ok(Attribute::Personality),
        ActorValue::Luck => Ok(Attribute::Luck),
        _ => Err(TesError::InvalidMapping("actor value".to_owned(), "Attribute".to_owned())),
    }
}

/// A skill's actor value stands for that skill.
pub proof fn lemma_skill_actor_value_roundtrip(s: Skill)
    ensures
        actor_value_skill(skill_actor_value(s)) == Some(s),
{
}

/// An attribute's actor value stands for that attribute.
pub proof fn lemma_attribute_actor_value_roundtrip(a: Attribute)
    ensures
        actor_value_attribute(attribute_actor_value(a)) == Some(a),
{
}

/// An actor value that stands for a skill is that skill's actor value.
pub proof fn lemma_actor_value_skill_roundtrip(v: ActorValue)
    ensures
        actor_value_skill(v) matches Some(s) ==> skill_actor_value(s) == v,
{
}

/// An actor value that stands for an attribute is that attribute's actor value.
pub proof fn lemma_actor_value_attribute_roundtrip(v: ActorValue)
    ensures
        actor_value_attribute(v) matches Some(a) ==> attribute_actor_value(a) == v,
{
}

/// A unique identifier for a record
#[derive(Debug, Copy, Clone, PartialEq, Eq, Structural)]
pub struct FormId(pub u32);

/// The load-order index held in the top byte of a form ID.
pub open spec fn form_index(id: u32) -> u8 {
    (id / 0x1000000) as u8
}

/// A form ID with its top byte replaced by `index`.
pub open spec fn with_index(id: u32, index: u8) -> u32 {
    ((index as u32) * 0x1000000 + id % 0x1000000) as u32
}

impl FormId {
    /// Gets a form ID's index (i.e., which plugin in the load order it belongs to)
    pub fn index(&self) -> (r: u8)
        ensures
            r == form_index(self.0),
    {
        let v = self.0;
        assert(v >> 24 == v / 0x1000000 && v / 0x1000000 < 256) by (bit_vector);
        (self.0 >> 24) as u8
    }

    /// Sets a form ID's index
    pub fn set_index(&mut self, index: u8)
        ensures
            final(self).0 == with_index(old(self).0, index),
    {
        let v = self.0;
        let i = index as u32;
        assert(((i << 24) | (v & 0xffffff)) == i * 0x1000000 + v % 0x1000000) by (bit_vector)
            requires
                i < 256,
        ;
        self.0 = ((index as u32) << 24) | (self.0 & 0xffffff);
    }
}

/// Setting a form ID's index and reading it back gives that index, and keeps the rest of the ID.
pub proof fn lemma_set_index_then_index(id: u32, index: u8)
    ensures
        form_index(with_index(id, index)) == index,
        with_index(id, index) % 0x1000000 == id % 0x1000000,
{
    assert(((index as u32) * 0x1000000 + id % 0x1000000) / 0x1000000 == index) by (nonlinear_arith);
    assert(((index as u32) * 0x1000000 + id % 0x1000000) % 0x1000000 == id % 0x1000000) by (nonlinear_arith);
}

/// Setting a form ID's index to the index it has leaves it unchanged.
pub proof fn lemma_set_own_index(id: u32)
    ensures
        with_index(id, form_index(id)) == id,
{
    assert((id / 0x1000000) * 0x1000000 + id % 0x1000000 == id) by (nonlinear_arith);
}

/// Container for a search for a form by either plugin or index
#[derive(Debug)]
pub enum FindForm<'a> {
    ByMaster(Option<&'a str>, u32),
    ByIndex(FormId),
}

/// The position of the first plugin named `name`, if any.
pub open spec fn plugin_position(plugins: Seq<Seq<char>>, name: Seq<char>) -> Option<nat>
    decreases plugins.len(),
{
    if plugins.len() == 0 {
        None
    } else if plugins[0] == name {
        Some(0)
    } else {
        match plugin_position(plugins.drop_first(), name) {
            Some(p) => Some(p + 1),
            None => None,
        }
    }
}

/// The form ID that a search by master finds: the plugin's position in the load order (or the
/// number of plugins if no plugin is named), truncated to a byte, as the top byte of `id`;
/// none if the plugin is not loaded or the index is `0xff`, which saves reserve.
pub open spec fn form_id_by_master(
    plugin: Option<Seq<char>>,
    id: u32,
    plugins: Seq<Seq<char>>,
) -> Option<u32> {
    let pos = match plugin {
        Some(name) => plugin_position(plugins, name),
        None => Some(plugins.len()),
    };
    match pos {
        None => None,
        Some(p) => if p % 256 == 0xff {
            None
        } else {
            Some(with_index(id, (p % 256) as u8))
        },
    }
}

/// The position of the first plugin named `name`, if any.
fn find_plugin(plugins: &[&str], name: &str) -> (r: Option<usize>)
    ensures
        r matches Some(i) ==> plugin_position(plugins@.map_values(|p: &str| p@), name@) == Some(
            i as nat,
        ),
        r is None ==> plugin_position(plugins@.map_values(|p: &str| p@), name@) is None,
{
    let ghost names = plugins@.map_values(|p: &str| p@);
    let mut i: usize = 0;
    assert(names.skip(0) =~= names);
    while i < plugins.len()
        invariant
            i <= plugins@.len(),
            names == plugins@.map_values(|p: &str| p@),
            plugin_position(names, name@) == match plugin_position(names.skip(i as int), name@) {
                Some(p) => Some((p + i) as nat),
                None => None,
            },
        decreases plugins@.len() - i,
    {
        proof {
            assert(names.skip(i as int)[0] == plugins@[i as int]@);
            assert(names.skip(i as int).drop_first() =~= names.skip(i + 1));
        }
        if str_eq(plugins[i], name) {
            return Some(i);
        }
        i = i + 1;
    }
    assert(names.skip(i as int).len() == 0);
    None
}

impl<'a> FindForm<'a> {
    /// Get a concrete form ID from a search, given the plugins in load order
    pub fn form_id(&self, plugins: &[&str]) -> (r: Option<FormId>)
        ensures
            match self {
                FindForm::ByMaster(plugin, id) => r == match form_id_by_master(
                    match plugin {
                        Some(p) => Some(p@),
                        None => None,
                    },
                    *id,
                    plugins@.map_values(|p: &str| p@),
                ) {
                    Some(v) => Some(FormId(v)),
                    None => None,
                },
                FindForm::ByIndex(id) => r == Some(*id),
            },
    {
        match self {
            FindForm::ByMaster(plugin, id) => {
                let ghost names = plugins@.map_values(|p: &str| p@);
                let pos: usize = match plugin {
                    Some(name) => match find_plugin(plugins, name) {
                        Some(p) => p,
                        None => {
                            return None;
                        },
                    },
                    None => plugins.len(),
                };
                let index = (pos % 256) as u8;
                if index == 0xff {
                    return None;
                }
                let mut form = FormId(*id);
                form.set_index(index);
                Some(form)
            },
            FindForm::ByIndex(id) => Some(*id),
        }
    }

    /// Creates an error referring to this form search
    pub fn err(&self) -> (r: TesError)
        ensures
            match self {
                FindForm::ByMaster(plugin, id) => r matches TesError::InvalidPluginForm {
                    plugin: name,
                    form_id,
                } && form_id == FormId(*id) && match plugin {
                    Some(p) => name@ == p@,
                    None => name@ == "<none>"@,
                },
                FindForm::ByIndex(id) => r == TesError::InvalidFormId { form_id: *id },
            },
    {
        match self {
            FindForm::ByMaster(plugin, id) => TesError::InvalidPluginForm {
                plugin: match plugin {
                    Some(p) => (*p).to_owned(),
                    None => "<none>".to_owned(),
                },
                form_id: FormId(*id),
            },
            FindForm::ByIndex(id) => TesError::InvalidFormId { form_id: *id },
        }
    }
}

/// The Oblivion magic effects that Morrowind's magic effects carry over to
#[derive(Debug, Copy, Clone, PartialEq, Eq, Structural)]
pub enum MagicEffectType {
    WaterBreathing,
    WaterWalking,
    Shield,
    FireShield,
    ShockShield,
    FrostShield,
    Burden,
    Feather,
    Lock,
    Open,
    FireDamage,
    ShockDamage,
    FrostDamage,
    DrainAttribute,
    DrainHealth,
    DrainMagicka,
    DrainFatigue,
    DrainSkill,
    DamageAttribute,
    DamageHealth,
    DamageMagicka,
    DamageFatigue,
    WeaknessToFire,
    WeaknessToFrost,
    WeaknessToShock,
    WeaknessToMagic,
    WeaknessToDisease,
    WeaknessToPoison,
    WeaknessToNormalWeapons,
    DisintegrateWeapon,
    DisintegrateArmor,
    Invisibility,
    Chameleon,
    Light,
    NightEye,
    Charm,
    Paralyze,
    Silence,
    Calm,
    Frenzy,
    Demoralize,
    Rally,
    Dispel,
    SoulTrap,
    Telekinesis,
    DetectLife,
    SpellAbsorption,
    ReflectSpell,
    CureDisease,
    CurePoison,
    CureParalysis,
    RestoreAttribute,
    RestoreHealth,
    RestoreMagicka,
    RestoreFatigue,
    FortifyAttribute,
    FortifyHealth,
    FortifyMagicka,
    FortifyMagickaMultiplier,
    FortifyFatigue,
    FortifySkill,
    AbsorbAttribute,
    AbsorbHealth,
    AbsorbMagicka,
    AbsorbFatigue,
    AbsorbSkill,
    ResistFire,
    ResistFrost,
    ResistShock,
    ResistMagic,
    ResistDisease,
    ResistPoison,
    ResistNormalWeapons,
    ResistParalysis,
    TurnUndead,
    SummonScamp,
    SummonClannfear,
    SummonDaedroth,
    SummonDremora,
    SummonGhost,
    SummonSkeleton,
    SummonHunger,
    SummonGoldenSaint,
    SummonFlameAtronach,
    SummonFrostAtronach,
    SummonStormAtronach,
    CommandCreature,
    CommandHumanoid,
    BoundDagger,
    BoundSword,
    BoundMace,
    BoundAxe,
    BoundBow,
    BoundCuirass,
    BoundHelmet,
    BoundBoots,
    BoundShield,
    BoundGauntlets,
    Vampirism,
    SunDamage,
    StuntedMagicka,
    SummonBear,
}

/// What the game's table of magic effects says of one effect: its 4-byte ID (as a
/// little-endian number), which of magnitude, area and duration it has, which ranges it
/// allows, and the actor value that a new spell effect of this type starts with.
#[derive(Debug, Copy, Clone, PartialEq, Eq, Structural)]
pub struct EffectInfo {
    pub id: u32,
    pub has_magnitude: bool,
    pub has_area: bool,
    pub has_duration: bool,
    pub allows_self: bool,
    pub allows_touch: bool,
    pub allows_target: bool,
    pub default_actor_value: ActorValue,
}

/// Whether an effect allows a range.
pub open spec fn allows_range(e: EffectInfo, range: EffectRange) -> bool {
    match range {
        EffectRange::Self_ => e.allows_self,
        EffectRange::Touch => e.allows_touch,
        EffectRange::Target => e.allows_target,
    }
}

impl EffectInfo {
    /// Whether this effect allows a range
    pub fn allows_range(&self, range: EffectRange) -> (r: bool)
        ensures
            r == allows_range(*self, range),
    {
        match range {
            EffectRange::Self_ => self.allows_self,
            EffectRange::Touch => self.allows_touch,
            EffectRange::Target => self.allows_target,
        }
    }
}

/// The first effect with the ID `id` in a table of effects.
pub open spec fn find_effect(effects: Seq<EffectInfo>, id: u32) -> Option<EffectInfo>
    decreases effects.len(),
{
    if effects.len() == 0 {
        None
    } else if effects[0].id == id {
        Some(effects[0])
    } else {
        find_effect(effects.drop_first(), id)
    }
}

/// Looks an effect up by its ID in a table of effects.
pub fn lookup_effect(effects: &[EffectInfo], id: u32) -> (r: Option<EffectInfo>)
    ensures
        r == find_effect(effects@, id),
{
    let mut i: usize = 0;
    assert(effects@.skip(0) =~= effects@);
    while i < effects.len()
        invariant
            i <= effects@.len(),
            find_effect(effects@, id) == find_effect(effects@.skip(i as int), id),
        decreases effects@.len() - i,
    {
        assert(effects@.skip(i as int).drop_first() =~= effects@.skip(i + 1));
        if effects[i].id == id {
            return Some(effects[i]);
        }
        i = i + 1;
    }
    None
}

/// Script details for a scripted magic effect
#[derive(Debug)]
pub struct ScriptEffect {
    script: FormId,
    school: MagicSchool,
    visual_effect: Option<EffectInfo>,
    /// Whether the effect is hostile
    pub is_hostile: bool,
    name: String,
}

/// The abstract content of a script effect.
pub struct ScriptEffectModel {
    pub script: FormId,
    pub school: MagicSchool,
    pub visual_effect: Option<EffectInfo>,
    pub is_hostile: bool,
    pub name: Seq<char>,
}

impl View for ScriptEffect {
    type V = ScriptEffectModel;

    closed spec fn view(&self) -> ScriptEffectModel {
        ScriptEffectModel {
            script: self.script,
            school: self.school,
            visual_effect: self.visual_effect,
            is_hostile: self.is_hostile,
            name: self.name@,
        }
    }
}

/// An individual effect of a spell
#[derive(Debug)]
pub struct SpellEffect {
    effect: EffectInfo,
    magnitude: u32,
    area: u32,
    duration: u32,
    range: EffectRange,
    actor_value: ActorValue,
    script_effect: Option<ScriptEffect>,
}

/// The abstract content of a spell effect.
pub struct SpellEffectModel {
    pub effect: EffectInfo,
    pub magnitude: u32,
    pub area: u32,
    pub duration: u32,
    pub range: EffectRange,
    pub actor_value: ActorValue,
    pub script_effect: Option<ScriptEffectModel>,
}

impl View for SpellEffect {
    type V = SpellEffectModel;

    closed spec fn view(&self) -> SpellEffectModel {
        SpellEffectModel {
            effect: self.effect,
            magnitude: self.magnitude,
            area: self.area,
            duration: self.duration,
            range: self.range,
            actor_value: self.actor_value,
            script_effect: match self.script_effect {
                Some(e) => Some(e@),
                None => None,
            },
        }
    }
}

/// The range a new effect starts with: self if allowed, else touch if allowed, else target.
pub open spec fn initial_range(e: EffectInfo) -> EffectRange {
    if e.allows_self {
        EffectRange::Self_
    } else if e.allows_touch {
        EffectRange::Touch
    } else {
        EffectRange::Target
    }
}

/// A spell effect after reading the 24 bytes of an `EFIT` field: effect ID, magnitude, area,
/// duration, range and actor value, one little-endian `u32` each, the last two truncated to a
/// byte. The effect is changed as each value is read, so a failure leaves the values read
/// before it in place; the second component says whether all were read.
pub open spec fn efit_spec(
    m: SpellEffectModel,
    d: Seq<u8>,
    effects: Seq<EffectInfo>,
) -> (SpellEffectModel, bool) {
    if d.len() < 4 {
        (m, false)
    } else {
        match find_effect(effects, word(d, 0)) {
            None => (m, false),
            Some(e) => {
                let m1 = SpellEffectModel { effect: e, ..m };
                if d.len() < 8 {
                    (m1, false)
                } else {
                    let m2 = SpellEffectModel { magnitude: word(d, 1), ..m1 };
                    if d.len() < 12 {
                        (m2, false)
                    } else {
                        let m3 = SpellEffectModel { area: word(d, 2), ..m2 };
                        if d.len() < 16 {
                            (m3, false)
                        } else {
                            let m4 = SpellEffectModel { duration: word(d, 3), ..m3 };
                            if d.len() < 20 {
                                (m4, false)
                            } else {
                                match EffectRange::from_index((word(d, 4) % 256) as u8) {
                                    None => (m4, false),
                                    Some(r) => {
                                        let m5 = SpellEffectModel { range: r, ..m4 };
                                        if d.len() < 24 {
                                            (m5, false)
                                        } else {
                                            match ActorValue::from_index(
                                                (word(d, 5) % 256) as u8,
                                            ) {
                                                None => (m5, false),
                                                Some(v) => (
                                                    SpellEffectModel { actor_value: v, ..m5 },
                                                    true,
                                                ),
                                            }
                                        }
                                    },
                                }
                            }
                        }
                    }
                }
            },
        }
    }
}

/// The script effect held by the 16 bytes of an `SCIT` field: script form ID, magic school
/// (truncated to a byte), visual effect ID (zero for none), and flags whose low bit marks a
/// hostile effect; its name is empty until a `FULL` field gives it.
pub open spec fn scit_spec(d: Seq<u8>, effects: Seq<EffectInfo>) -> Option<ScriptEffectModel> {
    if d.len() < 16 {
        None
    } else {
        let visual = if word(d, 2) == 0 {
            Some(None)
        } else {
            match find_effect(effects, word(d, 2)) {
                Some(e) => Some(Some(e)),
                None => None,
            }
        };
        match (MagicSchool::from_index((word(d, 1) % 256) as u8), visual) {
            (Some(school), Some(visual_effect)) => Some(
                ScriptEffectModel {
                    script: FormId(word(d, 0)),
                    school,
                    visual_effect,
                    is_hostile: word(d, 3) % 2 == 1,
                    name: Seq::empty(),
                },
            ),
            _ => None,
        }
    }
}

/// Loading one field into a spell effect: the state after, and whether it succeeded.
pub open spec fn load_spec(
    m: SpellEffectModel,
    name: Seq<u8>,
    d: Seq<u8>,
    effects: Seq<EffectInfo>,
) -> (SpellEffectModel, bool) {
    if name == crate::tags::EFID@ {
        if d.len() != 4 {
            (m, false)
        } else {
            match find_effect(effects, word(d, 0)) {
                Some(e) => (SpellEffectModel { effect: e, ..m }, true),
                None => (m, false),
            }
        }
    } else if name == crate::tags::EFIT@ {
        efit_spec(m, d, effects)
    } else if name == crate::tags::SCIT@ {
        match scit_spec(d, effects) {
            Some(se) => (SpellEffectModel { script_effect: Some(se), ..m }, true),
            None => (m, false),
        }
    } else if name == crate::tags::FULL@ {
        match (m.script_effect, crate::tes3::form::zstring_value(d)) {
            (Some(se), Some(n)) => (
                SpellEffectModel { script_effect: Some(ScriptEffectModel { name: n, ..se }), ..m },
                true,
            ),
            _ => (m, false),
        }
    } else {
        (m, false)
    }
}

/// The fields that describe a spell effect: `EFID` with the effect's ID; `EFIT` with the ID,
/// magnitude, area, duration, range and actor value, a little-endian `u32` each; and for a
/// scripted effect `SCIT` with the script's form ID, the school, the visual effect's ID (0 for
/// none) and the hostile flag, then `FULL` with the name and a null byte. `None` if the name
/// holds a null byte.
pub open spec fn effect_fields(m: SpellEffectModel) -> Option<Seq<FieldModel>> {
    let efid = FieldModel { name: EFID@, data: le_bytes(m.effect.id as nat, 4) };
    let efit = FieldModel {
        name: EFIT@,
        data: le_bytes(m.effect.id as nat, 4) + le_bytes(m.magnitude as nat, 4) + le_bytes(
            m.area as nat,
            4,
        ) + le_bytes(m.duration as nat, 4) + le_bytes(m.range.index() as nat, 4) + le_bytes(
            m.actor_value.index() as nat,
            4,
        ),
    };
    match m.script_effect {
        None => Some(seq![efid, efit]),
        Some(se) => if no_nul(encode_utf8(se.name)) {
            Some(
                seq![
                    efid,
                    efit,
                    FieldModel {
                        name: SCIT@,
                        data: le_bytes(se.script.0 as nat, 4) + le_bytes(se.school.index() as nat, 4)
                            + le_bytes(
                            match se.visual_effect {
                                Some(e) => e.id as nat,
                                None => 0,
                            },
                            4,
                        ) + le_bytes(if se.is_hostile { 1 } else { 0 }, 4),
                    },
                    FieldModel { name: FULL@, data: zstring_of(se.name) },
                ],
            )
        } else {
            None
        },
    }
}

/// Loading fields into a spell effect in turn: the state after, and whether every load
/// succeeded. Loading stops at the first failure.
pub open spec fn load_all(
    m: SpellEffectModel,
    fs: Seq<FieldModel>,
    effects: Seq<EffectInfo>,
) -> (SpellEffectModel, bool)
    decreases fs.len(),
{
    if fs.len() == 0 {
        (m, true)
    } else {
        let (m1, ok) = load_all(m, fs.drop_last(), effects);
        if ok {
            load_spec(m1, fs.last().name, fs.last().data, effects)
        } else {
            (m1, false)
        }
    }
}

/// Four little-endian words read back as written.
proof fn lemma_words4(a: u32, b: u32, c: u32, d: u32)
    ensures
        ({
            let s = le_bytes(a as nat, 4) + le_bytes(b as nat, 4) + le_bytes(c as nat, 4) + le_bytes(
                d as nat,
                4,
            );
            &&& s.len() == 16
            &&& word(s, 0) == a
            &&& word(s, 1) == b
            &&& word(s, 2) == c
            &&& word(s, 3) == d
        }),
{
    let s = le_bytes(a as nat, 4) + le_bytes(b as nat, 4) + le_bytes(c as nat, 4) + le_bytes(
        d as nat,
        4,
    );
    crate::bytes::lemma_le_bytes_len(a as nat, 4);
    crate::bytes::lemma_le_bytes_len(b as nat, 4);
    crate::bytes::lemma_le_bytes_len(c as nat, 4);
    crate::bytes::lemma_le_bytes_len(d as nat, 4);
    assert(s.subrange(0, 4) =~= le_bytes(a as nat, 4));
    assert(s.subrange(4, 8) =~= le_bytes(b as nat, 4));
    assert(s.subrange(8, 12) =~= le_bytes(c as nat, 4));
    assert(s.subrange(12, 16) =~= le_bytes(d as nat, 4));
    crate::tes3::roundtrip::lemma_word_of(s, 0, a);
    crate::tes3::roundtrip::lemma_word_of(s, 1, b);
    crate::tes3::roundtrip::lemma_word_of(s, 2, c);
    crate::tes3::roundtrip::lemma_word_of(s, 3, d);
}

/// Loading the `EFID` and `EFIT` fields written for a spell effect sets its effect and values.
proof fn lemma_efit_roundtrip(e: SpellEffectModel, m: SpellEffectModel, effects: Seq<EffectInfo>)
    requires
        effect_fields(e) is Some,
        find_effect(effects, e.effect.id) == Some(e.effect),
    ensures
        ({
            let fs = effect_fields(e).unwrap();
            load_all(m, fs.take(2), effects) == (SpellEffectModel {
                script_effect: m.script_effect,
                ..e
            }, true)
        }),
{
    let fs = effect_fields(e).unwrap();
    let id = e.effect.id;
    let ri = e.range.index() as u32;
    let ai = e.actor_value.index() as u32;
    let efid = le_bytes(id as nat, 4);
    crate::bytes::lemma_le_bytes_len(id as nat, 4);
    assert(efid.subrange(0, 4) =~= efid);
    crate::tes3::roundtrip::lemma_word_of(efid, 0, id);
    lemma_words4(id, e.magnitude, e.area, e.duration);
    let head = le_bytes(id as nat, 4) + le_bytes(e.magnitude as nat, 4) + le_bytes(e.area as nat, 4)
        + le_bytes(e.duration as nat, 4);
    let tail = le_bytes(ri as nat, 4) + le_bytes(ai as nat, 4);
    crate::bytes::lemma_le_bytes_len(ri as nat, 4);
    crate::bytes::lemma_le_bytes_len(ai as nat, 4);
    let d = head + tail;
    assert(fs.len() >= 2);
    assert(fs[0] == FieldModel { name: EFID@, data: efid });
    assert(fs[1].name == EFIT@);
    assert(fs[1].data =~= d);
    assert(d.subrange(0, 16) =~= head);
    assert(d.subrange(16, 20) =~= le_bytes(ri as nat, 4));
    assert(d.subrange(20, 24) =~= le_bytes(ai as nat, 4));
    assert forall|k: int| 0 <= k < 4 implies word(d, k) == word(head, k) by {
        assert(d.subrange(4 * k, 4 * k + 4) =~= head.subrange(4 * k, 4 * k + 4));
    }
    crate::tes3::roundtrip::lemma_word_of(d, 4, ri);
    crate::tes3::roundtrip::lemma_word_of(d, 5, ai);
    e.range.lemma_index_roundtrip();
    e.actor_value.lemma_index_roundtrip();
    let t1 = fs.take(1);
    assert(t1.drop_last() =~= Seq::<FieldModel>::empty());
    assert(t1.last() == fs[0]);
    assert(load_all(m, t1.drop_last(), effects) == (m, true));
    let m1 = SpellEffectModel { effect: e.effect, ..m };
    assert(load_spec(m, fs[0].name, fs[0].data, effects) == (m1, true));
    assert(load_all(m, t1, effects) == (m1, true));
    assert(fs.take(2).drop_last() =~= t1);
    assert(fs.take(2).last() == fs[1]);
    assert(efit_spec(m1, d, effects) == (SpellEffectModel { script_effect: m.script_effect, ..e }, true));
    assert(load_all(m, fs.take(2), effects) == load_spec(m1, fs[1].name, fs[1].data, effects));
}

/// Loading the fields written for a spell effect into an effect that has no script effect
/// gives that spell effect back, when the game's table of effects gives back its effect (and
/// its visual effect, which must not have the ID 0) by ID.
pub proof fn lemma_effect_fields_roundtrip(
    e: SpellEffectModel,
    start: SpellEffectModel,
    effects: Seq<EffectInfo>,
)
    requires
        effect_fields(e) is Some,
        start.script_effect is None,
        find_effect(effects, e.effect.id) == Some(e.effect),
        e.script_effect matches Some(se) ==> match se.visual_effect {
            Some(v) => v.id != 0 && find_effect(effects, v.id) == Some(v),
            None => true,
        },
    ensures
        load_all(start, effect_fields(e).unwrap(), effects) == (e, true),
{
    let fs = effect_fields(e).unwrap();
    lemma_efit_roundtrip(e, start, effects);
    let m2 = SpellEffectModel { script_effect: start.script_effect, ..e };
    match e.script_effect {
        None => {
            assert(fs.len() == 2);
            assert(fs.take(2) =~= fs);
        },
        Some(se) => {
            let vid: u32 = match se.visual_effect {
                Some(v) => v.id,
                None => 0,
            };
            let flag: u32 = if se.is_hostile { 1 } else { 0 };
            let si = se.school.index() as u32;
            lemma_words4(se.script.0, si, vid, flag);
            se.school.lemma_index_roundtrip();
            crate::tes3::roundtrip::lemma_zstring_roundtrip(se.name);
            let m3 = SpellEffectModel {
                script_effect: Some(ScriptEffectModel { name: Seq::empty(), ..se }),
                ..e
            };
            assert(fs.len() == 4);
            assert(fs[2].name == SCIT@);
            assert(fs[3].name == FULL@);
            assert(scit_spec(fs[2].data, effects) == Some(
                ScriptEffectModel { name: Seq::empty(), ..se },
            ));
            assert(load_spec(m2, fs[2].name, fs[2].data, effects) == (m3, true));
            assert(load_spec(m3, fs[3].name, fs[3].data, effects) == (e, true));
            assert(fs.take(3).drop_last() =~= fs.take(2));
            assert(fs.take(3).last() == fs[2]);
            assert(load_all(start, fs.take(3), effects) == (m3, true));
            assert(fs.drop_last() =~= fs.take(3));
            assert(fs.last() == fs[3]);
        },
    }
}

/// A change that a setter of [`SpellEffect`] makes
pub enum EffectEdit {
    Magnitude(u32),
    Area(u32),
    Duration(u32),
    Range(EffectRange),
    ActorValue(ActorValue),
}

/// A spell effect after a setter call, whether the call succeeds or fails (a failed call
/// changes nothing).
pub open spec fn edited(m: SpellEffectModel, e: EffectEdit) -> SpellEffectModel {
    match e {
        EffectEdit::Magnitude(v) => if m.effect.has_magnitude || v <= 1 {
            SpellEffectModel { magnitude: if m.effect.has_magnitude { v } else { 0 }, ..m }
        } else {
            m
        },
        EffectEdit::Area(v) => if v <= 1 || (m.range != EffectRange::Self_ && m.effect.has_area) {
            SpellEffectModel { area: v, ..m }
        } else {
            m
        },
        EffectEdit::Duration(v) => if m.effect.has_duration || v <= 1 {
            SpellEffectModel { duration: if m.effect.has_duration { v } else { 0 }, ..m }
        } else {
            m
        },
        EffectEdit::Range(range) => if allows_range(m.effect, range) {
            SpellEffectModel {
                range,
                area: if range == EffectRange::Self_ { 0 } else { m.area },
                ..m
            }
        } else {
            m
        },
        EffectEdit::ActorValue(v) => SpellEffectModel { actor_value: v, ..m },
    }
}

/// A spell effect after setter calls in turn.
pub open spec fn edited_all(m: SpellEffectModel, es: Seq<EffectEdit>) -> SpellEffectModel
    decreases es.len(),
{
    if es.len() == 0 {
        m
    } else {
        edited(edited_all(m, es.drop_last()), es.last())
    }
}

/// No sequence of setter calls, succeeding or failing, changes an effect's type: only loading
/// from a field does.
pub proof fn lemma_edits_keep_effect(m: SpellEffectModel, es: Seq<EffectEdit>)
    ensures
        edited_all(m, es).effect == m.effect,
    decreases es.len(),
{
    if es.len() > 0 {
        lemma_edits_keep_effect(m, es.drop_last());
    }
}

impl SpellEffect {
    /// Creates a new spell effect of the given type
    ///
    /// Its magnitude, area and duration are zero, its range the first of self, touch and
    /// target that the effect allows, and its actor value the effect's default.
    pub fn new(effect: EffectInfo) -> (r: SpellEffect)
        ensures
            r@ == (SpellEffectModel {
                effect,
                magnitude: 0,
                area: 0,
                duration: 0,
                range: initial_range(effect),
                actor_value: effect.default_actor_value,
                script_effect: None,
            }),
    {
        SpellEffect {
            effect,
            magnitude: 0,
            area: 0,
            duration: 0,
            range: if effect.allows_range(EffectRange::Self_) {
                EffectRange::Self_
            } else if effect.allows_range(EffectRange::Touch) {
                EffectRange::Touch
            } else {
                EffectRange::Target
            },
            actor_value: effect.default_actor_value,
            script_effect: None,
        }
    }

    /// Gets this effect's effect type
    pub fn effect_type(&self) -> (r: EffectInfo)
        ensures
            r == self@.effect,
    {
        self.effect
    }

    /// Gets the effect's magnitude
    pub fn magnitude(&self) -> (r: u32)
        ensures
            r == self@.magnitude,
    {
        self.magnitude
    }

    /// Sets the effect's magnitude
    ///
    /// An effect without magnitude accepts 0 or 1 and stores 0; a larger value fails with
    /// [`TesError::LimitExceeded`], changing nothing.
    pub fn set_magnitude(&mut self, value: u32) -> (r: Result<(), TesError>)
        ensures
            final(self)@ == edited(old(self)@, EffectEdit::Magnitude(value)),
            r is Ok <==> old(self)@.effect.has_magnitude || value <= 1,
            r is Ok ==> final(self)@ == (SpellEffectModel {
                magnitude: if old(self)@.effect.has_magnitude { value } else { 0 },
                ..old(self)@
            }),
            r matches Err(e) ==> (e matches TesError::LimitExceeded { max_size, actual_size, .. }
                && max_size == 0 && actual_size == value as usize) && final(self)@ == old(self)@,
    {
        if !self.effect.has_magnitude {
            if value > 1 {
                Err(limit_exceeded("effect cannot have a magnitude", 0, value as usize))
            } else {
                self.magnitude = 0;
                Ok(())
            }
        } else {
            self.magnitude = value;
            Ok(())
        }
    }

    /// Gets the effect's area
    pub fn area(&self) -> (r: u32)
        ensures
            r == self@.area,
    {
        self.area
    }

    /// Sets the effect's area
    ///
    /// Fails with [`TesError::LimitExceeded`], changing nothing, if the value is above 1 and
    /// the effect is cast on self or has no area.
    pub fn set_area(&mut self, value: u32) -> (r: Result<(), TesError>)
        ensures
            final(self)@ == edited(old(self)@, EffectEdit::Area(value)),
            r is Ok <==> value <= 1 || (old(self)@.range != EffectRange::Self_
                && old(self)@.effect.has_area),
            r is Ok ==> final(self)@ == (SpellEffectModel { area: value, ..old(self)@ }),
            r matches Err(e) ==> (e matches TesError::LimitExceeded { max_size, actual_size, .. }
                && max_size == 0 && actual_size == value as usize) && final(self)@ == old(self)@,
    {
        if self.range == EffectRange::Self_ && value > 1 {
            Err(limit_exceeded("Cast-on-self spells cannot have an area", 0, value as usize))
        } else if !self.effect.has_area && value > 1 {
            Err(limit_exceeded("effect cannot have an area", 0, value as usize))
        } else {
            self.area = value;
            Ok(())
        }
    }

    /// Gets the effect's duration
    pub fn duration(&self) -> (r: u32)
        ensures
            r == self@.duration,
    {
        self.duration
    }

    /// Sets the effect's duration
    ///
    /// An effect without duration accepts 0 or 1 and stores 0; a larger value fails with
    /// [`TesError::LimitExceeded`], changing nothing.
    pub fn set_duration(&mut self, value: u32) -> (r: Result<(), TesError>)
        ensures
            final(self)@ == edited(old(self)@, EffectEdit::Duration(value)),
            r is Ok <==> old(self)@.effect.has_duration || value <= 1,
            r is Ok ==> final(self)@ == (SpellEffectModel {
                duration: if old(self)@.effect.has_duration { value } else { 0 },
                ..old(self)@
            }),
            r matches Err(e) ==> (e matches TesError::LimitExceeded { max_size, actual_size, .. }
                && max_size == 0 && actual_size == value as usize) && final(self)@ == old(self)@,
    {
        if !self.effect.has_duration {
            if value > 1 {
                Err(limit_exceeded("effect cannot have a duration", 0, value as usize))
            } else {
                self.duration = 0;
                Ok(())
            }
        } else {
            self.duration = value;
            Ok(())
        }
    }

    /// Gets the effect's range
    pub fn range(&self) -> (r: EffectRange)
        ensures
            r == self@.range,
    {
        self.range
    }

    /// Sets the effect's range
    ///
    /// Fails with [`TesError::RequirementFailed`], changing nothing, if the effect does not
    /// allow the range. Casting on self clears the area.
    pub fn set_range(&mut self, range: EffectRange) -> (r: Result<(), TesError>)
        ensures
            final(self)@ == edited(old(self)@, EffectEdit::Range(range)),
            r is Ok <==> allows_range(old(self)@.effect, range),
            r is Ok ==> final(self)@ == (SpellEffectModel {
                range,
                area: if range == EffectRange::Self_ { 0 } else { old(self)@.area },
                ..old(self)@
            }),
            r matches Err(e) ==> e is RequirementFailed && final(self)@ == old(self)@,
    {
        if !self.effect.allows_range(range) {
            return Err(TesError::RequirementFailed("effect does not allow range".to_owned()));
        }
        if range == EffectRange::Self_ {
            self.area = 0;
        }
        self.range = range;
        Ok(())
    }

    /// Gets the effect's actor value
    pub fn actor_value(&self) -> (r: ActorValue)
        ensures
            r == self@.actor_value,
    {
        self.actor_value
    }

    /// Sets the effect's actor value
    pub fn set_actor_value(&mut self, value: ActorValue) -> (r: Result<(), TesError>)
        ensures
            final(self)@ == edited(old(self)@, EffectEdit::ActorValue(value)),
            r is Ok,
            final(self)@ == (SpellEffectModel { actor_value: value, ..old(self)@ }),
    {
        self.actor_value = value;
        Ok(())
    }

    fn load_efit(&mut self, d: &[u8], effects: &[EffectInfo]) -> (r: Result<(), TesError>)
        ensures
            final(self)@ == efit_spec(old(self)@, d@, effects@).0,
            r is Ok <==> efit_spec(old(self)@, d@, effects@).1,
    {
        if d.len() < 4 {
            return Err(TesError::UnexpectedEof);
        }
        self.effect = match lookup_effect(effects, word_at(d, 0)) {
            Some(e) => e,
            None => {
                return Err(decode_failed("Unexpected effect ID"));
            },
        };
        if d.len() < 8 {
            return Err(TesError::UnexpectedEof);
        }
        self.magnitude = word_at(d, 1);
        if d.len() < 12 {
            return Err(TesError::UnexpectedEof);
        }
        self.area = word_at(d, 2);
        if d.len() < 16 {
            return Err(TesError::UnexpectedEof);
        }
        self.duration = word_at(d, 3);
        if d.len() < 20 {
            return Err(TesError::UnexpectedEof);
        }
        self.range = match EffectRange::try_from_u8((word_at(d, 4) % 256) as u8) {
            Some(r) => r,
            None => {
                return Err(decode_failed("Invalid effect range"));
            },
        };
        if d.len() < 24 {
            return Err(TesError::UnexpectedEof);
        }
        self.actor_value = match ActorValue::try_from_u8((word_at(d, 5) % 256) as u8) {
            Some(v) => v,
            None => {
                return Err(decode_failed("Invalid effect actor value"));
            },
        };
        Ok(())
    }

    fn read_scit(d: &[u8], effects: &[EffectInfo]) -> (r: Result<ScriptEffect, TesError>)
        ensures
            r is Ok <==> scit_spec(d@, effects@) is Some,
            r matches Ok(se) ==> se@ == scit_spec(d@, effects@).unwrap(),
    {
        if d.len() < 16 {
            return Err(TesError::UnexpectedEof);
        }
        let script = FormId(word_at(d, 0));
        let school = match MagicSchool::try_from_u8((word_at(d, 1) % 256) as u8) {
            Some(s) => s,
            None => {
                return Err(decode_failed("Invalid script effect magic school"));
            },
        };
        let id = word_at(d, 2);
        let visual_effect = if id == 0 {
            None
        } else {
            match lookup_effect(effects, id) {
                Some(e) => Some(e),
                None => {
                    return Err(decode_failed("Unexpected effect ID"));
                },
            }
        };
        let is_hostile = word_at(d, 3) % 2 == 1;
        let se = ScriptEffect { script, school, visual_effect, is_hostile, name: String::new() };
        assert(se@.name =~= Seq::<char>::empty());
        Ok(se)
    }

    /// Load part of this magic effect from a field, given by its name and data
    ///
    /// `EFID` sets the effect type, `EFIT` the effect's values, `SCIT` its script effect and
    /// `FULL` the script effect's name. Effect IDs are looked up in `effects`, the game's table
    /// of magic effects. Fails on any other field, on an unknown effect ID, on data that is too
    /// short or does not decode, and on `FULL` before `SCIT`; an `EFIT` field changes the values
    /// read before a failure.
    pub fn load_from_field(
        &mut self,
        name: &[u8],
        data: &[u8],
        effects: &[EffectInfo],
    ) -> (r: Result<(), TesError>)
        ensures
            final(self)@ == load_spec(old(self)@, name@, data@, effects@).0,
            r is Ok <==> load_spec(old(self)@, name@, data@, effects@).1,
    {
        if crate::tags::slice_is_tag(name, &crate::tags::EFID) {
            if data.len() != 4 {
                return Err(decode_failed("unexpected data size for a number"));
            }
            self.effect = match lookup_effect(effects, word_at(data, 0)) {
                Some(e) => e,
                None => {
                    return Err(decode_failed("Unexpected effect ID"));
                },
            };
            Ok(())
        } else if crate::tags::slice_is_tag(name, &crate::tags::EFIT) {
            self.load_efit(data, effects)
        } else if crate::tags::slice_is_tag(name, &crate::tags::SCIT) {
            let se = Self::read_scit(data, effects)?;
            self.script_effect = Some(se);
            Ok(())
        } else if crate::tags::slice_is_tag(name, &crate::tags::FULL) {
            match self.script_effect.take() {
                Some(mut se) => {
                    if !check_zstring(data) {
                        self.script_effect = Some(se);
                        return Err(decode_failed("string contained internal nulls"));
                    }
                    let body = vstd::slice::slice_subrange(data, 0, data.len() - 1);
                    assert(body@ =~= data@.drop_last());
                    match str_from_utf8(body) {
                        Some(n) => {
                            se.name = n.to_owned();
                            self.script_effect = Some(se);
                            Ok(())
                        },
                        None => {
                            self.script_effect = Some(se);
                            Err(decode_failed("failed to decode string"))
                        },
                    }
                },
                None => Err(decode_failed("Unexpected FULL field while parsing magic effect")),
            }
        } else {
            Err(decode_failed("Unexpected field while parsing magic effect"))
        }
    }

    /// Creates the fields that describe this effect
    ///
    /// Fails with [`TesError::DecodeFailed`] if the script effect's name holds a null byte.
    pub fn to_fields(&self) -> (r: Result<Vec<Field>, TesError>)
        ensures
            r is Ok <==> effect_fields(self@) is Some,
            r matches Ok(v) ==> v@.map_values(|f: Field| f@) == effect_fields(self@).unwrap(),
            r matches Err(e) ==> e is DecodeFailed,
    {
        let mut fields: Vec<Field> = Vec::new();
        let mut id: Vec<u8> = Vec::new();
        push_u32(&mut id, self.effect.id);
        let efid = Field::new(&EFID, id);
        let mut buf: Vec<u8> = Vec::new();
        push_u32(&mut buf, self.effect.id);
        push_u32(&mut buf, self.magnitude);
        push_u32(&mut buf, self.area);
        push_u32(&mut buf, self.duration);
        push_u32(&mut buf, self.range.to_u8() as u32);
        push_u32(&mut buf, self.actor_value.to_u8() as u32);
        let efit = Field::new(&EFIT, buf);
        let ghost head = seq![efid@, efit@];
        fields.push(efid);
        fields.push(efit);
        assert(fields@.map_values(|f: Field| f@) =~= head);
        match &self.script_effect {
            None => {},
            Some(se) => {
                let mut buf: Vec<u8> = Vec::new();
                push_u32(&mut buf, se.script.0);
                push_u32(&mut buf, se.school.to_u8() as u32);
                push_u32(
                    &mut buf,
                    match se.visual_effect {
                        Some(e) => e.id,
                        None => 0,
                    },
                );
                push_u32(&mut buf, if se.is_hostile { 1 } else { 0 });
                let scit = Field::new(&SCIT, buf);
                let full = Field::new_zstring(&FULL, se.name.clone())?;
                let ghost all = head.push(scit@).push(full@);
                fields.push(scit);
                fields.push(full);
                assert(fields@.map_values(|f: Field| f@) =~= all);
            },
        }
        Ok(fields)
    }
}

} // verus!
