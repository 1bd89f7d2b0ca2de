//! Skills, magic effects and the effects of spells in Morrowind.

use vstd::prelude::*;

use crate::bytes::{le_bytes, le_value, lemma_le_bytes_len, push_u16, push_u32, read_u16_at, read_u32_at};
use crate::common::{Attribute, EffectRange, Specialization};
use crate::error::{decode_failed, TesError};

verus! {

/// The different types of magical effects available in Morrowind
#[derive(Debug, Copy, Clone, PartialEq, Eq, Structural)]
pub enum MagicEffectType {
    WaterBreathing,
    SwiftSwim,
    WaterWalking,
    Shield,
    FireShield,
    LightningShield,
    FrostShield,
    Burden,
    Feather,
    Jump,
    Levitate,
    SlowFall,
    Lock,
    Open,
    FireDamage,
    ShockDamage,
    FrostDamage,
    DrainAttribute,
    DrainHealth,
    DrainMagicka,
    DrainFatigue,
    DrainSkill,
    DamageAttribute,
    DamageHealth,
    DamageMagicka,
    DamageFatigue,
    DamageSkill,
    Poison,
    WeaknessToFire,
    WeaknessToFrost,
    WeaknessToShock,
    WeaknessToMagicka,
    WeaknessToCommonDisease,
    WeaknessToBlightDisease,
    WeaknessToCorprusDisease,
    WeaknessToPoison,
    WeaknessToNormalWeapons,
    DisintegrateWeapon,
    DisintegrateArmor,
    Invisibility,
    Chameleon,
    Light,
    Sanctuary,
    NightEye,
    Charm,
    Paralyze,
    Silence,
    Blind,
    Sound,
    CalmHumanoid,
    CalmCreature,
    FrenzyHumanoid,
    FrenzyCreature,
    DemoralizeHumanoid,
    DemoralizeCreature,
    RallyHumanoid,
    RallyCreature,
    Dispel,
    Soultrap,
    Telekinesis,
    Mark,
    Recall,
    DivineIntervention,
    AlmsiviIntervention,
    DetectAnimal,
    DetectEnchantment,
    DetectKey,
    SpellAbsorption,
    Reflect,
    CureCommonDisease,
    CureBlightDisease,
    CureCorprusDisease,
    CurePoison,
    CureParalyzation,
    RestoreAttribute,
    RestoreHealth,
    RestoreMagicka,
    RestoreFatigue,
    RestoreSkill,
    FortifyAttribute,
    FortifyHealth,
    FortifyMagicka,
    FortifyFatigue,
    FortifySkill,
    FortifyMaximumMagicka,
    AbsorbAttribute,
    AbsorbHealth,
    AbsorbMagicka,
    AbsorbFatigue,
    AbsorbSkill,
    ResistFire,
    ResistFrost,
    ResistShock,
    ResistMagicka,
    ResistCommonDisease,
    ResistBlightDisease,
    ResistCorprusDisease,
    ResistPoison,
    ResistNormalWeapons,
    ResistParalysis,
    RemoveCurse,
    TurnUndead,
    SummonScamp,
    SummonClannfear,
    SummonDaedroth,
    SummonDremora,
    SummonAncestralGhost,
    SummonSkeletalMinion,
    SummonBonewalker,
    SummonGreaterBonewalker,
    SummonBonelord,
    SummonWingedTwilight,
    SummonHunger,
    SummonGoldenSaint,
    SummonFlameAtronach,
    SummonFrostAtronach,
    SummonStormAtronach,
    FortifyAttack,
    CommandCreature,
    CommandHumanoid,
    BoundDagger,
    BoundLongsword,
    BoundMace,
    BoundBattleAxe,
    BoundSpear,
    BoundLongbow,
    ExtraSpell,
    BoundCuirass,
    BoundHelm,
    BoundBoots,
    BoundShield,
    BoundGloves,
    Corprus,
    Vampirism,
    SummonCenturionSphere,
    SunDamage,
    StuntedMagicka,
    SummonFabricant,
    CallWolf,
    CallBear,
    SummonBonewolf,
    SummonCreature04,
    SummonCreature05,
}

impl MagicEffectType {
    /// The number that stands for this value in the file formats
    pub open spec fn index(self) -> u8 {
        match self {
            MagicEffectType::WaterBreathing => 0u8,
            MagicEffectType::SwiftSwim => 1u8,
            MagicEffectType::WaterWalking => 2u8,
            MagicEffectType::Shield => 3u8,
            MagicEffectType::FireShield => 4u8,
            MagicEffectType::LightningShield => 5u8,
            MagicEffectType::FrostShield => 6u8,
            MagicEffectType::Burden => 7u8,
            MagicEffectType::Feather => 8u8,
            MagicEffectType::Jump => 9u8,
            MagicEffectType::Levitate => 10u8,
            MagicEffectType::SlowFall => 11u8,
            MagicEffectType::Lock => 12u8,
            MagicEffectType::Open => 13u8,
            MagicEffectType::FireDamage => 14u8,
            MagicEffectType::ShockDamage => 15u8,
            MagicEffectType::FrostDamage => 16u8,
            MagicEffectType::DrainAttribute => 17u8,
            MagicEffectType::DrainHealth => 18u8,
            MagicEffectType::DrainMagicka => 19u8,
            MagicEffectType::DrainFatigue => 20u8,
            MagicEffectType::DrainSkill => 21u8,
            MagicEffectType::DamageAttribute => 22u8,
            MagicEffectType::DamageHealth => 23u8,
            MagicEffectType::DamageMagicka => 24u8,
            MagicEffectType::DamageFatigue => 25u8,
            MagicEffectType::DamageSkill => 26u8,
            MagicEffectType::Poison => 27u8,
            MagicEffectType::WeaknessToFire => 28u8,
            MagicEffectType::WeaknessToFrost => 29u8,
            MagicEffectType::WeaknessToShock => 30u8,
            MagicEffectType::WeaknessToMagicka => 31u8,
            MagicEffectType::WeaknessToCommonDisease => 32u8,
            MagicEffectType::WeaknessToBlightDisease => 33u8,
            MagicEffectType::WeaknessToCorprusDisease => 34u8,
            MagicEffectType::WeaknessToPoison => 35u8,
            MagicEffectType::WeaknessToNormalWeapons => 36u8,
            MagicEffectType::DisintegrateWeapon => 37u8,
            MagicEffectType::DisintegrateArmor => 38u8,
            MagicEffectType::Invisibility => 39u8,
            MagicEffectType::Chameleon => 40u8,
            MagicEffectType::Light => 41u8,
            MagicEffectType::Sanctuary => 42u8,
            MagicEffectType::NightEye => 43u8,
            MagicEffectType::Charm => 44u8,
            MagicEffectType::Paralyze => 45u8,
            MagicEffectType::Silence => 46u8,
            MagicEffectType::Blind => 47u8,
            MagicEffectType::Sound => 48u8,
            MagicEffectType::CalmHumanoid => 49u8,
            MagicEffectType::CalmCreature => 50u8,
            MagicEffectType::FrenzyHumanoid => 51u8,
            MagicEffectType::FrenzyCreature => 52u8,
            MagicEffectType::DemoralizeHumanoid => 53u8,
            MagicEffectType::DemoralizeCreature => 54u8,
            MagicEffectType::RallyHumanoid => 55u8,
            MagicEffectType::RallyCreature => 56u8,
            MagicEffectType::Dispel => 57u8,
            MagicEffectType::Soultrap => 58u8,
            MagicEffectType::Telekinesis => 59u8,
            MagicEffectType::Mark => 60u8,
            MagicEffectType::Recall => 61u8,
            MagicEffectType::DivineIntervention => 62u8,
            MagicEffectType::AlmsiviIntervention => 63u8,
            MagicEffectType::DetectAnimal => 64u8,
            MagicEffectType::DetectEnchantment => 65u8,
            MagicEffectType::DetectKey => 66u8,
            MagicEffectType::SpellAbsorption => 67u8,
            MagicEffectType::Reflect => 68u8,
            MagicEffectType::CureCommonDisease => 69u8,
            MagicEffectType::CureBlightDisease => 70u8,
            MagicEffectType::CureCorprusDisease => 71u8,
            MagicEffectType::CurePoison => 72u8,
            MagicEffectType::CureParalyzation => 73u8,
            MagicEffectType::RestoreAttribute => 74u8,
            MagicEffectType::RestoreHealth => 75u8,
            MagicEffectType::RestoreMagicka => 76u8,
            MagicEffectType::RestoreFatigue => 77u8,
            MagicEffectType::RestoreSkill => 78u8,
            MagicEffectType::FortifyAttribute => 79u8,
            MagicEffectType::FortifyHealth => 80u8,
            MagicEffectType::FortifyMagicka => 81u8,
            MagicEffectType::FortifyFatigue => 82u8,
            MagicEffectType::FortifySkill => 83u8,
            MagicEffectType::FortifyMaximumMagicka => 84u8,
            MagicEffectType::AbsorbAttribute => 85u8,
            MagicEffectType::AbsorbHealth => 86u8,
            MagicEffectType::AbsorbMagicka => 87u8,
            MagicEffectType::AbsorbFatigue => 88u8,
            MagicEffectType::AbsorbSkill => 89u8,
            MagicEffectType::ResistFire => 90u8,
            MagicEffectType::ResistFrost => 91u8,
            MagicEffectType::ResistShock => 92u8,
            MagicEffectType::ResistMagicka => 93u8,
            MagicEffectType::ResistCommonDisease => 94u8,
            MagicEffectType::ResistBlightDisease => 95u8,
            MagicEffectType::ResistCorprusDisease => 96u8,
            MagicEffectType::ResistPoison => 97u8,
            MagicEffectType::ResistNormalWeapons => 98u8,
            MagicEffectType::ResistParalysis => 99u8,
            MagicEffectType::RemoveCurse => 100u8,
            MagicEffectType::TurnUndead => 101u8,
            MagicEffectType::SummonScamp => 102u8,
            MagicEffectType::SummonClannfear => 103u8,
            MagicEffectType::SummonDaedroth => 104u8,
            MagicEffectType::SummonDremora => 105u8,
            MagicEffectType::SummonAncestralGhost => 106u8,
            MagicEffectType::SummonSkeletalMinion => 107u8,
            MagicEffectType::SummonBonewalker => 108u8,
            MagicEffectType::SummonGreaterBonewalker => 109u8,
            MagicEffectType::SummonBonelord => 110u8,
            MagicEffectType::SummonWingedTwilight => 111u8,
            MagicEffectType::SummonHunger => 112u8,
            MagicEffectType::SummonGoldenSaint => 113u8,
            MagicEffectType::SummonFlameAtronach => 114u8,
            MagicEffectType::SummonFrostAtronach => 115u8,
            MagicEffectType::SummonStormAtronach => 116u8,
            MagicEffectType::FortifyAttack => 117u8,
            MagicEffectType::CommandCreature => 118u8,
            MagicEffectType::CommandHumanoid => 119u8,
            MagicEffectType::BoundDagger => 120u8,
            MagicEffectType::BoundLongsword => 121u8,
            MagicEffectType::BoundMace => 122u8,
            MagicEffectType::BoundBattleAxe => 123u8,
            MagicEffectType::BoundSpear => 124u8,
            MagicEffectType::BoundLongbow => 125u8,
            MagicEffectType::ExtraSpell => 126u8,
            MagicEffectType::BoundCuirass => 127u8,
            MagicEffectType::BoundHelm => 128u8,
            MagicEffectType::BoundBoots => 129u8,
            MagicEffectType::BoundShield => 130u8,
            MagicEffectType::BoundGloves => 131u8,
            MagicEffectType::Corprus => 132u8,
            MagicEffectType::Vampirism => 133u8,
            MagicEffectType::SummonCenturionSphere => 134u8,
            MagicEffectType::SunDamage => 135u8,
            MagicEffectType::StuntedMagicka => 136u8,
            MagicEffectType::SummonFabricant => 137u8,
            MagicEffectType::CallWolf => 138u8,
            MagicEffectType::CallBear => 139u8,
            MagicEffectType::SummonBonewolf => 140u8,
            MagicEffectType::SummonCreature04 => 141u8,
            MagicEffectType::SummonCreature05 => 142u8,
        }
    }

    /// The value that a number stands for, if any
    pub open spec fn from_index(v: u8) -> Option<MagicEffectType> {
        match v {
            0u8 => Some(MagicEffectType::WaterBreathing),
            1u8 => Some(MagicEffectType::SwiftSwim),
            2u8 => Some(MagicEffectType::WaterWalking),
            3u8 => Some(MagicEffectType::Shield),
            4u8 => Some(MagicEffectType::FireShield),
            5u8 => Some(MagicEffectType::LightningShield),
            6u8 => Some(MagicEffectType::FrostShield),
            7u8 => Some(MagicEffectType::Burden),
            8u8 => Some(MagicEffectType::Feather),
            9u8 => Some(MagicEffectType::Jump),
            10u8 => Some(MagicEffectType::Levitate),
            11u8 => Some(MagicEffectType::SlowFall),
            12u8 => Some(MagicEffectType::Lock),
            13u8 => Some(MagicEffectType::Open),
            14u8 => Some(MagicEffectType::FireDamage),
            15u8 => Some(MagicEffectType::ShockDamage),
            16u8 => Some(MagicEffectType::FrostDamage),
            17u8 => Some(MagicEffectType::DrainAttribute),
            18u8 => Some(MagicEffectType::DrainHealth),
            19u8 => Some(MagicEffectType::DrainMagicka),
            20u8 => Some(MagicEffectType::DrainFatigue),
            21u8 => Some(MagicEffectType::DrainSkill),
            22u8 => Some(MagicEffectType::DamageAttribute),
            23u8 => Some(MagicEffectType::DamageHealth),
            24u8 => Some(MagicEffectType::DamageMagicka),
            25u8 => Some(MagicEffectType::DamageFatigue),
            26u8 => Some(MagicEffectType::DamageSkill),
            27u8 => Some(MagicEffectType::Poison),
            28u8 => Some(MagicEffectType::WeaknessToFire),
            29u8 => Some(MagicEffectType::WeaknessToFrost),
            30u8 => Some(MagicEffectType::WeaknessToShock),
            31u8 => Some(MagicEffectType::WeaknessToMagicka),
            32u8 => Some(MagicEffectType::WeaknessToCommonDisease),
            33u8 => Some(MagicEffectType::WeaknessToBlightDisease),
            34u8 => Some(MagicEffectType::WeaknessToCorprusDisease),
            35u8 => Some(MagicEffectType::WeaknessToPoison),
            36u8 => Some(MagicEffectType::WeaknessToNormalWeapons),
            37u8 => Some(MagicEffectType::DisintegrateWeapon),
            38u8 => Some(MagicEffectType::DisintegrateArmor),
            39u8 => Some(MagicEffectType::Invisibility),
            40u8 => Some(MagicEffectType::Chameleon),
            41u8 => Some(MagicEffectType::Light),
            42u8 => Some(MagicEffectType::Sanctuary),
            43u8 => Some(MagicEffectType::NightEye),
            44u8 => Some(MagicEffectType::Charm),
            45u8 => Some(MagicEffectType::Paralyze),
            46u8 => Some(MagicEffectType::Silence),
            47u8 => Some(MagicEffectType::Blind),
            48u8 => Some(MagicEffectType::Sound),
            49u8 => Some(MagicEffectType::CalmHumanoid),
            50u8 => Some(MagicEffectType::CalmCreature),
            51u8 => Some(MagicEffectType::FrenzyHumanoid),
            52u8 => Some(MagicEffectType::FrenzyCreature),
            53u8 => Some(MagicEffectType::DemoralizeHumanoid),
            54u8 => Some(MagicEffectType::DemoralizeCreature),
            55u8 => Some(MagicEffectType::RallyHumanoid),
            56u8 => Some(MagicEffectType::RallyCreature),
            57u8 => Some(MagicEffectType::Dispel),
            58u8 => Some(MagicEffectType::Soultrap),
            59u8 => Some(MagicEffectType::Telekinesis),
            60u8 => Some(MagicEffectType::Mark),
            61u8 => Some(MagicEffectType::Recall),
            62u8 => Some(MagicEffectType::DivineIntervention),
            63u8 => Some(MagicEffectType::AlmsiviIntervention),
            64u8 => Some(MagicEffectType::DetectAnimal),
            65u8 => Some(MagicEffectType::DetectEnchantment),
            66u8 => Some(MagicEffectType::DetectKey),
            67u8 => Some(MagicEffectType::SpellAbsorption),
            68u8 => Some(MagicEffectType::Reflect),
            69u8 => Some(MagicEffectType::CureCommonDisease),
            70u8 => Some(MagicEffectType::CureBlightDisease),
            71u8 => Some(MagicEffectType::CureCorprusDisease),
            72u8 => Some(MagicEffectType::CurePoison),
            73u8 => Some(MagicEffectType::CureParalyzation),
            74u8 => Some(MagicEffectType::RestoreAttribute),
            75u8 => Some(MagicEffectType::RestoreHealth),
            76u8 => Some(MagicEffectType::RestoreMagicka),
            77u8 => Some(MagicEffectType::RestoreFatigue),
            78u8 => Some(MagicEffectType::RestoreSkill),
            79u8 => Some(MagicEffectType::FortifyAttribute),
            80u8 => Some(MagicEffectType::FortifyHealth),
            81u8 => Some(MagicEffectType::FortifyMagicka),
            82u8 => Some(MagicEffectType::FortifyFatigue),
            83u8 => Some(MagicEffectType::FortifySkill),
            84u8 => Some(MagicEffectType::FortifyMaximumMagicka),
            85u8 => Some(MagicEffectType::AbsorbAttribute),
            86u8 => Some(MagicEffectType::AbsorbHealth),
            87u8 => Some(MagicEffectType::AbsorbMagicka),
            88u8 => Some(MagicEffectType::AbsorbFatigue),
            89u8 => Some(MagicEffectType::AbsorbSkill),
            90u8 => Some(MagicEffectType::ResistFire),
            91u8 => Some(MagicEffectType::ResistFrost),
            92u8 => Some(MagicEffectType::ResistShock),
            93u8 => Some(MagicEffectType::ResistMagicka),
            94u8 => Some(MagicEffectType::ResistCommonDisease),
            95u8 => Some(MagicEffectType::ResistBlightDisease),
            96u8 => Some(MagicEffectType::ResistCorprusDisease),
            97u8 => Some(MagicEffectType::ResistPoison),
            98u8 => Some(MagicEffectType::ResistNormalWeapons),
            99u8 => Some(MagicEffectType::ResistParalysis),
            100u8 => Some(MagicEffectType::RemoveCurse),
            101u8 => Some(MagicEffectType::TurnUndead),
            102u8 => Some(MagicEffectType::SummonScamp),
            103u8 => Some(MagicEffectType::SummonClannfear),
            104u8 => Some(MagicEffectType::SummonDaedroth),
            105u8 => Some(MagicEffectType::SummonDremora),
            106u8 => Some(MagicEffectType::SummonAncestralGhost),
            107u8 => Some(MagicEffectType::SummonSkeletalMinion),
            108u8 => Some(MagicEffectType::SummonBonewalker),
            109u8 => Some(MagicEffectType::SummonGreaterBonewalker),
            110u8 => Some(MagicEffectType::SummonBonelord),
            111u8 => Some(MagicEffectType::SummonWingedTwilight),
            112u8 => Some(MagicEffectType::SummonHunger),
            113u8 => Some(MagicEffectType::SummonGoldenSaint),
            114u8 => Some(MagicEffectType::SummonFlameAtronach),
            115u8 => Some(MagicEffectType::SummonFrostAtronach),
            116u8 => Some(MagicEffectType::SummonStormAtronach),
            117u8 => Some(MagicEffectType::FortifyAttack),
            118u8 => Some(MagicEffectType::CommandCreature),
            119u8 => Some(MagicEffectType::CommandHumanoid),
            120u8 => Some(MagicEffectType::BoundDagger),
            121u8 => Some(MagicEffectType::BoundLongsword),
            122u8 => Some(MagicEffectType::BoundMace),
            123u8 => Some(MagicEffectType::BoundBattleAxe),
            124u8 => Some(MagicEffectType::BoundSpear),
            125u8 => Some(MagicEffectType::BoundLongbow),
            126u8 => Some(MagicEffectType::ExtraSpell),
            127u8 => Some(MagicEffectType::BoundCuirass),
            128u8 => Some(MagicEffectType::BoundHelm),
            129u8 => Some(MagicEffectType::BoundBoots),
            130u8 => Some(MagicEffectType::BoundShield),
            131u8 => Some(MagicEffectType::BoundGloves),
            132u8 => Some(MagicEffectType::Corprus),
            133u8 => Some(MagicEffectType::Vampirism),
            134u8 => Some(MagicEffectType::SummonCenturionSphere),
            135u8 => Some(MagicEffectType::SunDamage),
            136u8 => Some(MagicEffectType::StuntedMagicka),
            137u8 => Some(MagicEffectType::SummonFabricant),
            138u8 => Some(MagicEffectType::CallWolf),
            139u8 => Some(MagicEffectType::CallBear),
            140u8 => Some(MagicEffectType::SummonBonewolf),
            141u8 => Some(MagicEffectType::SummonCreature04),
            142u8 => Some(MagicEffectType::SummonCreature05),
            _ => None,
        }
    }

    /// Gets the number that stands for this value
    pub fn to_u8(self) -> (r: u8)
        ensures
            r == self.index(),
    {
        match self {
            MagicEffectType::WaterBreathing => 0u8,
            MagicEffectType::SwiftSwim => 1u8,
            MagicEffectType::WaterWalking => 2u8,
            MagicEffectType::Shield => 3u8,
            MagicEffectType::FireShield => 4u8,
            MagicEffectType::LightningShield => 5u8,
            MagicEffectType::FrostShield => 6u8,
            MagicEffectType::Burden => 7u8,
            MagicEffectType::Feather => 8u8,
            MagicEffectType::Jump => 9u8,
            MagicEffectType::Levitate => 10u8,
            MagicEffectType::SlowFall => 11u8,
            MagicEffectType::Lock => 12u8,
            MagicEffectType::Open => 13u8,
            MagicEffectType::FireDamage => 14u8,
            MagicEffectType::ShockDamage => 15u8,
            MagicEffectType::FrostDamage => 16u8,
            MagicEffectType::DrainAttribute => 17u8,
            MagicEffectType::DrainHealth => 18u8,
            MagicEffectType::DrainMagicka => 19u8,
            MagicEffectType::DrainFatigue => 20u8,
            MagicEffectType::DrainSkill => 21u8,
            MagicEffectType::DamageAttribute => 22u8,
            MagicEffectType::DamageHealth => 23u8,
            MagicEffectType::DamageMagicka => 24u8,
            MagicEffectType::DamageFatigue => 25u8,
            MagicEffectType::DamageSkill => 26u8,
            MagicEffectType::Poison => 27u8,
            MagicEffectType::WeaknessToFire => 28u8,
            MagicEffectType::WeaknessToFrost => 29u8,
            MagicEffectType::WeaknessToShock => 30u8,
            MagicEffectType::WeaknessToMagicka => 31u8,
            MagicEffectType::WeaknessToCommonDisease => 32u8,
            MagicEffectType::WeaknessToBlightDisease => 33u8,
            MagicEffectType::WeaknessToCorprusDisease => 34u8,
            MagicEffectType::WeaknessToPoison => 35u8,
            MagicEffectType::WeaknessToNormalWeapons => 36u8,
            MagicEffectType::DisintegrateWeapon => 37u8,
            MagicEffectType::DisintegrateArmor => 38u8,
            MagicEffectType::Invisibility => 39u8,
            MagicEffectType::Chameleon => 40u8,
            MagicEffectType::Light => 41u8,
            MagicEffectType::Sanctuary => 42u8,
            MagicEffectType::NightEye => 43u8,
            MagicEffectType::Charm => 44u8,
            MagicEffectType::Paralyze => 45u8,
            MagicEffectType::Silence => 46u8,
            MagicEffectType::Blind => 47u8,
            MagicEffectType::Sound => 48u8,
            MagicEffectType::CalmHumanoid => 49u8,
            MagicEffectType::CalmCreature => 50u8,
            MagicEffectType::FrenzyHumanoid => 51u8,
            MagicEffectType::FrenzyCreature => 52u8,
            MagicEffectType::DemoralizeHumanoid => 53u8,
            MagicEffectType::DemoralizeCreature => 54u8,
            MagicEffectType::RallyHumanoid => 55u8,
            MagicEffectType::RallyCreature => 56u8,
            MagicEffectType::Dispel => 57u8,
            MagicEffectType::Soultrap => 58u8,
            MagicEffectType::Telekinesis => 59u8,
            MagicEffectType::Mark => 60u8,
            MagicEffectType::Recall => 61u8,
            MagicEffectType::DivineIntervention => 62u8,
            MagicEffectType::AlmsiviIntervention => 63u8,
            MagicEffectType::DetectAnimal => 64u8,
            MagicEffectType::DetectEnchantment => 65u8,
            MagicEffectType::DetectKey => 66u8,
            MagicEffectType::SpellAbsorption => 67u8,
            MagicEffectType::Reflect => 68u8,
            MagicEffectType::CureCommonDisease => 69u8,
            MagicEffectType::CureBlightDisease => 70u8,
            MagicEffectType::CureCorprusDisease => 71u8,
            MagicEffectType::CurePoison => 72u8,
            MagicEffectType::CureParalyzation => 73u8,
            MagicEffectType::RestoreAttribute => 74u8,
            MagicEffectType::RestoreHealth => 75u8,
            MagicEffectType::RestoreMagicka => 76u8,
            MagicEffectType::RestoreFatigue => 77u8,
            MagicEffectType::RestoreSkill => 78u8,
            MagicEffectType::FortifyAttribute => 79u8,
            MagicEffectType::FortifyHealth => 80u8,
            MagicEffectType::FortifyMagicka => 81u8,
            MagicEffectType::FortifyFatigue => 82u8,
            MagicEffectType::FortifySkill => 83u8,
            MagicEffectType::FortifyMaximumMagicka => 84u8,
            MagicEffectType::AbsorbAttribute => 85u8,
            MagicEffectType::AbsorbHealth => 86u8,
            MagicEffectType::AbsorbMagicka => 87u8,
            MagicEffectType::AbsorbFatigue => 88u8,
            MagicEffectType::AbsorbSkill => 89u8,
            MagicEffectType::ResistFire => 90u8,
            MagicEffectType::ResistFrost => 91u8,
            MagicEffectType::ResistShock => 92u8,
            MagicEffectType::ResistMagicka => 93u8,
            MagicEffectType::ResistCommonDisease => 94u8,
            MagicEffectType::ResistBlightDisease => 95u8,
            MagicEffectType::ResistCorprusDisease => 96u8,
            MagicEffectType::ResistPoison => 97u8,
            MagicEffectType::ResistNormalWeapons => 98u8,
            MagicEffectType::ResistParalysis => 99u8,
            MagicEffectType::RemoveCurse => 100u8,
            MagicEffectType::TurnUndead => 101u8,
            MagicEffectType::SummonScamp => 102u8,
            MagicEffectType::SummonClannfear => 103u8,
            MagicEffectType::SummonDaedroth => 104u8,
            MagicEffectType::SummonDremora => 105u8,
            MagicEffectType::SummonAncestralGhost => 106u8,
            MagicEffectType::SummonSkeletalMinion => 107u8,
            MagicEffectType::SummonBonewalker => 108u8,
            MagicEffectType::SummonGreaterBonewalker => 109u8,
            MagicEffectType::SummonBonelord => 110u8,
            MagicEffectType::SummonWingedTwilight => 111u8,
            MagicEffectType::SummonHunger => 112u8,
            MagicEffectType::SummonGoldenSaint => 113u8,
            MagicEffectType::SummonFlameAtronach => 114u8,
            MagicEffectType::SummonFrostAtronach => 115u8,
            MagicEffectType::SummonStormAtronach => 116u8,
            MagicEffectType::FortifyAttack => 117u8,
            MagicEffectType::CommandCreature => 118u8,
            MagicEffectType::CommandHumanoid => 119u8,
            MagicEffectType::BoundDagger => 120u8,
            MagicEffectType::BoundLongsword => 121u8,
            MagicEffectType::BoundMace => 122u8,
            MagicEffectType::BoundBattleAxe => 123u8,
            MagicEffectType::BoundSpear => 124u8,
            MagicEffectType::BoundLongbow => 125u8,
            MagicEffectType::ExtraSpell => 126u8,
            MagicEffectType::BoundCuirass => 127u8,
            MagicEffectType::BoundHelm => 128u8,
            MagicEffectType::BoundBoots => 129u8,
            MagicEffectType::BoundShield => 130u8,
            MagicEffectType::BoundGloves => 131u8,
            MagicEffectType::Corprus => 132u8,
            MagicEffectType::Vampirism => 133u8,
            MagicEffectType::SummonCenturionSphere => 134u8,
            MagicEffectType::SunDamage => 135u8,
            MagicEffectType::StuntedMagicka => 136u8,
            MagicEffectType::SummonFabricant => 137u8,
            MagicEffectType::CallWolf => 138u8,
            MagicEffectType::CallBear => 139u8,
            MagicEffectType::SummonBonewolf => 140u8,
            MagicEffectType::SummonCreature04 => 141u8,
            MagicEffectType::SummonCreature05 => 142u8,
        }
    }

    /// Gets the value that a number stands for, if any
    pub fn try_from_u8(v: u8) -> (r: Option<MagicEffectType>)
        ensures
            r == MagicEffectType::from_index(v),
    {
        match v {
            0u8 => Some(MagicEffectType::WaterBreathing),
            1u8 => Some(MagicEffectType::SwiftSwim),
            2u8 => Some(MagicEffectType::WaterWalking),
            3u8 => Some(MagicEffectType::Shield),
            4u8 => Some(MagicEffectType::FireShield),
            5u8 => Some(MagicEffectType::LightningShield),
            6u8 => Some(MagicEffectType::FrostShield),
            7u8 => Some(MagicEffectType::Burden),
            8u8 => Some(MagicEffectType::Feather),
            9u8 => Some(MagicEffectType::Jump),
            10u8 => Some(MagicEffectType::Levitate),
            11u8 => Some(MagicEffectType::SlowFall),
            12u8 => Some(MagicEffectType::Lock),
            13u8 => Some(MagicEffectType::Open),
            14u8 => Some(MagicEffectType::FireDamage),
            15u8 => Some(MagicEffectType::ShockDamage),
            16u8 => Some(MagicEffectType::FrostDamage),
            17u8 => Some(MagicEffectType::DrainAttribute),
            18u8 => Some(MagicEffectType::DrainHealth),
            19u8 => Some(MagicEffectType::DrainMagicka),
            20u8 => Some(MagicEffectType::DrainFatigue),
            21u8 => Some(MagicEffectType::DrainSkill),
            22u8 => Some(MagicEffectType::DamageAttribute),
            23u8 => Some(MagicEffectType::DamageHealth),
            24u8 => Some(MagicEffectType::DamageMagicka),
            25u8 => Some(MagicEffectType::DamageFatigue),
            26u8 => Some(MagicEffectType::DamageSkill),
            27u8 => Some(MagicEffectType::Poison),
            28u8 => Some(MagicEffectType::WeaknessToFire),
            29u8 => Some(MagicEffectType::WeaknessToFrost),
            30u8 => Some(MagicEffectType::WeaknessToShock),
            31u8 => Some(MagicEffectType::WeaknessToMagicka),
            32u8 => Some(MagicEffectType::WeaknessToCommonDisease),
            33u8 => Some(MagicEffectType::WeaknessToBlightDisease),
            34u8 => Some(MagicEffectType::WeaknessToCorprusDisease),
            35u8 => Some(MagicEffectType::WeaknessToPoison),
            36u8 => Some(MagicEffectType::WeaknessToNormalWeapons),
            37u8 => Some(MagicEffectType::DisintegrateWeapon),
            38u8 => Some(MagicEffectType::DisintegrateArmor),
            39u8 => Some(MagicEffectType::Invisibility),
            40u8 => Some(MagicEffectType::Chameleon),
            41u8 => Some(MagicEffectType::Light),
            42u8 => Some(MagicEffectType::Sanctuary),
            43u8 => Some(MagicEffectType::NightEye),
            44u8 => Some(MagicEffectType::Charm),
            45u8 => Some(MagicEffectType::Paralyze),
            46u8 => Some(MagicEffectType::Silence),
            47u8 => Some(MagicEffectType::Blind),
            48u8 => Some(MagicEffectType::Sound),
            49u8 => Some(MagicEffectType::CalmHumanoid),
            50u8 => Some(MagicEffectType::CalmCreature),
            51u8 => Some(MagicEffectType::FrenzyHumanoid),
            52u8 => Some(MagicEffectType::FrenzyCreature),
            53u8 => Some(MagicEffectType::DemoralizeHumanoid),
            54u8 => Some(MagicEffectType::DemoralizeCreature),
            55u8 => Some(MagicEffectType::RallyHumanoid),
            56u8 => Some(MagicEffectType::RallyCreature),
            57u8 => Some(MagicEffectType::Dispel),
            58u8 => Some(MagicEffectType::Soultrap),
            59u8 => Some(MagicEffectType::Telekinesis),
            60u8 => Some(MagicEffectType::Mark),
            61u8 => Some(MagicEffectType::Recall),
            62u8 => Some(MagicEffectType::DivineIntervention),
            63u8 => Some(MagicEffectType::AlmsiviIntervention),
            64u8 => Some(MagicEffectType::DetectAnimal),
            65u8 => Some(MagicEffectType::DetectEnchantment),
            66u8 => Some(MagicEffectType::DetectKey),
            67u8 => Some(MagicEffectType::SpellAbsorption),
            68u8 => Some(MagicEffectType::Reflect),
            69u8 => Some(MagicEffectType::CureCommonDisease),
            70u8 => Some(MagicEffectType::CureBlightDisease),
            71u8 => Some(MagicEffectType::CureCorprusDisease),
            72u8 => Some(MagicEffectType::CurePoison),
            73u8 => Some(MagicEffectType::CureParalyzation),
            74u8 => Some(MagicEffectType::RestoreAttribute),
            75u8 => Some(MagicEffectType::RestoreHealth),
            76u8 => Some(MagicEffectType::RestoreMagicka),
            77u8 => Some(MagicEffectType::RestoreFatigue),
            78u8 => Some(MagicEffectType::RestoreSkill),
            79u8 => Some(MagicEffectType::FortifyAttribute),
            80u8 => Some(MagicEffectType::FortifyHealth),
            81u8 => Some(MagicEffectType::FortifyMagicka),
            82u8 => Some(MagicEffectType::FortifyFatigue),
            83u8 => Some(MagicEffectType::FortifySkill),
            84u8 => Some(MagicEffectType::FortifyMaximumMagicka),
            85u8 => Some(MagicEffectType::AbsorbAttribute),
            86u8 => Some(MagicEffectType::AbsorbHealth),
            87u8 => Some(MagicEffectType::AbsorbMagicka),
            88u8 => Some(MagicEffectType::AbsorbFatigue),
            89u8 => Some(MagicEffectType::AbsorbSkill),
            90u8 => Some(MagicEffectType::ResistFire),
            91u8 => Some(MagicEffectType::ResistFrost),
            92u8 => Some(MagicEffectType::ResistShock),
            93u8 => Some(MagicEffectType::ResistMagicka),
            94u8 => Some(MagicEffectType::ResistCommonDisease),
            95u8 => Some(MagicEffectType::ResistBlightDisease),
            96u8 => Some(MagicEffectType::ResistCorprusDisease),
            97u8 => Some(MagicEffectType::ResistPoison),
            98u8 => Some(MagicEffectType::ResistNormalWeapons),
            99u8 => Some(MagicEffectType::ResistParalysis),
            100u8 => Some(MagicEffectType::RemoveCurse),
            101u8 => Some(MagicEffectType::TurnUndead),
            102u8 => Some(MagicEffectType::SummonScamp),
            103u8 => Some(MagicEffectType::SummonClannfear),
            104u8 => Some(MagicEffectType::SummonDaedroth),
            105u8 => Some(MagicEffectType::SummonDremora),
            106u8 => Some(MagicEffectType::SummonAncestralGhost),
            107u8 => Some(MagicEffectType::SummonSkeletalMinion),
            108u8 => Some(MagicEffectType::SummonBonewalker),
            109u8 => Some(MagicEffectType::SummonGreaterBonewalker),
            110u8 => Some(MagicEffectType::SummonBonelord),
            111u8 => Some(MagicEffectType::SummonWingedTwilight),
            112u8 => Some(MagicEffectType::SummonHunger),
            113u8 => Some(MagicEffectType::SummonGoldenSaint),
            114u8 => Some(MagicEffectType::SummonFlameAtronach),
            115u8 => Some(MagicEffectType::SummonFrostAtronach),
            116u8 => Some(MagicEffectType::SummonStormAtronach),
            117u8 => Some(MagicEffectType::FortifyAttack),
            118u8 => Some(MagicEffectType::CommandCreature),
            119u8 => Some(MagicEffectType::CommandHumanoid),
            120u8 => Some(MagicEffectType::BoundDagger),
            121u8 => Some(MagicEffectType::BoundLongsword),
            122u8 => Some(MagicEffectType::BoundMace),
            123u8 => Some(MagicEffectType::BoundBattleAxe),
            124u8 => Some(MagicEffectType::BoundSpear),
            125u8 => Some(MagicEffectType::BoundLongbow),
            126u8 => Some(MagicEffectType::ExtraSpell),
            127u8 => Some(MagicEffectType::BoundCuirass),
            128u8 => Some(MagicEffectType::BoundHelm),
            129u8 => Some(MagicEffectType::BoundBoots),
            130u8 => Some(MagicEffectType::BoundShield),
            131u8 => Some(MagicEffectType::BoundGloves),
            132u8 => Some(MagicEffectType::Corprus),
            133u8 => Some(MagicEffectType::Vampirism),
            134u8 => Some(MagicEffectType::SummonCenturionSphere),
            135u8 => Some(MagicEffectType::SunDamage),
            136u8 => Some(MagicEffectType::StuntedMagicka),
            137u8 => Some(MagicEffectType::SummonFabricant),
            138u8 => Some(MagicEffectType::CallWolf),
            139u8 => Some(MagicEffectType::CallBear),
            140u8 => Some(MagicEffectType::SummonBonewolf),
            141u8 => Some(MagicEffectType::SummonCreature04),
            142u8 => Some(MagicEffectType::SummonCreature05),
            _ => None,
        }
    }

    /// A value's number stands for that value.
    pub proof fn lemma_index_roundtrip(self)
        ensures
            MagicEffectType::from_index(self.index()) == Some(self),
    {
    }

    /// A number that stands for a value is that value's number.
    pub proof fn lemma_from_index_roundtrip(v: u8)
        ensures
            MagicEffectType::from_index(v) matches Some(x) ==> x.index() == v,
    {
    }
}

/// All possible skills
#[derive(Debug, Copy, Clone, PartialEq, Eq, Structural)]
pub enum Skill {
    Block,
    Armorer,
    MediumArmor,
    HeavyArmor,
    Blunt,
    LongBlade,
    Axe,
    Spear,
    Athletics,
    Enchant,
    Destruction,
    Alteration,
    Illusion,
    Conjuration,
    Mysticism,
    Restoration,
    Alchemy,
    Unarmored,
    Security,
    Sneak,
    Acrobatics,
    LightArmor,
    ShortBlade,
    Marksman,
    Mercantile,
    Speechcraft,
    HandToHand,
}

impl Skill {
    /// The number that stands for this value in the file formats
    pub open spec fn index(self) -> u8 {
        match self {
            Skill::Block => 0u8,
            Skill::Armorer => 1u8,
            Skill::MediumArmor => 2u8,
            Skill::HeavyArmor => 3u8,
            Skill::Blunt => 4u8,
            Skill::LongBlade => 5u8,
            Skill::Axe => 6u8,
            Skill::Spear => 7u8,
            Skill::Athletics => 8u8,
            Skill::Enchant => 9u8,
            Skill::Destruction => 10u8,
            Skill::Alteration => 11u8,
            Skill::Illusion => 12u8,
            Skill::Conjuration => 13u8,
            Skill::Mysticism => 14u8,
            Skill::Restoration => 15u8,
            Skill::Alchemy => 16u8,
            Skill::Unarmored => 17u8,
            Skill::Security => 18u8,
            Skill::Sneak => 19u8,
            Skill::Acrobatics => 20u8,
            Skill::LightArmor => 21u8,
            Skill::ShortBlade => 22u8,
            Skill::Marksman => 23u8,
            Skill::Mercantile => 24u8,
            Skill::Speechcraft => 25u8,
            Skill::HandToHand => 26u8,
        }
    }

    /// The value that a number stands for, if any
    pub open spec fn from_index(v: u8) -> Option<Skill> {
        match v {
            0u8 => Some(Skill::Block),
            1u8 => Some(Skill::Armorer),
            2u8 => Some(Skill::MediumArmor),
            3u8 => Some(Skill::HeavyArmor),
            4u8 => Some(Skill::Blunt),
            5u8 => Some(Skill::LongBlade),
            6u8 => Some(Skill::Axe),
            7u8 => Some(Skill::Spear),
            8u8 => Some(Skill::Athletics),
            9u8 => Some(Skill::Enchant),
            10u8 => Some(Skill::Destruction),
            11u8 => Some(Skill::Alteration),
            12u8 => Some(Skill::Illusion),
            13u8 => Some(Skill::Conjuration),
            14u8 => Some(Skill::Mysticism),
            15u8 => Some(Skill::Restoration),
            16u8 => Some(Skill::Alchemy),
            17u8 => Some(Skill::Unarmored),
            18u8 => Some(Skill::Security),
            19u8 => Some(Skill::Sneak),
            20u8 => Some(Skill::Acrobatics),
            21u8 => Some(Skill::LightArmor),
            22u8 => Some(Skill::ShortBlade),
            23u8 => Some(Skill::Marksman),
            24u8 => Some(Skill::Mercantile),
            25u8 => Some(Skill::Speechcraft),
            26u8 => Some(Skill::HandToHand),
            _ => None,
        }
    }

    /// Gets the number that stands for this value
    pub fn to_u8(self) -> (r: u8)
        ensures
            r == self.index(),
    {
        match self {
            Skill::Block => 0u8,
            Skill::Armorer => 1u8,
            Skill::MediumArmor => 2u8,
            Skill::HeavyArmor => 3u8,
            Skill::Blunt => 4u8,
            Skill::LongBlade => 5u8,
            Skill::Axe => 6u8,
            Skill::Spear => 7u8,
            Skill::Athletics => 8u8,
            Skill::Enchant => 9u8,
            Skill::Destruction => 10u8,
            Skill::Alteration => 11u8,
            Skill::Illusion => 12u8,
            Skill::Conjuration => 13u8,
            Skill::Mysticism => 14u8,
            Skill::Restoration => 15u8,
            Skill::Alchemy => 16u8,
            Skill::Unarmored => 17u8,
            Skill::Security => 18u8,
            Skill::Sneak => 19u8,
            Skill::Acrobatics => 20u8,
            Skill::LightArmor => 21u8,
            Skill::ShortBlade => 22u8,
            Skill::Marksman => 23u8,
            Skill::Mercantile => 24u8,
            Skill::Speechcraft => 25u8,
            Skill::HandToHand => 26u8,
        }
    }

    /// Gets the value that a number stands for, if any
    pub fn try_from_u8(v: u8) -> (r: Option<Skill>)
        ensures
            r == Skill::from_index(v),
    {
        match v {
            0u8 => Some(Skill::Block),
            1u8 => Some(Skill::Armorer),
            2u8 => Some(Skill::MediumArmor),
            3u8 => Some(Skill::HeavyArmor),
            4u8 => Some(Skill::Blunt),
            5u8 => Some(Skill::LongBlade),
            6u8 => Some(Skill::Axe),
            7u8 => Some(Skill::Spear),
            8u8 => Some(Skill::Athletics),
            9u8 => Some(Skill::Enchant),
            10u8 => Some(Skill::Destruction),
            11u8 => Some(Skill::Alteration),
            12u8 => Some(Skill::Illusion),
            13u8 => Some(Skill::Conjuration),
            14u8 => Some(Skill::Mysticism),
            15u8 => Some(Skill::Restoration),
            16u8 => Some(Skill::Alchemy),
            17u8 => Some(Skill::Unarmored),
            18u8 => Some(Skill::Security),
            19u8 => Some(Skill::Sneak),
            20u8 => Some(Skill::Acrobatics),
            21u8 => Some(Skill::LightArmor),
            22u8 => Some(Skill::ShortBlade),
            23u8 => Some(Skill::Marksman),
            24u8 => Some(Skill::Mercantile),
            25u8 => Some(Skill::Speechcraft),
            26u8 => Some(Skill::HandToHand),
            _ => None,
        }
    }

    /// A value's number stands for that value.
    pub proof fn lemma_index_roundtrip(self)
        ensures
            Skill::from_index(self.index()) == Some(self),
    {
    }

    /// A number that stands for a value is that value's number.
    pub proof fn lemma_from_index_roundtrip(v: u8)
        ensures
            Skill::from_index(v) matches Some(x) ==> x.index() == v,
    {
    }
}

impl Skill {
    /// The specialization that a skill belongs to
    pub open spec fn specialization_spec(self) -> Specialization {
        match self {
            Skill::HeavyArmor => Specialization::Combat,
            Skill::MediumArmor => Specialization::Combat,
            Skill::Spear => Specialization::Combat,
            Skill::Armorer => Specialization::Combat,
            Skill::Axe => Specialization::Combat,
            Skill::Blunt => Specialization::Combat,
            Skill::LongBlade => Specialization::Combat,
            Skill::Block => Specialization::Combat,
            Skill::Athletics => Specialization::Combat,
            Skill::Acrobatics => Specialization::Stealth,
            Skill::LightArmor => Specialization::Stealth,
            Skill::Marksman => Specialization::Stealth,
            Skill::Sneak => Specialization::Stealth,
            Skill::HandToHand => Specialization::Stealth,
            Skill::ShortBlade => Specialization::Stealth,
            Skill::Mercantile => Specialization::Stealth,
            Skill::Speechcraft => Specialization::Stealth,
            Skill::Security => Specialization::Stealth,
            _ => Specialization::Magic,
        }
    }

    /// Gets the skill's specialization
    pub fn specialization(&self) -> (r: Specialization)
        ensures
            r == self.specialization_spec(),
    {
        match *self {
            Skill::HeavyArmor => Specialization::Combat,
            Skill::MediumArmor => Specialization::Combat,
            Skill::Spear => Specialization::Combat,
            Skill::Armorer => Specialization::Combat,
            Skill::Axe => Specialization::Combat,
            Skill::Blunt => Specialization::Combat,
            Skill::LongBlade => Specialization::Combat,
            Skill::Block => Specialization::Combat,
            Skill::Athletics => Specialization::Combat,
            Skill::Acrobatics => Specialization::Stealth,
            Skill::LightArmor => Specialization::Stealth,
            Skill::Marksman => Specialization::Stealth,
            Skill::Sneak => Specialization::Stealth,
            Skill::HandToHand => Specialization::Stealth,
            Skill::ShortBlade => Specialization::Stealth,
            Skill::Mercantile => Specialization::Stealth,
            Skill::Speechcraft => Specialization::Stealth,
            Skill::Security => Specialization::Stealth,
            _ => Specialization::Magic,
        }
    }

    /// Lists all skills, in the order of their numbers
    pub fn iter() -> (r: Vec<Skill>)
        ensures
            r@.len() == 27,
            forall|i: int| 0 <= i < r@.len() ==> (#[trigger] r@[i]).index() == i,
    {
        let r = vec![
            Skill::Block,
            Skill::Armorer,
            Skill::MediumArmor,
            Skill::HeavyArmor,
            Skill::Blunt,
            Skill::LongBlade,
            Skill::Axe,
            Skill::Spear,
            Skill::Athletics,
            Skill::Enchant,
            Skill::Destruction,
            Skill::Alteration,
            Skill::Illusion,
            Skill::Conjuration,
            Skill::Mysticism,
            Skill::Restoration,
            Skill::Alchemy,
            Skill::Unarmored,
            Skill::Security,
            Skill::Sneak,
            Skill::Acrobatics,
            Skill::LightArmor,
            Skill::ShortBlade,
            Skill::Marksman,
            Skill::Mercantile,
            Skill::Speechcraft,
            Skill::HandToHand,
        ];
        r
    }
}

/// Type of skill for a class (major, minor, miscellaneous)
#[derive(Debug, Copy, Clone, PartialEq, Eq, Structural)]
pub enum SkillType {
    Major,
    Minor,
    Miscellaneous,
}

/// The abstract content of a spell effect.
pub struct SpellEffectModel {
    pub effect: MagicEffectType,
    pub skill: Option<Skill>,
    pub attribute: Option<Attribute>,
    pub range: EffectRange,
    pub area: u32,
    pub duration: u32,
    pub min_magnitude: u32,
    pub max_magnitude: u32,
}

/// The size in bytes of a serialized spell effect
pub const SPELL_EFFECT_SIZE: usize = 24;

/// A byte that names an optional skill or attribute: `0xff` for none.
pub open spec fn optional_index(v: Option<u8>) -> u8 {
    match v {
        Some(i) => i,
        None => 0xffu8,
    }
}

/// Decodes the 24 bytes of a spell effect at the front of `s`: effect (`u16`, of which the low
/// byte names the effect), skill and attribute (one byte each, `0xff` for none), then range, area,
/// duration, and minimum and maximum magnitude (`u32` each; the low byte of the range names it).
pub open spec fn parse_spell_effect(s: Seq<u8>) -> Option<SpellEffectModel> {
    if s.len() < 24 {
        None
    } else {
        let effect = MagicEffectType::from_index((le_value(s.subrange(0, 2)) as u16) as u8);
        let skill = if s[2] == 0xff {
            Some(None)
        } else {
            match Skill::from_index(s[2]) {
                Some(k) => Some(Some(k)),
                None => None,
            }
        };
        let attribute = if s[3] == 0xff {
            Some(None)
        } else {
            match Attribute::from_index(s[3]) {
                Some(a) => Some(Some(a)),
                None => None,
            }
        };
        let range = EffectRange::from_index((le_value(s.subrange(4, 8)) as u32) as u8);
        if effect is None || skill is None || attribute is None || range is None {
            None
        } else {
            Some(
                SpellEffectModel {
                    effect: effect.unwrap(),
                    skill: skill.unwrap(),
                    attribute: attribute.unwrap(),
                    range: range.unwrap(),
                    area: le_value(s.subrange(8, 12)) as u32,
                    duration: le_value(s.subrange(12, 16)) as u32,
                    min_magnitude: le_value(s.subrange(16, 20)) as u32,
                    max_magnitude: le_value(s.subrange(20, 24)) as u32,
                },
            )
        }
    }
}

/// The 24 bytes of a spell effect.
pub open spec fn spell_effect_bytes(m: SpellEffectModel) -> Seq<u8> {
    le_bytes(m.effect.index() as nat, 2) + seq![
        optional_index(
            match m.skill {
                Some(k) => Some(k.index()),
                None => None,
            },
        ),
        optional_index(
            match m.attribute {
                Some(a) => Some(a.index()),
                None => None,
            },
        ),
    ] + le_bytes(m.range.index() as nat, 4) + le_bytes(m.area as nat, 4) + le_bytes(
        m.duration as nat,
        4,
    ) + le_bytes(m.min_magnitude as nat, 4) + le_bytes(m.max_magnitude as nat, 4)
}

/// Reading back a written spell effect gives the same effect.
pub proof fn lemma_spell_effect_roundtrip(m: SpellEffectModel, rest: Seq<u8>)
    ensures
        parse_spell_effect(spell_effect_bytes(m) + rest) == Some(m),
{
    let s = spell_effect_bytes(m) + rest;
    reveal_with_fuel(crate::bytes::pow256, 5);
    lemma_le_bytes_len(m.effect.index() as nat, 2);
    lemma_le_bytes_len(m.range.index() as nat, 4);
    lemma_le_bytes_len(m.area as nat, 4);
    lemma_le_bytes_len(m.duration as nat, 4);
    lemma_le_bytes_len(m.min_magnitude as nat, 4);
    lemma_le_bytes_len(m.max_magnitude as nat, 4);
    crate::bytes::lemma_le_value_of_bytes(m.effect.index() as nat, 2);
    crate::bytes::lemma_le_value_of_bytes(m.range.index() as nat, 4);
    crate::bytes::lemma_le_value_of_bytes(m.area as nat, 4);
    crate::bytes::lemma_le_value_of_bytes(m.duration as nat, 4);
    crate::bytes::lemma_le_value_of_bytes(m.min_magnitude as nat, 4);
    crate::bytes::lemma_le_value_of_bytes(m.max_magnitude as nat, 4);
    assert(s.subrange(0, 2) =~= le_bytes(m.effect.index() as nat, 2));
    assert(s.subrange(4, 8) =~= le_bytes(m.range.index() as nat, 4));
    assert(s.subrange(8, 12) =~= le_bytes(m.area as nat, 4));
    assert(s.subrange(12, 16) =~= le_bytes(m.duration as nat, 4));
    assert(s.subrange(16, 20) =~= le_bytes(m.min_magnitude as nat, 4));
    assert(s.subrange(20, 24) =~= le_bytes(m.max_magnitude as nat, 4));
    m.effect.lemma_index_roundtrip();
    m.range.lemma_index_roundtrip();
    if let Some(k) = m.skill {
        k.lemma_index_roundtrip();
    }
    if let Some(a) = m.attribute {
        a.lemma_index_roundtrip();
    }
}

/// An individual effect of a spell or potion
#[derive(Debug, Copy, Clone)]
pub struct SpellEffect {
    effect: MagicEffectType,
    skill: Option<Skill>,
    attribute: Option<Attribute>,
    range: EffectRange,
    area: u32,
    duration: u32,
    min_magnitude: u32,
    max_magnitude: u32,
}

impl View for SpellEffect {
    type V = SpellEffectModel;

    closed spec fn view(&self) -> SpellEffectModel {
        SpellEffectModel {
            effect: self.effect,
            skill: self.skill,
            attribute: self.attribute,
            range: self.range,
            area: self.area,
            duration: self.duration,
            min_magnitude: self.min_magnitude,
            max_magnitude: self.max_magnitude,
        }
    }
}

impl SpellEffect {
    /// Decodes a spell effect from the first 24 bytes of `data`
    ///
    /// Fails with [`TesError::UnexpectedEof`] if `data` is shorter, and with
    /// [`TesError::DecodeFailed`] if the effect, skill, attribute or range is unknown.
    pub fn read(data: &[u8]) -> (r: Result<SpellEffect, TesError>)
        ensures
            r is Ok <==> parse_spell_effect(data@) is Some,
            r matches Ok(e) ==> e@ == parse_spell_effect(data@).unwrap(),
            r matches Err(e) ==> (e is UnexpectedEof <==> data@.len() < 24) && (e is DecodeFailed
                <==> data@.len() >= 24),
    {
        if data.len() < SPELL_EFFECT_SIZE {
            return Err(TesError::UnexpectedEof);
        }
        let effect_num = read_u16_at(data, 0).unwrap();
        let effect = match MagicEffectType::try_from_u8(effect_num as u8) {
            Some(e) => e,
            None => {
                return Err(decode_failed("Invalid magic effect"));
            },
        };
        let skill = if data[2] == 0xff {
            None
        } else {
            match Skill::try_from_u8(data[2]) {
                Some(k) => Some(k),
                None => {
                    return Err(decode_failed("Invalid skill"));
                },
            }
        };
        let attribute = if data[3] == 0xff {
            None
        } else {
            match Attribute::try_from_u8(data[3]) {
                Some(a) => Some(a),
                None => {
                    return Err(decode_failed("Invalid attribute"));
                },
            }
        };
        let range_num = read_u32_at(data, 4).unwrap();
        let range = match EffectRange::try_from_u8(range_num as u8) {
            Some(r) => r,
            None => {
                return Err(decode_failed("Invalid effect range"));
            },
        };
        Ok(
            SpellEffect {
                effect,
                skill,
                attribute,
                range,
                area: read_u32_at(data, 8).unwrap(),
                duration: read_u32_at(data, 12).unwrap(),
                min_magnitude: read_u32_at(data, 16).unwrap(),
                max_magnitude: read_u32_at(data, 20).unwrap(),
            },
        )
    }

    /// Writes the 24 bytes of this spell effect
    pub fn write(&self, f: &mut Vec<u8>)
        ensures
            final(f)@ == old(f)@ + spell_effect_bytes(self@),
    {
        push_u16(f, self.effect.to_u8() as u16);
        let skill = match self.skill {
            Some(k) => k.to_u8(),
            None => 0xffu8,
        };
        let attribute = match self.attribute {
            Some(a) => a.to_u8(),
            None => 0xffu8,
        };
        f.push(skill);
        f.push(attribute);
        push_u32(f, self.range.to_u8() as u32);
        push_u32(f, self.area);
        push_u32(f, self.duration);
        push_u32(f, self.min_magnitude);
        push_u32(f, self.max_magnitude);
        assert(final(f)@ =~= old(f)@ + spell_effect_bytes(self@));
    }

    /// Gets the effect type
    pub fn effect(&self) -> (r: MagicEffectType)
        ensures
            r == self@.effect,
    {
        self.effect
    }

    /// Gets the affected skill, if any
    pub fn skill(&self) -> (r: Option<Skill>)
        ensures
            r == self@.skill,
    {
        self.skill
    }

    /// Gets the affected attribute, if any
    pub fn attribute(&self) -> (r: Option<Attribute>)
        ensures
            r == self@.attribute,
    {
        self.attribute
    }

    /// Gets the spell's range
    pub fn range(&self) -> (r: EffectRange)
        ensures
            r == self@.range,
    {
        self.range
    }

    /// Gets the spell's area
    pub fn area(&self) -> (r: u32)
        ensures
            r == self@.area,
    {
        self.area
    }

    /// Gets the spell's duration
    pub fn duration(&self) -> (r: u32)
        ensures
            r == self@.duration,
    {
        self.duration
    }

    /// Get the spell's range of magnitude
    pub fn magnitude(&self) -> (r: (u32, u32))
        ensures
            r == (self@.min_magnitude, self@.max_magnitude),
    {
        (self.min_magnitude, self.max_magnitude)
    }
}


} // verus!
