//! Converting characters between Morrowind and Oblivion: the options of a conversion and the
//! correspondence between the two games' skills.

use vstd::prelude::*;

use crate::tes3;
use crate::tes4;

verus! {

/// The command to be executed
#[derive(Debug, Copy, Clone, PartialEq, Eq, Structural)]
pub enum Command {
    /// Convert a Morrowind character to Oblivion
    MorrowindToOblivion,
    /// Convert an Oblivion character to Morrowind
    OblivionToMorrowind,
}

/// Strategy to use when combining values
///
/// The same set of skills is not present in all games. Sometimes, what were multiple skills in
/// one game are consolidated into a single skill in the next game. In this case, we have to
/// decide how to calculate the value of the new skill from the value of old skill. This enum
/// holds the different strategies by which this may be accomplished.
#[derive(Debug, Copy, Clone, PartialEq, Eq, Structural)]
pub enum CombineStrategy {
    /// Use the value of the highest skill
    Highest,
    /// Average the value of all skills
    Average,
    /// Use the value of the lowest skill
    Lowest,
}

/// The value that combining `x` and `y` gives: the larger, their average rounded down, or the
/// smaller.
pub open spec fn combined(s: CombineStrategy, x: int, y: int) -> int {
    match s {
        CombineStrategy::Highest => if x >= y { x } else { y },
        CombineStrategy::Average => (x + y) / 2,
        CombineStrategy::Lowest => if x <= y { x } else { y },
    }
}

impl CombineStrategy {
    /// Combines two values using the appropriate strategy
    pub fn combine(&self, x: u32, y: u32) -> (r: u32)
        requires
            *self == CombineStrategy::Average ==> x + y <= u32::MAX,
        ensures
            r == combined(*self, x as int, y as int),
    {
        match self {
            CombineStrategy::Highest => if x >= y { x } else { y },
            CombineStrategy::Average => (x + y) / 2,
            CombineStrategy::Lowest => if x <= y { x } else { y },
        }
    }
}

/// A combined value lies between the two values combined, whatever the strategy.
pub proof fn lemma_combined_between(s: CombineStrategy, x: int, y: int)
    ensures
        (if x <= y { x } else { y }) <= combined(s, x, y) <= (if x >= y { x } else { y }),
{
}

/// Combining is symmetric: the order of the two values does not matter.
pub proof fn lemma_combined_symmetric(s: CombineStrategy, x: int, y: int)
    ensures
        combined(s, x, y) == combined(s, y, x),
{
}

/// Configuration options for a conversion
#[derive(Debug)]
pub struct Config {
    /// The conversion command to execute
    pub command: Command,
    /// Path to the save file that the character is being taken from
    pub source_path: String,
    /// Path to the save file that the character is being added to
    pub target_path: String,
    /// Path to the new save file that will be created
    pub output_path: String,
    /// Path to the directory where our configuration files are stored
    pub config_path: String,
    /// Path to the Morrowind directory
    pub mw_path: Option<String>,
    /// Path to the Oblivion directory
    pub ob_path: Option<String>,
    /// Strategy to use when combining skills
    pub combine_strategy: CombineStrategy,
}

/// The strategy that the name of one stands for: `highest`, the default, `average` or `lowest`.
pub open spec fn strategy_named(name: Option<Seq<char>>) -> CombineStrategy {
    match name {
        Some(n) => if n == "average"@ {
            CombineStrategy::Average
        } else if n == "lowest"@ {
            CombineStrategy::Lowest
        } else {
            CombineStrategy::Highest
        },
        None => CombineStrategy::Highest,
    }
}

/// A name of a combining strategy.
pub open spec fn is_strategy_name(n: Seq<char>) -> bool {
    n == "highest"@ || n == "average"@ || n == "lowest"@
}

impl Config {
    /// Builds the configuration from the values given on a command line: the subcommand,
    /// which must be `mw2ob`, its three paths, the optional game directories, and the optional
    /// name of the combining strategy; our configuration files are in the current directory
    pub fn from_matches(
        sub_command: &str,
        source_path: String,
        target_path: String,
        output_path: String,
        mw_path: Option<String>,
        ob_path: Option<String>,
        combine: Option<&str>,
    ) -> (r: Config)
        requires
            sub_command@ == "mw2ob"@,
            combine matches Some(c) ==> is_strategy_name(c@),
        ensures
            r.command == Command::MorrowindToOblivion,
            r.source_path@ == source_path@,
            r.target_path@ == target_path@,
            r.output_path@ == output_path@,
            r.config_path@ == "."@,
            r.mw_path == mw_path,
            r.ob_path == ob_path,
            r.combine_strategy == strategy_named(
                match combine {
                    Some(c) => Some(c@),
                    None => None,
                },
            ),
    {
        let combine_strategy = match combine {
            Some(c) => {
                proof {
                    reveal_strlit("average");
                    reveal_strlit("lowest");
                    reveal_strlit("highest");
                }
                if crate::strings::str_eq(c, "average") {
                    CombineStrategy::Average
                } else if crate::strings::str_eq(c, "lowest") {
                    CombineStrategy::Lowest
                } else {
                    CombineStrategy::Highest
                }
            },
            None => CombineStrategy::Highest,
        };
        let config_path = ".".to_owned();
        Config {
            command: Command::MorrowindToOblivion,
            source_path,
            target_path,
            output_path,
            config_path,
            mw_path,
            ob_path,
            combine_strategy,
        }
    }
}

/// The Oblivion skill that a Morrowind skill becomes, if any.
pub open spec fn oblivion_skill_spec(skill: tes3::Skill) -> Option<tes4::Skill> {
    match skill {
        tes3::Skill::Block => Some(tes4::Skill::Block),
        tes3::Skill::Armorer => Some(tes4::Skill::Armorer),
        tes3::Skill::HeavyArmor => Some(tes4::Skill::HeavyArmor),
        tes3::Skill::Blunt => Some(tes4::Skill::Blunt),
        tes3::Skill::LongBlade => Some(tes4::Skill::Blade),
        tes3::Skill::Axe => Some(tes4::Skill::Blunt),
        tes3::Skill::Athletics => Some(tes4::Skill::Athletics),
        tes3::Skill::Destruction => Some(tes4::Skill::Destruction),
        tes3::Skill::Alteration => Some(tes4::Skill::Alteration),
        tes3::Skill::Illusion => Some(tes4::Skill::Illusion),
        tes3::Skill::Conjuration => Some(tes4::Skill::Conjuration),
        tes3::Skill::Mysticism => Some(tes4::Skill::Mysticism),
        tes3::Skill::Restoration => Some(tes4::Skill::Restoration),
        tes3::Skill::Alchemy => Some(tes4::Skill::Alchemy),
        tes3::Skill::Security => Some(tes4::Skill::Security),
        tes3::Skill::Sneak => Some(tes4::Skill::Sneak),
        tes3::Skill::Acrobatics => Some(tes4::Skill::Acrobatics),
        tes3::Skill::LightArmor => Some(tes4::Skill::LightArmor),
        tes3::Skill::ShortBlade => Some(tes4::Skill::Blade),
        tes3::Skill::Marksman => Some(tes4::Skill::Marksman),
        tes3::Skill::Mercantile => Some(tes4::Skill::Mercantile),
        tes3::Skill::Speechcraft => Some(tes4::Skill::Speechcraft),
        tes3::Skill::HandToHand => Some(tes4::Skill::HandToHand),
        _ => None,
    }
}

/// The Morrowind skill that an Oblivion skill becomes.
pub open spec fn morrowind_skill_spec(skill: tes4::Skill) -> tes3::Skill {
    match skill {
        tes4::Skill::Block => tes3::Skill::Block,
        tes4::Skill::Armorer => tes3::Skill::Armorer,
        tes4::Skill::HeavyArmor => tes3::Skill::HeavyArmor,
        tes4::Skill::Blunt => tes3::Skill::Blunt,
        tes4::Skill::Blade => tes3::Skill::LongBlade,
        tes4::Skill::Athletics => tes3::Skill::Athletics,
        tes4::Skill::Destruction => tes3::Skill::Destruction,
        tes4::Skill::Alteration => tes3::Skill::Alteration,
        tes4::Skill::Illusion => tes3::Skill::Illusion,
        tes4::Skill::Conjuration => tes3::Skill::Conjuration,
        tes4::Skill::Mysticism => tes3::Skill::Mysticism,
        tes4::Skill::Restoration => tes3::Skill::Restoration,
        tes4::Skill::Alchemy => tes3::Skill::Alchemy,
        tes4::Skill::Security => tes3::Skill::Security,
        tes4::Skill::Sneak => tes3::Skill::Sneak,
        tes4::Skill::Acrobatics => tes3::Skill::Acrobatics,
        tes4::Skill::LightArmor => tes3::Skill::LightArmor,
        tes4::Skill::Marksman => tes3::Skill::Marksman,
        tes4::Skill::Mercantile => tes3::Skill::Mercantile,
        tes4::Skill::Speechcraft => tes3::Skill::Speechcraft,
        tes4::Skill::HandToHand => tes3::Skill::HandToHand,
    }
}

/// Gets the Oblivion skill equivalent to a given Morrowind skill, if one exists
pub fn oblivion_skill(skill: tes3::Skill) -> (r: Option<tes4::Skill>)
    ensures
        r == oblivion_skill_spec(skill),
{
    match skill {
        tes3::Skill::Block => Some(tes4::Skill::Block),
        tes3::Skill::Armorer => Some(tes4::Skill::Armorer),
        tes3::Skill::HeavyArmor => Some(tes4::Skill::HeavyArmor),
        tes3::Skill::Blunt => Some(tes4::Skill::Blunt),
        tes3::Skill::LongBlade => Some(tes4::Skill::Blade),
        tes3::Skill::Axe => Some(tes4::Skill::Blunt),
        tes3::Skill::Athletics => Some(tes4::Skill::Athletics),
        tes3::Skill::Destruction => Some(tes4::Skill::Destruction),
        tes3::Skill::Alteration => Some(tes4::Skill::Alteration),
        tes3::Skill::Illusion => Some(tes4::Skill::Illusion),
        tes3::Skill::Conjuration => Some(tes4::Skill::Conjuration),
        tes3::Skill::Mysticism => Some(tes4::Skill::Mysticism),
        tes3::Skill::Restoration => Some(tes4::Skill::Restoration),
        tes3::Skill::Alchemy => Some(tes4::Skill::Alchemy),
        tes3::Skill::Security => Some(tes4::Skill::Security),
        tes3::Skill::Sneak => Some(tes4::Skill::Sneak),
        tes3::Skill::Acrobatics => Some(tes4::Skill::Acrobatics),
        tes3::Skill::LightArmor => Some(tes4::Skill::LightArmor),
        tes3::Skill::ShortBlade => Some(tes4::Skill::Blade),
        tes3::Skill::Marksman => Some(tes4::Skill::Marksman),
        tes3::Skill::Mercantile => Some(tes4::Skill::Mercantile),
        tes3::Skill::Speechcraft => Some(tes4::Skill::Speechcraft),
        tes3::Skill::HandToHand => Some(tes4::Skill::HandToHand),
        _ => None,
    }
}

/// Gets the Morrowind skill equivalent to a given Oblivion skill
pub fn morrowind_skill(skill: tes4::Skill) -> (r: tes3::Skill)
    ensures
        r == morrowind_skill_spec(skill),
{
    match skill {
        tes4::Skill::Block => tes3::Skill::Block,
        tes4::Skill::Armorer => tes3::Skill::Armorer,
        tes4::Skill::HeavyArmor => tes3::Skill::HeavyArmor,
        tes4::Skill::Blunt => tes3::Skill::Blunt,
        tes4::Skill::Blade => tes3::Skill::LongBlade,
        tes4::Skill::Athletics => tes3::Skill::Athletics,
        tes4::Skill::Destruction => tes3::Skill::Destruction,
        tes4::Skill::Alteration => tes3::Skill::Alteration,
        tes4::Skill::Illusion => tes3::Skill::Illusion,
        tes4::Skill::Conjuration => tes3::Skill::Conjuration,
        tes4::Skill::Mysticism => tes3::Skill::Mysticism,
        tes4::Skill::Restoration => tes3::Skill::Restoration,
        tes4::Skill::Alchemy => tes3::Skill::Alchemy,
        tes4::Skill::Security => tes3::Skill::Security,
        tes4::Skill::Sneak => tes3::Skill::Sneak,
        tes4::Skill::Acrobatics => tes3::Skill::Acrobatics,
        tes4::Skill::LightArmor => tes3::Skill::LightArmor,
        tes4::Skill::Marksman => tes3::Skill::Marksman,
        tes4::Skill::Mercantile => tes3::Skill::Mercantile,
        tes4::Skill::Speechcraft => tes3::Skill::Speechcraft,
        tes4::Skill::HandToHand => tes3::Skill::HandToHand,
    }
}

/// The Oblivion magic effect that a Morrowind magic effect becomes, if any.
pub open spec fn oblivion_effect_spec(effect: tes3::MagicEffectType) -> Option<tes4::MagicEffectType> {
    match effect {
        tes3::MagicEffectType::WaterBreathing => Some(tes4::MagicEffectType::WaterBreathing),
        tes3::MagicEffectType::WaterWalking => Some(tes4::MagicEffectType::WaterWalking),
        tes3::MagicEffectType::Shield => Some(tes4::MagicEffectType::Shield),
        tes3::MagicEffectType::FireShield => Some(tes4::MagicEffectType::FireShield),
        tes3::MagicEffectType::LightningShield => Some(tes4::MagicEffectType::ShockShield),
        tes3::MagicEffectType::FrostShield => Some(tes4::MagicEffectType::FrostShield),
        tes3::MagicEffectType::Burden => Some(tes4::MagicEffectType::Burden),
        tes3::MagicEffectType::Feather => Some(tes4::MagicEffectType::Feather),
        tes3::MagicEffectType::Lock => Some(tes4::MagicEffectType::Lock),
        tes3::MagicEffectType::Open => Some(tes4::MagicEffectType::Open),
        tes3::MagicEffectType::FireDamage => Some(tes4::MagicEffectType::FireDamage),
        tes3::MagicEffectType::ShockDamage => Some(tes4::MagicEffectType::ShockDamage),
        tes3::MagicEffectType::FrostDamage => Some(tes4::MagicEffectType::FrostDamage),
        tes3::MagicEffectType::DrainAttribute => Some(tes4::MagicEffectType::DrainAttribute),
        tes3::MagicEffectType::DrainHealth => Some(tes4::MagicEffectType::DrainHealth),
        tes3::MagicEffectType::DrainMagicka => Some(tes4::MagicEffectType::DrainMagicka),
        tes3::MagicEffectType::DrainFatigue => Some(tes4::MagicEffectType::DrainFatigue),
        tes3::MagicEffectType::DrainSkill => Some(tes4::MagicEffectType::DrainSkill),
        tes3::MagicEffectType::DamageAttribute => Some(tes4::MagicEffectType::DamageAttribute),
        tes3::MagicEffectType::DamageHealth => Some(tes4::MagicEffectType::DamageHealth),
        tes3::MagicEffectType::DamageMagicka => Some(tes4::MagicEffectType::DamageMagicka),
        tes3::MagicEffectType::DamageFatigue => Some(tes4::MagicEffectType::DamageFatigue),
        tes3::MagicEffectType::WeaknessToFire => Some(tes4::MagicEffectType::WeaknessToFire),
        tes3::MagicEffectType::WeaknessToFrost => Some(tes4::MagicEffectType::WeaknessToFrost),
        tes3::MagicEffectType::WeaknessToShock => Some(tes4::MagicEffectType::WeaknessToShock),
        tes3::MagicEffectType::WeaknessToMagicka => Some(tes4::MagicEffectType::WeaknessToMagic),
        tes3::MagicEffectType::WeaknessToCommonDisease => Some(tes4::MagicEffectType::WeaknessToDisease),
        tes3::MagicEffectType::WeaknessToPoison => Some(tes4::MagicEffectType::WeaknessToPoison),
        tes3::MagicEffectType::WeaknessToNormalWeapons => Some(tes4::MagicEffectType::WeaknessToNormalWeapons),
        tes3::MagicEffectType::DisintegrateWeapon => Some(tes4::MagicEffectType::DisintegrateWeapon),
        tes3::MagicEffectType::DisintegrateArmor => Some(tes4::MagicEffectType::DisintegrateArmor),
        tes3::MagicEffectType::Invisibility => Some(tes4::MagicEffectType::Invisibility),
        tes3::MagicEffectType::Chameleon => Some(tes4::MagicEffectType::Chameleon),
        tes3::MagicEffectType::Light => Some(tes4::MagicEffectType::Light),
        tes3::MagicEffectType::NightEye => Some(tes4::MagicEffectType::NightEye),
        tes3::MagicEffectType::Charm => Some(tes4::MagicEffectType::Charm),
        tes3::MagicEffectType::Paralyze => Some(tes4::MagicEffectType::Paralyze),
        tes3::MagicEffectType::Silence => Some(tes4::MagicEffectType::Silence),
        tes3::MagicEffectType::CalmHumanoid => Some(tes4::MagicEffectType::Calm),
        tes3::MagicEffectType::CalmCreature => Some(tes4::MagicEffectType::Calm),
        tes3::MagicEffectType::FrenzyHumanoid => Some(tes4::MagicEffectType::Frenzy),
        tes3::MagicEffectType::FrenzyCreature => Some(tes4::MagicEffectType::Frenzy),
        tes3::MagicEffectType::DemoralizeHumanoid => Some(tes4::MagicEffectType::Demoralize),
        tes3::MagicEffectType::DemoralizeCreature => Some(tes4::MagicEffectType::Demoralize),
        tes3::MagicEffectType::RallyHumanoid => Some(tes4::MagicEffectType::Rally),
        tes3::MagicEffectType::RallyCreature => Some(tes4::MagicEffectType::Rally),
        tes3::MagicEffectType::Dispel => Some(tes4::MagicEffectType::Dispel),
        tes3::MagicEffectType::Soultrap => Some(tes4::MagicEffectType::SoulTrap),
        tes3::MagicEffectType::Telekinesis => Some(tes4::MagicEffectType::Telekinesis),
        tes3::MagicEffectType::DetectAnimal => Some(tes4::MagicEffectType::DetectLife),
        tes3::MagicEffectType::SpellAbsorption => Some(tes4::MagicEffectType::SpellAbsorption),
        tes3::MagicEffectType::Reflect => Some(tes4::MagicEffectType::ReflectSpell),
        tes3::MagicEffectType::CureCommonDisease => Some(tes4::MagicEffectType::CureDisease),
        tes3::MagicEffectType::CurePoison => Some(tes4::MagicEffectType::CurePoison),
        tes3::MagicEffectType::CureParalyzation => Some(tes4::MagicEffectType::CureParalysis),
        tes3::MagicEffectType::RestoreAttribute => Some(tes4::MagicEffectType::RestoreAttribute),
        tes3::MagicEffectType::RestoreHealth => Some(tes4::MagicEffectType::RestoreHealth),
        tes3::MagicEffectType::RestoreMagicka => Some(tes4::MagicEffectType::RestoreMagicka),
        tes3::MagicEffectType::RestoreFatigue => Some(tes4::MagicEffectType::RestoreFatigue),
        tes3::MagicEffectType::FortifyAttribute => Some(tes4::MagicEffectType::FortifyAttribute),
        tes3::MagicEffectType::FortifyHealth => Some(tes4::MagicEffectType::FortifyHealth),
        tes3::MagicEffectType::FortifyMagicka => Some(tes4::MagicEffectType::FortifyMagicka),
        tes3::MagicEffectType::FortifyMaximumMagicka => Some(tes4::MagicEffectType::FortifyMagickaMultiplier),
        tes3::MagicEffectType::FortifyFatigue => Some(tes4::MagicEffectType::FortifyFatigue),
        tes3::MagicEffectType::FortifySkill => Some(tes4::MagicEffectType::FortifySkill),
        tes3::MagicEffectType::AbsorbAttribute => Some(tes4::MagicEffectType::AbsorbAttribute),
        tes3::MagicEffectType::AbsorbHealth => Some(tes4::MagicEffectType::AbsorbHealth),
        tes3::MagicEffectType::AbsorbMagicka => Some(tes4::MagicEffectType::AbsorbMagicka),
        tes3::MagicEffectType::AbsorbFatigue => Some(tes4::MagicEffectType::AbsorbFatigue),
        tes3::MagicEffectType::AbsorbSkill => Some(tes4::MagicEffectType::AbsorbSkill),
        tes3::MagicEffectType::ResistFire => Some(tes4::MagicEffectType::ResistFire),
        tes3::MagicEffectType::ResistFrost => Some(tes4::MagicEffectType::ResistFrost),
        tes3::MagicEffectType::ResistShock => Some(tes4::MagicEffectType::ResistShock),
        tes3::MagicEffectType::ResistMagicka => Some(tes4::MagicEffectType::ResistMagic),
        tes3::MagicEffectType::ResistCommonDisease => Some(tes4::MagicEffectType::ResistDisease),
        tes3::MagicEffectType::ResistPoison => Some(tes4::MagicEffectType::ResistPoison),
        tes3::MagicEffectType::ResistNormalWeapons => Some(tes4::MagicEffectType::ResistNormalWeapons),
        tes3::MagicEffectType::ResistParalysis => Some(tes4::MagicEffectType::ResistParalysis),
        tes3::MagicEffectType::TurnUndead => Some(tes4::MagicEffectType::TurnUndead),
        tes3::MagicEffectType::SummonScamp => Some(tes4::MagicEffectType::SummonScamp),
        tes3::MagicEffectType::SummonClannfear => Some(tes4::MagicEffectType::SummonClannfear),
        tes3::MagicEffectType::SummonDaedroth => Some(tes4::MagicEffectType::SummonDaedroth),
        tes3::MagicEffectType::SummonDremora => Some(tes4::MagicEffectType::SummonDremora),
        tes3::MagicEffectType::SummonAncestralGhost => Some(tes4::MagicEffectType::SummonGhost),
        tes3::MagicEffectType::SummonSkeletalMinion => Some(tes4::MagicEffectType::SummonSkeleton),
        tes3::MagicEffectType::SummonHunger => Some(tes4::MagicEffectType::SummonHunger),
        tes3::MagicEffectType::SummonGoldenSaint => Some(tes4::MagicEffectType::SummonGoldenSaint),
        tes3::MagicEffectType::SummonFlameAtronach => Some(tes4::MagicEffectType::SummonFlameAtronach),
        tes3::MagicEffectType::SummonFrostAtronach => Some(tes4::MagicEffectType::SummonFrostAtronach),
        tes3::MagicEffectType::SummonStormAtronach => Some(tes4::MagicEffectType::SummonStormAtronach),
        tes3::MagicEffectType::CommandCreature => Some(tes4::MagicEffectType::CommandCreature),
        tes3::MagicEffectType::CommandHumanoid => Some(tes4::MagicEffectType::CommandHumanoid),
        tes3::MagicEffectType::BoundDagger => Some(tes4::MagicEffectType::BoundDagger),
        tes3::MagicEffectType::BoundLongsword => Some(tes4::MagicEffectType::BoundSword),
        tes3::MagicEffectType::BoundMace => Some(tes4::MagicEffectType::BoundMace),
        tes3::MagicEffectType::BoundBattleAxe => Some(tes4::MagicEffectType::BoundAxe),
        tes3::MagicEffectType::BoundLongbow => Some(tes4::MagicEffectType::BoundBow),
        tes3::MagicEffectType::BoundCuirass => Some(tes4::MagicEffectType::BoundCuirass),
        tes3::MagicEffectType::BoundHelm => Some(tes4::MagicEffectType::BoundHelmet),
        tes3::MagicEffectType::BoundBoots => Some(tes4::MagicEffectType::BoundBoots),
        tes3::MagicEffectType::BoundShield => Some(tes4::MagicEffectType::BoundShield),
        tes3::MagicEffectType::BoundGloves => Some(tes4::MagicEffectType::BoundGauntlets),
        tes3::MagicEffectType::Vampirism => Some(tes4::MagicEffectType::Vampirism),
        tes3::MagicEffectType::SunDamage => Some(tes4::MagicEffectType::SunDamage),
        tes3::MagicEffectType::StuntedMagicka => Some(tes4::MagicEffectType::StuntedMagicka),
        tes3::MagicEffectType::CallBear => Some(tes4::MagicEffectType::SummonBear),
        _ => None,
    }
}

/// Gets the Oblivion magic effect type equivalent to a given Morrowind magic effect type, if one
/// exists
pub fn oblivion_effect(effect: tes3::MagicEffectType) -> (r: Option<tes4::MagicEffectType>)
    ensures
        r == oblivion_effect_spec(effect),
{
    match effect {
        tes3::MagicEffectType::WaterBreathing => Some(tes4::MagicEffectType::WaterBreathing),
        tes3::MagicEffectType::WaterWalking => Some(tes4::MagicEffectType::WaterWalking),
        tes3::MagicEffectType::Shield => Some(tes4::MagicEffectType::Shield),
        tes3::MagicEffectType::FireShield => Some(tes4::MagicEffectType::FireShield),
        tes3::MagicEffectType::LightningShield => Some(tes4::MagicEffectType::ShockShield),
        tes3::MagicEffectType::FrostShield => Some(tes4::MagicEffectType::FrostShield),
        tes3::MagicEffectType::Burden => Some(tes4::MagicEffectType::Burden),
        tes3::MagicEffectType::Feather => Some(tes4::MagicEffectType::Feather),
        tes3::MagicEffectType::Lock => Some(tes4::MagicEffectType::Lock),
        tes3::MagicEffectType::Open => Some(tes4::MagicEffectType::Open),
        tes3::MagicEffectType::FireDamage => Some(tes4::MagicEffectType::FireDamage),
        tes3::MagicEffectType::ShockDamage => Some(tes4::MagicEffectType::ShockDamage),
        tes3::MagicEffectType::FrostDamage => Some(tes4::MagicEffectType::FrostDamage),
        tes3::MagicEffectType::DrainAttribute => Some(tes4::MagicEffectType::DrainAttribute),
        tes3::MagicEffectType::DrainHealth => Some(tes4::MagicEffectType::DrainHealth),
        tes3::MagicEffectType::DrainMagicka => Some(tes4::MagicEffectType::DrainMagicka),
        tes3::MagicEffectType::DrainFatigue => Some(tes4::MagicEffectType::DrainFatigue),
        tes3::MagicEffectType::DrainSkill => Some(tes4::MagicEffectType::DrainSkill),
        tes3::MagicEffectType::DamageAttribute => Some(tes4::MagicEffectType::DamageAttribute),
        tes3::MagicEffectType::DamageHealth => Some(tes4::MagicEffectType::DamageHealth),
        tes3::MagicEffectType::DamageMagicka => Some(tes4::MagicEffectType::DamageMagicka),
        tes3::MagicEffectType::DamageFatigue => Some(tes4::MagicEffectType::DamageFatigue),
        tes3::MagicEffectType::WeaknessToFire => Some(tes4::MagicEffectType::WeaknessToFire),
        tes3::MagicEffectType::WeaknessToFrost => Some(tes4::MagicEffectType::WeaknessToFrost),
        tes3::MagicEffectType::WeaknessToShock => Some(tes4::MagicEffectType::WeaknessToShock),
        tes3::MagicEffectType::WeaknessToMagicka => Some(tes4::MagicEffectType::WeaknessToMagic),
        tes3::MagicEffectType::WeaknessToCommonDisease => Some(tes4::MagicEffectType::WeaknessToDisease),
        tes3::MagicEffectType::WeaknessToPoison => Some(tes4::MagicEffectType::WeaknessToPoison),
        tes3::MagicEffectType::WeaknessToNormalWeapons => Some(tes4::MagicEffectType::WeaknessToNormalWeapons),
        tes3::MagicEffectType::DisintegrateWeapon => Some(tes4::MagicEffectType::DisintegrateWeapon),
        tes3::MagicEffectType::DisintegrateArmor => Some(tes4::MagicEffectType::DisintegrateArmor),
        tes3::MagicEffectType::Invisibility => Some(tes4::MagicEffectType::Invisibility),
        tes3::MagicEffectType::Chameleon => Some(tes4::MagicEffectType::Chameleon),
        tes3::MagicEffectType::Light => Some(tes4::MagicEffectType::Light),
        tes3::MagicEffectType::NightEye => Some(tes4::MagicEffectType::NightEye),
        tes3::MagicEffectType::Charm => Some(tes4::MagicEffectType::Charm),
        tes3::MagicEffectType::Paralyze => Some(tes4::MagicEffectType::Paralyze),
        tes3::MagicEffectType::Silence => Some(tes4::MagicEffectType::Silence),
        tes3::MagicEffectType::CalmHumanoid => Some(tes4::MagicEffectType::Calm),
        tes3::MagicEffectType::CalmCreature => Some(tes4::MagicEffectType::Calm),
        tes3::MagicEffectType::FrenzyHumanoid => Some(tes4::MagicEffectType::Frenzy),
        tes3::MagicEffectType::FrenzyCreature => Some(tes4::MagicEffectType::Frenzy),
        tes3::MagicEffectType::DemoralizeHumanoid => Some(tes4::MagicEffectType::Demoralize),
        tes3::MagicEffectType::DemoralizeCreature => Some(tes4::MagicEffectType::Demoralize),
        tes3::MagicEffectType::RallyHumanoid => Some(tes4::MagicEffectType::Rally),
        tes3::MagicEffectType::RallyCreature => Some(tes4::MagicEffectType::Rally),
        tes3::MagicEffectType::Dispel => Some(tes4::MagicEffectType::Dispel),
        tes3::MagicEffectType::Soultrap => Some(tes4::MagicEffectType::SoulTrap),
        tes3::MagicEffectType::Telekinesis => Some(tes4::MagicEffectType::Telekinesis),
        tes3::MagicEffectType::DetectAnimal => Some(tes4::MagicEffectType::DetectLife),
        tes3::MagicEffectType::SpellAbsorption => Some(tes4::MagicEffectType::SpellAbsorption),
        tes3::MagicEffectType::Reflect => Some(tes4::MagicEffectType::ReflectSpell),
        tes3::MagicEffectType::CureCommonDisease => Some(tes4::MagicEffectType::CureDisease),
        tes3::MagicEffectType::CurePoison => Some(tes4::MagicEffectType::CurePoison),
        tes3::MagicEffectType::CureParalyzation => Some(tes4::MagicEffectType::CureParalysis),
        tes3::MagicEffectType::RestoreAttribute => Some(tes4::MagicEffectType::RestoreAttribute),
        tes3::MagicEffectType::RestoreHealth => Some(tes4::MagicEffectType::RestoreHealth),
        tes3::MagicEffectType::RestoreMagicka => Some(tes4::MagicEffectType::RestoreMagicka),
        tes3::MagicEffectType::RestoreFatigue => Some(tes4::MagicEffectType::RestoreFatigue),
        tes3::MagicEffectType::FortifyAttribute => Some(tes4::MagicEffectType::FortifyAttribute),
        tes3::MagicEffectType::FortifyHealth => Some(tes4::MagicEffectType::FortifyHealth),
        tes3::MagicEffectType::FortifyMagicka => Some(tes4::MagicEffectType::FortifyMagicka),
        tes3::MagicEffectType::FortifyMaximumMagicka => Some(tes4::MagicEffectType::FortifyMagickaMultiplier),
        tes3::MagicEffectType::FortifyFatigue => Some(tes4::MagicEffectType::FortifyFatigue),
        tes3::MagicEffectType::FortifySkill => Some(tes4::MagicEffectType::FortifySkill),
        tes3::MagicEffectType::AbsorbAttribute => Some(tes4::MagicEffectType::AbsorbAttribute),
        tes3::MagicEffectType::AbsorbHealth => Some(tes4::MagicEffectType::AbsorbHealth),
        tes3::MagicEffectType::AbsorbMagicka => Some(tes4::MagicEffectType::AbsorbMagicka),
        tes3::MagicEffectType::AbsorbFatigue => Some(tes4::MagicEffectType::AbsorbFatigue),
        tes3::MagicEffectType::AbsorbSkill => Some(tes4::MagicEffectType::AbsorbSkill),
        tes3::MagicEffectType::ResistFire => Some(tes4::MagicEffectType::ResistFire),
        tes3::MagicEffectType::ResistFrost => Some(tes4::MagicEffectType::ResistFrost),
        tes3::MagicEffectType::ResistShock => Some(tes4::MagicEffectType::ResistShock),
        tes3::MagicEffectType::ResistMagicka => Some(tes4::MagicEffectType::ResistMagic),
        tes3::MagicEffectType::ResistCommonDisease => Some(tes4::MagicEffectType::ResistDisease),
        tes3::MagicEffectType::ResistPoison => Some(tes4::MagicEffectType::ResistPoison),
        tes3::MagicEffectType::ResistNormalWeapons => Some(tes4::MagicEffectType::ResistNormalWeapons),
        tes3::MagicEffectType::ResistParalysis => Some(tes4::MagicEffectType::ResistParalysis),
        tes3::MagicEffectType::TurnUndead => Some(tes4::MagicEffectType::TurnUndead),
        tes3::MagicEffectType::SummonScamp => Some(tes4::MagicEffectType::SummonScamp),
        tes3::MagicEffectType::SummonClannfear => Some(tes4::MagicEffectType::SummonClannfear),
        tes3::MagicEffectType::SummonDaedroth => Some(tes4::MagicEffectType::SummonDaedroth),
        tes3::MagicEffectType::SummonDremora => Some(tes4::MagicEffectType::SummonDremora),
        tes3::MagicEffectType::SummonAncestralGhost => Some(tes4::MagicEffectType::SummonGhost),
        tes3::MagicEffectType::SummonSkeletalMinion => Some(tes4::MagicEffectType::SummonSkeleton),
        tes3::MagicEffectType::SummonHunger => Some(tes4::MagicEffectType::SummonHunger),
        tes3::MagicEffectType::SummonGoldenSaint => Some(tes4::MagicEffectType::SummonGoldenSaint),
        tes3::MagicEffectType::SummonFlameAtronach => Some(tes4::MagicEffectType::SummonFlameAtronach),
        tes3::MagicEffectType::SummonFrostAtronach => Some(tes4::MagicEffectType::SummonFrostAtronach),
        tes3::MagicEffectType::SummonStormAtronach => Some(tes4::MagicEffectType::SummonStormAtronach),
        tes3::MagicEffectType::CommandCreature => Some(tes4::MagicEffectType::CommandCreature),
        tes3::MagicEffectType::CommandHumanoid => Some(tes4::MagicEffectType::CommandHumanoid),
        tes3::MagicEffectType::BoundDagger => Some(tes4::MagicEffectType::BoundDagger),
        tes3::MagicEffectType::BoundLongsword => Some(tes4::MagicEffectType::BoundSword),
        tes3::MagicEffectType::BoundMace => Some(tes4::MagicEffectType::BoundMace),
        tes3::MagicEffectType::BoundBattleAxe => Some(tes4::MagicEffectType::BoundAxe),
        tes3::MagicEffectType::BoundLongbow => Some(tes4::MagicEffectType::BoundBow),
        tes3::MagicEffectType::BoundCuirass => Some(tes4::MagicEffectType::BoundCuirass),
        tes3::MagicEffectType::BoundHelm => Some(tes4::MagicEffectType::BoundHelmet),
        tes3::MagicEffectType::BoundBoots => Some(tes4::MagicEffectType::BoundBoots),
        tes3::MagicEffectType::BoundShield => Some(tes4::MagicEffectType::BoundShield),
        tes3::MagicEffectType::BoundGloves => Some(tes4::MagicEffectType::BoundGauntlets),
        tes3::MagicEffectType::Vampirism => Some(tes4::MagicEffectType::Vampirism),
        tes3::MagicEffectType::SunDamage => Some(tes4::MagicEffectType::SunDamage),
        tes3::MagicEffectType::StuntedMagicka => Some(tes4::MagicEffectType::StuntedMagicka),
        tes3::MagicEffectType::CallBear => Some(tes4::MagicEffectType::SummonBear),
        _ => None,
    }
}

/// The name of a Morrowind skill.
pub open spec fn mw_skill_name(s: tes3::Skill) -> Seq<char> {
    match s {
        tes3::Skill::Block => "Block"@,
        tes3::Skill::Armorer => "Armorer"@,
        tes3::Skill::MediumArmor => "Medium Armor"@,
        tes3::Skill::HeavyArmor => "Heavy Armor"@,
        tes3::Skill::Blunt => "Blunt"@,
        tes3::Skill::LongBlade => "Long Blade"@,
        tes3::Skill::Axe => "Axe"@,
        tes3::Skill::Spear => "Spear"@,
        tes3::Skill::Athletics => "Athletics"@,
        tes3::Skill::Enchant => "Enchant"@,
        tes3::Skill::Destruction => "Destruction"@,
        tes3::Skill::Alteration => "Alteration"@,
        tes3::Skill::Illusion => "Illusion"@,
        tes3::Skill::Conjuration => "Conjuration"@,
        tes3::Skill::Mysticism => "Mysticism"@,
        tes3::Skill::Restoration => "Restoration"@,
        tes3::Skill::Alchemy => "Alchemy"@,
        tes3::Skill::Unarmored => "Unarmored"@,
        tes3::Skill::Security => "Security"@,
        tes3::Skill::Sneak => "Sneak"@,
        tes3::Skill::Acrobatics => "Acrobatics"@,
        tes3::Skill::LightArmor => "Light Armor"@,
        tes3::Skill::ShortBlade => "Short Blade"@,
        tes3::Skill::Marksman => "Marksman"@,
        tes3::Skill::Mercantile => "Mercantile"@,
        tes3::Skill::Speechcraft => "Speechcraft"@,
        tes3::Skill::HandToHand => "Hand To Hand"@,
    }
}

/// The name of an Oblivion skill.
pub open spec fn ob_skill_name(s: tes4::Skill) -> Seq<char> {
    match s {
        tes4::Skill::Armorer => "Armorer"@,
        tes4::Skill::Athletics => "Athletics"@,
        tes4::Skill::Blade => "Blade"@,
        tes4::Skill::Block => "Block"@,
        tes4::Skill::Blunt => "Blunt"@,
        tes4::Skill::HandToHand => "Hand To Hand"@,
        tes4::Skill::HeavyArmor => "Heavy Armor"@,
        tes4::Skill::Alchemy => "Alchemy"@,
        tes4::Skill::Alteration => "Alteration"@,
        tes4::Skill::Conjuration => "Conjuration"@,
        tes4::Skill::Destruction => "Destruction"@,
        tes4::Skill::Illusion => "Illusion"@,
        tes4::Skill::Mysticism => "Mysticism"@,
        tes4::Skill::Restoration => "Restoration"@,
        tes4::Skill::Acrobatics => "Acrobatics"@,
        tes4::Skill::LightArmor => "Light Armor"@,
        tes4::Skill::Marksman => "Marksman"@,
        tes4::Skill::Mercantile => "Mercantile"@,
        tes4::Skill::Security => "Security"@,
        tes4::Skill::Sneak => "Sneak"@,
        tes4::Skill::Speechcraft => "Speechcraft"@,
    }
}

/// A Morrowind skill carries over to the Oblivion skill of the same name, except that Long
/// Blade and Short Blade, which Oblivion merged into Blade, carry over to Blade, and Axe, which
/// it merged into Blunt, to Blunt. Medium Armor, Spear, Enchant and Unarmored, which Oblivion
/// dropped, carry over to none.
pub proof fn lemma_skills_keep_names(s: tes3::Skill)
    ensures
        match oblivion_skill_spec(s) {
            Some(o) => ob_skill_name(o) == mw_skill_name(s) || (o == tes4::Skill::Blade && (s
                == tes3::Skill::LongBlade || s == tes3::Skill::ShortBlade)) || (o
                == tes4::Skill::Blunt && s == tes3::Skill::Axe),
            None => s == tes3::Skill::MediumArmor || s == tes3::Skill::Spear || s
                == tes3::Skill::Enchant || s == tes3::Skill::Unarmored,
        },
{
}

/// An Oblivion skill carries back to the Morrowind skill of the same name, and Blade to Long
/// Blade.
pub proof fn lemma_skills_keep_names_back(o: tes4::Skill)
    ensures
        o != tes4::Skill::Blade ==> mw_skill_name(morrowind_skill_spec(o)) == ob_skill_name(o),
        o == tes4::Skill::Blade ==> morrowind_skill_spec(o) == tes3::Skill::LongBlade,
{
}

/// Taking an Oblivion skill to Morrowind and back gives the same skill.
pub proof fn lemma_skill_round_trip(skill: tes4::Skill)
    ensures
        oblivion_skill_spec(morrowind_skill_spec(skill)) == Some(skill),
{
}

/// Every Oblivion skill has a Morrowind skill that becomes it.
pub proof fn lemma_oblivion_skills_covered(skill: tes4::Skill)
    ensures
        exists|m: tes3::Skill| oblivion_skill_spec(m) == Some(skill),
{
    assert(oblivion_skill_spec(morrowind_skill_spec(skill)) == Some(skill));
}

} // verus!
