use tesutil::convert::{morrowind_skill, oblivion_effect, oblivion_skill, CombineStrategy, Command, Config};
use tesutil::tes3;
use tesutil::tes4;

#[test]
fn combine_highest() {
    let strat = CombineStrategy::Highest;
    assert_eq!(strat.combine(32, 47), 47);
}

#[test]
fn combine_lowest() {
    let strat = CombineStrategy::Lowest;
    assert_eq!(strat.combine(32, 47), 32);
}

#[test]
fn combine_average() {
    let strat = CombineStrategy::Average;
    assert_eq!(strat.combine(32, 47), 39);
}

#[test]
fn skills_map_between_games() {
    assert_eq!(oblivion_skill(tes3::Skill::ShortBlade), Some(tes4::Skill::Blade));
    assert_eq!(oblivion_skill(tes3::Skill::Axe), Some(tes4::Skill::Blunt));
    assert_eq!(oblivion_skill(tes3::Skill::Enchant), None);
    assert_eq!(morrowind_skill(tes4::Skill::Blade), tes3::Skill::LongBlade);
    assert_eq!(oblivion_skill(morrowind_skill(tes4::Skill::Sneak)), Some(tes4::Skill::Sneak));
}

#[test]
fn config_from_matches() {
    let config = Config::from_matches(
        "mw2ob",
        String::from("source"),
        String::from("target"),
        String::from("output"),
        Some(String::from("C:\\Morrowind")),
        None,
        Some("lowest"),
    );
    assert_eq!(config.command, Command::MorrowindToOblivion);
    assert_eq!(config.combine_strategy, CombineStrategy::Lowest);
    assert_eq!(config.source_path, "source");
    assert_eq!(config.target_path, "target");
    assert_eq!(config.output_path, "output");
    assert_eq!(config.config_path, ".");
    assert_eq!(config.mw_path.as_deref(), Some("C:\\Morrowind"));
    assert!(config.ob_path.is_none());
    let config = Config::from_matches("mw2ob", String::new(), String::new(), String::new(), None, None, None);
    assert_eq!(config.combine_strategy, CombineStrategy::Highest);
}

#[test]
fn effects_map_between_games() {
    assert_eq!(oblivion_effect(tes3::MagicEffectType::LightningShield), Some(tes4::MagicEffectType::ShockShield));
    assert_eq!(oblivion_effect(tes3::MagicEffectType::CalmCreature), Some(tes4::MagicEffectType::Calm));
    assert_eq!(oblivion_effect(tes3::MagicEffectType::CalmHumanoid), Some(tes4::MagicEffectType::Calm));
    assert_eq!(oblivion_effect(tes3::MagicEffectType::FortifyMaximumMagicka), Some(tes4::MagicEffectType::FortifyMagickaMultiplier));
    assert_eq!(oblivion_effect(tes3::MagicEffectType::CallBear), Some(tes4::MagicEffectType::SummonBear));
    assert_eq!(oblivion_effect(tes3::MagicEffectType::SwiftSwim), None);
}
