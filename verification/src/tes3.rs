//! The Elder Scrolls III: Morrowind.

use vstd::prelude::*;

pub mod active_effects;
pub mod actor;
pub mod actor_roundtrip;
pub mod birthsign;
pub mod book;
pub mod class;
pub mod creature;
pub mod enchantable;
pub mod enchantment;
pub mod field;
pub mod form;
pub mod gmst;
pub mod magic;
pub mod misc_item;
pub mod npc;
pub mod npc_change;
pub mod npc_stacks;
pub mod package;
pub mod race;
pub mod player;
pub mod potion;
pub mod plugin;
pub mod record;
pub mod reference;
pub mod roundtrip;
pub mod spell;
pub mod weapon;
pub mod world;

pub use actor::{Actor, ActorState, AiSettings, Destination};
pub use birthsign::Birthsign;
pub use book::{Book, BookData};
pub use creature::{Creature, CreatureData, CreatureType};
pub use enchantable::Enchantable;
pub use class::Class;
pub use enchantment::{Enchantment, EnchantmentData, EnchantmentType};
pub use field::Tes3Field;
pub use gmst::{GameSetting, GameSettingValue};
pub use misc_item::MiscItem;
pub use npc::Npc;
pub use package::Package;
pub use potion::{AlchemyData, Potion};
pub use race::Race;
pub use player::{AnimationData, ExteriorLocation, Faction, Lnam, PlayerData, QuickKey, RestState};
pub use plugin::{Plugin, SaveInfo};
pub use magic::{MagicEffectType, Skill, SkillType, SpellEffect};
pub use record::Tes3Record;
pub use reference::{PlayerReference, Stat};
pub use spell::{Spell, SpellType};
pub use weapon::{Weapon, WeaponData, WeaponType};
pub use world::Tes3World;

verus! {

} // verus!
