use tesutil::tes3::book::Book;
use tesutil::tes3::enchantable::Enchantable;
use tesutil::tes3::potion::Potion;
use tesutil::tes3::race::Race;
use tesutil::tes3::weapon::{Weapon, WeaponType};
use tesutil::tes3::{Skill, Tes3Field, Tes3Record};
use tesutil::Attribute;

fn zfield(name: &[u8; 4], s: &str) -> Tes3Field {
    let mut data = s.as_bytes().to_vec();
    data.push(0);
    Tes3Field::new(name, data).unwrap()
}

fn wpdt(weapon_type: u16, flags: u32) -> Vec<u8> {
    let mut d = 24.0f32.to_bits().to_le_bytes().to_vec();
    d.extend_from_slice(&40u32.to_le_bytes());
    d.extend_from_slice(&weapon_type.to_le_bytes());
    d.extend_from_slice(&900u16.to_le_bytes());
    d.extend_from_slice(&1.25f32.to_bits().to_le_bytes());
    d.extend_from_slice(&1.0f32.to_bits().to_le_bytes());
    d.extend_from_slice(&60u16.to_le_bytes());
    d.extend_from_slice(&[1, 20, 2, 21, 3, 22]);
    d.extend_from_slice(&flags.to_le_bytes());
    d
}

#[test]
fn weapon_is_read() {
    let mut record = Tes3Record::new(b"WEAP");
    record.add_field(zfield(b"NAME", "iron battle axe"));
    record.add_field(zfield(b"MODL", "w\\W_Axe_Iron_Battle.nif"));
    record.add_field(zfield(b"FNAM", "Iron Battle Axe"));
    record.add_field(Tes3Field::new(b"WPDT", wpdt(8, 2)).unwrap());
    record.add_field(zfield(b"ITEX", "w\\Tx_Axe_Iron_Battle.tga"));
    let weapon = Weapon::read(&record).unwrap();
    assert_eq!(weapon.id(), "iron battle axe");
    assert_eq!(weapon.name(), Some("Iron Battle Axe"));
    assert_eq!(weapon.data.weapon_type, WeaponType::AxeTwoHand);
    assert_eq!(weapon.data.health, 900);
    assert_eq!(weapon.data.max_slash, 21);
    assert_eq!(f32::from_bits(weapon.weight_bits()), 24.0);
    assert_eq!(weapon.value(), 40);
    assert!(weapon.is_silver());
    assert!(!weapon.ignores_normal_weapon_resistance());
    assert_eq!(weapon.enchantment_points(), 60);
    assert!(weapon.enchantment().is_none());
    assert_eq!(weapon.icon(), Some("w\\Tx_Axe_Iron_Battle.tga"));
}

#[test]
fn weapon_with_bad_data_fails() {
    let mut record = Tes3Record::new(b"WEAP");
    record.add_field(Tes3Field::new(b"WPDT", wpdt(14, 0)).unwrap());
    assert!(Weapon::read(&record).is_err());
    let mut record = Tes3Record::new(b"WEAP");
    record.add_field(Tes3Field::new(b"WPDT", wpdt(0, 4)).unwrap());
    assert!(Weapon::read(&record).is_err());
    let mut record = Tes3Record::new(b"WEAP");
    record.add_field(zfield(b"DESC", "no such field"));
    assert!(Weapon::read(&record).is_err());
}

#[test]
fn weapon_setters() {
    let mut record = Tes3Record::new(b"WEAP");
    record.add_field(Tes3Field::new(b"WPDT", wpdt(0, 0)).unwrap());
    let mut weapon = Weapon::read(&record).unwrap();
    assert_eq!(weapon.model(), Some(""));
    weapon.set_ignores_normal_weapon_resistance(true);
    weapon.set_is_silver(true);
    assert!(weapon.ignores_normal_weapon_resistance());
    weapon.set_is_silver(false);
    assert!(!weapon.is_silver());
    assert!(weapon.ignores_normal_weapon_resistance());
    // weapons keep 16 bits of enchantment points
    weapon.set_enchantment_points(0x1_0005);
    assert_eq!(weapon.enchantment_points(), 5);
    weapon.set_enchantment(Some(String::from("fire bite")));
    assert_eq!(weapon.enchantment(), Some("fire bite"));
    weapon.set_model(None);
    assert_eq!(weapon.model(), Some(""));
}

fn bkdt(skill: u8) -> Vec<u8> {
    let mut d = 3.0f32.to_bits().to_le_bytes().to_vec();
    d.extend_from_slice(&150u32.to_le_bytes());
    d.extend_from_slice(&1u32.to_le_bytes());
    d.push(skill);
    d.extend_from_slice(&100u32.to_le_bytes());
    d
}

#[test]
fn book_is_read() {
    let mut record = Tes3Record::new(b"BOOK");
    record.add_field(zfield(b"NAME", "bk_BiographyBarenziah1"));
    record.add_field(zfield(b"FNAM", "Biography of Barenziah, v I"));
    record.add_field(Tes3Field::new(b"BKDT", bkdt(18)).unwrap());
    record.add_field(Tes3Field::new(b"TEXT", b"<DIV ALIGN=\"CENTER\">".to_vec()).unwrap());
    let book = Book::read(&record).unwrap();
    assert_eq!(book.id(), "bk_BiographyBarenziah1");
    assert_eq!(book.data.skill, Some(Skill::Security));
    assert!(book.data.is_scroll);
    assert_eq!(book.enchantment_points(), 100);
    assert_eq!(book.value(), 150);
    assert_eq!(book.text, "<DIV ALIGN=\"CENTER\">");

    let mut record = Tes3Record::new(b"BOOK");
    record.add_field(Tes3Field::new(b"BKDT", bkdt(0xff)).unwrap());
    assert_eq!(Book::read(&record).unwrap().data.skill, None);

    let mut record = Tes3Record::new(b"BOOK");
    record.add_field(Tes3Field::new(b"BKDT", bkdt(27)).unwrap());
    assert!(Book::read(&record).is_err());
}

#[test]
fn potion_is_read() {
    let mut record = Tes3Record::new(b"ALCH");
    record.add_field(zfield(b"NAME", "p_restore_health_s"));
    record.add_field(zfield(b"MODL", "m\\Misc_Potion_Standard_01.nif"));
    record.add_field(zfield(b"TEXT", "m\\Tx_potion_standard_01.tga"));
    record.add_field(zfield(b"FNAM", "Standard Restore Health"));
    let mut aldt = 1.0f32.to_bits().to_le_bytes().to_vec();
    aldt.extend_from_slice(&35u32.to_le_bytes());
    aldt.extend_from_slice(&2u32.to_le_bytes());
    record.add_field(Tes3Field::new(b"ALDT", aldt).unwrap());
    // restore health for 1 second, magnitude 10 to 20
    let mut enam = 75u16.to_le_bytes().to_vec();
    enam.extend_from_slice(&[0xff, 0xff]);
    for v in [0u32, 0, 1, 10, 20] {
        enam.extend_from_slice(&v.to_le_bytes());
    }
    record.add_field(Tes3Field::new(b"ENAM", enam).unwrap());
    let potion = Potion::read(&record).unwrap();
    assert_eq!(potion.id(), "p_restore_health_s");
    assert_eq!(potion.icon(), Some("m\\Tx_potion_standard_01.tga"));
    assert!(potion.alchemy_data.is_auto_calc);
    assert_eq!(potion.value(), 35);
    assert_eq!(potion.iter_effects().len(), 1);
    assert!(potion.script().is_none());
}

fn radt() -> Vec<u8> {
    let mut d = vec![];
    // skill bonuses: Athletics +5, then none
    d.extend_from_slice(&8i32.to_le_bytes());
    d.extend_from_slice(&5u32.to_le_bytes());
    for _ in 0..6 {
        d.extend_from_slice(&(-1i32).to_le_bytes());
        d.extend_from_slice(&0u32.to_le_bytes());
    }
    for a in 0..8u32 {
        d.extend_from_slice(&(40 + a).to_le_bytes());
        d.extend_from_slice(&(30 + a).to_le_bytes());
    }
    for v in [1.0f32, 0.95, 1.0, 0.9] {
        d.extend_from_slice(&v.to_bits().to_le_bytes());
    }
    d.extend_from_slice(&1u32.to_le_bytes());
    d
}

#[test]
fn race_is_read() {
    let mut record = Tes3Record::new(b"RACE");
    record.add_field(zfield(b"NAME", "Dark Elf"));
    record.add_field(zfield(b"FNAM", "Dark Elf"));
    record.add_field(Tes3Field::new(b"RADT", radt()).unwrap());
    let mut special = b"ancestor guardian".to_vec();
    special.resize(32, 0);
    record.add_field(Tes3Field::new(b"NPCS", special).unwrap());
    record.add_field(Tes3Field::new(b"DESC", b"Dunmer".to_vec()).unwrap());
    let race = Race::read(&record).unwrap();
    assert_eq!(race.attribute_male(Attribute::Strength), 40);
    assert_eq!(race.attribute_female(Attribute::Luck), 37);
    let male = race.attributes_male();
    assert_eq!(male.len(), 8);
    assert_eq!(male[3], (Attribute::Agility, 43));
    assert_eq!(race.attributes_female()[7], (Attribute::Luck, 37));
    assert_eq!(race.specials(), &[String::from("ancestor guardian")]);
}

#[test]
fn race_with_bad_skill_fails() {
    let mut data = radt();
    data[0] = 40;
    let mut record = Tes3Record::new(b"RACE");
    record.add_field(Tes3Field::new(b"RADT", data).unwrap());
    assert!(Race::read(&record).is_err());
    let mut record = Tes3Record::new(b"RACE");
    record.add_field(Tes3Field::new(b"RADT", vec![0; 139]).unwrap());
    assert!(Race::read(&record).is_err());
}
