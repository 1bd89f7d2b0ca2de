use tesutil::tes3::world::{LoadedItem, Tes3World};
use tesutil::tes3::{Plugin, Tes3Field, Tes3Record};
use tesutil::{OwnedOrRef, WriteExact};

fn plugin_with(records: &[(&[u8; 4], &str, i32)]) -> Plugin {
    let mut plugin = Plugin::new(String::from("test"), String::new()).unwrap();
    for (name, id, value) in records {
        let mut record = Tes3Record::new(name);
        record.add_field(Tes3Field::new_zstring(b"NAME", String::from(*id)).unwrap());
        record.add_field(Tes3Field::new_i32(b"INTV", *value));
        plugin.add_record(record).unwrap();
    }
    plugin
}

#[test]
fn later_plugins_win() {
    let master = plugin_with(&[(b"MISC", "gold_001", 1), (b"MISC", "pick", 2)]);
    let patch = plugin_with(&[(b"MISC", "gold_001", 3)]);
    let world = Tes3World::load_from_plugins(vec![master, patch]);
    assert!(world.get_save().is_none());
    let gold = world.get_record("gold_001").unwrap().unwrap();
    assert_eq!(gold.fields()[1].get_i32().unwrap(), 3);
    let pick = world.get_record("pick").unwrap().unwrap();
    assert_eq!(pick.fields()[1].get_i32().unwrap(), 2);
    assert!(world.get_record("nothing").unwrap().is_none());
    let typed = world.get_record_with_type("pick", b"MISC").unwrap().unwrap();
    assert_eq!(typed.fields()[1].get_i32().unwrap(), 2);
    assert!(world.get_record_with_type("pick", b"WEAP").unwrap().is_none());
}

#[test]
fn save_is_last() {
    let master = plugin_with(&[(b"MISC", "gold_001", 1)]);
    let save = plugin_with(&[(b"MISC", "gold_001", 9)]);
    let mut world = Tes3World::load_from_save(vec![master], save);
    assert_eq!(world.get_save().unwrap().records().len(), 1);
    let gold = world.get_record("gold_001").unwrap().unwrap();
    assert_eq!(gold.fields()[1].get_i32().unwrap(), 9);
    let save = world.get_save_mut().unwrap();
    save.set_author(String::from("player")).unwrap();
    assert_eq!(world.get_save().unwrap().author(), "player");
}

/// A plugin read from bytes, which may hold records that adding would refuse
fn read_plugin_with(records: &[(&[u8; 4], &str, i32)]) -> Plugin {
    let mut buf = vec![];
    Plugin::new(String::from("test"), String::new()).unwrap().write(&mut buf).unwrap();
    for (name, id, value) in records {
        let mut record = Tes3Record::new(name);
        record.add_field(Tes3Field::new_zstring(b"NAME", String::from(*id)).unwrap());
        record.add_field(Tes3Field::new_i32(b"INTV", *value));
        record.write(&mut buf).unwrap();
    }
    Plugin::read(&mut buf.as_slice()).unwrap()
}

#[test]
fn repeated_id_and_type_fails() {
    let master = plugin_with(&[(b"MISC", "thing", 1)]);
    let patch = read_plugin_with(&[(b"MISC", "thing", 2), (b"MISC", "thing", 3)]);
    let world = Tes3World::load_from_plugins(vec![master, patch]);
    match world.get_record_with_type("thing", b"MISC") {
        Err(tesutil::TesError::LimitExceeded { .. }) => {}
        _ => panic!("expected an error for a repeated ID and type"),
    }
    // a single match in the last plugin that has one is found
    let patch = read_plugin_with(&[(b"MISC", "thing", 2), (b"MISC", "thing", 3)]);
    let last = plugin_with(&[(b"MISC", "thing", 4)]);
    let world = Tes3World::load_from_plugins(vec![patch, last]);
    let found = world.get_record_with_type("thing", b"MISC").unwrap().unwrap();
    assert_eq!(found.fields()[1].get_i32().unwrap(), 4);
}

#[test]
fn ambiguous_ids_fail() {
    let plugin = read_plugin_with(&[(b"MISC", "thing", 1), (b"ALCH", "thing", 2)]);
    let world = Tes3World::load_from_plugins(vec![plugin]);
    assert!(world.get_record("thing").is_err());
}

#[test]
fn owned_or_ref_derefs() {
    let value = String::from("owned");
    let owned: OwnedOrRef<String> = OwnedOrRef::Owned(String::from("mine"));
    let borrowed: OwnedOrRef<String> = OwnedOrRef::Ref(&value);
    assert_eq!(owned.len(), 4);
    assert_eq!(*borrowed, "owned");
}

#[test]
fn write_exact_appends() {
    let mut buf = vec![1u8];
    buf.write_exact(&[2, 3]).unwrap();
    assert_eq!(buf, vec![1, 2, 3]);
}

#[test]
fn game_files_are_listed_in_order() {
    let ini = b"[General]\nSubtitles=0\n\n[Game Files]\nGameFile0=Morrowind.esm\nGameFile1=Tribunal.esm\nGameFile2=Bloodmoon.esm\n";
    let files = Tes3World::game_files(ini).unwrap();
    assert_eq!(files, vec!["Morrowind.esm", "Tribunal.esm", "Bloodmoon.esm"]);
    let mut with_bom = b"\xEF\xBB\xBF".to_vec();
    with_bom.extend_from_slice(ini);
    assert_eq!(Tes3World::game_files(&with_bom).unwrap().len(), 3);
}

#[test]
fn game_files_need_their_section() {
    assert!(Tes3World::game_files(b"[General]\nSubtitles=0\n").is_err());
    assert!(Tes3World::game_files(b"\xff\xfe").is_err());
    assert!(Tes3World::game_files_from_section(None).is_err());
    assert_eq!(
        Tes3World::game_files_from_section(Some(vec![String::from("a.esp")])).unwrap(),
        vec!["a.esp"]
    );
}

#[test]
fn items_are_loaded_by_id() {
    let mut plugin = Plugin::new(String::from("test"), String::new()).unwrap();
    let mut misc = Tes3Record::new(b"MISC");
    misc.add_field(Tes3Field::new_zstring(b"NAME", String::from("gold_001")).unwrap());
    misc.add_field(Tes3Field::new_zstring(b"FNAM", String::from("Gold")).unwrap());
    plugin.add_record(misc).unwrap();
    let mut spell = Tes3Record::new(b"SPEL");
    spell.add_field(Tes3Field::new_zstring(b"NAME", String::from("fireball")).unwrap());
    plugin.add_record(spell).unwrap();
    let world = Tes3World::load_from_plugins(vec![plugin]);
    match world.get_item("gold_001").unwrap() {
        Some(LoadedItem::Misc(item)) => assert_eq!(item.name(), Some("Gold")),
        _ => panic!("expected a miscellaneous item"),
    }
    assert!(world.get_item("nothing").unwrap().is_none());
    match world.get_item("fireball") {
        Err(tesutil::TesError::RequirementFailed(_)) => {}
        _ => panic!("a spell is not an item"),
    }
}

#[test]
fn records_can_be_changed_in_place() {
    let mut plugin = plugin_with(&[(b"MISC", "gold_001", 1), (b"MISC", "pick", 2)]);
    {
        let record = plugin.get_record_mut("pick").unwrap().unwrap();
        record.add_field(Tes3Field::new_i32(b"INTV", 7));
    }
    assert_eq!(plugin.get_record("pick").unwrap().unwrap().len(), 3);
    {
        let record = plugin.get_record_with_type_mut("gold_001", b"MISC").unwrap();
        record.clear();
    }
    assert!(plugin.get_record_with_type("gold_001", b"MISC").is_none());
    assert!(plugin.get_record_mut("nothing").unwrap().is_none());
    assert!(plugin.get_save_info_mut().is_none());
}
