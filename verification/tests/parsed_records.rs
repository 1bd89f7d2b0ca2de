use tesutil::tes3::creature::{Creature, CreatureType};
use tesutil::tes3::npc::Npc;
use tesutil::tes3::npc_change::NpcChange;
use tesutil::tes3::plugin::VERSION_1_3;
use tesutil::tes3::world::Tes3World;
use tesutil::tes3::{Plugin, Tes3Field, Tes3Record};

fn padded(s: &str, n: usize) -> Vec<u8> {
    let mut v = s.as_bytes().to_vec();
    v.resize(n, 0);
    v
}

fn zfield(name: &[u8; 4], s: &str) -> Tes3Field {
    Tes3Field::new_zstring(name, String::from(s)).unwrap()
}

fn npco(count: u32, id: &str) -> Tes3Field {
    let mut data = count.to_le_bytes().to_vec();
    data.extend(padded(id, 32));
    Tes3Field::new(b"NPCO", data).unwrap()
}

/// Encodes a record and decodes it again, as reading it from a file would
fn through_bytes(record: &Tes3Record) -> Tes3Record {
    let mut buf = vec![];
    record.write(&mut buf).unwrap();
    Tes3Record::read(&mut buf.as_slice()).unwrap()
}

#[test]
fn creature_parse_record() {
    let mut record = Tes3Record::new(b"CREA");
    record.add_field(zfield(b"NAME", "atronach_flame"));
    record.add_field(zfield(b"MODL", "r\\AtronachFire.NIF"));
    record.add_field(zfield(b"FNAM", "Flame Atronach"));
    let mut npdt = vec![];
    for k in 0..24u32 {
        // the type, the level, eight attributes, health, magicka, then fatigue
        let v = match k {
            0 => 1,
            12 => 600,
            _ => k,
        };
        npdt.extend_from_slice(&v.to_le_bytes());
    }
    record.add_field(Tes3Field::new(b"NPDT", npdt).unwrap());
    record.add_field(Tes3Field::new(b"FLAG", 0x48u32.to_le_bytes().to_vec()).unwrap());
    record.add_field(Tes3Field::new(b"NPCS", padded("immune to normal weapons", 32)).unwrap());
    record.add_field(Tes3Field::new(b"NPCS", padded("fire bite", 32)).unwrap());

    let record = through_bytes(&record);
    let creature = Creature::read(&record).unwrap();
    assert_eq!(creature.id(), "atronach_flame");
    assert_eq!(creature.name().unwrap(), "Flame Atronach");
    assert!(creature.sound_gen_creature().is_none());
    assert_eq!(creature.data().creature_type, CreatureType::Daedra);
    assert_eq!(creature.data().fatigue, 600);
    assert!(creature
        .actor()
        .iter_spells()
        .iter()
        .any(|s| s == "immune to normal weapons"));
}

#[test]
fn npc_parse_record() {
    let mut record = Tes3Record::new(b"NPC_");
    record.add_field(zfield(b"NAME", "player"));
    record.add_field(zfield(b"FNAM", "Cirfenath"));
    record.add_field(zfield(b"RNAM", "High Elf"));
    record.add_field(zfield(b"CNAM", "NEWCLASSID_CHARGEN"));
    record.add_field(zfield(b"ANAM", ""));
    record.add_field(zfield(b"BNAM", "b_n_high elf_m_head_01"));
    record.add_field(zfield(b"KNAM", "b_n_high elf_m_hair_01"));
    let mut npdt = 1u16.to_le_bytes().to_vec();
    npdt.extend_from_slice(&[40, 40, 40, 40, 40, 40, 40, 40]);
    npdt.extend_from_slice(&[5; 27]);
    npdt.extend_from_slice(&[0; 15]);
    record.add_field(Tes3Field::new(b"NPDT", npdt).unwrap());
    record.add_field(Tes3Field::new(b"FLAG", 0x18u32.to_le_bytes().to_vec()).unwrap());
    record.add_field(npco(1, "common_shirt_01"));
    record.add_field(npco(1, "common_pants_01"));

    let record = through_bytes(&record);
    let npc = Npc::read(&record).unwrap();
    assert_eq!(npc.id(), "player");
    assert_eq!(npc.name().unwrap(), "Cirfenath");
    assert_eq!(npc.class(), "NEWCLASSID_CHARGEN");
    assert!(npc.actor().state().iter_inventory().len() > 0);
}

#[test]
fn npc_change_parse_record() {
    let mut record = Tes3Record::new(b"NPCC");
    record.add_field(zfield(b"NAME", "PlayerSaveGame"));
    record.add_field(Tes3Field::new(b"NPDT", vec![0; 8]).unwrap());
    record.add_field(npco(1, "bk_a1_1_directionscaiuscosades"));
    let equipped = [
        "common_pants_01",
        "common_shirt_01",
        "common_shoes_01",
        "exquisite_ring_processus",
        "iron club",
        "ring_keley",
    ];
    for id in equipped.iter() {
        record.add_field(npco(1, id));
        record.add_field(Tes3Field::new(b"XIDX", vec![0; 4]).unwrap());
    }
    // each equipped item is the first single item split off its stack
    for index in 1..=equipped.len() as u32 {
        let mut widx = index.to_le_bytes().to_vec();
        widx.extend_from_slice(&0u32.to_le_bytes());
        record.add_field(Tes3Field::new(b"WIDX", widx).unwrap());
    }

    let record = through_bytes(&record);
    let npc_change = NpcChange::read(&record).unwrap();
    assert_eq!(npc_change.id(), "PlayerSaveGame");
    let inventory_ids = npc_change
        .iter_inventory()
        .iter()
        .map(|i| i.id.as_ref())
        .collect::<Vec<&str>>();
    assert!(inventory_ids.contains(&"bk_a1_1_directionscaiuscosades"));
    assert!(inventory_ids.contains(&"exquisite_ring_processus"));
    let mut equipped_ids = npc_change
        .iter_inventory()
        .iter()
        .filter_map(|i| if i.is_equipped { Some(i.id.as_ref()) } else { None })
        .collect::<Vec<&str>>();
    equipped_ids.sort();
    assert_eq!(equipped_ids, equipped);
}

const MULTIPATCH_AUTHOR: &str = "tes3cmd multipatch";
const MULTIPATCH_DESCRIPTION: &str = "options: cellnames,fogbug,merge_lists,summons_persist";

fn wolf_record() -> Tes3Record {
    let mut record = Tes3Record::new(b"CREA");
    record.add_field(zfield(b"NAME", "BM_wolf_grey_summon"));
    record.add_field(zfield(b"MODL", "r\\Wolf_Black.NIF"));
    record.add_field(zfield(b"CNAM", "BM_wolf_grey"));
    record.add_field(zfield(b"FNAM", "Wolf"));
    record.add_field(Tes3Field::new(b"NPDT", vec![0; 96]).unwrap());
    record.add_field(Tes3Field::new(b"FLAG", 0x48u32.to_le_bytes().to_vec()).unwrap());
    record.add_field(Tes3Field::new(b"XSCL", 1.0f32.to_bits().to_le_bytes().to_vec()).unwrap());
    record.add_field(Tes3Field::new(b"AIDT", vec![0; 12]).unwrap());
    record.add_field(Tes3Field::new(b"AI_W", vec![0; 14]).unwrap());
    record
}

/// A patch plugin with the header of the multipatch that tes3cmd makes, and eight records
fn multipatch_bytes() -> Vec<u8> {
    let mut plugin =
        Plugin::new(String::from(MULTIPATCH_AUTHOR), String::from(MULTIPATCH_DESCRIPTION)).unwrap();
    plugin.add_record(wolf_record()).unwrap();
    for k in 0..7 {
        let mut record = Tes3Record::new(b"CELL");
        record.add_field(zfield(b"NAME", &format!("cell {}", k)));
        plugin.add_record(record).unwrap();
    }
    let mut buf = vec![];
    plugin.write(&mut buf).unwrap();
    buf
}

#[test]
fn plugin_read_plugin() {
    let bytes = multipatch_bytes();
    let plugin = Plugin::read(&mut bytes.as_slice()).unwrap();
    assert_eq!(plugin.version(), VERSION_1_3);
    assert!(!plugin.is_master);
    assert_eq!(plugin.author(), MULTIPATCH_AUTHOR);
    assert_eq!(plugin.description(), MULTIPATCH_DESCRIPTION);
    assert_eq!(plugin.masters().len(), 0);
    assert_eq!(plugin.records().len(), 8);
}

#[test]
fn plugin_write_plugin() {
    let mut buf: Vec<u8> = vec![];
    let mut plugin = Plugin::new(
        String::from("test"),
        String::from("This is an empty test plugin"),
    )
    .unwrap();
    plugin.is_master = true;
    plugin
        .add_master(String::from("Morrowind.esm"), 79837557)
        .unwrap();

    let mut test_record = Tes3Record::new(b"GMST");
    test_record.add_field(Tes3Field::new_string(b"NAME", String::from("iDispKilling")).unwrap());
    test_record.add_field(Tes3Field::new_i32(b"INTV", -50));
    plugin.add_record(test_record).unwrap();

    plugin.write(&mut buf).unwrap();

    // the header record: HEDR, MAST and DATA
    let mut expected = b"TES3".to_vec();
    expected.extend_from_slice(&(308u32 + 22 + 16).to_le_bytes());
    expected.extend_from_slice(&[0; 8]);
    expected.extend_from_slice(b"HEDR");
    expected.extend_from_slice(&300u32.to_le_bytes());
    expected.extend_from_slice(&VERSION_1_3.to_le_bytes());
    expected.extend_from_slice(&1u32.to_le_bytes());
    expected.extend(padded("test", 32));
    expected.extend(padded("This is an empty test plugin", 256));
    expected.extend_from_slice(&1u32.to_le_bytes());
    expected.extend_from_slice(b"MAST");
    expected.extend_from_slice(&14u32.to_le_bytes());
    expected.extend_from_slice(b"Morrowind.esm\0");
    expected.extend_from_slice(b"DATA");
    expected.extend_from_slice(&8u32.to_le_bytes());
    expected.extend_from_slice(&79837557u64.to_le_bytes());
    // the game setting
    expected.extend_from_slice(b"GMST");
    expected.extend_from_slice(&32u32.to_le_bytes());
    expected.extend_from_slice(&[0; 8]);
    expected.extend_from_slice(b"NAME");
    expected.extend_from_slice(&12u32.to_le_bytes());
    expected.extend_from_slice(b"iDispKilling");
    expected.extend_from_slice(b"INTV");
    expected.extend_from_slice(&4u32.to_le_bytes());
    expected.extend_from_slice(&(-50i32).to_le_bytes());

    assert_eq!(buf, expected);
}

#[test]
fn plugin_fetch_record() {
    let bytes = multipatch_bytes();
    let plugin = Plugin::read(&mut bytes.as_slice()).unwrap();
    let record = plugin.get_record("BM_wolf_grey_summon").unwrap().unwrap();
    assert_eq!(record.len(), 9);
    for field in record.fields() {
        if let Some(expected) = match field.name() {
            b"NAME" => Some("BM_wolf_grey_summon"),
            b"MODL" => Some("r\\Wolf_Black.NIF"),
            b"CNAM" => Some("BM_wolf_grey"),
            b"FNAM" => Some("Wolf"),
            _ => None,
        } {
            let value = field.get_zstring().unwrap();
            assert_eq!(value, expected);
        }
    }
}

#[test]
fn test_explicit_plugins() {
    let mut first = Plugin::new(String::from("test1"), String::new()).unwrap();
    first.add_record(wolf_record()).unwrap();
    let second = Plugin::new(String::from("test2"), String::new()).unwrap();
    let world = Tes3World::load_from_plugins(vec![first, second]);
    assert_eq!(world.plugins().len(), 2);
    assert!(world.get_save().is_none());
    assert!(world.get_record("BM_wolf_grey_summon").unwrap().is_some());
}
