use tesutil::tes3::active_effects::ActiveSpellList;
use tesutil::tes3::npc_change::NpcChange;
use tesutil::tes3::package::Package;
use tesutil::tes3::{Tes3Field, Tes3Record};
use tesutil::TesError;

fn padded(s: &str, n: usize) -> Vec<u8> {
    let mut v = s.as_bytes().to_vec();
    v.resize(n, 0);
    v
}

fn npco(count: u32, id: &str) -> Tes3Field {
    let mut data = count.to_le_bytes().to_vec();
    data.extend(padded(id, 32));
    Tes3Field::new(b"NPCO", data).unwrap()
}

#[test]
fn npc_change_stacks_and_equipment() {
    let mut record = Tes3Record::new(b"NPCC");
    record.add_field(Tes3Field::new(b"NAME", b"PlayerSaveGame\0".to_vec()).unwrap());
    record.add_field(npco(2, "iron club"));
    record.add_field(Tes3Field::new(b"XIDX", vec![0; 4]).unwrap());
    record.add_field(Tes3Field::new(b"XHLT", 10u32.to_le_bytes().to_vec()).unwrap());
    record.add_field(Tes3Field::new(b"XIDX", vec![0; 4]).unwrap());
    record.add_field(npco(1, "ring_keley"));
    let mut widx = 0u32.to_le_bytes().to_vec();
    widx.extend_from_slice(&0u32.to_le_bytes());
    record.add_field(Tes3Field::new(b"WIDX", widx).unwrap());
    let change = NpcChange::read(&record).unwrap();
    assert_eq!(change.id(), "PlayerSaveGame");
    let inventory = change.iter_inventory();
    // the emptied stack of clubs is dropped, leaving the two single clubs and the ring
    assert_eq!(inventory.len(), 3);
    assert_eq!(inventory[0].id, "iron club");
    assert_eq!(inventory[0].count, 1);
    assert_eq!(inventory[0].remaining_durability, Some(10));
    assert!(inventory[0].is_equipped);
    assert!(inventory[1].is_pristine() || inventory[1].remaining_durability.is_some());
    assert_eq!(inventory[2].id, "ring_keley");
}

#[test]
fn npc_change_orphans_fail() {
    let mut record = Tes3Record::new(b"NPCC");
    record.add_field(Tes3Field::new(b"XSOL", b"soul\0".to_vec()).unwrap());
    assert!(matches!(NpcChange::read(&record), Err(TesError::DecodeFailed { .. })));
    for name in [b"SCRI", b"XCHG", b"XHLT"] {
        let mut record = Tes3Record::new(b"NPCC");
        record.add_field(Tes3Field::new(b"NAME", b"fargoth\0".to_vec()).unwrap());
        record.add_field(Tes3Field::new(name, b"abc\0".to_vec()).unwrap());
        assert!(matches!(NpcChange::read(&record), Err(TesError::DecodeFailed { .. })));
    }
    let mut record = Tes3Record::new(b"NPCC");
    record.add_field(Tes3Field::new(b"CNDT", b"Balmora\0".to_vec()).unwrap());
    assert!(NpcChange::read(&record).is_err());
}

#[test]
fn package_cell_names() {
    let mut data = vec![0u8; 14];
    data.extend(padded("fargoth", 32));
    let field = Tes3Field::new(b"AI_F", data).unwrap();
    let mut package = Package::read(&field).unwrap();
    let cell = Tes3Field::new(b"CNDT", b"Seyda Neen\0".to_vec()).unwrap();
    package.read_cell_name(&cell).unwrap();
    assert!(package.read_cell_name(&cell).is_err());
    match package {
        Package::Follow { id, cell, .. } => {
            assert_eq!(id, "fargoth");
            assert_eq!(cell.as_deref(), Some("Seyda Neen"));
        }
        _ => panic!("expected a follow package"),
    }
    let travel = Tes3Field::new(b"AI_T", vec![0; 12]).unwrap();
    let mut travel = Package::read(&travel).unwrap();
    assert!(travel.read_cell_name(&cell).is_err());
    assert!(Package::read(&Tes3Field::new(b"AI_W", vec![0; 5]).unwrap()).is_err());
}

#[test]
fn active_spells_read() {
    let mut record = Tes3Record::new(b"SPLM");
    record.add_field(Tes3Field::new(b"NAME", 3i32.to_le_bytes().to_vec()).unwrap());
    let mut spdt = 2u32.to_le_bytes().to_vec();
    spdt.extend(padded("heal", 32));
    spdt.extend(vec![0u8; 16]);
    spdt.extend(padded("player", 32));
    spdt.extend(padded("potion", 32));
    spdt.extend(vec![0u8; 44]);
    record.add_field(Tes3Field::new(b"SPDT", spdt).unwrap());
    let mut npdt = padded("player", 32);
    npdt.extend_from_slice(&1i32.to_le_bytes());
    npdt.extend_from_slice(&[0; 4]);
    npdt.extend_from_slice(&20i32.to_le_bytes());
    npdt.extend_from_slice(&1.5f32.to_bits().to_le_bytes());
    npdt.extend_from_slice(&[0; 8]);
    record.add_field(Tes3Field::new(b"NPDT", npdt).unwrap());
    record.add_field(Tes3Field::new(b"NAM0", vec![]).unwrap());
    record.add_field(Tes3Field::new(b"XNAM", vec![]).unwrap());
    let list = ActiveSpellList::read(&record).unwrap();
    let spells = list.iter();
    assert_eq!(spells.len(), 1);
    assert_eq!(spells[0].id(), "heal");
    let effects = spells[0].effects();
    assert_eq!(effects.len(), 1);
    assert_eq!(effects[0].affected_actor(), "player");
    assert_eq!(effects[0].magnitude(), 20);
    assert_eq!(f32::from_bits(effects[0].seconds_active_bits()), 1.5);
}

#[test]
fn active_spells_orphan_fails() {
    let mut record = Tes3Record::new(b"SPLM");
    record.add_field(Tes3Field::new(b"VNAM", vec![1]).unwrap());
    assert!(ActiveSpellList::read(&record).is_err());
}
