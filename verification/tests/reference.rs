use tesutil::tes3::reference::{ACDT_LENGTH, CHRD_LENGTH};
use tesutil::tes3::{PlayerReference, Tes3Field, Tes3Record};

fn refr_record() -> Tes3Record {
    let mut acdt = vec![0u8; ACDT_LENGTH];
    // strength: current at byte 80, base at byte 84
    acdt[80..84].copy_from_slice(&40f32.to_bits().to_le_bytes());
    acdt[84..88].copy_from_slice(&38f32.to_bits().to_le_bytes());
    acdt[256..260].copy_from_slice(&1234u32.to_le_bytes());
    let mut chrd = vec![0u8; CHRD_LENGTH];
    // destruction is skill 10: current at byte 80, base at byte 84
    chrd[80..84].copy_from_slice(&90i32.to_le_bytes());
    chrd[84..88].copy_from_slice(&91i32.to_le_bytes());
    let mut record = Tes3Record::new(b"REFR");
    record.add_field(Tes3Field::new(b"NAME", b"player\0".to_vec()).unwrap());
    record.add_field(Tes3Field::new(b"ACDT", acdt).unwrap());
    record.add_field(Tes3Field::new(b"CHRD", chrd).unwrap());
    record
}

#[test]
fn reference_read() {
    let record = refr_record();
    let player = PlayerReference::read(&record).unwrap();
    assert_eq!(f32::from_bits(player.attributes[0].base), 38.);
    assert_eq!(f32::from_bits(player.attributes[0].current), 40.);
    assert_eq!(player.skills[10].base, 91);
    assert_eq!(player.skills[10].current, 90);
}

#[test]
fn reference_write_then_read() {
    let mut record = refr_record();
    let mut player = PlayerReference::read(&record).unwrap();
    player.skills[3].base = -7;
    player.attributes[7].current = 55f32.to_bits();
    player.health.base = 100f32.to_bits();
    player.write(&mut record).unwrap();
    let back = PlayerReference::read(&record).unwrap();
    assert_eq!(back.skills[3].base, -7);
    assert_eq!(back.attributes[7].current, 55f32.to_bits());
    assert_eq!(back.health.base, 100f32.to_bits());
    assert_eq!(back.skills[10].base, 91);
}

#[test]
fn reference_short_data_fails() {
    let mut record = Tes3Record::new(b"REFR");
    record.add_field(Tes3Field::new(b"ACDT", vec![0; 10]).unwrap());
    assert!(PlayerReference::read(&record).is_err());
    let record = Tes3Record::new(b"NPC_");
    assert!(PlayerReference::read(&record).is_err());
}
