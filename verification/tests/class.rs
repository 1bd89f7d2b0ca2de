use tesutil::tes3::{Class, Tes3Field, Tes3Record};
use tesutil::Specialization;

fn words(ws: &[u32]) -> Vec<u8> {
    let mut v = vec![];
    for w in ws {
        v.extend_from_slice(&w.to_le_bytes());
    }
    v
}

fn class_record_bytes() -> Vec<u8> {
    let mut record = Tes3Record::new(b"CLAS");
    record.add_field(Tes3Field::new(b"NAME", b"Warrior\0".to_vec()).unwrap());
    record.add_field(Tes3Field::new(b"FNAM", b"Warrior\0".to_vec()).unwrap());
    // strength and endurance, combat, five pairs of minor and major skills, playable, no flags
    let data = words(&[0, 5, 0, 1, 2, 3, 4, 5, 6, 7, 8, 9, 10, 1, 0]);
    record.add_field(Tes3Field::new(b"CLDT", data).unwrap());
    record.add_field(
        Tes3Field::new(b"DESC", b"Warriors are the professional men-at-arms.".to_vec()).unwrap(),
    );
    let mut buf = vec![];
    record.write(&mut buf).unwrap();
    buf
}

#[test]
fn class_test_load() {
    let bytes = class_record_bytes();
    let record = Tes3Record::read(&mut bytes.as_slice()).unwrap();
    let class = Class::read(&record).unwrap();
    assert_eq!(class.id(), "Warrior");
    assert_eq!(class.name(), "Warrior");
    assert!(class.description().is_some());
    assert_eq!(class.specialization, Specialization::Combat);
    assert!(class.is_playable);
}

#[test]
fn class_rejects_bad_data() {
    let mut record = Tes3Record::new(b"CLAS");
    record.add_field(Tes3Field::new(b"CLDT", words(&[0, 99, 0])).unwrap());
    assert!(Class::read(&record).is_err());
    let record = Tes3Record::new(b"SPEL");
    assert!(Class::read(&record).is_err());
}
