use tesutil::save::actor::ActorChange;
use tesutil::save::ChangeRecord;

fn change_record(change_type: u8, flags: u32, data: &[u8]) -> ChangeRecord {
    let mut bytes = vec![];
    bytes.extend_from_slice(&7u32.to_le_bytes());
    bytes.push(change_type);
    bytes.extend_from_slice(&flags.to_le_bytes());
    bytes.push(1);
    bytes.extend_from_slice(&(data.len() as u16).to_le_bytes());
    bytes.extend_from_slice(data);
    ChangeRecord::read(&mut bytes.as_slice()).unwrap().0
}

#[test]
fn actor_change_reads_flagged_parts() {
    let mut data = vec![];
    // form flags
    data.extend_from_slice(&0x10u32.to_le_bytes());
    // attributes
    data.extend_from_slice(&[50, 40, 30, 45, 55, 60, 35, 50]);
    // spells: two
    data.extend_from_slice(&2u16.to_le_bytes());
    data.extend_from_slice(&0x100u32.to_le_bytes());
    data.extend_from_slice(&0x200u32.to_le_bytes());
    // full name
    data.push(5);
    data.extend_from_slice(b"Bosun");
    let record = change_record(35, 0x1 | 0x8 | 0x20 | 0x80, &data);
    let change = ActorChange::read(&record).unwrap();
    assert_eq!(change.attributes().unwrap().strength, 50);
    assert_eq!(change.attributes().unwrap().luck, 50);
    assert_eq!(change.full_name(), Some("Bosun"));
    assert!(change.skills().is_none());
}

#[test]
fn actor_change_rejects_bad_input() {
    // a book change is not an actor change
    let record = change_record(21, 0, &[]);
    assert!(ActorChange::read(&record).is_err());
    // unknown change flag
    let record = change_record(35, 0x2, &[]);
    assert!(ActorChange::read(&record).is_err());
    // data too short for the skills
    let record = change_record(36, 0x200, &[1, 2, 3]);
    assert!(ActorChange::read(&record).is_err());
    // unknown actor flag in the base data
    let mut data = vec![0u8; 16];
    data[0..4].copy_from_slice(&0x4u32.to_le_bytes());
    let record = change_record(35, 0x10, &data);
    assert!(ActorChange::read(&record).is_err());
}

#[test]
fn actor_change_full_name_limit() {
    let record = change_record(35, 0, &[]);
    let mut change = ActorChange::read(&record).unwrap();
    assert!(change.set_full_name(Some("x".repeat(256))).is_err());
    assert_eq!(change.full_name(), None);
    change.set_full_name(Some(String::from("Jiub"))).unwrap();
    assert_eq!(change.full_name(), Some("Jiub"));
}

#[test]
fn actor_change_parts_can_be_edited() {
    let mut data = vec![];
    data.extend_from_slice(&[50, 40, 30, 45, 55, 60, 35, 50]);
    data.extend((1..=21).collect::<Vec<u8>>());
    let record = change_record(35, 0x8 | 0x200, &data);
    let mut change = ActorChange::read(&record).unwrap();
    change.attributes_mut().unwrap().strength = 70;
    assert_eq!(change.attributes().unwrap().strength, 70);
    assert_eq!(change.attributes().unwrap().intelligence, 40);
    assert_eq!(change.skills().unwrap().armorer, 1);
    change.skills_mut().unwrap().speechcraft = 99;
    assert_eq!(change.skills().unwrap().speechcraft, 99);

    let record = change_record(35, 0, &[]);
    let mut change = ActorChange::read(&record).unwrap();
    assert!(change.attributes_mut().is_none());
    assert!(change.skills_mut().is_none());
}
