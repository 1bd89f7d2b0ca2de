use tesutil::tes3::{PlayerData, Tes3Field, Tes3Record};

#[test]
fn player_data_read() {
    let mut record = Tes3Record::new(b"PCDT");
    record.add_field(Tes3Field::new(b"DNAM", b"latest rumors\0".to_vec()).unwrap());
    record.add_field(Tes3Field::new(b"BNAM", b"The Lady\0".to_vec()).unwrap());
    let mut pnam = vec![0u8; 212];
    pnam[4..8].copy_from_slice(&7u32.to_le_bytes());
    pnam[116] = 3;
    pnam[208] = 2;
    record.add_field(Tes3Field::new(b"PNAM", pnam).unwrap());
    let mut fnam = vec![0u8; 44];
    fnam[0..4].copy_from_slice(&4u32.to_le_bytes());
    fnam[12..23].copy_from_slice(b"Fighters Gu");
    record.add_field(Tes3Field::new(b"FNAM", fnam).unwrap());
    let player = PlayerData::read(&record).unwrap();
    assert_eq!(player.birthsign(), Some("The Lady"));
    assert_eq!(player.level_progress, 7);
    assert_eq!(player.attribute_progress[0], 3);
    assert_eq!(player.spec_increases[0], 2);
}

#[test]
fn player_data_rejects_unknown_field() {
    let mut record = Tes3Record::new(b"PCDT");
    record.add_field(Tes3Field::new(b"XXXX", vec![]).unwrap());
    assert!(PlayerData::read(&record).is_err());
    let mut record = Tes3Record::new(b"PCDT");
    record.add_field(Tes3Field::new(b"PNAM", vec![0; 100]).unwrap());
    assert!(PlayerData::read(&record).is_err());
}
