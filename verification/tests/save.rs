use tesutil::save::{ChangeRecord, ChangeType};

#[test]
fn change_record_read_then_write() {
    let mut bytes = vec![];
    bytes.extend_from_slice(&0x0001abcdu32.to_le_bytes());
    bytes.push(35);
    bytes.extend_from_slice(&0x11u32.to_le_bytes());
    bytes.push(2);
    bytes.extend_from_slice(&3u16.to_le_bytes());
    bytes.extend_from_slice(&[1, 2, 3]);
    bytes.extend_from_slice(b"tail");
    let mut reader: &[u8] = &bytes;
    let (record, size) = ChangeRecord::read(&mut reader).unwrap();
    assert_eq!(size, 15);
    assert_eq!(reader, b"tail");
    let mut out = vec![];
    record.write(&mut out).unwrap();
    assert_eq!(out, &bytes[..15]);
}

#[test]
fn change_record_unknown_type() {
    let bytes = [0u8, 0, 0, 0, 7, 0, 0, 0, 0, 0, 0, 0];
    assert!(ChangeRecord::read(&mut bytes.as_ref()).is_err());
    let bytes = [0u8, 0, 0, 0, 35, 0, 0, 0, 0, 0, 5, 0];
    assert!(ChangeRecord::read(&mut bytes.as_ref()).is_err());
    assert_eq!(ChangeType::Npc.to_u8(), 35);
    assert!(ChangeType::try_from_u8(7).is_none());
}
