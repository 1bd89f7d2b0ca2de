use tesutil::tes3::plugin::{VERSION_1_3, AUTHOR_LENGTH};
use tesutil::tes3::{Plugin, Tes3Field, Tes3Record};
use tesutil::TesError;

fn sample_plugin() -> Plugin {
    let mut plugin = Plugin::new(
        String::from("test"),
        String::from("This is an empty test plugin"),
    )
    .unwrap();
    plugin.is_master = true;
    plugin.add_master(String::from("Morrowind.esm"), 79837557).unwrap();
    let mut test_record = Tes3Record::new(b"GMST");
    test_record.add_field(Tes3Field::new_string(b"NAME", String::from("iDispKilling")).unwrap());
    test_record.add_field(Tes3Field::new_i32(b"INTV", -50));
    plugin.add_record(test_record).unwrap();
    plugin
}

#[test]
fn plugin_write_then_read() {
    let plugin = sample_plugin();
    let mut buf = vec![];
    plugin.write(&mut buf).unwrap();
    assert_eq!(&buf[0..4], b"TES3");
    let back = Plugin::read(&mut buf.as_slice()).unwrap();
    assert_eq!(back.version(), VERSION_1_3);
    assert!(back.is_master);
    assert_eq!(back.author(), "test");
    assert_eq!(back.description(), "This is an empty test plugin");
    assert_eq!(back.masters().len(), 1);
    assert_eq!(back.masters()[0].0, "Morrowind.esm");
    assert_eq!(back.masters()[0].1, 79837557);
    assert_eq!(back.records().len(), 1);
    let record = back.get_record("iDispKilling").unwrap().unwrap();
    assert_eq!(record.name(), b"GMST");
    assert_eq!(record.len(), 2);
}

#[test]
fn plugin_header_layout() {
    let plugin = sample_plugin();
    let mut buf = vec![];
    plugin.write(&mut buf).unwrap();
    // header record: 16 bytes, then the HEDR field header and 300 bytes of data
    assert_eq!(&buf[16..20], b"HEDR");
    assert_eq!(&buf[20..24], &300u32.to_le_bytes());
    assert_eq!(&buf[24..28], &VERSION_1_3.to_le_bytes());
    assert_eq!(&buf[28..32], &1u32.to_le_bytes());
    assert_eq!(&buf[32..36], b"test");
    assert_eq!(buf[36], 0);
    // record count
    assert_eq!(&buf[320..324], &1u32.to_le_bytes());
    assert_eq!(&buf[324..328], b"MAST");
}

#[test]
fn plugin_author_too_long() {
    let long = "a".repeat(AUTHOR_LENGTH + 1);
    match Plugin::new(long, String::new()) {
        Err(TesError::LimitExceeded { max_size, .. }) => assert_eq!(max_size, AUTHOR_LENGTH),
        _ => panic!("expected a size error"),
    }
}

#[test]
fn plugin_duplicate_master() {
    let mut plugin = sample_plugin();
    match plugin.add_master(String::from("MORROWIND.ESM"), 1) {
        Err(TesError::DuplicateMaster(_)) => {}
        _ => panic!("expected a duplicate master error"),
    }
    assert_eq!(plugin.masters().len(), 1);
}

#[test]
fn plugin_read_rejects_other_header() {
    let mut record = Tes3Record::new(b"GMST");
    record.add_field(Tes3Field::new(b"HEDR", vec![0; 300]).unwrap());
    let mut buf = vec![];
    record.write(&mut buf).unwrap();
    assert!(Plugin::read(&mut buf.as_slice()).is_err());
}

#[test]
fn plugin_duplicate_id_is_refused() {
    let mut plugin = sample_plugin();
    let mut other = Tes3Record::new(b"WEAP");
    other.add_field(Tes3Field::new_string(b"NAME", String::from("iDispKilling")).unwrap());
    match plugin.add_record(other) {
        Err(TesError::DuplicateId(id)) => assert_eq!(id, "iDispKilling"),
        _ => panic!("expected a duplicate ID error"),
    }
    assert_eq!(plugin.records().len(), 1);
    // records without an ID are never duplicates
    plugin.add_record(Tes3Record::new(b"CELL")).unwrap();
    plugin.add_record(Tes3Record::new(b"CELL")).unwrap();
    assert_eq!(plugin.records().len(), 3);
}

#[test]
fn plugin_get_record_of_two_types_fails() {
    // a plugin read from bytes can hold one ID under two types
    let mut buf = vec![];
    sample_plugin().write(&mut buf).unwrap();
    let mut other = Tes3Record::new(b"WEAP");
    other.add_field(Tes3Field::new_string(b"NAME", String::from("iDispKilling")).unwrap());
    other.write(&mut buf).unwrap();
    let plugin = Plugin::read(&mut buf.as_slice()).unwrap();
    assert!(plugin.get_record("iDispKilling").is_err());
    assert!(plugin.get_record_with_type("iDispKilling", b"WEAP").is_some());
    assert_eq!(plugin.get_records_by_type(b"GMST").len(), 1);
    assert!(plugin.get_record("nothing").unwrap().is_none());
}

#[test]
fn plugin_master_with_nul_cannot_be_written() {
    let mut plugin = sample_plugin();
    plugin.add_master(String::from("bad\0name"), 1).unwrap();
    let mut buf = vec![];
    assert!(plugin.write(&mut buf).is_err());
}
