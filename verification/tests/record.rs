use tesutil::plugin::record::Field;
use tesutil::tes3::{Tes3Field, Tes3Record};

#[test]
fn record_create_field() {
    Field::new(b"NAME", vec![]);
}

#[test]
fn record_read_field() {
    let data = b"NAME\x09\0\0\0GameHour\0";
    let field = Field::read(&mut data.as_ref()).unwrap();
    assert_eq!(field.name(), *b"NAME");
    assert_eq!(field.get(), b"GameHour\0");
    assert_eq!(field.size(), data.len());
}

#[test]
fn record_read_field_empty() {
    let data = b"";
    if Field::read(&mut data.as_ref()).is_ok() {
        panic!("Read of empty field succeeded");
    }
}

#[test]
fn record_read_field_invalid_len() {
    let data = b"NAME\x0f\0\0\0GameHour\0";
    if Field::read(&mut data.as_ref()).is_ok() {
        panic!("Read of field with invalid length succeeded");
    }
}

#[test]
fn record_write_field() {
    let field = Field::new(b"NAME", b"PCHasCrimeGold\0".to_vec());
    let mut buf = vec![];
    field.write(&mut buf).unwrap();
    assert_eq!(buf, *b"NAME\x0f\0\0\0PCHasCrimeGold\0");
}

#[test]
fn record_read_zstring_field() {
    let data = b"NAME\x09\0\0\0GameHour\0";
    let field = Field::read(&mut data.as_ref()).unwrap();
    let s = field.get_zstring().unwrap();
    assert_eq!(s, "GameHour");
}

#[test]
fn record_read_string_field() {
    let data = b"BNAM\x15\0\0\0shield_nordic_leather";
    let field = Field::read(&mut data.as_ref()).unwrap();
    let s = field.get_string().unwrap();
    assert_eq!(s, "shield_nordic_leather");
}

#[test]
fn record_read_raw_field() {
    let data = b"ALDT\x0c\0\0\0\0\0\xa0\x40\x0a\0\0\0\0\0\0\0";
    let field = Field::read(&mut data.as_ref()).unwrap();
    let d = field.get();
    assert_eq!(d, *b"\0\0\xa0\x40\x0a\0\0\0\0\0\0\0");
}

#[test]
fn record_read_numeric_field() {
    let data = b"DATA\x08\0\0\0\x75\x39\xc2\x04\0\0\0\0";
    let field = Field::read(&mut data.as_ref()).unwrap();
    let v = field.get_u64().unwrap();
    assert_eq!(v, 0x4c23975u64);
}

#[test]
fn record_set_zstring_field() {
    let mut field = Field::new(b"NAME", vec![]);
    field.set_zstring(String::from("sWerewolfRefusal")).unwrap();
    assert_eq!(field.get(), *b"sWerewolfRefusal\0");
}

#[test]
fn record_set_string_field() {
    let mut field = Field::new(b"BNAM", vec![]);
    field.set_string(String::from("a_steel_helmet"));
    assert_eq!(field.get(), *b"a_steel_helmet");
}

#[test]
fn record_set_raw_field() {
    let mut field = Field::new(b"ALDT", vec![]);
    field.set(b"\0\0\xa0\x40\x0a\0\0\0\0\0\0\0".to_vec());
    assert_eq!(field.get(), *b"\0\0\xa0\x40\x0a\0\0\0\0\0\0\0");
}

#[test]
fn record_set_numeric_field() {
    let mut field = Field::new(b"XSCL", vec![]);
    field.set_f32_bits(0.75f32.to_bits());
    assert_eq!(field.get(), *b"\0\0\x40\x3f");
}

#[test]
fn record_read_record() {
    let data = b"GLOB\x27\0\0\0\0\0\0\0\0\0\0\0NAME\x0a\0\0\0TimeScale\0FNAM\x01\0\0\0fFLTV\x04\0\0\0\0\0\x20\x41".to_vec();
    let record = Tes3Record::read(&mut data.as_slice()).unwrap();
    assert_eq!(record.name(), b"GLOB");
    assert!(!record.is_deleted);
    assert!(!record.is_persistent);
    assert!(!record.is_initially_disabled);
    assert!(!record.is_blocked);
    assert_eq!(record.len(), 3);
}

#[test]
fn record_read_deleted_record() {
    let data = b"DIAL\x2b\0\0\0\0\0\0\0\x20\0\0\0NAME\x0b\0\0\0Berel Sala\0DATA\x04\0\0\0\0\0\0\0DELE\x04\0\0\0\0\0\0\0".to_vec();
    let len = data.len();
    let record = Tes3Record::read(&mut data.as_slice()).unwrap();
    assert!(record.is_deleted);
    assert_eq!(record.size(), len);
}

#[test]
fn record_write_record() {
    let mut record = Tes3Record::new(b"DIAL");
    record.is_deleted = true;
    record.add_field(Tes3Field::new(b"NAME", b"Berel Sala\0".to_vec()).unwrap());
    record.add_field(Tes3Field::new(b"DATA", vec![0; 4]).unwrap());

    let mut buf = vec![];
    record.write(&mut buf).unwrap();
    assert_eq!(buf, b"DIAL\x2b\0\0\0\0\0\0\0\x20\0\0\0NAME\x0b\0\0\0Berel Sala\0DATA\x04\0\0\0\0\0\0\0DELE\x04\0\0\0\0\0\0\0".to_vec());
}

#[test]
fn old_field_display_name_and_consume() {
    let field = Field::new(b"NA\xffE", vec![1, 2]);
    assert_eq!(field.display_name(), "<invalid>");
    assert_eq!(Field::new(b"NAME", vec![]).display_name(), "NAME");
    assert_eq!(field.consume(), vec![1, 2]);
}

#[test]
fn old_field_numeric_sizes() {
    let field = Field::new(b"DATA", vec![1, 0, 0]);
    assert_eq!(field.get_u32(), None);
    assert_eq!(field.get_u16(), None);
    let field = Field::new_i16(b"DATA", -2);
    assert_eq!(field.get(), [0xfe, 0xff]);
    assert_eq!(field.get_i16(), Some(-2));
    assert_eq!(field.get_u16(), Some(0xfffe));
}

#[test]
fn old_field_zstring_with_nul_is_refused() {
    assert!(Field::new_zstring(b"NAME", String::from("a\0b")).is_err());
    let f = Field::new_zstring(b"NAME", String::from("ab")).unwrap();
    assert_eq!(f.get(), b"ab\0");
    assert!(Field::new(b"NAME", b"ab".to_vec()).get_zstring().is_err());
}

#[test]
fn old_field_invalid_utf8() {
    let field = Field::new(b"NAME", vec![0xff, 0xfe]);
    assert!(field.get_string().is_err());
}

#[test]
fn record_length_counts_added_fields() {
    let mut record = Tes3Record::new(b"MISC");
    assert!(record.is_empty());
    for k in 0..3 {
        record.add_field(Tes3Field::new_i32(b"INTV", k));
    }
    assert_eq!(record.len(), 3);
    assert!(!record.is_empty());
    // a deletion marker is not kept as a field
    record.add_field(Tes3Field::new(b"DELE", vec![0; 4]).unwrap());
    assert_eq!(record.len(), 3);
}

#[test]
fn generic_field_size_is_bytes_written() {
    let field = Field::new(b"NAME", b"abc".to_vec());
    let mut buf = vec![];
    field.write(&mut buf).unwrap();
    assert_eq!(buf.len(), field.size());
    let back = Field::read(&mut buf.as_slice()).unwrap();
    assert_eq!(back.name(), field.name());
    assert_eq!(back.get(), field.get());
}
