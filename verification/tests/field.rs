use tesutil::tes3::Tes3Field;

#[test]
fn field_create_field() {
    Tes3Field::new(b"NAME", vec![]).unwrap();
}

#[test]
fn field_read_field() {
    let data = b"NAME\x09\0\0\0GameHour\0";
    let field = Tes3Field::read(&mut data.as_ref()).unwrap();
    assert_eq!(field.name(), *b"NAME");
    assert_eq!(field.get(), b"GameHour\0");
    assert_eq!(field.size(), data.len());
}

#[test]
fn field_read_field_empty() {
    let data = b"";
    if Tes3Field::read(&mut data.as_ref()).is_ok() {
        panic!("Read of empty field succeeded");
    }
}

#[test]
fn field_read_field_invalid_len() {
    let data = b"NAME\x0f\0\0\0GameHour\0";
    if Tes3Field::read(&mut data.as_ref()).is_ok() {
        panic!("Read of field with invalid length succeeded");
    }
}

#[test]
fn field_write_field() {
    let field = Tes3Field::new(b"NAME", b"PCHasCrimeGold\0".to_vec()).unwrap();
    let mut buf = vec![];
    field.write(&mut buf);
    assert_eq!(buf, *b"NAME\x0f\0\0\0PCHasCrimeGold\0");
}

#[test]
fn field_read_zstring_field() {
    let data = b"NAME\x09\0\0\0GameHour\0";
    let field = Tes3Field::read(&mut data.as_ref()).unwrap();
    let s = field.get_zstring().unwrap();
    assert_eq!(s, "GameHour");
}

#[test]
fn field_read_string_field() {
    let data = b"BNAM\x15\0\0\0shield_nordic_leather";
    let field = Tes3Field::read(&mut data.as_ref()).unwrap();
    let s = field.get_string().unwrap();
    assert_eq!(s, "shield_nordic_leather");
}

#[test]
fn field_read_raw_field() {
    let data = b"ALDT\x0c\0\0\0\0\0\xa0\x40\x0a\0\0\0\0\0\0\0";
    let field = Tes3Field::read(&mut data.as_ref()).unwrap();
    let d = field.get();
    assert_eq!(d, *b"\0\0\xa0\x40\x0a\0\0\0\0\0\0\0");
}

#[test]
fn field_read_numeric_field() {
    let data = b"DATA\x08\0\0\0\x75\x39\xc2\x04\0\0\0\0";
    let field = Tes3Field::read(&mut data.as_ref()).unwrap();
    let v = field.get_u64().unwrap();
    assert_eq!(v, 0x4c23975u64);
}

#[test]
fn field_set_zstring_field() {
    let mut field = Tes3Field::new(b"NAME", vec![]).unwrap();
    field.set_zstring(String::from("sWerewolfRefusal")).unwrap();
    assert_eq!(field.get(), *b"sWerewolfRefusal\0");
}

#[test]
fn field_set_string_field() {
    let mut field = Tes3Field::new(b"BNAM", vec![]).unwrap();
    field.set_string(String::from("a_steel_helmet")).unwrap();
    assert_eq!(field.get(), *b"a_steel_helmet");
}

#[test]
fn field_set_raw_field() {
    let mut field = Tes3Field::new(b"ALDT", vec![]).unwrap();
    field
        .set(b"\0\0\xa0\x40\x0a\0\0\0\0\0\0\0".to_vec())
        .unwrap();
    assert_eq!(field.get(), *b"\0\0\xa0\x40\x0a\0\0\0\0\0\0\0");
}

#[test]
fn field_set_numeric_field() {
    let mut field = Tes3Field::new(b"XSCL", vec![]).unwrap();
    field.set_f32_bits(0.75f32.to_bits());
    assert_eq!(field.get(), *b"\0\0\x40\x3f");
}

#[test]
fn field_numbers_roundtrip() {
    let field = Tes3Field::new_i32(b"INTV", -50);
    assert_eq!(field.get(), [0xce, 0xff, 0xff, 0xff]);
    assert_eq!(field.get_i32().unwrap(), -50);
    assert!(field.get_u16().is_err());
    let field = Tes3Field::new_u16(b"DATA", 0x1234);
    assert_eq!(field.get(), [0x34, 0x12]);
}

#[test]
fn field_write_read_back() {
    let field = Tes3Field::new_string(b"NAME", String::from("abc")).unwrap();
    let mut buf = vec![];
    field.write(&mut buf);
    buf.extend_from_slice(b"rest");
    let mut reader: &[u8] = &buf;
    let back = Tes3Field::read(&mut reader).unwrap();
    assert_eq!(back.name(), b"NAME");
    assert_eq!(back.get(), b"abc");
    assert_eq!(reader, b"rest");
}
