use tesutil::save::actorref::{ActorFlag, Property, ScriptVariable, ScriptVariableValue};

fn roundtrip(p: &Property) -> (Vec<u8>, Property) {
    let mut buf = vec![];
    p.write(&mut buf).unwrap();
    buf.extend_from_slice(&[0xde, 0xad]);
    let mut reader = buf.as_slice();
    let q = Property::read(&mut reader).unwrap();
    assert_eq!(reader, &[0xde, 0xad]);
    (buf, q)
}

#[test]
fn script_property_roundtrip() {
    let p = Property::Script {
        script: 0x0001_2345,
        variables: vec![
            ScriptVariable { index: 1, value: ScriptVariableValue::Number(2.5f64.to_bits()) },
            ScriptVariable { index: 2, value: ScriptVariableValue::Reference(0x14) },
        ],
        unknown: 9,
    };
    let (buf, q) = roundtrip(&p);
    // type, script, count, an index and number, an index and reference, the final byte
    assert_eq!(buf.len(), 1 + 4 + 2 + 12 + 8 + 1 + 2);
    match q {
        Property::Script { script, variables, unknown } => {
            assert_eq!(script, 0x0001_2345);
            assert_eq!(variables.len(), 2);
            assert_eq!(variables[0].value, ScriptVariableValue::Number(2.5f64.to_bits()));
            assert_eq!(variables[1], ScriptVariable { index: 2, value: ScriptVariableValue::Reference(0x14) });
            assert_eq!(unknown, 9);
        }
        other => panic!("unexpected property {:?}", other),
    }
}

#[test]
fn simple_properties_roundtrip() {
    let (buf, q) = roundtrip(&Property::Owner(7));
    assert_eq!(&buf[..5], &[0x27, 7, 0, 0, 0]);
    assert!(matches!(q, Property::Owner(7)));
    let (_, q) = roundtrip(&Property::ItemHealth(75.0f32.to_bits()));
    assert!(matches!(q, Property::ItemHealth(v) if f32::from_bits(v) == 75.0));
    let (_, q) = roundtrip(&Property::LeveledItem([1, 2, 3, 4, 5]));
    assert!(matches!(q, Property::LeveledItem([1, 2, 3, 4, 5])));
    let (_, q) = roundtrip(&Property::Unknown23(vec![10, 20, 30]));
    assert!(matches!(q, Property::Unknown23(ref v) if v == &vec![10, 20, 30]));
    let (_, q) = roundtrip(&Property::OblivionEntry { door: 1, x: 2, y: 3, z: 4 });
    assert!(matches!(q, Property::OblivionEntry { door: 1, x: 2, y: 3, z: 4 }));
    let (buf, q) = roundtrip(&Property::EquippedItem);
    assert_eq!(buf[0], 0x1b);
    assert!(matches!(q, Property::EquippedItem));
    let (_, q) = roundtrip(&Property::ShortcutKey(3));
    assert!(matches!(q, Property::ShortcutKey(3)));
    let (_, q) = roundtrip(&Property::AffectedItemCount(300));
    assert!(matches!(q, Property::AffectedItemCount(300)));
}

#[test]
fn unknown_or_short_properties_fail() {
    let mut reader: &[u8] = &[0x99];
    assert!(Property::read(&mut reader).is_err());
    let mut reader: &[u8] = &[0x27, 1, 2];
    assert!(Property::read(&mut reader).is_err());
    let mut reader: &[u8] = &[];
    assert!(Property::read(&mut reader).is_err());
    // a script variable of an unknown type
    let mut reader: &[u8] = &[0x12, 0, 0, 0, 0, 1, 0, 0, 0, 1, 0, 0, 0, 0, 0, 0];
    assert!(Property::read(&mut reader).is_err());
}

#[test]
fn too_many_values_fail_without_writing() {
    let p = Property::Unknown23(vec![0; 65536]);
    let mut buf = vec![1u8];
    assert!(p.write(&mut buf).is_err());
    assert_eq!(buf, vec![1u8]);
}

#[test]
fn script_variable_values() {
    let mut buf = vec![];
    ScriptVariableValue::Reference(0xff).write(&mut buf).unwrap();
    assert_eq!(buf, vec![0x00, 0xf0, 0xff, 0, 0, 0]);
    let mut reader = buf.as_slice();
    assert_eq!(ScriptVariableValue::read(&mut reader).unwrap(), ScriptVariableValue::Reference(0xff));
    let mut reader: &[u8] = &[0x01, 0x00, 0, 0, 0, 0];
    assert!(ScriptVariableValue::read(&mut reader).is_err());
}

#[test]
fn actor_flags() {
    assert_eq!(ActorFlag::try_from_u8(0xff), Some(ActorFlag::NoFlag));
    assert_eq!(ActorFlag::try_from_u8(2), Some(ActorFlag::MidLow));
    assert_eq!(ActorFlag::try_from_u8(4), None);
    assert_eq!(ActorFlag::Low.to_u8(), 3);
}
