use tesutil::tes4::group::GroupKind;
use tesutil::tes4::{
    attribute_from_actor_value, ActorValue, EffectInfo, FindForm, FormId, Skill, SpellEffect,
};
use tesutil::{Attribute, EffectRange, MagicSchool, Specialization, TesError};

fn fire_damage() -> EffectInfo {
    EffectInfo {
        id: u32::from_le_bytes(*b"FIDG"),
        has_magnitude: true,
        has_area: true,
        has_duration: true,
        allows_self: false,
        allows_touch: true,
        allows_target: true,
        default_actor_value: ActorValue::Health,
    }
}

fn dispel() -> EffectInfo {
    EffectInfo {
        id: u32::from_le_bytes(*b"DSPL"),
        has_magnitude: true,
        has_area: false,
        has_duration: false,
        allows_self: true,
        allows_touch: true,
        allows_target: true,
        default_actor_value: ActorValue::Strength,
    }
}

#[test]
fn form_id_index() {
    let mut id = FormId(0x01abcdef);
    assert_eq!(id.index(), 1);
    id.set_index(0x22);
    assert_eq!(id, FormId(0x22abcdef));
    assert_eq!(id.index(), 0x22);
}

#[test]
fn find_form_by_master() {
    let plugins = ["Oblivion.esm", "mod.esp"];
    let f = FindForm::ByMaster(Some("mod.esp"), 0x123);
    assert_eq!(f.form_id(&plugins), Some(FormId(0x01000123)));
    let f = FindForm::ByMaster(None, 0x123);
    assert_eq!(f.form_id(&plugins), Some(FormId(0x02000123)));
    let f = FindForm::ByMaster(Some("missing.esp"), 0x123);
    assert_eq!(f.form_id(&plugins), None);
    let f = FindForm::ByIndex(FormId(7));
    assert_eq!(f.form_id(&plugins), Some(FormId(7)));
    match FindForm::ByMaster(None, 5).err() {
        TesError::InvalidPluginForm { plugin, form_id } => {
            assert_eq!(plugin, "<none>");
            assert_eq!(form_id, FormId(5));
        }
        _ => panic!("wrong error"),
    }
}

#[test]
fn find_form_index_ff_is_reserved() {
    let names: Vec<String> = (0..255).map(|i| format!("p{}.esp", i)).collect();
    let plugins: Vec<&str> = names.iter().map(|s| s.as_str()).collect();
    let f = FindForm::ByMaster(None, 1);
    assert_eq!(f.form_id(&plugins), None);
}

#[test]
fn skills_and_actor_values() {
    assert_eq!(Skill::Blade.specialization(), Specialization::Combat);
    assert_eq!(Skill::Sneak.specialization(), Specialization::Stealth);
    assert_eq!(Skill::Alchemy.specialization(), Specialization::Magic);
    let av: ActorValue = Skill::Security.into();
    assert_eq!(av, ActorValue::Security);
    assert_eq!(Skill::try_from_actor_value(av).unwrap(), Skill::Security);
    assert!(Skill::try_from_actor_value(ActorValue::Fame).is_err());
    let av: ActorValue = Attribute::Luck.into();
    assert_eq!(av, ActorValue::Luck);
    assert_eq!(attribute_from_actor_value(av).unwrap(), Attribute::Luck);
    assert!(attribute_from_actor_value(ActorValue::Health).is_err());
}

#[test]
fn spell_effect_limits() {
    let mut effect = SpellEffect::new(fire_damage());
    assert_eq!(effect.range(), EffectRange::Touch);
    assert_eq!(effect.actor_value(), ActorValue::Health);
    effect.set_magnitude(10).unwrap();
    assert_eq!(effect.magnitude(), 10);
    effect.set_area(5).unwrap();
    assert!(effect.set_range(EffectRange::Self_).is_err());
    effect.set_range(EffectRange::Target).unwrap();
    assert_eq!(effect.area(), 5);

    let mut effect = SpellEffect::new(dispel());
    assert_eq!(effect.range(), EffectRange::Self_);
    assert!(effect.set_area(2).is_err());
    effect.set_duration(1).unwrap();
    assert_eq!(effect.duration(), 0);
    assert!(effect.set_duration(2).is_err());
    effect.set_range(EffectRange::Target).unwrap();
    assert!(effect.set_area(2).is_err());
    effect.set_area(1).unwrap();
    assert_eq!(effect.area(), 1);
}

#[test]
fn spell_effect_load_fields() {
    let table = [fire_damage(), dispel()];
    let mut effect = SpellEffect::new(fire_damage());
    effect.load_from_field(b"EFID", b"DSPL", &table).unwrap();
    assert_eq!(effect.effect_type(), dispel());
    let mut efit = vec![];
    for w in [u32::from_le_bytes(*b"FIDG"), 20, 3, 4, 2, 8] {
        efit.extend_from_slice(&w.to_le_bytes());
    }
    effect.load_from_field(b"EFIT", &efit, &table).unwrap();
    assert_eq!(effect.effect_type(), fire_damage());
    assert_eq!(effect.magnitude(), 20);
    assert_eq!(effect.area(), 3);
    assert_eq!(effect.duration(), 4);
    assert_eq!(effect.range(), EffectRange::Target);
    assert_eq!(effect.actor_value(), ActorValue::Health);
    assert!(effect.load_from_field(b"FULL", b"name\0", &table).is_err());
    let mut scit = vec![];
    for w in [0x00001234u32, 2, 0, 1] {
        scit.extend_from_slice(&w.to_le_bytes());
    }
    effect.load_from_field(b"SCIT", &scit, &table).unwrap();
    effect.load_from_field(b"FULL", b"name\0", &table).unwrap();
    assert!(effect.load_from_field(b"EFID", b"XXXX", &table).is_err());
    assert!(effect.load_from_field(b"ABCD", b"", &table).is_err());
    let _ = MagicSchool::Destruction;
}

#[test]
fn group_kind_roundtrip() {
    let kinds = [
        GroupKind::Top(*b"NPC_"),
        GroupKind::WorldChildren(7),
        GroupKind::ExteriorCellBlock(-3, 4),
        GroupKind::CellVisibleDistantChildren(9),
    ];
    for kind in kinds.iter() {
        let mut buf = vec![];
        kind.write(&mut buf).unwrap();
        assert_eq!(buf.len(), 8);
        let back = GroupKind::read(&mut buf.as_slice()).unwrap();
        assert_eq!(format!("{:?}", back), format!("{:?}", kind));
    }
    let bad = [0u8, 0, 0, 0, 11, 0, 0, 0];
    assert!(matches!(GroupKind::read(&mut bad.as_ref()), Err(TesError::DecodeFailed { .. })));
    let short = [0u8, 0, 0];
    assert!(matches!(GroupKind::read(&mut short.as_ref()), Err(TesError::UnexpectedEof)));
    let mut buf = vec![];
    GroupKind::ExteriorCellSubBlock(-1, 2).write(&mut buf).unwrap();
    assert_eq!(buf, [0xff, 0xff, 2, 0, 5, 0, 0, 0]);
}

#[test]
fn spell_effect_limit_errors() {
    let mut effect = SpellEffect::new(dispel());
    match effect.set_duration(7) {
        Err(TesError::LimitExceeded { max_size, actual_size, .. }) => {
            assert_eq!(max_size, 0);
            assert_eq!(actual_size, 7);
        }
        other => panic!("unexpected result {:?}", other),
    }
    match effect.set_area(9) {
        Err(TesError::LimitExceeded { max_size, actual_size, .. }) => {
            assert_eq!(max_size, 0);
            assert_eq!(actual_size, 9);
        }
        other => panic!("unexpected result {:?}", other),
    }
    // the effect type stays whatever the setters do
    assert_eq!(effect.effect_type(), dispel());
}

#[test]
fn spell_effect_to_fields_load_back() {
    let table = [fire_damage(), dispel()];
    let mut effect = SpellEffect::new(fire_damage());
    effect.set_magnitude(20).unwrap();
    effect.set_range(EffectRange::Target).unwrap();
    effect.set_area(3).unwrap();
    effect.set_duration(4).unwrap();
    let fields = effect.to_fields().unwrap();
    assert_eq!(fields.len(), 2);
    assert_eq!(fields[0].name(), b"EFID");
    assert_eq!(fields[0].get(), b"FIDG");
    assert_eq!(fields[1].name(), b"EFIT");
    assert_eq!(fields[1].get().len(), 24);
    assert_eq!(&fields[1].get()[4..8], &20u32.to_le_bytes());

    let mut copy = SpellEffect::new(dispel());
    for field in fields.iter() {
        copy.load_from_field(field.name(), field.get(), &table).unwrap();
    }
    assert_eq!(copy.effect_type(), fire_damage());
    assert_eq!(copy.magnitude(), 20);
    assert_eq!(copy.area(), 3);
    assert_eq!(copy.duration(), 4);
    assert_eq!(copy.range(), EffectRange::Target);

    let mut scit = vec![];
    for w in [0x00001234u32, 2, u32::from_le_bytes(*b"DSPL"), 1] {
        scit.extend_from_slice(&w.to_le_bytes());
    }
    copy.load_from_field(b"SCIT", &scit, &table).unwrap();
    copy.load_from_field(b"FULL", b"name\0", &table).unwrap();
    let fields = copy.to_fields().unwrap();
    assert_eq!(fields.len(), 4);
    assert_eq!(fields[2].name(), b"SCIT");
    assert_eq!(fields[2].get(), scit.as_slice());
    assert_eq!(fields[3].name(), b"FULL");
    assert_eq!(fields[3].get(), b"name\0");
}
