use tesutil::tes3::actor::{Actor, ActorState, AiSettings, Destination};
use tesutil::tes3::creature::{Creature, CreatureType};
use tesutil::tes3::npc::Npc;
use tesutil::tes3::package::Package;
use tesutil::tes3::{Tes3Field, Tes3Record};
use tesutil::TesError;

fn padded(s: &str, n: usize) -> Vec<u8> {
    let mut v = s.as_bytes().to_vec();
    v.resize(n, 0);
    v
}

fn npco(count: u32, id: &str) -> Tes3Field {
    let mut data = count.to_le_bytes().to_vec();
    data.extend(padded(id, 32));
    Tes3Field::new(b"NPCO", data).unwrap()
}

fn zfield(name: &[u8; 4], s: &str) -> Tes3Field {
    let mut data = s.as_bytes().to_vec();
    data.push(0);
    Tes3Field::new(name, data).unwrap()
}

fn escort_field(name: &[u8; 4], x: f32, duration: u16, id: &str) -> Tes3Field {
    let mut data = x.to_bits().to_le_bytes().to_vec();
    data.extend_from_slice(&2.5f32.to_bits().to_le_bytes());
    data.extend_from_slice(&(-1.0f32).to_bits().to_le_bytes());
    data.extend_from_slice(&duration.to_le_bytes());
    data.extend(padded(id, 32));
    data.extend_from_slice(&[1, 0]);
    Tes3Field::new(name, data).unwrap()
}

#[test]
fn keyed_inventory_replaces_counts() {
    let mut state = ActorState::new(true);
    state.read_actor_state_field(&npco(3, "gold_001")).unwrap();
    state.read_actor_state_field(&npco(1, "iron dagger")).unwrap();
    state.read_actor_state_field(&npco(7, "gold_001")).unwrap();
    let inventory = state.iter_inventory();
    assert_eq!(inventory.len(), 2);
    assert_eq!(inventory[0], (String::from("gold_001"), 7));
    assert_eq!(inventory[1], (String::from("iron dagger"), 1));
}

#[test]
fn unkeyed_inventory_keeps_every_entry() {
    let mut state = ActorState::new(false);
    state.read_actor_state_field(&npco(3, "gold_001")).unwrap();
    state.read_actor_state_field(&npco(7, "gold_001")).unwrap();
    let inventory = state.iter_inventory();
    assert_eq!(inventory.len(), 2);
    assert_eq!(inventory[0].1, 3);
    assert_eq!(inventory[1].1, 7);
}

#[test]
fn packages_and_cells_are_read() {
    let mut state = ActorState::new(true);
    state.read_actor_state_field(&escort_field(b"AI_E", 1.5, 12, "fargoth")).unwrap();
    state.read_actor_state_field(&zfield(b"CNDT", "Seyda Neen")).unwrap();
    let mut travel = 4.0f32.to_bits().to_le_bytes().to_vec();
    travel.extend_from_slice(&[0; 8]);
    travel.extend_from_slice(&[1, 0]);
    state.read_actor_state_field(&Tes3Field::new(b"AI_T", travel).unwrap()).unwrap();
    let packages = state.iter_packages();
    assert_eq!(packages.len(), 2);
    match &packages[0] {
        Package::Escort { x, duration, id, cell, .. } => {
            assert_eq!(f32::from_bits(*x), 1.5);
            assert_eq!(*duration, 12);
            assert_eq!(id, "fargoth");
            assert_eq!(cell.as_deref(), Some("Seyda Neen"));
        }
        other => panic!("unexpected package {:?}", other),
    }
    match &packages[1] {
        Package::Travel { x, .. } => assert_eq!(f32::from_bits(*x), 4.0),
        other => panic!("unexpected package {:?}", other),
    }
}

#[test]
fn orphaned_and_unknown_state_fields_fail() {
    let mut state = ActorState::new(true);
    // a cell name with no package to take it
    assert!(state.read_actor_state_field(&zfield(b"CNDT", "Balmora")).is_err());
    // a travel package takes no cell name
    let mut travel = vec![0u8; 12];
    travel.extend_from_slice(&[1, 0]);
    state.read_actor_state_field(&Tes3Field::new(b"AI_T", travel).unwrap()).unwrap();
    assert!(state.read_actor_state_field(&zfield(b"CNDT", "Balmora")).is_err());
    assert!(state.read_actor_state_field(&zfield(b"XXXX", "what")).is_err());
    // a short inventory field
    assert!(state.read_actor_state_field(&Tes3Field::new(b"NPCO", vec![1, 0, 0, 0]).unwrap()).is_err());
    assert_eq!(state.iter_packages().len(), 1);
    assert!(state.iter_inventory().is_empty());
}

#[test]
fn written_inventory_and_packages_read_back() {
    let mut state = ActorState::new(true);
    state.add_item(String::from("pick_apprentice_01"), 2);
    state.add_item(String::from("probe_bent"), 5);
    state.add_package(Package::Activate(String::from("chest_small_01")));
    state.add_package(Package::Follow {
        x: 1.0f32.to_bits(),
        y: 2.0f32.to_bits(),
        z: 3.0f32.to_bits(),
        duration: 24,
        id: String::from("player"),
        cell: Some(String::from("Ald-ruhn")),
    });
    state.add_package(Package::Wander {
        distance: 512,
        duration: 5,
        time_of_day: 0,
        idles: [60, 20, 10, 0, 0, 0, 0, 0],
    });

    let mut record = Tes3Record::new(b"NPC_");
    state.write_inventory(&mut record).unwrap();
    state.write_packages(&mut record).unwrap();
    // two items, three packages and one cell name
    assert_eq!(record.fields().len(), 6);
    let fields = record.fields();
    assert_eq!(fields[0].name(), b"NPCO");
    assert_eq!(fields[0].get().len(), 36);
    assert_eq!(fields[2].name(), b"AI_A");
    assert_eq!(fields[2].get().len(), 33);
    assert_eq!(fields[3].name(), b"AI_F");
    assert_eq!(fields[3].get().len(), 48);
    assert_eq!(fields[4].name(), b"CNDT");
    assert_eq!(fields[4].get(), b"Ald-ruhn\0");
    assert_eq!(fields[5].name(), b"AI_W");
    assert_eq!(fields[5].get().len(), 14);

    let mut copy = ActorState::new(true);
    for field in record.fields() {
        copy.read_actor_state_field(field).unwrap();
    }
    assert_eq!(copy.iter_inventory(), state.iter_inventory());
    assert_eq!(copy.iter_packages().len(), 3);
    match &copy.iter_packages()[1] {
        Package::Follow { duration, id, cell, .. } => {
            assert_eq!(*duration, 24);
            assert_eq!(id, "player");
            assert_eq!(cell.as_deref(), Some("Ald-ruhn"));
        }
        other => panic!("unexpected package {:?}", other),
    }
    match &copy.iter_packages()[2] {
        Package::Wander { distance, idles, .. } => {
            assert_eq!(*distance, 512);
            assert_eq!(idles[0], 60);
        }
        other => panic!("unexpected package {:?}", other),
    }
}

#[test]
fn bad_package_cell_fails_after_earlier_packages() {
    let mut state = ActorState::new(true);
    state.add_package(Package::Travel { x: 0, y: 0, z: 0 });
    state.add_package(Package::Escort {
        x: 0,
        y: 0,
        z: 0,
        duration: 1,
        id: String::from("guard"),
        cell: Some(String::from("bad\0cell")),
    });
    let mut record = Tes3Record::new(b"NPC_");
    assert!(state.write_packages(&mut record).is_err());
    // the travel package and the escort package's own field were written
    assert_eq!(record.fields().len(), 2);
}

#[test]
fn actor_fields_are_read() {
    let mut actor = Actor::new(true);
    actor.read_actor_field(&zfield(b"MODL", "b\\B_N_Dark Elf_M_Head_01.nif")).unwrap();
    actor.read_actor_field(&zfield(b"FNAM", "Fargoth")).unwrap();
    actor.read_actor_field(&zfield(b"SCRI", "FargothScript")).unwrap();
    actor.read_actor_field(&Tes3Field::new(b"NPCS", padded("fireball", 32)).unwrap()).unwrap();
    let mut aidt = 30u16.to_le_bytes().to_vec();
    aidt.extend_from_slice(&[10, 20, 30, 1, 2, 3]);
    aidt.extend_from_slice(&0xfffc_0001u32.to_le_bytes());
    actor.read_actor_field(&Tes3Field::new(b"AIDT", aidt).unwrap()).unwrap();
    let mut dodt = vec![];
    for v in [1.0f32, 2.0, 3.0, 0.0, 0.0, 1.5] {
        dodt.extend_from_slice(&v.to_bits().to_le_bytes());
    }
    actor.read_actor_field(&Tes3Field::new(b"DODT", dodt).unwrap()).unwrap();
    actor.read_actor_field(&zfield(b"DNAM", "Vivec, Arena")).unwrap();
    actor.read_actor_field(&npco(1, "exquisite_shirt_01")).unwrap();

    assert_eq!(actor.name(), Some("Fargoth"));
    assert_eq!(actor.model(), Some("b\\B_N_Dark Elf_M_Head_01.nif"));
    assert_eq!(actor.script(), Some("FargothScript"));
    assert_eq!(actor.iter_spells(), &[String::from("fireball")]);
    let ai = actor.ai_settings();
    assert_eq!(ai.hello, 30);
    assert_eq!(ai.fight, 10);
    // the junk flag bits are masked out
    assert_eq!(ai.services, 0x0000_0001);
    let destinations = actor.iter_destinations();
    assert_eq!(destinations.len(), 1);
    assert_eq!(f32::from_bits(destinations[0].position.1), 2.0);
    assert_eq!(destinations[0].cell_name.as_deref(), Some("Vivec, Arena"));
    assert_eq!(actor.state().iter_inventory().len(), 1);

    // a second cell name for the same destination is refused
    assert!(actor.read_actor_field(&zfield(b"DNAM", "Balmora")).is_err());
}

#[test]
fn actor_scalar_fields_are_written() {
    let mut actor = Actor::new(true);
    actor.set_name(Some(String::from("Fargoth")));
    actor.set_ai_settings(AiSettings { hello: 5, fight: 1, flee: 2, alarm: 3, ai_unknown1: 0, ai_unknown2: 0, ai_unknown3: 0, services: 0x800 });
    let mut record = Tes3Record::new(b"NPC_");
    actor.write_scalar_fields(&mut record, &[b"MODL", b"FNAM", b"AIDT"]).unwrap();
    // no model, so no MODL field
    assert_eq!(record.fields().len(), 2);
    assert_eq!(record.fields()[0].get(), b"Fargoth\0");
    assert_eq!(record.fields()[1].get(), &[5, 0, 1, 2, 3, 0, 0, 0, 0, 8, 0, 0]);

    let mut record = Tes3Record::new(b"NPC_");
    match actor.write_scalar_fields(&mut record, &[b"FNAM", b"XYZW"]) {
        Err(TesError::RequirementFailed(_)) => {}
        other => panic!("unexpected result {:?}", other),
    }
    assert_eq!(record.fields().len(), 1);
}

#[test]
fn actor_spells_and_destinations_are_written() {
    let mut actor = Actor::new(false);
    actor.add_spell(String::from("shockball"));
    actor.add_destination(Destination {
        position: (1, 2, 3),
        rotation: (4, 5, 6),
        cell_name: Some(String::from("Ebonheart")),
    });
    actor.add_destination(Destination { position: (0, 0, 0), rotation: (0, 0, 0), cell_name: None });
    let mut record = Tes3Record::new(b"CREA");
    actor.write_spells(&mut record).unwrap();
    actor.write_destinations(&mut record).unwrap();
    assert_eq!(record.fields().len(), 4);
    assert_eq!(record.fields()[0].get(), padded("shockball", 32).as_slice());
    assert_eq!(record.fields()[1].name(), b"DODT");
    assert_eq!(&record.fields()[1].get()[..8], &[1, 0, 0, 0, 2, 0, 0, 0]);
    assert_eq!(record.fields()[2].get(), b"Ebonheart\0");

    let mut copy = Actor::new(false);
    for field in record.fields() {
        copy.read_actor_field(field).unwrap();
    }
    assert_eq!(copy.iter_spells(), actor.iter_spells());
    assert_eq!(copy.iter_destinations().len(), 2);
    assert_eq!(copy.iter_destinations()[0].rotation, (4, 5, 6));
    assert_eq!(copy.iter_destinations()[0].cell_name.as_deref(), Some("Ebonheart"));
    assert!(copy.iter_destinations()[1].cell_name.is_none());
}

fn npc_record(npdt: Vec<u8>) -> Tes3Record {
    let mut record = Tes3Record::new(b"NPC_");
    record.add_field(zfield(b"NAME", "fargoth"));
    record.add_field(zfield(b"FNAM", "Fargoth"));
    record.add_field(zfield(b"RNAM", "Wood Elf"));
    record.add_field(zfield(b"CNAM", "Commoner"));
    record.add_field(zfield(b"ANAM", ""));
    record.add_field(zfield(b"BNAM", "b_n_wood elf_m_head_02"));
    record.add_field(zfield(b"KNAM", "b_n_wood elf_m_hair_02"));
    record.add_field(Tes3Field::new(b"NPDT", npdt).unwrap());
    record.add_field(Tes3Field::new(b"FLAG", 0x18u32.to_le_bytes().to_vec()).unwrap());
    record.add_field(npco(2, "gold_001"));
    record
}

#[test]
fn npc_with_calculated_stats_is_read() {
    let mut npdt = 2u16.to_le_bytes().to_vec();
    npdt.extend_from_slice(&[50, 3, 1, 0xaa, 0xbb, 0xcc]);
    npdt.extend_from_slice(&25u32.to_le_bytes());
    let npc = Npc::read(&npc_record(npdt)).unwrap();
    assert_eq!(npc.id(), "fargoth");
    assert_eq!(npc.name(), Some("Fargoth"));
    assert_eq!(npc.race(), "Wood Elf");
    assert_eq!(npc.class(), "Commoner");
    assert_eq!(npc.level, 2);
    assert_eq!(npc.attributes, [0; 8]);
    assert!(!npc.is_female());
    assert_eq!(npc.actor().state().iter_inventory().len(), 1);
}

#[test]
fn npc_with_full_stats_is_read() {
    let mut npdt = 7u16.to_le_bytes().to_vec();
    npdt.extend((1..=8).collect::<Vec<u8>>());
    npdt.extend((10..37).collect::<Vec<u8>>());
    npdt.extend_from_slice(&[0; 15]);
    assert_eq!(npdt.len(), 52);
    let npc = Npc::read(&npc_record(npdt)).unwrap();
    assert_eq!(npc.level, 7);
    assert_eq!(npc.attributes, [1, 2, 3, 4, 5, 6, 7, 8]);
    assert_eq!(npc.skills[0], 10);
    assert_eq!(npc.skills[26], 36);
}

#[test]
fn npc_with_bad_data_fails() {
    assert!(Npc::read(&npc_record(vec![0; 20])).is_err());
    let mut record = npc_record(vec![0; 12]);
    record.add_field(Tes3Field::new(b"FLAG", 0x20u32.to_le_bytes().to_vec()).unwrap());
    assert!(Npc::read(&record).is_err());
    assert!(Npc::read(&Tes3Record::new(b"CREA")).is_err());
}

#[test]
fn npc_setters() {
    let mut npc = Npc::read(&npc_record(vec![0; 12])).unwrap();
    npc.set_is_female(true);
    assert!(npc.is_female());
    npc.set_is_female(false);
    assert!(!npc.is_female());
    npc.set_name(String::from("Fargoth the Lesser")).unwrap();
    assert_eq!(npc.name(), Some("Fargoth the Lesser"));
    npc.set_race(String::from("Dark Elf")).unwrap();
    assert_eq!(npc.race(), "Dark Elf");
    npc.set_class(String::from("Thief")).unwrap();
    assert_eq!(npc.class(), "Thief");
    assert!(npc.spells().is_empty());
}

fn crea_data(creature_type: u32) -> Vec<u8> {
    let mut data = vec![];
    for k in 0..24u32 {
        let v = if k == 0 { creature_type } else { k * 10 };
        data.extend_from_slice(&v.to_le_bytes());
    }
    data
}

#[test]
fn creature_is_read() {
    let mut record = Tes3Record::new(b"CREA");
    record.add_field(zfield(b"NAME", "atronach_flame"));
    record.add_field(zfield(b"MODL", "r\\AtronachFire.NIF"));
    record.add_field(zfield(b"FNAM", "Flame Atronach"));
    record.add_field(Tes3Field::new(b"NPDT", crea_data(1)).unwrap());
    record.add_field(Tes3Field::new(b"FLAG", 0x48u32.to_le_bytes().to_vec()).unwrap());
    record.add_field(Tes3Field::new(b"XSCL", 1.25f32.to_bits().to_le_bytes().to_vec()).unwrap());
    record.add_field(Tes3Field::new(b"NPCS", padded("immune to normal weapons", 32)).unwrap());
    record.add_field(npco(1, "ingred_fire_salts_01"));
    record.add_field(npco(1, "ingred_fire_salts_01"));
    let creature = Creature::read(&record).unwrap();
    assert_eq!(creature.id(), "atronach_flame");
    assert_eq!(creature.name(), Some("Flame Atronach"));
    assert!(creature.sound_gen_creature().is_none());
    assert_eq!(creature.data().creature_type, CreatureType::Daedra);
    assert_eq!(creature.data().fatigue, 120);
    assert_eq!(creature.data().gold, 230);
    assert_eq!(f32::from_bits(creature.scale_bits().unwrap()), 1.25);
    assert!(creature.actor().iter_spells().iter().any(|s| s == "immune to normal weapons"));
    // creatures keep an entry per item field
    assert_eq!(creature.actor().state().iter_inventory().len(), 2);
}

#[test]
fn creature_without_model_has_empty_model() {
    let mut record = Tes3Record::new(b"CREA");
    record.add_field(zfield(b"NAME", "rat"));
    let creature = Creature::read(&record).unwrap();
    assert_eq!(creature.model(), Some(""));
}

#[test]
fn creature_with_bad_type_fails() {
    let mut record = Tes3Record::new(b"CREA");
    record.add_field(Tes3Field::new(b"NPDT", crea_data(4)).unwrap());
    assert!(Creature::read(&record).is_err());
    let mut record = Tes3Record::new(b"CREA");
    record.add_field(Tes3Field::new(b"NPDT", vec![0; 95]).unwrap());
    assert!(Creature::read(&record).is_err());
}
