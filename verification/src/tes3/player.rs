//! The player's own data in Morrowind saves.

use vstd::prelude::*;
use vstd::utf8::{decode_utf8, valid_utf8};

use crate::bytes::{le_value, read_u32_at};
use crate::error::{decode_failed, TesError};
use crate::plugin::{FieldModel, RecordStatus};
use crate::strings::{read_string_dyn, until_nul};
use crate::tags::{
    slice_is_tag, AADT, ANIS, BNAM, CNAM, DNAM, ENAM, FNAM, KNAM, LNAM, MNAM, NAM0, NAM1, NAM2,
    NAM3, NAM9, PCDT, PNAM, RNAM, SNAM, WERE,
};
use crate::tes3::field::Tes3Field;
use crate::tes3::form::{
    check_record_type, field_zstring, fold_fields, lemma_fold_none, lemma_fold_step, string_value,
    word, word_at, zstring_value,
};
use crate::tes3::record::Tes3Record;

verus! {

/// The little-endian `u32` at byte `off` of `d`.
pub open spec fn u32_at(d: Seq<u8>, off: int) -> u32 {
    le_value(d.subrange(off, off + 4)) as u32
}

/// The string in the `n` null-padded bytes at `off` of `d`, if they decode.
pub open spec fn padded_string_at(d: Seq<u8>, off: int, n: int) -> Option<Seq<char>> {
    string_value(until_nul(d.subrange(off, off + n)))
}

pub(crate) fn u32_at_exec(d: &[u8], off: usize) -> (r: u32)
    requires
        off + 4 <= d@.len(),
    ensures
        r == u32_at(d@, off as int),
{
    read_u32_at(d, off).unwrap()
}

pub(crate) fn padded_string_exec(d: &[u8], off: usize, n: usize) -> (r: Result<String, TesError>)
    requires
        off + n <= d@.len(),
    ensures
        r is Ok <==> padded_string_at(d@, off as int, n as int) is Some,
        r matches Ok(s) ==> s@ == padded_string_at(d@, off as int, n as int).unwrap(),
{
    let len = d.len();
    assert(off + n <= len);
    let mut reader = vstd::slice::slice_subrange(d, off, off + n);
    assert(reader@.take(n as int) =~= d@.subrange(off as int, off + n));
    read_string_dyn(n, &mut reader)
}

/// Information about the state of a resting player; the coordinates are the bits of `f32`s
#[derive(Debug, Copy, Clone)]
pub struct RestState {
    pub hours_left: i32,
    pub x: u32,
    pub y: u32,
    pub z: u32,
}

/// Player exterior location
#[derive(Debug, Copy, Clone)]
pub struct ExteriorLocation {
    pub x: i32,
    pub y: i32,
}

/// A pair of values of unknown meaning that follows the exterior location
#[derive(Debug, Copy, Clone)]
pub struct Lnam {
    pub unknown1: i32,
    pub unknown2: i32,
}

/// Player faction membership
#[derive(Debug)]
pub struct Faction {
    rank: u32,
    reputation: i32,
    flags: u32,
    name: String,
}

/// The abstract content of a faction membership.
pub struct FactionModel {
    pub rank: u32,
    pub reputation: i32,
    pub flags: u32,
    pub name: Seq<char>,
}

impl View for Faction {
    type V = FactionModel;

    closed spec fn view(&self) -> FactionModel {
        FactionModel {
            rank: self.rank,
            reputation: self.reputation,
            flags: self.flags,
            name: self.name@,
        }
    }
}

/// Player animation data
#[derive(Debug)]
pub struct AnimationData {
    anim_group_index: i32,
    unknown: Vec<u8>,
}

/// The abstract content of animation data.
pub struct AnimationDataModel {
    pub anim_group_index: i32,
    pub unknown: Seq<u8>,
}

impl View for AnimationData {
    type V = AnimationDataModel;

    closed spec fn view(&self) -> AnimationDataModel {
        AnimationDataModel { anim_group_index: self.anim_group_index, unknown: self.unknown@ }
    }
}

/// Quick key assignment
#[derive(Debug)]
pub struct QuickKey {
    bind_type: u8,
    bound_form: String,
    unknown: i32,
}

/// The abstract content of a quick key.
pub struct QuickKeyModel {
    pub bind_type: u8,
    pub bound_form: Seq<char>,
    pub unknown: i32,
}

impl View for QuickKey {
    type V = QuickKeyModel;

    closed spec fn view(&self) -> QuickKeyModel {
        QuickKeyModel {
            bind_type: self.bind_type,
            bound_form: self.bound_form@,
            unknown: self.unknown,
        }
    }
}

impl Default for QuickKey {
    fn default() -> (r: QuickKey)
        ensures
            r@ == (QuickKeyModel { bind_type: 0, bound_form: Seq::empty(), unknown: -1i32 }),
    {
        let k = QuickKey { bind_type: 0, bound_form: String::new(), unknown: -1 };
        assert(k@.bound_form =~= Seq::<char>::empty());
        k
    }
}

/// Length of the `PNAM` data
pub const PNAM_LENGTH: usize = 212;

/// Length of the `KNAM` data: ten quick keys of 40 bytes
pub const KNAM_LENGTH: usize = 400;

/// The abstract content of the player's data; `f32` values are held as their bits.
pub struct PlayerDataModel {
    pub known_topics: Seq<Seq<char>>,
    pub mark_cell: Option<Seq<char>>,
    pub player_flags: u32,
    pub level_progress: u32,
    pub skill_progress: Seq<u32>,
    pub attribute_progress: Seq<u8>,
    pub telekinesis_range_bonus: i32,
    pub vision_bonus: u32,
    pub detect_key_magnitude: i32,
    pub detect_enchantment_magnitude: i32,
    pub detect_animal_magnitude: i32,
    pub mark_x: u32,
    pub mark_y: u32,
    pub mark_z: u32,
    pub mark_rot: u32,
    pub mark_grid_x: i32,
    pub mark_grid_y: i32,
    pub unknown1: Seq<u8>,
    pub spec_increases: Seq<u8>,
    pub unknown2: u8,
    pub snam: Seq<u8>,
    pub nam9: Option<u32>,
    pub rest_state: Option<RestState>,
    pub bounty: Option<i32>,
    pub birthsign: Option<Seq<char>>,
    pub alchemy_equipment: Seq<Option<Seq<char>>>,
    pub exterior: Option<ExteriorLocation>,
    pub lnam: Option<Lnam>,
    pub factions: Seq<FactionModel>,
    pub animation_data: Option<AnimationDataModel>,
    pub quick_keys: Seq<QuickKeyModel>,
    pub anis: Option<Seq<u8>>,
    pub werewolf_data: Seq<u8>,
}

/// The player's data before any field is read.
pub open spec fn empty_player_data() -> PlayerDataModel {
    PlayerDataModel {
        known_topics: Seq::empty(),
        mark_cell: None,
        player_flags: 0,
        level_progress: 0,
        skill_progress: Seq::new(27, |i: int| 0u32),
        attribute_progress: Seq::new(8, |i: int| 0u8),
        telekinesis_range_bonus: 0,
        vision_bonus: 0,
        detect_key_magnitude: 0,
        detect_enchantment_magnitude: 0,
        detect_animal_magnitude: 0,
        mark_x: 0,
        mark_y: 0,
        mark_z: 0,
        mark_rot: 0,
        mark_grid_x: 0,
        mark_grid_y: 0,
        unknown1: Seq::empty(),
        spec_increases: Seq::new(3, |i: int| 0u8),
        unknown2: 0,
        snam: Seq::empty(),
        nam9: None,
        rest_state: None,
        bounty: None,
        birthsign: None,
        alchemy_equipment: Seq::new(4, |i: int| None),
        exterior: None,
        lnam: None,
        factions: Seq::empty(),
        animation_data: None,
        quick_keys: Seq::empty(),
        anis: None,
        werewolf_data: Seq::empty(),
    }
}

/// The player's data with its `PNAM` part read from `d`: flags, level progress, the progress
/// of the 27 skills, of the 8 attributes (a byte each), telekinesis range and vision bonuses,
/// the detect key, enchantment and animal magnitudes, the mark position, rotation and grid
/// cell, 40 unknown bytes, the increases of the 3 specializations and an unknown byte.
pub open spec fn with_pnam(m: PlayerDataModel, d: Seq<u8>) -> PlayerDataModel {
    PlayerDataModel {
        player_flags: word(d, 0),
        level_progress: word(d, 1),
        skill_progress: Seq::new(27, |k: int| word(d, 2 + k)),
        attribute_progress: d.subrange(116, 124),
        telekinesis_range_bonus: word(d, 31) as i32,
        vision_bonus: word(d, 32),
        detect_key_magnitude: word(d, 33) as i32,
        detect_enchantment_magnitude: word(d, 34) as i32,
        detect_animal_magnitude: word(d, 35) as i32,
        mark_x: word(d, 36),
        mark_y: word(d, 37),
        mark_z: word(d, 38),
        mark_rot: word(d, 39),
        mark_grid_x: word(d, 40) as i32,
        mark_grid_y: word(d, 41) as i32,
        unknown1: d.subrange(168, 208),
        spec_increases: d.subrange(208, 211),
        unknown2: d[211],
        ..m
    }
}

/// The faction membership in `FNAM` data: rank, reputation, flags, and a name padded to 32
/// bytes.
pub open spec fn faction_at(d: Seq<u8>) -> Option<FactionModel> {
    if d.len() < 44 {
        None
    } else {
        match padded_string_at(d, 12, 32) {
            Some(name) => Some(
                FactionModel {
                    rank: word(d, 0),
                    reputation: word(d, 1) as i32,
                    flags: word(d, 2),
                    name,
                },
            ),
            None => None,
        }
    }
}

/// The quick key in the 40 bytes at `off`: bind type, the bound form padded to 35 bytes, and
/// an unknown `i32`.
pub open spec fn quick_key_at(d: Seq<u8>, off: int) -> QuickKeyModel {
    QuickKeyModel {
        bind_type: d[off],
        bound_form: padded_string_at(d, off + 1, 35).unwrap(),
        unknown: u32_at(d, off + 36) as i32,
    }
}

/// The ten quick keys of `KNAM` data all decode.
pub open spec fn knam_valid(d: Seq<u8>) -> bool {
    d.len() >= KNAM_LENGTH && forall|i: int|
        0 <= i < 10 ==> (#[trigger] padded_string_at(d, 40 * i + 1, 35)) is Some
}

/// The ten quick keys of `KNAM` data.
pub open spec fn knam_keys(d: Seq<u8>) -> Seq<QuickKeyModel> {
    Seq::new(10, |i: int| quick_key_at(d, 40 * i))
}

/// Reading one field of a `PCDT` record.
pub open spec fn player_step(m: PlayerDataModel, f: FieldModel) -> Option<PlayerDataModel> {
    let d = f.data;
    if f.name == DNAM@ {
        match zstring_value(d) {
            Some(v) => Some(PlayerDataModel { known_topics: m.known_topics.push(v), ..m }),
            None => None,
        }
    } else if f.name == MNAM@ {
        match zstring_value(d) {
            Some(v) => Some(PlayerDataModel { mark_cell: Some(v), ..m }),
            None => None,
        }
    } else if f.name == PNAM@ {
        if d.len() >= PNAM_LENGTH {
            Some(with_pnam(m, d))
        } else {
            None
        }
    } else if f.name == SNAM@ {
        Some(PlayerDataModel { snam: d, ..m })
    } else if f.name == NAM9@ {
        if d.len() == 4 {
            Some(PlayerDataModel { nam9: Some(word(d, 0)), ..m })
        } else {
            None
        }
    } else if f.name == RNAM@ {
        if d.len() >= 16 {
            Some(
                PlayerDataModel {
                    rest_state: Some(
                        RestState {
                            hours_left: word(d, 0) as i32,
                            x: word(d, 1),
                            y: word(d, 2),
                            z: word(d, 3),
                        },
                    ),
                    ..m
                },
            )
        } else {
            None
        }
    } else if f.name == CNAM@ {
        if d.len() == 4 {
            Some(PlayerDataModel { bounty: Some(word(d, 0) as i32), ..m })
        } else {
            None
        }
    } else if f.name == BNAM@ {
        match zstring_value(d) {
            Some(v) => Some(PlayerDataModel { birthsign: Some(v), ..m }),
            None => None,
        }
    } else if f.name == NAM0@ || f.name == NAM1@ || f.name == NAM2@ || f.name == NAM3@ {
        let slot = if f.name == NAM0@ {
            0int
        } else if f.name == NAM1@ {
            1int
        } else if f.name == NAM2@ {
            2int
        } else {
            3int
        };
        match zstring_value(d) {
            Some(v) => Some(
                PlayerDataModel {
                    alchemy_equipment: m.alchemy_equipment.update(slot, Some(v)),
                    ..m
                },
            ),
            None => None,
        }
    } else if f.name == crate::tags::ENAM@ {
        if d.len() >= 8 {
            Some(
                PlayerDataModel {
                    exterior: Some(ExteriorLocation { x: word(d, 0) as i32, y: word(d, 1) as i32 }),
                    ..m
                },
            )
        } else {
            None
        }
    } else if f.name == LNAM@ {
        if d.len() >= 8 {
            Some(
                PlayerDataModel {
                    lnam: Some(Lnam { unknown1: word(d, 0) as i32, unknown2: word(d, 1) as i32 }),
                    ..m
                },
            )
        } else {
            None
        }
    } else if f.name == FNAM@ {
        match faction_at(d) {
            Some(fm) => Some(PlayerDataModel { factions: m.factions.push(fm), ..m }),
            None => None,
        }
    } else if f.name == AADT@ {
        if d.len() >= 44 {
            Some(
                PlayerDataModel {
                    animation_data: Some(
                        AnimationDataModel {
                            anim_group_index: word(d, 0) as i32,
                            unknown: d.subrange(4, 44),
                        },
                    ),
                    ..m
                },
            )
        } else {
            None
        }
    } else if f.name == KNAM@ {
        if knam_valid(d) {
            Some(PlayerDataModel { quick_keys: m.quick_keys + knam_keys(d), ..m })
        } else {
            None
        }
    } else if f.name == ANIS@ {
        if d.len() >= 16 {
            Some(PlayerDataModel { anis: Some(d.subrange(0, 16)), ..m })
        } else {
            None
        }
    } else if f.name == WERE@ {
        Some(PlayerDataModel { werewolf_data: d, ..m })
    } else {
        None
    }
}

/// [`player_step`] as a function value.
pub open spec fn player_step_fn() -> spec_fn(PlayerDataModel, FieldModel) -> Option<PlayerDataModel> {
    |m: PlayerDataModel, f: FieldModel| player_step(m, f)
}

/// The player's data read from a record's fields.
pub open spec fn player_data_from_fields(fields: Seq<FieldModel>) -> Option<PlayerDataModel> {
    fold_fields(empty_player_data(), player_step_fn(), fields)
}

/// Player-specific data
#[derive(Debug)]
pub struct PlayerData {
    known_topics: Vec<String>,
    mark_cell: Option<String>,
    player_flags: u32,
    pub level_progress: u32,
    pub skill_progress: [u32; 27],
    pub attribute_progress: [u8; 8],
    telekinesis_range_bonus: i32,
    vision_bonus: u32,
    detect_key_magnitude: i32,
    detect_enchantment_magnitude: i32,
    detect_animal_magnitude: i32,
    mark_x: u32,
    mark_y: u32,
    mark_z: u32,
    mark_rot: u32,
    mark_grid_x: i32,
    mark_grid_y: i32,
    unknown1: Vec<u8>,
    pub spec_increases: [u8; 3],
    unknown2: u8,
    snam: Vec<u8>,
    nam9: Option<u32>,
    rest_state: Option<RestState>,
    bounty: Option<i32>,
    birthsign: Option<String>,
    alchemy_equipment: [Option<String>; 4],
    exterior: Option<ExteriorLocation>,
    lnam: Option<Lnam>,
    factions: Vec<Faction>,
    animation_data: Option<AnimationData>,
    quick_keys: Vec<QuickKey>,
    anis: Option<[u8; 16]>,
    werewolf_data: Vec<u8>,
}

/// The view of an optional string.
pub open spec fn opt_str(o: Option<String>) -> Option<Seq<char>> {
    match o {
        Some(s) => Some(s@),
        None => None,
    }
}

impl View for PlayerData {
    type V = PlayerDataModel;

    closed spec fn view(&self) -> PlayerDataModel {
        PlayerDataModel {
            known_topics: self.known_topics@.map_values(|s: String| s@),
            mark_cell: opt_str(self.mark_cell),
            player_flags: self.player_flags,
            level_progress: self.level_progress,
            skill_progress: self.skill_progress@,
            attribute_progress: self.attribute_progress@,
            telekinesis_range_bonus: self.telekinesis_range_bonus,
            vision_bonus: self.vision_bonus,
            detect_key_magnitude: self.detect_key_magnitude,
            detect_enchantment_magnitude: self.detect_enchantment_magnitude,
            detect_animal_magnitude: self.detect_animal_magnitude,
            mark_x: self.mark_x,
            mark_y: self.mark_y,
            mark_z: self.mark_z,
            mark_rot: self.mark_rot,
            mark_grid_x: self.mark_grid_x,
            mark_grid_y: self.mark_grid_y,
            unknown1: self.unknown1@,
            spec_increases: self.spec_increases@,
            unknown2: self.unknown2,
            snam: self.snam@,
            nam9: self.nam9,
            rest_state: self.rest_state,
            bounty: self.bounty,
            birthsign: opt_str(self.birthsign),
            alchemy_equipment: self.alchemy_equipment@.map_values(|o: Option<String>| opt_str(o)),
            exterior: self.exterior,
            lnam: self.lnam,
            factions: self.factions@.map_values(|f: Faction| f@),
            animation_data: match self.animation_data {
                Some(a) => Some(a@),
                None => None,
            },
            quick_keys: self.quick_keys@.map_values(|k: QuickKey| k@),
            anis: match self.anis {
                Some(a) => Some(a@),
                None => None,
            },
            werewolf_data: self.werewolf_data@,
        }
    }
}

impl PlayerData {
    /// Gets the player's birthsign
    pub fn birthsign(&self) -> (r: Option<&str>)
        ensures
            match r {
                Some(s) => self@.birthsign == Some(s@),
                None => self@.birthsign is None,
            },
    {
        match &self.birthsign {
            Some(b) => Some(b.as_str()),
            None => None,
        }
    }

    fn empty() -> (r: PlayerData)
        ensures
            r@ == empty_player_data(),
    {
        let r = PlayerData {
            known_topics: Vec::new(),
            mark_cell: None,
            player_flags: 0,
            level_progress: 0,
            skill_progress: [0u32; 27],
            attribute_progress: [0u8; 8],
            telekinesis_range_bonus: 0,
            vision_bonus: 0,
            detect_key_magnitude: 0,
            detect_enchantment_magnitude: 0,
            detect_animal_magnitude: 0,
            mark_x: 0,
            mark_y: 0,
            mark_z: 0,
            mark_rot: 0,
            mark_grid_x: 0,
            mark_grid_y: 0,
            unknown1: Vec::new(),
            spec_increases: [0u8; 3],
            unknown2: 0,
            snam: Vec::new(),
            nam9: None,
            rest_state: None,
            bounty: None,
            birthsign: None,
            alchemy_equipment: [None, None, None, None],
            exterior: None,
            lnam: None,
            factions: Vec::new(),
            animation_data: None,
            quick_keys: Vec::new(),
            anis: None,
            werewolf_data: Vec::new(),
        };
        proof {
            let e = empty_player_data();
            assert(r@.known_topics =~= e.known_topics);
            assert(r@.skill_progress =~= e.skill_progress);
            assert(r@.attribute_progress =~= e.attribute_progress);
            assert(r@.unknown1 =~= e.unknown1);
            assert(r@.spec_increases =~= e.spec_increases);
            assert(r@.snam =~= e.snam);
            assert(r@.alchemy_equipment =~= e.alchemy_equipment);
            assert(r@.factions =~= e.factions);
            assert(r@.quick_keys =~= e.quick_keys);
            assert(r@.werewolf_data =~= e.werewolf_data);
        }
        r
    }

    fn apply_pnam(&mut self, d: &[u8])
        requires
            d@.len() >= PNAM_LENGTH,
        ensures
            final(self)@ == with_pnam(old(self)@, d@),
    {
        self.player_flags = word_at(d, 0);
        self.level_progress = word_at(d, 1);
        self.skill_progress = [word_at(d, 2), word_at(d, 3), word_at(d, 4), word_at(d, 5), word_at(d, 6), word_at(d, 7), word_at(d, 8), word_at(d, 9), word_at(d, 10), word_at(d, 11), word_at(d, 12), word_at(d, 13), word_at(d, 14), word_at(d, 15), word_at(d, 16), word_at(d, 17), word_at(d, 18), word_at(d, 19), word_at(d, 20), word_at(d, 21), word_at(d, 22), word_at(d, 23), word_at(d, 24), word_at(d, 25), word_at(d, 26), word_at(d, 27), word_at(d, 28)];
        self.attribute_progress = [d[116], d[117], d[118], d[119], d[120], d[121], d[122], d[123]];
        self.telekinesis_range_bonus = #[verifier::truncate] (word_at(d, 31) as i32);
        self.vision_bonus = word_at(d, 32);
        self.detect_key_magnitude = #[verifier::truncate] (word_at(d, 33) as i32);
        self.detect_enchantment_magnitude = #[verifier::truncate] (word_at(d, 34) as i32);
        self.detect_animal_magnitude = #[verifier::truncate] (word_at(d, 35) as i32);
        self.mark_x = word_at(d, 36);
        self.mark_y = word_at(d, 37);
        self.mark_z = word_at(d, 38);
        self.mark_rot = word_at(d, 39);
        self.mark_grid_x = #[verifier::truncate] (word_at(d, 40) as i32);
        self.mark_grid_y = #[verifier::truncate] (word_at(d, 41) as i32);
        self.unknown1 = vstd::slice::slice_to_vec(vstd::slice::slice_subrange(d, 168, 208));
        self.spec_increases = [d[208], d[209], d[210]];
        self.unknown2 = d[211];
        proof {
            let m = with_pnam(old(self)@, d@);
            assert(self@.skill_progress =~= m.skill_progress);
            assert(self@.attribute_progress =~= m.attribute_progress);
            assert(self@.unknown1 =~= m.unknown1);
            assert(self@.spec_increases =~= m.spec_increases);
        }
    }

    fn read_faction(d: &[u8]) -> (r: Result<Faction, TesError>)
        ensures
            r is Ok <==> faction_at(d@) is Some,
            r matches Ok(f) ==> f@ == faction_at(d@).unwrap(),
    {
        if d.len() < 44 {
            return Err(TesError::UnexpectedEof);
        }
        let name = padded_string_exec(d, 12, 32)?;
        Ok(
            Faction {
                rank: word_at(d, 0),
                reputation: #[verifier::truncate] (word_at(d, 1) as i32),
                flags: word_at(d, 2),
                name,
            },
        )
    }

    fn read_quick_keys(&mut self, d: &[u8]) -> (r: Result<(), TesError>)
        ensures
            r is Ok <==> knam_valid(d@),
            r is Ok ==> final(self)@ == (PlayerDataModel {
                quick_keys: old(self)@.quick_keys + knam_keys(d@),
                ..old(self)@
            }),
    {
        if d.len() < KNAM_LENGTH {
            return Err(TesError::UnexpectedEof);
        }
        let mut keys: Vec<QuickKey> = Vec::new();
        let mut i: usize = 0;
        while i < 10
            invariant
                i <= 10,
                d@.len() >= KNAM_LENGTH,
                keys@.len() == i,
                forall|j: int| 0 <= j < i ==> (#[trigger] padded_string_at(d@, 40 * j + 1, 35)) is Some,
                forall|j: int| 0 <= j < i ==> (#[trigger] keys@[j])@ == quick_key_at(d@, 40 * j),
            decreases 10 - i,
        {
            let off = 40 * i;
            let bound_form = match padded_string_exec(d, off + 1, 35) {
                Ok(s) => s,
                Err(e) => {
                    assert(!knam_valid(d@)) by {
                        assert(padded_string_at(d@, 40 * (i as int) + 1, 35) is None);
                    }
                    return Err(e);
                },
            };
            let key = QuickKey {
                bind_type: d[off],
                bound_form,
                unknown: #[verifier::truncate] (u32_at_exec(d, off + 36) as i32),
            };
            keys.push(key);
            i = i + 1;
        }
        let ghost before = self.quick_keys@.map_values(|k: QuickKey| k@);
        self.quick_keys.append(&mut keys);
        proof {
            assert(self@.quick_keys =~= old(self)@.quick_keys + knam_keys(d@));
        }
        Ok(())
    }

    fn set_alchemy(&mut self, slot: usize, v: String)
        requires
            slot < 4,
        ensures
            final(self)@ == (PlayerDataModel {
                alchemy_equipment: old(self)@.alchemy_equipment.update(slot as int, Some(v@)),
                ..old(self)@
            }),
    {
        let mut a = [None, None, None, None];
        let mut k: usize = 0;
        while k < 4
            invariant
                k <= 4,
                forall|j: int| 0 <= j < k ==> opt_str(#[trigger] a@[j]) == (if j == slot {
                    Some(v@)
                } else {
                    opt_str(self.alchemy_equipment@[j])
                }),
            decreases 4 - k,
        {
            let item = if k == slot {
                Some(v.clone())
            } else {
                match &self.alchemy_equipment[k] {
                    Some(s) => Some(s.clone()),
                    None => None,
                }
            };
            a[k] = item;
            k = k + 1;
        }
        self.alchemy_equipment = a;
        proof {
            assert(self@.alchemy_equipment =~= old(self)@.alchemy_equipment.update(slot as int, Some(v@)));
        }
    }

    fn apply_field(&mut self, field: &Tes3Field) -> (r: Result<(), TesError>)
        ensures
            r is Ok <==> player_step(old(self)@, field@) is Some,
            r is Ok ==> final(self)@ == player_step(old(self)@, field@).unwrap(),
    {
        let name = field.name();
        let d = field.get();
        if slice_is_tag(name, &DNAM) {
            let v = field_zstring(field)?;
            self.known_topics.push(v);
            assert(self@.known_topics =~= old(self)@.known_topics.push(v@));
        } else if slice_is_tag(name, &MNAM) {
            self.mark_cell = Some(field_zstring(field)?);
        } else if slice_is_tag(name, &PNAM) {
            if d.len() < PNAM_LENGTH {
                return Err(TesError::UnexpectedEof);
            }
            self.apply_pnam(d);
        } else if slice_is_tag(name, &SNAM) {
            self.snam = vstd::slice::slice_to_vec(d);
        } else if slice_is_tag(name, &NAM9) {
            if d.len() != 4 {
                return Err(decode_failed("unexpected data size for a number"));
            }
            self.nam9 = Some(word_at(d, 0));
        } else if slice_is_tag(name, &RNAM) {
            if d.len() < 16 {
                return Err(TesError::UnexpectedEof);
            }
            self.rest_state = Some(
                RestState {
                    hours_left: #[verifier::truncate] (word_at(d, 0) as i32),
                    x: word_at(d, 1),
                    y: word_at(d, 2),
                    z: word_at(d, 3),
                },
            );
        } else if slice_is_tag(name, &CNAM) {
            if d.len() != 4 {
                return Err(decode_failed("unexpected data size for a number"));
            }
            self.bounty = Some(#[verifier::truncate] (word_at(d, 0) as i32));
        } else if slice_is_tag(name, &BNAM) {
            self.birthsign = Some(field_zstring(field)?);
        } else if slice_is_tag(name, &NAM0) {
            let v = field_zstring(field)?;
            self.set_alchemy(0, v);
        } else if slice_is_tag(name, &NAM1) {
            let v = field_zstring(field)?;
            self.set_alchemy(1, v);
        } else if slice_is_tag(name, &NAM2) {
            let v = field_zstring(field)?;
            self.set_alchemy(2, v);
        } else if slice_is_tag(name, &NAM3) {
            let v = field_zstring(field)?;
            self.set_alchemy(3, v);
        } else if slice_is_tag(name, &crate::tags::ENAM) {
            if d.len() < 8 {
                return Err(TesError::UnexpectedEof);
            }
            self.exterior = Some(
                ExteriorLocation {
                    x: #[verifier::truncate] (word_at(d, 0) as i32),
                    y: #[verifier::truncate] (word_at(d, 1) as i32),
                },
            );
        } else if slice_is_tag(name, &LNAM) {
            if d.len() < 8 {
                return Err(TesError::UnexpectedEof);
            }
            self.lnam = Some(
                Lnam {
                    unknown1: #[verifier::truncate] (word_at(d, 0) as i32),
                    unknown2: #[verifier::truncate] (word_at(d, 1) as i32),
                },
            );
        } else if slice_is_tag(name, &FNAM) {
            let f = Self::read_faction(d)?;
            self.factions.push(f);
            assert(self@.factions =~= old(self)@.factions.push(faction_at(d@).unwrap()));
        } else if slice_is_tag(name, &AADT) {
            if d.len() < 44 {
                return Err(TesError::UnexpectedEof);
            }
            self.animation_data = Some(
                AnimationData {
                    anim_group_index: #[verifier::truncate] (word_at(d, 0) as i32),
                    unknown: vstd::slice::slice_to_vec(vstd::slice::slice_subrange(d, 4, 44)),
                },
            );
        } else if slice_is_tag(name, &KNAM) {
            self.read_quick_keys(d)?;
        } else if slice_is_tag(name, &ANIS) {
            if d.len() < 16 {
                return Err(TesError::UnexpectedEof);
            }
            let a = [d[0], d[1], d[2], d[3], d[4], d[5], d[6], d[7], d[8], d[9], d[10], d[11], d[12], d[13], d[14], d[15]];
            assert(a@ =~= d@.subrange(0, 16));
            self.anis = Some(a);
        } else if slice_is_tag(name, &WERE) {
            self.werewolf_data = vstd::slice::slice_to_vec(d);
        } else {
            return Err(decode_failed("Unexpected field in PCDT record"));
        }
        Ok(())
    }

    /// Read player data from a `PCDT` record
    ///
    /// Fails if the record is not a `PCDT` record, if a field of another type occurs, or if a
    /// field's data does not decode.
    pub fn read(record: &Tes3Record) -> (r: Result<PlayerData, TesError>)
        requires
            record@.status == RecordStatus::Finalized,
        ensures
            r is Ok <==> record@.name == PCDT@ && player_data_from_fields(record@.fields) is Some,
            r matches Ok(p) ==> p@ == player_data_from_fields(record@.fields).unwrap(),
    {
        check_record_type(record.name(), &PCDT)?;
        let fields = record.fields();
        let ghost view = record@.fields;
        let ghost step = player_step_fn();
        let mut player = PlayerData::empty();
        proof {
            assert(view.take(0) =~= Seq::<FieldModel>::empty());
        }
        let mut i: usize = 0;
        while i < fields.len()
            invariant
                fields@.map_values(|f: Tes3Field| f@) == view,
                view == record@.fields,
                record@.name == PCDT@,
                step == player_step_fn(),
                i <= fields@.len(),
                fold_fields(empty_player_data(), step, view.take(i as int)) == Some(player@),
            decreases fields@.len() - i,
        {
            let field = &fields[i];
            proof {
                assert(view[i as int] == field@);
                lemma_fold_step(empty_player_data(), step, view, i as int);
            }
            let ghost before = player@;
            match player.apply_field(field) {
                Ok(()) => {
                    assert(step(before, view[i as int]) == Some(player@));
                },
                Err(e) => {
                    proof {
                        assert(step(before, view[i as int]) is None);
                        lemma_fold_none(empty_player_data(), step, view, i + 1);
                    }
                    return Err(e);
                },
            }
            i = i + 1;
        }
        proof {
            assert(view.take(i as int) =~= view);
        }
        Ok(player)
    }
}

} // verus!
