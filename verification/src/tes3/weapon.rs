//! Weapons, as held by `WEAP` records.

use vstd::prelude::*;

use crate::error::{decode_failed, TesError};
use crate::plugin::{FieldModel, RecordStatus};
use crate::tags::{slice_is_tag, ENAM, FNAM, ITEX, MODL, NAME, SCRI, WEAP, WPDT};
use crate::tes3::enchantable::Enchantable;
use crate::tes3::field::Tes3Field;
use crate::tes3::form::{
    check_record_type, field_zstring, fold_fields, lemma_fold_none, lemma_fold_step, zstring_value,
};
use crate::tes3::package::{opt_chars, u16_at};
use crate::tes3::player::{u32_at, u32_at_exec};
use crate::tes3::record::Tes3Record;
use crate::bytes::{lemma_le_value_at, lemma_le_value_at2, read_u16_at, u32_at_le};

verus! {

/// The kind of a weapon
#[derive(Debug, Default, Copy, Clone, PartialEq, Eq, Structural)]
pub enum WeaponType {
    #[default]
    ShortBladeOneHand,
    LongBladeOneHand,
    LongBladeTwoClose,
    BluntOneHand,
    BluntTwoClose,
    BluntTwoWide,
    SpearTwoWide,
    AxeOneHand,
    AxeTwoHand,
    MarksmanBow,
    MarksmanCrossbow,
    MarksmanThrown,
    Arrow,
    Bolt,
}

impl WeaponType {
    /// The number that stands for this value in the file formats
    pub open spec fn index(self) -> u16 {
        match self {
            WeaponType::ShortBladeOneHand => 0u16,
            WeaponType::LongBladeOneHand => 1u16,
            WeaponType::LongBladeTwoClose => 2u16,
            WeaponType::BluntOneHand => 3u16,
            WeaponType::BluntTwoClose => 4u16,
            WeaponType::BluntTwoWide => 5u16,
            WeaponType::SpearTwoWide => 6u16,
            WeaponType::AxeOneHand => 7u16,
            WeaponType::AxeTwoHand => 8u16,
            WeaponType::MarksmanBow => 9u16,
            WeaponType::MarksmanCrossbow => 10u16,
            WeaponType::MarksmanThrown => 11u16,
            WeaponType::Arrow => 12u16,
            WeaponType::Bolt => 13u16,
        }
    }

    /// The value that a number stands for, if any
    pub open spec fn from_index(v: u16) -> Option<WeaponType> {
        match v {
            0u16 => Some(WeaponType::ShortBladeOneHand),
            1u16 => Some(WeaponType::LongBladeOneHand),
            2u16 => Some(WeaponType::LongBladeTwoClose),
            3u16 => Some(WeaponType::BluntOneHand),
            4u16 => Some(WeaponType::BluntTwoClose),
            5u16 => Some(WeaponType::BluntTwoWide),
            6u16 => Some(WeaponType::SpearTwoWide),
            7u16 => Some(WeaponType::AxeOneHand),
            8u16 => Some(WeaponType::AxeTwoHand),
            9u16 => Some(WeaponType::MarksmanBow),
            10u16 => Some(WeaponType::MarksmanCrossbow),
            11u16 => Some(WeaponType::MarksmanThrown),
            12u16 => Some(WeaponType::Arrow),
            13u16 => Some(WeaponType::Bolt),
            _ => None,
        }
    }

    /// Gets the number that stands for this value
    pub fn to_u16(self) -> (r: u16)
        ensures
            r == self.index(),
    {
        match self {
            WeaponType::ShortBladeOneHand => 0u16,
            WeaponType::LongBladeOneHand => 1u16,
            WeaponType::LongBladeTwoClose => 2u16,
            WeaponType::BluntOneHand => 3u16,
            WeaponType::BluntTwoClose => 4u16,
            WeaponType::BluntTwoWide => 5u16,
            WeaponType::SpearTwoWide => 6u16,
            WeaponType::AxeOneHand => 7u16,
            WeaponType::AxeTwoHand => 8u16,
            WeaponType::MarksmanBow => 9u16,
            WeaponType::MarksmanCrossbow => 10u16,
            WeaponType::MarksmanThrown => 11u16,
            WeaponType::Arrow => 12u16,
            WeaponType::Bolt => 13u16,
        }
    }

    /// Gets the value that a number stands for, if any
    pub fn try_from_u16(v: u16) -> (r: Option<WeaponType>)
        ensures
            r == WeaponType::from_index(v),
    {
        match v {
            0u16 => Some(WeaponType::ShortBladeOneHand),
            1u16 => Some(WeaponType::LongBladeOneHand),
            2u16 => Some(WeaponType::LongBladeTwoClose),
            3u16 => Some(WeaponType::BluntOneHand),
            4u16 => Some(WeaponType::BluntTwoClose),
            5u16 => Some(WeaponType::BluntTwoWide),
            6u16 => Some(WeaponType::SpearTwoWide),
            7u16 => Some(WeaponType::AxeOneHand),
            8u16 => Some(WeaponType::AxeTwoHand),
            9u16 => Some(WeaponType::MarksmanBow),
            10u16 => Some(WeaponType::MarksmanCrossbow),
            11u16 => Some(WeaponType::MarksmanThrown),
            12u16 => Some(WeaponType::Arrow),
            13u16 => Some(WeaponType::Bolt),
            _ => None,
        }
    }

    /// A value's number stands for that value.
    pub proof fn lemma_index_roundtrip(self)
        ensures
            WeaponType::from_index(self.index()) == Some(self),
    {
    }

    /// A number that stands for a value is that value's number.
    pub proof fn lemma_from_index_roundtrip(v: u16)
        ensures
            WeaponType::from_index(v) matches Some(x) ==> x.index() == v,
    {
    }
}

/// Weapon flag: ignores resistance to normal weapons
pub const WEAPON_IGNORE_NORMAL_WEAPON_RESISTANCE: u32 = 0x01;

/// Weapon flag: made of silver
pub const WEAPON_SILVER: u32 = 0x02;

/// A weapon's stats, as held by its `WPDT` field; `f32` values are their bits
#[derive(Debug, Default, Copy, Clone, PartialEq, Eq, Structural)]
pub struct WeaponData {
    pub weight: u32,
    pub value: u32,
    pub weapon_type: WeaponType,
    pub health: u16,
    pub speed: u32,
    pub reach: u32,
    pub enchantment_points: u16,
    pub min_chop: u8,
    pub max_chop: u8,
    pub min_slash: u8,
    pub max_slash: u8,
    pub min_thrust: u8,
    pub max_thrust: u8,
    pub flags: u32,
}

/// The 32 bytes of `WPDT` data decode: a known weapon type and only known flags.
pub open spec fn weapon_data_valid(d: Seq<u8>) -> bool {
    &&& d.len() >= 32
    &&& WeaponType::from_index(u16_at(d, 8)) is Some
    &&& u32_at(d, 28) & !3u32 == 0
}

/// The stats held by `WPDT` data: weight and value, the weapon type and health (`u16`s), speed
/// and reach, enchantment points (`u16`), minimum and maximum chop, slash and thrust damage
/// (bytes), and flags.
pub open spec fn weapon_data_from(d: Seq<u8>) -> WeaponData {
    WeaponData {
        weight: u32_at(d, 0),
        value: u32_at(d, 4),
        weapon_type: WeaponType::from_index(u16_at(d, 8)).unwrap(),
        health: u16_at(d, 10),
        speed: u32_at(d, 12),
        reach: u32_at(d, 16),
        enchantment_points: u16_at(d, 20),
        min_chop: d[22],
        max_chop: d[23],
        min_slash: d[24],
        max_slash: d[25],
        min_thrust: d[26],
        max_thrust: d[27],
        flags: u32_at(d, 28),
    }
}

/// `WPDT` data holds a weapon's stats one after another with no gaps: weight and value
/// (little-endian 32-bit numbers at bytes 0 and 4), weapon type and health (16-bit, at 8 and
/// 10), speed and reach (32-bit, at 12 and 16), enchantment points (16-bit, at 20), then one
/// byte each for the minimum and then the maximum chop, slash and thrust damage (22 to 27), and
/// the flags (32-bit, at 28).
pub proof fn lemma_weapon_data_layout(d: Seq<u8>)
    requires
        weapon_data_valid(d),
    ensures
        ({
            let w = weapon_data_from(d);
            &&& w.weight as int == u32_at_le(d, 0)
            &&& w.value as int == u32_at_le(d, 4)
            &&& w.weapon_type.index() as int == d[8] as int + 256 * d[9] as int
            &&& w.health as int == d[10] as int + 256 * d[11] as int
            &&& w.speed as int == u32_at_le(d, 12)
            &&& w.reach as int == u32_at_le(d, 16)
            &&& w.enchantment_points as int == d[20] as int + 256 * d[21] as int
            &&& w.min_chop == d[22] && w.max_chop == d[23]
            &&& w.min_slash == d[24] && w.max_slash == d[25]
            &&& w.min_thrust == d[26] && w.max_thrust == d[27]
            &&& w.flags as int == u32_at_le(d, 28)
        }),
{
    lemma_le_value_at(d, 0);
    lemma_le_value_at(d, 4);
    lemma_le_value_at2(d, 8);
    lemma_le_value_at2(d, 10);
    lemma_le_value_at(d, 12);
    lemma_le_value_at(d, 16);
    lemma_le_value_at2(d, 20);
    lemma_le_value_at(d, 28);
    WeaponType::lemma_from_index_roundtrip(u16_at(d, 8));
}

impl WeaponData {
    /// Decodes a weapon's stats from `WPDT` data
    ///
    /// Fails if the data is shorter than 32 bytes, the weapon type is unknown, or unknown flags
    /// are set.
    pub fn from_bytes(d: &[u8]) -> (r: Result<WeaponData, TesError>)
        ensures
            r is Ok <==> weapon_data_valid(d@),
            r matches Ok(w) ==> w == weapon_data_from(d@),
    {
        if d.len() < 32 {
            return Err(TesError::UnexpectedEof);
        }
        let weapon_type = match WeaponType::try_from_u16(read_u16_at(d, 8).unwrap()) {
            Some(t) => t,
            None => {
                return Err(decode_failed("Invalid weapon type"));
            },
        };
        let flags = u32_at_exec(d, 28);
        if flags & !3u32 != 0 {
            return Err(decode_failed("Invalid weapon flags"));
        }
        Ok(
            WeaponData {
                weight: u32_at_exec(d, 0),
                value: u32_at_exec(d, 4),
                weapon_type,
                health: read_u16_at(d, 10).unwrap(),
                speed: u32_at_exec(d, 12),
                reach: u32_at_exec(d, 16),
                enchantment_points: read_u16_at(d, 20).unwrap(),
                min_chop: d[22],
                max_chop: d[23],
                min_slash: d[24],
                max_slash: d[25],
                min_thrust: d[26],
                max_thrust: d[27],
                flags,
            },
        )
    }
}

/// The abstract content of a weapon.
pub struct WeaponModel {
    pub id: Seq<char>,
    pub model: Seq<char>,
    pub name: Option<Seq<char>>,
    pub data: WeaponData,
    pub icon: Option<Seq<char>>,
    pub enchantment: Option<Seq<char>>,
    pub script: Option<Seq<char>>,
}

/// The weapon before any field is read.
pub open spec fn empty_weapon() -> WeaponModel {
    WeaponModel {
        id: Seq::empty(),
        model: Seq::empty(),
        name: None,
        data: WeaponData {
            weight: 0,
            value: 0,
            weapon_type: WeaponType::ShortBladeOneHand,
            health: 0,
            speed: 0,
            reach: 0,
            enchantment_points: 0,
            min_chop: 0,
            max_chop: 0,
            min_slash: 0,
            max_slash: 0,
            min_thrust: 0,
            max_thrust: 0,
            flags: 0,
        },
        icon: None,
        enchantment: None,
        script: None,
    }
}

/// Reading one field of a weapon record.
pub open spec fn weapon_step(w: WeaponModel, f: FieldModel) -> Option<WeaponModel> {
    if f.name == WPDT@ {
        if weapon_data_valid(f.data) {
            Some(WeaponModel { data: weapon_data_from(f.data), ..w })
        } else {
            None
        }
    } else {
        match zstring_value(f.data) {
            Some(v) => if f.name == NAME@ {
                Some(WeaponModel { id: v, ..w })
            } else if f.name == MODL@ {
                Some(WeaponModel { model: v, ..w })
            } else if f.name == FNAM@ {
                Some(WeaponModel { name: Some(v), ..w })
            } else if f.name == ITEX@ {
                Some(WeaponModel { icon: Some(v), ..w })
            } else if f.name == ENAM@ {
                Some(WeaponModel { enchantment: Some(v), ..w })
            } else if f.name == SCRI@ {
                Some(WeaponModel { script: Some(v), ..w })
            } else {
                None
            },
            None => None,
        }
    }
}

/// [`weapon_step`] as a function value.
pub open spec fn weapon_step_fn() -> spec_fn(WeaponModel, FieldModel) -> Option<WeaponModel> {
    |w: WeaponModel, f: FieldModel| weapon_step(w, f)
}

/// A weapon
pub struct Weapon {
    id: String,
    model: String,
    name: Option<String>,
    pub data: WeaponData,
    icon: Option<String>,
    enchantment: Option<String>,
    script: Option<String>,
}

impl View for Weapon {
    type V = WeaponModel;

    closed spec fn view(&self) -> WeaponModel {
        WeaponModel {
            id: self.id@,
            model: self.model@,
            name: opt_chars(self.name),
            data: self.data,
            icon: opt_chars(self.icon),
            enchantment: opt_chars(self.enchantment),
            script: opt_chars(self.script),
        }
    }
}

/// Borrows an optional string as an optional `&str`.
fn opt_str(o: &Option<String>) -> (r: Option<&str>)
    ensures
        r is Some <==> o is Some,
        r matches Some(s) ==> s@ == o.unwrap()@,
{
    match o {
        Some(s) => Some(s.as_str()),
        None => None,
    }
}

impl Weapon {
    fn empty() -> (r: Weapon)
        ensures
            r@ == empty_weapon(),
    {
        let r = Weapon {
            id: String::new(),
            model: String::new(),
            name: None,
            data: WeaponData {
                weight: 0,
                value: 0,
                weapon_type: WeaponType::ShortBladeOneHand,
                health: 0,
                speed: 0,
                reach: 0,
                enchantment_points: 0,
                min_chop: 0,
                max_chop: 0,
                min_slash: 0,
                max_slash: 0,
                min_thrust: 0,
                max_thrust: 0,
                flags: 0,
            },
            icon: None,
            enchantment: None,
            script: None,
        };
        assert(r@.id =~= Seq::<char>::empty());
        assert(r@.model =~= Seq::<char>::empty());
        r
    }

    fn apply_field(&mut self, field: &Tes3Field) -> (r: Result<(), TesError>)
        ensures
            r is Ok <==> weapon_step(old(self)@, field@) is Some,
            r is Ok ==> final(self)@ == weapon_step(old(self)@, field@).unwrap(),
    {
        let name = field.name();
        if slice_is_tag(name, &WPDT) {
            self.data = WeaponData::from_bytes(field.get())?;
            return Ok(());
        }
        let value = field_zstring(field)?;
        if slice_is_tag(name, &NAME) {
            self.id = value;
        } else if slice_is_tag(name, &MODL) {
            self.model = value;
        } else if slice_is_tag(name, &FNAM) {
            self.name = Some(value);
        } else if slice_is_tag(name, &ITEX) {
            self.icon = Some(value);
        } else if slice_is_tag(name, &ENAM) {
            self.enchantment = Some(value);
        } else if slice_is_tag(name, &SCRI) {
            self.script = Some(value);
        } else {
            return Err(decode_failed("Unexpected field in WEAP record"));
        }
        Ok(())
    }

    /// Reads a `WEAP` record
    ///
    /// Fails if the record has another type, if it holds an unexpected field, or if a field's
    /// data does not decode.
    pub fn read(record: &Tes3Record) -> (r: Result<Weapon, TesError>)
        requires
            record@.status == RecordStatus::Finalized,
        ensures
            r is Ok <==> record@.name == WEAP@ && fold_fields(empty_weapon(), weapon_step_fn(), record@.fields) is Some,
            r matches Ok(v) ==> v@ == fold_fields(empty_weapon(), weapon_step_fn(), record@.fields).unwrap(),
    {
        check_record_type(record.name(), &WEAP)?;
        let fields = record.fields();
        let ghost view = record@.fields;
        let ghost step = weapon_step_fn();
        let mut value = Weapon::empty();
        let mut i: usize = 0;
        proof {
            assert(view.take(0) =~= Seq::<FieldModel>::empty());
        }
        while i < fields.len()
            invariant
                fields@.map_values(|f: Tes3Field| f@) == view,
                step == weapon_step_fn(),
                record@.name == WEAP@,
                view == record@.fields,
                i <= fields@.len(),
                fold_fields(empty_weapon(), step, view.take(i as int)) == Some(value@),
            decreases fields@.len() - i,
        {
            let field = &fields[i];
            proof {
                assert(view[i as int] == field@);
                lemma_fold_step(empty_weapon(), step, view, i as int);
            }
            let ghost before = value@;
            match value.apply_field(field) {
                Ok(()) => {
                    assert(step(before, view[i as int]) == Some(value@));
                },
                Err(e) => {
                    proof {
                        assert(step(before, view[i as int]) is None);
                        lemma_fold_none(empty_weapon(), step, view, i + 1);
                    }
                    return Err(e);
                },
            }
            i = i + 1;
        }
        proof {
            assert(view.take(i as int) =~= view);
        }
        Ok(value)
    }

    /// Get this weapon's ID
    pub fn id(&self) -> (r: &str)
        ensures
            r@ == self@.id,
    {
        self.id.as_str()
    }

    /// Set this weapon's ID
    pub fn set_id(&mut self, id: String)
        ensures
            final(self)@ == (WeaponModel { id: id@, ..old(self)@ }),
    {
        self.id = id;
    }

    /// Get this weapon's NIF model
    pub fn model(&self) -> (r: Option<&str>)
        ensures
            r matches Some(s) && s@ == self@.model,
    {
        Some(self.model.as_str())
    }

    /// Set this weapon's NIF model (none is stored as an empty model)
    pub fn set_model(&mut self, model: Option<String>)
        ensures
            final(self)@ == (WeaponModel {
                model: match model {
                    Some(m) => m@,
                    None => Seq::empty(),
                },
                ..old(self)@
            }),
    {
        self.model = match model {
            Some(m) => m,
            None => String::new(),
        };
        assert(self@.model =~= (match model {
            Some(m) => m@,
            None => Seq::<char>::empty(),
        }));
    }

    /// Get this weapon's name, if any
    pub fn name(&self) -> (r: Option<&str>)
        ensures
            r is Some <==> self@.name is Some,
            r matches Some(s) ==> self@.name == Some(s@),
    {
        opt_str(&self.name)
    }

    /// Set this weapon's name
    pub fn set_name(&mut self, name: Option<String>)
        ensures
            final(self)@ == (WeaponModel { name: opt_chars(name), ..old(self)@ }),
    {
        self.name = name;
    }

    /// Get the bits of this weapon's `f32` weight
    pub fn weight_bits(&self) -> (r: u32)
        ensures
            r == self@.data.weight,
    {
        self.data.weight
    }

    /// Set this weapon's weight from the bits of an `f32`
    pub fn set_weight_bits(&mut self, weight: u32)
        ensures
            final(self)@ == (WeaponModel { data: WeaponData { weight, ..old(self)@.data }, ..old(self)@ }),
    {
        self.data.weight = weight;
    }

    /// Get this weapon's value
    pub fn value(&self) -> (r: u32)
        ensures
            r == self@.data.value,
    {
        self.data.value
    }

    /// Set this weapon's value
    pub fn set_value(&mut self, value: u32)
        ensures
            final(self)@ == (WeaponModel { data: WeaponData { value, ..old(self)@.data }, ..old(self)@ }),
    {
        self.data.value = value;
    }

    /// Get this weapon's script, if any
    pub fn script(&self) -> (r: Option<&str>)
        ensures
            r is Some <==> self@.script is Some,
            r matches Some(s) ==> self@.script == Some(s@),
    {
        opt_str(&self.script)
    }

    /// Set this weapon's script
    pub fn set_script(&mut self, script: Option<String>)
        ensures
            final(self)@ == (WeaponModel { script: opt_chars(script), ..old(self)@ }),
    {
        self.script = script;
    }

    /// Get this weapon's icon texture, if any
    pub fn icon(&self) -> (r: Option<&str>)
        ensures
            r is Some <==> self@.icon is Some,
            r matches Some(s) ==> self@.icon == Some(s@),
    {
        opt_str(&self.icon)
    }

    /// Set this weapon's icon texture
    pub fn set_icon(&mut self, icon: Option<String>)
        ensures
            final(self)@ == (WeaponModel { icon: opt_chars(icon), ..old(self)@ }),
    {
        self.icon = icon;
    }

    /// Does this weapon ignore resistance to normal weapons?
    pub fn ignores_normal_weapon_resistance(&self) -> (r: bool)
        ensures
            r == (self@.data.flags & WEAPON_IGNORE_NORMAL_WEAPON_RESISTANCE != 0),
    {
        self.data.flags & WEAPON_IGNORE_NORMAL_WEAPON_RESISTANCE != 0
    }

    /// Sets whether this weapon ignores resistance to normal weapons
    pub fn set_ignores_normal_weapon_resistance(&mut self, ignore: bool)
        ensures
            final(self)@ == (WeaponModel {
                data: WeaponData {
                    flags: if ignore {
                        old(self)@.data.flags | WEAPON_IGNORE_NORMAL_WEAPON_RESISTANCE
                    } else {
                        old(self)@.data.flags & !WEAPON_IGNORE_NORMAL_WEAPON_RESISTANCE
                    },
                    ..old(self)@.data
                },
                ..old(self)@
            }),
    {
        if ignore {
            self.data.flags = self.data.flags | WEAPON_IGNORE_NORMAL_WEAPON_RESISTANCE;
        } else {
            self.data.flags = self.data.flags & !WEAPON_IGNORE_NORMAL_WEAPON_RESISTANCE;
        }
    }

    /// Is this weapon made of silver?
    pub fn is_silver(&self) -> (r: bool)
        ensures
            r == (self@.data.flags & WEAPON_SILVER != 0),
    {
        self.data.flags & WEAPON_SILVER != 0
    }

    /// Sets whether this weapon is made of silver
    pub fn set_is_silver(&mut self, is_silver: bool)
        ensures
            final(self)@ == (WeaponModel {
                data: WeaponData {
                    flags: if is_silver {
                        old(self)@.data.flags | WEAPON_SILVER
                    } else {
                        old(self)@.data.flags & !WEAPON_SILVER
                    },
                    ..old(self)@.data
                },
                ..old(self)@
            }),
    {
        if is_silver {
            self.data.flags = self.data.flags | WEAPON_SILVER;
        } else {
            self.data.flags = self.data.flags & !WEAPON_SILVER;
        }
    }
}

impl Enchantable for Weapon {
    fn enchantment(&self) -> (r: Option<&str>)
        ensures
            r is Some <==> self@.enchantment is Some,
            r matches Some(s) ==> self@.enchantment == Some(s@),
    {
        opt_str(&self.enchantment)
    }

    fn set_enchantment(&mut self, enchantment: Option<String>)
        ensures
            final(self)@ == (WeaponModel { enchantment: opt_chars(enchantment), ..old(self)@ }),
    {
        self.enchantment = enchantment;
    }

    fn enchantment_points(&self) -> (r: u32)
        ensures
            r == self@.data.enchantment_points,
    {
        self.data.enchantment_points as u32
    }

    /// Sets the enchantment points; a weapon holds them in 16 bits, so only the low 16 bits are
    /// kept
    fn set_enchantment_points(&mut self, enchantment_points: u32)
        ensures
            final(self)@ == (WeaponModel {
                data: WeaponData {
                    enchantment_points: (enchantment_points % 65536) as u16,
                    ..old(self)@.data
                },
                ..old(self)@
            }),
    {
        self.data.enchantment_points = (enchantment_points % 65536) as u16;
    }
}

} // verus!
