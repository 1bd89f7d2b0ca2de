//! Changes to placed actors in Oblivion saves: script variables and the properties of inventory
//! items, with their binary forms.

use vstd::prelude::*;

use crate::bytes::{
    le_bytes, le_value, lemma_le_bytes_len, lemma_le_value_of_bytes, pow256, push_u16, push_u32,
    push_u64,
};
use crate::common::{io_error, read_exact, read_u16, read_u32, read_u64, read_u8};
use crate::tes3::reference::{lemma_words_bytes_len, lemma_words_bytes_word, words_bytes};

verus! {

/// Determines an actor's processing priority
#[derive(Copy, Clone, Debug, PartialEq, Eq, Structural)]
pub enum ActorFlag {
    High,
    MidHigh,
    MidLow,
    Low,
    NoFlag,
}

impl ActorFlag {
    /// The number that stands for this value in saves
    pub open spec fn index(self) -> u8 {
        match self {
            ActorFlag::High => 0u8,
            ActorFlag::MidHigh => 1u8,
            ActorFlag::MidLow => 2u8,
            ActorFlag::Low => 3u8,
            ActorFlag::NoFlag => 0xffu8,
        }
    }

    /// The value that a number stands for, if any
    pub open spec fn from_index(v: u8) -> Option<ActorFlag> {
        match v {
            0u8 => Some(ActorFlag::High),
            1u8 => Some(ActorFlag::MidHigh),
            2u8 => Some(ActorFlag::MidLow),
            3u8 => Some(ActorFlag::Low),
            0xffu8 => Some(ActorFlag::NoFlag),
            _ => None,
        }
    }

    /// Gets the number that stands for this value
    pub fn to_u8(self) -> (r: u8)
        ensures
            r == self.index(),
    {
        match self {
            ActorFlag::High => 0u8,
            ActorFlag::MidHigh => 1u8,
            ActorFlag::MidLow => 2u8,
            ActorFlag::Low => 3u8,
            ActorFlag::NoFlag => 0xffu8,
        }
    }

    /// Gets the value that a number stands for, if any
    pub fn try_from_u8(v: u8) -> (r: Option<ActorFlag>)
        ensures
            r == ActorFlag::from_index(v),
    {
        match v {
            0u8 => Some(ActorFlag::High),
            1u8 => Some(ActorFlag::MidHigh),
            2u8 => Some(ActorFlag::MidLow),
            3u8 => Some(ActorFlag::Low),
            0xffu8 => Some(ActorFlag::NoFlag),
            _ => None,
        }
    }

    /// A value's number stands for that value.
    pub proof fn lemma_index_roundtrip(self)
        ensures
            ActorFlag::from_index(self.index()) == Some(self),
    {
    }

    /// A number that stands for a value is that value's number.
    pub proof fn lemma_from_index_roundtrip(v: u8)
        ensures
            ActorFlag::from_index(v) matches Some(x) ==> x.index() == v,
    {
    }
}

/// An item in the player's inventory
#[derive(Debug)]
pub struct Item {
    iref: u32,
    stack_count: i32,
    changes: Vec<Vec<Property>>,
}

/// An active magical effect being applied to the player
#[derive(Debug)]
pub struct ActiveEffect {
    spell: u32,
    effect: u8,
    details: Vec<u8>,
}

/// A class, if the player created a custom class
#[derive(Debug)]
pub struct CustomClass {
    favored_attributes: [u32; 2],
    specialization: u32,
    major_skills: [u32; 7],
    flags: u32,
    services: u32,
    skill_trained: u8,
    max_training: u8,
    name: String,
    icon: String,
    unknown: u32,
}

/// Value of a script variable; a number is the bits of an `f64`
#[derive(Copy, Clone, Debug, PartialEq, Eq, Structural)]
pub enum ScriptVariableValue {
    Reference(u32),
    Number(u64),
}

/// A script variable value read from the front of `s`, and the bytes it took: a `u16` type,
/// then for type 0 the number's 8 bytes and for type `0xf000` a 4-byte reference.
pub open spec fn parse_value(s: Seq<u8>) -> Option<(ScriptVariableValue, nat)> {
    if s.len() < 2 {
        None
    } else {
        let t = le_value(s.subrange(0, 2));
        if t == 0 {
            if s.len() < 10 {
                None
            } else {
                Some((ScriptVariableValue::Number(le_value(s.subrange(2, 10)) as u64), 10))
            }
        } else if t == 0xf000 {
            if s.len() < 6 {
                None
            } else {
                Some((ScriptVariableValue::Reference(le_value(s.subrange(2, 6)) as u32), 6))
            }
        } else {
            None
        }
    }
}

/// The bytes written for a script variable value.
pub open spec fn value_bytes(v: ScriptVariableValue) -> Seq<u8> {
    match v {
        ScriptVariableValue::Number(n) => le_bytes(0, 2) + le_bytes(n as nat, 8),
        ScriptVariableValue::Reference(r) => le_bytes(0xf000, 2) + le_bytes(r as nat, 4),
    }
}

impl ScriptVariableValue {
    /// Reads a script variable value from the front of a byte reader
    ///
    /// Fails if the reader ends early or the value's type is unknown.
    pub fn read<'a>(f: &mut &'a [u8]) -> (r: std::io::Result<ScriptVariableValue>)
        ensures
            r is Ok <==> parse_value(old(f)@) is Some,
            r matches Ok(v) ==> ({
                let (m, n) = parse_value(old(f)@).unwrap();
                v == m && final(f)@ == old(f)@.subrange(n as int, old(f)@.len() as int)
            }),
    {
        let ghost s = f@;
        let var_type = match read_u16(f) {
            Ok(t) => t,
            Err(_) => {
                return Err(io_error("unexpected end of script variable"));
            },
        };
        if var_type == 0 {
            match read_u64(f) {
                Ok(n) => {
                    proof {
                        assert(s.subrange(2, s.len() as int).subrange(0, 8) =~= s.subrange(2, 10));
                        assert(f@ =~= s.subrange(10, s.len() as int));
                    }
                    Ok(ScriptVariableValue::Number(n))
                },
                Err(_) => Err(io_error("unexpected end of script variable")),
            }
        } else if var_type == 0xf000 {
            match read_u32(f) {
                Ok(v) => {
                    proof {
                        assert(s.subrange(2, s.len() as int).subrange(0, 4) =~= s.subrange(2, 6));
                        assert(f@ =~= s.subrange(6, s.len() as int));
                    }
                    Ok(ScriptVariableValue::Reference(v))
                },
                Err(_) => Err(io_error("unexpected end of script variable")),
            }
        } else {
            Err(io_error("unexpected script variable type"))
        }
    }

    /// Writes a script variable value to a byte buffer
    pub fn write(&self, f: &mut Vec<u8>) -> (r: std::io::Result<()>)
        ensures
            r is Ok,
            final(f)@ == old(f)@ + value_bytes(*self),
    {
        match self {
            ScriptVariableValue::Number(value) => {
                push_u16(f, 0u16);
                push_u64(f, *value);
            },
            ScriptVariableValue::Reference(value) => {
                push_u16(f, 0xf000u16);
                push_u32(f, *value);
            },
        }
        assert(final(f)@ =~= old(f)@ + value_bytes(*self));
        Ok(())
    }
}

/// Variables of a script referenced by a script property
#[derive(Copy, Clone, Debug, PartialEq, Eq, Structural)]
pub struct ScriptVariable {
    pub index: u16,
    pub value: ScriptVariableValue,
}

/// A script variable read from the front of `s`, and the bytes it took: a `u16` index, then the
/// value.
pub open spec fn parse_variable(s: Seq<u8>) -> Option<(ScriptVariable, nat)> {
    if s.len() < 2 {
        None
    } else {
        match parse_value(s.subrange(2, s.len() as int)) {
            Some((v, n)) => Some(
                (ScriptVariable { index: le_value(s.subrange(0, 2)) as u16, value: v }, n + 2),
            ),
            None => None,
        }
    }
}

/// The bytes written for a script variable.
pub open spec fn variable_bytes(v: ScriptVariable) -> Seq<u8> {
    le_bytes(v.index as nat, 2) + value_bytes(v.value)
}

impl ScriptVariable {
    /// Reads a script variable from the front of a byte reader
    ///
    /// Fails if the reader ends early or the value's type is unknown.
    pub fn read<'a>(f: &mut &'a [u8]) -> (r: std::io::Result<ScriptVariable>)
        ensures
            r is Ok <==> parse_variable(old(f)@) is Some,
            r matches Ok(v) ==> ({
                let (m, n) = parse_variable(old(f)@).unwrap();
                v == m && final(f)@ == old(f)@.subrange(n as int, old(f)@.len() as int)
            }),
    {
        let ghost s = f@;
        let index = match read_u16(f) {
            Ok(i) => i,
            Err(_) => {
                return Err(io_error("unexpected end of script variable"));
            },
        };
        let value = ScriptVariableValue::read(f)?;
        proof {
            let (m, n) = parse_value(s.subrange(2, s.len() as int)).unwrap();
            assert(f@ =~= s.subrange(n + 2int, s.len() as int));
        }
        Ok(ScriptVariable { index, value })
    }

    /// Writes a script variable to a byte buffer
    pub fn write(&self, f: &mut Vec<u8>) -> (r: std::io::Result<()>)
        ensures
            r is Ok,
            final(f)@ == old(f)@ + variable_bytes(*self),
    {
        push_u16(f, self.index);
        self.value.write(f)?;
        assert(final(f)@ =~= old(f)@ + variable_bytes(*self));
        Ok(())
    }
}


/// A little-endian `u16` at the front of `s`, if there are 2 bytes.
pub open spec fn u16_first(s: Seq<u8>) -> Option<u16> {
    if s.len() >= 2 {
        Some(le_value(s.subrange(0, 2)) as u16)
    } else {
        None
    }
}

/// A little-endian `u32` at the front of `s`, if there are 4 bytes.
pub open spec fn u32_first(s: Seq<u8>) -> Option<u32> {
    if s.len() >= 4 {
        Some(le_value(s.subrange(0, 4)) as u32)
    } else {
        None
    }
}

/// `n` script variables read in turn from the front of `s`, and the bytes they took.
pub open spec fn parse_variables(s: Seq<u8>, n: nat) -> Option<(Seq<ScriptVariable>, nat)>
    decreases n,
{
    if n == 0 {
        Some((Seq::empty(), 0))
    } else {
        match parse_variable(s) {
            Some((v, k)) => match parse_variables(s.subrange(k as int, s.len() as int), (n - 1) as nat) {
                Some((vs, k2)) => Some((seq![v] + vs, k + k2)),
                None => None,
            },
            None => None,
        }
    }
}

/// A parse takes no more bytes than there are, and gives as many variables as asked for.
pub proof fn lemma_parse_variables_len(s: Seq<u8>, n: nat)
    ensures
        parse_variables(s, n) matches Some((vs, k)) ==> k <= s.len() && vs.len() == n,
    decreases n,
{
    if n > 0 {
        if let Some((v, k)) = parse_variable(s) {
            lemma_parse_variables_len(s.subrange(k as int, s.len() as int), (n - 1) as nat);
        }
    }
}

/// The bytes written for a list of script variables, in order.
pub open spec fn variables_bytes(vs: Seq<ScriptVariable>) -> Seq<u8>
    decreases vs.len(),
{
    if vs.len() == 0 {
        Seq::empty()
    } else {
        variables_bytes(vs.drop_last()) + variable_bytes(vs.last())
    }
}

/// The `n` little-endian `u32` words at the front of `s`.
pub open spec fn words_first(s: Seq<u8>, n: nat) -> Seq<u32> {
    Seq::new(n, |i: int| le_value(s.subrange(4 * i, 4 * i + 4)) as u32)
}

/// The abstract content of a property; `f32` values are their bits.
pub enum PropertyModel {
    Script { script: u32, variables: Seq<ScriptVariable>, unknown: u8 },
    EquippedItem,
    EquippedAccessory,
    Unknown22(u32),
    Unknown23(Seq<u32>),
    Owner(u32),
    AffectedItemCount(u16),
    ItemHealth(u32),
    Time(u32),
    EnchantmentPoints(u32),
    Soul(u8),
    LeveledItem(Seq<u8>),
    Scale(u32),
    CrimeGold(u32),
    OblivionEntry { door: u32, x: u32, y: u32, z: u32 },
    CantWear,
    Poison(u32),
    Unknown4f(u32),
    BoundItem,
    ShortcutKey(u8),
}

/// A property whose payload is one `u32`, read from after its type byte, with the 5 bytes
/// taken.
pub open spec fn word_property(t: Seq<u8>, id: u8) -> Option<(PropertyModel, nat)> {
    match u32_first(t) {
        Some(v) => Some(
            (
                if id == 0x22 {
                    PropertyModel::Unknown22(v)
                } else if id == 0x27 {
                    PropertyModel::Owner(v)
                } else if id == 0x2b {
                    PropertyModel::ItemHealth(v)
                } else if id == 0x2d {
                    PropertyModel::Time(v)
                } else if id == 0x2e {
                    PropertyModel::EnchantmentPoints(v)
                } else if id == 0x37 {
                    PropertyModel::Scale(v)
                } else if id == 0x3d {
                    PropertyModel::CrimeGold(v)
                } else if id == 0x48 {
                    PropertyModel::Poison(v)
                } else {
                    PropertyModel::Unknown4f(v)
                },
                5,
            ),
        ),
        None => None,
    }
}

/// The type bytes of the properties whose payload is one `u32`.
pub open spec fn is_word_property(id: u8) -> bool {
    id == 0x22 || id == 0x27 || id == 0x2b || id == 0x2d || id == 0x2e || id == 0x37 || id == 0x3d
        || id == 0x48 || id == 0x4f
}

/// A script property read from after its type byte: the script (`u32`), the number of
/// variables (`u16`), the variables, and a final byte; with all the bytes taken.
pub open spec fn script_property(t: Seq<u8>) -> Option<(PropertyModel, nat)> {
    match (u32_first(t), u16_first(t.subrange(4, t.len() as int))) {
        (Some(script), Some(n)) => match parse_variables(t.subrange(6, t.len() as int), n as nat) {
            Some((vs, k)) => if 6 + k + 1 > t.len() {
                None
            } else {
                Some(
                    (
                        PropertyModel::Script { script, variables: vs, unknown: t[6 + k as int] },
                        1 + 6 + k + 1,
                    ),
                )
            },
            None => None,
        },
        _ => None,
    }
}

/// A property read from the front of `s`, and the bytes it took: a type byte, then a payload
/// that depends on the type.
pub open spec fn parse_property(s: Seq<u8>) -> Option<(PropertyModel, nat)> {
    if s.len() < 1 {
        None
    } else {
        let id = s[0];
        let t = s.subrange(1, s.len() as int);
        if id == 0x12 {
            script_property(t)
        } else if id == 0x1b {
            Some((PropertyModel::EquippedItem, 1))
        } else if id == 0x1c {
            Some((PropertyModel::EquippedAccessory, 1))
        } else if is_word_property(id) {
            word_property(t, id)
        } else if id == 0x23 {
            match u16_first(t) {
                Some(n) => if t.len() < 2 + 4 * n {
                    None
                } else {
                    Some(
                        (
                            PropertyModel::Unknown23(
                                words_first(t.subrange(2, t.len() as int), n as nat),
                            ),
                            (1 + 2 + 4 * n) as nat,
                        ),
                    )
                },
                None => None,
            }
        } else if id == 0x2a {
            match u16_first(t) {
                Some(v) => Some((PropertyModel::AffectedItemCount(v), 3)),
                None => None,
            }
        } else if id == 0x2f || id == 0x55 {
            if t.len() < 1 {
                None
            } else if id == 0x2f {
                Some((PropertyModel::Soul(t[0]), 2))
            } else {
                Some((PropertyModel::ShortcutKey(t[0]), 2))
            }
        } else if id == 0x36 {
            if t.len() < 5 {
                None
            } else {
                Some((PropertyModel::LeveledItem(t.subrange(0, 5)), 6))
            }
        } else if id == 0x3e {
            if t.len() < 16 {
                None
            } else {
                Some(
                    (
                        PropertyModel::OblivionEntry {
                            door: le_value(t.subrange(0, 4)) as u32,
                            x: le_value(t.subrange(4, 8)) as u32,
                            y: le_value(t.subrange(8, 12)) as u32,
                            z: le_value(t.subrange(12, 16)) as u32,
                        },
                        17,
                    ),
                )
            }
        } else if id == 0x47 {
            Some((PropertyModel::CantWear, 1))
        } else if id == 0x50 {
            Some((PropertyModel::BoundItem, 1))
        } else {
            None
        }
    }
}

/// The bytes written for a property: its type byte, then its payload.
pub open spec fn property_bytes(p: PropertyModel) -> Seq<u8> {
    match p {
        PropertyModel::Script { script, variables, unknown } => seq![0x12u8] + le_bytes(
            script as nat,
            4,
        ) + le_bytes(variables.len(), 2) + variables_bytes(variables) + seq![unknown],
        PropertyModel::EquippedItem => seq![0x1bu8],
        PropertyModel::EquippedAccessory => seq![0x1cu8],
        PropertyModel::Unknown22(v) => seq![0x22u8] + le_bytes(v as nat, 4),
        PropertyModel::Unknown23(vs) => seq![0x23u8] + le_bytes(vs.len(), 2) + words_bytes(vs),
        PropertyModel::Owner(v) => seq![0x27u8] + le_bytes(v as nat, 4),
        PropertyModel::AffectedItemCount(v) => seq![0x2au8] + le_bytes(v as nat, 2),
        PropertyModel::ItemHealth(v) => seq![0x2bu8] + le_bytes(v as nat, 4),
        PropertyModel::Time(v) => seq![0x2du8] + le_bytes(v as nat, 4),
        PropertyModel::EnchantmentPoints(v) => seq![0x2eu8] + le_bytes(v as nat, 4),
        PropertyModel::Soul(v) => seq![0x2fu8, v],
        PropertyModel::LeveledItem(d) => seq![0x36u8] + d,
        PropertyModel::Scale(v) => seq![0x37u8] + le_bytes(v as nat, 4),
        PropertyModel::CrimeGold(v) => seq![0x3du8] + le_bytes(v as nat, 4),
        PropertyModel::OblivionEntry { door, x, y, z } => seq![0x3eu8] + le_bytes(door as nat, 4)
            + le_bytes(x as nat, 4) + le_bytes(y as nat, 4) + le_bytes(z as nat, 4),
        PropertyModel::CantWear => seq![0x47u8],
        PropertyModel::Poison(v) => seq![0x48u8] + le_bytes(v as nat, 4),
        PropertyModel::Unknown4f(v) => seq![0x4fu8] + le_bytes(v as nat, 4),
        PropertyModel::BoundItem => seq![0x50u8],
        PropertyModel::ShortcutKey(v) => seq![0x55u8, v],
    }
}

/// A property can be written: its lists have no more entries than a `u16` counts.
pub open spec fn property_writable(p: PropertyModel) -> bool {
    match p {
        PropertyModel::Script { variables, .. } => variables.len() <= 65535,
        PropertyModel::Unknown23(vs) => vs.len() <= 65535,
        _ => true,
    }
}

/// Miscellaneous properties that appear in a change record's properties section; `f32` values
/// are their bits
///
/// Currently, only properties that appear in inventory items are implemented.
#[derive(Debug)]
pub enum Property {
    Script { script: u32, variables: Vec<ScriptVariable>, unknown: u8 },
    EquippedItem,
    EquippedAccessory,
    Unknown22(u32),
    Unknown23(Vec<u32>),
    Owner(u32),
    AffectedItemCount(u16),
    ItemHealth(u32),
    Time(u32),
    EnchantmentPoints(u32),
    Soul(u8),
    LeveledItem([u8; 5]),
    Scale(u32),
    CrimeGold(u32),
    OblivionEntry { door: u32, x: u32, y: u32, z: u32 },
    CantWear,
    Poison(u32),
    Unknown4f(u32),
    BoundItem,
    ShortcutKey(u8),
}

impl View for Property {
    type V = PropertyModel;

    open spec fn view(&self) -> PropertyModel {
        match self {
            Property::Script { script, variables, unknown } => PropertyModel::Script {
                script: *script,
                variables: variables@,
                unknown: *unknown,
            },
            Property::EquippedItem => PropertyModel::EquippedItem,
            Property::EquippedAccessory => PropertyModel::EquippedAccessory,
            Property::Unknown22(v) => PropertyModel::Unknown22(*v),
            Property::Unknown23(vs) => PropertyModel::Unknown23(vs@),
            Property::Owner(v) => PropertyModel::Owner(*v),
            Property::AffectedItemCount(v) => PropertyModel::AffectedItemCount(*v),
            Property::ItemHealth(v) => PropertyModel::ItemHealth(*v),
            Property::Time(v) => PropertyModel::Time(*v),
            Property::EnchantmentPoints(v) => PropertyModel::EnchantmentPoints(*v),
            Property::Soul(v) => PropertyModel::Soul(*v),
            Property::LeveledItem(d) => PropertyModel::LeveledItem(d@),
            Property::Scale(v) => PropertyModel::Scale(*v),
            Property::CrimeGold(v) => PropertyModel::CrimeGold(*v),
            Property::OblivionEntry { door, x, y, z } => PropertyModel::OblivionEntry {
                door: *door,
                x: *x,
                y: *y,
                z: *z,
            },
            Property::CantWear => PropertyModel::CantWear,
            Property::Poison(v) => PropertyModel::Poison(*v),
            Property::Unknown4f(v) => PropertyModel::Unknown4f(*v),
            Property::BoundItem => PropertyModel::BoundItem,
            Property::ShortcutKey(v) => PropertyModel::ShortcutKey(*v),
        }
    }
}

/// Reads a byte, failing with an I/O error at the end of the reader.
fn io_u8<'a>(f: &mut &'a [u8]) -> (r: std::io::Result<u8>)
    ensures
        r is Ok <==> 1 <= old(f)@.len(),
        r matches Ok(v) ==> v == old(f)@[0] && final(f)@ == old(f)@.subrange(1, old(f)@.len() as int),
{
    match read_u8(f) {
        Ok(v) => Ok(v),
        Err(_) => Err(io_error("unexpected end of property")),
    }
}

/// Reads a little-endian `u16`, failing with an I/O error at the end of the reader.
fn io_u16<'a>(f: &mut &'a [u8]) -> (r: std::io::Result<u16>)
    ensures
        r is Ok <==> u16_first(old(f)@) is Some,
        r matches Ok(v) ==> v == u16_first(old(f)@).unwrap() && final(f)@ == old(f)@.subrange(2, old(f)@.len() as int),
{
    match read_u16(f) {
        Ok(v) => Ok(v),
        Err(_) => Err(io_error("unexpected end of property")),
    }
}

/// Reads a little-endian `u32`, failing with an I/O error at the end of the reader.
fn io_u32<'a>(f: &mut &'a [u8]) -> (r: std::io::Result<u32>)
    ensures
        r is Ok <==> u32_first(old(f)@) is Some,
        r matches Ok(v) ==> v == u32_first(old(f)@).unwrap() && final(f)@ == old(f)@.subrange(4, old(f)@.len() as int),
{
    match read_u32(f) {
        Ok(v) => Ok(v),
        Err(_) => Err(io_error("unexpected end of property")),
    }
}

/// Reads `n` script variables in turn.
fn read_variables<'a>(f: &mut &'a [u8], n: u16) -> (r: std::io::Result<Vec<ScriptVariable>>)
    ensures
        r is Ok <==> parse_variables(old(f)@, n as nat) is Some,
        r matches Ok(vs) ==> ({
            let (m, k) = parse_variables(old(f)@, n as nat).unwrap();
            vs@ == m && final(f)@ == old(f)@.subrange(k as int, old(f)@.len() as int)
        }),
    decreases n,
{
    let ghost s = f@;
    if n == 0 {
        assert(f@ =~= s.subrange(0, s.len() as int));
        return Ok(Vec::new());
    }
    let v = ScriptVariable::read(f)?;
    let ghost k = parse_variable(s).unwrap().1;
    let mut rest = read_variables(f, n - 1)?;
    proof {
        lemma_parse_variables_len(s.subrange(k as int, s.len() as int), (n - 1) as nat);
        let (vs, k2) = parse_variables(s.subrange(k as int, s.len() as int), (n - 1) as nat).unwrap();
        assert(f@ =~= s.subrange((k + k2) as int, s.len() as int));
    }
    let ghost tail = rest@;
    rest.insert(0, v);
    assert(rest@ =~= seq![v] + tail);
    Ok(rest)
}

impl Property {
    /// Reads the payload of a script property, after its type byte.
    fn read_script<'a>(f: &mut &'a [u8]) -> (r: std::io::Result<Property>)
        ensures
            r is Ok <==> script_property(old(f)@) is Some,
            r matches Ok(p) ==> ({
                let (m, n) = script_property(old(f)@).unwrap();
                p@ == m && final(f)@ == old(f)@.subrange(n - 1, old(f)@.len() as int)
            }),
    {
        let ghost t = f@;
        let script = io_u32(f)?;
        let ghost w = f@;
        assert(t.subrange(4, t.len() as int) =~= w);
        let num_vars = io_u16(f)?;
        assert(f@ =~= t.subrange(6, t.len() as int));
        assert(t.subrange(4, t.len() as int).subrange(0, 2) =~= t.subrange(4, 6));
        let variables = match read_variables(f, num_vars) {
            Ok(vs) => vs,
            Err(e) => {
                return Err(e);
            },
        };
        let ghost k = parse_variables(t.subrange(6, t.len() as int), num_vars as nat).unwrap().1;
        proof {
            lemma_parse_variables_len(t.subrange(6, t.len() as int), num_vars as nat);
        }
        assert(f@ =~= t.subrange(6 + k as int, t.len() as int));
        let unknown = io_u8(f)?;
        assert(f@ =~= t.subrange(6 + k as int + 1, t.len() as int));
        Ok(Property::Script { script, variables, unknown })
    }

    /// Reads the payload of an `Unknown23` property, after its type byte.
    fn read_words<'a>(f: &mut &'a [u8]) -> (r: std::io::Result<Property>)
        ensures
            r is Ok <==> parse_property(seq![0x23u8] + old(f)@) is Some,
            r matches Ok(p) ==> ({
                let (m, n) = parse_property(seq![0x23u8] + old(f)@).unwrap();
                p@ == m && final(f)@ == old(f)@.subrange(n - 1, old(f)@.len() as int)
            }),
    {
        let ghost t = f@;
        assert((seq![0x23u8] + t).subrange(1, t.len() as int + 1) =~= t);
        let num_items = io_u16(f)?;
        let ghost w = f@;
        assert(w =~= t.subrange(2, t.len() as int));
        if f.len() < 4 * (num_items as usize) {
            return Err(io_error("unexpected end of property"));
        }
        let mut items: Vec<u32> = Vec::new();
        let mut i: u16 = 0;
        while i < num_items
            invariant
                i <= num_items,
                w.len() >= 4 * num_items,
                f@ == w.subrange(4 * i, w.len() as int),
                items@ == words_first(w, i as nat),
            decreases num_items - i,
        {
            let ghost before = f@;
            let v = read_u32(f).unwrap();
            assert(before.subrange(0, 4) =~= w.subrange(4 * i, 4 * i + 4));
            assert(f@ =~= w.subrange(4 * i + 4, w.len() as int));
            items.push(v);
            assert(items@ =~= words_first(w, (i + 1) as nat));
            i = i + 1;
        }
        Ok(Property::Unknown23(items))
    }

    /// Reads a property from the front of a byte reader
    ///
    /// Fails if the reader ends early or the property type is not implemented.
    pub fn read<'a>(f: &mut &'a [u8]) -> (r: std::io::Result<Property>)
        ensures
            r is Ok <==> parse_property(old(f)@) is Some,
            r matches Ok(p) ==> ({
                let (m, n) = parse_property(old(f)@).unwrap();
                p@ == m && final(f)@ == old(f)@.subrange(n as int, old(f)@.len() as int)
            }),
    {
        let ghost s = f@;
        let id = io_u8(f)?;
        let ghost t = f@;
        assert(t =~= s.subrange(1, s.len() as int));
        assert(s =~= seq![id] + t);
        if id == 0x12 {
            let r = Self::read_script(f);
            proof {
                if r is Ok {
                    let (m, n) = script_property(t).unwrap();
                    assert(f@ =~= s.subrange(n as int, s.len() as int));
                }
            }
            r
        } else if id == 0x1b {
            Ok(Property::EquippedItem)
        } else if id == 0x1c {
            Ok(Property::EquippedAccessory)
        } else if id == 0x22 || id == 0x27 || id == 0x2b || id == 0x2d || id == 0x2e || id == 0x37
            || id == 0x3d || id == 0x48 || id == 0x4f {
            let v = io_u32(f)?;
            assert(f@ =~= s.subrange(5, s.len() as int));
            if id == 0x22 {
                Ok(Property::Unknown22(v))
            } else if id == 0x27 {
                Ok(Property::Owner(v))
            } else if id == 0x2b {
                Ok(Property::ItemHealth(v))
            } else if id == 0x2d {
                Ok(Property::Time(v))
            } else if id == 0x2e {
                Ok(Property::EnchantmentPoints(v))
            } else if id == 0x37 {
                Ok(Property::Scale(v))
            } else if id == 0x3d {
                Ok(Property::CrimeGold(v))
            } else if id == 0x48 {
                Ok(Property::Poison(v))
            } else {
                Ok(Property::Unknown4f(v))
            }
        } else if id == 0x23 {
            let r = Self::read_words(f);
            proof {
                if r is Ok {
                    let (m, n) = parse_property(s).unwrap();
                    assert(f@ =~= s.subrange(n as int, s.len() as int));
                }
            }
            r
        } else if id == 0x2a {
            let v = io_u16(f)?;
            assert(f@ =~= s.subrange(3, s.len() as int));
            Ok(Property::AffectedItemCount(v))
        } else if id == 0x2f {
            let v = io_u8(f)?;
            assert(f@ =~= s.subrange(2, s.len() as int));
            Ok(Property::Soul(v))
        } else if id == 0x55 {
            let v = io_u8(f)?;
            assert(f@ =~= s.subrange(2, s.len() as int));
            Ok(Property::ShortcutKey(v))
        } else if id == 0x36 {
            let b = match read_exact(f, 5) {
                Ok(b) => b,
                Err(_) => {
                    return Err(io_error("unexpected end of property"));
                },
            };
            let buf = [b[0], b[1], b[2], b[3], b[4]];
            assert(buf@ =~= t.subrange(0, 5));
            assert(f@ =~= s.subrange(6, s.len() as int));
            Ok(Property::LeveledItem(buf))
        } else if id == 0x3e {
            if f.len() < 16 {
                return Err(io_error("unexpected end of property"));
            }
            let door = read_u32(f).unwrap();
            let ghost t1 = f@;
            assert(t1 =~= t.subrange(4, t.len() as int));
            let x = read_u32(f).unwrap();
            assert(t1.subrange(0, 4) =~= t.subrange(4, 8));
            let ghost t2 = f@;
            assert(t2 =~= t.subrange(8, t.len() as int));
            let y = read_u32(f).unwrap();
            assert(t2.subrange(0, 4) =~= t.subrange(8, 12));
            let ghost t3 = f@;
            assert(t3 =~= t.subrange(12, t.len() as int));
            let z = read_u32(f).unwrap();
            assert(t3.subrange(0, 4) =~= t.subrange(12, 16));
            assert(f@ =~= s.subrange(17, s.len() as int));
            Ok(Property::OblivionEntry { door, x, y, z })
        } else if id == 0x47 {
            Ok(Property::CantWear)
        } else if id == 0x50 {
            Ok(Property::BoundItem)
        } else {
            Err(io_error("unimplemented property type"))
        }
    }

    /// Writes a property to a byte buffer
    ///
    /// Fails with an I/O error, writing nothing, if a list has more entries than a `u16` counts.
    pub fn write(&self, f: &mut Vec<u8>) -> (r: std::io::Result<()>)
        ensures
            r is Ok <==> property_writable(self@),
            r is Ok ==> final(f)@ == old(f)@ + property_bytes(self@),
            r is Err ==> final(f)@ == old(f)@,
    {
        match self {
            Property::Script { script, variables, unknown } => {
                if variables.len() > 65535 {
                    return Err(io_error("Too many script variables"));
                }
                f.push(0x12u8);
                push_u32(f, *script);
                push_u16(f, variables.len() as u16);
                let ghost head = f@;
                let mut i: usize = 0;
                while i < variables.len()
                    invariant
                        i <= variables@.len(),
                        f@ == head + variables_bytes(variables@.take(i as int)),
                    decreases variables@.len() - i,
                {
                    variables[i].write(f)?;
                    assert(variables@.take(i + 1).drop_last() =~= variables@.take(i as int));
                    assert(f@ =~= head + variables_bytes(variables@.take(i + 1)));
                    i = i + 1;
                }
                assert(variables@.take(i as int) =~= variables@);
                f.push(*unknown);
            },
            Property::EquippedItem => f.push(0x1bu8),
            Property::EquippedAccessory => f.push(0x1cu8),
            Property::Unknown22(value) => {
                f.push(0x22u8);
                push_u32(f, *value);
            },
            Property::Unknown23(values) => {
                if values.len() > 65535 {
                    return Err(io_error("Too many Unknown23 values"));
                }
                f.push(0x23u8);
                push_u16(f, values.len() as u16);
                let ghost head = f@;
                let mut i: usize = 0;
                while i < values.len()
                    invariant
                        i <= values@.len(),
                        f@ == head + words_bytes(values@.take(i as int)),
                    decreases values@.len() - i,
                {
                    push_u32(f, values[i]);
                    assert(values@.take(i + 1).drop_last() =~= values@.take(i as int));
                    assert(f@ =~= head + words_bytes(values@.take(i + 1)));
                    i = i + 1;
                }
                assert(values@.take(i as int) =~= values@);
            },
            Property::Owner(value) => {
                f.push(0x27u8);
                push_u32(f, *value);
            },
            Property::AffectedItemCount(count) => {
                f.push(0x2au8);
                push_u16(f, *count);
            },
            Property::ItemHealth(health) => {
                f.push(0x2bu8);
                push_u32(f, *health);
            },
            Property::Time(time) => {
                f.push(0x2du8);
                push_u32(f, *time);
            },
            Property::EnchantmentPoints(points) => {
                f.push(0x2eu8);
                push_u32(f, *points);
            },
            Property::Soul(value) => {
                f.push(0x2fu8);
                f.push(*value);
            },
            Property::LeveledItem(data) => {
                f.push(0x36u8);
                f.extend_from_slice(data.as_slice());
            },
            Property::Scale(value) => {
                f.push(0x37u8);
                push_u32(f, *value);
            },
            Property::CrimeGold(value) => {
                f.push(0x3du8);
                push_u32(f, *value);
            },
            Property::OblivionEntry { door, x, y, z } => {
                f.push(0x3eu8);
                push_u32(f, *door);
                push_u32(f, *x);
                push_u32(f, *y);
                push_u32(f, *z);
            },
            Property::CantWear => f.push(0x47u8),
            Property::Poison(value) => {
                f.push(0x48u8);
                push_u32(f, *value);
            },
            Property::Unknown4f(value) => {
                f.push(0x4fu8);
                push_u32(f, *value);
            },
            Property::BoundItem => f.push(0x50u8),
            Property::ShortcutKey(key) => {
                f.push(0x55u8);
                f.push(*key);
            },
        }
        assert(final(f)@ =~= old(f)@ + property_bytes(self@));
        Ok(())
    }
}


/// A script variable value's bytes read back as the value, whatever follows.
pub proof fn lemma_value_roundtrip(v: ScriptVariableValue, rest: Seq<u8>)
    ensures
        parse_value(value_bytes(v) + rest) == Some((v, value_bytes(v).len())),
{
    let s = value_bytes(v) + rest;
    reveal_with_fuel(pow256, 9);
    lemma_le_bytes_len(0, 2);
    match v {
        ScriptVariableValue::Number(n) => {
            lemma_le_bytes_len(n as nat, 8);
            lemma_le_value_of_bytes(0, 2);
            lemma_le_value_of_bytes(n as nat, 8);
            assert(s.subrange(0, 2) =~= le_bytes(0, 2));
            assert(s.subrange(2, 10) =~= le_bytes(n as nat, 8));
        },
        ScriptVariableValue::Reference(r) => {
            lemma_le_bytes_len(0xf000, 2);
            lemma_le_bytes_len(r as nat, 4);
            lemma_le_value_of_bytes(0xf000, 2);
            lemma_le_value_of_bytes(r as nat, 4);
            assert(s.subrange(0, 2) =~= le_bytes(0xf000, 2));
            assert(s.subrange(2, 6) =~= le_bytes(r as nat, 4));
        },
    }
}

/// A script variable's bytes read back as the variable, whatever follows.
pub proof fn lemma_variable_roundtrip(v: ScriptVariable, rest: Seq<u8>)
    ensures
        parse_variable(variable_bytes(v) + rest) == Some((v, variable_bytes(v).len())),
{
    let s = variable_bytes(v) + rest;
    reveal_with_fuel(pow256, 3);
    lemma_le_bytes_len(v.index as nat, 2);
    lemma_le_value_of_bytes(v.index as nat, 2);
    assert(s.subrange(0, 2) =~= le_bytes(v.index as nat, 2));
    assert(s.subrange(2, s.len() as int) =~= value_bytes(v.value) + rest);
    lemma_value_roundtrip(v.value, rest);
}

/// The bytes of a list of variables are those of the first, then those of the rest.
pub proof fn lemma_variables_bytes_front(vs: Seq<ScriptVariable>)
    requires
        vs.len() > 0,
    ensures
        variables_bytes(vs) == variable_bytes(vs[0]) + variables_bytes(vs.drop_first()),
    decreases vs.len(),
{
    reveal_with_fuel(variables_bytes, 2);
    if vs.len() == 1 {
        assert(vs.drop_last().len() == 0);
        assert(vs.drop_first().len() == 0);
        assert(variables_bytes(vs) =~= variable_bytes(vs[0]) + variables_bytes(vs.drop_first()));
    } else {
        lemma_variables_bytes_front(vs.drop_last());
        assert(vs.drop_last().drop_first() =~= vs.drop_first().drop_last());
        assert(vs.drop_first().last() == vs.last());
        assert(variables_bytes(vs) =~= variable_bytes(vs[0]) + variables_bytes(vs.drop_first()));
    }
}

/// A list of variables' bytes read back as the list, whatever follows.
pub proof fn lemma_variables_roundtrip(vs: Seq<ScriptVariable>, rest: Seq<u8>)
    ensures
        parse_variables(variables_bytes(vs) + rest, vs.len()) == Some(
            (vs, variables_bytes(vs).len()),
        ),
    decreases vs.len(),
{
    if vs.len() == 0 {
        assert(vs =~= Seq::<ScriptVariable>::empty());
    } else {
        lemma_variables_bytes_front(vs);
        let a = variable_bytes(vs[0]);
        let b = variables_bytes(vs.drop_first());
        let s = variables_bytes(vs) + rest;
        assert(s =~= a + (b + rest));
        lemma_variable_roundtrip(vs[0], b + rest);
        assert(s.subrange(a.len() as int, s.len() as int) =~= b + rest);
        lemma_variables_roundtrip(vs.drop_first(), rest);
        assert(seq![vs[0]] + vs.drop_first() =~= vs);
    }
}

/// A script property's bytes read back as the property.
proof fn lemma_script_roundtrip(script: u32, variables: Seq<ScriptVariable>, unknown: u8, rest: Seq<u8>)
    requires
        variables.len() <= 65535,
    ensures
        ({
            let p = PropertyModel::Script { script, variables, unknown };
            parse_property(property_bytes(p) + rest) == Some((p, property_bytes(p).len()))
        }),
{
    let p = PropertyModel::Script { script, variables, unknown };
    let s = property_bytes(p) + rest;
    let t = s.subrange(1, s.len() as int);
    reveal_with_fuel(pow256, 5);
    let vb = variables_bytes(variables);
    lemma_le_bytes_len(script as nat, 4);
    lemma_le_bytes_len(variables.len(), 2);
    lemma_le_value_of_bytes(script as nat, 4);
    lemma_le_value_of_bytes(variables.len(), 2);
    assert(t =~= le_bytes(script as nat, 4) + le_bytes(variables.len(), 2) + vb + (seq![unknown]
        + rest));
    assert(t.subrange(0, 4) =~= le_bytes(script as nat, 4));
    assert(t.subrange(4, t.len() as int).subrange(0, 2) =~= le_bytes(variables.len(), 2));
    assert(t.subrange(6, t.len() as int) =~= vb + (seq![unknown] + rest));
    lemma_variables_roundtrip(variables, seq![unknown] + rest);
    assert(t[6 + vb.len() as int] == unknown);
    assert(script_property(t) == Some((p, 1 + 6 + vb.len() + 1)));
}

/// An `Unknown23` property's bytes read back as the property.
proof fn lemma_words_roundtrip(vs: Seq<u32>, rest: Seq<u8>)
    requires
        vs.len() <= 65535,
    ensures
        parse_property(property_bytes(PropertyModel::Unknown23(vs)) + rest) == Some(
            (PropertyModel::Unknown23(vs), property_bytes(PropertyModel::Unknown23(vs)).len()),
        ),
{
    let s = property_bytes(PropertyModel::Unknown23(vs)) + rest;
    let t = s.subrange(1, s.len() as int);
    reveal_with_fuel(pow256, 5);
    lemma_le_bytes_len(vs.len(), 2);
    lemma_le_value_of_bytes(vs.len(), 2);
    lemma_words_bytes_len(vs);
    assert(t =~= le_bytes(vs.len(), 2) + words_bytes(vs) + rest);
    assert(t.subrange(0, 2) =~= le_bytes(vs.len(), 2));
    let w = t.subrange(2, t.len() as int);
    assert(w =~= words_bytes(vs) + rest);
    assert forall|i: int| 0 <= i < vs.len() implies #[trigger] words_first(w, vs.len())[i]
        == vs[i] by {
        lemma_words_bytes_word(vs, i);
        assert(w.subrange(4 * i, 4 * i + 4) =~= words_bytes(vs).subrange(4 * i, 4 * i + 4));
        lemma_le_value_of_bytes(vs[i] as nat, 4);
    }
    assert(words_first(w, vs.len()) =~= vs);
}

/// An `OblivionEntry` property's bytes read back as the property.
proof fn lemma_entry_roundtrip(door: u32, x: u32, y: u32, z: u32, rest: Seq<u8>)
    ensures
        ({
            let p = PropertyModel::OblivionEntry { door, x, y, z };
            parse_property(property_bytes(p) + rest) == Some((p, property_bytes(p).len()))
        }),
{
    let p = PropertyModel::OblivionEntry { door, x, y, z };
    let s = property_bytes(p) + rest;
    let t = s.subrange(1, s.len() as int);
    reveal_with_fuel(pow256, 5);
    lemma_le_bytes_len(door as nat, 4);
    lemma_le_bytes_len(x as nat, 4);
    lemma_le_bytes_len(y as nat, 4);
    lemma_le_bytes_len(z as nat, 4);
    lemma_le_value_of_bytes(door as nat, 4);
    lemma_le_value_of_bytes(x as nat, 4);
    lemma_le_value_of_bytes(y as nat, 4);
    lemma_le_value_of_bytes(z as nat, 4);
    assert(t.subrange(0, 4) =~= le_bytes(door as nat, 4));
    assert(t.subrange(4, 8) =~= le_bytes(x as nat, 4));
    assert(t.subrange(8, 12) =~= le_bytes(y as nat, 4));
    assert(t.subrange(12, 16) =~= le_bytes(z as nat, 4));
}

/// A property's bytes read back as the property, whatever follows, when its lists have no more
/// entries than a `u16` counts and a leveled item has its 5 bytes.
pub proof fn lemma_property_roundtrip(p: PropertyModel, rest: Seq<u8>)
    requires
        property_writable(p),
        p matches PropertyModel::LeveledItem(d) ==> d.len() == 5,
    ensures
        parse_property(property_bytes(p) + rest) == Some((p, property_bytes(p).len())),
{
    let s = property_bytes(p) + rest;
    let t = s.subrange(1, s.len() as int);
    match p {
        PropertyModel::Script { script, variables, unknown } => {
            lemma_script_roundtrip(script, variables, unknown, rest);
        },
        PropertyModel::Unknown23(vs) => {
            lemma_words_roundtrip(vs, rest);
        },
        PropertyModel::OblivionEntry { door, x, y, z } => {
            lemma_entry_roundtrip(door, x, y, z, rest);
        },
        PropertyModel::AffectedItemCount(v) => {
            reveal_with_fuel(pow256, 3);
            lemma_le_bytes_len(v as nat, 2);
            lemma_le_value_of_bytes(v as nat, 2);
            assert(t.subrange(0, 2) =~= le_bytes(v as nat, 2));
        },
        PropertyModel::LeveledItem(d) => {
            assert(t.subrange(0, 5) =~= d);
        },
        PropertyModel::Unknown22(v) => {
            assert(t =~= le_bytes(v as nat, 4) + rest);
            lemma_word_payload(v, rest);
        },
        PropertyModel::Owner(v) => {
            assert(t =~= le_bytes(v as nat, 4) + rest);
            lemma_word_payload(v, rest);
        },
        PropertyModel::ItemHealth(v) => {
            assert(t =~= le_bytes(v as nat, 4) + rest);
            lemma_word_payload(v, rest);
        },
        PropertyModel::Time(v) => {
            assert(t =~= le_bytes(v as nat, 4) + rest);
            lemma_word_payload(v, rest);
        },
        PropertyModel::EnchantmentPoints(v) => {
            assert(t =~= le_bytes(v as nat, 4) + rest);
            lemma_word_payload(v, rest);
        },
        PropertyModel::Scale(v) => {
            assert(t =~= le_bytes(v as nat, 4) + rest);
            lemma_word_payload(v, rest);
        },
        PropertyModel::CrimeGold(v) => {
            assert(t =~= le_bytes(v as nat, 4) + rest);
            lemma_word_payload(v, rest);
        },
        PropertyModel::Poison(v) => {
            assert(t =~= le_bytes(v as nat, 4) + rest);
            lemma_word_payload(v, rest);
        },
        PropertyModel::Unknown4f(v) => {
            assert(t =~= le_bytes(v as nat, 4) + rest);
            lemma_word_payload(v, rest);
        },
        _ => {},
    }
}

/// A payload that begins with the bytes of a word reads back as that word.
proof fn lemma_word_payload(v: u32, rest: Seq<u8>)
    ensures
        u32_first(le_bytes(v as nat, 4) + rest) == Some(v),
        le_bytes(v as nat, 4).len() == 4,
{
    reveal_with_fuel(pow256, 5);
    lemma_le_bytes_len(v as nat, 4);
    lemma_le_value_of_bytes(v as nat, 4);
    assert((le_bytes(v as nat, 4) + rest).subrange(0, 4) =~= le_bytes(v as nat, 4));
}

} // verus!
