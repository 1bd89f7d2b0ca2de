//! Change records of Oblivion saves.

use vstd::prelude::*;

pub mod actor;
pub mod actorref;

pub use actorref::{ActorFlag, CustomClass, Item, Property, ScriptVariable, ScriptVariableValue};

use crate::bytes::{le_bytes, le_value, lemma_le_bytes_len, lemma_le_value_of_bytes, pow256, push_u16, push_u32};
use crate::common::{io_error, read_exact, read_u16, read_u32, read_u8};

verus! {

/// Indicates the type of record being changed
#[derive(Debug, Copy, Clone, PartialEq, Eq, Structural)]
pub enum ChangeType {
    Faction,
    Apparatus,
    Armor,
    Book,
    Clothing,
    Ingredient,
    Light,
    Miscellaneous,
    Weapon,
    Ammo,
    Npc,
    Creature,
    SoulGem,
    Key,
    Alchemy,
    Cell,
    ItemReference,
    CharacterReference,
    CreatureReference,
    Info,
    Quest,
    Package,
}

impl ChangeType {
    /// The number that stands for this value in the file formats
    pub open spec fn index(self) -> u8 {
        match self {
            ChangeType::Faction => 6u8,
            ChangeType::Apparatus => 19u8,
            ChangeType::Armor => 20u8,
            ChangeType::Book => 21u8,
            ChangeType::Clothing => 22u8,
            ChangeType::Ingredient => 23u8,
            ChangeType::Light => 26u8,
            ChangeType::Miscellaneous => 27u8,
            ChangeType::Weapon => 33u8,
            ChangeType::Ammo => 34u8,
            ChangeType::Npc => 35u8,
            ChangeType::Creature => 36u8,
            ChangeType::SoulGem => 38u8,
            ChangeType::Key => 39u8,
            ChangeType::Alchemy => 40u8,
            ChangeType::Cell => 48u8,
            ChangeType::ItemReference => 49u8,
            ChangeType::CharacterReference => 50u8,
            ChangeType::CreatureReference => 51u8,
            ChangeType::Info => 58u8,
            ChangeType::Quest => 59u8,
            ChangeType::Package => 61u8,
        }
    }

    /// The value that a number stands for, if any
    pub open spec fn from_index(v: u8) -> Option<ChangeType> {
        match v {
            6u8 => Some(ChangeType::Faction),
            19u8 => Some(ChangeType::Apparatus),
            20u8 => Some(ChangeType::Armor),
            21u8 => Some(ChangeType::Book),
            22u8 => Some(ChangeType::Clothing),
            23u8 => Some(ChangeType::Ingredient),
            26u8 => Some(ChangeType::Light),
            27u8 => Some(ChangeType::Miscellaneous),
            33u8 => Some(ChangeType::Weapon),
            34u8 => Some(ChangeType::Ammo),
            35u8 => Some(ChangeType::Npc),
            36u8 => Some(ChangeType::Creature),
            38u8 => Some(ChangeType::SoulGem),
            39u8 => Some(ChangeType::Key),
            40u8 => Some(ChangeType::Alchemy),
            48u8 => Some(ChangeType::Cell),
            49u8 => Some(ChangeType::ItemReference),
            50u8 => Some(ChangeType::CharacterReference),
            51u8 => Some(ChangeType::CreatureReference),
            58u8 => Some(ChangeType::Info),
            59u8 => Some(ChangeType::Quest),
            61u8 => Some(ChangeType::Package),
            _ => None,
        }
    }

    /// Gets the number that stands for this value
    pub fn to_u8(self) -> (r: u8)
        ensures
            r == self.index(),
    {
        match self {
            ChangeType::Faction => 6u8,
            ChangeType::Apparatus => 19u8,
            ChangeType::Armor => 20u8,
            ChangeType::Book => 21u8,
            ChangeType::Clothing => 22u8,
            ChangeType::Ingredient => 23u8,
            ChangeType::Light => 26u8,
            ChangeType::Miscellaneous => 27u8,
            ChangeType::Weapon => 33u8,
            ChangeType::Ammo => 34u8,
            ChangeType::Npc => 35u8,
            ChangeType::Creature => 36u8,
            ChangeType::SoulGem => 38u8,
            ChangeType::Key => 39u8,
            ChangeType::Alchemy => 40u8,
            ChangeType::Cell => 48u8,
            ChangeType::ItemReference => 49u8,
            ChangeType::CharacterReference => 50u8,
            ChangeType::CreatureReference => 51u8,
            ChangeType::Info => 58u8,
            ChangeType::Quest => 59u8,
            ChangeType::Package => 61u8,
        }
    }

    /// Gets the value that a number stands for, if any
    pub fn try_from_u8(v: u8) -> (r: Option<ChangeType>)
        ensures
            r == ChangeType::from_index(v),
    {
        match v {
            6u8 => Some(ChangeType::Faction),
            19u8 => Some(ChangeType::Apparatus),
            20u8 => Some(ChangeType::Armor),
            21u8 => Some(ChangeType::Book),
            22u8 => Some(ChangeType::Clothing),
            23u8 => Some(ChangeType::Ingredient),
            26u8 => Some(ChangeType::Light),
            27u8 => Some(ChangeType::Miscellaneous),
            33u8 => Some(ChangeType::Weapon),
            34u8 => Some(ChangeType::Ammo),
            35u8 => Some(ChangeType::Npc),
            36u8 => Some(ChangeType::Creature),
            38u8 => Some(ChangeType::SoulGem),
            39u8 => Some(ChangeType::Key),
            40u8 => Some(ChangeType::Alchemy),
            48u8 => Some(ChangeType::Cell),
            49u8 => Some(ChangeType::ItemReference),
            50u8 => Some(ChangeType::CharacterReference),
            51u8 => Some(ChangeType::CreatureReference),
            58u8 => Some(ChangeType::Info),
            59u8 => Some(ChangeType::Quest),
            61u8 => Some(ChangeType::Package),
            _ => None,
        }
    }

    /// A value's number stands for that value.
    pub proof fn lemma_index_roundtrip(self)
        ensures
            ChangeType::from_index(self.index()) == Some(self),
    {
    }

    /// A number that stands for a value is that value's number.
    pub proof fn lemma_from_index_roundtrip(v: u8)
        ensures
            ChangeType::from_index(v) matches Some(x) ==> x.index() == v,
    {
    }
}


/// The abstract content of a change record.
pub struct ChangeRecordModel {
    pub form_id: u32,
    pub change_type: ChangeType,
    pub flags: u32,
    pub version: u8,
    pub data: Seq<u8>,
}

/// A change record read from the front of `s`, and the bytes it took: form ID (`u32`), change
/// type (a byte), flags (`u32`), version (a byte), data size (`u16`), then the data.
pub open spec fn parse_change_record(s: Seq<u8>) -> Option<(ChangeRecordModel, nat)> {
    if s.len() < 12 {
        None
    } else {
        let size = le_value(s.subrange(10, 12));
        match ChangeType::from_index(s[4]) {
            None => None,
            Some(t) => if 12 + size > s.len() {
                None
            } else {
                Some(
                    (
                        ChangeRecordModel {
                            form_id: le_value(s.subrange(0, 4)) as u32,
                            change_type: t,
                            flags: le_value(s.subrange(5, 9)) as u32,
                            version: s[9],
                            data: s.subrange(12, 12 + size as int),
                        },
                        (12 + size) as nat,
                    ),
                )
            },
        }
    }
}

/// The bytes written for a change record; the data size is written modulo 65536.
pub open spec fn change_record_bytes(m: ChangeRecordModel) -> Seq<u8> {
    le_bytes(m.form_id as nat, 4) + seq![m.change_type.index()] + le_bytes(m.flags as nat, 4)
        + seq![m.version] + le_bytes(m.data.len() % 65536, 2) + m.data
}

/// A record in a save that records changes to objects
pub struct ChangeRecord {
    form_id: u32,
    change_type: ChangeType,
    flags: u32,
    version: u8,
    data: Vec<u8>,
}

impl View for ChangeRecord {
    type V = ChangeRecordModel;

    closed spec fn view(&self) -> ChangeRecordModel {
        ChangeRecordModel {
            form_id: self.form_id,
            change_type: self.change_type,
            flags: self.flags,
            version: self.version,
            data: self.data@,
        }
    }
}

impl ChangeRecord {
    /// Read a change record from the front of a byte reader
    ///
    /// Returns the record and the number of bytes it took: its 12-byte header and its data.
    /// Fails if the reader ends before the record does or the change type is unknown.
    pub fn read<'a>(f: &mut &'a [u8]) -> (r: std::io::Result<(ChangeRecord, usize)>)
        ensures
            r is Ok <==> parse_change_record(old(f)@) is Some,
            r matches Ok((rec, n)) ==> ({
                let (m, k) = parse_change_record(old(f)@).unwrap();
                &&& rec@ == m
                &&& n == k
                &&& final(f)@ == old(f)@.subrange(k as int, old(f)@.len() as int)
            }),
    {
        let ghost s = f@;
        if f.len() < 12 {
            return Err(io_error("unexpected end of change record"));
        }
        let form_id = read_u32(f).unwrap();
        assert(f@ =~= s.subrange(4, s.len() as int));
        let t = read_u8(f).unwrap();
        assert(f@ =~= s.subrange(5, s.len() as int));
        let change_type = match ChangeType::try_from_u8(t) {
            Some(c) => c,
            None => {
                return Err(io_error("unknown change type"));
            },
        };
        let flags = read_u32(f).unwrap();
        assert(f@ =~= s.subrange(9, s.len() as int));
        let version = read_u8(f).unwrap();
        assert(f@ =~= s.subrange(10, s.len() as int));
        let data_size = read_u16(f).unwrap() as usize;
        assert(f@ =~= s.subrange(12, s.len() as int));
        proof {
            assert(s.subrange(5, s.len() as int).subrange(0, 4) =~= s.subrange(5, 9));
            assert(s.subrange(10, s.len() as int).subrange(0, 2) =~= s.subrange(10, 12));
        }
        let bytes = match read_exact(f, data_size) {
            Ok(b) => b,
            Err(_) => {
                return Err(io_error("unexpected end of change record"));
            },
        };
        let data = vstd::slice::slice_to_vec(bytes);
        proof {
            assert(data@ =~= s.subrange(12, 12 + data_size as int));
            assert(f@ =~= s.subrange(12 + data_size as int, s.len() as int));
        }
        Ok((ChangeRecord { form_id, change_type, flags, version, data }, data_size + 12))
    }

    /// Gets the type of record being changed
    pub fn change_type(&self) -> (r: ChangeType)
        ensures
            r == self@.change_type,
    {
        self.change_type
    }

    /// Gets the change flags
    pub fn flags(&self) -> (r: u32)
        ensures
            r == self@.flags,
    {
        self.flags
    }

    /// Gets the changed data
    pub fn data(&self) -> (r: &[u8])
        ensures
            r@ == self@.data,
    {
        self.data.as_slice()
    }

    /// Write a change record to a byte buffer
    ///
    /// The data size is written as a `u16`, so only its low 16 bits are kept.
    pub fn write(&self, f: &mut Vec<u8>) -> (r: std::io::Result<()>)
        ensures
            r is Ok,
            final(f)@ == old(f)@ + change_record_bytes(self@),
    {
        push_u32(f, self.form_id);
        f.push(self.change_type.to_u8());
        push_u32(f, self.flags);
        f.push(self.version);
        push_u16(f, (self.data.len() % 65536) as u16);
        f.extend_from_slice(self.data.as_slice());
        assert(final(f)@ =~= old(f)@ + change_record_bytes(self@));
        Ok(())
    }
}

/// Reading back a written change record gives the same record, when its data fits a `u16`
/// size, and consumes exactly the written bytes, whatever follows.
pub proof fn lemma_change_record_roundtrip(m: ChangeRecordModel, rest: Seq<u8>)
    requires
        m.data.len() <= 65535,
    ensures
        parse_change_record(change_record_bytes(m) + rest) == Some(
            (m, change_record_bytes(m).len()),
        ),
        change_record_bytes(m).len() == 12 + m.data.len(),
{
    let s = change_record_bytes(m) + rest;
    lemma_le_bytes_len(m.form_id as nat, 4);
    lemma_le_bytes_len(m.flags as nat, 4);
    lemma_le_bytes_len(m.data.len() % 65536, 2);
    reveal_with_fuel(pow256, 5);
    lemma_le_value_of_bytes(m.form_id as nat, 4);
    lemma_le_value_of_bytes(m.flags as nat, 4);
    lemma_le_value_of_bytes(m.data.len(), 2);
    m.change_type.lemma_index_roundtrip();
    assert(s.subrange(0, 4) =~= le_bytes(m.form_id as nat, 4));
    assert(s.subrange(5, 9) =~= le_bytes(m.flags as nat, 4));
    assert(s.subrange(10, 12) =~= le_bytes(m.data.len(), 2));
    assert(s.subrange(12, 12 + m.data.len() as int) =~= m.data);
}

} // verus!
