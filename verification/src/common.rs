//! Enumerations shared by both games, size limits, and reading from a byte slice.

use vstd::prelude::*;

use crate::bytes::{le_value, read_u16_at, read_u32_at, read_u64_at};
use crate::error::{limit_exceeded, TesError};

verus! {

/// Maximum size in bytes of a record or field
pub const MAX_DATA: usize = 4294967295;

/// Maximum size of length-prefixed strings
pub const MAX_BSTRING: usize = 255;

/// The error type of std's I/O, declared so that functions can return it.
#[verifier::external_type_specification]
#[verifier::external_body]
pub struct ExIoError(std::io::Error);

/// Makes an I/O error of the kind `InvalidData` that carries `msg`: calls std's
/// `io::Error::new`.
///
/// Nothing is claimed of the error that comes back.
#[verifier::external_body]
pub fn io_error(msg: &str) -> std::io::Error {
    std::io::Error::new(std::io::ErrorKind::InvalidData, msg)
}

/// A writer that writes all of a buffer or fails; a partial write would leave a file invalid
pub trait WriteExact {
    /// Writes all of `buf`
    fn write_exact(&mut self, buf: &[u8]) -> std::io::Result<()>;
}

impl WriteExact for Vec<u8> {
    /// Appends all of `buf`; writing to memory never fails
    fn write_exact(&mut self, buf: &[u8]) -> (r: std::io::Result<()>)
        ensures
            r is Ok,
            final(self)@ == old(self)@ + buf@,
    {
        self.extend_from_slice(buf);
        Ok(())
    }
}

/// Either an owned value or a reference to such a value
#[derive(Debug)]
pub enum OwnedOrRef<'a, T> {
    Owned(T),
    Ref(&'a T),
}

impl<'a, T> std::ops::Deref for OwnedOrRef<'a, T> {
    type Target = T;

    /// Borrows the value, owned or referenced
    fn deref(&self) -> (r: &T)
        ensures
            *r == match self {
                OwnedOrRef::Owned(v) => *v,
                OwnedOrRef::Ref(v) => **v,
            },
    {
        match self {
            OwnedOrRef::Owned(value) => value,
            OwnedOrRef::Ref(value) => *value,
        }
    }
}

/// Checks that a length does not exceed a maximum.
pub fn check_size(len: usize, max_size: usize, msg: &str) -> (r: Result<(), TesError>)
    ensures
        r is Ok <==> len <= max_size,
        r matches Err(e) ==> e matches TesError::LimitExceeded { max_size: m, actual_size: a, .. }
            && m == max_size && a == len,
{
    if len > max_size {
        Err(limit_exceeded(msg, max_size, len))
    } else {
        Ok(())
    }
}

/// A length of field or record data that the formats can record and that leaves room, within
/// `usize`, for the field header before it. The second bound only matters on 32-bit targets.
pub open spec fn data_len_ok(len: nat) -> bool {
    len <= MAX_DATA && len + 8 <= usize::MAX
}

/// Checks a length of field or record data against [`MAX_DATA`] and the `usize` range.
pub fn check_data_size(len: usize, msg: &str) -> (r: Result<(), TesError>)
    ensures
        r is Ok <==> data_len_ok(len as nat),
        r matches Err(e) ==> e is LimitExceeded,
{
    check_size(len, MAX_DATA, msg)?;
    check_size(len, usize::MAX - 8, msg)
}

/// Takes the next `n` bytes from a reader, advancing it past them.
///
/// Fails with [`TesError::UnexpectedEof`] if fewer than `n` bytes remain; the reader is then
/// left where it was.
pub fn read_exact<'a>(f: &mut &'a [u8], n: usize) -> (r: Result<&'a [u8], TesError>)
    ensures
        r is Ok <==> n <= old(f)@.len(),
        r matches Ok(bytes) ==> bytes@ == old(f)@.subrange(0, n as int) && final(f)@
            == old(f)@.subrange(n as int, old(f)@.len() as int),
        r matches Err(e) ==> e is UnexpectedEof && final(f)@ == old(f)@,
{
    let cur: &'a [u8] = *f;
    if n <= cur.len() {
        let head = vstd::slice::slice_subrange(cur, 0, n);
        let tail = vstd::slice::slice_subrange(cur, n, cur.len());
        *f = tail;
        Ok(head)
    } else {
        Err(TesError::UnexpectedEof)
    }
}

/// Reads a byte from a reader.
pub fn read_u8<'a>(f: &mut &'a [u8]) -> (r: Result<u8, TesError>)
    ensures
        r is Ok <==> 1 <= old(f)@.len(),
        r matches Ok(v) ==> v == old(f)@[0] && final(f)@ == old(f)@.subrange(
            1,
            old(f)@.len() as int,
        ),
        r matches Err(e) ==> e is UnexpectedEof && final(f)@ == old(f)@,
{
    let b = read_exact(f, 1)?;
    Ok(b[0])
}

/// Reads a little-endian `u16` from a reader.
pub fn read_u16<'a>(f: &mut &'a [u8]) -> (r: Result<u16, TesError>)
    ensures
        r is Ok <==> 2 <= old(f)@.len(),
        r matches Ok(v) ==> v as nat == le_value(old(f)@.subrange(0, 2)) && final(f)@
            == old(f)@.subrange(2, old(f)@.len() as int),
        r matches Err(e) ==> e is UnexpectedEof && final(f)@ == old(f)@,
{
    let b = read_exact(f, 2)?;
    proof {
        assert(b@.subrange(0, 2) =~= b@);
    }
    Ok(read_u16_at(b, 0).unwrap())
}

/// Reads a little-endian `u32` from a reader.
pub fn read_u32<'a>(f: &mut &'a [u8]) -> (r: Result<u32, TesError>)
    ensures
        r is Ok <==> 4 <= old(f)@.len(),
        r matches Ok(v) ==> v as nat == le_value(old(f)@.subrange(0, 4)) && final(f)@
            == old(f)@.subrange(4, old(f)@.len() as int),
        r matches Err(e) ==> e is UnexpectedEof && final(f)@ == old(f)@,
{
    let b = read_exact(f, 4)?;
    proof {
        assert(b@.subrange(0, 4) =~= b@);
    }
    Ok(read_u32_at(b, 0).unwrap())
}

/// Reads a little-endian `u64` from a reader.
pub fn read_u64<'a>(f: &mut &'a [u8]) -> (r: Result<u64, TesError>)
    ensures
        r is Ok <==> 8 <= old(f)@.len(),
        r matches Ok(v) ==> v as nat == le_value(old(f)@.subrange(0, 8)) && final(f)@
            == old(f)@.subrange(8, old(f)@.len() as int),
        r matches Err(e) ==> e is UnexpectedEof && final(f)@ == old(f)@,
{
    let b = read_exact(f, 8)?;
    proof {
        assert(b@.subrange(0, 8) =~= b@);
    }
    Ok(read_u64_at(b, 0).unwrap())
}

/// All possible attributes
#[derive(Debug, Copy, Clone, PartialEq, Eq, Structural)]
pub enum Attribute {
    Strength,
    Intelligence,
    Willpower,
    Agility,
    Speed,
    Endurance,
    Personality,
    Luck,
}

impl Attribute {
    /// The number that stands for this value in the file formats
    pub open spec fn index(self) -> u8 {
        match self {
            Attribute::Strength => 0u8,
            Attribute::Intelligence => 1u8,
            Attribute::Willpower => 2u8,
            Attribute::Agility => 3u8,
            Attribute::Speed => 4u8,
            Attribute::Endurance => 5u8,
            Attribute::Personality => 6u8,
            Attribute::Luck => 7u8,
        }
    }

    /// The value that a number stands for, if any
    pub open spec fn from_index(v: u8) -> Option<Attribute> {
        match v {
            0u8 => Some(Attribute::Strength),
            1u8 => Some(Attribute::Intelligence),
            2u8 => Some(Attribute::Willpower),
            3u8 => Some(Attribute::Agility),
            4u8 => Some(Attribute::Speed),
            5u8 => Some(Attribute::Endurance),
            6u8 => Some(Attribute::Personality),
            7u8 => Some(Attribute::Luck),
            _ => None,
        }
    }

    /// Gets the number that stands for this value
    pub fn to_u8(self) -> (r: u8)
        ensures
            r == self.index(),
    {
        match self {
            Attribute::Strength => 0u8,
            Attribute::Intelligence => 1u8,
            Attribute::Willpower => 2u8,
            Attribute::Agility => 3u8,
            Attribute::Speed => 4u8,
            Attribute::Endurance => 5u8,
            Attribute::Personality => 6u8,
            Attribute::Luck => 7u8,
        }
    }

    /// Gets the value that a number stands for, if any
    pub fn try_from_u8(v: u8) -> (r: Option<Attribute>)
        ensures
            r == Attribute::from_index(v),
    {
        match v {
            0u8 => Some(Attribute::Strength),
            1u8 => Some(Attribute::Intelligence),
            2u8 => Some(Attribute::Willpower),
            3u8 => Some(Attribute::Agility),
            4u8 => Some(Attribute::Speed),
            5u8 => Some(Attribute::Endurance),
            6u8 => Some(Attribute::Personality),
            7u8 => Some(Attribute::Luck),
            _ => None,
        }
    }

    /// A value's number stands for that value.
    pub proof fn lemma_index_roundtrip(self)
        ensures
            Attribute::from_index(self.index()) == Some(self),
    {
    }

    /// A number that stands for a value is that value's number.
    pub proof fn lemma_from_index_roundtrip(v: u8)
        ensures
            Attribute::from_index(v) matches Some(x) ==> x.index() == v,
    {
    }
}

/// Range of a magic effect
#[derive(Debug, Copy, Clone, PartialEq, Eq, Structural)]
pub enum EffectRange {
    Self_,
    Touch,
    Target,
}

impl EffectRange {
    /// The number that stands for this value in the file formats
    pub open spec fn index(self) -> u8 {
        match self {
            EffectRange::Self_ => 0u8,
            EffectRange::Touch => 1u8,
            EffectRange::Target => 2u8,
        }
    }

    /// The value that a number stands for, if any
    pub open spec fn from_index(v: u8) -> Option<EffectRange> {
        match v {
            0u8 => Some(EffectRange::Self_),
            1u8 => Some(EffectRange::Touch),
            2u8 => Some(EffectRange::Target),
            _ => None,
        }
    }

    /// Gets the number that stands for this value
    pub fn to_u8(self) -> (r: u8)
        ensures
            r == self.index(),
    {
        match self {
            EffectRange::Self_ => 0u8,
            EffectRange::Touch => 1u8,
            EffectRange::Target => 2u8,
        }
    }

    /// Gets the value that a number stands for, if any
    pub fn try_from_u8(v: u8) -> (r: Option<EffectRange>)
        ensures
            r == EffectRange::from_index(v),
    {
        match v {
            0u8 => Some(EffectRange::Self_),
            1u8 => Some(EffectRange::Touch),
            2u8 => Some(EffectRange::Target),
            _ => None,
        }
    }

    /// A value's number stands for that value.
    pub proof fn lemma_index_roundtrip(self)
        ensures
            EffectRange::from_index(self.index()) == Some(self),
    {
    }

    /// A number that stands for a value is that value's number.
    pub proof fn lemma_from_index_roundtrip(v: u8)
        ensures
            EffectRange::from_index(v) matches Some(x) ==> x.index() == v,
    {
    }
}

/// A school of magic
#[derive(Debug, Copy, Clone, PartialEq, Eq, Structural)]
pub enum MagicSchool {
    Alteration,
    Conjuration,
    Destruction,
    Illusion,
    Mysticism,
    Restoration,
}

impl MagicSchool {
    /// The number that stands for this value in the file formats
    pub open spec fn index(self) -> u8 {
        match self {
            MagicSchool::Alteration => 0u8,
            MagicSchool::Conjuration => 1u8,
            MagicSchool::Destruction => 2u8,
            MagicSchool::Illusion => 3u8,
            MagicSchool::Mysticism => 4u8,
            MagicSchool::Restoration => 5u8,
        }
    }

    /// The value that a number stands for, if any
    pub open spec fn from_index(v: u8) -> Option<MagicSchool> {
        match v {
            0u8 => Some(MagicSchool::Alteration),
            1u8 => Some(MagicSchool::Conjuration),
            2u8 => Some(MagicSchool::Destruction),
            3u8 => Some(MagicSchool::Illusion),
            4u8 => Some(MagicSchool::Mysticism),
            5u8 => Some(MagicSchool::Restoration),
            _ => None,
        }
    }

    /// Gets the number that stands for this value
    pub fn to_u8(self) -> (r: u8)
        ensures
            r == self.index(),
    {
        match self {
            MagicSchool::Alteration => 0u8,
            MagicSchool::Conjuration => 1u8,
            MagicSchool::Destruction => 2u8,
            MagicSchool::Illusion => 3u8,
            MagicSchool::Mysticism => 4u8,
            MagicSchool::Restoration => 5u8,
        }
    }

    /// Gets the value that a number stands for, if any
    pub fn try_from_u8(v: u8) -> (r: Option<MagicSchool>)
        ensures
            r == MagicSchool::from_index(v),
    {
        match v {
            0u8 => Some(MagicSchool::Alteration),
            1u8 => Some(MagicSchool::Conjuration),
            2u8 => Some(MagicSchool::Destruction),
            3u8 => Some(MagicSchool::Illusion),
            4u8 => Some(MagicSchool::Mysticism),
            5u8 => Some(MagicSchool::Restoration),
            _ => None,
        }
    }

    /// A value's number stands for that value.
    pub proof fn lemma_index_roundtrip(self)
        ensures
            MagicSchool::from_index(self.index()) == Some(self),
    {
    }

    /// A number that stands for a value is that value's number.
    pub proof fn lemma_from_index_roundtrip(v: u8)
        ensures
            MagicSchool::from_index(v) matches Some(x) ==> x.index() == v,
    {
    }
}

/// All possible specializations
#[derive(Debug, Copy, Clone, PartialEq, Eq, Structural)]
pub enum Specialization {
    Combat,
    Magic,
    Stealth,
}

impl Specialization {
    /// The number that stands for this value in the file formats
    pub open spec fn index(self) -> u8 {
        match self {
            Specialization::Combat => 0u8,
            Specialization::Magic => 1u8,
            Specialization::Stealth => 2u8,
        }
    }

    /// The value that a number stands for, if any
    pub open spec fn from_index(v: u8) -> Option<Specialization> {
        match v {
            0u8 => Some(Specialization::Combat),
            1u8 => Some(Specialization::Magic),
            2u8 => Some(Specialization::Stealth),
            _ => None,
        }
    }

    /// Gets the number that stands for this value
    pub fn to_u8(self) -> (r: u8)
        ensures
            r == self.index(),
    {
        match self {
            Specialization::Combat => 0u8,
            Specialization::Magic => 1u8,
            Specialization::Stealth => 2u8,
        }
    }

    /// Gets the value that a number stands for, if any
    pub fn try_from_u8(v: u8) -> (r: Option<Specialization>)
        ensures
            r == Specialization::from_index(v),
    {
        match v {
            0u8 => Some(Specialization::Combat),
            1u8 => Some(Specialization::Magic),
            2u8 => Some(Specialization::Stealth),
            _ => None,
        }
    }

    /// A value's number stands for that value.
    pub proof fn lemma_index_roundtrip(self)
        ensures
            Specialization::from_index(self.index()) == Some(self),
    {
    }

    /// A number that stands for a value is that value's number.
    pub proof fn lemma_from_index_roundtrip(v: u8)
        ensures
            Specialization::from_index(v) matches Some(x) ==> x.index() == v,
    {
    }
}

} // verus!
