//! The kinds of groups in Oblivion plugins.

use vstd::prelude::*;

use crate::bytes::{le_bytes, le_value, lemma_le_bytes_len, lemma_le_value_of_bytes, pow256, push_u16, push_u32};
use crate::common::{read_exact, read_u32};
use crate::error::{decode_failed, TesError};

verus! {

/// Indicates the type of group a group is
#[derive(Debug, Copy, Clone)]
pub enum GroupKind {
    Top([u8; 4]),
    WorldChildren(u32),
    InteriorCellBlock(u32),
    InteriorCellSubBlock(u32),
    ExteriorCellBlock(i16, i16),
    ExteriorCellSubBlock(i16, i16),
    CellChildren(u32),
    TopicChildren(u32),
    CellPersistentChildren(u32),
    CellTemporaryChildren(u32),
    CellVisibleDistantChildren(u32),
}

/// The 8 bytes written for a group kind: its label, then its type as a `u32`. The label of a
/// top-level group is a record name, of an exterior cell block or sub-block its y then x grid
/// coordinates as `i16`s, and of any other group a `u32`.
pub open spec fn group_kind_bytes(k: GroupKind) -> Seq<u8> {
    match k {
        GroupKind::Top(label) => label@ + le_bytes(0, 4),
        GroupKind::WorldChildren(v) => le_bytes(v as nat, 4) + le_bytes(1, 4),
        GroupKind::InteriorCellBlock(v) => le_bytes(v as nat, 4) + le_bytes(2, 4),
        GroupKind::InteriorCellSubBlock(v) => le_bytes(v as nat, 4) + le_bytes(3, 4),
        GroupKind::ExteriorCellBlock(y, x) => le_bytes((y as u16) as nat, 2) + le_bytes((x as u16) as nat, 2) + le_bytes(4, 4),
        GroupKind::ExteriorCellSubBlock(y, x) => le_bytes((y as u16) as nat, 2) + le_bytes((x as u16) as nat, 2) + le_bytes(5, 4),
        GroupKind::CellChildren(v) => le_bytes(v as nat, 4) + le_bytes(6, 4),
        GroupKind::TopicChildren(v) => le_bytes(v as nat, 4) + le_bytes(7, 4),
        GroupKind::CellPersistentChildren(v) => le_bytes(v as nat, 4) + le_bytes(8, 4),
        GroupKind::CellTemporaryChildren(v) => le_bytes(v as nat, 4) + le_bytes(9, 4),
        GroupKind::CellVisibleDistantChildren(v) => le_bytes(v as nat, 4) + le_bytes(10, 4),
    }
}

/// The group kind held by the first 8 bytes of `s`, if its type is known.
pub open spec fn parse_group_kind(s: Seq<u8>) -> Option<GroupKind> {
    if s.len() < 8 {
        None
    } else {
        let v = le_value(s.subrange(0, 4)) as u32;
        let y = le_value(s.subrange(0, 2)) as u16 as i16;
        let x = le_value(s.subrange(2, 4)) as u16 as i16;
        let t = le_value(s.subrange(4, 8));
        if t == 0 {
            Some(GroupKind::Top([s[0], s[1], s[2], s[3]]))
        } else if t == 1 {
            Some(GroupKind::WorldChildren(v))
        } else if t == 2 {
            Some(GroupKind::InteriorCellBlock(v))
        } else if t == 3 {
            Some(GroupKind::InteriorCellSubBlock(v))
        } else if t == 4 {
            Some(GroupKind::ExteriorCellBlock(y, x))
        } else if t == 5 {
            Some(GroupKind::ExteriorCellSubBlock(y, x))
        } else if t == 6 {
            Some(GroupKind::CellChildren(v))
        } else if t == 7 {
            Some(GroupKind::TopicChildren(v))
        } else if t == 8 {
            Some(GroupKind::CellPersistentChildren(v))
        } else if t == 9 {
            Some(GroupKind::CellTemporaryChildren(v))
        } else if t == 10 {
            Some(GroupKind::CellVisibleDistantChildren(v))
        } else {
            None
        }
    }
}

impl GroupKind {
    /// Reads a group kind from the front of a byte reader
    ///
    /// Fails with [`TesError::UnexpectedEof`] if the reader holds fewer than 8 bytes, and with
    /// [`TesError::DecodeFailed`] if the group type is unknown.
    pub fn read<'a>(f: &mut &'a [u8]) -> (r: Result<GroupKind, TesError>)
        ensures
            r is Ok <==> parse_group_kind(old(f)@) is Some,
            r matches Err(e) ==> if old(f)@.len() < 8 {
                e is UnexpectedEof
            } else {
                e is DecodeFailed
            },
            r matches Ok(k) ==> k == parse_group_kind(old(f)@).unwrap() && final(f)@
                == old(f)@.subrange(8, old(f)@.len() as int),
    {
        let ghost s = f@;
        let label = read_exact(f, 4)?;
        let l = [label[0], label[1], label[2], label[3]];
        let kind = read_u32(f)?;
        proof {
            assert(label@ =~= s.subrange(0, 4));
            assert(f@ =~= s.subrange(8, s.len() as int));
            assert(s.subrange(4, s.len() as int).subrange(0, 4) =~= s.subrange(4, 8));
            crate::bytes::lemma_le_value_4(s.subrange(0, 4));
            crate::bytes::lemma_le_value_2(s.subrange(0, 2));
            crate::bytes::lemma_le_value_2(s.subrange(2, 4));
        }
        let v: u32 = (l[0] as u32) + 256 * (l[1] as u32) + 65536 * (l[2] as u32) + 16777216 * (l[3] as u32);
        let yu: u16 = (l[0] as u16) + 256 * (l[1] as u16);
        let xu: u16 = (l[2] as u16) + 256 * (l[3] as u16);
        let y = yu as i16;
        let x = xu as i16;
        match kind {
            0 => Ok(GroupKind::Top(l)),
            1 => Ok(GroupKind::WorldChildren(v)),
            2 => Ok(GroupKind::InteriorCellBlock(v)),
            3 => Ok(GroupKind::InteriorCellSubBlock(v)),
            4 => Ok(GroupKind::ExteriorCellBlock(y, x)),
            5 => Ok(GroupKind::ExteriorCellSubBlock(y, x)),
            6 => Ok(GroupKind::CellChildren(v)),
            7 => Ok(GroupKind::TopicChildren(v)),
            8 => Ok(GroupKind::CellPersistentChildren(v)),
            9 => Ok(GroupKind::CellTemporaryChildren(v)),
            10 => Ok(GroupKind::CellVisibleDistantChildren(v)),
            _ => Err(decode_failed("Unexpected group type")),
        }
    }

    /// Writes a group kind: its label, then its type
    pub fn write(&self, f: &mut Vec<u8>) -> (r: std::io::Result<()>)
        ensures
            r is Ok,
            final(f)@ == old(f)@ + group_kind_bytes(*self),
    {
        match *self {
            GroupKind::Top(label) => {
                f.extend_from_slice(label.as_slice());
                push_u32(f, 0u32);
            },
            GroupKind::WorldChildren(v) => {
                push_u32(f, v);
                push_u32(f, 1u32);
            },
            GroupKind::InteriorCellBlock(v) => {
                push_u32(f, v);
                push_u32(f, 2u32);
            },
            GroupKind::InteriorCellSubBlock(v) => {
                push_u32(f, v);
                push_u32(f, 3u32);
            },
            GroupKind::ExteriorCellBlock(y, x) => {
                push_u16(f, y as u16);
                push_u16(f, x as u16);
                push_u32(f, 4u32);
            },
            GroupKind::ExteriorCellSubBlock(y, x) => {
                push_u16(f, y as u16);
                push_u16(f, x as u16);
                push_u32(f, 5u32);
            },
            GroupKind::CellChildren(v) => {
                push_u32(f, v);
                push_u32(f, 6u32);
            },
            GroupKind::TopicChildren(v) => {
                push_u32(f, v);
                push_u32(f, 7u32);
            },
            GroupKind::CellPersistentChildren(v) => {
                push_u32(f, v);
                push_u32(f, 8u32);
            },
            GroupKind::CellTemporaryChildren(v) => {
                push_u32(f, v);
                push_u32(f, 9u32);
            },
            GroupKind::CellVisibleDistantChildren(v) => {
                push_u32(f, v);
                push_u32(f, 10u32);
            },
        }
        assert(final(f)@ =~= old(f)@ + group_kind_bytes(*self));
        Ok(())
    }
}

/// Reading back a written group kind gives the same kind, whatever follows it.
pub proof fn lemma_group_kind_roundtrip(k: GroupKind, rest: Seq<u8>)
    ensures
        group_kind_bytes(k).len() == 8,
        parse_group_kind(group_kind_bytes(k) + rest) == Some(k),
{
    let s = group_kind_bytes(k) + rest;
    reveal_with_fuel(pow256, 5);
    match k {
        GroupKind::Top(label) => {
            lemma_le_bytes_len(0, 4);
            lemma_le_value_of_bytes(0, 4);
            assert(s.subrange(4, 8) =~= le_bytes(0, 4));
            assert(s.subrange(0, 4) =~= label@);
            assert([s[0], s[1], s[2], s[3]] =~= label);
        },
        GroupKind::WorldChildren(v) => {
            lemma_le_bytes_len(v as nat, 4);
            lemma_le_bytes_len(1, 4);
            lemma_le_value_of_bytes(v as nat, 4);
            lemma_le_value_of_bytes(1, 4);
            assert(s.subrange(0, 4) =~= le_bytes(v as nat, 4));
            assert(s.subrange(4, 8) =~= le_bytes(1, 4));
        },
        GroupKind::InteriorCellBlock(v) => {
            lemma_le_bytes_len(v as nat, 4);
            lemma_le_bytes_len(2, 4);
            lemma_le_value_of_bytes(v as nat, 4);
            lemma_le_value_of_bytes(2, 4);
            assert(s.subrange(0, 4) =~= le_bytes(v as nat, 4));
            assert(s.subrange(4, 8) =~= le_bytes(2, 4));
        },
        GroupKind::InteriorCellSubBlock(v) => {
            lemma_le_bytes_len(v as nat, 4);
            lemma_le_bytes_len(3, 4);
            lemma_le_value_of_bytes(v as nat, 4);
            lemma_le_value_of_bytes(3, 4);
            assert(s.subrange(0, 4) =~= le_bytes(v as nat, 4));
            assert(s.subrange(4, 8) =~= le_bytes(3, 4));
        },
        GroupKind::ExteriorCellBlock(y, x) => {
            lemma_le_bytes_len((y as u16) as nat, 2);
            lemma_le_bytes_len((x as u16) as nat, 2);
            lemma_le_bytes_len(4, 4);
            lemma_le_value_of_bytes((y as u16) as nat, 2);
            lemma_le_value_of_bytes((x as u16) as nat, 2);
            lemma_le_value_of_bytes(4, 4);
            assert(s.subrange(0, 2) =~= le_bytes((y as u16) as nat, 2));
            assert(s.subrange(2, 4) =~= le_bytes((x as u16) as nat, 2));
            assert(s.subrange(4, 8) =~= le_bytes(4, 4));
            assert((y as u16) as i16 == y) by (bit_vector);
            assert((x as u16) as i16 == x) by (bit_vector);
        },
        GroupKind::ExteriorCellSubBlock(y, x) => {
            lemma_le_bytes_len((y as u16) as nat, 2);
            lemma_le_bytes_len((x as u16) as nat, 2);
            lemma_le_bytes_len(5, 4);
            lemma_le_value_of_bytes((y as u16) as nat, 2);
            lemma_le_value_of_bytes((x as u16) as nat, 2);
            lemma_le_value_of_bytes(5, 4);
            assert(s.subrange(0, 2) =~= le_bytes((y as u16) as nat, 2));
            assert(s.subrange(2, 4) =~= le_bytes((x as u16) as nat, 2));
            assert(s.subrange(4, 8) =~= le_bytes(5, 4));
            assert((y as u16) as i16 == y) by (bit_vector);
            assert((x as u16) as i16 == x) by (bit_vector);
        },
        GroupKind::CellChildren(v) => {
            lemma_le_bytes_len(v as nat, 4);
            lemma_le_bytes_len(6, 4);
            lemma_le_value_of_bytes(v as nat, 4);
            lemma_le_value_of_bytes(6, 4);
            assert(s.subrange(0, 4) =~= le_bytes(v as nat, 4));
            assert(s.subrange(4, 8) =~= le_bytes(6, 4));
        },
        GroupKind::TopicChildren(v) => {
            lemma_le_bytes_len(v as nat, 4);
            lemma_le_bytes_len(7, 4);
            lemma_le_value_of_bytes(v as nat, 4);
            lemma_le_value_of_bytes(7, 4);
            assert(s.subrange(0, 4) =~= le_bytes(v as nat, 4));
            assert(s.subrange(4, 8) =~= le_bytes(7, 4));
        },
        GroupKind::CellPersistentChildren(v) => {
            lemma_le_bytes_len(v as nat, 4);
            lemma_le_bytes_len(8, 4);
            lemma_le_value_of_bytes(v as nat, 4);
            lemma_le_value_of_bytes(8, 4);
            assert(s.subrange(0, 4) =~= le_bytes(v as nat, 4));
            assert(s.subrange(4, 8) =~= le_bytes(8, 4));
        },
        GroupKind::CellTemporaryChildren(v) => {
            lemma_le_bytes_len(v as nat, 4);
            lemma_le_bytes_len(9, 4);
            lemma_le_value_of_bytes(v as nat, 4);
            lemma_le_value_of_bytes(9, 4);
            assert(s.subrange(0, 4) =~= le_bytes(v as nat, 4));
            assert(s.subrange(4, 8) =~= le_bytes(9, 4));
        },
        GroupKind::CellVisibleDistantChildren(v) => {
            lemma_le_bytes_len(v as nat, 4);
            lemma_le_bytes_len(10, 4);
            lemma_le_value_of_bytes(v as nat, 4);
            lemma_le_value_of_bytes(10, 4);
            assert(s.subrange(0, 4) =~= le_bytes(v as nat, 4));
            assert(s.subrange(4, 8) =~= le_bytes(10, 4));
        },
    }
}

} // verus!
