//! NPC AI packages in Morrowind saves.

use vstd::prelude::*;

use crate::bytes::{le_value, read_u16_at};
use crate::error::{decode_failed, TesError};
use crate::plugin::FieldModel;
use crate::tags::{slice_is_tag, AI_A, AI_E, AI_F, AI_T, AI_W};
use crate::tes3::field::Tes3Field;
use crate::tes3::form::{field_zstring, word, word_at, zstring_value};
use crate::tes3::player::{padded_string_at, padded_string_exec};

verus! {

/// Maximum length of certain strings in an AI package
pub const PACKAGE_STRING_LENGTH: usize = 32;

/// NPC AI packages; coordinates are the bits of `f32`s
#[derive(Debug)]
pub enum Package {
    Activate(String),
    Escort { x: u32, y: u32, z: u32, duration: u16, id: String, cell: Option<String> },
    Follow { x: u32, y: u32, z: u32, duration: u16, id: String, cell: Option<String> },
    Travel { x: u32, y: u32, z: u32 },
    Wander { distance: u16, duration: u16, time_of_day: u8, idles: [u8; 8] },
}

/// The abstract content of an AI package.
pub enum PackageModel {
    Activate(Seq<char>),
    Escort { x: u32, y: u32, z: u32, duration: u16, id: Seq<char>, cell: Option<Seq<char>> },
    Follow { x: u32, y: u32, z: u32, duration: u16, id: Seq<char>, cell: Option<Seq<char>> },
    Travel { x: u32, y: u32, z: u32 },
    Wander { distance: u16, duration: u16, time_of_day: u8, idles: Seq<u8> },
}

/// The view of an optional string.
pub open spec fn opt_chars(o: Option<String>) -> Option<Seq<char>> {
    match o {
        Some(s) => Some(s@),
        None => None,
    }
}

impl View for Package {
    type V = PackageModel;

    open spec fn view(&self) -> PackageModel {
        match self {
            Package::Activate(s) => PackageModel::Activate(s@),
            Package::Escort { x, y, z, duration, id, cell } => PackageModel::Escort {
                x: *x,
                y: *y,
                z: *z,
                duration: *duration,
                id: id@,
                cell: opt_chars(*cell),
            },
            Package::Follow { x, y, z, duration, id, cell } => PackageModel::Follow {
                x: *x,
                y: *y,
                z: *z,
                duration: *duration,
                id: id@,
                cell: opt_chars(*cell),
            },
            Package::Travel { x, y, z } => PackageModel::Travel { x: *x, y: *y, z: *z },
            Package::Wander { distance, duration, time_of_day, idles } => PackageModel::Wander {
                distance: *distance,
                duration: *duration,
                time_of_day: *time_of_day,
                idles: idles@,
            },
        }
    }
}

/// The little-endian `u16` at byte `pos` of `d`.
pub open spec fn u16_at(d: Seq<u8>, pos: int) -> u16 {
    le_value(d.subrange(pos, pos + 2)) as u16
}

/// The package held by a field: `AI_A` an activator ID padded to 32 bytes; `AI_E` and `AI_F` a
/// position (three `f32`s), a duration (`u16`) and an ID padded to 32 bytes, with no cell yet;
/// `AI_T` a position; `AI_W` a distance and a duration (`u16`s), an hour and 8 idle chances.
pub open spec fn package_from_field(f: FieldModel) -> Option<PackageModel> {
    let d = f.data;
    if f.name == AI_A@ {
        if d.len() < 32 {
            None
        } else {
            match padded_string_at(d, 0, 32) {
                Some(s) => Some(PackageModel::Activate(s)),
                None => None,
            }
        }
    } else if f.name == AI_E@ || f.name == AI_F@ {
        if d.len() < 46 {
            None
        } else {
            match padded_string_at(d, 14, 32) {
                Some(id) => if f.name == AI_E@ {
                    Some(
                        PackageModel::Escort {
                            x: word(d, 0),
                            y: word(d, 1),
                            z: word(d, 2),
                            duration: u16_at(d, 12),
                            id,
                            cell: None,
                        },
                    )
                } else {
                    Some(
                        PackageModel::Follow {
                            x: word(d, 0),
                            y: word(d, 1),
                            z: word(d, 2),
                            duration: u16_at(d, 12),
                            id,
                            cell: None,
                        },
                    )
                },
                None => None,
            }
        }
    } else if f.name == AI_T@ {
        if d.len() < 12 {
            None
        } else {
            Some(PackageModel::Travel { x: word(d, 0), y: word(d, 1), z: word(d, 2) })
        }
    } else if f.name == AI_W@ {
        if d.len() < 13 {
            None
        } else {
            Some(
                PackageModel::Wander {
                    distance: u16_at(d, 0),
                    duration: u16_at(d, 2),
                    time_of_day: d[4],
                    idles: d.subrange(5, 13),
                },
            )
        }
    } else {
        None
    }
}

/// An escort or follow package given the cell name in `data`, if it has none yet and `data`
/// holds a null-terminated string.
pub open spec fn with_cell_name(p: PackageModel, data: Seq<u8>) -> Option<PackageModel> {
    match (p, zstring_value(data)) {
        (PackageModel::Escort { x, y, z, duration, id, cell: None }, Some(c)) => Some(
            PackageModel::Escort { x, y, z, duration, id, cell: Some(c) },
        ),
        (PackageModel::Follow { x, y, z, duration, id, cell: None }, Some(c)) => Some(
            PackageModel::Follow { x, y, z, duration, id, cell: Some(c) },
        ),
        _ => None,
    }
}

impl Package {
    /// Reads an AI package from an `AI_A`, `AI_E`, `AI_F`, `AI_T` or `AI_W` field
    ///
    /// Fails for any other field, or if the data is too short or does not decode.
    pub fn read(field: &Tes3Field) -> (r: Result<Package, TesError>)
        ensures
            r is Ok <==> package_from_field(field@) is Some,
            r matches Ok(p) ==> p@ == package_from_field(field@).unwrap(),
    {
        let name = field.name();
        let d = field.get();
        if slice_is_tag(name, &AI_A) {
            if d.len() < 32 {
                return Err(TesError::UnexpectedEof);
            }
            Ok(Package::Activate(padded_string_exec(d, 0, 32)?))
        } else if slice_is_tag(name, &AI_E) || slice_is_tag(name, &AI_F) {
            if d.len() < 46 {
                return Err(TesError::UnexpectedEof);
            }
            let x = word_at(d, 0);
            let y = word_at(d, 1);
            let z = word_at(d, 2);
            let duration = read_u16_at(d, 12).unwrap();
            let id = padded_string_exec(d, 14, 32)?;
            if slice_is_tag(name, &AI_E) {
                Ok(Package::Escort { x, y, z, duration, id, cell: None })
            } else {
                Ok(Package::Follow { x, y, z, duration, id, cell: None })
            }
        } else if slice_is_tag(name, &AI_T) {
            if d.len() < 12 {
                return Err(TesError::UnexpectedEof);
            }
            Ok(Package::Travel { x: word_at(d, 0), y: word_at(d, 1), z: word_at(d, 2) })
        } else if slice_is_tag(name, &AI_W) {
            if d.len() < 13 {
                return Err(TesError::UnexpectedEof);
            }
            let idles = [d[5], d[6], d[7], d[8], d[9], d[10], d[11], d[12]];
            assert(idles@ =~= d@.subrange(5, 13));
            Ok(
                Package::Wander {
                    distance: read_u16_at(d, 0).unwrap(),
                    duration: read_u16_at(d, 2).unwrap(),
                    time_of_day: d[4],
                    idles,
                },
            )
        } else {
            Err(decode_failed("Unknown package type"))
        }
    }

    /// Gives an escort or follow package the cell name held by a `CNDT` field
    ///
    /// Fails, changing nothing, if the package is of another kind, already has a cell, or the
    /// field does not hold a null-terminated string.
    pub fn read_cell_name(&mut self, field: &Tes3Field) -> (r: Result<(), TesError>)
        ensures
            r is Ok <==> with_cell_name(old(self)@, field@.data) is Some,
            r is Ok ==> final(self)@ == with_cell_name(old(self)@, field@.data).unwrap(),
            r is Err ==> final(self)@ == old(self)@,
    {
        let cell_name = field_zstring(field)?;
        match self {
            Package::Escort { cell, .. } => {
                if cell.is_some() {
                    return Err(decode_failed("Extraneous CNDT field"));
                }
                *cell = Some(cell_name);
            },
            Package::Follow { cell, .. } => {
                if cell.is_some() {
                    return Err(decode_failed("Extraneous CNDT field"));
                }
                *cell = Some(cell_name);
            },
            _ => {
                return Err(decode_failed("Orphaned CNDT field"));
            },
        }
        Ok(())
    }
}

} // verus!
