//! Reading and writing the plugin and save files of The Elder Scrolls III and IV.
//!
//! The binary formats (fields, records, groups, change records, fixed-size and
//! length-prefixed strings) are decoded and encoded by functions on bytes whose
//! contracts are stated over the models in [`bytes`] and the views of each type.

use vstd::prelude::*;

pub mod bytes;
pub mod common;
pub mod convert;
pub mod error;
pub mod plugin;
pub mod save;
pub mod strings;
pub mod tags;
pub mod tes3;
pub mod tes4;

pub use common::{
    check_data_size, check_size, data_len_ok, read_exact, read_u16, read_u32, read_u64, read_u8,
    Attribute, EffectRange, MagicSchool, OwnedOrRef, Specialization, WriteExact, MAX_BSTRING,
    MAX_DATA,
};
pub use error::{decode_failed, limit_exceeded, TesError};
