//! The error type of the library.

use vstd::prelude::*;

use crate::tes4::FormId;

verus! {

/// Errors that may occur while manipulating game files
#[derive(Debug)]
pub enum TesError {
    /// Multiple records in the plugin have the same ID string
    DuplicateId(String),
    /// The same master file is referenced by the plugin multiple times
    DuplicateMaster(String),
    /// A size limit, e.g. on a record or field, has been exceeded
    LimitExceeded { description: String, max_size: usize, actual_size: usize },
    /// Some requirement not covered by another error type was not met
    RequirementFailed(String),
    /// Cannot map one value to another
    InvalidMapping(String, String),
    /// A provided ID is not valid
    InvalidId(String),
    /// A provided form ID is not valid
    InvalidFormId { form_id: FormId },
    /// A plugin/form ID combination was not found when one was required
    InvalidPluginForm { plugin: String, form_id: FormId },
    /// Failed to decode binary data as the expected type or format
    DecodeFailed { description: String },
    /// The input ended before a complete value could be read
    UnexpectedEof,
}

/// Builds a decoding error with the given description.
pub fn decode_failed(msg: &str) -> (e: TesError)
    ensures
        e matches TesError::DecodeFailed { description } && description@ == msg@,
{
    TesError::DecodeFailed { description: msg.to_owned() }
}

/// Builds an error for a size limit that was exceeded.
pub fn limit_exceeded(msg: &str, max_size: usize, actual_size: usize) -> (e: TesError)
    ensures
        e matches TesError::LimitExceeded { description, max_size: m, actual_size: a } && m
            == max_size && a == actual_size && description@ == msg@,
{
    TesError::LimitExceeded { description: msg.to_owned(), max_size, actual_size }
}

} // verus!
