pub mod common_structs;
pub mod file_structs;
pub mod fingerprint_structs;
pub mod mod_structs;

use crate::serde_utils::{empty_string_is_none, optional_url_of};
use url::Url;
use vstd::prelude::*;

verus! {

pub type Number = i64;

pub type ID = i32;

/// A point in time in UTC, counted from 1970-01-01T00:00:00Z.
#[derive(Debug, Clone, Copy, PartialEq, Eq, Structural)]
pub struct UtcTime {
    /// Whole seconds since the epoch; negative before it
    pub seconds: i64,
    /// Nanoseconds into that second
    pub nanoseconds: u32,
}

/// Read an address that the service may have left out: neither a missing
/// text nor an empty one is an address, any other text has to be one.
pub fn deserialise_optional_url(
    intermediate: Option<&str>,
) -> (read: Result<Option<Url>, url::ParseError>)
    ensures
        match intermediate {
            None => read == Ok::<Option<Url>, url::ParseError>(None),
            Some(text) => read == optional_url_of(text@),
        },
{
    match intermediate {
        None => Ok(None),
        Some(text) => empty_string_is_none(text),
    }
}

} // verus!
