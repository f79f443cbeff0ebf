pub mod correlate;
pub mod file_calls;
pub mod fingerprint_calls;
pub mod mod_calls;

use crate::structures::common_structs::Pagination;
use crate::Error;
use vstd::prelude::*;

verus! {

/// API responses are returned in this structure, with the actual results in
/// `data` and optional `pagination`
#[derive(Debug, Clone)]
pub struct Response<T> {
    pub data: T,
    pub pagination: Option<Pagination>,
}

impl<T> Response<T> {
    /// Unwrap the results. What the envelope says of pagination has no part
    /// in them.
    pub fn into_data(self) -> (data: T)
        ensures
            data == self.data,
    {
        self.data
    }
}

/// Take the results out of an answer that was read as JSON. `decoded` is the
/// envelope that was read, or what the reader said of a body that it could
/// not read.
///
/// A body that could not be read is an error and never a value.
pub fn data_of<T>(decoded: Result<Response<T>, String>) -> (data: Result<T, Error>)
    ensures
        match decoded {
            Ok(response) => data == Ok::<T, Error>(response.data),
            Err(message) => data == Err::<T, Error>(Error::Decode(message)),
        },
{
    match decoded {
        Ok(response) => Ok(response.into_data()),
        Err(message) => Err(Error::Decode(message)),
    }
}

} // verus!
