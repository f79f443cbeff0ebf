//! A typed client core for the CurseForge mod-hosting API.
//!
//! The library computes content fingerprints, builds the requests of the API,
//! judges the status of an answer, and puts the answers of the batch
//! endpoints back into the order in which they were asked for. It performs no
//! I/O of its own: the embedding application sends each [`request::Request`]
//! and hands the answer back.

pub mod api_calls;
pub mod decimal;
pub mod foreign;
pub mod request;
pub mod serde_utils;
pub mod structures;

pub use api_calls::fingerprint_calls::cf_fingerprint;

use vstd::prelude::*;

verus! {

/// Why a call did not come to a result.
#[derive(Debug)]
pub enum Error {
    /// The service answered with a status outside `200..=299`
    Status { code: u16, body: Vec<u8> },
    /// The body of an answer is not the JSON that was expected; the text
    /// says what the reader found
    Decode(String),
    /// The address of an endpoint could not be put together
    URLParseError(url::ParseError),
}

/// An instance of the API to build API calls on
///
/// It holds the address under which the API is reached and the key that
/// every request carries.
#[derive(Clone, Debug)]
pub struct Furse {
    base_url: String,
    api_key: String,
}

impl Furse {
    /// The text of the address under which the API is reached.
    pub closed spec fn base_url_text(&self) -> Seq<char> {
        self.base_url@
    }

    /// The text of the API key.
    pub closed spec fn api_key_text(&self) -> Seq<char> {
        self.api_key@
    }

    /// Create a new API instance
    ///
    /// `api_key` should be a CurseForge API key.
    pub fn new(api_key: &str) -> (furse: Self)
        ensures
            furse.base_url_text() == request::API_URL_BASE@,
            furse.api_key_text() == api_key@,
    {
        Furse { base_url: request::API_URL_BASE.to_owned(), api_key: api_key.to_owned() }
    }

    /// Create an API instance that reaches the API under `base_url`, such as
    /// a stand-in for the service. The address should end in a slash.
    pub fn with_base_url(base_url: &str, api_key: &str) -> (furse: Self)
        ensures
            furse.base_url_text() == base_url@,
            furse.api_key_text() == api_key@,
    {
        Furse { base_url: base_url.to_owned(), api_key: api_key.to_owned() }
    }

    /// The address under which the API is reached.
    pub fn base_url(&self) -> (text: &str)
        ensures
            text@ == self.base_url_text(),
    {
        self.base_url.as_str()
    }

    /// The API key.
    pub fn api_key(&self) -> (text: &str)
        ensures
            text@ == self.api_key_text(),
    {
        self.api_key.as_str()
    }
}

} // verus!
