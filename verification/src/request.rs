use crate::foreign::{url_join_of, url_parse_of};
use crate::structures::ID;
use crate::{Error, Furse};
use url::Url;
use vstd::prelude::*;

verus! {

/// The address under which CurseForge serves its API.
pub const API_URL_BASE: &'static str = "https://api.curseforge.com/v1/";

/// The name of the header that carries the API key.
pub const API_KEY_HEADER: &'static str = "x-api-key";

/// How a request is sent.
#[derive(Debug, Clone, Copy, PartialEq, Eq, Structural)]
pub enum Method {
    Get,
    Post,
}

/// What a `POST` request carries. It is sent as a JSON object with the one
/// member that is named here.
#[derive(Debug, Clone)]
pub enum Body {
    /// `fileIds`
    FileIds(Vec<ID>),
    /// `modIds`
    ModIds(Vec<ID>),
    /// `fingerprints`
    Fingerprints(Vec<usize>),
}

/// One request to the API, ready to be sent.
#[derive(Debug, Clone)]
pub struct Request {
    pub method: Method,
    pub url: Url,
    /// The value of the header named [`API_KEY_HEADER`]
    pub api_key: String,
    pub body: Option<Body>,
}

/// What putting an address together comes to: the address, or the reason
/// why there is none.
pub type Address = Result<Url, url::ParseError>;

/// `input` resolved against `base`, or the reason why there is no base.
pub open spec fn join_of(base: Address, input: Seq<char>) -> Address {
    match base {
        Ok(base) => url_join_of(base, input),
        Err(reason) => Err(reason),
    }
}

/// The outcome of putting an address together, as this library reports it.
pub open spec fn address_of(outcome: Address) -> Result<Url, Error> {
    match outcome {
        Ok(url) => Ok(url),
        Err(reason) => Err(Error::URLParseError(reason)),
    }
}

/// Whether `built` is what the building of a request has to come to, where
/// putting the address of the endpoint together came to `url`: the request
/// with that address, the key of `furse`, `method` and `body`, or the error
/// that holds the reason why there is no address.
pub open spec fn is_request_to(
    built: Result<Request, Error>,
    furse: Furse,
    method: Method,
    url: Address,
    body: Option<Body>,
) -> bool {
    match url {
        Ok(url) => {
            &&& built matches Ok(request)
            &&& request.url == url
            &&& request.method == method
            &&& request.api_key@ == furse.api_key_text()
            &&& request.body == body
        },
        Err(reason) => built == Err::<Request, Error>(Error::URLParseError(reason)),
    }
}

/// Whether a status code tells of success.
pub open spec fn is_success(status: u16) -> bool {
    200 <= status <= 299
}

/// Turn an answer into an error if the service did not report success.
///
/// The body is handed back untouched where the status is one of `200..=299`;
/// any other status is an error that holds the status and the body.
pub fn error_for_status(status: u16, body: Vec<u8>) -> (checked: Result<Vec<u8>, Error>)
    ensures
        is_success(status) ==> checked == Ok::<Vec<u8>, Error>(body),
        !is_success(status) ==> checked == Err::<Vec<u8>, Error>(
            (Error::Status { code: status, body }),
        ),
{
    if 200 <= status && status <= 299 {
        Ok(body)
    } else {
        Err(Error::Status { code: status, body })
    }
}

/// Read `text` as an absolute address.
pub fn read_address(text: &str) -> (parsed: Result<Url, Error>)
    ensures
        parsed == address_of(url_parse_of(text@)),
{
    match Url::parse(text) {
        Ok(url) => Ok(url),
        Err(error) => Err(Error::URLParseError(error)),
    }
}

/// Resolve `input` against `base`.
pub fn resolve(base: &Url, input: &str) -> (joined: Result<Url, Error>)
    ensures
        joined == address_of(url_join_of(*base, input@)),
{
    match base.join(input) {
        Ok(url) => Ok(url),
        Err(error) => Err(Error::URLParseError(error)),
    }
}

impl Furse {
    /// The address under which this instance reaches the API, or the reason
    /// why its text is no address.
    pub open spec fn base_of(&self) -> Address {
        url_parse_of(self.base_url_text())
    }

    /// Build a GET request to `url`
    pub fn get(&self, url: Url) -> (request: Request)
        ensures
            request.method == Method::Get,
            request.url == url,
            request.api_key@ == self.api_key_text(),
            request.body is None,
    {
        Request { method: Method::Get, url, api_key: self.api_key().to_owned(), body: None }
    }

    /// Build a POST request to `url` with `body`
    pub fn post(&self, url: Url, body: Body) -> (request: Request)
        ensures
            request.method == Method::Post,
            request.url == url,
            request.api_key@ == self.api_key_text(),
            request.body == Some(body),
    {
        Request { method: Method::Post, url, api_key: self.api_key().to_owned(), body: Some(body) }
    }
}

} // verus!
