//! The items of other crates that this library relies on, each with the
//! contract that is taken on trust.

use vstd::prelude::*;

verus! {

/// `url::Url`, a parsed URL. Nothing is known of what it holds.
#[verifier::external_type_specification]
#[verifier::external_body]
pub struct ExUrl(url::Url);

/// `url::ParseError`, the reason why a text is no URL.
#[verifier::external_type_specification]
#[verifier::external_body]
pub struct ExParseError(url::ParseError);

/// The 32-bit endianness-independent MurmurHash2 of `data` under `seed`,
/// as `murmur2::murmur2` computes it.
pub uninterp spec fn murmur2_of(data: Seq<u8>, seed: u32) -> u32;

/// What `url::Url::parse` makes of `input`: the URL that it reads, or the
/// reason why it reads none.
pub uninterp spec fn url_parse_of(input: Seq<char>) -> Result<url::Url, url::ParseError>;

/// What `url::Url::join` makes of `input` against `base`: the URL that it
/// resolves to, or the reason why it does not resolve.
pub uninterp spec fn url_join_of(base: url::Url, input: Seq<char>) -> Result<
    url::Url,
    url::ParseError,
>;

/// `murmur2::murmur2` is a total function of the bytes and the seed alone:
/// it reads the slice, keeps no state and never panics. Its value is not
/// spelled out here; it is only given the name `murmur2_of`.
pub assume_specification[ murmur2::murmur2 ](data: &[u8], seed: u32) -> (hash: u32)
    ensures
        hash == murmur2_of(data@, seed),
;

/// `Url::parse` reads an absolute URL from `input`. What it answers, a URL or
/// an error, depends on `input` alone; it is not spelled out here, only given
/// the name `url_parse_of`.
pub assume_specification[ url::Url::parse ](input: &str) -> (parsed: Result<
    url::Url,
    url::ParseError,
>)
    ensures
        parsed == url_parse_of(input@),
;

/// `Url::join` parses `input` with `base` as the base URL. What it answers,
/// a URL or an error, depends on the two alone; it is not spelled out here,
/// only given the name `url_join_of`.
pub assume_specification[ url::Url::join ](base: &url::Url, input: &str) -> (joined: Result<
    url::Url,
    url::ParseError,
>)
    ensures
        joined == url_join_of(*base, input@),
;

/// The derived `Clone` of `Url` copies every field.
pub assume_specification[ <url::Url as Clone>::clone ](url: &url::Url) -> (copy: url::Url)
    ensures
        copy == *url,
;

} // verus!
