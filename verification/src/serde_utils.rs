use crate::foreign::url_parse_of;
use url::Url;
use vstd::prelude::*;

verus! {

/// What a text of the service says of an address: nothing where the text is
/// empty, and else the address that it reads as, or the reason why it reads
/// as none.
pub open spec fn optional_url_of(text: Seq<char>) -> Result<Option<Url>, url::ParseError> {
    if text.len() == 0 {
        Ok(None)
    } else {
        match url_parse_of(text) {
            Ok(url) => Ok(Some(url)),
            Err(reason) => Err(reason),
        }
    }
}

/// Read an address that the service may have left empty: an empty `string`
/// stands for no address, any other has to be an address.
pub fn empty_string_is_none(string: &str) -> (read: Result<Option<Url>, url::ParseError>)
    ensures
        read == optional_url_of(string@),
{
    if string.is_empty() {
        Ok(None)
    } else {
        match Url::parse(string) {
            Ok(url) => Ok(Some(url)),
            Err(error) => Err(error),
        }
    }
}

} // verus!
