use crate::decimal::{decimal_of, decimal_text};
use crate::request::{
    is_request_to, join_of, read_address, resolve, Address, Body, Method, Request,
};
use crate::structures::ID;
use crate::{Error, Furse};
use vstd::prelude::*;
use vstd::string::StringExecFns;

verus! {

/// The address of the mod with ID `mod_id`.
pub open spec fn mod_url_of(base: Address, mod_id: ID) -> Address {
    join_of(join_of(base, "mods/"@), decimal_of(mod_id as int))
}

/// The address that answers requests for several mods.
pub open spec fn mods_url_of(base: Address) -> Address {
    join_of(base, "mods"@)
}

/// The address of the description of the mod with ID `mod_id`.
pub open spec fn mod_description_url_of(base: Address, mod_id: ID) -> Address {
    join_of(join_of(join_of(base, "mods/"@), decimal_of(mod_id as int) + "/"@), "description"@)
}

impl Furse {
    /// Get mod with ID `mod_id`
    ///
    /// The answer to the request holds one mod.
    pub fn get_mod(&self, mod_id: ID) -> (built: Result<Request, Error>)
        ensures
            is_request_to(built, *self, Method::Get, mod_url_of(self.base_of(), mod_id), None),
    {
        let base = read_address(self.base_url())?;
        let mods = resolve(&base, "mods/")?;
        let url = resolve(&mods, decimal_text(mod_id).as_str())?;
        Ok(self.get(url))
    }

    /// Get multiple mods with IDs `mod_ids`
    ///
    /// The answer to the request holds the mods that the service knows.
    pub fn get_mods(&self, mod_ids: Vec<ID>) -> (built: Result<Request, Error>)
        ensures
            is_request_to(
                built,
                *self,
                Method::Post,
                mods_url_of(self.base_of()),
                Some(Body::ModIds(mod_ids)),
            ),
    {
        let base = read_address(self.base_url())?;
        let url = resolve(&base, "mods")?;
        Ok(self.post(url, Body::ModIds(mod_ids)))
    }

    /// Get the description of mod with ID `mod_id`
    ///
    /// The answer to the request holds the description in HTML format.
    pub fn get_mod_description(&self, mod_id: ID) -> (built: Result<Request, Error>)
        ensures
            is_request_to(
                built,
                *self,
                Method::Get,
                mod_description_url_of(self.base_of(), mod_id),
                None,
            ),
    {
        let base = read_address(self.base_url())?;
        let mods = resolve(&base, "mods/")?;
        let this_mod = resolve(&mods, decimal_text(mod_id).concat("/").as_str())?;
        let url = resolve(&this_mod, "description")?;
        Ok(self.get(url))
    }
}

} // verus!
