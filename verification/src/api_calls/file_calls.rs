use crate::api_calls::correlate::{in_request_order, order_by_request, Answer};
use crate::decimal::{decimal_of, decimal_text};
use crate::request::{
    address_of, is_request_to, join_of, read_address, resolve, Address, Body, Method, Request,
};
use crate::structures::file_structs::File;
use crate::structures::ID;
use crate::{Error, Furse};
use url::Url;
use vstd::prelude::*;
use vstd::string::StringExecFns;

verus! {

/// The address of the directory of the mod with ID `mod_id`.
pub open spec fn mod_directory_of(base: Address, mod_id: ID) -> Address {
    join_of(join_of(base, "mods/"@), decimal_of(mod_id as int) + "/"@)
}

/// The address of all the files of the mod with ID `mod_id`, on one page.
pub open spec fn mod_files_url_of(base: Address, mod_id: ID) -> Address {
    join_of(mod_directory_of(base, mod_id), "files?pageSize=10000"@)
}

/// The address of the file with ID `file_id` of the mod with ID `mod_id`.
pub open spec fn mod_file_url_of(base: Address, mod_id: ID, file_id: ID) -> Address {
    join_of(join_of(mod_directory_of(base, mod_id), "files/"@), decimal_of(file_id as int))
}

/// The address of `leaf` under the file with ID `file_id` of the mod with ID
/// `mod_id`.
pub open spec fn mod_file_leaf_of(
    base: Address,
    mod_id: ID,
    file_id: ID,
    leaf: Seq<char>,
) -> Address {
    join_of(
        join_of(
            join_of(mod_directory_of(base, mod_id), "files/"@),
            decimal_of(file_id as int) + "/"@,
        ),
        leaf,
    )
}

/// The address that answers requests for several files.
pub open spec fn files_url_of(base: Address) -> Address {
    join_of(join_of(base, "mods/"@), "files"@)
}

impl Answer<ID> for File {
    /// A file answers the request for its own ID.
    open spec fn answers(&self, key: ID) -> bool {
        self.id == key
    }

    fn is_answer_to(&self, key: &ID) -> (is: bool) {
        self.id == *key
    }

    proof fn lemma_answers_one_key(&self, a: ID, b: ID) {
    }
}

impl Furse {
    /// The address of the directory of the mod with ID `mod_id`.
    fn mod_directory(&self, mod_id: ID) -> (directory: Result<Url, Error>)
        ensures
            directory == address_of(mod_directory_of(self.base_of(), mod_id)),
    {
        let base = read_address(self.base_url())?;
        let mods = resolve(&base, "mods/")?;
        resolve(&mods, decimal_text(mod_id).concat("/").as_str())
    }

    /// Get all the files of mod with `mod_id`
    ///
    /// The answer to the request holds the files.
    pub fn get_mod_files(&self, mod_id: ID) -> (built: Result<Request, Error>)
        ensures
            is_request_to(
                built,
                *self,
                Method::Get,
                mod_files_url_of(self.base_of(), mod_id),
                None,
            ),
    {
        let directory = self.mod_directory(mod_id)?;
        let url = resolve(&directory, "files?pageSize=10000")?;
        Ok(self.get(url))
    }

    /// Get the file with `file_id` of mod with `mod_id`
    ///
    /// The answer to the request holds one file.
    pub fn get_mod_file(&self, mod_id: ID, file_id: ID) -> (built: Result<Request, Error>)
        ensures
            is_request_to(
                built,
                *self,
                Method::Get,
                mod_file_url_of(self.base_of(), mod_id, file_id),
                None,
            ),
    {
        let directory = self.mod_directory(mod_id)?;
        let files = resolve(&directory, "files/")?;
        let url = resolve(&files, decimal_text(file_id).as_str())?;
        Ok(self.get(url))
    }

    /// Get the changelog of the file with `file_id` of mod with `mod_id` in HTML format
    ///
    /// The answer to the request holds the changelog.
    pub fn get_mod_file_changelog(
        &self,
        mod_id: ID,
        file_id: ID,
    ) -> (built: Result<Request, Error>)
        ensures
            is_request_to(
                built,
                *self,
                Method::Get,
                mod_file_leaf_of(self.base_of(), mod_id, file_id, "changelog"@),
                None,
            ),
    {
        let directory = self.mod_directory(mod_id)?;
        let files = resolve(&directory, "files/")?;
        let file = resolve(&files, decimal_text(file_id).concat("/").as_str())?;
        let url = resolve(&file, "changelog")?;
        Ok(self.get(url))
    }

    /// Get the download URL of the file with `file_id` of mod with `mod_id`
    ///
    /// The answer to the request holds the URL.
    pub fn file_download_url(&self, mod_id: ID, file_id: ID) -> (built: Result<Request, Error>)
        ensures
            is_request_to(
                built,
                *self,
                Method::Get,
                mod_file_leaf_of(self.base_of(), mod_id, file_id, "download-url"@),
                None,
            ),
    {
        let directory = self.mod_directory(mod_id)?;
        let files = resolve(&directory, "files/")?;
        let file = resolve(&files, decimal_text(file_id).concat("/").as_str())?;
        let url = resolve(&file, "download-url")?;
        Ok(self.get(url))
    }

    /// Get a list of files from the `file_ids` provided
    ///
    /// The answer to the request holds the files that the service knows, in
    /// an order of its own: [`files_in_order`] sorts them.
    pub fn get_files(&self, file_ids: Vec<ID>) -> (built: Result<Request, Error>)
        ensures
            is_request_to(
                built,
                *self,
                Method::Post,
                files_url_of(self.base_of()),
                Some(Body::FileIds(file_ids)),
            ),
    {
        let base = read_address(self.base_url())?;
        let mods = resolve(&base, "mods/")?;
        let url = resolve(&mods, "files")?;
        Ok(self.post(url, Body::FileIds(file_ids)))
    }
}

/// Sort the `files` that the service returned in the order you requested them
/// in, and leave `None` in places where a file was not found.
pub fn files_in_order(file_ids: &Vec<ID>, files: Vec<File>) -> (ordered: Vec<Option<File>>)
    ensures
        ordered@ == in_request_order(file_ids@, files@),
{
    order_by_request(file_ids, files)
}

} // verus!
