use super::file_structs::File;
use super::{Number, ID};
use std::collections::HashMap;
use vstd::prelude::*;

verus! {

#[derive(Debug, Clone)]
pub struct FingerprintMatches {
    pub is_cache_built: bool,
    /// The matches found
    pub exact_matches: Vec<Match>,
    /// The fingerprints of the matches found
    pub exact_fingerprints: Vec<Number>,
    pub partial_matches: Vec<Match>,
    pub partial_match_fingerprints: HashMap<String, Vec<Number>>,
    /// The fingerprints that were requested
    pub installed_fingerprints: Vec<Number>,
    pub unmatched_fingerprints: Option<Vec<Number>>,
}

#[derive(Debug, Clone)]
pub struct Match {
    /// The ID of the mod
    pub id: ID,
    pub file: File,
    /// The mod's latest files
    pub latest_files: Vec<File>,
}

} // verus!
