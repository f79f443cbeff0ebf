use super::common_structs::Category;
use super::file_structs::{File, FileIndex};
use super::{Number, UtcTime, ID};
use url::Url;
use vstd::prelude::*;

verus! {

#[derive(Debug, Clone)]
pub struct Mod {
    pub id: ID,
    pub game_id: ID,
    pub name: String,
    /// The mod slug that would appear in the URL
    pub slug: String,
    /// Relevant links for the mod such as the issue tracker and wiki
    pub links: ModLinks,
    pub summary: String,
    pub status: ModStatus,
    pub download_count: Number,
    /// Whether the mod is included in the featured mods list
    pub is_featured: bool,
    /// The main category of the mod as it was chosen by the mod author
    pub primary_category_id: ID,
    /// List of categories that this mod is related to
    pub categories: Vec<Category>,
    /// The ID of the class this mod belongs to
    pub class_id: Option<ID>,
    pub authors: Vec<ModAuthor>,
    pub logo: Option<ModAsset>,
    pub screenshots: Vec<ModAsset>,
    pub main_file_id: ID,
    pub latest_files: Vec<File>,
    /// List of file related details for the latest files of the mod
    pub latest_files_indexes: Vec<FileIndex>,
    pub latest_early_access_files_indexes: Vec<FileIndex>,
    pub date_created: UtcTime,
    pub date_modified: UtcTime,
    pub date_released: UtcTime,
    pub allow_mod_distribution: Option<bool>,
    pub game_popularity_rank: Number,
    /// Is the mod available for search.
    /// This can be false when a mod is experimental, in a deleted state, or has only alpha files.
    pub is_available: bool,
    pub thumbs_up_count: Number,
    pub rating: Option<Rating>,
}

/// A mod's rating, kept as the bit pattern of the IEEE 754 double that the
/// service sent.
#[derive(Debug, Clone, Copy, PartialEq, Eq, Structural)]
pub struct Rating {
    pub bits: u64,
}

#[derive(Debug, Clone)]
pub struct ModLinks {
    /// A link to the mod's CurseForge page
    pub website_url: Url,
    pub wiki_url: Option<Url>,
    pub issues_url: Option<Url>,
    pub source_url: Option<Url>,
}

#[derive(Debug, Clone, PartialEq, Eq, Structural)]
pub enum ModStatus {
    New,
    ChangesRequired,
    UnderSoftReview,
    Approved,
    Rejected,
    ChangesMade,
    Inactive,
    Abandoned,
    Deleted,
    UnderReview,
}

impl ModStatus {
    /// The number that the service writes for this status.
    pub open spec fn code_of(self) -> u8 {
        match self {
            ModStatus::New => 1,
            ModStatus::ChangesRequired => 2,
            ModStatus::UnderSoftReview => 3,
            ModStatus::Approved => 4,
            ModStatus::Rejected => 5,
            ModStatus::ChangesMade => 6,
            ModStatus::Inactive => 7,
            ModStatus::Abandoned => 8,
            ModStatus::Deleted => 9,
            ModStatus::UnderReview => 10,
        }
    }

    /// The number that the service writes for this status.
    pub fn code(&self) -> (code: u8)
        ensures
            code == self.code_of(),
    {
        match self {
            ModStatus::New => 1,
            ModStatus::ChangesRequired => 2,
            ModStatus::UnderSoftReview => 3,
            ModStatus::Approved => 4,
            ModStatus::Rejected => 5,
            ModStatus::ChangesMade => 6,
            ModStatus::Inactive => 7,
            ModStatus::Abandoned => 8,
            ModStatus::Deleted => 9,
            ModStatus::UnderReview => 10,
        }
    }

    /// The status that the service writes as `code`; `None` for a number that
    /// stands for no status.
    pub open spec fn with_code(code: u8) -> Option<Self> {
        match code {
            1 => Some(ModStatus::New),
            2 => Some(ModStatus::ChangesRequired),
            3 => Some(ModStatus::UnderSoftReview),
            4 => Some(ModStatus::Approved),
            5 => Some(ModStatus::Rejected),
            6 => Some(ModStatus::ChangesMade),
            7 => Some(ModStatus::Inactive),
            8 => Some(ModStatus::Abandoned),
            9 => Some(ModStatus::Deleted),
            10 => Some(ModStatus::UnderReview),
            _ => None,
        }
    }

    /// Read the number that the service writes for a status; `None` for a
    /// number that stands for none.
    pub fn from_code(code: u8) -> (status: Option<Self>)
        ensures
            status == Self::with_code(code),
    {
        match code {
            1 => Some(ModStatus::New),
            2 => Some(ModStatus::ChangesRequired),
            3 => Some(ModStatus::UnderSoftReview),
            4 => Some(ModStatus::Approved),
            5 => Some(ModStatus::Rejected),
            6 => Some(ModStatus::ChangesMade),
            7 => Some(ModStatus::Inactive),
            8 => Some(ModStatus::Abandoned),
            9 => Some(ModStatus::Deleted),
            10 => Some(ModStatus::UnderReview),
            _ => None,
        }
    }

    /// Reading a number gives the one status that is written as that
    /// number, and no other number reads as it.
    pub proof fn lemma_with_code_inverts_code_of(self, code: u8)
        ensures
            Self::with_code(self.code_of()) == Some(self),
            Self::with_code(code) == Some(self) ==> self.code_of() == code,
    {
    }
}

#[derive(Debug, Clone)]
pub struct ModAuthor {
    pub id: ID,
    pub name: String,
    pub url: Url,
}

#[derive(Debug, Clone)]
pub struct ModAsset {
    pub id: ID,
    pub mod_id: ID,
    pub title: String,
    pub description: String,
    pub thumbnail_url: String,
    pub url: Url,
}

} // verus!
