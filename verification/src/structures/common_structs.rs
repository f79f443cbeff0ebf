use super::{Number, UtcTime, ID};
use url::Url;
use vstd::prelude::*;

verus! {

#[derive(Debug, Clone)]
pub struct Category {
    pub id: ID,
    pub game_id: ID,
    pub name: String,
    pub slug: String,
    pub url: Url,
    pub icon_url: Url,
    pub date_modified: UtcTime,
    /// Whether this is a top level category for other categories
    pub is_class: Option<bool>,
    /// The ID of the class which this category is under
    pub class_id: Option<ID>,
    pub parent_category_id: Option<ID>,
    pub display_index: Option<Number>,
}

#[derive(Debug, Clone)]
pub struct SortableGameVersion {
    /// Version name as released (e.g. `1.5b`)
    pub game_version_name: String,
    /// Padded version used for sorting (e.g. `0000000001.0000000005`)
    pub game_version_padded: String,
    /// Clean version (e.g. `1.5`)
    pub game_version: String,
    pub game_version_release_date: UtcTime,
    pub game_version_type_id: Option<ID>,
}

#[derive(Debug, Clone, Copy)]
pub struct Pagination {
    /// Index of the first item included
    pub index: Number,
    /// Number of items requested
    pub page_size: Number,
    /// Actual number of items that were returned
    pub result_count: Number,
    /// Total number of items available
    pub total_count: Number,
}

#[derive(Debug, Clone, Copy, PartialEq, Eq, Structural)]
pub enum ModLoaderType {
    Any,
    Forge,
    Cauldron,
    LiteLoader,
    Fabric,
    Quilt,
    NeoForge,
}

impl ModLoaderType {
    /// The number that the service writes for this mod loader.
    pub open spec fn code_of(self) -> u8 {
        match self {
            ModLoaderType::Any => 0,
            ModLoaderType::Forge => 1,
            ModLoaderType::Cauldron => 2,
            ModLoaderType::LiteLoader => 3,
            ModLoaderType::Fabric => 4,
            ModLoaderType::Quilt => 5,
            ModLoaderType::NeoForge => 6,
        }
    }

    /// The number that the service writes for this mod loader.
    pub fn code(&self) -> (code: u8)
        ensures
            code == self.code_of(),
    {
        match self {
            ModLoaderType::Any => 0,
            ModLoaderType::Forge => 1,
            ModLoaderType::Cauldron => 2,
            ModLoaderType::LiteLoader => 3,
            ModLoaderType::Fabric => 4,
            ModLoaderType::Quilt => 5,
            ModLoaderType::NeoForge => 6,
        }
    }

    /// The mod loader that the service writes as `code`; `None` for a number
    /// that stands for no mod loader.
    pub open spec fn with_code(code: u8) -> Option<Self> {
        match code {
            0 => Some(ModLoaderType::Any),
            1 => Some(ModLoaderType::Forge),
            2 => Some(ModLoaderType::Cauldron),
            3 => Some(ModLoaderType::LiteLoader),
            4 => Some(ModLoaderType::Fabric),
            5 => Some(ModLoaderType::Quilt),
            6 => Some(ModLoaderType::NeoForge),
            _ => None,
        }
    }

    /// Read the number that the service writes for a mod loader; `None` for a
    /// number that stands for none.
    pub fn from_code(code: u8) -> (loader: Option<Self>)
        ensures
            loader == Self::with_code(code),
    {
        match code {
            0 => Some(ModLoaderType::Any),
            1 => Some(ModLoaderType::Forge),
            2 => Some(ModLoaderType::Cauldron),
            3 => Some(ModLoaderType::LiteLoader),
            4 => Some(ModLoaderType::Fabric),
            5 => Some(ModLoaderType::Quilt),
            6 => Some(ModLoaderType::NeoForge),
            _ => None,
        }
    }

    /// Reading a number gives the one mod loader that is written as that
    /// number, and no other number reads as it.
    pub proof fn lemma_with_code_inverts_code_of(self, code: u8)
        ensures
            Self::with_code(self.code_of()) == Some(self),
            Self::with_code(code) == Some(self) ==> self.code_of() == code,
    {
    }
}

} // verus!
