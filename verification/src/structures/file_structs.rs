use super::common_structs::{ModLoaderType, SortableGameVersion};
use super::{Number, UtcTime, ID};
use url::Url;
use vstd::prelude::*;

verus! {

#[derive(Debug, Clone)]
pub struct File {
    pub id: ID,
    /// The game ID of the mod that this file belongs to
    pub game_id: ID,
    pub mod_id: ID,
    pub is_available: bool,
    pub display_name: String,
    /// Exact file name
    pub file_name: String,
    pub release_type: FileReleaseType,
    pub file_status: FileStatus,
    pub hashes: Vec<FileHash>,
    pub file_date: UtcTime,
    /// The file length in bytes
    pub file_length: Number,
    pub download_count: Number,
    pub file_size_on_disk: Option<Number>,
    pub download_url: Option<Url>,
    /// List of game versions this file is relevant for
    pub game_versions: Vec<String>,
    /// Metadata used for sorting by game versions
    pub sortable_game_versions: Vec<SortableGameVersion>,
    pub dependencies: Vec<FileDependency>,
    pub expose_as_alternative: Option<bool>,
    pub parent_project_file_id: Option<ID>,
    pub alternate_file_id: Option<ID>,
    pub is_server_pack: Option<bool>,
    pub server_pack_file_id: Option<ID>,
    pub is_early_access_content: Option<bool>,
    pub early_access_end_date: Option<UtcTime>,
    pub file_fingerprint: Number,
    pub modules: Vec<FileModule>,
}

#[derive(Debug, Clone, Copy, PartialEq, Eq, Structural)]
pub enum FileReleaseType {
    Release,
    Beta,
    Alpha,
}

impl FileReleaseType {
    /// The number that the service writes for this release type.
    pub open spec fn code_of(self) -> u8 {
        match self {
            FileReleaseType::Release => 1,
            FileReleaseType::Beta => 2,
            FileReleaseType::Alpha => 3,
        }
    }

    /// The number that the service writes for this release type.
    pub fn code(&self) -> (code: u8)
        ensures
            code == self.code_of(),
    {
        match self {
            FileReleaseType::Release => 1,
            FileReleaseType::Beta => 2,
            FileReleaseType::Alpha => 3,
        }
    }

    /// The release type that the service writes as `code`; `None` for a
    /// number that stands for no release type.
    pub open spec fn with_code(code: u8) -> Option<Self> {
        match code {
            1 => Some(FileReleaseType::Release),
            2 => Some(FileReleaseType::Beta),
            3 => Some(FileReleaseType::Alpha),
            _ => None,
        }
    }

    /// Read the number that the service writes for a release type; `None` for a
    /// number that stands for none.
    pub fn from_code(code: u8) -> (release_type: Option<Self>)
        ensures
            release_type == Self::with_code(code),
    {
        match code {
            1 => Some(FileReleaseType::Release),
            2 => Some(FileReleaseType::Beta),
            3 => Some(FileReleaseType::Alpha),
            _ => None,
        }
    }

    /// Reading a number gives the one release type that is written as that
    /// number, and no other number reads as it.
    pub proof fn lemma_with_code_inverts_code_of(self, code: u8)
        ensures
            Self::with_code(self.code_of()) == Some(self),
            Self::with_code(code) == Some(self) ==> self.code_of() == code,
    {
    }
}

#[derive(Debug, Clone, Copy, PartialEq, Eq, Structural)]
pub enum FileStatus {
    Processing,
    ChangesRequired,
    UnderReview,
    Approved,
    Rejected,
    MalwareDetected,
    Deleted,
    Archived,
    Testing,
    Released,
    ReadyForReview,
    Deprecated,
    Baking,
    AwaitingPublishing,
    FailedPublishing,
    Cooking,
    Cooked,
    UnderManualReview,
    ScanningForMalware,
    ProcessingFile,
    PendingRelease,
    ReadyForCooking,
    PostProcessing,
}

impl FileStatus {
    /// The number that the service writes for this status.
    pub open spec fn code_of(self) -> u8 {
        match self {
            FileStatus::Processing => 1,
            FileStatus::ChangesRequired => 2,
            FileStatus::UnderReview => 3,
            FileStatus::Approved => 4,
            FileStatus::Rejected => 5,
            FileStatus::MalwareDetected => 6,
            FileStatus::Deleted => 7,
            FileStatus::Archived => 8,
            FileStatus::Testing => 9,
            FileStatus::Released => 10,
            FileStatus::ReadyForReview => 11,
            FileStatus::Deprecated => 12,
            FileStatus::Baking => 13,
            FileStatus::AwaitingPublishing => 14,
            FileStatus::FailedPublishing => 15,
            FileStatus::Cooking => 16,
            FileStatus::Cooked => 17,
            FileStatus::UnderManualReview => 18,
            FileStatus::ScanningForMalware => 19,
            FileStatus::ProcessingFile => 20,
            FileStatus::PendingRelease => 21,
            FileStatus::ReadyForCooking => 22,
            FileStatus::PostProcessing => 23,
        }
    }

    /// The number that the service writes for this status.
    pub fn code(&self) -> (code: u8)
        ensures
            code == self.code_of(),
    {
        match self {
            FileStatus::Processing => 1,
            FileStatus::ChangesRequired => 2,
            FileStatus::UnderReview => 3,
            FileStatus::Approved => 4,
            FileStatus::Rejected => 5,
            FileStatus::MalwareDetected => 6,
            FileStatus::Deleted => 7,
            FileStatus::Archived => 8,
            FileStatus::Testing => 9,
            FileStatus::Released => 10,
            FileStatus::ReadyForReview => 11,
            FileStatus::Deprecated => 12,
            FileStatus::Baking => 13,
            FileStatus::AwaitingPublishing => 14,
            FileStatus::FailedPublishing => 15,
            FileStatus::Cooking => 16,
            FileStatus::Cooked => 17,
            FileStatus::UnderManualReview => 18,
            FileStatus::ScanningForMalware => 19,
            FileStatus::ProcessingFile => 20,
            FileStatus::PendingRelease => 21,
            FileStatus::ReadyForCooking => 22,
            FileStatus::PostProcessing => 23,
        }
    }

    /// The status that the service writes as `code`; `None` for a number that
    /// stands for no status.
    pub open spec fn with_code(code: u8) -> Option<Self> {
        match code {
            1 => Some(FileStatus::Processing),
            2 => Some(FileStatus::ChangesRequired),
            3 => Some(FileStatus::UnderReview),
            4 => Some(FileStatus::Approved),
            5 => Some(FileStatus::Rejected),
            6 => Some(FileStatus::MalwareDetected),
            7 => Some(FileStatus::Deleted),
            8 => Some(FileStatus::Archived),
            9 => Some(FileStatus::Testing),
            10 => Some(FileStatus::Released),
            11 => Some(FileStatus::ReadyForReview),
            12 => Some(FileStatus::Deprecated),
            13 => Some(FileStatus::Baking),
            14 => Some(FileStatus::AwaitingPublishing),
            15 => Some(FileStatus::FailedPublishing),
            16 => Some(FileStatus::Cooking),
            17 => Some(FileStatus::Cooked),
            18 => Some(FileStatus::UnderManualReview),
            19 => Some(FileStatus::ScanningForMalware),
            20 => Some(FileStatus::ProcessingFile),
            21 => Some(FileStatus::PendingRelease),
            22 => Some(FileStatus::ReadyForCooking),
            23 => Some(FileStatus::PostProcessing),
            _ => None,
        }
    }

    /// Read the number that the service writes for a status; `None` for a
    /// number that stands for none.
    pub fn from_code(code: u8) -> (status: Option<Self>)
        ensures
            status == Self::with_code(code),
    {
        match code {
            1 => Some(FileStatus::Processing),
            2 => Some(FileStatus::ChangesRequired),
            3 => Some(FileStatus::UnderReview),
            4 => Some(FileStatus::Approved),
            5 => Some(FileStatus::Rejected),
            6 => Some(FileStatus::MalwareDetected),
            7 => Some(FileStatus::Deleted),
            8 => Some(FileStatus::Archived),
            9 => Some(FileStatus::Testing),
            10 => Some(FileStatus::Released),
            11 => Some(FileStatus::ReadyForReview),
            12 => Some(FileStatus::Deprecated),
            13 => Some(FileStatus::Baking),
            14 => Some(FileStatus::AwaitingPublishing),
            15 => Some(FileStatus::FailedPublishing),
            16 => Some(FileStatus::Cooking),
            17 => Some(FileStatus::Cooked),
            18 => Some(FileStatus::UnderManualReview),
            19 => Some(FileStatus::ScanningForMalware),
            20 => Some(FileStatus::ProcessingFile),
            21 => Some(FileStatus::PendingRelease),
            22 => Some(FileStatus::ReadyForCooking),
            23 => Some(FileStatus::PostProcessing),
            _ => None,
        }
    }

    /// Reading a number gives the one status that is written as that
    /// number, and no other number reads as it.
    pub proof fn lemma_with_code_inverts_code_of(self, code: u8)
        ensures
            Self::with_code(self.code_of()) == Some(self),
            Self::with_code(code) == Some(self) ==> self.code_of() == code,
    {
    }
}

#[derive(Debug, Clone)]
pub struct FileIndex {
    pub game_version: String,
    pub file_id: ID,
    pub filename: String,
    pub release_type: FileReleaseType,
    pub game_version_type_id: Option<ID>,
    pub mod_loader: Option<ModLoaderType>,
}

#[derive(Debug, Clone)]
pub struct FileHash {
    pub value: String,
    pub algo: HashAlgo,
}

#[derive(Debug, Clone, Copy, PartialEq, Eq, Structural)]
pub enum HashAlgo {
    Sha1,
    Md5,
}

impl HashAlgo {
    /// The number that the service writes for this hash algorithm.
    pub open spec fn code_of(self) -> u8 {
        match self {
            HashAlgo::Sha1 => 1,
            HashAlgo::Md5 => 2,
        }
    }

    /// The number that the service writes for this hash algorithm.
    pub fn code(&self) -> (code: u8)
        ensures
            code == self.code_of(),
    {
        match self {
            HashAlgo::Sha1 => 1,
            HashAlgo::Md5 => 2,
        }
    }

    /// The hash algorithm that the service writes as `code`; `None` for a
    /// number that stands for no hash algorithm.
    pub open spec fn with_code(code: u8) -> Option<Self> {
        match code {
            1 => Some(HashAlgo::Sha1),
            2 => Some(HashAlgo::Md5),
            _ => None,
        }
    }

    /// Read the number that the service writes for a hash algorithm; `None` for a
    /// number that stands for none.
    pub fn from_code(code: u8) -> (algo: Option<Self>)
        ensures
            algo == Self::with_code(code),
    {
        match code {
            1 => Some(HashAlgo::Sha1),
            2 => Some(HashAlgo::Md5),
            _ => None,
        }
    }

    /// Reading a number gives the one hash algorithm that is written as that
    /// number, and no other number reads as it.
    pub proof fn lemma_with_code_inverts_code_of(self, code: u8)
        ensures
            Self::with_code(self.code_of()) == Some(self),
            Self::with_code(code) == Some(self) ==> self.code_of() == code,
    {
    }
}

#[derive(Debug, Clone, Copy)]
pub struct FileDependency {
    pub mod_id: ID,
    pub relation_type: FileRelationType,
}

#[derive(Debug, Clone, Copy, PartialEq, Eq, Structural)]
pub enum FileRelationType {
    EmbeddedLibrary,
    OptionalDependency,
    RequiredDependency,
    Tool,
    Incompatible,
    Include,
}

impl FileRelationType {
    /// The number that the service writes for this relation.
    pub open spec fn code_of(self) -> u8 {
        match self {
            FileRelationType::EmbeddedLibrary => 1,
            FileRelationType::OptionalDependency => 2,
            FileRelationType::RequiredDependency => 3,
            FileRelationType::Tool => 4,
            FileRelationType::Incompatible => 5,
            FileRelationType::Include => 6,
        }
    }

    /// The number that the service writes for this relation.
    pub fn code(&self) -> (code: u8)
        ensures
            code == self.code_of(),
    {
        match self {
            FileRelationType::EmbeddedLibrary => 1,
            FileRelationType::OptionalDependency => 2,
            FileRelationType::RequiredDependency => 3,
            FileRelationType::Tool => 4,
            FileRelationType::Incompatible => 5,
            FileRelationType::Include => 6,
        }
    }

    /// The relation that the service writes as `code`; `None` for a number
    /// that stands for no relation.
    pub open spec fn with_code(code: u8) -> Option<Self> {
        match code {
            1 => Some(FileRelationType::EmbeddedLibrary),
            2 => Some(FileRelationType::OptionalDependency),
            3 => Some(FileRelationType::RequiredDependency),
            4 => Some(FileRelationType::Tool),
            5 => Some(FileRelationType::Incompatible),
            6 => Some(FileRelationType::Include),
            _ => None,
        }
    }

    /// Read the number that the service writes for a relation; `None` for a
    /// number that stands for none.
    pub fn from_code(code: u8) -> (relation: Option<Self>)
        ensures
            relation == Self::with_code(code),
    {
        match code {
            1 => Some(FileRelationType::EmbeddedLibrary),
            2 => Some(FileRelationType::OptionalDependency),
            3 => Some(FileRelationType::RequiredDependency),
            4 => Some(FileRelationType::Tool),
            5 => Some(FileRelationType::Incompatible),
            6 => Some(FileRelationType::Include),
            _ => None,
        }
    }

    /// Reading a number gives the one relation that is written as that
    /// number, and no other number reads as it.
    pub proof fn lemma_with_code_inverts_code_of(self, code: u8)
        ensures
            Self::with_code(self.code_of()) == Some(self),
            Self::with_code(code) == Some(self) ==> self.code_of() == code,
    {
    }
}

#[derive(Debug, Clone)]
pub struct FileModule {
    pub name: String,
    pub fingerprint: Number,
}

} // verus!
