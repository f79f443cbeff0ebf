use furse::structures::common_structs::ModLoaderType;
use furse::structures::file_structs::{FileRelationType, FileReleaseType, FileStatus, HashAlgo};
use furse::structures::mod_structs::ModStatus;

#[test]
fn mod_loader_codes() {
    let all = [
        (0, ModLoaderType::Any),
        (1, ModLoaderType::Forge),
        (2, ModLoaderType::Cauldron),
        (3, ModLoaderType::LiteLoader),
        (4, ModLoaderType::Fabric),
        (5, ModLoaderType::Quilt),
        (6, ModLoaderType::NeoForge),
    ];
    for (code, loader) in all {
        assert_eq!(loader.code(), code);
        assert_eq!(ModLoaderType::from_code(code), Some(loader));
    }
    for code in 7..=255 {
        assert_eq!(ModLoaderType::from_code(code), None);
    }
}

#[test]
fn file_release_type_codes() {
    let all = [
        (1, FileReleaseType::Release),
        (2, FileReleaseType::Beta),
        (3, FileReleaseType::Alpha),
    ];
    for (code, release_type) in all {
        assert_eq!(release_type.code(), code);
        assert_eq!(FileReleaseType::from_code(code), Some(release_type));
    }
    assert_eq!(FileReleaseType::from_code(0), None);
    for code in 4..=255 {
        assert_eq!(FileReleaseType::from_code(code), None);
    }
}

#[test]
fn file_status_codes() {
    let all = [
        (1, FileStatus::Processing),
        (2, FileStatus::ChangesRequired),
        (3, FileStatus::UnderReview),
        (4, FileStatus::Approved),
        (5, FileStatus::Rejected),
        (6, FileStatus::MalwareDetected),
        (7, FileStatus::Deleted),
        (8, FileStatus::Archived),
        (9, FileStatus::Testing),
        (10, FileStatus::Released),
        (11, FileStatus::ReadyForReview),
        (12, FileStatus::Deprecated),
        (13, FileStatus::Baking),
        (14, FileStatus::AwaitingPublishing),
        (15, FileStatus::FailedPublishing),
        (16, FileStatus::Cooking),
        (17, FileStatus::Cooked),
        (18, FileStatus::UnderManualReview),
        (19, FileStatus::ScanningForMalware),
        (20, FileStatus::ProcessingFile),
        (21, FileStatus::PendingRelease),
        (22, FileStatus::ReadyForCooking),
        (23, FileStatus::PostProcessing),
    ];
    for (code, status) in all {
        assert_eq!(status.code(), code);
        assert_eq!(FileStatus::from_code(code), Some(status));
    }
    assert_eq!(FileStatus::from_code(0), None);
    for code in 24..=255 {
        assert_eq!(FileStatus::from_code(code), None);
    }
}

#[test]
fn hash_algo_codes() {
    assert_eq!(HashAlgo::Sha1.code(), 1);
    assert_eq!(HashAlgo::Md5.code(), 2);
    assert_eq!(HashAlgo::from_code(1), Some(HashAlgo::Sha1));
    assert_eq!(HashAlgo::from_code(2), Some(HashAlgo::Md5));
    assert_eq!(HashAlgo::from_code(0), None);
    for code in 3..=255 {
        assert_eq!(HashAlgo::from_code(code), None);
    }
}

#[test]
fn file_relation_type_codes() {
    let all = [
        (1, FileRelationType::EmbeddedLibrary),
        (2, FileRelationType::OptionalDependency),
        (3, FileRelationType::RequiredDependency),
        (4, FileRelationType::Tool),
        (5, FileRelationType::Incompatible),
        (6, FileRelationType::Include),
    ];
    for (code, relation) in all {
        assert_eq!(relation.code(), code);
        assert_eq!(FileRelationType::from_code(code), Some(relation));
    }
    assert_eq!(FileRelationType::from_code(0), None);
    for code in 7..=255 {
        assert_eq!(FileRelationType::from_code(code), None);
    }
}

#[test]
fn mod_status_codes() {
    let all = [
        (1, ModStatus::New),
        (2, ModStatus::ChangesRequired),
        (3, ModStatus::UnderSoftReview),
        (4, ModStatus::Approved),
        (5, ModStatus::Rejected),
        (6, ModStatus::ChangesMade),
        (7, ModStatus::Inactive),
        (8, ModStatus::Abandoned),
        (9, ModStatus::Deleted),
        (10, ModStatus::UnderReview),
    ];
    for (code, status) in all {
        assert_eq!(status.code(), code);
        assert_eq!(ModStatus::from_code(code), Some(status));
    }
    assert_eq!(ModStatus::from_code(0), None);
    for code in 11..=255 {
        assert_eq!(ModStatus::from_code(code), None);
    }
}

#[test]
fn a_code_that_is_read_is_written_back_as_it_was() {
    for code in 0..=255u8 {
        if let Some(loader) = ModLoaderType::from_code(code) {
            assert_eq!(loader.code(), code);
        }
        if let Some(release_type) = FileReleaseType::from_code(code) {
            assert_eq!(release_type.code(), code);
        }
        if let Some(status) = FileStatus::from_code(code) {
            assert_eq!(status.code(), code);
        }
        if let Some(algo) = HashAlgo::from_code(code) {
            assert_eq!(algo.code(), code);
        }
        if let Some(relation) = FileRelationType::from_code(code) {
            assert_eq!(relation.code(), code);
        }
        if let Some(status) = ModStatus::from_code(code) {
            assert_eq!(status.code(), code);
        }
    }
}
