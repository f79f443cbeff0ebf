use furse::api_calls::correlate::{order_by_request, position};
use furse::api_calls::file_calls::files_in_order;
use furse::api_calls::fingerprint_calls::matches_in_order;
use furse::structures::file_structs::{File, FileReleaseType, FileStatus};
use furse::structures::fingerprint_structs::{FingerprintMatches, Match};
use furse::structures::UtcTime;
use std::collections::HashMap;

fn file(id: i32, name: &str, fingerprint: i64) -> File {
    File {
        id,
        game_id: 432,
        mod_id: 1000 + id,
        is_available: true,
        display_name: name.to_string(),
        file_name: format!("{name}.jar"),
        release_type: FileReleaseType::Release,
        file_status: FileStatus::Approved,
        hashes: Vec::new(),
        file_date: UtcTime {
            seconds: 1_650_000_000,
            nanoseconds: 0,
        },
        file_length: 1024,
        download_count: 7,
        file_size_on_disk: None,
        download_url: None,
        game_versions: vec!["1.20.1".to_string()],
        sortable_game_versions: Vec::new(),
        dependencies: Vec::new(),
        expose_as_alternative: None,
        parent_project_file_id: None,
        alternate_file_id: None,
        is_server_pack: None,
        server_pack_file_id: None,
        is_early_access_content: None,
        early_access_end_date: None,
        file_fingerprint: fingerprint,
        modules: Vec::new(),
    }
}

fn matched(mod_id: i32, name: &str, fingerprint: i64) -> Match {
    Match {
        id: mod_id,
        file: file(mod_id * 10, name, fingerprint),
        latest_files: Vec::new(),
    }
}

fn names_of(files: &[Option<File>]) -> Vec<Option<&str>> {
    files
        .iter()
        .map(|file| file.as_ref().map(|file| file.display_name.as_str()))
        .collect()
}

fn mods_of(matches: &[Option<Match>]) -> Vec<Option<&str>> {
    matches
        .iter()
        .map(|found| found.as_ref().map(|found| found.file.display_name.as_str()))
        .collect()
}

#[test]
fn files_come_back_in_the_order_they_were_requested_in() {
    let ordered = files_in_order(
        &vec![3144153, 3778436, 1234],
        vec![file(3778436, "second", 2), file(3144153, "first", 1)],
    );
    assert_eq!(ordered.len(), 3);
    assert_eq!(ordered[0].as_ref().map(|file| file.id), Some(3144153));
    assert_eq!(ordered[1].as_ref().map(|file| file.id), Some(3778436));
    assert!(ordered[2].is_none());
    assert_eq!(names_of(&ordered), [Some("first"), Some("second"), None]);
}

#[test]
fn every_requested_file_has_its_place() {
    let requested = vec![9, 8, 7, 6, 5, 4, 3, 2, 1];
    let files = vec![file(2, "two", 0), file(4, "four", 0), file(6, "six", 0), file(8, "eight", 0)];
    let ordered = files_in_order(&requested, files);
    assert_eq!(ordered.len(), requested.len());
    for (place, id) in requested.iter().enumerate() {
        match &ordered[place] {
            Some(file) => {
                assert_eq!(file.id, *id);
                assert_eq!(id % 2, 0);
            }
            None => assert_eq!(id % 2, 1),
        }
    }
    assert_eq!(
        names_of(&ordered),
        [None, Some("eight"), None, Some("six"), None, Some("four"), None, Some("two"), None]
    );
}

#[test]
fn nothing_requested_gives_nothing() {
    assert!(files_in_order(&Vec::new(), Vec::new()).is_empty());
    assert!(files_in_order(&Vec::new(), vec![file(1, "one", 0)]).is_empty());
}

#[test]
fn nothing_returned_gives_a_gap_for_every_request() {
    let ordered = files_in_order(&vec![1, 2, 3], Vec::new());
    assert_eq!(names_of(&ordered), [None, None, None]);
}

#[test]
fn a_file_that_was_not_requested_is_left_out() {
    let ordered = files_in_order(&vec![1], vec![file(2, "two", 0), file(1, "one", 0)]);
    assert_eq!(names_of(&ordered), [Some("one")]);
}

#[test]
fn a_file_is_handed_out_once() {
    let ordered = files_in_order(&vec![5, 5], vec![file(5, "five", 0)]);
    assert_eq!(names_of(&ordered), [Some("five"), None]);
}

#[test]
fn the_first_of_the_remaining_files_with_the_id_is_taken() {
    // after "a" is taken out, the last file stands in its place: "c" is then
    // the first file with the ID 2
    let files = vec![file(1, "a", 0), file(2, "b", 0), file(2, "c", 0)];
    let ordered = files_in_order(&vec![1, 2, 2], files);
    assert_eq!(names_of(&ordered), [Some("a"), Some("c"), Some("b")]);

    let files = vec![file(2, "b", 0), file(2, "c", 0), file(1, "a", 0)];
    let ordered = files_in_order(&vec![2, 1, 2], files);
    assert_eq!(names_of(&ordered), [Some("b"), Some("a"), Some("c")]);
}

#[test]
fn position_is_that_of_the_first_answer() {
    let files = vec![file(1, "a", 0), file(2, "b", 0), file(2, "c", 0)];
    assert_eq!(position(&files, &1), Some(0));
    assert_eq!(position(&files, &2), Some(1));
    assert_eq!(position(&files, &3), None);
    assert_eq!(position(&Vec::<File>::new(), &1), None);
}

#[test]
fn matches_are_put_next_to_the_fingerprints_they_answer() {
    let (f1, f2, f3) = (2070800629usize, 1234567890usize, 3379185110usize);
    let reported = vec![matched(3, "match3", f3 as i64), matched(1, "match1", f1 as i64)];
    let ordered = matches_in_order(&vec![f1, f2, f3], reported);
    assert_eq!(ordered.len(), 3);
    assert_eq!(mods_of(&ordered), [Some("match1"), None, Some("match3")]);
    assert_eq!(ordered[0].as_ref().map(|found| found.id), Some(1));
    assert_eq!(ordered[2].as_ref().map(|found| found.id), Some(3));
}

#[test]
fn a_negative_fingerprint_answers_no_request() {
    let ordered = matches_in_order(&vec![1, usize::MAX], vec![matched(1, "minus one", -1)]);
    assert_eq!(mods_of(&ordered), [None, None]);
}

#[test]
fn the_generic_utility_does_what_the_two_endpoints_do() {
    let ordered = order_by_request(&vec![2, 1], vec![file(1, "one", 0), file(2, "two", 0)]);
    assert_eq!(names_of(&ordered), [Some("two"), Some("one")]);
    let ordered = order_by_request(&vec![20usize, 10], vec![matched(1, "ten", 10)]);
    assert_eq!(mods_of(&ordered), [None, Some("ten")]);
}

fn answer_with(unmatched: Option<Vec<i64>>) -> FingerprintMatches {
    FingerprintMatches {
        is_cache_built: true,
        exact_matches: vec![matched(42, "known", 111111111)],
        exact_fingerprints: vec![111111111],
        partial_matches: Vec::new(),
        partial_match_fingerprints: HashMap::new(),
        installed_fingerprints: vec![111111111, 999999999],
        unmatched_fingerprints: unmatched,
    }
}

#[test]
fn one_known_and_one_unknown_fingerprint() {
    let requested = vec![111111111usize, 999999999];
    for unmatched in [None, Some(Vec::new()), Some(vec![999999999i64])] {
        let answer = answer_with(unmatched);
        assert_eq!(answer.exact_matches.len(), 1);
        assert_eq!(answer.exact_matches[0].file.file_fingerprint, 111111111);
        assert_eq!(answer.exact_fingerprints, [111111111]);
        if let Some(unmatched) = &answer.unmatched_fingerprints {
            assert!(unmatched.is_empty() || unmatched == &[999999999]);
        }
        let ordered = matches_in_order(&requested, answer.exact_matches);
        assert_eq!(mods_of(&ordered), [Some("known"), None]);
        let partial = matches_in_order(&requested, answer.partial_matches);
        assert_eq!(mods_of(&partial), [None, None]);
    }
}
