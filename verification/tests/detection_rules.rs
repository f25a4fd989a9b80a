use lovelock::detection::{
    display_paths, is_safe_install_dir, unique_paths, manifest_matches, select_candidate, Candidate, Detection, DetectionError,
    DetectionScan, DEADLOCK_APP_ID, MANIFEST_MISMATCH,
};

fn log_path(root: &str, name: &str) -> String {
    format!("{root}/steamapps/common/{name}/game/citadel/console.log")
}

fn secs(s: u128) -> Option<u128> {
    Some(s * 1_000_000_000)
}

#[test]
fn resolves_primary_library_log() {
    let mut scan = DetectionScan::new();
    scan.readable_root_found = true;
    scan.manifest_found = true;
    let expected = log_path("/steam", "Deadlock");
    scan.note_candidate(expected.clone(), secs(1), expected.clone());
    assert_eq!(scan.finish(false), Ok(Detection::Ready { path: expected }));
}

#[test]
fn resolves_secondary_library_log() {
    let mut scan = DetectionScan::new();
    scan.readable_root_found = true;
    scan.manifest_found = true;
    let expected = log_path("/library-1", "Deadlock");
    scan.note_candidate(expected.clone(), secs(1), expected.clone());
    assert_eq!(scan.finish(false), Ok(Detection::Ready { path: expected }));
}

#[test]
fn installed_game_without_log_is_not_created() {
    let mut scan = DetectionScan::new();
    scan.readable_root_found = true;
    scan.manifest_found = true;
    let expected = log_path("/steam", "Deadlock");
    scan.note_candidate(expected.clone(), None, expected.clone());
    assert_eq!(scan.finish(false), Ok(Detection::NotCreated { path: expected }));
}

#[test]
fn stale_manifest_is_an_invalid_install() {
    let mut scan = DetectionScan::new();
    scan.readable_root_found = true;
    scan.manifest_found = true;
    let expected = "/steam/steamapps/common/DeletedDeadlock".to_owned();
    scan.note_invalid_install(expected.clone());
    assert_eq!(scan.finish(false), Err(DetectionError::InvalidInstall { paths: vec![expected] }));
}

#[test]
fn malformed_app_manifest_is_reported() {
    let mut scan = DetectionScan::new();
    scan.readable_root_found = true;
    scan.manifest_found = true;
    let manifest = format!("/steam/steamapps/appmanifest_{DEADLOCK_APP_ID}.acf");
    scan.note_malformed(manifest.clone(), "not vdf".to_owned());
    assert!(matches!(
        scan.finish(false),
        Err(DetectionError::MalformedMetadata { path, .. }) if path == manifest
    ));
}

#[test]
fn broken_root_does_not_hide_valid_root() {
    let mut scan = DetectionScan::new();
    scan.note_unreadable("/tmp/not-a-steam-directory".to_owned(), "the discovered Steam root is not a directory".to_owned());
    scan.readable_root_found = true;
    let mut scan = scan.after_roots(2).expect("a readable root goes on");
    let expected = log_path("/steam", "Deadlock");
    scan.manifest_found = true;
    scan.note_candidate(expected.clone(), secs(1), expected.clone());
    assert_eq!(scan.finish(false), Ok(Detection::Ready { path: expected }));
}

#[test]
fn broken_library_does_not_hide_valid_library() {
    let mut scan = DetectionScan::new();
    scan.readable_root_found = true;
    scan.note_unreadable("/library-1".to_owned(), "not a directory".to_owned());
    scan.manifest_found = true;
    let expected = log_path("/library-2", "Deadlock");
    scan.note_candidate(expected.clone(), secs(1), expected.clone());
    assert_eq!(scan.finish(false), Ok(Detection::Ready { path: expected }));
}

#[test]
fn malformed_metadata_precedes_other_accumulated_errors() {
    let mut scan = DetectionScan::new();
    scan.readable_root_found = true;
    let malformed_manifest = format!("/steam/steamapps/appmanifest_{DEADLOCK_APP_ID}.acf");
    scan.manifest_found = true;
    scan.note_malformed(malformed_manifest.clone(), "not vdf".to_owned());
    scan.note_unreadable("/library-1".to_owned(), "not a directory".to_owned());
    assert!(matches!(
        scan.finish(false),
        Err(DetectionError::MalformedMetadata { path, .. }) if path == malformed_manifest
    ));
}

#[test]
fn existing_log_beats_an_install_without_a_log() {
    let primary = log_path("/steam", "DeadlockPrimary");
    let expected = log_path("/library-1", "DeadlockSecondary");
    let candidates = vec![
        Candidate { path: expected.clone(), modified: secs(5) },
        Candidate { path: primary, modified: None },
    ];
    assert_eq!(select_candidate(candidates, false), Ok(Detection::Ready { path: expected }));
}

#[test]
fn newest_existing_log_wins_deterministically() {
    let older = log_path("/steam", "DeadlockPrimary");
    let newer = log_path("/library-1", "DeadlockSecondary");
    let candidates = vec![
        Candidate { path: newer.clone(), modified: secs(20) },
        Candidate { path: older, modified: secs(10) },
    ];
    assert_eq!(select_candidate(candidates, false), Ok(Detection::Ready { path: newer }));
}

#[test]
fn tied_existing_logs_are_ambiguous_and_sorted() {
    let first = log_path("/steam", "DeadlockPrimary");
    let second = log_path("/library-1", "DeadlockSecondary");
    let candidates = vec![
        Candidate { path: first.clone(), modified: secs(10) },
        Candidate { path: second.clone(), modified: secs(10) },
    ];
    assert_eq!(
        select_candidate(candidates, false),
        Err(DetectionError::AmbiguousInstalls { paths: vec![second, first] })
    );
}

#[test]
fn installs_without_logs_are_listed_in_path_order() {
    let candidates = vec![
        Candidate { path: "b".to_owned(), modified: None },
        Candidate { path: "a".to_owned(), modified: None },
        Candidate { path: "/x-y/console.log".to_owned(), modified: None },
        Candidate { path: "/x/y/console.log".to_owned(), modified: None },
    ];
    assert_eq!(
        select_candidate(candidates, false),
        Err(DetectionError::AmbiguousInstalls {
            paths: vec![
                "/x/y/console.log".to_owned(),
                "/x-y/console.log".to_owned(),
                "a".to_owned(),
                "b".to_owned(),
            ]
        })
    );
}

#[test]
fn the_same_log_found_twice_counts_once_with_its_newest_time() {
    let mut scan = DetectionScan::new();
    scan.readable_root_found = true;
    scan.manifest_found = true;
    let log = log_path("/steam", "Deadlock");
    let other = log_path("/library-1", "Deadlock");
    scan.note_candidate(log.clone(), secs(3), "same".to_owned());
    scan.note_candidate(other.clone(), secs(5), "other".to_owned());
    scan.note_candidate(format!("{log}-alias"), secs(9), "same".to_owned());
    assert_eq!(scan.candidates.len(), 2);
    assert_eq!(scan.candidates[0], Candidate { path: log.clone(), modified: secs(9) });
    scan.note_candidate(log.clone(), None, "same".to_owned());
    assert_eq!(scan.candidates[0].modified, secs(9));
    assert_eq!(scan.finish(false), Ok(Detection::Ready { path: log }));
}

// Further cases of the same rules.

#[test]
fn a_scan_without_readable_roots_ends_early() {
    assert_eq!(DetectionScan::new().after_roots(0).unwrap_err(), DetectionError::SteamNotFound);
    assert_eq!(DetectionScan::new().after_roots(1).unwrap_err(), DetectionError::SteamNotFound);
    let mut scan = DetectionScan::new();
    scan.note_unreadable("/a".to_owned(), "denied".to_owned());
    scan.note_unreadable("/b".to_owned(), "also denied".to_owned());
    assert_eq!(
        scan.after_roots(2).unwrap_err(),
        DetectionError::SteamUnreadable { path: "/a".to_owned(), details: "denied".to_owned() }
    );
    let mut scan = DetectionScan::new();
    scan.readable_root_found = true;
    assert_eq!(scan.after_roots(1).unwrap().finish(false), Err(DetectionError::DeadlockNotInstalled));
}

#[test]
fn install_dirs_must_be_plain_relative_names() {
    assert!(is_safe_install_dir("Deadlock", false));
    assert!(is_safe_install_dir("games/Deadlock", false));
    assert!(is_safe_install_dir("a/./b", false));
    assert!(is_safe_install_dir(".hidden", false));
    assert!(!is_safe_install_dir("", false));
    assert!(!is_safe_install_dir("/abs", false));
    assert!(!is_safe_install_dir(".", false));
    assert!(!is_safe_install_dir("./Deadlock", false));
    assert!(!is_safe_install_dir("..", false));
    assert!(!is_safe_install_dir("a/../b", false));
    assert!(!is_safe_install_dir("a/..", false));
    assert!(!is_safe_install_dir("..\\x", true));
    assert!(!is_safe_install_dir("a\\..\\b", true));
    assert!(!is_safe_install_dir("C:\\x", true));
    assert!(!is_safe_install_dir("c:x", true));
    assert!(!is_safe_install_dir("\\server\\share", true));
    assert!(!is_safe_install_dir(".\\Deadlock", true));
    assert!(is_safe_install_dir("games\\Deadlock", true));
    // Elsewhere a backslash and a colon are ordinary characters of a name.
    assert!(is_safe_install_dir("..\\x", false));
    assert!(is_safe_install_dir("C:game", false));
    assert!(!is_safe_install_dir("C:game", true));
    assert!(!is_safe_install_dir("a/../b", true));
    assert!(manifest_matches(DEADLOCK_APP_ID, "Deadlock", false));
    assert!(!manifest_matches(730, "Deadlock", false));
    assert_eq!(MANIFEST_MISMATCH, "appid or installdir does not match the manifest location");
}

#[test]
fn detection_errors_read_as_sentences() {
    assert_eq!(
        DetectionError::AmbiguousInstalls { paths: vec!["/a".to_owned(), "/b".to_owned()] }.message(),
        "multiple Deadlock installations are equally plausible (/a, /b); enter the log path manually"
    );
    assert_eq!(
        DetectionError::SteamUnreadable { path: "/s".to_owned(), details: "denied".to_owned() }.message(),
        "Steam data at /s could not be read: denied"
    );
    assert_eq!(display_paths(&vec![]), "");
    assert_eq!(Detection::NotCreated { path: "/x".to_owned() }.path(), "/x");
    assert_eq!(select_candidate(vec![], false), Err(DetectionError::AmbiguousInstalls { paths: vec![] }));
}

#[test]
fn each_place_is_looked_in_once_in_path_order() {
    let paths = vec!["/b".to_owned(), "/a".to_owned(), "/B".to_owned(), "/a-x".to_owned(), "/a/x".to_owned()];
    let keys = vec!["b".to_owned(), "a".to_owned(), "b".to_owned(), "ax".to_owned(), "a/x".to_owned()];
    assert_eq!(
        unique_paths(&paths, &keys, false),
        vec!["/a".to_owned(), "/a/x".to_owned(), "/a-x".to_owned(), "/b".to_owned()]
    );
}

#[test]
fn a_backslash_separates_only_on_windows() {
    let tied = || vec![
        Candidate { path: "a\\b".to_owned(), modified: None },
        Candidate { path: "a-b".to_owned(), modified: None },
    ];
    assert_eq!(
        select_candidate(tied(), false),
        Err(DetectionError::AmbiguousInstalls { paths: vec!["a-b".to_owned(), "a\\b".to_owned()] })
    );
    assert_eq!(
        select_candidate(tied(), true),
        Err(DetectionError::AmbiguousInstalls { paths: vec!["a\\b".to_owned(), "a-b".to_owned()] })
    );
}
