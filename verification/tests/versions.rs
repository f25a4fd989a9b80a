use lovelock::bridge::ModVersionObservation;
use lovelock::version::{
    check_body_size, check_status, normalize_release_tag, release_version, select_warnings, state_after_check,
    SemVer, VersionCheckError, VersionCheckState, MAX_RESPONSE_BYTES,
};

fn version(value: &str) -> SemVer {
    SemVer::parse(value).expect("valid test version")
}

#[test]
fn strict_tag_normalization_and_semver_precedence() {
    assert_eq!(normalize_release_tag("v0.2.0").unwrap(), version("0.2.0"));
    assert!(normalize_release_tag("0.2.0").is_err());
    assert!(normalize_release_tag("vv0.2.0").is_err());
    assert!(normalize_release_tag("v0.2").is_err());
    assert!(version("1.0.0-alpha").is_older_than(&version("1.0.0")));
    assert_eq!(version("1.0.0+build.1").precedence(&version("1.0.0+build.2")), 0);
}

#[test]
fn warning_selection_uses_newest_known_precedence() {
    let app_010 = version("0.1.0");
    let app_020 = version("0.2.0");
    let mod_010 = ModVersionObservation::Reported("0.1.0".to_owned());
    let mod_020 = ModVersionObservation::Reported("0.2.0".to_owned());

    let both_old = select_warnings(&app_010, &mod_010, Some(&version("0.2.0")));
    assert_eq!(both_old.companion_outdated, Some(version("0.2.0")));
    assert_eq!(both_old.mod_outdated, Some((version("0.1.0"), version("0.2.0"))));

    let mod_old = select_warnings(&app_020, &mod_010, None);
    assert!(mod_old.companion_outdated.is_none());
    assert!(mod_old.mod_outdated.is_some());

    let app_old = select_warnings(&app_010, &mod_020, None);
    assert!(app_old.companion_outdated.is_some());
    assert!(app_old.mod_outdated.is_none());

    let equal = select_warnings(&app_020, &mod_020, Some(&version("0.2.0")));
    assert!(equal.companion_outdated.is_none());
    assert!(equal.mod_outdated.is_none());

    let local_newer = select_warnings(&version("0.3.0"), &mod_020, Some(&version("0.2.0")));
    assert!(local_newer.companion_outdated.is_none());
    assert!(local_newer.mod_outdated.is_some());
}

#[test]
fn warning_selection_handles_prerelease_build_legacy_invalid_and_unknown() {
    let prerelease = select_warnings(&version("1.0.0-alpha"), &ModVersionObservation::Unknown, Some(&version("1.0.0")));
    assert!(prerelease.companion_outdated.is_some());

    let build_only = select_warnings(
        &version("1.0.0+app"),
        &ModVersionObservation::Reported("1.0.0+mod".to_owned()),
        Some(&version("1.0.0+release")),
    );
    assert!(build_only.companion_outdated.is_none());
    assert!(build_only.mod_outdated.is_none());

    let legacy = select_warnings(&version("1.0.0"), &ModVersionObservation::Legacy, None);
    assert!(legacy.mod_legacy);
    assert!(!legacy.mod_invalid);

    let invalid = select_warnings(&version("1.0.0"), &ModVersionObservation::Invalid, None);
    assert!(invalid.mod_invalid);
    assert!(!invalid.mod_legacy);

    let unknown = select_warnings(&version("1.0.0"), &ModVersionObservation::Unknown, None);
    assert!(!unknown.mod_legacy);
    assert!(!unknown.mod_invalid);
    assert!(unknown.mod_outdated.is_none());
}

#[test]
fn github_response_rejects_status_oversize_and_bad_payloads() {
    assert_eq!(check_status(503, "503 Service Unavailable".to_owned()).unwrap_err().category(), "http_status");
    assert_eq!(check_body_size(MAX_RESPONSE_BYTES + 1).unwrap_err().category(), "oversized_response");
    assert_eq!(VersionCheckError::Malformed("key must be a string".to_owned()).category(), "malformed_response");
    assert_eq!(release_version(None).unwrap_err().category(), "missing_tag");
    assert_eq!(release_version(Some("0.2.0".to_owned())).unwrap_err().category(), "invalid_tag");
    assert!(check_status(200, "200 OK".to_owned()).is_ok());
    assert!(check_body_size(MAX_RESPONSE_BYTES).is_ok());
    assert_eq!(release_version(Some("v0.2.0".to_owned())).unwrap(), version("0.2.0"));
}

#[test]
fn github_request_reports_connect_and_timeout_failures() {
    let connect = VersionCheckError::Request { connect: true, timeout: true, detail: "refused".to_owned() };
    assert_eq!(connect.category(), "connect");
    let timeout = VersionCheckError::Request { connect: false, timeout: true, detail: "slow".to_owned() };
    assert_eq!(timeout.category(), "timeout");
    let other = VersionCheckError::Request { connect: false, timeout: false, detail: "x".to_owned() };
    assert_eq!(other.category(), "request");
}

// Further cases of the same rules.

#[test]
fn a_finished_check_reports_an_update_only_for_a_newer_release() {
    let app = version("0.2.0");
    assert!(matches!(
        state_after_check(&app, Ok(version("0.3.0"))),
        VersionCheckState::UpdateAvailable { latest } if latest == version("0.3.0")
    ));
    assert!(matches!(
        state_after_check(&app, Ok(version("0.2.0"))),
        VersionCheckState::Current { latest } if latest == version("0.2.0")
    ));
    assert_eq!(
        state_after_check(&app, Err(VersionCheckError::MissingTag)),
        VersionCheckState::Unavailable { reason: "missing_tag".to_owned() }
    );
}

#[test]
fn tags_keep_the_whole_text_in_their_error_and_versions_print_back() {
    assert_eq!(normalize_release_tag("v").unwrap_err(), VersionCheckError::InvalidTag("v".to_owned()));
    let long = format!("v{}", "1".repeat(129));
    assert_eq!(normalize_release_tag(&long).unwrap_err(), VersionCheckError::InvalidTag(long.clone()));
    let v = normalize_release_tag("v1.2.3-rc.1+b7").unwrap();
    assert_eq!((v.major(), v.minor(), v.patch()), (1, 2, 3));
    assert_eq!(v.pre(), "rc.1");
    assert_eq!(v.build(), "b7");
    assert_eq!(v.text(), "1.2.3-rc.1+b7");
    assert_eq!(version("10.0.0").text(), "10.0.0");
    assert_eq!(
        VersionCheckError::OversizedResponse.message(),
        "latest release response exceeded 65536 bytes"
    );
    assert_eq!(
        VersionCheckError::InvalidTag("x".to_owned()).message(),
        "latest release tag is invalid: x"
    );
}

#[test]
fn precedence_orders_numbers_then_prereleases() {
    assert_eq!(version("1.2.3").precedence(&version("1.10.0")), -1);
    assert_eq!(version("2.0.0").precedence(&version("1.99.99")), 1);
    assert_eq!(version("1.0.0-alpha").precedence(&version("1.0.0-alpha.1")), -1);
    assert_eq!(version("1.0.0-beta.11").precedence(&version("1.0.0-beta.2")), 1);
    assert!(version("1.0.0").is_older_than(&version("1.0.1")));
    assert!(!version("1.0.1").is_older_than(&version("1.0.1+meta")));
}

#[test]
fn prereleases_follow_semver_precedence() {
    let order = [
        "1.0.0-alpha",
        "1.0.0-alpha.1",
        "1.0.0-alpha.beta",
        "1.0.0-beta",
        "1.0.0-beta.2",
        "1.0.0-beta.11",
        "1.0.0-rc.1",
        "1.0.0",
    ];
    for pair in order.windows(2) {
        let older = SemVer::parse(pair[0]).unwrap();
        let newer = SemVer::parse(pair[1]).unwrap();
        assert!(older.is_older_than(&newer), "{} < {}", pair[0], pair[1]);
        assert_eq!(newer.precedence(&older), 1);
    }
}
