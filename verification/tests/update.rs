use fsapp::update::{
    auto_check_enabled, cache_decision, compare, parse_tag, upgrade_command, Cache,
    CacheDecision, Status, UpdateError, Version, CACHE_TTL_FAIL_SECS, CACHE_TTL_OK_SECS,
};
use fsapp::resolve::Env;

fn now_unix() -> u64 {
    std::time::SystemTime::now()
        .duration_since(std::time::UNIX_EPOCH)
        .map(|d| d.as_secs())
        .unwrap_or(0)
}

#[test]
fn a_successful_cache_entry_is_fresh_for_a_day_and_stale_after() {
    let fresh = Cache {
        last_checked: now_unix() - 60,
        latest_version: Some("0.1.0".to_string()),
    };
    assert!(fresh.is_fresh());

    let stale = Cache {
        last_checked: now_unix() - CACHE_TTL_OK_SECS - 1,
        latest_version: Some("0.1.0".to_string()),
    };
    assert!(!stale.is_fresh());
}

#[test]
fn a_failed_attempt_is_retried_far_sooner_than_a_successful_one() {
    let age = CACHE_TTL_FAIL_SECS + 1;
    let failed = Cache { last_checked: now_unix() - age, latest_version: None };
    assert!(!failed.is_fresh(), "a failure older than its own TTL must be retried");

    let succeeded = Cache {
        last_checked: now_unix() - age,
        latest_version: Some("0.1.0".to_string()),
    };
    assert!(succeeded.is_fresh(), "a success of the same age must still be trusted");
}

#[test]
fn a_last_checked_in_the_future_is_treated_as_stale() {
    let skewed = Cache {
        last_checked: now_unix() + 86_400,
        latest_version: Some("0.1.0".to_string()),
    };
    assert!(!skewed.is_fresh());
}

#[test]
fn tags_parse_with_and_without_the_v_prefix() {
    assert_eq!(parse_tag("v1.2.3").unwrap(), Version::new(1, 2, 3));
    assert_eq!(parse_tag("1.2.3").unwrap(), Version::new(1, 2, 3));
}

#[test]
fn an_unrecognisable_tag_is_an_error_not_a_silent_zero() {
    assert!(matches!(parse_tag("nightly"), Err(UpdateError::UnparsableTag(_))));
}

#[test]
fn version_ordering_is_semantic_not_lexicographic() {
    assert!(parse_tag("v0.10.0").unwrap() > parse_tag("v0.9.0").unwrap());
    assert!(parse_tag("v1.0.0").unwrap() > parse_tag("v0.99.99").unwrap());
}

#[test]
fn a_prerelease_does_not_outrank_the_release_it_precedes() {
    assert!(parse_tag("v1.0.0").unwrap() > parse_tag("v1.0.0-rc.1").unwrap());
}

#[test]
fn the_upgrade_command_is_never_empty_whatever_the_install_path() {
    assert!(!upgrade_command("").is_empty());
    assert!(!upgrade_command("/some/where/else/fsapp").is_empty());
}

#[test]
fn the_upgrade_command_follows_the_install_channel() {
    assert_eq!(
        upgrade_command("/opt/homebrew/Cellar/fsapp/0.5.0/bin/fsapp"),
        "brew update && brew upgrade naut54/tap/fsapp"
    );
    assert_eq!(
        upgrade_command("/home/u/.cargo/bin/fsapp"),
        "curl --proto '=https' --tlsv1.2 -LsSf https://github.com/naut54/fsapp/releases/latest/download/fsapp-installer.sh | sh"
    );
    assert_eq!(
        upgrade_command("/usr/bin/fsapp"),
        "download the .deb from https://github.com/naut54/fsapp/releases/latest, then: sudo dpkg -i fsapp_*.deb"
    );
    assert_eq!(upgrade_command("/opt/fsapp"), "see https://github.com/naut54/fsapp/releases/latest");
}

#[test]
fn a_newer_release_is_reported_with_both_versions() {
    match compare("v0.6.0", "0.5.0").unwrap() {
        Status::Newer { latest, current } => {
            assert_eq!(latest.as_str(), "0.6.0");
            assert_eq!(current.as_str(), "0.5.0");
        }
        Status::UpToDate(_) => panic!("0.6.0 is newer than 0.5.0"),
    }
    assert!(matches!(compare("v0.5.0", "0.5.0").unwrap(), Status::UpToDate(_)));
    assert!(matches!(compare("v0.4.9", "0.5.0").unwrap(), Status::UpToDate(_)));
}

#[test]
fn an_unparsable_own_version_is_its_own_error() {
    assert!(matches!(compare("v1.0.0", "not-a-version"), Err(UpdateError::Current(_))));
    assert_eq!(
        UpdateError::UnparsableTag("nightly".to_string()).to_string(),
        "unrecognised release tag \"nightly\""
    );
}

#[test]
fn a_fresh_cached_failure_is_answered_without_a_request() {
    let now = 1_700_000_000;
    let failed = Cache { last_checked: now - 10, latest_version: None };
    assert!(matches!(cache_decision(Some(failed), now), CacheDecision::Cached(None)));
    let old = Cache { last_checked: now - CACHE_TTL_FAIL_SECS, latest_version: None };
    assert!(matches!(cache_decision(Some(old), now), CacheDecision::Refresh));
    assert!(matches!(cache_decision(None, now), CacheDecision::Refresh));
}

#[test]
fn the_automatic_check_is_suppressed_when_nobody_reads_it() {
    let env = Env::empty();
    assert!(auto_check_enabled(false, None, false, &env, true, false));
    assert!(!auto_check_enabled(true, None, false, &env, true, false));
    assert!(!auto_check_enabled(false, Some(true), false, &env, true, false));
    assert!(!auto_check_enabled(false, None, true, &env, true, false));
    assert!(!auto_check_enabled(false, None, false, &env, false, false));
    assert!(!auto_check_enabled(false, None, false, &env, true, true));
    let env = Env { vars: vec![("FSAPP_UPDATE_NO_CHECK".to_string(), "true".to_string())] };
    assert!(!auto_check_enabled(false, Some(false), false, &env, true, false));
}

#[test]
fn this_builds_own_version_is_always_parsable() {
    assert!(compare("v0.0.1", "0.5.0").is_ok(), "the package version must be valid semver");
}
