use fsapp::enums::{CompressFormat, OnError, SortOrder};
use fsapp::keys::{display, get, lookup_key, parse_value, unset, FieldValue, ValueKind};
use fsapp::schema::{Config, CopySection, SyncSection};

#[test]
fn an_absent_key_reads_as_none() {
    let config = Config::default();
    assert_eq!(get(&config, "copy", "overwrite"), Ok(None));
    assert_eq!(get(&config, "watch", "no-recursive"), Ok(None));
}

#[test]
fn a_set_value_reads_back_in_its_printed_form() {
    let mut config = Config::default();
    assert_eq!(fsapp::keys::set(&mut config, "copy", "on-error", "abort"), Ok(()));
    assert_eq!(get(&config, "copy", "on-error"), Ok(Some("abort".to_string())));
    assert_eq!(fsapp::keys::set(&mut config, "global", "verbosity", "2"), Ok(()));
    assert_eq!(get(&config, "global", "verbosity"), Ok(Some("2".to_string())));
    assert_eq!(fsapp::keys::set(&mut config, "compress", "format", "gzip"), Ok(()));
    assert_eq!(get(&config, "compress", "format"), Ok(Some("gzip".to_string())));
    assert_eq!(fsapp::keys::set(&mut config, "copy", "max-bytes-per-batch", "+1048576"), Ok(()));
    assert_eq!(get(&config, "copy", "max-bytes-per-batch"), Ok(Some("1048576".to_string())));
}

#[test]
fn setting_a_key_creates_its_section_and_touches_nothing_else() {
    let mut config = Config::default();
    fsapp::keys::set(&mut config, "sync", "checksum", "true").unwrap();
    assert_eq!(
        config.sync,
        Some(SyncSection { checksum: Some(true), ..Default::default() })
    );
    assert_eq!(config.copy, None);
    assert_eq!(config.global, None);
}

#[test]
fn an_unknown_key_is_an_error_that_names_it() {
    let mut config = Config::default();
    assert_eq!(
        get(&config, "copy", "no-such-key"),
        Err("unknown config key \"copy.no-such-key\"".to_string())
    );
    assert_eq!(
        fsapp::keys::set(&mut config, "update", "interval", "1"),
        Err("unknown config key \"update.interval\"".to_string())
    );
    assert_eq!(
        unset(&mut config, "copy", "checksum"),
        Err("unknown config key \"copy.checksum\"".to_string())
    );
    assert_eq!(config, Config::default());
}

#[test]
fn a_value_that_does_not_parse_leaves_the_config_alone() {
    let mut config = Config::default();
    assert_eq!(
        fsapp::keys::set(&mut config, "copy", "overwrite", "yes"),
        Err("expected \"true\" or \"false\", got \"yes\"".to_string())
    );
    assert_eq!(
        fsapp::keys::set(&mut config, "global", "verbosity", "256"),
        Err("expected an integer 0..=255, got \"256\"".to_string())
    );
    assert_eq!(
        fsapp::keys::set(&mut config, "copy", "batch-concurrency", "-1"),
        Err("expected a non-negative integer, got \"-1\"".to_string())
    );
    assert_eq!(
        fsapp::keys::set(&mut config, "copy", "on-error", "retry"),
        Err("expected one of [continue, abort, undo], got \"retry\"".to_string())
    );
    assert_eq!(
        fsapp::keys::set(&mut config, "copy", "sort-order", "up"),
        Err("expected one of [asc, desc], got \"up\"".to_string())
    );
    assert_eq!(
        fsapp::keys::set(&mut config, "compress", "format", "tar"),
        Err("expected one of [zip, gzip], got \"tar\"".to_string())
    );
    assert_eq!(config, Config::default());
}

#[test]
fn the_update_check_can_be_turned_off_permanently() {
    let mut config = Config::default();
    assert_eq!(fsapp::keys::set(&mut config, "update", "no-check", "true"), Ok(()));
    assert_eq!(get(&config, "update", "no-check"), Ok(Some("true".to_string())));
    assert_eq!(config.update.and_then(|u| u.no_check), Some(true));
}

#[test]
fn enum_values_are_accepted_only_as_the_command_line_writes_them() {
    let mut config = Config::default();
    assert_eq!(
        fsapp::keys::set(&mut config, "copy", "on-error", "ABORT"),
        Err("expected one of [continue, abort, undo], got \"ABORT\"".to_string())
    );
    assert_eq!(
        fsapp::keys::set(&mut config, "compress", "format", "Zip"),
        Err("expected one of [zip, gzip], got \"Zip\"".to_string())
    );
    assert_eq!(config, Config::default());
}

#[test]
fn unset_removes_only_that_key() {
    let mut config = Config {
        copy: Some(CopySection {
            overwrite: Some(true),
            sort_order: Some(SortOrder::Asc),
            ..Default::default()
        }),
        ..Config::default()
    };
    assert_eq!(unset(&mut config, "copy", "overwrite"), Ok(()));
    assert_eq!(get(&config, "copy", "overwrite"), Ok(None));
    assert_eq!(get(&config, "copy", "sort-order"), Ok(Some("asc".to_string())));
    assert_eq!(unset(&mut config, "mv", "overwrite"), Ok(()));
    assert_eq!(config.mv, None);
}

#[test]
fn printed_values_parse_back_to_themselves() {
    let values = [
        FieldValue::U8(7),
        FieldValue::U64(u64::MAX),
        FieldValue::Bool(false),
        FieldValue::OnError(OnError::Undo),
        FieldValue::SortOrder(SortOrder::Desc),
        FieldValue::CompressFormat(CompressFormat::Zip),
    ];
    let kinds = [
        ValueKind::U8,
        ValueKind::U64,
        ValueKind::Bool,
        ValueKind::OnError,
        ValueKind::SortOrder,
        ValueKind::CompressFormat,
    ];
    for (v, k) in values.iter().zip(kinds.iter()) {
        assert_eq!(parse_value(*k, &display(*v)), Ok(*v));
    }
}

#[test]
fn every_addressable_key_is_known() {
    let keys = [
        ("global", "verbosity"),
        ("global", "quiet"),
        ("copy", "on-error"),
        ("copy", "max-files-per-batch"),
        ("mv", "allow-fs-integrity-risk"),
        ("sync", "no-overwrite"),
        ("watch", "no-recursive"),
        ("compress", "batch-concurrency"),
    ];
    for (s, k) in keys {
        assert!(lookup_key(s, k).is_some(), "{s}.{k}");
    }
    assert!(lookup_key("mv", "checksum").is_none());
    assert!(lookup_key("Copy", "overwrite").is_none());
}
