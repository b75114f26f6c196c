use fsapp::enums::{CompressFormat, OnError, SortOrder};
use fsapp::resolve::{env_var_name, resolve, resolve_bool, Env};
use fsapp::schema::{CompressSection, Config, CopySection, GlobalSection, SyncSection};
use fsapp::settings::{
    config_section, context_message, log_level, resolve_batch, resolve_compress, resolve_copy,
    resolve_global, resolve_safety, resolve_sync, watch_recursive, BatchArgs, FsSafetyArgs,
    LogLevel,
};

fn env(vars: &[(&str, &str)]) -> Env {
    Env { vars: vars.iter().map(|(k, v)| (k.to_string(), v.to_string())).collect() }
}

#[test]
fn env_var_names_are_upper_snake_case() {
    assert_eq!(env_var_name("copy", "on-error"), "FSAPP_COPY_ON_ERROR");
    assert_eq!(env_var_name("sync", "no-overwrite"), "FSAPP_SYNC_NO_OVERWRITE");
}

#[test]
fn the_command_line_wins_over_environment_and_config() {
    let e = env(&[("FSAPP_COPY_SMALL_FILE_THRESHOLD", "10")]);
    assert_eq!(resolve(Some(5u64), "copy", "small-file-threshold", Some(20), &e), Some(5));
}

#[test]
fn the_environment_wins_over_the_config() {
    let e = env(&[("FSAPP_COPY_SMALL_FILE_THRESHOLD", "10")]);
    assert_eq!(resolve(None::<u64>, "copy", "small-file-threshold", Some(20), &e), Some(10));
    let e = env(&[("FSAPP_COPY_ON_ERROR", "UNDO")]);
    assert_eq!(resolve(None, "copy", "on-error", Some(OnError::Abort), &e), Some(OnError::Undo));
}

#[test]
fn an_unparsable_environment_value_falls_through_to_the_config() {
    let e = env(&[("FSAPP_COPY_SMALL_FILE_THRESHOLD", "lots")]);
    assert_eq!(resolve(None::<u64>, "copy", "small-file-threshold", Some(20), &e), Some(20));
}

#[test]
fn nothing_set_anywhere_keeps_the_builder_default() {
    assert_eq!(resolve(None::<u64>, "copy", "small-file-threshold", None, &Env::empty()), None);
    assert!(!resolve_bool(false, "copy", "overwrite", None, &Env::empty()));
}

#[test]
fn a_given_flag_is_on_whatever_else_says() {
    let e = env(&[("FSAPP_COPY_OVERWRITE", "false")]);
    assert!(resolve_bool(true, "copy", "overwrite", Some(false), &e));
}

#[test]
fn boolean_environment_values_are_exactly_true_or_false() {
    let e = env(&[("FSAPP_COPY_OVERWRITE", "false")]);
    assert!(!resolve_bool(false, "copy", "overwrite", Some(true), &e));
    let e = env(&[("FSAPP_COPY_OVERWRITE", "TRUE")]);
    assert!(!resolve_bool(false, "copy", "overwrite", Some(false), &e));
    assert!(resolve_bool(false, "copy", "overwrite", Some(true), &e));
}

#[test]
fn compress_has_no_safety_keys() {
    let config = Config {
        compress: Some(CompressSection { batch_concurrency: Some(4), ..Default::default() }),
        ..Config::default()
    };
    let v = config_section(&config, "compress").unwrap();
    assert_eq!(v.batch_concurrency, Some(4));
    assert_eq!(v.preserve_permissions, None);
    assert!(config_section(&config, "watch").is_none());
    assert!(config_section(&config, "copy").is_none());
}

#[test]
fn each_batching_key_resolves_on_its_own() {
    let config = Config {
        copy: Some(CopySection {
            on_error: Some(OnError::Abort),
            batch_concurrency: Some(8),
            preserve_permissions: Some(true),
            ..Default::default()
        }),
        ..Config::default()
    };
    let args = BatchArgs { small_file_threshold: Some(4096), batch_concurrency: None, on_error: None };
    let b = resolve_batch("copy", &args, &config, &Env::empty());
    assert_eq!(b.small_file_threshold, Some(4096));
    assert_eq!(b.batch_concurrency, Some(8));
    assert_eq!(b.on_error, Some(OnError::Abort));
    let s = resolve_safety("copy", &FsSafetyArgs::default(), &config, &Env::empty());
    assert!(s.preserve_permissions);
    assert!(!s.allow_fs_integrity_risk);
}

#[test]
fn copy_settings_read_the_copy_section() {
    let config = Config {
        copy: Some(CopySection {
            overwrite: Some(true),
            sort_order: Some(SortOrder::Asc),
            max_files_per_batch: Some(100),
            ..Default::default()
        }),
        ..Config::default()
    };
    let s = resolve_copy(
        &config,
        &Env::empty(),
        &BatchArgs::default(),
        &FsSafetyArgs::default(),
        false,
        Some(1024),
        None,
        None,
    );
    assert!(s.overwrite);
    assert_eq!(s.max_bytes_per_batch, Some(1024));
    assert_eq!(s.max_files_per_batch, Some(100));
    assert_eq!(s.sort_order, Some(SortOrder::Asc));
}

#[test]
fn sync_and_compress_settings() {
    let config = Config {
        sync: Some(SyncSection { checksum: Some(true), ..Default::default() }),
        compress: Some(CompressSection { format: Some(CompressFormat::Gzip), ..Default::default() }),
        ..Config::default()
    };
    let s = resolve_sync(&config, &Env::empty(), &BatchArgs::default(), &FsSafetyArgs::default(), false, false);
    assert!(s.checksum);
    assert!(!s.no_overwrite);
    let c = resolve_compress(&config, &Env::empty(), &BatchArgs::default(), Some(CompressFormat::Zip));
    assert_eq!(c.format, Some(CompressFormat::Zip));
    let c = resolve_compress(&config, &Env::empty(), &BatchArgs::default(), None);
    assert_eq!(c.format, Some(CompressFormat::Gzip));
}

#[test]
fn verbosity_from_the_command_line_wins() {
    let config = Config {
        global: Some(GlobalSection { verbosity: Some(2), quiet: Some(true) }),
        ..Config::default()
    };
    let g = resolve_global(1, false, &config, &Env::empty());
    assert_eq!(g.verbosity, 1);
    assert!(g.quiet);
    let g = resolve_global(0, false, &config, &env(&[("FSAPP_GLOBAL_VERBOSITY", "3")]));
    assert_eq!(g.verbosity, 3);
    let g = resolve_global(0, false, &Config::default(), &Env::empty());
    assert_eq!(g.verbosity, 0);
    assert!(!g.quiet);
}

#[test]
fn log_levels_by_verbosity() {
    assert_eq!(log_level(0), LogLevel::Warn);
    assert_eq!(log_level(1), LogLevel::Info);
    assert_eq!(log_level(2), LogLevel::Debug);
    assert_eq!(log_level(9), LogLevel::Trace);
}

#[test]
fn operation_context_names_both_paths() {
    assert_eq!(context_message("copy", "src/", "dst/"), "could not copy \"src/\" to \"dst/\"");
    assert!(watch_recursive(false));
    assert!(!watch_recursive(true));
}
