use fsapp::schema::{
    CompressSection, Config, ConfigError, CopySection, GlobalSection, MvSection, SyncSection,
};

#[test]
fn verbosity_in_range_is_valid() {
    let config = Config {
        global: Some(GlobalSection { verbosity: Some(3), quiet: None }),
        ..Config::default()
    };
    assert!(config.validate().is_ok());
}

#[test]
fn verbosity_above_three_is_invalid() {
    let config = Config {
        global: Some(GlobalSection { verbosity: Some(4), quiet: None }),
        ..Config::default()
    };
    let err = config.validate().unwrap_err();
    assert!(matches!(err, ConfigError::Validation(_)));
    assert!(err.to_string().contains("global.verbosity"));
}

#[test]
fn small_file_threshold_of_zero_is_invalid_in_every_section_that_has_it() {
    let mut config = Config {
        copy: Some(CopySection { small_file_threshold: Some(0), ..Default::default() }),
        ..Config::default()
    };
    assert!(config.validate().is_err());

    config = Config {
        mv: Some(MvSection { small_file_threshold: Some(0), ..Default::default() }),
        ..Config::default()
    };
    assert!(config.validate().is_err());

    config = Config {
        sync: Some(SyncSection { small_file_threshold: Some(0), ..Default::default() }),
        ..Config::default()
    };
    assert!(config.validate().is_err());

    config = Config {
        compress: Some(CompressSection { small_file_threshold: Some(0), ..Default::default() }),
        ..Config::default()
    };
    assert!(config.validate().is_err());
}

#[test]
fn batch_concurrency_of_zero_is_invalid() {
    let config = Config {
        copy: Some(CopySection { batch_concurrency: Some(0), ..Default::default() }),
        ..Config::default()
    };
    assert!(config.validate().is_err());
}

#[test]
fn max_bytes_per_batch_of_zero_is_invalid_copy_only() {
    let config = Config {
        copy: Some(CopySection { max_bytes_per_batch: Some(0), ..Default::default() }),
        ..Config::default()
    };
    assert!(config.validate().is_err());
}

#[test]
fn max_files_per_batch_of_zero_is_invalid_copy_only() {
    let config = Config {
        copy: Some(CopySection { max_files_per_batch: Some(0), ..Default::default() }),
        ..Config::default()
    };
    assert!(config.validate().is_err());
}

#[test]
fn positive_batch_values_are_valid() {
    let config = Config {
        copy: Some(CopySection {
            small_file_threshold: Some(1024),
            batch_concurrency: Some(4),
            max_bytes_per_batch: Some(8 * 1024 * 1024),
            max_files_per_batch: Some(100),
            ..Default::default()
        }),
        ..Config::default()
    };
    assert!(config.validate().is_ok());
}

#[test]
fn validation_messages_name_the_key_and_value() {
    let config = Config {
        global: Some(GlobalSection { verbosity: Some(9), quiet: None }),
        ..Config::default()
    };
    assert_eq!(config.validate().unwrap_err().to_string(), "global.verbosity must be 0..=3, got 9");
    let config = Config {
        mv: Some(MvSection { batch_concurrency: Some(0), ..Default::default() }),
        ..Config::default()
    };
    assert_eq!(config.validate().unwrap_err().to_string(), "mv.batch-concurrency must be >= 1, got 0");
    let config = Config {
        sync: Some(SyncSection { small_file_threshold: Some(0), ..Default::default() }),
        ..Config::default()
    };
    assert_eq!(config.validate().unwrap_err().to_string(), "sync.small-file-threshold must be > 0, got 0");
}

#[test]
fn the_first_broken_rule_is_the_one_reported() {
    let config = Config {
        global: Some(GlobalSection { verbosity: Some(4), quiet: None }),
        copy: Some(CopySection { max_bytes_per_batch: Some(0), ..Default::default() }),
        ..Config::default()
    };
    assert!(config.validate().unwrap_err().to_string().starts_with("global.verbosity"));
}

#[test]
fn empty_config_is_valid() {
    assert!(Config::default().validate().is_ok());
}
