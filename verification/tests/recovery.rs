use fsapp::recovery::{
    error_line, recovery_answer, recovery_start, wants_reset, RecoveryAnswer, RecoveryStart,
};
use fsapp::schema::{parse_config, Config, ConfigError, GlobalSection, SyncSection};

#[test]
fn parse_config_rejects_malformed_json() {
    let decoded: Result<Config, String> = serde_json::from_str::<serde_json::Value>("{not json")
        .map(|_| Config::default())
        .map_err(|e| e.to_string());
    let err = parse_config(decoded).unwrap_err();
    assert!(matches!(err, ConfigError::Parse(_)));
}

#[test]
fn parse_config_rejects_a_value_that_fails_schema_validation() {
    let decoded = Ok(Config {
        global: Some(GlobalSection { verbosity: Some(9), quiet: None }),
        ..Config::default()
    });
    let err = parse_config(decoded).unwrap_err();
    assert!(matches!(err, ConfigError::Validation(_)));
}

#[test]
fn parse_config_accepts_a_valid_partial_config() {
    let decoded = Ok(Config {
        sync: Some(SyncSection { checksum: Some(true), ..Default::default() }),
        ..Config::default()
    });
    let config = parse_config(decoded).unwrap();
    assert_eq!(config.sync.unwrap().checksum, Some(true));
}

#[test]
fn without_a_terminal_an_invalid_file_exits_three_with_instructions() {
    let e = ConfigError::Parse("expected `:` at line 1 column 9".to_string());
    match recovery_start("fsapp", "/home/u/.config/fsapp/config.json", false, &e) {
        RecoveryStart::Exit { code, message } => {
            assert_eq!(code, 3);
            assert_eq!(
                message,
                "fsapp: error: the config file at /home/u/.config/fsapp/config.json is invalid:\n  \
                 expected `:` at line 1 column 9\n\n\
                 Not running interactively, so no prompt was shown. To fix this, either:\n  \
                 1. Edit /home/u/.config/fsapp/config.json by hand and re-run, or\n  \
                 2. Run `fset reset` to discard it and start from an empty config.\n"
            );
        }
        RecoveryStart::Prompt { .. } => panic!("must never prompt without a terminal"),
    }
}

#[test]
fn at_a_terminal_an_invalid_file_prompts_naming_the_path() {
    let e = ConfigError::Validation("global.verbosity must be 0..=3, got 9".to_string());
    match recovery_start("fset", "/tmp/c.json", true, &e) {
        RecoveryStart::Prompt { lines } => assert_eq!(
            lines,
            vec![
                "The config file at /tmp/c.json is invalid:".to_string(),
                "  global.verbosity must be 0..=3, got 9".to_string(),
                String::new(),
                "What do you want to do?".to_string(),
                "  [1] Exit without touching the file".to_string(),
                "  [2] Reset to default configuration".to_string(),
            ]
        ),
        RecoveryStart::Exit { .. } => panic!("expected a prompt"),
    }
}

#[test]
fn an_unrelated_failure_exits_five_even_at_a_terminal() {
    let e = ConfigError::Io("could not read /tmp/c.json: permission denied".to_string());
    match recovery_start("fsapp", "/tmp/c.json", true, &e) {
        RecoveryStart::Exit { code, message } => {
            assert_eq!(code, 5);
            assert_eq!(message, "fsapp: error: could not read /tmp/c.json: permission denied");
        }
        RecoveryStart::Prompt { .. } => panic!("expected an exit"),
    }
}

#[test]
fn only_answer_two_resets() {
    assert!(wants_reset("2"));
    assert!(wants_reset(" 2\n"));
    assert!(!wants_reset("1"));
    assert!(!wants_reset(""));
    assert!(!wants_reset("22"));
}

#[test]
fn error_lines_name_the_binary() {
    assert_eq!(error_line("fset", "boom"), "fset: error: boom");
}

#[test]
fn a_reset_backs_up_only_an_existing_file() {
    assert_eq!(recovery_answer("2\n", true), RecoveryAnswer::Reset { backup_first: true });
    assert_eq!(recovery_answer("2", false), RecoveryAnswer::Reset { backup_first: false });
    assert_eq!(recovery_answer("1\n", true), RecoveryAnswer::Exit(3));
}

#[test]
fn empty_object_is_a_valid_config_meaning_all_defaults() {
    let config = parse_config(Ok(Config::default())).unwrap();
    assert_eq!(config, Config::default());
    assert!(config.validate().is_ok());
}

#[test]
fn any_unicode_white_space_around_the_answer_is_ignored() {
    assert!(wants_reset("\u{3000}2\u{a0}"));
    assert!(!wants_reset("2x"));
}
