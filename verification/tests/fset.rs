use fsapp::fset::{
    bad_key_message, choose_editor, clear_section, edit_next, is_known_section, list_target,
    reset_config, set_validated, split_key, starting_contents, unknown_section_message, EditAction,
    EditEvent, ListTarget,
};
use fsapp::schema::{
    parse_config, Config, ConfigError, CopySection, GlobalSection, UpdateSection, WatchSection,
};

#[test]
fn a_key_splits_at_its_first_dot() {
    assert_eq!(split_key("copy.on-error"), Some(("copy", "on-error")));
    assert_eq!(split_key("a.b.c"), Some(("a", "b.c")));
}

#[test]
fn a_key_without_both_halves_is_refused() {
    assert_eq!(split_key("copy"), None);
    assert_eq!(split_key(".overwrite"), None);
    assert_eq!(split_key("copy."), None);
    assert_eq!(split_key(""), None);
    assert_eq!(
        bad_key_message("copy"),
        "expected \"<section>.<key>\", got \"copy\""
    );
}

#[test]
fn every_config_section_is_known() {
    for s in ["global", "copy", "mv", "sync", "watch", "compress", "update"] {
        assert!(is_known_section(s));
    }
    assert!(!is_known_section("Update"));
    assert!(!is_known_section("coppy"));
    assert_eq!(unknown_section_message("coppy"), "unknown config section \"coppy\"");
}

#[test]
fn clearing_a_section_leaves_the_others() {
    let mut config = Config {
        copy: Some(CopySection { overwrite: Some(true), ..Default::default() }),
        watch: Some(WatchSection { no_recursive: Some(true) }),
        ..Config::default()
    };
    clear_section(&mut config, "copy");
    assert_eq!(config.copy, None);
    assert_eq!(config.watch, Some(WatchSection { no_recursive: Some(true) }));
}

#[test]
fn list_prints_empty_braces_for_a_known_absent_section() {
    let config = Config {
        global: Some(GlobalSection { verbosity: Some(1), quiet: None }),
        ..Config::default()
    };
    assert_eq!(list_target(&config, None), ListTarget::Whole);
    assert_eq!(list_target(&config, Some("global")), ListTarget::Section);
    assert_eq!(list_target(&config, Some("sync")), ListTarget::EmptySection);
    assert_eq!(list_target(&config, Some("update")), ListTarget::EmptySection);
    assert_eq!(list_target(&config, Some("nope")), ListTarget::UnknownSection);
}

#[test]
fn set_refuses_a_value_that_breaks_a_range_rule() {
    let mut config = Config::default();
    let r = set_validated(&mut config, "global", "verbosity", "9");
    assert_eq!(r, Err("global.verbosity must be 0..=3, got 9".to_string()));
    assert_eq!(set_validated(&mut config, "global", "verbosity", "3"), Ok(()));
}

#[test]
fn reset_of_the_whole_file_is_an_empty_config() {
    let loaded = Config {
        copy: Some(CopySection { overwrite: Some(true), ..Default::default() }),
        watch: Some(WatchSection { no_recursive: Some(true) }),
        ..Config::default()
    };
    assert_eq!(reset_config(loaded, None), Config::default());
    let kept = reset_config(loaded, Some("copy"));
    assert_eq!(kept.copy, None);
    assert_eq!(kept.watch, loaded.watch);
    let with_update = Config { update: Some(UpdateSection { no_check: Some(true) }), ..loaded };
    let cleared = reset_config(with_update, Some("update"));
    assert_eq!(cleared.update, None);
    assert_eq!(cleared.copy, loaded.copy);
}

#[test]
fn edit_needs_a_non_empty_editor() {
    assert_eq!(choose_editor(Some("vim")), Ok("vim".to_string()));
    let refusal = Err("fset: error: $EDITOR is not set; export EDITOR and try again".to_string());
    assert_eq!(choose_editor(Some("")), refusal);
    assert_eq!(choose_editor(None), refusal);
}

#[test]
fn edit_starts_from_empty_braces_when_there_is_no_file() {
    assert_eq!(starting_contents(None), "{}\n");
    assert_eq!(starting_contents(Some("{\"copy\":{}}".to_string())), "{\"copy\":{}}");
}

#[test]
fn an_invalid_edit_reopens_the_editor() {
    let action = edit_next(
        "vim",
        EditEvent::Edited { parsed: Err(ConfigError::Parse("expected value at line 1".to_string())) },
    );
    match action {
        EditAction::Reopen { message, prompt } => {
            assert_eq!(message, "fset: error: edited config is invalid:\n  expected value at line 1");
            assert_eq!(prompt, "Press ENTER to reopen $EDITOR, or Ctrl+C to abort without saving.\n> ");
        }
        _ => panic!("expected the editor to be reopened"),
    }
}

#[test]
fn a_valid_edit_is_saved_then_exits_zero() {
    let c = Config {
        copy: Some(CopySection { overwrite: Some(true), ..Default::default() }),
        ..Config::default()
    };
    match edit_next("vim", EditEvent::Edited { parsed: Ok(c) }) {
        EditAction::Save { config } => assert_eq!(config, c),
        _ => panic!("expected a save"),
    }
    match edit_next("vim", EditEvent::Saved { result: Ok(()) }) {
        EditAction::Finish { code, message } => {
            assert_eq!(code, 0);
            assert_eq!(message, None);
        }
        _ => panic!("expected to finish"),
    }
}

#[test]
fn editor_failures_exit_five() {
    match edit_next("nano", EditEvent::EditorNotLaunched { error: "not found".to_string() }) {
        EditAction::Finish { code, message } => {
            assert_eq!(code, 5);
            assert_eq!(
                message,
                Some("fset: error: could not launch $EDITOR (nano): not found".to_string())
            );
        }
        _ => panic!("expected to finish"),
    }
    match edit_next("nano", EditEvent::EditorFailed) {
        EditAction::Finish { code, message } => {
            assert_eq!(code, 5);
            assert_eq!(
                message,
                Some("fset: error: $EDITOR exited with a non-zero status".to_string())
            );
        }
        _ => panic!("expected to finish"),
    }
    match edit_next(
        "nano",
        EditEvent::Saved { result: Err(ConfigError::Io("could not write /x: denied".to_string())) },
    ) {
        EditAction::Finish { code, message } => {
            assert_eq!(code, 5);
            assert_eq!(message, Some("fset: error: could not write /x: denied".to_string()));
        }
        _ => panic!("expected to finish"),
    }
}

#[test]
fn an_edit_that_breaks_a_range_rule_is_never_saved() {
    let decoded = Ok(Config {
        global: Some(GlobalSection { verbosity: Some(7), quiet: None }),
        ..Config::default()
    });
    match edit_next("vim", EditEvent::Edited { parsed: parse_config(decoded) }) {
        EditAction::Reopen { message, .. } => assert_eq!(
            message,
            "fset: error: edited config is invalid:\n  global.verbosity must be 0..=3, got 7"
        ),
        _ => panic!("an invalid edit must not be saved"),
    }
}
