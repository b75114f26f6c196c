use fsapp::completions::{
    candidate_dirs, candidate_dirs_from, completions_plan, install_end, installed, plan_exit_code, homebrew_prefix, install_dirs,
    install_failure_message, installed_lines, maybe_print, notice_lines, packaged_shells,
    script_name, shell_from_path, shown_record, CompletionsPlan, NoticeInputs,
};
use fsapp::enums::Shell;
use fsapp::resolve::Env;

#[test]
fn zsh_scripts_are_named_for_fpath_and_the_others_by_extension() {
    assert_eq!(script_name("fsapp", Shell::Zsh), "_fsapp");
    assert_eq!(script_name("fsapp", Shell::Bash), "fsapp.bash");
    assert_eq!(script_name("fsapp", Shell::Fish), "fsapp.fish");
}

#[test]
fn an_unsupported_login_shell_is_not_guessed_at() {
    assert!(
        shell_from_path("/bin/ksh").is_none(),
        "a wrong guess installs a script nothing reads"
    );
    assert!(shell_from_path("").is_none());
}

#[test]
fn the_login_shell_is_read_from_its_basename() {
    assert_eq!(shell_from_path("/opt/homebrew/bin/fish"), Some(Shell::Fish));
    assert_eq!(shell_from_path("/bin/zsh"), Some(Shell::Zsh));
    assert_eq!(shell_from_path("/usr/local/bin/bash"), Some(Shell::Bash));
}

#[test]
fn every_packaged_shell_has_a_candidate_directory() {
    for shell in packaged_shells() {
        assert!(!candidate_dirs(shell, None).is_empty(), "{shell:?} has nowhere to install");
    }
}

#[test]
fn the_homebrew_prefix_is_read_from_the_binary_path() {
    assert_eq!(homebrew_prefix("/opt/homebrew/bin/fsapp"), Some("/opt/homebrew".to_string()));
    assert_eq!(
        homebrew_prefix("/usr/local/Cellar/fsapp/0.5.0/bin/fsapp"),
        Some("/usr/local".to_string())
    );
    assert_eq!(
        homebrew_prefix("/home/linuxbrew/.linuxbrew/Cellar/fsapp/0.5.0/bin/fsapp"),
        Some("/home/linuxbrew/.linuxbrew".to_string())
    );
    assert_eq!(homebrew_prefix("/usr/bin/fsapp"), None);
}

#[test]
fn candidate_directories_put_homebrew_first_and_home_last() {
    let zsh = candidate_dirs_from(Shell::Zsh, Some("/opt/homebrew"), Some("/home/u"));
    assert_eq!(zsh.first().map(|s| s.as_str()), Some("/opt/homebrew/share/zsh/site-functions"));
    assert!(zsh.last().unwrap().starts_with("/home/u"));
    let bash = candidate_dirs_from(Shell::Bash, None, None);
    assert!(!bash.is_empty());
}

#[test]
fn an_explicit_directory_is_the_only_candidate() {
    assert_eq!(install_dirs(Shell::Zsh, Some("/tmp/x"), None), vec!["/tmp/x".to_string()]);
}

#[test]
fn a_failed_install_lists_what_was_tried() {
    let tried = vec!["/a".to_string(), "/b".to_string()];
    assert_eq!(
        install_failure_message(&tried, Some("/b: permission denied")),
        "no writable completion directory found (tried /a, /b); last error: /b: permission denied"
    );
    assert_eq!(
        install_failure_message(&tried, None),
        "no writable completion directory found (tried /a, /b)"
    );
}

#[test]
fn without_a_shell_the_plan_is_an_error() {
    match completions_plan("fset", None, &Env::empty(), false, None) {
        CompletionsPlan::NoShell(m) => assert_eq!(
            m,
            "fset: error: could not detect the shell from $SHELL; pass one explicitly, e.g. `fset completions zsh`"
        ),
        _ => panic!("expected an error"),
    }
    let e = Env { vars: vec![("SHELL".to_string(), "/bin/zsh".to_string())] };
    assert!(matches!(completions_plan("fset", None, &e, false, None), CompletionsPlan::Print(Shell::Zsh)));
    assert!(matches!(
        completions_plan("fset", Some(Shell::Bash), &e, false, Some("/d")),
        CompletionsPlan::Install(Shell::Bash, Some(_))
    ));
}

#[test]
fn installed_lines_explain_how_to_pick_the_script_up() {
    assert_eq!(
        installed_lines(Shell::Bash, "/usr/share/bash-completion/completions/fsapp.bash", false),
        vec![
            "installed bash completions to /usr/share/bash-completion/completions/fsapp.bash".to_string(),
            "start a new shell, or run: exec bash".to_string(),
        ]
    );
    let zsh = installed_lines(Shell::Zsh, "/home/u/.zfunc/_fsapp", true);
    assert_eq!(zsh[3], "  fpath=(/home/u/.zfunc $fpath)");
}

#[test]
fn the_notice_is_shown_once_per_shell() {
    let base = NoticeInputs {
        quiet: false,
        stderr_is_terminal: true,
        ci_set: false,
        shell: Some(Shell::Zsh),
        fsapp_installed: false,
        fset_installed: true,
        cache_located: true,
        shown_for_shell: None,
    };
    let n = maybe_print(&base).expect("due");
    assert!(n.fsapp_missing);
    assert!(!n.fset_missing);
    assert_eq!(
        notice_lines(&n),
        vec![
            "tab completion for zsh isn't installed yet".to_string(),
            "  fsapp completions --install".to_string(),
        ]
    );
    let shown = NoticeInputs { shown_for_shell: Some(shown_record(&n)), ..base };
    assert!(maybe_print(&shown).is_none());
    let other = NoticeInputs { shown_for_shell: Some("bash".to_string()), ..shown };
    assert!(maybe_print(&other).is_some());
}

#[test]
fn the_notice_stays_quiet_when_nobody_reads_it() {
    let i = NoticeInputs {
        quiet: false,
        stderr_is_terminal: true,
        ci_set: true,
        shell: Some(Shell::Fish),
        fsapp_installed: false,
        fset_installed: false,
        cache_located: true,
        shown_for_shell: None,
    };
    assert!(maybe_print(&i).is_none());
    let complete = NoticeInputs { ci_set: false, fsapp_installed: true, fset_installed: true, ..i };
    assert!(maybe_print(&complete).is_none());
}

#[test]
fn completions_exit_codes() {
    let e = Env::empty();
    assert_eq!(plan_exit_code(&completions_plan("fset", None, &e, false, None)), Some(2));
    assert_eq!(plan_exit_code(&completions_plan("fset", Some(Shell::Fish), &e, false, None)), Some(0));
    assert_eq!(plan_exit_code(&completions_plan("fset", Some(Shell::Fish), &e, true, None)), None);
    let ok = Ok(installed(Shell::Fish, "/x", "/x/fset.fish".to_string()));
    let (code, lines, error) = install_end(Shell::Fish, "fset", &ok);
    assert_eq!(code, 0);
    assert_eq!(lines[0], "installed fish completions to /x/fset.fish");
    assert_eq!(error, None);
    let (code, lines, error) = install_end(Shell::Fish, "fset", &Err("no writable completion directory found (tried /x)".to_string()));
    assert_eq!(code, 5);
    assert!(lines.is_empty());
    assert_eq!(error, Some("fset: error: no writable completion directory found (tried /x)".to_string()));
}
