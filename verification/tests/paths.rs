use fsapp::paths::{
    backup_candidate, backup_dir, backup_file, backup_name, free_backup_attempt, free_backup_path, cache_path_from, completions_notice_cache_path,
    config_path_from, default_config_path, default_config_path_in, resolve_config_path, update_cache_path,
};
use fsapp::resolve::Env;
use fsapp::schema::ConfigError;

fn env(vars: &[(&str, &str)]) -> Env {
    Env { vars: vars.iter().map(|(k, v)| (k.to_string(), v.to_string())).collect() }
}

#[test]
fn explicit_path_wins_over_everything() {
    let explicit = "/tmp/explicit-config.json";
    let resolved = resolve_config_path(Some(explicit), &Env::empty()).unwrap();
    assert_eq!(resolved, explicit);
}

#[test]
fn explicit_path_wins_even_when_env_var_is_also_set() {
    let e = env(&[("FSAPP_CONFIG", "/tmp/from-env.json")]);
    let resolved = resolve_config_path(Some("/tmp/explicit.json"), &e);
    assert_eq!(resolved.unwrap(), "/tmp/explicit.json");
}

#[test]
fn env_var_wins_over_platform_default() {
    let e = env(&[("FSAPP_CONFIG", "/tmp/from-env-only.json")]);
    let resolved = resolve_config_path(None, &e);
    assert_eq!(resolved.unwrap(), "/tmp/from-env-only.json");
}

#[test]
fn falls_back_to_platform_config_dir_ending_in_fsapp_config_json() {
    let resolved = resolve_config_path(None, &Env::empty());
    if let Ok(path) = resolved {
        assert!(path.ends_with("fsapp/config.json") || path.ends_with("fsapp\\config.json"));
    }
    let fixed = config_path_from(None, &Env::empty(), Some("/home/u/.config")).unwrap();
    assert_eq!(fixed, "/home/u/.config/fsapp/config.json");
}

#[test]
fn no_platform_directory_is_its_own_error() {
    let r = config_path_from(None, &Env::empty(), None);
    assert!(matches!(r, Err(ConfigError::NoConfigDir)));
    assert_eq!(
        r.unwrap_err().to_string(),
        "could not determine the platform config directory; pass --config or set FSAPP_CONFIG"
    );
}

#[test]
fn default_config_path_ignores_every_override() {
    assert_eq!(
        default_config_path_in(Some("/home/u/.config")).unwrap(),
        "/home/u/.config/fsapp/config.json"
    );
    assert!(matches!(default_config_path_in(None), Err(ConfigError::NoConfigDir)));
    if let Ok(path) = default_config_path() {
        assert!(path.ends_with("fsapp/config.json") || path.ends_with("fsapp\\config.json"));
    }
}

#[test]
fn update_cache_lives_beside_the_config_not_at_the_explicit_override() {
    let e = env(&[("FSAPP_CONFIG", "/tmp/somewhere-else/config.json")]);
    if let Ok(path) = update_cache_path(&e) {
        assert!(!path.starts_with("/tmp/somewhere-else"));
        assert!(path.ends_with("fsapp/update-check.json") || path.ends_with("fsapp\\update-check.json"));
    }
}

#[test]
fn cache_dir_env_var_overrides_the_platform_directory() {
    let e = env(&[("FSAPP_CACHE_DIR", "/tmp/fsapp-cache-test")]);
    assert_eq!(update_cache_path(&e).unwrap(), "/tmp/fsapp-cache-test/update-check.json");
    assert_eq!(
        completions_notice_cache_path(&e).unwrap(),
        "/tmp/fsapp-cache-test/completions-notice.json"
    );
    assert_eq!(
        cache_path_from(&Env::empty(), Some("/cfg"), "update-check.json").unwrap(),
        "/cfg/fsapp/update-check.json"
    );
}

#[test]
fn backup_names_carry_the_file_name_kind_and_timestamp() {
    assert_eq!(backup_name("config.json", "bak", 1_700_000_000, 0), "config.json.bak-1700000000");
    assert_eq!(backup_name("config.json", "invalid", 42, 0), "config.json.invalid-42");
}

#[test]
fn same_second_backups_get_increasing_suffixes() {
    assert_eq!(backup_name("config.json", "bak", 7, 1), "config.json.bak-7-2");
    assert_eq!(backup_name("config.json", "bak", 7, 2), "config.json.bak-7-3");
    let names: Vec<String> = (0..5).map(|a| backup_name("config.json", "bak", 7, a)).collect();
    for i in 0..names.len() {
        for j in 0..names.len() {
            if i != j {
                assert_ne!(names[i], names[j]);
            }
        }
    }
}

#[test]
fn a_backup_stays_in_the_config_directory() {
    assert_eq!(
        backup_candidate("/home/u/.config/fsapp/config.json", "bak", 5, 0),
        "/home/u/.config/fsapp/config.json.bak-5"
    );
    assert_eq!(backup_candidate("config.json", "invalid", 5, 1), "config.json.invalid-5-2");
}

#[test]
fn invalid_kind_produces_an_invalid_prefixed_name() {
    let path = backup_candidate("/tmp/x/config.json", "invalid", 1_735_776_000, 0);
    let name = path.rsplit('/').next().unwrap().to_string();
    assert!(name.starts_with("config.json.invalid-"), "unexpected name: {name}");
    let timestamp = name.strip_prefix("config.json.invalid-").unwrap();
    assert!(timestamp.parse::<u64>().is_ok());
}

#[test]
fn repeated_backups_in_the_same_second_never_collide_or_overwrite() {
    let mut dir: Vec<String> = vec!["config.json".to_string()];
    let mut chosen: Vec<String> = Vec::new();
    for _ in 0..3 {
        let path = free_backup_path("/tmp/x/config.json", "bak", 9, &dir);
        let name = path.rsplit('/').next().unwrap().to_string();
        assert!(!dir.contains(&name), "{name} would overwrite an existing file");
        dir.push(name);
        chosen.push(path);
    }
    assert_eq!(chosen[0], "/tmp/x/config.json.bak-9");
    assert_eq!(chosen[1], "/tmp/x/config.json.bak-9-2");
    assert_eq!(chosen[2], "/tmp/x/config.json.bak-9-3");
    assert_ne!(chosen[0], chosen[1]);
    assert_ne!(chosen[1], chosen[2]);
    assert_ne!(chosen[0], chosen[2]);
}

#[test]
fn the_first_free_attempt_skips_taken_names_only() {
    let none: Vec<String> = Vec::new();
    assert_eq!(free_backup_attempt("config.json", "bak", 9, &none), 0);
    let first_taken = vec!["config.json.bak-9".to_string(), "other".to_string()];
    assert_eq!(free_backup_attempt("config.json", "bak", 9, &first_taken), 1);
    let gap = vec!["config.json.bak-9".to_string(), "config.json.bak-9-3".to_string()];
    assert_eq!(free_backup_attempt("config.json", "bak", 9, &gap), 1);
    let other_second = vec!["config.json.bak-8".to_string(), "config.json.invalid-9".to_string()];
    assert_eq!(free_backup_attempt("config.json", "bak", 9, &other_second), 0);
}

#[test]
fn backups_go_beside_the_config_file() {
    assert_eq!(backup_dir("/home/u/.config/fsapp/config.json"), "/home/u/.config/fsapp");
    assert_eq!(backup_file("/home/u/.config/fsapp/config.json"), "config.json");
    assert_eq!(backup_dir("/"), ".");
    assert_eq!(backup_file("/"), "config.json");
    let taken = vec!["settings.json.invalid-3".to_string()];
    assert_eq!(free_backup_path("/etc/settings.json", "invalid", 3, &taken), "/etc/settings.json.invalid-3-2");
}
