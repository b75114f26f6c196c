//! Where things live on disk: the config file (explicit path, then
//! `FSAPP_CONFIG`, then the platform config directory), the caches beside
//! it, and the names of config backups.

use vstd::prelude::*;

use crate::resolve::Env;
use crate::schema::ConfigError;
use crate::completions::views;
use crate::text::{all_digits, dec, fmt_u64, has_prefix, join2, lemma_dec_roundtrip, opt_str, owned, str_eq};

verus! {

/// The path `part` joined onto `base`, as `Path::join` forms it.
pub uninterp spec fn spec_path_join(base: Seq<char>, part: Seq<char>) -> Seq<char>;

/// The parent directory of a path, as `Path::parent` gives it.
pub uninterp spec fn spec_path_parent(path: Seq<char>) -> Option<Seq<char>>;

/// The last component of a path, as `Path::file_name` gives it.
pub uninterp spec fn spec_path_file_name(path: Seq<char>) -> Option<Seq<char>>;

/// Calls `Path::join`; the result depends on the arguments alone.
#[verifier::external_body]
pub(crate) fn path_join(base: &str, part: &str) -> (r: String)
    ensures
        r@ == spec_path_join(base@, part@),
{
    std::path::Path::new(base).join(part).to_string_lossy().into_owned()
}

/// Calls `Path::parent`; the result depends on the argument alone.
#[verifier::external_body]
pub(crate) fn path_parent(path: &str) -> (r: Option<String>)
    ensures
        match r {
            Some(p) => spec_path_parent(path@) == Some(p@),
            None => spec_path_parent(path@) is None,
        },
{
    std::path::Path::new(path).parent().map(|p| p.to_string_lossy().into_owned())
}

/// Calls `Path::file_name`; the result depends on the argument alone.
#[verifier::external_body]
pub(crate) fn path_file_name(path: &str) -> (r: Option<String>)
    ensures
        match r {
            Some(n) => spec_path_file_name(path@) == Some(n@),
            None => spec_path_file_name(path@) is None,
        },
{
    std::path::Path::new(path).file_name().map(|n| n.to_string_lossy().into_owned())
}

/// Calls `dirs::config_dir`: the platform's per-user configuration
/// directory, which depends on the environment and the operating system.
/// A directory whose name is not valid UTF-8 is carried on with `U+FFFD`
/// in place of the invalid bytes.
#[verifier::external_body]
fn platform_config_dir() -> (r: Option<String>) {
    dirs::config_dir().map(|d| d.to_string_lossy().into_owned())
}

/// `<dir>/fsapp/<file>`.
pub open spec fn in_app_dir(dir: Seq<char>, file: Seq<char>) -> Seq<char> {
    spec_path_join(spec_path_join(dir, "fsapp"@), file)
}

fn app_dir_file(dir: &str, file: &str) -> (r: String)
    ensures
        r@ == in_app_dir(dir@, file@),
{
    let app = path_join(dir, "fsapp");
    path_join(app.as_str(), file)
}

/// The config file's path, first match wins: the explicit `--config`, then
/// `FSAPP_CONFIG`, then `<platform config dir>/fsapp/config.json`; with
/// none of them, no config directory.
pub open spec fn spec_config_path(
    explicit: Option<Seq<char>>,
    env: &Env,
    platform_dir: Option<Seq<char>>,
) -> Result<Seq<char>, ()> {
    match explicit {
        Some(p) => Ok(p),
        None => match env.spec_get("FSAPP_CONFIG"@) {
            Some(p) => Ok(p),
            None => match platform_dir {
                Some(d) => Ok(in_app_dir(d, "config.json"@)),
                None => Err(()),
            },
        },
    }
}

/// Chooses the config file's path given the platform config directory.
pub fn config_path_from(explicit: Option<&str>, env: &Env, platform_dir: Option<&str>) -> (r: Result<String, ConfigError>)
    ensures
        match spec_config_path(
            match explicit {
                Some(p) => Some(p@),
                None => None,
            },
            env,
            match platform_dir {
                Some(d) => Some(d@),
                None => None,
            },
        ) {
            Ok(p) => (r matches Ok(s) && s@ == p),
            Err(()) => (r matches Err(e) && e is NoConfigDir),
        },
{
    if let Some(p) = explicit {
        return Ok(owned(p));
    }
    if let Some(p) = env.get("FSAPP_CONFIG") {
        return Ok(p.clone());
    }
    match platform_dir {
        Some(d) => Ok(app_dir_file(d, "config.json")),
        None => Err(ConfigError::NoConfigDir),
    }
}

/// Resolves the config file's path: the explicit path, then
/// `FSAPP_CONFIG`, then the platform config directory.
pub fn resolve_config_path(explicit: Option<&str>, env: &Env) -> (r: Result<String, ConfigError>)
    ensures
        explicit matches Some(p) ==> (r matches Ok(s) && s@ == p@),
        explicit is None ==> (env.spec_get("FSAPP_CONFIG"@) matches Some(p) ==> (r matches Ok(s)
            && s@ == p)),
        explicit is None && env.spec_get("FSAPP_CONFIG"@) is None ==> match r {
            Ok(s) => exists|d: Seq<char>| s@ == #[trigger] in_app_dir(d, "config.json"@),
            Err(e) => e is NoConfigDir,
        },
{
    let platform = platform_config_dir();
    let r = match &platform {
        Some(d) => config_path_from(explicit, env, Some(d.as_str())),
        None => config_path_from(explicit, env, None),
    };
    proof {
        if let Some(d) = platform {
            if explicit is None && env.spec_get("FSAPP_CONFIG"@) is None {
                assert(r matches Ok(s) ==> s@ == in_app_dir(d@, "config.json"@));
            }
        }
    }
    r
}

/// The platform default config path: `<dir>/fsapp/config.json` in the
/// platform config directory `dir`, or no config directory.
pub open spec fn spec_default_config_path(platform_dir: Option<Seq<char>>) -> Result<Seq<char>, ()> {
    match platform_dir {
        Some(d) => Ok(in_app_dir(d, "config.json"@)),
        None => Err(()),
    }
}

/// The platform default config path in the given platform config
/// directory.
pub fn default_config_path_in(platform_dir: Option<&str>) -> (r: Result<String, ConfigError>)
    ensures
        match spec_default_config_path(opt_str(platform_dir)) {
            Ok(p) => (r matches Ok(s) && s@ == p),
            Err(()) => (r matches Err(e) && e is NoConfigDir),
        },
{
    match platform_dir {
        Some(d) => Ok(app_dir_file(d, "config.json")),
        None => Err(ConfigError::NoConfigDir),
    }
}

/// The platform default config path, with no `--config` and no environment
/// override, for `fset path` and similar diagnostics.
pub fn default_config_path() -> (r: Result<String, ConfigError>)
    ensures
        exists|d: Option<Seq<char>>| match #[trigger] spec_default_config_path(d) {
            Ok(p) => (r matches Ok(s) && s@ == p),
            Err(()) => (r matches Err(e) && e is NoConfigDir),
        },
{
    let platform = platform_config_dir();
    let r = match &platform {
        Some(d) => default_config_path_in(Some(d.as_str())),
        None => default_config_path_in(None),
    };
    proof {
        let dv = match platform {
            Some(d) => Some(d@),
            None => None,
        };
        assert(match spec_default_config_path(dv) {
            Ok(p) => (r matches Ok(s) && s@ == p),
            Err(()) => (r matches Err(e) && e is NoConfigDir),
        });
    }
    r
}

/// A cache file's path: `<FSAPP_CACHE_DIR>/<file>` when that variable is
/// set, else `<platform config dir>/fsapp/<file>`. Deliberately not derived
/// from the config path: `--config` and `FSAPP_CONFIG` never move it.
pub open spec fn spec_cache_path(env: &Env, platform_dir: Option<Seq<char>>, file: Seq<char>) -> Result<Seq<char>, ()> {
    match env.spec_get("FSAPP_CACHE_DIR"@) {
        Some(d) => Ok(spec_path_join(d, file)),
        None => match platform_dir {
            Some(d) => Ok(in_app_dir(d, file)),
            None => Err(()),
        },
    }
}

/// Chooses a cache file's path given the platform config directory.
pub fn cache_path_from(env: &Env, platform_dir: Option<&str>, file: &str) -> (r: Result<String, ConfigError>)
    ensures
        match spec_cache_path(
            env,
            match platform_dir {
                Some(d) => Some(d@),
                None => None,
            },
            file@,
        ) {
            Ok(p) => (r matches Ok(s) && s@ == p),
            Err(()) => (r matches Err(e) && e is NoConfigDir),
        },
{
    if let Some(d) = env.get("FSAPP_CACHE_DIR") {
        return Ok(path_join(d.as_str(), file));
    }
    match platform_dir {
        Some(d) => Ok(app_dir_file(d, file)),
        None => Err(ConfigError::NoConfigDir),
    }
}

fn cache_path(env: &Env, file: &str) -> (r: Result<String, ConfigError>)
    ensures
        env.spec_get("FSAPP_CACHE_DIR"@) matches Some(d) ==> (r matches Ok(s) && s@ == spec_path_join(
            d,
            file@,
        )),
        env.spec_get("FSAPP_CACHE_DIR"@) is None ==> match r {
            Ok(s) => exists|d: Seq<char>| s@ == #[trigger] in_app_dir(d, file@),
            Err(e) => e is NoConfigDir,
        },
{
    let platform = platform_config_dir();
    let r = match &platform {
        Some(d) => cache_path_from(env, Some(d.as_str()), file),
        None => cache_path_from(env, None, file),
    };
    proof {
        if let Some(d) = platform {
            if env.spec_get("FSAPP_CACHE_DIR"@) is None {
                assert(r matches Ok(s) ==> s@ == in_app_dir(d@, file@));
            }
        }
    }
    r
}

/// Where the update check caches its last answer.
pub fn update_cache_path(env: &Env) -> (r: Result<String, ConfigError>)
    ensures
        env.spec_get("FSAPP_CACHE_DIR"@) matches Some(d) ==> (r matches Ok(s) && s@ == spec_path_join(
            d,
            "update-check.json"@,
        )),
        env.spec_get("FSAPP_CACHE_DIR"@) is None ==> match r {
            Ok(s) => exists|d: Seq<char>| s@ == #[trigger] in_app_dir(d, "update-check.json"@),
            Err(e) => e is NoConfigDir,
        },
{
    cache_path(env, "update-check.json")
}

/// Where the completion notice records the shells it was shown for.
pub fn completions_notice_cache_path(env: &Env) -> (r: Result<String, ConfigError>)
    ensures
        env.spec_get("FSAPP_CACHE_DIR"@) matches Some(d) ==> (r matches Ok(s) && s@ == spec_path_join(
            d,
            "completions-notice.json"@,
        )),
        env.spec_get("FSAPP_CACHE_DIR"@) is None ==> match r {
            Ok(s) => exists|d: Seq<char>| s@ == #[trigger] in_app_dir(d, "completions-notice.json"@),
            Err(e) => e is NoConfigDir,
        },
{
    cache_path(env, "completions-notice.json")
}

/// The cache's path depends on `FSAPP_CACHE_DIR` and the platform
/// directory only: two environments that agree on `FSAPP_CACHE_DIR` put it
/// in the same place, whatever `FSAPP_CONFIG` says.
pub proof fn law_cache_path_ignores_config_override(
    env1: &Env,
    env2: &Env,
    platform_dir: Option<Seq<char>>,
    file: Seq<char>,
)
    requires
        env1.spec_get("FSAPP_CACHE_DIR"@) == env2.spec_get("FSAPP_CACHE_DIR"@),
    ensures
        spec_cache_path(env1, platform_dir, file) == spec_cache_path(env2, platform_dir, file),
{
}

/// The file name of backup number `attempt` of `file_name`:
/// `<file_name>.<kind>-<timestamp>` for the first, then `-2`, `-3`, ...
/// appended on same-second collisions.
pub open spec fn spec_backup_name(file_name: Seq<char>, kind: Seq<char>, timestamp: u64, attempt: u64) -> Seq<char> {
    let base = file_name + "."@ + kind + "-"@ + dec(timestamp as nat);
    if attempt == 0 {
        base
    } else {
        base + "-"@ + dec(attempt as nat + 1)
    }
}

/// Names backup number `attempt` of `file_name`.
pub fn backup_name(file_name: &str, kind: &str, timestamp: u64, attempt: u64) -> (r: String)
    requires
        attempt < u64::MAX,
    ensures
        r@ == spec_backup_name(file_name@, kind@, timestamp, attempt),
{
    let mut r = join2(file_name, ".");
    r.append(kind);
    r.append("-");
    let t = fmt_u64(timestamp);
    r.append(t.as_str());
    if attempt > 0 {
        r.append("-");
        let s = fmt_u64(attempt + 1);
        r.append(s.as_str());
    }
    r
}

/// Backups taken in the same second never share a name: different attempts
/// give different names.
pub proof fn law_backup_names_never_collide(
    file_name: Seq<char>,
    kind: Seq<char>,
    timestamp: u64,
    a: u64,
    b: u64,
)
    requires
        a != b,
    ensures
        spec_backup_name(file_name, kind, timestamp, a) != spec_backup_name(file_name, kind, timestamp, b),
{
    let base = file_name + "."@ + kind + "-"@ + dec(timestamp as nat);
    reveal_strlit("-");
    if a == 0 {
        lemma_dec_roundtrip(b as nat + 1);
        assert(spec_backup_name(file_name, kind, timestamp, b).len() > base.len());
    } else if b == 0 {
        lemma_dec_roundtrip(a as nat + 1);
        assert(spec_backup_name(file_name, kind, timestamp, a).len() > base.len());
    } else {
        let x = spec_backup_name(file_name, kind, timestamp, a);
        let y = spec_backup_name(file_name, kind, timestamp, b);
        if x == y {
            let k: int = base.len() as int + 1;
            assert(x.skip(k) =~= dec(a as nat + 1));
            assert(y.skip(k) =~= dec(b as nat + 1));
            crate::text::lemma_dec_injective(a as nat + 1, b as nat + 1);
        }
    }
}

/// A backup's name is the config file's name, the kind and `-`, then the
/// timestamp as a plain integer.
pub proof fn law_first_backup_name_shape(file_name: Seq<char>, kind: Seq<char>, timestamp: u64)
    ensures
        has_prefix(spec_backup_name(file_name, kind, timestamp, 0), file_name + "."@ + kind + "-"@),
        all_digits(
            spec_backup_name(file_name, kind, timestamp, 0).skip((file_name + "."@ + kind + "-"@).len() as int),
        ),
{
    let p = file_name + "."@ + kind + "-"@;
    let x = spec_backup_name(file_name, kind, timestamp, 0);
    lemma_dec_roundtrip(timestamp as nat);
    assert(x.subrange(0, p.len() as int) =~= p);
    assert(x.skip(p.len() as int) =~= dec(timestamp as nat));
}

/// The directory backups of the config at `config_path` go to: the file's
/// own directory, `.` when the path has none.
pub open spec fn spec_backup_dir(config_path: Seq<char>) -> Seq<char> {
    match spec_path_parent(config_path) {
        Some(d) => d,
        None => "."@,
    }
}

/// The file name backups of the config at `config_path` are named after:
/// the path's last component, `config.json` when it has none.
pub open spec fn spec_backup_file(config_path: Seq<char>) -> Seq<char> {
    match spec_path_file_name(config_path) {
        Some(n) => n,
        None => "config.json"@,
    }
}

/// The path of backup number `attempt` of the config at `config_path`.
pub open spec fn spec_backup_candidate(config_path: Seq<char>, kind: Seq<char>, timestamp: u64, attempt: u64) -> Seq<char> {
    spec_path_join(
        spec_backup_dir(config_path),
        spec_backup_name(spec_backup_file(config_path), kind, timestamp, attempt),
    )
}

/// The directory backups of the config at `config_path` go to.
pub fn backup_dir(config_path: &str) -> (r: String)
    ensures
        r@ == spec_backup_dir(config_path@),
{
    match path_parent(config_path) {
        Some(d) => d,
        None => owned("."),
    }
}

/// The file name backups of the config at `config_path` are named after.
pub fn backup_file(config_path: &str) -> (r: String)
    ensures
        r@ == spec_backup_file(config_path@),
{
    match path_file_name(config_path) {
        Some(n) => n,
        None => owned("config.json"),
    }
}

/// The path of backup number `attempt` of the config at `config_path`: in
/// the same directory (`.` when it has none), named after the file
/// (`config.json` when it has no name).
pub fn backup_candidate(config_path: &str, kind: &str, timestamp: u64, attempt: u64) -> (r: String)
    requires
        attempt < u64::MAX,
    ensures
        r@ == spec_backup_candidate(config_path@, kind@, timestamp, attempt),
{
    let dir = backup_dir(config_path);
    let file = backup_file(config_path);
    let name = backup_name(file.as_str(), kind, timestamp, attempt);
    path_join(dir.as_str(), name.as_str())
}

/// `attempt` is the first backup number whose name is not in `taken`: its
/// name is free and every earlier one is taken.
pub open spec fn spec_first_free_attempt(
    file_name: Seq<char>,
    kind: Seq<char>,
    timestamp: u64,
    taken: Set<Seq<char>>,
    attempt: u64,
) -> bool {
    &&& !taken.contains(spec_backup_name(file_name, kind, timestamp, attempt))
    &&& forall|b: u64| b < attempt ==> taken.contains(#[trigger] spec_backup_name(file_name, kind, timestamp, b))
}

/// Whether `name` is one of `names`.
fn contains_name(names: &Vec<String>, name: &str) -> (r: bool)
    ensures
        r == views(names@).contains(name@),
{
    let n = names.len();
    let mut i: usize = 0;
    while i < n
        invariant
            n == names@.len(),
            i <= n,
            forall|j: int| 0 <= j < i ==> names@[j]@ != name@,
        decreases n - i,
    {
        if str_eq(names[i].as_str(), name) {
            assert(views(names@)[i as int] == name@);
            return true;
        }
        i += 1;
    }
    assert forall|j: int| 0 <= j < views(names@).len() implies views(names@)[j] != name@ by {
        assert(views(names@)[j] == names@[j]@);
    }
    false
}

/// A finite set that holds the names of the first `k` backups has at least
/// `k` elements, as those names are all different.
proof fn lemma_taken_names_bound(file_name: Seq<char>, kind: Seq<char>, timestamp: u64, taken: Set<Seq<char>>, k: u64)
    requires
        taken.finite(),
        forall|b: u64| b < k ==> taken.contains(#[trigger] spec_backup_name(file_name, kind, timestamp, b)),
    ensures
        k <= taken.len(),
    decreases k,
{
    if k > 0 {
        let last: u64 = (k - 1) as u64;
        let rest = taken.remove(spec_backup_name(file_name, kind, timestamp, last));
        assert forall|b: u64| b < last implies rest.contains(#[trigger] spec_backup_name(file_name, kind, timestamp, b)) by {
            law_backup_names_never_collide(file_name, kind, timestamp, b, last);
        }
        lemma_taken_names_bound(file_name, kind, timestamp, rest, last);
    }
}

/// The first backup number whose name is not among `taken`, the names of
/// the files already in the backup directory.
pub fn free_backup_attempt(file_name: &str, kind: &str, timestamp: u64, taken: &Vec<String>) -> (r: u64)
    requires
        taken@.len() < u64::MAX,
    ensures
        spec_first_free_attempt(file_name@, kind@, timestamp, views(taken@).to_set(), r),
        r <= taken@.len(),
{
    let ghost names = views(taken@).to_set();
    let mut attempt: u64 = 0;
    loop
        invariant
            taken@.len() < u64::MAX,
            attempt <= taken@.len(),
            names == views(taken@).to_set(),
            forall|b: u64| b < attempt ==> names.contains(#[trigger] spec_backup_name(file_name@, kind@, timestamp, b)),
        decreases taken@.len() - attempt,
    {
        let name = backup_name(file_name, kind, timestamp, attempt);
        if !contains_name(taken, name.as_str()) {
            return attempt;
        }
        proof {
            let next: u64 = (attempt + 1) as u64;
            assert forall|b: u64| b < next implies names.contains(#[trigger] spec_backup_name(file_name@, kind@, timestamp, b)) by {
                if b < attempt {
                } else {
                    assert(b == attempt);
                }
            }
            lemma_taken_names_bound(file_name@, kind@, timestamp, names, next);
            views(taken@).lemma_cardinality_of_set();
        }
        attempt += 1;
    }
}

/// The path a new backup of the config at `config_path` is written to: the
/// first candidate whose name is not among `taken`, the names of the files
/// already in the backup directory, so no earlier backup is overwritten.
pub fn free_backup_path(config_path: &str, kind: &str, timestamp: u64, taken: &Vec<String>) -> (r: String)
    requires
        taken@.len() < u64::MAX,
    ensures
        exists|a: u64|
            #[trigger] spec_first_free_attempt(spec_backup_file(config_path@), kind@, timestamp, views(taken@).to_set(), a)
                && r@ == spec_backup_candidate(config_path@, kind@, timestamp, a),
{
    let file = backup_file(config_path);
    let a = free_backup_attempt(file.as_str(), kind, timestamp, taken);
    backup_candidate(config_path, kind, timestamp, a)
}

/// Backups taken one after another in the same second get different names,
/// each new one not among the files that were there: the second choice,
/// made with the first backup's name added to the directory, comes later in
/// the sequence than the first.
pub proof fn law_successive_backups_differ(
    file_name: Seq<char>,
    kind: Seq<char>,
    timestamp: u64,
    taken: Set<Seq<char>>,
    first: u64,
    second: u64,
)
    requires
        spec_first_free_attempt(file_name, kind, timestamp, taken, first),
        spec_first_free_attempt(
            file_name,
            kind,
            timestamp,
            taken.insert(spec_backup_name(file_name, kind, timestamp, first)),
            second,
        ),
    ensures
        first < second,
        spec_backup_name(file_name, kind, timestamp, first) != spec_backup_name(file_name, kind, timestamp, second),
        !taken.contains(spec_backup_name(file_name, kind, timestamp, second)),
{
    if second < first {
        assert(taken.contains(spec_backup_name(file_name, kind, timestamp, second)));
    }
    law_backup_names_never_collide(file_name, kind, timestamp, first, second);
}

} // verus!
