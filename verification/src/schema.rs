//! The config file's schema (every section and every key optional, `{}`
//! meaning "all builder defaults") and the range rules that the type system
//! alone does not enforce.

use vstd::prelude::*;

use crate::enums::{CompressFormat, OnError, SortOrder};
use crate::text::{dec, fmt_u64, join2, owned};

verus! {

/// Why a config file could not be used.
#[derive(Debug)]
pub enum ConfigError {
    /// The text is not JSON of the schema's shape (including unknown keys).
    Parse(String),
    /// The JSON has the right shape but a value is out of range.
    Validation(String),
    /// No explicit path, no `FSAPP_CONFIG`, and no platform config directory.
    NoConfigDir,
    /// Reading, writing or backing up the file, or creating its directory,
    /// failed; the text names the path and the cause.
    Io(String),
}

impl ConfigError {
    /// The message shown to the user: lowercase, no trailing period.
    pub open spec fn spec_message(&self) -> Seq<char> {
        match self {
            ConfigError::Parse(m) => m@,
            ConfigError::Validation(m) => m@,
            ConfigError::NoConfigDir => no_config_dir_message(),
            ConfigError::Io(m) => m@,
        }
    }

    /// The message shown to the user: lowercase, no trailing period.
    pub fn to_string(&self) -> (r: String)
        ensures
            r@ == self.spec_message(),
    {
        match self {
            ConfigError::Parse(m) => m.clone(),
            ConfigError::Validation(m) => m.clone(),
            ConfigError::NoConfigDir => owned(
                "could not determine the platform config directory; pass --config or set FSAPP_CONFIG",
            ),
            ConfigError::Io(m) => m.clone(),
        }
    }
}

/// The message of [`ConfigError::NoConfigDir`].
pub open spec fn no_config_dir_message() -> Seq<char> {
    "could not determine the platform config directory; pass --config or set FSAPP_CONFIG"@
}

/// The whole config file. Every section is optional.
#[derive(Clone, Copy, Debug, PartialEq, Eq, Structural)]
pub struct Config {
    pub global: Option<GlobalSection>,
    pub copy: Option<CopySection>,
    pub mv: Option<MvSection>,
    pub sync: Option<SyncSection>,
    pub watch: Option<WatchSection>,
    pub compress: Option<CompressSection>,
    pub update: Option<UpdateSection>,
}

impl Default for Config {
    fn default() -> (r: Self)
        ensures
            r == Config::empty(),
    {
        Config {
            global: None,
            copy: None,
            mv: None,
            sync: None,
            watch: None,
            compress: None,
            update: None,
        }
    }
}

impl Config {
    /// `{}`: no section set.
    pub open spec fn empty() -> Config {
        Config {
            global: None,
            copy: None,
            mv: None,
            sync: None,
            watch: None,
            compress: None,
            update: None,
        }
    }
}

/// `update`: the automatic update check, stated in the negative so that
/// "set nowhere" means the check runs.
#[derive(Clone, Copy, Debug, PartialEq, Eq, Structural)]
pub struct UpdateSection {
    pub no_check: Option<bool>,
}

impl UpdateSection {
    /// The section with no key set.
    pub open spec fn empty() -> UpdateSection {
        UpdateSection {
            no_check: None,
        }
    }
}

impl Default for UpdateSection {
    fn default() -> (r: Self)
        ensures
            r == UpdateSection::empty(),
    {
        UpdateSection {
            no_check: None,
        }
    }
}

/// `global`: settings that apply to every command.
#[derive(Clone, Copy, Debug, PartialEq, Eq, Structural)]
pub struct GlobalSection {
    pub verbosity: Option<u8>,
    pub quiet: Option<bool>,
}

impl GlobalSection {
    /// The section with no key set.
    pub open spec fn empty() -> GlobalSection {
        GlobalSection {
            verbosity: None,
            quiet: None,
        }
    }
}

impl Default for GlobalSection {
    fn default() -> (r: Self)
        ensures
            r == GlobalSection::empty(),
    {
        GlobalSection {
            verbosity: None,
            quiet: None,
        }
    }
}

/// `copy`: defaults for `fsapp copy`.
#[derive(Clone, Copy, Debug, PartialEq, Eq, Structural)]
pub struct CopySection {
    pub on_error: Option<OnError>,
    pub small_file_threshold: Option<u64>,
    pub batch_concurrency: Option<u64>,
    pub preserve_permissions: Option<bool>,
    pub allow_fs_integrity_risk: Option<bool>,
    pub overwrite: Option<bool>,
    pub max_bytes_per_batch: Option<u64>,
    pub max_files_per_batch: Option<u64>,
    pub sort_order: Option<SortOrder>,
}

impl CopySection {
    /// The section with no key set.
    pub open spec fn empty() -> CopySection {
        CopySection {
            on_error: None,
            small_file_threshold: None,
            batch_concurrency: None,
            preserve_permissions: None,
            allow_fs_integrity_risk: None,
            overwrite: None,
            max_bytes_per_batch: None,
            max_files_per_batch: None,
            sort_order: None,
        }
    }
}

impl Default for CopySection {
    fn default() -> (r: Self)
        ensures
            r == CopySection::empty(),
    {
        CopySection {
            on_error: None,
            small_file_threshold: None,
            batch_concurrency: None,
            preserve_permissions: None,
            allow_fs_integrity_risk: None,
            overwrite: None,
            max_bytes_per_batch: None,
            max_files_per_batch: None,
            sort_order: None,
        }
    }
}

/// `mv`: defaults for `fsapp mv`.
#[derive(Clone, Copy, Debug, PartialEq, Eq, Structural)]
pub struct MvSection {
    pub on_error: Option<OnError>,
    pub small_file_threshold: Option<u64>,
    pub batch_concurrency: Option<u64>,
    pub preserve_permissions: Option<bool>,
    pub allow_fs_integrity_risk: Option<bool>,
    pub overwrite: Option<bool>,
}

impl MvSection {
    /// The section with no key set.
    pub open spec fn empty() -> MvSection {
        MvSection {
            on_error: None,
            small_file_threshold: None,
            batch_concurrency: None,
            preserve_permissions: None,
            allow_fs_integrity_risk: None,
            overwrite: None,
        }
    }
}

impl Default for MvSection {
    fn default() -> (r: Self)
        ensures
            r == MvSection::empty(),
    {
        MvSection {
            on_error: None,
            small_file_threshold: None,
            batch_concurrency: None,
            preserve_permissions: None,
            allow_fs_integrity_risk: None,
            overwrite: None,
        }
    }
}

/// `sync`: defaults for `fsapp sync`.
#[derive(Clone, Copy, Debug, PartialEq, Eq, Structural)]
pub struct SyncSection {
    pub on_error: Option<OnError>,
    pub small_file_threshold: Option<u64>,
    pub batch_concurrency: Option<u64>,
    pub preserve_permissions: Option<bool>,
    pub allow_fs_integrity_risk: Option<bool>,
    pub no_overwrite: Option<bool>,
    pub checksum: Option<bool>,
}

impl SyncSection {
    /// The section with no key set.
    pub open spec fn empty() -> SyncSection {
        SyncSection {
            on_error: None,
            small_file_threshold: None,
            batch_concurrency: None,
            preserve_permissions: None,
            allow_fs_integrity_risk: None,
            no_overwrite: None,
            checksum: None,
        }
    }
}

impl Default for SyncSection {
    fn default() -> (r: Self)
        ensures
            r == SyncSection::empty(),
    {
        SyncSection {
            on_error: None,
            small_file_threshold: None,
            batch_concurrency: None,
            preserve_permissions: None,
            allow_fs_integrity_risk: None,
            no_overwrite: None,
            checksum: None,
        }
    }
}

/// `watch`: defaults for `fsapp watch`.
#[derive(Clone, Copy, Debug, PartialEq, Eq, Structural)]
pub struct WatchSection {
    pub no_recursive: Option<bool>,
}

impl WatchSection {
    /// The section with no key set.
    pub open spec fn empty() -> WatchSection {
        WatchSection {
            no_recursive: None,
        }
    }
}

impl Default for WatchSection {
    fn default() -> (r: Self)
        ensures
            r == WatchSection::empty(),
    {
        WatchSection {
            no_recursive: None,
        }
    }
}

/// `compress`: defaults for `fsapp compress`.
#[derive(Clone, Copy, Debug, PartialEq, Eq, Structural)]
pub struct CompressSection {
    pub on_error: Option<OnError>,
    pub small_file_threshold: Option<u64>,
    pub batch_concurrency: Option<u64>,
    pub format: Option<CompressFormat>,
}

impl CompressSection {
    /// The section with no key set.
    pub open spec fn empty() -> CompressSection {
        CompressSection {
            on_error: None,
            small_file_threshold: None,
            batch_concurrency: None,
            format: None,
        }
    }
}

impl Default for CompressSection {
    fn default() -> (r: Self)
        ensures
            r == CompressSection::empty(),
    {
        CompressSection {
            on_error: None,
            small_file_threshold: None,
            batch_concurrency: None,
            format: None,
        }
    }
}

/// The message for a present value that must be positive but is 0.
pub open spec fn gt_zero_message(key: Seq<char>) -> Seq<char> {
    key + " must be > 0, got 0"@
}

/// The message for a present value that must be at least 1 but is `v`.
pub open spec fn gte_one_message(key: Seq<char>, v: u64) -> Seq<char> {
    key + " must be >= 1, got "@ + dec(v as nat)
}

/// The message for a verbosity above 3.
pub open spec fn verbosity_message(v: u8) -> Seq<char> {
    "global.verbosity must be 0..=3, got "@ + dec(v as nat)
}

/// The first of the two batch rules that a section breaks: a
/// `small-file-threshold` of 0, then a `batch-concurrency` below 1.
pub open spec fn batch_violation(
    small_file_threshold: Option<u64>,
    batch_concurrency: Option<u64>,
    threshold_key: Seq<char>,
    concurrency_key: Seq<char>,
) -> Option<Seq<char>> {
    if small_file_threshold == Some(0u64) {
        Some(gt_zero_message(threshold_key))
    } else {
        match batch_concurrency {
            Some(v) => if v < 1 {
                Some(gte_one_message(concurrency_key, v))
            } else {
                None
            },
            None => None,
        }
    }
}

/// `a` when it reports a violation, `b` otherwise.
pub open spec fn first_of(a: Option<Seq<char>>, b: Option<Seq<char>>) -> Option<Seq<char>> {
    if a is Some {
        a
    } else {
        b
    }
}

/// The verbosity rule of the `global` section.
pub open spec fn global_violation(g: Option<GlobalSection>) -> Option<Seq<char>> {
    match g {
        Some(g) => match g.verbosity {
            Some(v) => if v > 3 {
                Some(verbosity_message(v))
            } else {
                None
            },
            None => None,
        },
        None => None,
    }
}

/// The batch rules of the `copy` section.
pub open spec fn copy_batch_violation(c: Option<CopySection>) -> Option<Seq<char>> {
    match c {
        Some(s) => batch_violation(
            s.small_file_threshold,
            s.batch_concurrency,
            "copy.small-file-threshold"@,
            "copy.batch-concurrency"@,
        ),
        None => None,
    }
}

/// The batch rules of the `mv` section.
pub open spec fn mv_batch_violation(c: Option<MvSection>) -> Option<Seq<char>> {
    match c {
        Some(s) => batch_violation(
            s.small_file_threshold,
            s.batch_concurrency,
            "mv.small-file-threshold"@,
            "mv.batch-concurrency"@,
        ),
        None => None,
    }
}

/// The batch rules of the `sync` section.
pub open spec fn sync_batch_violation(c: Option<SyncSection>) -> Option<Seq<char>> {
    match c {
        Some(s) => batch_violation(
            s.small_file_threshold,
            s.batch_concurrency,
            "sync.small-file-threshold"@,
            "sync.batch-concurrency"@,
        ),
        None => None,
    }
}

/// The batch rules of the `compress` section.
pub open spec fn compress_batch_violation(c: Option<CompressSection>) -> Option<Seq<char>> {
    match c {
        Some(s) => batch_violation(
            s.small_file_threshold,
            s.batch_concurrency,
            "compress.small-file-threshold"@,
            "compress.batch-concurrency"@,
        ),
        None => None,
    }
}

/// The rules on `copy`'s per-batch caps.
pub open spec fn copy_cap_violation(c: Option<CopySection>) -> Option<Seq<char>> {
    match c {
        Some(s) => if s.max_bytes_per_batch == Some(0u64) {
            Some(gt_zero_message("copy.max-bytes-per-batch"@))
        } else {
            match s.max_files_per_batch {
                Some(v) => if v < 1 {
                    Some(gte_one_message("copy.max-files-per-batch"@, v))
                } else {
                    None
                },
                None => None,
            }
        },
        None => None,
    }
}

/// The first range rule that `c` breaks, in the order they are checked:
/// `global.verbosity`, the batch rules of `copy`, `mv`, `sync` and
/// `compress`, then `copy.max-bytes-per-batch` and
/// `copy.max-files-per-batch`. `None` when every rule holds.
pub open spec fn first_violation(c: Config) -> Option<Seq<char>> {
    first_of(
        global_violation(c.global),
        first_of(
            copy_batch_violation(c.copy),
            first_of(
                mv_batch_violation(c.mv),
                first_of(
                    sync_batch_violation(c.sync),
                    first_of(compress_batch_violation(c.compress), copy_cap_violation(c.copy)),
                ),
            ),
        ),
    )
}

/// Every range rule holds: verbosity at most 3; wherever present,
/// `small-file-threshold` and `max-bytes-per-batch` positive and
/// `batch-concurrency` and `max-files-per-batch` at least 1.
pub open spec fn is_valid(c: Config) -> bool {
    &&& (c.global matches Some(g) ==> (g.verbosity matches Some(v) ==> v <= 3))
    &&& c.copy matches Some(s) ==> batch_ok(s.small_file_threshold, s.batch_concurrency)
    &&& c.mv matches Some(s) ==> batch_ok(s.small_file_threshold, s.batch_concurrency)
    &&& c.sync matches Some(s) ==> batch_ok(s.small_file_threshold, s.batch_concurrency)
    &&& c.compress matches Some(s) ==> batch_ok(s.small_file_threshold, s.batch_concurrency)
    &&& c.copy matches Some(s) ==> s.max_bytes_per_batch != Some(0u64)
    &&& c.copy matches Some(s) ==> s.max_files_per_batch != Some(0u64)
}

/// A batch section's threshold is not 0 and its concurrency not below 1.
pub open spec fn batch_ok(small_file_threshold: Option<u64>, batch_concurrency: Option<u64>) -> bool {
    small_file_threshold != Some(0u64) && batch_concurrency != Some(0u64)
}

/// The rules are broken exactly when some rule reports a violation.
pub proof fn law_valid_iff_no_violation(c: Config)
    ensures
        is_valid(c) <==> first_violation(c) is None,
{
}

fn check_gt_zero(value: Option<u64>, key: &str) -> (r: Result<(), ConfigError>)
    ensures
        match r {
            Ok(()) => value != Some(0u64),
            Err(e) => value == Some(0u64) && (e matches ConfigError::Validation(m) && m@
                == gt_zero_message(key@)),
        },
{
    if let Some(v) = value {
        if v == 0 {
            return Err(ConfigError::Validation(join2(key, " must be > 0, got 0")));
        }
    }
    Ok(())
}

fn check_gte_one(value: Option<u64>, key: &str) -> (r: Result<(), ConfigError>)
    ensures
        match r {
            Ok(()) => value != Some(0u64),
            Err(e) => (value matches Some(v) && v < 1 && (e matches ConfigError::Validation(m)
                && m@ == gte_one_message(key@, v))),
        },
{
    if let Some(v) = value {
        if v < 1 {
            let mut m = join2(key, " must be >= 1, got ");
            let d = fmt_u64(v);
            m.append(d.as_str());
            return Err(ConfigError::Validation(m));
        }
    }
    Ok(())
}

fn check_batch(
    small_file_threshold: Option<u64>,
    batch_concurrency: Option<u64>,
    threshold_key: &str,
    concurrency_key: &str,
) -> (r: Result<(), ConfigError>)
    ensures
        match batch_violation(
            small_file_threshold,
            batch_concurrency,
            threshold_key@,
            concurrency_key@,
        ) {
            None => r is Ok,
            Some(msg) => (r matches Err(e) && (e matches ConfigError::Validation(m) && m@ == msg)),
        },
{
    check_gt_zero(small_file_threshold, threshold_key)?;
    check_gte_one(batch_concurrency, concurrency_key)
}

impl Config {
    /// Checks the numeric range rules that the schema's types cannot express.
    pub fn validate(&self) -> (r: Result<(), ConfigError>)
        ensures
            match first_violation(*self) {
                None => r is Ok,
                Some(msg) => (r matches Err(e) && (e matches ConfigError::Validation(m) && m@ == msg)),
            },
            r is Ok <==> is_valid(*self),
    {
        if let Some(g) = &self.global {
            if let Some(v) = g.verbosity {
                if v > 3 {
                    let mut m = owned("global.verbosity must be 0..=3, got ");
                    let d = fmt_u64(v as u64);
                    m.append(d.as_str());
                    return Err(ConfigError::Validation(m));
                }
            }
        }
        if let Some(s) = &self.copy {
            check_batch(
                s.small_file_threshold,
                s.batch_concurrency,
                "copy.small-file-threshold",
                "copy.batch-concurrency",
            )?;
        }
        if let Some(s) = &self.mv {
            check_batch(
                s.small_file_threshold,
                s.batch_concurrency,
                "mv.small-file-threshold",
                "mv.batch-concurrency",
            )?;
        }
        if let Some(s) = &self.sync {
            check_batch(
                s.small_file_threshold,
                s.batch_concurrency,
                "sync.small-file-threshold",
                "sync.batch-concurrency",
            )?;
        }
        if let Some(s) = &self.compress {
            check_batch(
                s.small_file_threshold,
                s.batch_concurrency,
                "compress.small-file-threshold",
                "compress.batch-concurrency",
            )?;
        }
        if let Some(c) = &self.copy {
            check_gt_zero(c.max_bytes_per_batch, "copy.max-bytes-per-batch")?;
            check_gte_one(c.max_files_per_batch, "copy.max-files-per-batch")?;
        }
        Ok(())
    }
}

/// The second half of reading a config file, after the JSON has been
/// decoded into a `Config` (`Err` with the decoder's message when it could
/// not be): a decoding failure is a parse error, a decoded config that
/// breaks a range rule is a validation error.
pub fn parse_config(decoded: Result<Config, String>) -> (r: Result<Config, ConfigError>)
    ensures
        match decoded {
            Err(m) => (r matches Err(e) && (e matches ConfigError::Parse(x) && x@ == m@)),
            Ok(c) => match first_violation(c) {
                None => r == Ok::<Config, ConfigError>(c),
                Some(msg) => (r matches Err(e) && (e matches ConfigError::Validation(x) && x@ == msg)),
            },
        },
{
    match decoded {
        Err(m) => Err(ConfigError::Parse(m)),
        Ok(c) => {
            c.validate()?;
            Ok(c)
        },
    }
}

} // verus!
