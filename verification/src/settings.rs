//! The settings each `fsapp` command runs with, resolved from its command
//! line arguments, the environment and the config file.

use vstd::prelude::*;

use crate::enums::{CompressFormat, OnError, SortOrder};
use crate::resolve::{resolve, resolve_bool, spec_env_value, spec_resolve, spec_resolve_bool, Env};
use crate::schema::Config;
use crate::text::{join3, str_eq};

verus! {

/// Batching flags shared by `copy`, `mv`, `sync` and `compress`.
#[derive(Debug, Clone, Copy, PartialEq, Eq, Structural)]
pub struct BatchArgs {
    pub small_file_threshold: Option<u64>,
    pub batch_concurrency: Option<u64>,
    pub on_error: Option<OnError>,
}

impl Default for BatchArgs {
    fn default() -> (r: Self)
        ensures
            r == (BatchArgs { small_file_threshold: None, batch_concurrency: None, on_error: None }),
    {
        BatchArgs { small_file_threshold: None, batch_concurrency: None, on_error: None }
    }
}

/// Filesystem-safety flags shared by `copy`, `mv` and `sync`.
#[derive(Debug, Clone, Copy, PartialEq, Eq, Structural)]
pub struct FsSafetyArgs {
    pub preserve_permissions: bool,
    pub allow_fs_integrity_risk: bool,
}

impl Default for FsSafetyArgs {
    fn default() -> (r: Self)
        ensures
            r == (FsSafetyArgs { preserve_permissions: false, allow_fs_integrity_risk: false }),
    {
        FsSafetyArgs { preserve_permissions: false, allow_fs_integrity_risk: false }
    }
}

/// The batching flags of `remove`: no small-file split and no safety flags.
#[derive(Debug, Clone, Copy, PartialEq, Eq, Structural)]
pub struct RemoveBatchArgs {
    pub on_error: Option<OnError>,
    pub batch_concurrency: Option<u64>,
}

impl Default for RemoveBatchArgs {
    fn default() -> (r: Self)
        ensures
            r == (RemoveBatchArgs { on_error: None, batch_concurrency: None }),
    {
        RemoveBatchArgs { on_error: None, batch_concurrency: None }
    }
}

/// The keys every batching section shares, read without caring which
/// section it is.
#[derive(Debug, Clone, Copy, PartialEq, Eq, Structural)]
pub struct SectionView {
    pub on_error: Option<OnError>,
    pub small_file_threshold: Option<u64>,
    pub batch_concurrency: Option<u64>,
    pub preserve_permissions: Option<bool>,
    pub allow_fs_integrity_risk: Option<bool>,
}

/// The shared keys of section `section` of `config`; `compress` has no
/// safety keys, and any other name has no view.
pub open spec fn spec_config_section(config: Config, section: Seq<char>) -> Option<SectionView> {
    if section == "copy"@ {
        match config.copy {
            Some(s) => Some(
                SectionView {
                    on_error: s.on_error,
                    small_file_threshold: s.small_file_threshold,
                    batch_concurrency: s.batch_concurrency,
                    preserve_permissions: s.preserve_permissions,
                    allow_fs_integrity_risk: s.allow_fs_integrity_risk,
                },
            ),
            None => None,
        }
    } else if section == "mv"@ {
        match config.mv {
            Some(s) => Some(
                SectionView {
                    on_error: s.on_error,
                    small_file_threshold: s.small_file_threshold,
                    batch_concurrency: s.batch_concurrency,
                    preserve_permissions: s.preserve_permissions,
                    allow_fs_integrity_risk: s.allow_fs_integrity_risk,
                },
            ),
            None => None,
        }
    } else if section == "sync"@ {
        match config.sync {
            Some(s) => Some(
                SectionView {
                    on_error: s.on_error,
                    small_file_threshold: s.small_file_threshold,
                    batch_concurrency: s.batch_concurrency,
                    preserve_permissions: s.preserve_permissions,
                    allow_fs_integrity_risk: s.allow_fs_integrity_risk,
                },
            ),
            None => None,
        }
    } else if section == "compress"@ {
        match config.compress {
            Some(s) => Some(
                SectionView {
                    on_error: s.on_error,
                    small_file_threshold: s.small_file_threshold,
                    batch_concurrency: s.batch_concurrency,
                    preserve_permissions: None,
                    allow_fs_integrity_risk: None,
                },
            ),
            None => None,
        }
    } else {
        None
    }
}

/// Each operation reads its own section of the config: the view of
/// section `copy`, `mv`, `sync` or `compress` is there exactly when that
/// section is, holds that section's shared keys (`compress` has no safety
/// keys), and does not depend on any other section.
pub proof fn law_section_view_reads_its_own_section(c: Config, d: Config)
    ensures
        (spec_config_section(c, "copy"@) is Some) == (c.copy is Some),
        c.copy matches Some(s) ==> spec_config_section(c, "copy"@)->0.on_error == s.on_error,
        c.copy matches Some(s) ==> spec_config_section(c, "copy"@)->0.small_file_threshold == s.small_file_threshold,
        c.copy matches Some(s) ==> spec_config_section(c, "copy"@)->0.batch_concurrency == s.batch_concurrency,
        c.copy matches Some(s) ==> spec_config_section(c, "copy"@)->0.preserve_permissions == s.preserve_permissions,
        c.copy matches Some(s) ==> spec_config_section(c, "copy"@)->0.allow_fs_integrity_risk == s.allow_fs_integrity_risk,
        (spec_config_section(c, "mv"@) is Some) == (c.mv is Some),
        c.mv matches Some(s) ==> spec_config_section(c, "mv"@)->0.on_error == s.on_error,
        c.mv matches Some(s) ==> spec_config_section(c, "mv"@)->0.small_file_threshold == s.small_file_threshold,
        c.mv matches Some(s) ==> spec_config_section(c, "mv"@)->0.batch_concurrency == s.batch_concurrency,
        c.mv matches Some(s) ==> spec_config_section(c, "mv"@)->0.preserve_permissions == s.preserve_permissions,
        c.mv matches Some(s) ==> spec_config_section(c, "mv"@)->0.allow_fs_integrity_risk == s.allow_fs_integrity_risk,
        (spec_config_section(c, "sync"@) is Some) == (c.sync is Some),
        c.sync matches Some(s) ==> spec_config_section(c, "sync"@)->0.on_error == s.on_error,
        c.sync matches Some(s) ==> spec_config_section(c, "sync"@)->0.small_file_threshold == s.small_file_threshold,
        c.sync matches Some(s) ==> spec_config_section(c, "sync"@)->0.batch_concurrency == s.batch_concurrency,
        c.sync matches Some(s) ==> spec_config_section(c, "sync"@)->0.preserve_permissions == s.preserve_permissions,
        c.sync matches Some(s) ==> spec_config_section(c, "sync"@)->0.allow_fs_integrity_risk == s.allow_fs_integrity_risk,
        (spec_config_section(c, "compress"@) is Some) == (c.compress is Some),
        c.compress matches Some(s) ==> spec_config_section(c, "compress"@)->0.on_error == s.on_error,
        c.compress matches Some(s) ==> spec_config_section(c, "compress"@)->0.small_file_threshold == s.small_file_threshold,
        c.compress matches Some(s) ==> spec_config_section(c, "compress"@)->0.batch_concurrency == s.batch_concurrency,
        c.compress is Some ==> spec_config_section(c, "compress"@)->0.preserve_permissions is None,
        c.compress is Some ==> spec_config_section(c, "compress"@)->0.allow_fs_integrity_risk is None,
        c.copy == d.copy ==> spec_config_section(c, "copy"@) == spec_config_section(d, "copy"@),
        c.mv == d.mv ==> spec_config_section(c, "mv"@) == spec_config_section(d, "mv"@),
        c.sync == d.sync ==> spec_config_section(c, "sync"@) == spec_config_section(d, "sync"@),
        c.compress == d.compress ==> spec_config_section(c, "compress"@) == spec_config_section(d, "compress"@),
{
    reveal_strlit("copy");
    reveal_strlit("mv");
    reveal_strlit("sync");
    reveal_strlit("compress");
    assert("mv"@ != "copy"@) by {
        assert("mv"@.len() != "copy"@.len());
    }
    assert("sync"@ != "copy"@) by {
        assert("sync"@[0] != "copy"@[0]);
    }
    assert("sync"@ != "mv"@) by {
        assert("sync"@.len() != "mv"@.len());
    }
    assert("compress"@ != "copy"@) by {
        assert("compress"@.len() != "copy"@.len());
    }
    assert("compress"@ != "mv"@) by {
        assert("compress"@.len() != "mv"@.len());
    }
    assert("compress"@ != "sync"@) by {
        assert("compress"@.len() != "sync"@.len());
    }
}

/// Reads the shared keys of one batching section.
pub fn config_section(config: &Config, section: &str) -> (r: Option<SectionView>)
    ensures
        r == spec_config_section(*config, section@),
{
    if str_eq(section, "copy") {
        match &config.copy {
            Some(s) => Some(
                SectionView {
                    on_error: s.on_error,
                    small_file_threshold: s.small_file_threshold,
                    batch_concurrency: s.batch_concurrency,
                    preserve_permissions: s.preserve_permissions,
                    allow_fs_integrity_risk: s.allow_fs_integrity_risk,
                },
            ),
            None => None,
        }
    } else if str_eq(section, "mv") {
        match &config.mv {
            Some(s) => Some(
                SectionView {
                    on_error: s.on_error,
                    small_file_threshold: s.small_file_threshold,
                    batch_concurrency: s.batch_concurrency,
                    preserve_permissions: s.preserve_permissions,
                    allow_fs_integrity_risk: s.allow_fs_integrity_risk,
                },
            ),
            None => None,
        }
    } else if str_eq(section, "sync") {
        match &config.sync {
            Some(s) => Some(
                SectionView {
                    on_error: s.on_error,
                    small_file_threshold: s.small_file_threshold,
                    batch_concurrency: s.batch_concurrency,
                    preserve_permissions: s.preserve_permissions,
                    allow_fs_integrity_risk: s.allow_fs_integrity_risk,
                },
            ),
            None => None,
        }
    } else if str_eq(section, "compress") {
        match &config.compress {
            Some(s) => Some(
                SectionView {
                    on_error: s.on_error,
                    small_file_threshold: s.small_file_threshold,
                    batch_concurrency: s.batch_concurrency,
                    preserve_permissions: None,
                    allow_fs_integrity_risk: None,
                },
            ),
            None => None,
        }
    } else {
        None
    }
}

/// The key of a section view, or `None` when the section is absent.
pub open spec fn view_on_error(v: Option<SectionView>) -> Option<OnError> {
    match v {
        Some(s) => s.on_error,
        None => None,
    }
}

/// The key of a section view, or `None` when the section is absent.
pub open spec fn view_small_file_threshold(v: Option<SectionView>) -> Option<u64> {
    match v {
        Some(s) => s.small_file_threshold,
        None => None,
    }
}

/// The key of a section view, or `None` when the section is absent.
pub open spec fn view_batch_concurrency(v: Option<SectionView>) -> Option<u64> {
    match v {
        Some(s) => s.batch_concurrency,
        None => None,
    }
}

/// The key of a section view, or `None` when the section is absent.
pub open spec fn view_preserve_permissions(v: Option<SectionView>) -> Option<bool> {
    match v {
        Some(s) => s.preserve_permissions,
        None => None,
    }
}

/// The key of a section view, or `None` when the section is absent.
pub open spec fn view_allow_fs_integrity_risk(v: Option<SectionView>) -> Option<bool> {
    match v {
        Some(s) => s.allow_fs_integrity_risk,
        None => None,
    }
}

/// The batching settings an operation runs with; `None` keeps the
/// builder's default.
#[derive(Debug, Clone, Copy, PartialEq, Eq, Structural)]
pub struct ResolvedBatch {
    pub on_error: Option<OnError>,
    pub small_file_threshold: Option<u64>,
    pub batch_concurrency: Option<u64>,
}

/// The safety settings an operation runs with.
#[derive(Debug, Clone, Copy, PartialEq, Eq, Structural)]
pub struct ResolvedSafety {
    pub preserve_permissions: bool,
    pub allow_fs_integrity_risk: bool,
}

/// Each batching setting resolved on its own: flag, then environment, then
/// section `section` of the config.
pub open spec fn spec_resolve_batch(section: Seq<char>, args: BatchArgs, config: Config, env: &Env) -> ResolvedBatch {
    let v = spec_config_section(config, section);
    ResolvedBatch {
        on_error: spec_resolve(args.on_error, env, section, "on-error"@, view_on_error(v)),
        small_file_threshold: spec_resolve(
            args.small_file_threshold,
            env,
            section,
            "small-file-threshold"@,
            view_small_file_threshold(v),
        ),
        batch_concurrency: spec_resolve(
            args.batch_concurrency,
            env,
            section,
            "batch-concurrency"@,
            view_batch_concurrency(v),
        ),
    }
}

/// With no flag and no environment value, an operation's error policy is
/// the one in its own section of the config file (none when that section
/// is absent).
pub proof fn law_on_error_falls_back_to_own_section(args: BatchArgs, c: Config, env: &Env)
    ensures
        (args.on_error is None && spec_env_value::<OnError>(env, "copy"@, "on-error"@) is None) ==> spec_resolve_batch("copy"@, args, c, env).on_error == (match c.copy {
            Some(s) => s.on_error,
            None => None,
        }),
        (args.on_error is None && spec_env_value::<OnError>(env, "mv"@, "on-error"@) is None) ==> spec_resolve_batch("mv"@, args, c, env).on_error == (match c.mv {
            Some(s) => s.on_error,
            None => None,
        }),
        (args.on_error is None && spec_env_value::<OnError>(env, "sync"@, "on-error"@) is None) ==> spec_resolve_batch("sync"@, args, c, env).on_error == (match c.sync {
            Some(s) => s.on_error,
            None => None,
        }),
        (args.on_error is None && spec_env_value::<OnError>(env, "compress"@, "on-error"@) is None) ==> spec_resolve_batch("compress"@, args, c, env).on_error == (match c.compress {
            Some(s) => s.on_error,
            None => None,
        }),
{
    law_section_view_reads_its_own_section(c, c);
}

/// Resolves the batching settings of section `section`.
pub fn resolve_batch(section: &str, args: &BatchArgs, config: &Config, env: &Env) -> (r: ResolvedBatch)
    ensures
        r == spec_resolve_batch(section@, *args, *config, env),
{
    let v = config_section(config, section);
    let (c_on_error, c_threshold, c_concurrency) = match v {
        Some(s) => (s.on_error, s.small_file_threshold, s.batch_concurrency),
        None => (None, None, None),
    };
    ResolvedBatch {
        on_error: resolve(args.on_error, section, "on-error", c_on_error, env),
        small_file_threshold: resolve(
            args.small_file_threshold,
            section,
            "small-file-threshold",
            c_threshold,
            env,
        ),
        batch_concurrency: resolve(
            args.batch_concurrency,
            section,
            "batch-concurrency",
            c_concurrency,
            env,
        ),
    }
}

/// Each safety flag resolved on its own: flag, then environment, then
/// section `section` of the config, else off.
pub open spec fn spec_resolve_safety(section: Seq<char>, args: FsSafetyArgs, config: Config, env: &Env) -> ResolvedSafety {
    let v = spec_config_section(config, section);
    ResolvedSafety {
        preserve_permissions: spec_resolve_bool(
            args.preserve_permissions,
            env,
            section,
            "preserve-permissions"@,
            view_preserve_permissions(v),
        ),
        allow_fs_integrity_risk: spec_resolve_bool(
            args.allow_fs_integrity_risk,
            env,
            section,
            "allow-fs-integrity-risk"@,
            view_allow_fs_integrity_risk(v),
        ),
    }
}

/// Resolves the safety flags of section `section`.
pub fn resolve_safety(section: &str, args: &FsSafetyArgs, config: &Config, env: &Env) -> (r: ResolvedSafety)
    ensures
        r == spec_resolve_safety(section@, *args, *config, env),
{
    let v = config_section(config, section);
    let (c_preserve, c_risk) = match v {
        Some(s) => (s.preserve_permissions, s.allow_fs_integrity_risk),
        None => (None, None),
    };
    ResolvedSafety {
        preserve_permissions: resolve_bool(
            args.preserve_permissions,
            section,
            "preserve-permissions",
            c_preserve,
            env,
        ),
        allow_fs_integrity_risk: resolve_bool(
            args.allow_fs_integrity_risk,
            section,
            "allow-fs-integrity-risk",
            c_risk,
            env,
        ),
    }
}

/// The message for an operation that could not be carried out.
pub fn context_message(verb: &str, source: &str, dest: &str) -> (r: String)
    ensures
        r@ == "could not "@ + verb@ + " \""@ + source@ + "\" to \""@ + dest@ + "\""@,
{
    let mut r = join3("could not ", verb, " \"");
    r.append(source);
    r.append("\" to \"");
    r.append(dest);
    r.append("\"");
    r
}

/// A key of an optional section, `None` when the section is absent.
pub open spec fn key_of<S, T>(section: Option<S>, get: spec_fn(S) -> Option<T>) -> Option<T> {
    match section {
        Some(s) => get(s),
        None => None,
    }
}

/// Everything `fsapp copy` runs with.
#[derive(Debug, Clone, Copy, PartialEq, Eq, Structural)]
pub struct CopySettings {
    pub batch: ResolvedBatch,
    pub safety: ResolvedSafety,
    pub overwrite: bool,
    pub max_bytes_per_batch: Option<u64>,
    pub max_files_per_batch: Option<u64>,
    pub sort_order: Option<SortOrder>,
}

/// `copy`'s settings, each resolved on its own against section `copy`.
pub open spec fn spec_resolve_copy(
    config: Config,
    env: &Env,
    batch: BatchArgs,
    safety: FsSafetyArgs,
    overwrite: bool,
    max_bytes_per_batch: Option<u64>,
    max_files_per_batch: Option<u64>,
    sort_order: Option<SortOrder>,
) -> CopySettings {
    CopySettings {
        batch: spec_resolve_batch("copy"@, batch, config, env),
        safety: spec_resolve_safety("copy"@, safety, config, env),
        overwrite: spec_resolve_bool(
            overwrite,
            env,
            "copy"@,
            "overwrite"@,
            key_of(config.copy, |c: crate::schema::CopySection| c.overwrite),
        ),
        max_bytes_per_batch: spec_resolve(
            max_bytes_per_batch,
            env,
            "copy"@,
            "max-bytes-per-batch"@,
            key_of(config.copy, |c: crate::schema::CopySection| c.max_bytes_per_batch),
        ),
        max_files_per_batch: spec_resolve(
            max_files_per_batch,
            env,
            "copy"@,
            "max-files-per-batch"@,
            key_of(config.copy, |c: crate::schema::CopySection| c.max_files_per_batch),
        ),
        sort_order: spec_resolve(
            sort_order,
            env,
            "copy"@,
            "sort-order"@,
            key_of(config.copy, |c: crate::schema::CopySection| c.sort_order),
        ),
    }
}

/// Resolves everything `fsapp copy` runs with.
pub fn resolve_copy(
    config: &Config,
    env: &Env,
    batch: &BatchArgs,
    safety: &FsSafetyArgs,
    overwrite: bool,
    max_bytes_per_batch: Option<u64>,
    max_files_per_batch: Option<u64>,
    sort_order: Option<SortOrder>,
) -> (r: CopySettings)
    ensures
        r == spec_resolve_copy(
            *config,
            env,
            *batch,
            *safety,
            overwrite,
            max_bytes_per_batch,
            max_files_per_batch,
            sort_order,
        ),
{
    let (c_overwrite, c_bytes, c_files, c_sort) = match &config.copy {
        Some(c) => (c.overwrite, c.max_bytes_per_batch, c.max_files_per_batch, c.sort_order),
        None => (None, None, None, None),
    };
    CopySettings {
        batch: resolve_batch("copy", batch, config, env),
        safety: resolve_safety("copy", safety, config, env),
        overwrite: resolve_bool(overwrite, "copy", "overwrite", c_overwrite, env),
        max_bytes_per_batch: resolve(max_bytes_per_batch, "copy", "max-bytes-per-batch", c_bytes, env),
        max_files_per_batch: resolve(max_files_per_batch, "copy", "max-files-per-batch", c_files, env),
        sort_order: resolve(sort_order, "copy", "sort-order", c_sort, env),
    }
}

/// Everything `fsapp mv` runs with.
#[derive(Debug, Clone, Copy, PartialEq, Eq, Structural)]
pub struct MvSettings {
    pub batch: ResolvedBatch,
    pub safety: ResolvedSafety,
    pub overwrite: bool,
}

/// Resolves everything `fsapp mv` runs with, against section `mv`.
pub fn resolve_mv(config: &Config, env: &Env, batch: &BatchArgs, safety: &FsSafetyArgs, overwrite: bool) -> (r: MvSettings)
    ensures
        r == (MvSettings {
            batch: spec_resolve_batch("mv"@, *batch, *config, env),
            safety: spec_resolve_safety("mv"@, *safety, *config, env),
            overwrite: spec_resolve_bool(
                overwrite,
                env,
                "mv"@,
                "overwrite"@,
                key_of(config.mv, |c: crate::schema::MvSection| c.overwrite),
            ),
        }),
{
    let c_overwrite = match &config.mv {
        Some(c) => c.overwrite,
        None => None,
    };
    MvSettings {
        batch: resolve_batch("mv", batch, config, env),
        safety: resolve_safety("mv", safety, config, env),
        overwrite: resolve_bool(overwrite, "mv", "overwrite", c_overwrite, env),
    }
}

/// Everything `fsapp sync` runs with.
#[derive(Debug, Clone, Copy, PartialEq, Eq, Structural)]
pub struct SyncSettings {
    pub batch: ResolvedBatch,
    pub safety: ResolvedSafety,
    pub no_overwrite: bool,
    pub checksum: bool,
}

/// Resolves everything `fsapp sync` runs with, against section `sync`.
pub fn resolve_sync(
    config: &Config,
    env: &Env,
    batch: &BatchArgs,
    safety: &FsSafetyArgs,
    no_overwrite: bool,
    checksum: bool,
) -> (r: SyncSettings)
    ensures
        r == (SyncSettings {
            batch: spec_resolve_batch("sync"@, *batch, *config, env),
            safety: spec_resolve_safety("sync"@, *safety, *config, env),
            no_overwrite: spec_resolve_bool(
                no_overwrite,
                env,
                "sync"@,
                "no-overwrite"@,
                key_of(config.sync, |c: crate::schema::SyncSection| c.no_overwrite),
            ),
            checksum: spec_resolve_bool(
                checksum,
                env,
                "sync"@,
                "checksum"@,
                key_of(config.sync, |c: crate::schema::SyncSection| c.checksum),
            ),
        }),
{
    let (c_no_overwrite, c_checksum) = match &config.sync {
        Some(c) => (c.no_overwrite, c.checksum),
        None => (None, None),
    };
    SyncSettings {
        batch: resolve_batch("sync", batch, config, env),
        safety: resolve_safety("sync", safety, config, env),
        no_overwrite: resolve_bool(no_overwrite, "sync", "no-overwrite", c_no_overwrite, env),
        checksum: resolve_bool(checksum, "sync", "checksum", c_checksum, env),
    }
}

/// Everything `fsapp compress` runs with.
#[derive(Debug, Clone, Copy, PartialEq, Eq, Structural)]
pub struct CompressSettings {
    pub batch: ResolvedBatch,
    pub format: Option<CompressFormat>,
}

/// Resolves everything `fsapp compress` runs with, against section
/// `compress`.
pub fn resolve_compress(config: &Config, env: &Env, batch: &BatchArgs, format: Option<CompressFormat>) -> (r: CompressSettings)
    ensures
        r == (CompressSettings {
            batch: spec_resolve_batch("compress"@, *batch, *config, env),
            format: spec_resolve(
                format,
                env,
                "compress"@,
                "format"@,
                key_of(config.compress, |c: crate::schema::CompressSection| c.format),
            ),
        }),
{
    let c_format = match &config.compress {
        Some(c) => c.format,
        None => None,
    };
    CompressSettings {
        batch: resolve_batch("compress", batch, config, env),
        format: resolve(format, "compress", "format", c_format, env),
    }
}

/// Whether `fsapp watch` descends into subdirectories: the builder's
/// default of on, unless `--no-recursive` was given.
pub fn watch_recursive(no_recursive: bool) -> (r: bool)
    ensures
        r == !no_recursive,
{
    !no_recursive
}

/// The settings that apply to every command.
#[derive(Debug, Clone, Copy, PartialEq, Eq, Structural)]
pub struct GlobalSettings {
    pub verbosity: u8,
    pub quiet: bool,
}

/// Resolves `-v` and `-q`: any `-v` on the command line wins; otherwise the
/// environment's or config's verbosity, else 0.
pub fn resolve_global(cli_verbose: u8, cli_quiet: bool, config: &Config, env: &Env) -> (r: GlobalSettings)
    ensures
        r.verbosity == if cli_verbose > 0 {
            cli_verbose
        } else {
            match spec_resolve(
                None,
                env,
                "global"@,
                "verbosity"@,
                key_of(config.global, |g: crate::schema::GlobalSection| g.verbosity),
            ) {
                Some(v) => v,
                None => 0,
            }
        },
        r.quiet == spec_resolve_bool(
            cli_quiet,
            env,
            "global"@,
            "quiet"@,
            key_of(config.global, |g: crate::schema::GlobalSection| g.quiet),
        ),
{
    let (c_verbosity, c_quiet) = match &config.global {
        Some(g) => (g.verbosity, g.quiet),
        None => (None, None),
    };
    let verbosity = if cli_verbose > 0 {
        cli_verbose
    } else {
        match resolve(None, "global", "verbosity", c_verbosity, env) {
            Some(v) => v,
            None => 0,
        }
    };
    GlobalSettings { verbosity, quiet: resolve_bool(cli_quiet, "global", "quiet", c_quiet, env) }
}

/// How much the log shows.
#[derive(Debug, Clone, Copy, PartialEq, Eq, Structural)]
pub enum LogLevel {
    Warn,
    Info,
    Debug,
    Trace,
}

/// The log level for a verbosity: 0 warnings only, 1 info, 2 debug, more
/// trace.
pub fn log_level(verbosity: u8) -> (r: LogLevel)
    ensures
        r == if verbosity == 0 {
            LogLevel::Warn
        } else if verbosity == 1 {
            LogLevel::Info
        } else if verbosity == 2 {
            LogLevel::Debug
        } else {
            LogLevel::Trace
        },
{
    match verbosity {
        0 => LogLevel::Warn,
        1 => LogLevel::Info,
        2 => LogLevel::Debug,
        _ => LogLevel::Trace,
    }
}

} // verus!
