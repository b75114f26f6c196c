//! `<section>.<key>` addressing for `fset get`, `fset set` and `fset unset`:
//! the one place that knows how each key's text maps to its typed field.

use vstd::prelude::*;

use crate::enums::{CompressFormat, OnError, SortOrder};
use crate::schema::{
    CompressSection, Config, CopySection, GlobalSection, MvSection, SyncSection, UpdateSection,
    WatchSection,
};
use crate::text::{
    dec, fmt_u64, is_digit, join2, lemma_dec_roundtrip, owned, parse_unsigned, spec_parse_unsigned,
    str_eq, unsigned_body,
};

verus! {

/// The type of a config key's value.
#[derive(Clone, Copy, Debug, PartialEq, Eq, Structural)]
pub enum ValueKind {
    U8,
    U64,
    Bool,
    OnError,
    SortOrder,
    CompressFormat,
}

/// A typed value of one config key.
#[derive(Clone, Copy, Debug, PartialEq, Eq, Structural)]
pub enum FieldValue {
    U8(u8),
    U64(u64),
    Bool(bool),
    OnError(OnError),
    SortOrder(SortOrder),
    CompressFormat(CompressFormat),
}

impl FieldValue {
    /// The type of this value.
    pub open spec fn kind(self) -> ValueKind {
        match self {
            FieldValue::U8(_) => ValueKind::U8,
            FieldValue::U64(_) => ValueKind::U64,
            FieldValue::Bool(_) => ValueKind::Bool,
            FieldValue::OnError(_) => ValueKind::OnError,
            FieldValue::SortOrder(_) => ValueKind::SortOrder,
            FieldValue::CompressFormat(_) => ValueKind::CompressFormat,
        }
    }
}

/// The `u8` held by a value of kind `U8`.
pub open spec fn value_u8(v: FieldValue) -> u8 {
    match v {
        FieldValue::U8(x) => x,
        _ => 0,
    }
}

/// The `u64` held by a value of kind `U64`.
pub open spec fn value_u64(v: FieldValue) -> u64 {
    match v {
        FieldValue::U64(x) => x,
        _ => 0,
    }
}

/// The `bool` held by a value of kind `Bool`.
pub open spec fn value_bool(v: FieldValue) -> bool {
    match v {
        FieldValue::Bool(x) => x,
        _ => false,
    }
}

/// The `OnError` held by a value of kind `OnError`.
pub open spec fn value_on_error(v: FieldValue) -> OnError {
    match v {
        FieldValue::OnError(x) => x,
        _ => OnError::Continue,
    }
}

/// The `SortOrder` held by a value of kind `SortOrder`.
pub open spec fn value_sort_order(v: FieldValue) -> SortOrder {
    match v {
        FieldValue::SortOrder(x) => x,
        _ => SortOrder::Desc,
    }
}

/// The `CompressFormat` held by a value of kind `CompressFormat`.
pub open spec fn value_compress_format(v: FieldValue) -> CompressFormat {
    match v {
        FieldValue::CompressFormat(x) => x,
        _ => CompressFormat::Zip,
    }
}

/// Every key that `fset get`, `set` and `unset` address.
#[derive(Clone, Copy, Debug, PartialEq, Eq, Structural)]
pub enum ConfigKey {
    GlobalVerbosity,
    GlobalQuiet,
    CopyOnError,
    CopySmallFileThreshold,
    CopyBatchConcurrency,
    CopyPreservePermissions,
    CopyAllowFsIntegrityRisk,
    CopyOverwrite,
    CopyMaxBytesPerBatch,
    CopyMaxFilesPerBatch,
    CopySortOrder,
    MvOnError,
    MvSmallFileThreshold,
    MvBatchConcurrency,
    MvPreservePermissions,
    MvAllowFsIntegrityRisk,
    MvOverwrite,
    SyncOnError,
    SyncSmallFileThreshold,
    SyncBatchConcurrency,
    SyncPreservePermissions,
    SyncAllowFsIntegrityRisk,
    SyncNoOverwrite,
    SyncChecksum,
    WatchNoRecursive,
    CompressOnError,
    CompressSmallFileThreshold,
    CompressBatchConcurrency,
    CompressFormat,
    UpdateNoCheck,
}

impl ConfigKey {
    /// The section part of the key's name.
    pub open spec fn spec_section(self) -> Seq<char> {
        match self {
            ConfigKey::GlobalVerbosity => "global"@,
            ConfigKey::GlobalQuiet => "global"@,
            ConfigKey::CopyOnError => "copy"@,
            ConfigKey::CopySmallFileThreshold => "copy"@,
            ConfigKey::CopyBatchConcurrency => "copy"@,
            ConfigKey::CopyPreservePermissions => "copy"@,
            ConfigKey::CopyAllowFsIntegrityRisk => "copy"@,
            ConfigKey::CopyOverwrite => "copy"@,
            ConfigKey::CopyMaxBytesPerBatch => "copy"@,
            ConfigKey::CopyMaxFilesPerBatch => "copy"@,
            ConfigKey::CopySortOrder => "copy"@,
            ConfigKey::MvOnError => "mv"@,
            ConfigKey::MvSmallFileThreshold => "mv"@,
            ConfigKey::MvBatchConcurrency => "mv"@,
            ConfigKey::MvPreservePermissions => "mv"@,
            ConfigKey::MvAllowFsIntegrityRisk => "mv"@,
            ConfigKey::MvOverwrite => "mv"@,
            ConfigKey::SyncOnError => "sync"@,
            ConfigKey::SyncSmallFileThreshold => "sync"@,
            ConfigKey::SyncBatchConcurrency => "sync"@,
            ConfigKey::SyncPreservePermissions => "sync"@,
            ConfigKey::SyncAllowFsIntegrityRisk => "sync"@,
            ConfigKey::SyncNoOverwrite => "sync"@,
            ConfigKey::SyncChecksum => "sync"@,
            ConfigKey::WatchNoRecursive => "watch"@,
            ConfigKey::CompressOnError => "compress"@,
            ConfigKey::CompressSmallFileThreshold => "compress"@,
            ConfigKey::CompressBatchConcurrency => "compress"@,
            ConfigKey::CompressFormat => "compress"@,
            ConfigKey::UpdateNoCheck => "update"@,
        }
    }

    /// The key part of the key's name.
    pub open spec fn spec_key(self) -> Seq<char> {
        match self {
            ConfigKey::GlobalVerbosity => "verbosity"@,
            ConfigKey::GlobalQuiet => "quiet"@,
            ConfigKey::CopyOnError => "on-error"@,
            ConfigKey::CopySmallFileThreshold => "small-file-threshold"@,
            ConfigKey::CopyBatchConcurrency => "batch-concurrency"@,
            ConfigKey::CopyPreservePermissions => "preserve-permissions"@,
            ConfigKey::CopyAllowFsIntegrityRisk => "allow-fs-integrity-risk"@,
            ConfigKey::CopyOverwrite => "overwrite"@,
            ConfigKey::CopyMaxBytesPerBatch => "max-bytes-per-batch"@,
            ConfigKey::CopyMaxFilesPerBatch => "max-files-per-batch"@,
            ConfigKey::CopySortOrder => "sort-order"@,
            ConfigKey::MvOnError => "on-error"@,
            ConfigKey::MvSmallFileThreshold => "small-file-threshold"@,
            ConfigKey::MvBatchConcurrency => "batch-concurrency"@,
            ConfigKey::MvPreservePermissions => "preserve-permissions"@,
            ConfigKey::MvAllowFsIntegrityRisk => "allow-fs-integrity-risk"@,
            ConfigKey::MvOverwrite => "overwrite"@,
            ConfigKey::SyncOnError => "on-error"@,
            ConfigKey::SyncSmallFileThreshold => "small-file-threshold"@,
            ConfigKey::SyncBatchConcurrency => "batch-concurrency"@,
            ConfigKey::SyncPreservePermissions => "preserve-permissions"@,
            ConfigKey::SyncAllowFsIntegrityRisk => "allow-fs-integrity-risk"@,
            ConfigKey::SyncNoOverwrite => "no-overwrite"@,
            ConfigKey::SyncChecksum => "checksum"@,
            ConfigKey::WatchNoRecursive => "no-recursive"@,
            ConfigKey::CompressOnError => "on-error"@,
            ConfigKey::CompressSmallFileThreshold => "small-file-threshold"@,
            ConfigKey::CompressBatchConcurrency => "batch-concurrency"@,
            ConfigKey::CompressFormat => "format"@,
            ConfigKey::UpdateNoCheck => "no-check"@,
        }
    }

    /// The type of the key's value.
    pub open spec fn kind(self) -> ValueKind {
        match self {
            ConfigKey::GlobalVerbosity => ValueKind::U8,
            ConfigKey::GlobalQuiet => ValueKind::Bool,
            ConfigKey::CopyOnError => ValueKind::OnError,
            ConfigKey::CopySmallFileThreshold => ValueKind::U64,
            ConfigKey::CopyBatchConcurrency => ValueKind::U64,
            ConfigKey::CopyPreservePermissions => ValueKind::Bool,
            ConfigKey::CopyAllowFsIntegrityRisk => ValueKind::Bool,
            ConfigKey::CopyOverwrite => ValueKind::Bool,
            ConfigKey::CopyMaxBytesPerBatch => ValueKind::U64,
            ConfigKey::CopyMaxFilesPerBatch => ValueKind::U64,
            ConfigKey::CopySortOrder => ValueKind::SortOrder,
            ConfigKey::MvOnError => ValueKind::OnError,
            ConfigKey::MvSmallFileThreshold => ValueKind::U64,
            ConfigKey::MvBatchConcurrency => ValueKind::U64,
            ConfigKey::MvPreservePermissions => ValueKind::Bool,
            ConfigKey::MvAllowFsIntegrityRisk => ValueKind::Bool,
            ConfigKey::MvOverwrite => ValueKind::Bool,
            ConfigKey::SyncOnError => ValueKind::OnError,
            ConfigKey::SyncSmallFileThreshold => ValueKind::U64,
            ConfigKey::SyncBatchConcurrency => ValueKind::U64,
            ConfigKey::SyncPreservePermissions => ValueKind::Bool,
            ConfigKey::SyncAllowFsIntegrityRisk => ValueKind::Bool,
            ConfigKey::SyncNoOverwrite => ValueKind::Bool,
            ConfigKey::SyncChecksum => ValueKind::Bool,
            ConfigKey::WatchNoRecursive => ValueKind::Bool,
            ConfigKey::CompressOnError => ValueKind::OnError,
            ConfigKey::CompressSmallFileThreshold => ValueKind::U64,
            ConfigKey::CompressBatchConcurrency => ValueKind::U64,
            ConfigKey::CompressFormat => ValueKind::CompressFormat,
            ConfigKey::UpdateNoCheck => ValueKind::Bool,
        }
    }

    /// The type of the key's value.
    pub fn value_kind(&self) -> (r: ValueKind)
        ensures
            r == self.kind(),
    {
        match self {
            ConfigKey::GlobalVerbosity => ValueKind::U8,
            ConfigKey::GlobalQuiet => ValueKind::Bool,
            ConfigKey::CopyOnError => ValueKind::OnError,
            ConfigKey::CopySmallFileThreshold => ValueKind::U64,
            ConfigKey::CopyBatchConcurrency => ValueKind::U64,
            ConfigKey::CopyPreservePermissions => ValueKind::Bool,
            ConfigKey::CopyAllowFsIntegrityRisk => ValueKind::Bool,
            ConfigKey::CopyOverwrite => ValueKind::Bool,
            ConfigKey::CopyMaxBytesPerBatch => ValueKind::U64,
            ConfigKey::CopyMaxFilesPerBatch => ValueKind::U64,
            ConfigKey::CopySortOrder => ValueKind::SortOrder,
            ConfigKey::MvOnError => ValueKind::OnError,
            ConfigKey::MvSmallFileThreshold => ValueKind::U64,
            ConfigKey::MvBatchConcurrency => ValueKind::U64,
            ConfigKey::MvPreservePermissions => ValueKind::Bool,
            ConfigKey::MvAllowFsIntegrityRisk => ValueKind::Bool,
            ConfigKey::MvOverwrite => ValueKind::Bool,
            ConfigKey::SyncOnError => ValueKind::OnError,
            ConfigKey::SyncSmallFileThreshold => ValueKind::U64,
            ConfigKey::SyncBatchConcurrency => ValueKind::U64,
            ConfigKey::SyncPreservePermissions => ValueKind::Bool,
            ConfigKey::SyncAllowFsIntegrityRisk => ValueKind::Bool,
            ConfigKey::SyncNoOverwrite => ValueKind::Bool,
            ConfigKey::SyncChecksum => ValueKind::Bool,
            ConfigKey::WatchNoRecursive => ValueKind::Bool,
            ConfigKey::CompressOnError => ValueKind::OnError,
            ConfigKey::CompressSmallFileThreshold => ValueKind::U64,
            ConfigKey::CompressBatchConcurrency => ValueKind::U64,
            ConfigKey::CompressFormat => ValueKind::CompressFormat,
            ConfigKey::UpdateNoCheck => ValueKind::Bool,
        }
    }
}

/// The key named `<section>.<key>`, if there is one.
pub open spec fn spec_lookup(section: Seq<char>, key: Seq<char>) -> Option<ConfigKey> {
    if section == "global"@ && key == "verbosity"@ {
        Some(ConfigKey::GlobalVerbosity)
    } else if section == "global"@ && key == "quiet"@ {
        Some(ConfigKey::GlobalQuiet)
    } else if section == "copy"@ && key == "on-error"@ {
        Some(ConfigKey::CopyOnError)
    } else if section == "copy"@ && key == "small-file-threshold"@ {
        Some(ConfigKey::CopySmallFileThreshold)
    } else if section == "copy"@ && key == "batch-concurrency"@ {
        Some(ConfigKey::CopyBatchConcurrency)
    } else if section == "copy"@ && key == "preserve-permissions"@ {
        Some(ConfigKey::CopyPreservePermissions)
    } else if section == "copy"@ && key == "allow-fs-integrity-risk"@ {
        Some(ConfigKey::CopyAllowFsIntegrityRisk)
    } else if section == "copy"@ && key == "overwrite"@ {
        Some(ConfigKey::CopyOverwrite)
    } else if section == "copy"@ && key == "max-bytes-per-batch"@ {
        Some(ConfigKey::CopyMaxBytesPerBatch)
    } else if section == "copy"@ && key == "max-files-per-batch"@ {
        Some(ConfigKey::CopyMaxFilesPerBatch)
    } else if section == "copy"@ && key == "sort-order"@ {
        Some(ConfigKey::CopySortOrder)
    } else if section == "mv"@ && key == "on-error"@ {
        Some(ConfigKey::MvOnError)
    } else if section == "mv"@ && key == "small-file-threshold"@ {
        Some(ConfigKey::MvSmallFileThreshold)
    } else if section == "mv"@ && key == "batch-concurrency"@ {
        Some(ConfigKey::MvBatchConcurrency)
    } else if section == "mv"@ && key == "preserve-permissions"@ {
        Some(ConfigKey::MvPreservePermissions)
    } else if section == "mv"@ && key == "allow-fs-integrity-risk"@ {
        Some(ConfigKey::MvAllowFsIntegrityRisk)
    } else if section == "mv"@ && key == "overwrite"@ {
        Some(ConfigKey::MvOverwrite)
    } else if section == "sync"@ && key == "on-error"@ {
        Some(ConfigKey::SyncOnError)
    } else if section == "sync"@ && key == "small-file-threshold"@ {
        Some(ConfigKey::SyncSmallFileThreshold)
    } else if section == "sync"@ && key == "batch-concurrency"@ {
        Some(ConfigKey::SyncBatchConcurrency)
    } else if section == "sync"@ && key == "preserve-permissions"@ {
        Some(ConfigKey::SyncPreservePermissions)
    } else if section == "sync"@ && key == "allow-fs-integrity-risk"@ {
        Some(ConfigKey::SyncAllowFsIntegrityRisk)
    } else if section == "sync"@ && key == "no-overwrite"@ {
        Some(ConfigKey::SyncNoOverwrite)
    } else if section == "sync"@ && key == "checksum"@ {
        Some(ConfigKey::SyncChecksum)
    } else if section == "watch"@ && key == "no-recursive"@ {
        Some(ConfigKey::WatchNoRecursive)
    } else if section == "compress"@ && key == "on-error"@ {
        Some(ConfigKey::CompressOnError)
    } else if section == "compress"@ && key == "small-file-threshold"@ {
        Some(ConfigKey::CompressSmallFileThreshold)
    } else if section == "compress"@ && key == "batch-concurrency"@ {
        Some(ConfigKey::CompressBatchConcurrency)
    } else if section == "compress"@ && key == "format"@ {
        Some(ConfigKey::CompressFormat)
    } else if section == "update"@ && key == "no-check"@ {
        Some(ConfigKey::UpdateNoCheck)
    } else {
        None
    }
}

/// Finds the key named `<section>.<key>`.
pub fn lookup_key(section: &str, key: &str) -> (r: Option<ConfigKey>)
    ensures
        r == spec_lookup(section@, key@),
{
    if str_eq(section, "global") && str_eq(key, "verbosity") {
        Some(ConfigKey::GlobalVerbosity)
    } else if str_eq(section, "global") && str_eq(key, "quiet") {
        Some(ConfigKey::GlobalQuiet)
    } else if str_eq(section, "copy") && str_eq(key, "on-error") {
        Some(ConfigKey::CopyOnError)
    } else if str_eq(section, "copy") && str_eq(key, "small-file-threshold") {
        Some(ConfigKey::CopySmallFileThreshold)
    } else if str_eq(section, "copy") && str_eq(key, "batch-concurrency") {
        Some(ConfigKey::CopyBatchConcurrency)
    } else if str_eq(section, "copy") && str_eq(key, "preserve-permissions") {
        Some(ConfigKey::CopyPreservePermissions)
    } else if str_eq(section, "copy") && str_eq(key, "allow-fs-integrity-risk") {
        Some(ConfigKey::CopyAllowFsIntegrityRisk)
    } else if str_eq(section, "copy") && str_eq(key, "overwrite") {
        Some(ConfigKey::CopyOverwrite)
    } else if str_eq(section, "copy") && str_eq(key, "max-bytes-per-batch") {
        Some(ConfigKey::CopyMaxBytesPerBatch)
    } else if str_eq(section, "copy") && str_eq(key, "max-files-per-batch") {
        Some(ConfigKey::CopyMaxFilesPerBatch)
    } else if str_eq(section, "copy") && str_eq(key, "sort-order") {
        Some(ConfigKey::CopySortOrder)
    } else if str_eq(section, "mv") && str_eq(key, "on-error") {
        Some(ConfigKey::MvOnError)
    } else if str_eq(section, "mv") && str_eq(key, "small-file-threshold") {
        Some(ConfigKey::MvSmallFileThreshold)
    } else if str_eq(section, "mv") && str_eq(key, "batch-concurrency") {
        Some(ConfigKey::MvBatchConcurrency)
    } else if str_eq(section, "mv") && str_eq(key, "preserve-permissions") {
        Some(ConfigKey::MvPreservePermissions)
    } else if str_eq(section, "mv") && str_eq(key, "allow-fs-integrity-risk") {
        Some(ConfigKey::MvAllowFsIntegrityRisk)
    } else if str_eq(section, "mv") && str_eq(key, "overwrite") {
        Some(ConfigKey::MvOverwrite)
    } else if str_eq(section, "sync") && str_eq(key, "on-error") {
        Some(ConfigKey::SyncOnError)
    } else if str_eq(section, "sync") && str_eq(key, "small-file-threshold") {
        Some(ConfigKey::SyncSmallFileThreshold)
    } else if str_eq(section, "sync") && str_eq(key, "batch-concurrency") {
        Some(ConfigKey::SyncBatchConcurrency)
    } else if str_eq(section, "sync") && str_eq(key, "preserve-permissions") {
        Some(ConfigKey::SyncPreservePermissions)
    } else if str_eq(section, "sync") && str_eq(key, "allow-fs-integrity-risk") {
        Some(ConfigKey::SyncAllowFsIntegrityRisk)
    } else if str_eq(section, "sync") && str_eq(key, "no-overwrite") {
        Some(ConfigKey::SyncNoOverwrite)
    } else if str_eq(section, "sync") && str_eq(key, "checksum") {
        Some(ConfigKey::SyncChecksum)
    } else if str_eq(section, "watch") && str_eq(key, "no-recursive") {
        Some(ConfigKey::WatchNoRecursive)
    } else if str_eq(section, "compress") && str_eq(key, "on-error") {
        Some(ConfigKey::CompressOnError)
    } else if str_eq(section, "compress") && str_eq(key, "small-file-threshold") {
        Some(ConfigKey::CompressSmallFileThreshold)
    } else if str_eq(section, "compress") && str_eq(key, "batch-concurrency") {
        Some(ConfigKey::CompressBatchConcurrency)
    } else if str_eq(section, "compress") && str_eq(key, "format") {
        Some(ConfigKey::CompressFormat)
    } else if str_eq(section, "update") && str_eq(key, "no-check") {
        Some(ConfigKey::UpdateNoCheck)
    } else {
        None
    }
}

/// A key found under a name has that name.
pub proof fn law_lookup_name(section: Seq<char>, key: Seq<char>)
    ensures
        spec_lookup(section, key) matches Some(k) ==> k.spec_section() == section && k.spec_key()
            == key,
{
}

/// The current value of key `k` in `c`: `None` when its section or the key
/// itself is absent.
pub open spec fn spec_field(c: Config, k: ConfigKey) -> Option<FieldValue> {
    match k {
        ConfigKey::GlobalVerbosity => match c.global {
            Some(s) => match s.verbosity {
                Some(x) => Some(FieldValue::U8(x)),
                None => None,
            },
            None => None,
        },
        ConfigKey::GlobalQuiet => match c.global {
            Some(s) => match s.quiet {
                Some(x) => Some(FieldValue::Bool(x)),
                None => None,
            },
            None => None,
        },
        ConfigKey::CopyOnError => match c.copy {
            Some(s) => match s.on_error {
                Some(x) => Some(FieldValue::OnError(x)),
                None => None,
            },
            None => None,
        },
        ConfigKey::CopySmallFileThreshold => match c.copy {
            Some(s) => match s.small_file_threshold {
                Some(x) => Some(FieldValue::U64(x)),
                None => None,
            },
            None => None,
        },
        ConfigKey::CopyBatchConcurrency => match c.copy {
            Some(s) => match s.batch_concurrency {
                Some(x) => Some(FieldValue::U64(x)),
                None => None,
            },
            None => None,
        },
        ConfigKey::CopyPreservePermissions => match c.copy {
            Some(s) => match s.preserve_permissions {
                Some(x) => Some(FieldValue::Bool(x)),
                None => None,
            },
            None => None,
        },
        ConfigKey::CopyAllowFsIntegrityRisk => match c.copy {
            Some(s) => match s.allow_fs_integrity_risk {
                Some(x) => Some(FieldValue::Bool(x)),
                None => None,
            },
            None => None,
        },
        ConfigKey::CopyOverwrite => match c.copy {
            Some(s) => match s.overwrite {
                Some(x) => Some(FieldValue::Bool(x)),
                None => None,
            },
            None => None,
        },
        ConfigKey::CopyMaxBytesPerBatch => match c.copy {
            Some(s) => match s.max_bytes_per_batch {
                Some(x) => Some(FieldValue::U64(x)),
                None => None,
            },
            None => None,
        },
        ConfigKey::CopyMaxFilesPerBatch => match c.copy {
            Some(s) => match s.max_files_per_batch {
                Some(x) => Some(FieldValue::U64(x)),
                None => None,
            },
            None => None,
        },
        ConfigKey::CopySortOrder => match c.copy {
            Some(s) => match s.sort_order {
                Some(x) => Some(FieldValue::SortOrder(x)),
                None => None,
            },
            None => None,
        },
        ConfigKey::MvOnError => match c.mv {
            Some(s) => match s.on_error {
                Some(x) => Some(FieldValue::OnError(x)),
                None => None,
            },
            None => None,
        },
        ConfigKey::MvSmallFileThreshold => match c.mv {
            Some(s) => match s.small_file_threshold {
                Some(x) => Some(FieldValue::U64(x)),
                None => None,
            },
            None => None,
        },
        ConfigKey::MvBatchConcurrency => match c.mv {
            Some(s) => match s.batch_concurrency {
                Some(x) => Some(FieldValue::U64(x)),
                None => None,
            },
            None => None,
        },
        ConfigKey::MvPreservePermissions => match c.mv {
            Some(s) => match s.preserve_permissions {
                Some(x) => Some(FieldValue::Bool(x)),
                None => None,
            },
            None => None,
        },
        ConfigKey::MvAllowFsIntegrityRisk => match c.mv {
            Some(s) => match s.allow_fs_integrity_risk {
                Some(x) => Some(FieldValue::Bool(x)),
                None => None,
            },
            None => None,
        },
        ConfigKey::MvOverwrite => match c.mv {
            Some(s) => match s.overwrite {
                Some(x) => Some(FieldValue::Bool(x)),
                None => None,
            },
            None => None,
        },
        ConfigKey::SyncOnError => match c.sync {
            Some(s) => match s.on_error {
                Some(x) => Some(FieldValue::OnError(x)),
                None => None,
            },
            None => None,
        },
        ConfigKey::SyncSmallFileThreshold => match c.sync {
            Some(s) => match s.small_file_threshold {
                Some(x) => Some(FieldValue::U64(x)),
                None => None,
            },
            None => None,
        },
        ConfigKey::SyncBatchConcurrency => match c.sync {
            Some(s) => match s.batch_concurrency {
                Some(x) => Some(FieldValue::U64(x)),
                None => None,
            },
            None => None,
        },
        ConfigKey::SyncPreservePermissions => match c.sync {
            Some(s) => match s.preserve_permissions {
                Some(x) => Some(FieldValue::Bool(x)),
                None => None,
            },
            None => None,
        },
        ConfigKey::SyncAllowFsIntegrityRisk => match c.sync {
            Some(s) => match s.allow_fs_integrity_risk {
                Some(x) => Some(FieldValue::Bool(x)),
                None => None,
            },
            None => None,
        },
        ConfigKey::SyncNoOverwrite => match c.sync {
            Some(s) => match s.no_overwrite {
                Some(x) => Some(FieldValue::Bool(x)),
                None => None,
            },
            None => None,
        },
        ConfigKey::SyncChecksum => match c.sync {
            Some(s) => match s.checksum {
                Some(x) => Some(FieldValue::Bool(x)),
                None => None,
            },
            None => None,
        },
        ConfigKey::WatchNoRecursive => match c.watch {
            Some(s) => match s.no_recursive {
                Some(x) => Some(FieldValue::Bool(x)),
                None => None,
            },
            None => None,
        },
        ConfigKey::CompressOnError => match c.compress {
            Some(s) => match s.on_error {
                Some(x) => Some(FieldValue::OnError(x)),
                None => None,
            },
            None => None,
        },
        ConfigKey::CompressSmallFileThreshold => match c.compress {
            Some(s) => match s.small_file_threshold {
                Some(x) => Some(FieldValue::U64(x)),
                None => None,
            },
            None => None,
        },
        ConfigKey::CompressBatchConcurrency => match c.compress {
            Some(s) => match s.batch_concurrency {
                Some(x) => Some(FieldValue::U64(x)),
                None => None,
            },
            None => None,
        },
        ConfigKey::CompressFormat => match c.compress {
            Some(s) => match s.format {
                Some(x) => Some(FieldValue::CompressFormat(x)),
                None => None,
            },
            None => None,
        },
        ConfigKey::UpdateNoCheck => match c.update {
            Some(s) => match s.no_check {
                Some(x) => Some(FieldValue::Bool(x)),
                None => None,
            },
            None => None,
        },
    }
}

/// Reads the current value of key `k`.
pub fn field(c: &Config, k: ConfigKey) -> (r: Option<FieldValue>)
    ensures
        r == spec_field(*c, k),
{
    match k {
        ConfigKey::GlobalVerbosity => match c.global {
            Some(s) => match s.verbosity {
                Some(x) => Some(FieldValue::U8(x)),
                None => None,
            },
            None => None,
        },
        ConfigKey::GlobalQuiet => match c.global {
            Some(s) => match s.quiet {
                Some(x) => Some(FieldValue::Bool(x)),
                None => None,
            },
            None => None,
        },
        ConfigKey::CopyOnError => match c.copy {
            Some(s) => match s.on_error {
                Some(x) => Some(FieldValue::OnError(x)),
                None => None,
            },
            None => None,
        },
        ConfigKey::CopySmallFileThreshold => match c.copy {
            Some(s) => match s.small_file_threshold {
                Some(x) => Some(FieldValue::U64(x)),
                None => None,
            },
            None => None,
        },
        ConfigKey::CopyBatchConcurrency => match c.copy {
            Some(s) => match s.batch_concurrency {
                Some(x) => Some(FieldValue::U64(x)),
                None => None,
            },
            None => None,
        },
        ConfigKey::CopyPreservePermissions => match c.copy {
            Some(s) => match s.preserve_permissions {
                Some(x) => Some(FieldValue::Bool(x)),
                None => None,
            },
            None => None,
        },
        ConfigKey::CopyAllowFsIntegrityRisk => match c.copy {
            Some(s) => match s.allow_fs_integrity_risk {
                Some(x) => Some(FieldValue::Bool(x)),
                None => None,
            },
            None => None,
        },
        ConfigKey::CopyOverwrite => match c.copy {
            Some(s) => match s.overwrite {
                Some(x) => Some(FieldValue::Bool(x)),
                None => None,
            },
            None => None,
        },
        ConfigKey::CopyMaxBytesPerBatch => match c.copy {
            Some(s) => match s.max_bytes_per_batch {
                Some(x) => Some(FieldValue::U64(x)),
                None => None,
            },
            None => None,
        },
        ConfigKey::CopyMaxFilesPerBatch => match c.copy {
            Some(s) => match s.max_files_per_batch {
                Some(x) => Some(FieldValue::U64(x)),
                None => None,
            },
            None => None,
        },
        ConfigKey::CopySortOrder => match c.copy {
            Some(s) => match s.sort_order {
                Some(x) => Some(FieldValue::SortOrder(x)),
                None => None,
            },
            None => None,
        },
        ConfigKey::MvOnError => match c.mv {
            Some(s) => match s.on_error {
                Some(x) => Some(FieldValue::OnError(x)),
                None => None,
            },
            None => None,
        },
        ConfigKey::MvSmallFileThreshold => match c.mv {
            Some(s) => match s.small_file_threshold {
                Some(x) => Some(FieldValue::U64(x)),
                None => None,
            },
            None => None,
        },
        ConfigKey::MvBatchConcurrency => match c.mv {
            Some(s) => match s.batch_concurrency {
                Some(x) => Some(FieldValue::U64(x)),
                None => None,
            },
            None => None,
        },
        ConfigKey::MvPreservePermissions => match c.mv {
            Some(s) => match s.preserve_permissions {
                Some(x) => Some(FieldValue::Bool(x)),
                None => None,
            },
            None => None,
        },
        ConfigKey::MvAllowFsIntegrityRisk => match c.mv {
            Some(s) => match s.allow_fs_integrity_risk {
                Some(x) => Some(FieldValue::Bool(x)),
                None => None,
            },
            None => None,
        },
        ConfigKey::MvOverwrite => match c.mv {
            Some(s) => match s.overwrite {
                Some(x) => Some(FieldValue::Bool(x)),
                None => None,
            },
            None => None,
        },
        ConfigKey::SyncOnError => match c.sync {
            Some(s) => match s.on_error {
                Some(x) => Some(FieldValue::OnError(x)),
                None => None,
            },
            None => None,
        },
        ConfigKey::SyncSmallFileThreshold => match c.sync {
            Some(s) => match s.small_file_threshold {
                Some(x) => Some(FieldValue::U64(x)),
                None => None,
            },
            None => None,
        },
        ConfigKey::SyncBatchConcurrency => match c.sync {
            Some(s) => match s.batch_concurrency {
                Some(x) => Some(FieldValue::U64(x)),
                None => None,
            },
            None => None,
        },
        ConfigKey::SyncPreservePermissions => match c.sync {
            Some(s) => match s.preserve_permissions {
                Some(x) => Some(FieldValue::Bool(x)),
                None => None,
            },
            None => None,
        },
        ConfigKey::SyncAllowFsIntegrityRisk => match c.sync {
            Some(s) => match s.allow_fs_integrity_risk {
                Some(x) => Some(FieldValue::Bool(x)),
                None => None,
            },
            None => None,
        },
        ConfigKey::SyncNoOverwrite => match c.sync {
            Some(s) => match s.no_overwrite {
                Some(x) => Some(FieldValue::Bool(x)),
                None => None,
            },
            None => None,
        },
        ConfigKey::SyncChecksum => match c.sync {
            Some(s) => match s.checksum {
                Some(x) => Some(FieldValue::Bool(x)),
                None => None,
            },
            None => None,
        },
        ConfigKey::WatchNoRecursive => match c.watch {
            Some(s) => match s.no_recursive {
                Some(x) => Some(FieldValue::Bool(x)),
                None => None,
            },
            None => None,
        },
        ConfigKey::CompressOnError => match c.compress {
            Some(s) => match s.on_error {
                Some(x) => Some(FieldValue::OnError(x)),
                None => None,
            },
            None => None,
        },
        ConfigKey::CompressSmallFileThreshold => match c.compress {
            Some(s) => match s.small_file_threshold {
                Some(x) => Some(FieldValue::U64(x)),
                None => None,
            },
            None => None,
        },
        ConfigKey::CompressBatchConcurrency => match c.compress {
            Some(s) => match s.batch_concurrency {
                Some(x) => Some(FieldValue::U64(x)),
                None => None,
            },
            None => None,
        },
        ConfigKey::CompressFormat => match c.compress {
            Some(s) => match s.format {
                Some(x) => Some(FieldValue::CompressFormat(x)),
                None => None,
            },
            None => None,
        },
        ConfigKey::UpdateNoCheck => match c.update {
            Some(s) => match s.no_check {
                Some(x) => Some(FieldValue::Bool(x)),
                None => None,
            },
            None => None,
        },
    }
}

/// `o`'s section, or the empty section when it is absent.
pub open spec fn or_empty<T>(o: Option<T>, empty: T) -> T {
    match o {
        Some(s) => s,
        None => empty,
    }
}

/// `c` with key `k` set to `v`, creating its section when absent and leaving
/// every other key as it was.
pub open spec fn spec_set(c: Config, k: ConfigKey, v: FieldValue) -> Config {
    match k {
        ConfigKey::GlobalVerbosity => Config {
            global: Some(GlobalSection {
                verbosity: Some(value_u8(v)),
                ..or_empty(c.global, GlobalSection::empty())
            }),
            ..c
        },
        ConfigKey::GlobalQuiet => Config {
            global: Some(GlobalSection {
                quiet: Some(value_bool(v)),
                ..or_empty(c.global, GlobalSection::empty())
            }),
            ..c
        },
        ConfigKey::CopyOnError => Config {
            copy: Some(CopySection {
                on_error: Some(value_on_error(v)),
                ..or_empty(c.copy, CopySection::empty())
            }),
            ..c
        },
        ConfigKey::CopySmallFileThreshold => Config {
            copy: Some(CopySection {
                small_file_threshold: Some(value_u64(v)),
                ..or_empty(c.copy, CopySection::empty())
            }),
            ..c
        },
        ConfigKey::CopyBatchConcurrency => Config {
            copy: Some(CopySection {
                batch_concurrency: Some(value_u64(v)),
                ..or_empty(c.copy, CopySection::empty())
            }),
            ..c
        },
        ConfigKey::CopyPreservePermissions => Config {
            copy: Some(CopySection {
                preserve_permissions: Some(value_bool(v)),
                ..or_empty(c.copy, CopySection::empty())
            }),
            ..c
        },
        ConfigKey::CopyAllowFsIntegrityRisk => Config {
            copy: Some(CopySection {
                allow_fs_integrity_risk: Some(value_bool(v)),
                ..or_empty(c.copy, CopySection::empty())
            }),
            ..c
        },
        ConfigKey::CopyOverwrite => Config {
            copy: Some(CopySection {
                overwrite: Some(value_bool(v)),
                ..or_empty(c.copy, CopySection::empty())
            }),
            ..c
        },
        ConfigKey::CopyMaxBytesPerBatch => Config {
            copy: Some(CopySection {
                max_bytes_per_batch: Some(value_u64(v)),
                ..or_empty(c.copy, CopySection::empty())
            }),
            ..c
        },
        ConfigKey::CopyMaxFilesPerBatch => Config {
            copy: Some(CopySection {
                max_files_per_batch: Some(value_u64(v)),
                ..or_empty(c.copy, CopySection::empty())
            }),
            ..c
        },
        ConfigKey::CopySortOrder => Config {
            copy: Some(CopySection {
                sort_order: Some(value_sort_order(v)),
                ..or_empty(c.copy, CopySection::empty())
            }),
            ..c
        },
        ConfigKey::MvOnError => Config {
            mv: Some(MvSection {
                on_error: Some(value_on_error(v)),
                ..or_empty(c.mv, MvSection::empty())
            }),
            ..c
        },
        ConfigKey::MvSmallFileThreshold => Config {
            mv: Some(MvSection {
                small_file_threshold: Some(value_u64(v)),
                ..or_empty(c.mv, MvSection::empty())
            }),
            ..c
        },
        ConfigKey::MvBatchConcurrency => Config {
            mv: Some(MvSection {
                batch_concurrency: Some(value_u64(v)),
                ..or_empty(c.mv, MvSection::empty())
            }),
            ..c
        },
        ConfigKey::MvPreservePermissions => Config {
            mv: Some(MvSection {
                preserve_permissions: Some(value_bool(v)),
                ..or_empty(c.mv, MvSection::empty())
            }),
            ..c
        },
        ConfigKey::MvAllowFsIntegrityRisk => Config {
            mv: Some(MvSection {
                allow_fs_integrity_risk: Some(value_bool(v)),
                ..or_empty(c.mv, MvSection::empty())
            }),
            ..c
        },
        ConfigKey::MvOverwrite => Config {
            mv: Some(MvSection {
                overwrite: Some(value_bool(v)),
                ..or_empty(c.mv, MvSection::empty())
            }),
            ..c
        },
        ConfigKey::SyncOnError => Config {
            sync: Some(SyncSection {
                on_error: Some(value_on_error(v)),
                ..or_empty(c.sync, SyncSection::empty())
            }),
            ..c
        },
        ConfigKey::SyncSmallFileThreshold => Config {
            sync: Some(SyncSection {
                small_file_threshold: Some(value_u64(v)),
                ..or_empty(c.sync, SyncSection::empty())
            }),
            ..c
        },
        ConfigKey::SyncBatchConcurrency => Config {
            sync: Some(SyncSection {
                batch_concurrency: Some(value_u64(v)),
                ..or_empty(c.sync, SyncSection::empty())
            }),
            ..c
        },
        ConfigKey::SyncPreservePermissions => Config {
            sync: Some(SyncSection {
                preserve_permissions: Some(value_bool(v)),
                ..or_empty(c.sync, SyncSection::empty())
            }),
            ..c
        },
        ConfigKey::SyncAllowFsIntegrityRisk => Config {
            sync: Some(SyncSection {
                allow_fs_integrity_risk: Some(value_bool(v)),
                ..or_empty(c.sync, SyncSection::empty())
            }),
            ..c
        },
        ConfigKey::SyncNoOverwrite => Config {
            sync: Some(SyncSection {
                no_overwrite: Some(value_bool(v)),
                ..or_empty(c.sync, SyncSection::empty())
            }),
            ..c
        },
        ConfigKey::SyncChecksum => Config {
            sync: Some(SyncSection {
                checksum: Some(value_bool(v)),
                ..or_empty(c.sync, SyncSection::empty())
            }),
            ..c
        },
        ConfigKey::WatchNoRecursive => Config {
            watch: Some(WatchSection {
                no_recursive: Some(value_bool(v)),
                ..or_empty(c.watch, WatchSection::empty())
            }),
            ..c
        },
        ConfigKey::CompressOnError => Config {
            compress: Some(CompressSection {
                on_error: Some(value_on_error(v)),
                ..or_empty(c.compress, CompressSection::empty())
            }),
            ..c
        },
        ConfigKey::CompressSmallFileThreshold => Config {
            compress: Some(CompressSection {
                small_file_threshold: Some(value_u64(v)),
                ..or_empty(c.compress, CompressSection::empty())
            }),
            ..c
        },
        ConfigKey::CompressBatchConcurrency => Config {
            compress: Some(CompressSection {
                batch_concurrency: Some(value_u64(v)),
                ..or_empty(c.compress, CompressSection::empty())
            }),
            ..c
        },
        ConfigKey::CompressFormat => Config {
            compress: Some(CompressSection {
                format: Some(value_compress_format(v)),
                ..or_empty(c.compress, CompressSection::empty())
            }),
            ..c
        },
        ConfigKey::UpdateNoCheck => Config {
            update: Some(UpdateSection {
                no_check: Some(value_bool(v)),
                ..or_empty(c.update, UpdateSection::empty())
            }),
            ..c
        },
    }
}

/// `c` with key `k` removed; a missing section stays missing.
pub open spec fn spec_unset(c: Config, k: ConfigKey) -> Config {
    match k {
        ConfigKey::GlobalVerbosity => match c.global {
            Some(s) => Config { global: Some(GlobalSection { verbosity: None, ..s }), ..c },
            None => c,
        },
        ConfigKey::GlobalQuiet => match c.global {
            Some(s) => Config { global: Some(GlobalSection { quiet: None, ..s }), ..c },
            None => c,
        },
        ConfigKey::CopyOnError => match c.copy {
            Some(s) => Config { copy: Some(CopySection { on_error: None, ..s }), ..c },
            None => c,
        },
        ConfigKey::CopySmallFileThreshold => match c.copy {
            Some(s) => Config { copy: Some(CopySection { small_file_threshold: None, ..s }), ..c },
            None => c,
        },
        ConfigKey::CopyBatchConcurrency => match c.copy {
            Some(s) => Config { copy: Some(CopySection { batch_concurrency: None, ..s }), ..c },
            None => c,
        },
        ConfigKey::CopyPreservePermissions => match c.copy {
            Some(s) => Config { copy: Some(CopySection { preserve_permissions: None, ..s }), ..c },
            None => c,
        },
        ConfigKey::CopyAllowFsIntegrityRisk => match c.copy {
            Some(s) => Config { copy: Some(CopySection { allow_fs_integrity_risk: None, ..s }), ..c },
            None => c,
        },
        ConfigKey::CopyOverwrite => match c.copy {
            Some(s) => Config { copy: Some(CopySection { overwrite: None, ..s }), ..c },
            None => c,
        },
        ConfigKey::CopyMaxBytesPerBatch => match c.copy {
            Some(s) => Config { copy: Some(CopySection { max_bytes_per_batch: None, ..s }), ..c },
            None => c,
        },
        ConfigKey::CopyMaxFilesPerBatch => match c.copy {
            Some(s) => Config { copy: Some(CopySection { max_files_per_batch: None, ..s }), ..c },
            None => c,
        },
        ConfigKey::CopySortOrder => match c.copy {
            Some(s) => Config { copy: Some(CopySection { sort_order: None, ..s }), ..c },
            None => c,
        },
        ConfigKey::MvOnError => match c.mv {
            Some(s) => Config { mv: Some(MvSection { on_error: None, ..s }), ..c },
            None => c,
        },
        ConfigKey::MvSmallFileThreshold => match c.mv {
            Some(s) => Config { mv: Some(MvSection { small_file_threshold: None, ..s }), ..c },
            None => c,
        },
        ConfigKey::MvBatchConcurrency => match c.mv {
            Some(s) => Config { mv: Some(MvSection { batch_concurrency: None, ..s }), ..c },
            None => c,
        },
        ConfigKey::MvPreservePermissions => match c.mv {
            Some(s) => Config { mv: Some(MvSection { preserve_permissions: None, ..s }), ..c },
            None => c,
        },
        ConfigKey::MvAllowFsIntegrityRisk => match c.mv {
            Some(s) => Config { mv: Some(MvSection { allow_fs_integrity_risk: None, ..s }), ..c },
            None => c,
        },
        ConfigKey::MvOverwrite => match c.mv {
            Some(s) => Config { mv: Some(MvSection { overwrite: None, ..s }), ..c },
            None => c,
        },
        ConfigKey::SyncOnError => match c.sync {
            Some(s) => Config { sync: Some(SyncSection { on_error: None, ..s }), ..c },
            None => c,
        },
        ConfigKey::SyncSmallFileThreshold => match c.sync {
            Some(s) => Config { sync: Some(SyncSection { small_file_threshold: None, ..s }), ..c },
            None => c,
        },
        ConfigKey::SyncBatchConcurrency => match c.sync {
            Some(s) => Config { sync: Some(SyncSection { batch_concurrency: None, ..s }), ..c },
            None => c,
        },
        ConfigKey::SyncPreservePermissions => match c.sync {
            Some(s) => Config { sync: Some(SyncSection { preserve_permissions: None, ..s }), ..c },
            None => c,
        },
        ConfigKey::SyncAllowFsIntegrityRisk => match c.sync {
            Some(s) => Config { sync: Some(SyncSection { allow_fs_integrity_risk: None, ..s }), ..c },
            None => c,
        },
        ConfigKey::SyncNoOverwrite => match c.sync {
            Some(s) => Config { sync: Some(SyncSection { no_overwrite: None, ..s }), ..c },
            None => c,
        },
        ConfigKey::SyncChecksum => match c.sync {
            Some(s) => Config { sync: Some(SyncSection { checksum: None, ..s }), ..c },
            None => c,
        },
        ConfigKey::WatchNoRecursive => match c.watch {
            Some(s) => Config { watch: Some(WatchSection { no_recursive: None, ..s }), ..c },
            None => c,
        },
        ConfigKey::CompressOnError => match c.compress {
            Some(s) => Config { compress: Some(CompressSection { on_error: None, ..s }), ..c },
            None => c,
        },
        ConfigKey::CompressSmallFileThreshold => match c.compress {
            Some(s) => Config { compress: Some(CompressSection { small_file_threshold: None, ..s }), ..c },
            None => c,
        },
        ConfigKey::CompressBatchConcurrency => match c.compress {
            Some(s) => Config { compress: Some(CompressSection { batch_concurrency: None, ..s }), ..c },
            None => c,
        },
        ConfigKey::CompressFormat => match c.compress {
            Some(s) => Config { compress: Some(CompressSection { format: None, ..s }), ..c },
            None => c,
        },
        ConfigKey::UpdateNoCheck => match c.update {
            Some(s) => Config { update: Some(UpdateSection { no_check: None, ..s }), ..c },
            None => c,
        },
    }
}

/// Stores `v` under key `k`, creating the key's section when absent.
pub fn set_field(c: &mut Config, k: ConfigKey, v: FieldValue)
    requires
        v.kind() == k.kind(),
    ensures
        *final(c) == spec_set(*old(c), k, v),
{
    match k {
        ConfigKey::GlobalVerbosity => {
            let x = match v {
                FieldValue::U8(x) => x,
                _ => unreached(),
            };
            let mut s = match c.global {
                Some(s) => s,
                None => GlobalSection::default(),
            };
            s.verbosity = Some(x);
            c.global = Some(s);
        },
        ConfigKey::GlobalQuiet => {
            let x = match v {
                FieldValue::Bool(x) => x,
                _ => unreached(),
            };
            let mut s = match c.global {
                Some(s) => s,
                None => GlobalSection::default(),
            };
            s.quiet = Some(x);
            c.global = Some(s);
        },
        ConfigKey::CopyOnError => {
            let x = match v {
                FieldValue::OnError(x) => x,
                _ => unreached(),
            };
            let mut s = match c.copy {
                Some(s) => s,
                None => CopySection::default(),
            };
            s.on_error = Some(x);
            c.copy = Some(s);
        },
        ConfigKey::CopySmallFileThreshold => {
            let x = match v {
                FieldValue::U64(x) => x,
                _ => unreached(),
            };
            let mut s = match c.copy {
                Some(s) => s,
                None => CopySection::default(),
            };
            s.small_file_threshold = Some(x);
            c.copy = Some(s);
        },
        ConfigKey::CopyBatchConcurrency => {
            let x = match v {
                FieldValue::U64(x) => x,
                _ => unreached(),
            };
            let mut s = match c.copy {
                Some(s) => s,
                None => CopySection::default(),
            };
            s.batch_concurrency = Some(x);
            c.copy = Some(s);
        },
        ConfigKey::CopyPreservePermissions => {
            let x = match v {
                FieldValue::Bool(x) => x,
                _ => unreached(),
            };
            let mut s = match c.copy {
                Some(s) => s,
                None => CopySection::default(),
            };
            s.preserve_permissions = Some(x);
            c.copy = Some(s);
        },
        ConfigKey::CopyAllowFsIntegrityRisk => {
            let x = match v {
                FieldValue::Bool(x) => x,
                _ => unreached(),
            };
            let mut s = match c.copy {
                Some(s) => s,
                None => CopySection::default(),
            };
            s.allow_fs_integrity_risk = Some(x);
            c.copy = Some(s);
        },
        ConfigKey::CopyOverwrite => {
            let x = match v {
                FieldValue::Bool(x) => x,
                _ => unreached(),
            };
            let mut s = match c.copy {
                Some(s) => s,
                None => CopySection::default(),
            };
            s.overwrite = Some(x);
            c.copy = Some(s);
        },
        ConfigKey::CopyMaxBytesPerBatch => {
            let x = match v {
                FieldValue::U64(x) => x,
                _ => unreached(),
            };
            let mut s = match c.copy {
                Some(s) => s,
                None => CopySection::default(),
            };
            s.max_bytes_per_batch = Some(x);
            c.copy = Some(s);
        },
        ConfigKey::CopyMaxFilesPerBatch => {
            let x = match v {
                FieldValue::U64(x) => x,
                _ => unreached(),
            };
            let mut s = match c.copy {
                Some(s) => s,
                None => CopySection::default(),
            };
            s.max_files_per_batch = Some(x);
            c.copy = Some(s);
        },
        ConfigKey::CopySortOrder => {
            let x = match v {
                FieldValue::SortOrder(x) => x,
                _ => unreached(),
            };
            let mut s = match c.copy {
                Some(s) => s,
                None => CopySection::default(),
            };
            s.sort_order = Some(x);
            c.copy = Some(s);
        },
        ConfigKey::MvOnError => {
            let x = match v {
                FieldValue::OnError(x) => x,
                _ => unreached(),
            };
            let mut s = match c.mv {
                Some(s) => s,
                None => MvSection::default(),
            };
            s.on_error = Some(x);
            c.mv = Some(s);
        },
        ConfigKey::MvSmallFileThreshold => {
            let x = match v {
                FieldValue::U64(x) => x,
                _ => unreached(),
            };
            let mut s = match c.mv {
                Some(s) => s,
                None => MvSection::default(),
            };
            s.small_file_threshold = Some(x);
            c.mv = Some(s);
        },
        ConfigKey::MvBatchConcurrency => {
            let x = match v {
                FieldValue::U64(x) => x,
                _ => unreached(),
            };
            let mut s = match c.mv {
                Some(s) => s,
                None => MvSection::default(),
            };
            s.batch_concurrency = Some(x);
            c.mv = Some(s);
        },
        ConfigKey::MvPreservePermissions => {
            let x = match v {
                FieldValue::Bool(x) => x,
                _ => unreached(),
            };
            let mut s = match c.mv {
                Some(s) => s,
                None => MvSection::default(),
            };
            s.preserve_permissions = Some(x);
            c.mv = Some(s);
        },
        ConfigKey::MvAllowFsIntegrityRisk => {
            let x = match v {
                FieldValue::Bool(x) => x,
                _ => unreached(),
            };
            let mut s = match c.mv {
                Some(s) => s,
                None => MvSection::default(),
            };
            s.allow_fs_integrity_risk = Some(x);
            c.mv = Some(s);
        },
        ConfigKey::MvOverwrite => {
            let x = match v {
                FieldValue::Bool(x) => x,
                _ => unreached(),
            };
            let mut s = match c.mv {
                Some(s) => s,
                None => MvSection::default(),
            };
            s.overwrite = Some(x);
            c.mv = Some(s);
        },
        ConfigKey::SyncOnError => {
            let x = match v {
                FieldValue::OnError(x) => x,
                _ => unreached(),
            };
            let mut s = match c.sync {
                Some(s) => s,
                None => SyncSection::default(),
            };
            s.on_error = Some(x);
            c.sync = Some(s);
        },
        ConfigKey::SyncSmallFileThreshold => {
            let x = match v {
                FieldValue::U64(x) => x,
                _ => unreached(),
            };
            let mut s = match c.sync {
                Some(s) => s,
                None => SyncSection::default(),
            };
            s.small_file_threshold = Some(x);
            c.sync = Some(s);
        },
        ConfigKey::SyncBatchConcurrency => {
            let x = match v {
                FieldValue::U64(x) => x,
                _ => unreached(),
            };
            let mut s = match c.sync {
                Some(s) => s,
                None => SyncSection::default(),
            };
            s.batch_concurrency = Some(x);
            c.sync = Some(s);
        },
        ConfigKey::SyncPreservePermissions => {
            let x = match v {
                FieldValue::Bool(x) => x,
                _ => unreached(),
            };
            let mut s = match c.sync {
                Some(s) => s,
                None => SyncSection::default(),
            };
            s.preserve_permissions = Some(x);
            c.sync = Some(s);
        },
        ConfigKey::SyncAllowFsIntegrityRisk => {
            let x = match v {
                FieldValue::Bool(x) => x,
                _ => unreached(),
            };
            let mut s = match c.sync {
                Some(s) => s,
                None => SyncSection::default(),
            };
            s.allow_fs_integrity_risk = Some(x);
            c.sync = Some(s);
        },
        ConfigKey::SyncNoOverwrite => {
            let x = match v {
                FieldValue::Bool(x) => x,
                _ => unreached(),
            };
            let mut s = match c.sync {
                Some(s) => s,
                None => SyncSection::default(),
            };
            s.no_overwrite = Some(x);
            c.sync = Some(s);
        },
        ConfigKey::SyncChecksum => {
            let x = match v {
                FieldValue::Bool(x) => x,
                _ => unreached(),
            };
            let mut s = match c.sync {
                Some(s) => s,
                None => SyncSection::default(),
            };
            s.checksum = Some(x);
            c.sync = Some(s);
        },
        ConfigKey::WatchNoRecursive => {
            let x = match v {
                FieldValue::Bool(x) => x,
                _ => unreached(),
            };
            let mut s = match c.watch {
                Some(s) => s,
                None => WatchSection::default(),
            };
            s.no_recursive = Some(x);
            c.watch = Some(s);
        },
        ConfigKey::CompressOnError => {
            let x = match v {
                FieldValue::OnError(x) => x,
                _ => unreached(),
            };
            let mut s = match c.compress {
                Some(s) => s,
                None => CompressSection::default(),
            };
            s.on_error = Some(x);
            c.compress = Some(s);
        },
        ConfigKey::CompressSmallFileThreshold => {
            let x = match v {
                FieldValue::U64(x) => x,
                _ => unreached(),
            };
            let mut s = match c.compress {
                Some(s) => s,
                None => CompressSection::default(),
            };
            s.small_file_threshold = Some(x);
            c.compress = Some(s);
        },
        ConfigKey::CompressBatchConcurrency => {
            let x = match v {
                FieldValue::U64(x) => x,
                _ => unreached(),
            };
            let mut s = match c.compress {
                Some(s) => s,
                None => CompressSection::default(),
            };
            s.batch_concurrency = Some(x);
            c.compress = Some(s);
        },
        ConfigKey::CompressFormat => {
            let x = match v {
                FieldValue::CompressFormat(x) => x,
                _ => unreached(),
            };
            let mut s = match c.compress {
                Some(s) => s,
                None => CompressSection::default(),
            };
            s.format = Some(x);
            c.compress = Some(s);
        },
        ConfigKey::UpdateNoCheck => {
            let x = match v {
                FieldValue::Bool(x) => x,
                _ => unreached(),
            };
            let mut s = match c.update {
                Some(s) => s,
                None => UpdateSection::default(),
            };
            s.no_check = Some(x);
            c.update = Some(s);
        },
    }
}

/// Removes key `k`; a missing section stays missing.
pub fn clear_field(c: &mut Config, k: ConfigKey)
    ensures
        *final(c) == spec_unset(*old(c), k),
{
    match k {
        ConfigKey::GlobalVerbosity => {
            if let Some(mut s) = c.global {
                s.verbosity = None;
                c.global = Some(s);
            }
        },
        ConfigKey::GlobalQuiet => {
            if let Some(mut s) = c.global {
                s.quiet = None;
                c.global = Some(s);
            }
        },
        ConfigKey::CopyOnError => {
            if let Some(mut s) = c.copy {
                s.on_error = None;
                c.copy = Some(s);
            }
        },
        ConfigKey::CopySmallFileThreshold => {
            if let Some(mut s) = c.copy {
                s.small_file_threshold = None;
                c.copy = Some(s);
            }
        },
        ConfigKey::CopyBatchConcurrency => {
            if let Some(mut s) = c.copy {
                s.batch_concurrency = None;
                c.copy = Some(s);
            }
        },
        ConfigKey::CopyPreservePermissions => {
            if let Some(mut s) = c.copy {
                s.preserve_permissions = None;
                c.copy = Some(s);
            }
        },
        ConfigKey::CopyAllowFsIntegrityRisk => {
            if let Some(mut s) = c.copy {
                s.allow_fs_integrity_risk = None;
                c.copy = Some(s);
            }
        },
        ConfigKey::CopyOverwrite => {
            if let Some(mut s) = c.copy {
                s.overwrite = None;
                c.copy = Some(s);
            }
        },
        ConfigKey::CopyMaxBytesPerBatch => {
            if let Some(mut s) = c.copy {
                s.max_bytes_per_batch = None;
                c.copy = Some(s);
            }
        },
        ConfigKey::CopyMaxFilesPerBatch => {
            if let Some(mut s) = c.copy {
                s.max_files_per_batch = None;
                c.copy = Some(s);
            }
        },
        ConfigKey::CopySortOrder => {
            if let Some(mut s) = c.copy {
                s.sort_order = None;
                c.copy = Some(s);
            }
        },
        ConfigKey::MvOnError => {
            if let Some(mut s) = c.mv {
                s.on_error = None;
                c.mv = Some(s);
            }
        },
        ConfigKey::MvSmallFileThreshold => {
            if let Some(mut s) = c.mv {
                s.small_file_threshold = None;
                c.mv = Some(s);
            }
        },
        ConfigKey::MvBatchConcurrency => {
            if let Some(mut s) = c.mv {
                s.batch_concurrency = None;
                c.mv = Some(s);
            }
        },
        ConfigKey::MvPreservePermissions => {
            if let Some(mut s) = c.mv {
                s.preserve_permissions = None;
                c.mv = Some(s);
            }
        },
        ConfigKey::MvAllowFsIntegrityRisk => {
            if let Some(mut s) = c.mv {
                s.allow_fs_integrity_risk = None;
                c.mv = Some(s);
            }
        },
        ConfigKey::MvOverwrite => {
            if let Some(mut s) = c.mv {
                s.overwrite = None;
                c.mv = Some(s);
            }
        },
        ConfigKey::SyncOnError => {
            if let Some(mut s) = c.sync {
                s.on_error = None;
                c.sync = Some(s);
            }
        },
        ConfigKey::SyncSmallFileThreshold => {
            if let Some(mut s) = c.sync {
                s.small_file_threshold = None;
                c.sync = Some(s);
            }
        },
        ConfigKey::SyncBatchConcurrency => {
            if let Some(mut s) = c.sync {
                s.batch_concurrency = None;
                c.sync = Some(s);
            }
        },
        ConfigKey::SyncPreservePermissions => {
            if let Some(mut s) = c.sync {
                s.preserve_permissions = None;
                c.sync = Some(s);
            }
        },
        ConfigKey::SyncAllowFsIntegrityRisk => {
            if let Some(mut s) = c.sync {
                s.allow_fs_integrity_risk = None;
                c.sync = Some(s);
            }
        },
        ConfigKey::SyncNoOverwrite => {
            if let Some(mut s) = c.sync {
                s.no_overwrite = None;
                c.sync = Some(s);
            }
        },
        ConfigKey::SyncChecksum => {
            if let Some(mut s) = c.sync {
                s.checksum = None;
                c.sync = Some(s);
            }
        },
        ConfigKey::WatchNoRecursive => {
            if let Some(mut s) = c.watch {
                s.no_recursive = None;
                c.watch = Some(s);
            }
        },
        ConfigKey::CompressOnError => {
            if let Some(mut s) = c.compress {
                s.on_error = None;
                c.compress = Some(s);
            }
        },
        ConfigKey::CompressSmallFileThreshold => {
            if let Some(mut s) = c.compress {
                s.small_file_threshold = None;
                c.compress = Some(s);
            }
        },
        ConfigKey::CompressBatchConcurrency => {
            if let Some(mut s) = c.compress {
                s.batch_concurrency = None;
                c.compress = Some(s);
            }
        },
        ConfigKey::CompressFormat => {
            if let Some(mut s) = c.compress {
                s.format = None;
                c.compress = Some(s);
            }
        },
        ConfigKey::UpdateNoCheck => {
            if let Some(mut s) = c.update {
                s.no_check = None;
                c.update = Some(s);
            }
        },
    }
}

/// How `fset get` prints a value: numbers in decimal, booleans as `true` or
/// `false`, enumerated values by their kebab-case name.
pub open spec fn spec_display(v: FieldValue) -> Seq<char> {
    match v {
        FieldValue::U8(x) => dec(x as nat),
        FieldValue::U64(x) => dec(x as nat),
        FieldValue::Bool(b) => if b {
            "true"@
        } else {
            "false"@
        },
        FieldValue::OnError(e) => e.spec_name(),
        FieldValue::SortOrder(o) => o.spec_name(),
        FieldValue::CompressFormat(f) => f.spec_name(),
    }
}

/// Writes a value the way `fset get` prints it.
pub fn display(v: FieldValue) -> (r: String)
    ensures
        r@ == spec_display(v),
{
    match v {
        FieldValue::U8(x) => fmt_u64(x as u64),
        FieldValue::U64(x) => fmt_u64(x),
        FieldValue::Bool(b) => if b {
            owned("true")
        } else {
            owned("false")
        },
        FieldValue::OnError(e) => owned(e.name()),
        FieldValue::SortOrder(o) => owned(o.name()),
        FieldValue::CompressFormat(f) => owned(f.name()),
    }
}

/// `"<prefix>got \"<input>\""`, the shape of every parse error.
pub open spec fn got_message(prefix: Seq<char>, input: Seq<char>) -> Seq<char> {
    prefix + "got \""@ + input + "\""@
}

/// The value of kind `kind` written as `input`, or the message explaining
/// why `input` is not one: booleans are exactly `true` or `false`; integers
/// follow Rust's unsigned `from_str` (optional `+`, digits, within range);
/// enumerated values are exactly one of their kebab-case names.
pub open spec fn spec_parse_value(kind: ValueKind, input: Seq<char>) -> Result<FieldValue, Seq<char>> {
    match kind {
        ValueKind::Bool => if input == "true"@ {
            Ok(FieldValue::Bool(true))
        } else if input == "false"@ {
            Ok(FieldValue::Bool(false))
        } else {
            Err(got_message("expected \"true\" or \"false\", "@, input))
        },
        ValueKind::U8 => match spec_parse_unsigned(input, 255) {
            Some(v) => Ok(FieldValue::U8(v as u8)),
            None => Err(got_message("expected an integer 0..=255, "@, input)),
        },
        ValueKind::U64 => match spec_parse_unsigned(input, u64::MAX as nat) {
            Some(v) => Ok(FieldValue::U64(v as u64)),
            None => Err(got_message("expected a non-negative integer, "@, input)),
        },
        ValueKind::OnError => match OnError::spec_from_name(input) {
            Some(e) => Ok(FieldValue::OnError(e)),
            None => Err(
                got_message("expected one of ["@ + OnError::spec_names_listing() + "], "@, input),
            ),
        },
        ValueKind::SortOrder => match SortOrder::spec_from_name(input) {
            Some(o) => Ok(FieldValue::SortOrder(o)),
            None => Err(
                got_message("expected one of ["@ + SortOrder::spec_names_listing() + "], "@, input),
            ),
        },
        ValueKind::CompressFormat => match CompressFormat::spec_from_name(input) {
            Some(f) => Ok(FieldValue::CompressFormat(f)),
            None => Err(
                got_message(
                    "expected one of ["@ + CompressFormat::spec_names_listing() + "], "@,
                    input,
                ),
            ),
        },
    }
}

fn got(prefix: &str, input: &str) -> (r: String)
    ensures
        r@ == got_message(prefix@, input@),
{
    let mut r = join2(prefix, "got \"");
    r.append(input);
    r.append("\"");
    r
}

fn got_one_of(names: &str, input: &str) -> (r: String)
    ensures
        r@ == got_message("expected one of ["@ + names@ + "], "@, input@),
{
    let mut p = owned("expected one of [");
    p.append(names);
    p.append("], ");
    got(p.as_str(), input)
}

/// Parses `input` as a value of kind `kind`.
pub fn parse_value(kind: ValueKind, input: &str) -> (r: Result<FieldValue, String>)
    ensures
        match spec_parse_value(kind, input@) {
            Ok(v) => r == Ok::<FieldValue, String>(v),
            Err(m) => (r matches Err(e) && e@ == m),
        },
{
    match kind {
        ValueKind::Bool => {
            if str_eq(input, "true") {
                Ok(FieldValue::Bool(true))
            } else if str_eq(input, "false") {
                Ok(FieldValue::Bool(false))
            } else {
                Err(got("expected \"true\" or \"false\", ", input))
            }
        },
        ValueKind::U8 => match parse_unsigned(input, 255) {
            Some(v) => Ok(FieldValue::U8(v as u8)),
            None => Err(got("expected an integer 0..=255, ", input)),
        },
        ValueKind::U64 => match parse_unsigned(input, u64::MAX) {
            Some(v) => Ok(FieldValue::U64(v)),
            None => Err(got("expected a non-negative integer, ", input)),
        },
        ValueKind::OnError => match OnError::from_name(input) {
            Some(e) => Ok(FieldValue::OnError(e)),
            None => Err(got_one_of(OnError::names_listing(), input)),
        },
        ValueKind::SortOrder => match SortOrder::from_name(input) {
            Some(o) => Ok(FieldValue::SortOrder(o)),
            None => Err(got_one_of(SortOrder::names_listing(), input)),
        },
        ValueKind::CompressFormat => match CompressFormat::from_name(input) {
            Some(f) => Ok(FieldValue::CompressFormat(f)),
            None => Err(got_one_of(CompressFormat::names_listing(), input)),
        },
    }
}

/// The message for a name that is no config key.
pub open spec fn unknown_key_message(section: Seq<char>, key: Seq<char>) -> Seq<char> {
    "unknown config key \""@ + section + "."@ + key + "\""@
}

fn unknown_key(section: &str, key: &str) -> (r: String)
    ensures
        r@ == unknown_key_message(section@, key@),
{
    let mut r = join2("unknown config key \"", section);
    r.append(".");
    r.append(key);
    r.append("\"");
    r
}

/// The printed form of key `k`'s value in `c`, `None` when unset.
pub open spec fn spec_get(c: Config, k: ConfigKey) -> Option<Seq<char>> {
    match spec_field(c, k) {
        Some(v) => Some(spec_display(v)),
        None => None,
    }
}

/// The characters of an optional string.
pub open spec fn opt_view(o: Option<String>) -> Option<Seq<char>> {
    match o {
        Some(s) => Some(s@),
        None => None,
    }
}

/// `fset get <section>.<key>`: the printed value, `None` when unset, or the
/// unknown-key message.
pub fn get(config: &Config, section: &str, key: &str) -> (r: Result<Option<String>, String>)
    ensures
        match spec_lookup(section@, key@) {
            Some(k) => (r matches Ok(v) && opt_view(v) == spec_get(*config, k)),
            None => (r matches Err(e) && e@ == unknown_key_message(section@, key@)),
        },
{
    let k = match lookup_key(section, key) {
        Some(k) => k,
        None => return Err(unknown_key(section, key)),
    };
    match field(config, k) {
        Some(v) => Ok(Some(display(v))),
        None => Ok(None),
    }
}

/// `fset set <section>.<key> <value>`: parses `value` for the key and stores
/// it, creating the key's section if needed. On an unknown key or a value
/// that does not parse, `config` is left exactly as it was.
pub fn set(config: &mut Config, section: &str, key: &str, value: &str) -> (r: Result<(), String>)
    ensures
        match spec_lookup(section@, key@) {
            Some(k) => match spec_parse_value(k.kind(), value@) {
                Ok(v) => r is Ok && *final(config) == spec_set(*old(config), k, v),
                Err(m) => (r matches Err(e) && e@ == m) && *final(config) == *old(config),
            },
            None => (r matches Err(e) && e@ == unknown_key_message(section@, key@))
                && *final(config) == *old(config),
        },
{
    let k = match lookup_key(section, key) {
        Some(k) => k,
        None => return Err(unknown_key(section, key)),
    };
    let v = parse_value(k.value_kind(), value)?;
    set_field(config, k, v);
    Ok(())
}

/// `fset unset <section>.<key>`: removes the key so that it reverts to the
/// builder default. A missing section stays missing.
pub fn unset(config: &mut Config, section: &str, key: &str) -> (r: Result<(), String>)
    ensures
        match spec_lookup(section@, key@) {
            Some(k) => r is Ok && *final(config) == spec_unset(*old(config), k),
            None => (r matches Err(e) && e@ == unknown_key_message(section@, key@))
                && *final(config) == *old(config),
        },
{
    let k = match lookup_key(section, key) {
        Some(k) => k,
        None => return Err(unknown_key(section, key)),
    };
    clear_field(config, k);
    Ok(())
}

/// What `parse_value` accepts has the kind it was asked for.
pub proof fn lemma_parse_kind(kind: ValueKind, input: Seq<char>)
    ensures
        spec_parse_value(kind, input) matches Ok(v) ==> v.kind() == kind,
{
}

/// Reading a key back after setting it gives the value that was set.
pub proof fn law_field_after_set(c: Config, k: ConfigKey, v: FieldValue)
    requires
        v.kind() == k.kind(),
    ensures
        spec_field(spec_set(c, k, v), k) == Some(v),
{
}

/// Setting one key leaves every other key as it was.
#[verifier::spinoff_prover]
#[verifier::rlimit(30)]
pub proof fn law_set_leaves_other_keys(c: Config, k: ConfigKey, other: ConfigKey, v: FieldValue)
    requires
        k != other,
    ensures
        spec_field(spec_set(c, k, v), other) == spec_field(c, other),
{
    match k {
        ConfigKey::GlobalVerbosity => {},
        ConfigKey::GlobalQuiet => {},
        ConfigKey::CopyOnError => {},
        ConfigKey::CopySmallFileThreshold => {},
        ConfigKey::CopyBatchConcurrency => {},
        ConfigKey::CopyPreservePermissions => {},
        ConfigKey::CopyAllowFsIntegrityRisk => {},
        ConfigKey::CopyOverwrite => {},
        ConfigKey::CopyMaxBytesPerBatch => {},
        ConfigKey::CopyMaxFilesPerBatch => {},
        ConfigKey::CopySortOrder => {},
        ConfigKey::MvOnError => {},
        ConfigKey::MvSmallFileThreshold => {},
        ConfigKey::MvBatchConcurrency => {},
        ConfigKey::MvPreservePermissions => {},
        ConfigKey::MvAllowFsIntegrityRisk => {},
        ConfigKey::MvOverwrite => {},
        ConfigKey::SyncOnError => {},
        ConfigKey::SyncSmallFileThreshold => {},
        ConfigKey::SyncBatchConcurrency => {},
        ConfigKey::SyncPreservePermissions => {},
        ConfigKey::SyncAllowFsIntegrityRisk => {},
        ConfigKey::SyncNoOverwrite => {},
        ConfigKey::SyncChecksum => {},
        ConfigKey::WatchNoRecursive => {},
        ConfigKey::CompressOnError => {},
        ConfigKey::CompressSmallFileThreshold => {},
        ConfigKey::CompressBatchConcurrency => {},
        ConfigKey::CompressFormat => {},
        ConfigKey::UpdateNoCheck => {},
    }
}

/// A key reads as unset after it is unset.
pub proof fn law_field_after_unset(c: Config, k: ConfigKey)
    ensures
        spec_field(spec_unset(c, k), k) is None,
{
}

/// Unsetting one key leaves every other key as it was.
#[verifier::spinoff_prover]
#[verifier::rlimit(30)]
pub proof fn law_unset_leaves_other_keys(c: Config, k: ConfigKey, other: ConfigKey)
    requires
        k != other,
    ensures
        spec_field(spec_unset(c, k), other) == spec_field(c, other),
{
    match k {
        ConfigKey::GlobalVerbosity => {},
        ConfigKey::GlobalQuiet => {},
        ConfigKey::CopyOnError => {},
        ConfigKey::CopySmallFileThreshold => {},
        ConfigKey::CopyBatchConcurrency => {},
        ConfigKey::CopyPreservePermissions => {},
        ConfigKey::CopyAllowFsIntegrityRisk => {},
        ConfigKey::CopyOverwrite => {},
        ConfigKey::CopyMaxBytesPerBatch => {},
        ConfigKey::CopyMaxFilesPerBatch => {},
        ConfigKey::CopySortOrder => {},
        ConfigKey::MvOnError => {},
        ConfigKey::MvSmallFileThreshold => {},
        ConfigKey::MvBatchConcurrency => {},
        ConfigKey::MvPreservePermissions => {},
        ConfigKey::MvAllowFsIntegrityRisk => {},
        ConfigKey::MvOverwrite => {},
        ConfigKey::SyncOnError => {},
        ConfigKey::SyncSmallFileThreshold => {},
        ConfigKey::SyncBatchConcurrency => {},
        ConfigKey::SyncPreservePermissions => {},
        ConfigKey::SyncAllowFsIntegrityRisk => {},
        ConfigKey::SyncNoOverwrite => {},
        ConfigKey::SyncChecksum => {},
        ConfigKey::WatchNoRecursive => {},
        ConfigKey::CompressOnError => {},
        ConfigKey::CompressSmallFileThreshold => {},
        ConfigKey::CompressBatchConcurrency => {},
        ConfigKey::CompressFormat => {},
        ConfigKey::UpdateNoCheck => {},
    }
}

/// Each key names one field of the schema: `<section>.<key>` reads the
/// field of that name (with `-` for `_`) in that section of the config,
/// and nothing else.
/// With the laws on `set` and `unset` above, this fixes which field each of
/// them writes.
pub proof fn law_key_reads_its_schema_field(c: Config)
    ensures
        ConfigKey::GlobalVerbosity.spec_section() == "global"@ && ConfigKey::GlobalVerbosity.spec_key() == "verbosity"@,
        ConfigKey::GlobalQuiet.spec_section() == "global"@ && ConfigKey::GlobalQuiet.spec_key() == "quiet"@,
        ConfigKey::CopyOnError.spec_section() == "copy"@ && ConfigKey::CopyOnError.spec_key() == "on-error"@,
        ConfigKey::CopySmallFileThreshold.spec_section() == "copy"@ && ConfigKey::CopySmallFileThreshold.spec_key() == "small-file-threshold"@,
        ConfigKey::CopyBatchConcurrency.spec_section() == "copy"@ && ConfigKey::CopyBatchConcurrency.spec_key() == "batch-concurrency"@,
        ConfigKey::CopyPreservePermissions.spec_section() == "copy"@ && ConfigKey::CopyPreservePermissions.spec_key() == "preserve-permissions"@,
        ConfigKey::CopyAllowFsIntegrityRisk.spec_section() == "copy"@ && ConfigKey::CopyAllowFsIntegrityRisk.spec_key() == "allow-fs-integrity-risk"@,
        ConfigKey::CopyOverwrite.spec_section() == "copy"@ && ConfigKey::CopyOverwrite.spec_key() == "overwrite"@,
        ConfigKey::CopyMaxBytesPerBatch.spec_section() == "copy"@ && ConfigKey::CopyMaxBytesPerBatch.spec_key() == "max-bytes-per-batch"@,
        ConfigKey::CopyMaxFilesPerBatch.spec_section() == "copy"@ && ConfigKey::CopyMaxFilesPerBatch.spec_key() == "max-files-per-batch"@,
        ConfigKey::CopySortOrder.spec_section() == "copy"@ && ConfigKey::CopySortOrder.spec_key() == "sort-order"@,
        ConfigKey::MvOnError.spec_section() == "mv"@ && ConfigKey::MvOnError.spec_key() == "on-error"@,
        ConfigKey::MvSmallFileThreshold.spec_section() == "mv"@ && ConfigKey::MvSmallFileThreshold.spec_key() == "small-file-threshold"@,
        ConfigKey::MvBatchConcurrency.spec_section() == "mv"@ && ConfigKey::MvBatchConcurrency.spec_key() == "batch-concurrency"@,
        ConfigKey::MvPreservePermissions.spec_section() == "mv"@ && ConfigKey::MvPreservePermissions.spec_key() == "preserve-permissions"@,
        ConfigKey::MvAllowFsIntegrityRisk.spec_section() == "mv"@ && ConfigKey::MvAllowFsIntegrityRisk.spec_key() == "allow-fs-integrity-risk"@,
        ConfigKey::MvOverwrite.spec_section() == "mv"@ && ConfigKey::MvOverwrite.spec_key() == "overwrite"@,
        ConfigKey::SyncOnError.spec_section() == "sync"@ && ConfigKey::SyncOnError.spec_key() == "on-error"@,
        ConfigKey::SyncSmallFileThreshold.spec_section() == "sync"@ && ConfigKey::SyncSmallFileThreshold.spec_key() == "small-file-threshold"@,
        ConfigKey::SyncBatchConcurrency.spec_section() == "sync"@ && ConfigKey::SyncBatchConcurrency.spec_key() == "batch-concurrency"@,
        ConfigKey::SyncPreservePermissions.spec_section() == "sync"@ && ConfigKey::SyncPreservePermissions.spec_key() == "preserve-permissions"@,
        ConfigKey::SyncAllowFsIntegrityRisk.spec_section() == "sync"@ && ConfigKey::SyncAllowFsIntegrityRisk.spec_key() == "allow-fs-integrity-risk"@,
        ConfigKey::SyncNoOverwrite.spec_section() == "sync"@ && ConfigKey::SyncNoOverwrite.spec_key() == "no-overwrite"@,
        ConfigKey::SyncChecksum.spec_section() == "sync"@ && ConfigKey::SyncChecksum.spec_key() == "checksum"@,
        ConfigKey::WatchNoRecursive.spec_section() == "watch"@ && ConfigKey::WatchNoRecursive.spec_key() == "no-recursive"@,
        ConfigKey::CompressOnError.spec_section() == "compress"@ && ConfigKey::CompressOnError.spec_key() == "on-error"@,
        ConfigKey::CompressSmallFileThreshold.spec_section() == "compress"@ && ConfigKey::CompressSmallFileThreshold.spec_key() == "small-file-threshold"@,
        ConfigKey::CompressBatchConcurrency.spec_section() == "compress"@ && ConfigKey::CompressBatchConcurrency.spec_key() == "batch-concurrency"@,
        ConfigKey::CompressFormat.spec_section() == "compress"@ && ConfigKey::CompressFormat.spec_key() == "format"@,
        ConfigKey::UpdateNoCheck.spec_section() == "update"@ && ConfigKey::UpdateNoCheck.spec_key() == "no-check"@,
        spec_field(c, ConfigKey::GlobalVerbosity) == (match c.global {
            Some(s) => match s.verbosity {
                Some(x) => Some(FieldValue::U8(x)),
                None => None,
            },
            None => None,
        }),
        spec_field(c, ConfigKey::GlobalQuiet) == (match c.global {
            Some(s) => match s.quiet {
                Some(x) => Some(FieldValue::Bool(x)),
                None => None,
            },
            None => None,
        }),
        spec_field(c, ConfigKey::CopyOnError) == (match c.copy {
            Some(s) => match s.on_error {
                Some(x) => Some(FieldValue::OnError(x)),
                None => None,
            },
            None => None,
        }),
        spec_field(c, ConfigKey::CopySmallFileThreshold) == (match c.copy {
            Some(s) => match s.small_file_threshold {
                Some(x) => Some(FieldValue::U64(x)),
                None => None,
            },
            None => None,
        }),
        spec_field(c, ConfigKey::CopyBatchConcurrency) == (match c.copy {
            Some(s) => match s.batch_concurrency {
                Some(x) => Some(FieldValue::U64(x)),
                None => None,
            },
            None => None,
        }),
        spec_field(c, ConfigKey::CopyPreservePermissions) == (match c.copy {
            Some(s) => match s.preserve_permissions {
                Some(x) => Some(FieldValue::Bool(x)),
                None => None,
            },
            None => None,
        }),
        spec_field(c, ConfigKey::CopyAllowFsIntegrityRisk) == (match c.copy {
            Some(s) => match s.allow_fs_integrity_risk {
                Some(x) => Some(FieldValue::Bool(x)),
                None => None,
            },
            None => None,
        }),
        spec_field(c, ConfigKey::CopyOverwrite) == (match c.copy {
            Some(s) => match s.overwrite {
                Some(x) => Some(FieldValue::Bool(x)),
                None => None,
            },
            None => None,
        }),
        spec_field(c, ConfigKey::CopyMaxBytesPerBatch) == (match c.copy {
            Some(s) => match s.max_bytes_per_batch {
                Some(x) => Some(FieldValue::U64(x)),
                None => None,
            },
            None => None,
        }),
        spec_field(c, ConfigKey::CopyMaxFilesPerBatch) == (match c.copy {
            Some(s) => match s.max_files_per_batch {
                Some(x) => Some(FieldValue::U64(x)),
                None => None,
            },
            None => None,
        }),
        spec_field(c, ConfigKey::CopySortOrder) == (match c.copy {
            Some(s) => match s.sort_order {
                Some(x) => Some(FieldValue::SortOrder(x)),
                None => None,
            },
            None => None,
        }),
        spec_field(c, ConfigKey::MvOnError) == (match c.mv {
            Some(s) => match s.on_error {
                Some(x) => Some(FieldValue::OnError(x)),
                None => None,
            },
            None => None,
        }),
        spec_field(c, ConfigKey::MvSmallFileThreshold) == (match c.mv {
            Some(s) => match s.small_file_threshold {
                Some(x) => Some(FieldValue::U64(x)),
                None => None,
            },
            None => None,
        }),
        spec_field(c, ConfigKey::MvBatchConcurrency) == (match c.mv {
            Some(s) => match s.batch_concurrency {
                Some(x) => Some(FieldValue::U64(x)),
                None => None,
            },
            None => None,
        }),
        spec_field(c, ConfigKey::MvPreservePermissions) == (match c.mv {
            Some(s) => match s.preserve_permissions {
                Some(x) => Some(FieldValue::Bool(x)),
                None => None,
            },
            None => None,
        }),
        spec_field(c, ConfigKey::MvAllowFsIntegrityRisk) == (match c.mv {
            Some(s) => match s.allow_fs_integrity_risk {
                Some(x) => Some(FieldValue::Bool(x)),
                None => None,
            },
            None => None,
        }),
        spec_field(c, ConfigKey::MvOverwrite) == (match c.mv {
            Some(s) => match s.overwrite {
                Some(x) => Some(FieldValue::Bool(x)),
                None => None,
            },
            None => None,
        }),
        spec_field(c, ConfigKey::SyncOnError) == (match c.sync {
            Some(s) => match s.on_error {
                Some(x) => Some(FieldValue::OnError(x)),
                None => None,
            },
            None => None,
        }),
        spec_field(c, ConfigKey::SyncSmallFileThreshold) == (match c.sync {
            Some(s) => match s.small_file_threshold {
                Some(x) => Some(FieldValue::U64(x)),
                None => None,
            },
            None => None,
        }),
        spec_field(c, ConfigKey::SyncBatchConcurrency) == (match c.sync {
            Some(s) => match s.batch_concurrency {
                Some(x) => Some(FieldValue::U64(x)),
                None => None,
            },
            None => None,
        }),
        spec_field(c, ConfigKey::SyncPreservePermissions) == (match c.sync {
            Some(s) => match s.preserve_permissions {
                Some(x) => Some(FieldValue::Bool(x)),
                None => None,
            },
            None => None,
        }),
        spec_field(c, ConfigKey::SyncAllowFsIntegrityRisk) == (match c.sync {
            Some(s) => match s.allow_fs_integrity_risk {
                Some(x) => Some(FieldValue::Bool(x)),
                None => None,
            },
            None => None,
        }),
        spec_field(c, ConfigKey::SyncNoOverwrite) == (match c.sync {
            Some(s) => match s.no_overwrite {
                Some(x) => Some(FieldValue::Bool(x)),
                None => None,
            },
            None => None,
        }),
        spec_field(c, ConfigKey::SyncChecksum) == (match c.sync {
            Some(s) => match s.checksum {
                Some(x) => Some(FieldValue::Bool(x)),
                None => None,
            },
            None => None,
        }),
        spec_field(c, ConfigKey::WatchNoRecursive) == (match c.watch {
            Some(s) => match s.no_recursive {
                Some(x) => Some(FieldValue::Bool(x)),
                None => None,
            },
            None => None,
        }),
        spec_field(c, ConfigKey::CompressOnError) == (match c.compress {
            Some(s) => match s.on_error {
                Some(x) => Some(FieldValue::OnError(x)),
                None => None,
            },
            None => None,
        }),
        spec_field(c, ConfigKey::CompressSmallFileThreshold) == (match c.compress {
            Some(s) => match s.small_file_threshold {
                Some(x) => Some(FieldValue::U64(x)),
                None => None,
            },
            None => None,
        }),
        spec_field(c, ConfigKey::CompressBatchConcurrency) == (match c.compress {
            Some(s) => match s.batch_concurrency {
                Some(x) => Some(FieldValue::U64(x)),
                None => None,
            },
            None => None,
        }),
        spec_field(c, ConfigKey::CompressFormat) == (match c.compress {
            Some(s) => match s.format {
                Some(x) => Some(FieldValue::CompressFormat(x)),
                None => None,
            },
            None => None,
        }),
        spec_field(c, ConfigKey::UpdateNoCheck) == (match c.update {
            Some(s) => match s.no_check {
                Some(x) => Some(FieldValue::Bool(x)),
                None => None,
            },
            None => None,
        }),
{
}

/// `fset get` after a successful `fset set` of the same key prints the value
/// that was parsed from the input.
pub proof fn law_get_after_set(c: Config, k: ConfigKey, input: Seq<char>)
    ensures
        spec_parse_value(k.kind(), input) matches Ok(v) ==> spec_get(spec_set(c, k, v), k) == Some(
            spec_display(v),
        ),
{
    lemma_parse_kind(k.kind(), input);
    if let Ok(v) = spec_parse_value(k.kind(), input) {
        law_field_after_set(c, k, v);
    }
}

/// Whatever `fset get` prints can be given back to `fset set` and stores the
/// same value.
pub proof fn law_display_parses_back(v: FieldValue)
    ensures
        spec_parse_value(v.kind(), spec_display(v)) == Ok::<FieldValue, Seq<char>>(v),
{
    reveal_strlit("true");
    reveal_strlit("false");
    match v {
        FieldValue::U8(x) => {
            lemma_dec_roundtrip(x as nat);
            assert(is_digit(dec(x as nat)[0]));
            assert(unsigned_body(dec(x as nat)) == dec(x as nat));
            assert(spec_parse_unsigned(dec(x as nat), 255) == Some(x as nat));
        },
        FieldValue::U64(x) => {
            lemma_dec_roundtrip(x as nat);
            assert(is_digit(dec(x as nat)[0]));
            assert(unsigned_body(dec(x as nat)) == dec(x as nat));
        },
        _ => {
            reveal_strlit("continue");
            reveal_strlit("abort");
            reveal_strlit("undo");
            reveal_strlit("asc");
            reveal_strlit("desc");
            reveal_strlit("zip");
            reveal_strlit("gzip");
        },
    }
}

} // verus!
