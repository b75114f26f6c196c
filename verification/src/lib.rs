//! The logic of the `fsapp` / `fset` command-line tools: the config file's
//! schema and rules, `<section>.<key>` addressing, value precedence, paths
//! and backup names, the invalid-config recovery flow, the progress bar's
//! state, summaries, reports and exit codes, the update check, and
//! shell-completion installs.

pub mod text;
pub mod enums;
pub mod schema;
pub mod keys;
pub mod fset;
pub mod resolve;
pub mod settings;
pub mod format;
pub mod update;
pub mod paths;
pub mod completions;
pub mod summary;
pub mod progress;
pub mod report;
pub mod recovery;
