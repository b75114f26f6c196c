//! The decisions behind `fset`'s subcommands: splitting `<section>.<key>`,
//! which section names exist, clearing a section, and setting a key only
//! when the result still passes validation.

use vstd::prelude::*;
use vstd::string::*;

use crate::keys::{spec_lookup, spec_parse_value, spec_set, unknown_key_message};
use crate::recovery::{error_line, spec_error_line};
use crate::schema::{first_violation, Config, ConfigError};
use crate::text::{find, join2, join3, occurs_at, owned, str_eq};

verus! {

/// A usage error: the command line itself is wrong.
pub const EXIT_USAGE: u8 = 2;

/// The config file is invalid and was not repaired.
pub const EXIT_INVALID_CONFIG: u8 = 3;

/// An I/O failure unrelated to the config's content.
pub const EXIT_IO: u8 = 5;

/// `<section>.<key>` split at its first `.`, when both halves are non-empty.
pub open spec fn spec_split_key(key: Seq<char>) -> Option<(Seq<char>, Seq<char>)> {
    if exists|i: int| occurs_at(key, seq!['.'], i) {
        let i = choose|i: int|
            occurs_at(key, seq!['.'], i) && forall|j: int|
                0 <= j < i ==> !occurs_at(key, seq!['.'], j);
        if i > 0 && i + 1 < key.len() {
            Some((key.take(i), key.skip(i + 1)))
        } else {
            None
        }
    } else {
        None
    }
}

/// Splits `<section>.<key>` at its first `.`; `None` when there is no `.`
/// or either side of it is empty.
pub fn split_key<'a>(key: &'a str) -> (r: Option<(&'a str, &'a str)>)
    ensures
        match spec_split_key(key@) {
            Some((s, k)) => (r matches Some((a, b)) && a@ == s && b@ == k),
            None => r is None,
        },
{
    let dot = "."; 
    proof {
        reveal_strlit(".");
        assert(dot@ =~= seq!['.']);
    }
    match find(key, dot) {
        Some(i) => {
            proof {
                let j = choose|j: int|
                    occurs_at(key@, seq!['.'], j) && forall|l: int|
                        0 <= l < j ==> !occurs_at(key@, seq!['.'], l);
                assert(occurs_at(key@, seq!['.'], i as int));
                if j < i {
                } else if i < j {
                }
                assert(j == i);
            }
            let n = key.unicode_len();
            if i > 0 && i + 1 < n {
                let section = key.substring_char(0, i);
                let k = key.substring_char(i + 1, n);
                assert(key@.skip(i + 1) =~= key@.subrange(i + 1, n as int));
                Some((section, k))
            } else {
                None
            }
        },
        None => None,
    }
}

/// The message for a key that is not `<section>.<key>`.
pub fn bad_key_message(key: &str) -> (r: String)
    ensures
        r@ == "expected \"<section>.<key>\", got \""@ + key@ + "\""@,
{
    join3("expected \"<section>.<key>\", got \"", key, "\"")
}

/// The section names that `fset list` and `fset reset` accept: every
/// section of the config.
pub open spec fn spec_is_known_section(section: Seq<char>) -> bool {
    section == "global"@ || section == "copy"@ || section == "mv"@ || section == "sync"@
        || section == "watch"@ || section == "compress"@ || section == "update"@
}

/// Whether `fset list` and `fset reset` accept `section`.
pub fn is_known_section(section: &str) -> (r: bool)
    ensures
        r == spec_is_known_section(section@),
{
    str_eq(section, "global") || str_eq(section, "copy") || str_eq(section, "mv") || str_eq(
        section,
        "sync",
    ) || str_eq(section, "watch") || str_eq(section, "compress") || str_eq(section, "update")
}

/// `c` with the named section removed.
pub open spec fn spec_clear_section(c: Config, section: Seq<char>) -> Config {
    if section == "global"@ {
        Config { global: None, ..c }
    } else if section == "copy"@ {
        Config { copy: None, ..c }
    } else if section == "mv"@ {
        Config { mv: None, ..c }
    } else if section == "sync"@ {
        Config { sync: None, ..c }
    } else if section == "watch"@ {
        Config { watch: None, ..c }
    } else if section == "compress"@ {
        Config { compress: None, ..c }
    } else {
        Config { update: None, ..c }
    }
}

/// `fset reset <section>`: removes one whole section.
pub fn clear_section(config: &mut Config, section: &str)
    requires
        spec_is_known_section(section@),
    ensures
        *final(config) == spec_clear_section(*old(config), section@),
{
    if str_eq(section, "global") {
        config.global = None;
    } else if str_eq(section, "copy") {
        config.copy = None;
    } else if str_eq(section, "mv") {
        config.mv = None;
    } else if str_eq(section, "sync") {
        config.sync = None;
    } else if str_eq(section, "watch") {
        config.watch = None;
    } else if str_eq(section, "compress") {
        config.compress = None;
    } else {
        config.update = None;
    }
}

/// Whether section `section` is present in `c` (and so in its JSON form).
pub open spec fn spec_section_present(c: Config, section: Seq<char>) -> bool {
    if section == "global"@ {
        c.global is Some
    } else if section == "copy"@ {
        c.copy is Some
    } else if section == "mv"@ {
        c.mv is Some
    } else if section == "sync"@ {
        c.sync is Some
    } else if section == "watch"@ {
        c.watch is Some
    } else if section == "compress"@ {
        c.compress is Some
    } else if section == "update"@ {
        c.update is Some
    } else {
        false
    }
}

/// What `fset list [<section>]` prints.
#[derive(Debug, Clone, Copy, PartialEq, Eq, Structural)]
pub enum ListTarget {
    /// The whole file.
    Whole,
    /// The named section, which is present.
    Section,
    /// `{}`: a known section that is absent.
    EmptySection,
    /// An error: no such section.
    UnknownSection,
}

/// Chooses what `fset list [<section>]` prints: the whole config, a present
/// section, `{}` for a known but absent one, or an error.
pub fn list_target(config: &Config, section: Option<&str>) -> (r: ListTarget)
    ensures
        r == match section {
            None => ListTarget::Whole,
            Some(s) => if spec_section_present(*config, s@) {
                ListTarget::Section
            } else if spec_is_known_section(s@) {
                ListTarget::EmptySection
            } else {
                ListTarget::UnknownSection
            },
        },
{
    match section {
        None => ListTarget::Whole,
        Some(s) => {
            let present = if str_eq(s, "global") {
                config.global.is_some()
            } else if str_eq(s, "copy") {
                config.copy.is_some()
            } else if str_eq(s, "mv") {
                config.mv.is_some()
            } else if str_eq(s, "sync") {
                config.sync.is_some()
            } else if str_eq(s, "watch") {
                config.watch.is_some()
            } else if str_eq(s, "compress") {
                config.compress.is_some()
            } else if str_eq(s, "update") {
                config.update.is_some()
            } else {
                false
            };
            if present {
                ListTarget::Section
            } else if is_known_section(s) {
                ListTarget::EmptySection
            } else {
                ListTarget::UnknownSection
            }
        },
    }
}

/// `fset set`'s edit: stores the value, then checks the whole config. The
/// message is the first failure: an unknown key, a value that does not
/// parse, or a range rule the new config breaks.
pub fn set_validated(config: &mut Config, section: &str, key: &str, value: &str) -> (r: Result<(), String>)
    ensures
        match spec_lookup(section@, key@) {
            None => (r matches Err(e) && e@ == unknown_key_message(section@, key@))
                && *final(config) == *old(config),
            Some(k) => match spec_parse_value(k.kind(), value@) {
                Err(m) => (r matches Err(e) && e@ == m) && *final(config) == *old(config),
                Ok(v) => *final(config) == spec_set(*old(config), k, v) && match first_violation(
                    spec_set(*old(config), k, v),
                ) {
                    None => r is Ok,
                    Some(m) => (r matches Err(e) && e@ == m),
                },
            },
        },
{
    crate::keys::set(config, section, key, value)?;
    match config.validate() {
        Ok(()) => Ok(()),
        Err(e) => Err(e.to_string()),
    }
}

/// The message for a section name that does not exist.
pub open spec fn spec_unknown_section(section: Seq<char>) -> Seq<char> {
    "unknown config section \""@ + section + "\""@
}

/// Formats the message for a section name that does not exist.
pub fn unknown_section_message(section: &str) -> (r: String)
    ensures
        r@ == spec_unknown_section(section@),
{
    join3("unknown config section \"", section, "\"")
}

/// What `fset reset [<section>]` saves: an empty config for the whole
/// file, or the loaded config without that section.
pub fn reset_config(loaded: Config, section: Option<&str>) -> (r: Config)
    requires
        section matches Some(s) ==> spec_is_known_section(s@),
    ensures
        r == match section {
            None => Config::empty(),
            Some(s) => spec_clear_section(loaded, s@),
        },
{
    match section {
        None => Config::default(),
        Some(s) => {
            let mut c = loaded;
            clear_section(&mut c, s);
            c
        },
    }
}

/// The text `fset edit` puts in the scratch file when there is no config
/// file yet.
pub open spec fn empty_file_text() -> Seq<char> {
    "{}\n"@
}

/// What `fset edit` starts from: the file's text, or `{}` when the file
/// does not exist.
pub fn starting_contents(existing: Option<String>) -> (r: String)
    ensures
        r@ == match existing {
            Some(t) => t@,
            None => empty_file_text(),
        },
{
    match existing {
        Some(t) => t,
        None => owned("{}\n"),
    }
}

/// The editor `fset edit` runs: `$EDITOR` when set and non-empty;
/// otherwise the error line, and exit 5.
pub fn choose_editor(editor: Option<&str>) -> (r: Result<String, String>)
    ensures
        match editor {
            Some(e) => if e@.len() > 0 {
                r matches Ok(x) && x@ == e@
            } else {
                r matches Err(m) && m@ == spec_error_line("fset"@, "$EDITOR is not set; export EDITOR and try again"@)
            },
            None => r matches Err(m) && m@ == spec_error_line(
                "fset"@,
                "$EDITOR is not set; export EDITOR and try again"@,
            ),
        },
{
    match editor {
        Some(e) => {
            if e.unicode_len() > 0 {
                return Ok(owned(e));
            }
        },
        None => {},
    }
    Err(error_line("fset", "$EDITOR is not set; export EDITOR and try again"))
}

/// What happened at one step of `fset edit`.
pub enum EditEvent {
    /// The config file exists but could not be read.
    ConfigUnreadable { path: String, error: String },
    /// The scratch file could not be written.
    ScratchNotCreated { error: String },
    /// The editor could not be started.
    EditorNotLaunched { error: String },
    /// The editor exited with a non-zero status.
    EditorFailed,
    /// The edited scratch file could not be read back.
    ScratchUnreadable { error: String },
    /// The edited text was read and parsed.
    Edited { parsed: Result<Config, ConfigError> },
    /// The valid config was written, or not.
    Saved { result: Result<(), ConfigError> },
}

/// What `fset edit` does next.
pub enum EditAction {
    /// Remove the scratch file, print `message` to stderr when there is one,
    /// and exit with `code`.
    Finish { code: u8, message: Option<String> },
    /// Write this config to the config file.
    Save { config: Config },
    /// Print `message` to stderr and the prompt, wait for ENTER, and run
    /// the editor again.
    Reopen { message: String, prompt: String },
}

/// The prompt shown before the editor is reopened.
pub open spec fn reopen_prompt() -> Seq<char> {
    "Press ENTER to reopen $EDITOR, or Ctrl+C to abort without saving.\n> "@
}

/// The decision `fset edit` takes on each event: a failure around the
/// editor or the files exits 5; an invalid edit reopens the editor with
/// the error; a valid one is saved; a completed save exits 0.
pub open spec fn spec_edit_next(editor: Seq<char>, e: EditEvent) -> (u8, Option<Seq<char>>, Option<Config>, Option<(Seq<char>, Seq<char>)>) {
    match e {
        EditEvent::ConfigUnreadable { path, error } => (
            EXIT_IO,
            Some(spec_error_line("fset"@, "could not read "@ + path@ + ": "@ + error@)),
            None,
            None,
        ),
        EditEvent::ScratchNotCreated { error } => (
            EXIT_IO,
            Some(spec_error_line("fset"@, "could not create scratch file: "@ + error@)),
            None,
            None,
        ),
        EditEvent::EditorNotLaunched { error } => (
            EXIT_IO,
            Some(spec_error_line("fset"@, "could not launch $EDITOR ("@ + editor + "): "@ + error@)),
            None,
            None,
        ),
        EditEvent::EditorFailed => (
            EXIT_IO,
            Some(spec_error_line("fset"@, "$EDITOR exited with a non-zero status"@)),
            None,
            None,
        ),
        EditEvent::ScratchUnreadable { error } => (
            EXIT_IO,
            Some(spec_error_line("fset"@, "could not read scratch file: "@ + error@)),
            None,
            None,
        ),
        EditEvent::Edited { parsed } => match parsed {
            Ok(c) => (0, None, Some(c), None),
            Err(ce) => (
                0,
                None,
                None,
                Some((spec_error_line("fset"@, "edited config is invalid:\n  "@ + ce.spec_message()), reopen_prompt())),
            ),
        },
        EditEvent::Saved { result } => match result {
            Ok(()) => (0, None, None, None),
            Err(ce) => (EXIT_IO, Some(spec_error_line("fset"@, ce.spec_message())), None, None),
        },
    }
}

/// The model of an edit action: exit code and message when finishing, the
/// config when saving, the message and the prompt when reopening.
pub open spec fn edit_action_view(a: EditAction) -> (u8, Option<Seq<char>>, Option<Config>, Option<(Seq<char>, Seq<char>)>) {
    match a {
        EditAction::Finish { code, message } => (code, match message {
            Some(m) => Some(m@),
            None => None,
        }, None, None),
        EditAction::Save { config } => (0, None, Some(config), None),
        EditAction::Reopen { message, prompt } => (0, None, None, Some((message@, prompt@))),
    }
}

/// Decides what `fset edit` does after `event`; `editor` is the command
/// being run.
pub fn edit_next(editor: &str, event: EditEvent) -> (r: EditAction)
    ensures
        edit_action_view(r) == spec_edit_next(editor@, event),
        r is Finish <==> !(event is Edited),
{
    match event {
        EditEvent::ConfigUnreadable { path, error } => {
            let mut m = join3("could not read ", path.as_str(), ": ");
            m.append(error.as_str());
            EditAction::Finish { code: EXIT_IO, message: Some(error_line("fset", m.as_str())) }
        },
        EditEvent::ScratchNotCreated { error } => {
            let m = join2("could not create scratch file: ", error.as_str());
            EditAction::Finish { code: EXIT_IO, message: Some(error_line("fset", m.as_str())) }
        },
        EditEvent::EditorNotLaunched { error } => {
            let mut m = join3("could not launch $EDITOR (", editor, "): ");
            m.append(error.as_str());
            EditAction::Finish { code: EXIT_IO, message: Some(error_line("fset", m.as_str())) }
        },
        EditEvent::EditorFailed => EditAction::Finish {
            code: EXIT_IO,
            message: Some(error_line("fset", "$EDITOR exited with a non-zero status")),
        },
        EditEvent::ScratchUnreadable { error } => {
            let m = join2("could not read scratch file: ", error.as_str());
            EditAction::Finish { code: EXIT_IO, message: Some(error_line("fset", m.as_str())) }
        },
        EditEvent::Edited { parsed } => match parsed {
            Ok(c) => EditAction::Save { config: c },
            Err(ce) => {
                let t = ce.to_string();
                let m = join2("edited config is invalid:\n  ", t.as_str());
                EditAction::Reopen {
                    message: error_line("fset", m.as_str()),
                    prompt: owned("Press ENTER to reopen $EDITOR, or Ctrl+C to abort without saving.\n> "),
                }
            },
        },
        EditEvent::Saved { result } => match result {
            Ok(()) => EditAction::Finish { code: 0, message: None },
            Err(ce) => {
                let t = ce.to_string();
                EditAction::Finish { code: EXIT_IO, message: Some(error_line("fset", t.as_str())) }
            },
        },
    }
}

/// `fset edit` never saves a config that breaks a range rule: what it is
/// asked to save came out of a parse that validated it.
pub proof fn law_edit_saves_only_valid(editor: Seq<char>, decoded: Result<Config, String>, parsed: Result<Config, ConfigError>)
    requires
        match decoded {
            Err(m) => (parsed matches Err(e) && (e matches ConfigError::Parse(x) && x@ == m@)),
            Ok(c) => match first_violation(c) {
                None => parsed == Ok::<Config, ConfigError>(c),
                Some(msg) => (parsed matches Err(e) && (e matches ConfigError::Validation(x) && x@ == msg)),
            },
        },
    ensures
        spec_edit_next(editor, EditEvent::Edited { parsed }).2 matches Some(c) ==> first_violation(c) is None,
{
}

} // verus!
