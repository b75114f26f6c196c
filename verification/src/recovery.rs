//! What happens when the config file cannot be loaded: an invalid file
//! (bad JSON or a value out of range) leads to a prompt when a person is
//! at the terminal, and to exit 3 with instructions when not; any other
//! failure exits 5.

use vstd::prelude::*;

use crate::fset::{EXIT_INVALID_CONFIG, EXIT_IO};
use crate::schema::ConfigError;
use crate::text::{has_prefix, join2, join3, owned, spec_trim};

verus! {

/// What to do after a failed load.
pub enum RecoveryStart {
    /// Print `message` to stderr and exit with `code`.
    Exit { code: u8, message: String },
    /// Print `lines`, then the prompt `"\n> "`, and read an answer.
    Prompt { lines: Vec<String> },
}

/// The error line of a binary: `<binary>: error: <message>`.
pub open spec fn spec_error_line(binary: Seq<char>, message: Seq<char>) -> Seq<char> {
    binary + ": error: "@ + message
}

/// Formats the error line of a binary.
pub fn error_line(binary: &str, message: &str) -> (r: String)
    ensures
        r@ == spec_error_line(binary@, message@),
{
    join3(binary, ": error: ", message)
}

/// The instructions printed instead of a prompt when nobody can answer one.
pub open spec fn spec_not_interactive(binary: Seq<char>, path: Seq<char>, message: Seq<char>) -> Seq<char> {
    binary + ": error: the config file at "@ + path + " is invalid:\n  "@ + message
        + "\n\nNot running interactively, so no prompt was shown. To fix this, either:\n  1. Edit "@
        + path + " by hand and re-run, or\n  2. Run `fset reset` to discard it and start from an empty config.\n"@
}

/// The lines shown before the prompt.
pub open spec fn spec_prompt_lines(path: Seq<char>, message: Seq<char>) -> Seq<Seq<char>> {
    seq![
        "The config file at "@ + path + " is invalid:"@,
        "  "@ + message,
        Seq::empty(),
        "What do you want to do?"@,
        "  [1] Exit without touching the file"@,
        "  [2] Reset to default configuration"@,
    ]
}

/// What a failed load leads to: an invalid file prompts when `interactive`
/// and otherwise exits 3 with instructions; any other failure exits 5 with
/// the error line.
pub open spec fn spec_recovery_start(
    binary: Seq<char>,
    path: Seq<char>,
    interactive: bool,
    e: ConfigError,
) -> (u8, Seq<char>, Option<Seq<Seq<char>>>) {
    match e {
        ConfigError::Parse(m) => if interactive {
            (0, Seq::empty(), Some(spec_prompt_lines(path, m@)))
        } else {
            (EXIT_INVALID_CONFIG, spec_not_interactive(binary, path, m@), None)
        },
        ConfigError::Validation(m) => if interactive {
            (0, Seq::empty(), Some(spec_prompt_lines(path, m@)))
        } else {
            (EXIT_INVALID_CONFIG, spec_not_interactive(binary, path, m@), None)
        },
        _ => (EXIT_IO, spec_error_line(binary, e.spec_message()), None),
    }
}

/// The model of a recovery start: exit code and message, or the prompt
/// lines.
pub open spec fn start_view(r: RecoveryStart) -> (u8, Seq<char>, Option<Seq<Seq<char>>>) {
    match r {
        RecoveryStart::Exit { code, message } => (code, message@, None),
        RecoveryStart::Prompt { lines } => (0, Seq::empty(), Some(lines@.map_values(|l: String| l@))),
    }
}

fn not_interactive(binary: &str, path: &str, message: &str) -> (r: String)
    ensures
        r@ == spec_not_interactive(binary@, path@, message@),
{
    let mut r = join3(binary, ": error: the config file at ", path);
    r.append(" is invalid:\n  ");
    r.append(message);
    r.append("\n\nNot running interactively, so no prompt was shown. To fix this, either:\n  1. Edit ");
    r.append(path);
    r.append(" by hand and re-run, or\n  2. Run `fset reset` to discard it and start from an empty config.\n");
    r
}

fn prompt_lines(path: &str, message: &str) -> (r: Vec<String>)
    ensures
        r@.map_values(|l: String| l@) == spec_prompt_lines(path@, message@),
{
    let mut v: Vec<String> = Vec::new();
    v.push(join3("The config file at ", path, " is invalid:"));
    v.push(join2("  ", message));
    v.push(String::new());
    v.push(owned("What do you want to do?"));
    v.push(owned("  [1] Exit without touching the file"));
    v.push(owned("  [2] Reset to default configuration"));
    assert(v@.map_values(|l: String| l@) =~= spec_prompt_lines(path@, message@));
    v
}

/// Decides what a failed load of the file at `path` leads to; `binary` is
/// the program's name, `interactive` whether stdin is a terminal.
pub fn recovery_start(binary: &str, path: &str, interactive: bool, e: &ConfigError) -> (r: RecoveryStart)
    ensures
        start_view(r) == spec_recovery_start(binary@, path@, interactive, *e),
{
    match e {
        ConfigError::Parse(m) | ConfigError::Validation(m) => {
            if interactive {
                RecoveryStart::Prompt { lines: prompt_lines(path, m.as_str()) }
            } else {
                RecoveryStart::Exit { code: EXIT_INVALID_CONFIG, message: not_interactive(binary, path, m.as_str()) }
            }
        },
        _ => {
            let m = e.to_string();
            RecoveryStart::Exit { code: EXIT_IO, message: error_line(binary, m.as_str()) }
        },
    }
}

/// Without a terminal the flow never prompts: an invalid file exits 3, any
/// other failure exits 5.
pub proof fn law_never_prompts_without_terminal(binary: Seq<char>, path: Seq<char>, e: ConfigError)
    ensures
        spec_recovery_start(binary, path, false, e).2 is None,
        spec_recovery_start(binary, path, false, e).0 == (if e is Parse || e is Validation {
            EXIT_INVALID_CONFIG
        } else {
            EXIT_IO
        }),
{
}

/// At a terminal, an invalid file always leads to the prompt, whether its
/// JSON is broken or a value is out of range: nothing is printed to exit
/// with, and the lines name the file and the error and offer the reset.
pub proof fn law_invalid_file_prompts_at_terminal(binary: Seq<char>, path: Seq<char>, m: String)
    ensures
        spec_recovery_start(binary, path, true, ConfigError::Parse(m))
            == spec_recovery_start(binary, path, true, ConfigError::Validation(m)),
        spec_recovery_start(binary, path, true, ConfigError::Parse(m)).0 == 0,
        spec_recovery_start(binary, path, true, ConfigError::Parse(m)).2 == Some(
            seq![
                "The config file at "@ + path + " is invalid:"@,
                "  "@ + m@,
                Seq::<char>::empty(),
                "What do you want to do?"@,
                "  [1] Exit without touching the file"@,
                "  [2] Reset to default configuration"@,
            ],
        ),
{
}

/// Without a terminal, an invalid file exits 3 with instructions naming the
/// file and the error, whether its JSON is broken or a value is out of
/// range.
pub proof fn law_invalid_file_exits_without_terminal(binary: Seq<char>, path: Seq<char>, m: String)
    ensures
        spec_recovery_start(binary, path, false, ConfigError::Parse(m))
            == spec_recovery_start(binary, path, false, ConfigError::Validation(m)),
        spec_recovery_start(binary, path, false, ConfigError::Parse(m)).0 == 3,
        has_prefix(
            spec_recovery_start(binary, path, false, ConfigError::Parse(m)).1,
            binary + ": error: the config file at "@ + path + " is invalid:\n  "@ + m@,
        ),
{
    let full = spec_recovery_start(binary, path, false, ConfigError::Parse(m)).1;
    let pre = binary + ": error: the config file at "@ + path + " is invalid:\n  "@ + m@;
    assert(full.subrange(0, pre.len() as int) =~= pre);
}

/// Whether the answer to the prompt asks for a reset: `2`, whitespace
/// around it ignored. Any other answer leaves the file alone (exit 3).
pub fn wants_reset(answer: &str) -> (r: bool)
    ensures
        r == (spec_trim(answer@) == "2"@),
{
    let t = crate::text::trim(answer);
    crate::text::str_eq(t.as_str(), "2")
}

/// What an answer to the prompt leads to.
#[derive(Debug, Clone, Copy, PartialEq, Eq, Structural)]
pub enum RecoveryAnswer {
    /// Leave the file alone and exit 3.
    Exit(u8),
    /// Back the file up first when it exists, then write an empty config
    /// and carry on with it.
    Reset { backup_first: bool },
}

/// Decides what an answer leads to: `2` resets (backing up an existing
/// file first), anything else exits 3 with the file untouched.
pub fn recovery_answer(answer: &str, file_exists: bool) -> (r: RecoveryAnswer)
    ensures
        r == if spec_trim(answer@) == "2"@ {
            RecoveryAnswer::Reset { backup_first: file_exists }
        } else {
            RecoveryAnswer::Exit(EXIT_INVALID_CONFIG)
        },
{
    if wants_reset(answer) {
        RecoveryAnswer::Reset { backup_first: file_exists }
    } else {
        RecoveryAnswer::Exit(EXIT_INVALID_CONFIG)
    }
}

} // verus!
