//! Shell completion: the file name each shell looks for, which shell the
//! user runs, where a script may be installed, what `completions` does and
//! says, and the once-per-shell reminder that completion is not installed.

use vstd::prelude::*;

use crate::enums::Shell;
use crate::paths::{path_file_name, path_join, path_parent, spec_path_file_name, spec_path_join, spec_path_parent};
use crate::resolve::Env;
use crate::text::{opt_str, find, has_infix, has_prefix, join2, join3, occurs_at, owned, starts_with, str_eq};

verus! {

/// The file name `shell` loads completions for `bin_name` from: zsh wants
/// `_<name>` on its `fpath`, bash and fish an extension, others
/// `<name>.<shell>`.
pub open spec fn spec_script_name(bin_name: Seq<char>, shell: Shell) -> Seq<char> {
    match shell {
        Shell::Zsh => "_"@ + bin_name,
        Shell::Bash => bin_name + ".bash"@,
        Shell::Fish => bin_name + ".fish"@,
        _ => bin_name + "."@ + shell.spec_name(),
    }
}

/// Names the completion script of `bin_name` for `shell`.
pub fn script_name(bin_name: &str, shell: Shell) -> (r: String)
    ensures
        r@ == spec_script_name(bin_name@, shell),
{
    match shell {
        Shell::Zsh => join2("_", bin_name),
        Shell::Bash => join2(bin_name, ".bash"),
        Shell::Fish => join2(bin_name, ".fish"),
        _ => join3(bin_name, ".", shell.name()),
    }
}

/// The shell whose executable is at `shell_path`, read from its last path
/// component; only zsh, bash and fish are recognised, anything else is not
/// guessed at.
pub open spec fn spec_shell_from_path(shell_path: Seq<char>) -> Option<Shell> {
    match spec_path_file_name(shell_path) {
        Some(n) => if n == "zsh"@ {
            Some(Shell::Zsh)
        } else if n == "bash"@ {
            Some(Shell::Bash)
        } else if n == "fish"@ {
            Some(Shell::Fish)
        } else {
            None
        },
        None => None,
    }
}

/// Recognises the shell from the path of its executable.
pub fn shell_from_path(shell_path: &str) -> (r: Option<Shell>)
    ensures
        r == spec_shell_from_path(shell_path@),
{
    let name = path_file_name(shell_path)?;
    if str_eq(name.as_str(), "zsh") {
        Some(Shell::Zsh)
    } else if str_eq(name.as_str(), "bash") {
        Some(Shell::Bash)
    } else if str_eq(name.as_str(), "fish") {
        Some(Shell::Fish)
    } else {
        None
    }
}

/// The user's login shell, from `$SHELL`.
pub fn detect_shell(env: &Env) -> (r: Option<Shell>)
    ensures
        r == match env.spec_get("SHELL"@) {
            Some(p) => spec_shell_from_path(p),
            None => None,
        },
{
    match env.get("SHELL") {
        Some(p) => shell_from_path(p.as_str()),
        None => None,
    }
}

/// The Homebrew prefix the binary at `exe` (its resolved path) runs from:
/// `/opt/homebrew`, `/usr/local` for a Cellar under it, or whatever
/// precedes `/Cellar/`; `None` when it does not run from Homebrew.
pub open spec fn spec_homebrew_prefix(exe: Seq<char>) -> Option<Seq<char>> {
    if has_prefix(exe, "/opt/homebrew/"@) {
        Some("/opt/homebrew"@)
    } else if has_prefix(exe, "/usr/local/"@) && has_infix(exe, "/Cellar/"@) {
        Some("/usr/local"@)
    } else if has_infix(exe, "/Cellar/"@) {
        Some(exe.take(choose|i: int| occurs_at(exe, "/Cellar/"@, i) && forall|j: int| 0 <= j < i ==> !occurs_at(exe, "/Cellar/"@, j)))
    } else {
        None
    }
}

/// Finds the Homebrew prefix of the binary at `exe`.
pub fn homebrew_prefix(exe: &str) -> (r: Option<String>)
    ensures
        match spec_homebrew_prefix(exe@) {
            Some(p) => (r matches Some(s) && s@ == p),
            None => r is None,
        },
{
    if starts_with(exe, "/opt/homebrew/") {
        return Some(owned("/opt/homebrew"));
    }
    let cellar = find(exe, "/Cellar/");
    if starts_with(exe, "/usr/local/") && cellar.is_some() {
        return Some(owned("/usr/local"));
    }
    match cellar {
        Some(i) => {
            proof {
                let j = choose|j: int| occurs_at(exe@, "/Cellar/"@, j) && forall|l: int| 0 <= l < j ==> !occurs_at(exe@, "/Cellar/"@, l);
                assert(occurs_at(exe@, "/Cellar/"@, i as int));
                if j < i {
                } else if i < j {
                }
                assert(j == i);
            }
            Some(owned(exe.substring_char(0, i)))
        },
        None => None,
    }
}

/// The directory, under a Homebrew prefix, where `shell` looks for
/// completions.
pub open spec fn homebrew_subdir(shell: Shell) -> Seq<char> {
    match shell {
        Shell::Zsh => "share/zsh/site-functions"@,
        Shell::Bash => "etc/bash_completion.d"@,
        Shell::Fish => "share/fish/vendor_completions.d"@,
        _ => "share"@,
    }
}

/// The system directory (Debian's layout) where `shell` looks for
/// completions.
pub open spec fn system_dir(shell: Shell) -> Seq<char> {
    match shell {
        Shell::Zsh => "/usr/share/zsh/vendor-completions"@,
        Shell::Bash => "/usr/share/bash-completion/completions"@,
        Shell::Fish => "/usr/share/fish/vendor_completions.d"@,
        _ => "/usr/share"@,
    }
}

/// The directory, under the home directory, where a user install goes.
pub open spec fn home_subdir(shell: Shell) -> Seq<char> {
    match shell {
        Shell::Zsh => ".zsh/completions"@,
        Shell::Bash => ".local/share/bash-completion/completions"@,
        Shell::Fish => ".config/fish/completions"@,
        _ => ".local/share"@,
    }
}

/// Where a script for `shell` may go, most preferred first: the Homebrew
/// prefix's directory when running from Homebrew, the system directory,
/// then the user's own directory when there is a home directory.
pub open spec fn spec_candidate_dirs(shell: Shell, prefix: Option<Seq<char>>, home: Option<Seq<char>>) -> Seq<Seq<char>> {
    let brew = match prefix {
        Some(p) => seq![spec_path_join(p, homebrew_subdir(shell))],
        None => Seq::empty(),
    };
    let user = match home {
        Some(h) => seq![spec_path_join(h, home_subdir(shell))],
        None => Seq::empty(),
    };
    brew + seq![system_dir(shell)] + user
}

fn homebrew_subdir_exec(shell: Shell) -> (r: &'static str)
    ensures
        r@ == homebrew_subdir(shell),
{
    match shell {
        Shell::Zsh => "share/zsh/site-functions",
        Shell::Bash => "etc/bash_completion.d",
        Shell::Fish => "share/fish/vendor_completions.d",
        _ => "share",
    }
}

fn system_dir_exec(shell: Shell) -> (r: &'static str)
    ensures
        r@ == system_dir(shell),
{
    match shell {
        Shell::Zsh => "/usr/share/zsh/vendor-completions",
        Shell::Bash => "/usr/share/bash-completion/completions",
        Shell::Fish => "/usr/share/fish/vendor_completions.d",
        _ => "/usr/share",
    }
}

fn home_subdir_exec(shell: Shell) -> (r: &'static str)
    ensures
        r@ == home_subdir(shell),
{
    match shell {
        Shell::Zsh => ".zsh/completions",
        Shell::Bash => ".local/share/bash-completion/completions",
        Shell::Fish => ".config/fish/completions",
        _ => ".local/share",
    }
}

/// The texts of a list of strings.
pub open spec fn views(v: Seq<String>) -> Seq<Seq<char>> {
    v.map_values(|s: String| s@)
}

/// Lists the install directories for `shell`, given the Homebrew prefix the
/// binary runs from and the home directory.
pub fn candidate_dirs_from(shell: Shell, prefix: Option<&str>, home: Option<&str>) -> (r: Vec<String>)
    ensures
        views(r@) == spec_candidate_dirs(
            shell,
            match prefix {
                Some(p) => Some(p@),
                None => None,
            },
            match home {
                Some(h) => Some(h@),
                None => None,
            },
        ),
        r@.len() >= 1,
{
    let mut dirs: Vec<String> = Vec::new();
    if let Some(p) = prefix {
        dirs.push(path_join(p, homebrew_subdir_exec(shell)));
    }
    dirs.push(owned(system_dir_exec(shell)));
    if let Some(h) = home {
        dirs.push(path_join(h, home_subdir_exec(shell)));
    }
    assert(views(dirs@) =~= spec_candidate_dirs(
        shell,
        match prefix {
            Some(p) => Some(p@),
            None => None,
        },
        match home {
            Some(h) => Some(h@),
            None => None,
        },
    ));
    dirs
}

/// Calls `dirs::home_dir`: the user's home directory, which depends on the
/// environment and the operating system. A directory whose name is not
/// valid UTF-8 is carried on with `U+FFFD` in place of the invalid bytes.
#[verifier::external_body]
fn home_dir() -> (r: Option<String>) {
    dirs::home_dir().map(|d| d.to_string_lossy().into_owned())
}

/// Whether `path` starts with the components of `base`, as
/// `Path::starts_with` decides it.
pub uninterp spec fn spec_path_starts_with(path: Seq<char>, base: Seq<char>) -> bool;

/// Calls `Path::starts_with`; the result depends on the arguments alone.
#[verifier::external_body]
fn path_starts_with(path: &str, base: &str) -> (r: bool)
    ensures
        r == spec_path_starts_with(path@, base@),
{
    std::path::Path::new(path).starts_with(base)
}

/// The install directories for `shell` for the binary at `exe`, given the
/// home directory.
pub open spec fn spec_candidates_for_exe(shell: Shell, exe: Option<Seq<char>>, home: Option<Seq<char>>) -> Seq<Seq<char>> {
    spec_candidate_dirs(
        shell,
        match exe {
            Some(e) => spec_homebrew_prefix(e),
            None => None,
        },
        home,
    )
}

/// Lists the install directories for `shell` for the binary at `exe` (its
/// resolved path, when known), with the user's real home directory.
pub fn candidate_dirs(shell: Shell, exe: Option<&str>) -> (r: Vec<String>)
    ensures
        exists|home: Option<Seq<char>>| views(r@) == #[trigger] spec_candidates_for_exe(shell, opt_str(exe), home),
        r@.len() >= 1,
{
    let prefix = match exe {
        Some(e) => homebrew_prefix(e),
        None => None,
    };
    let home = home_dir();
    let p = match &prefix {
        Some(p) => Some(p.as_str()),
        None => None,
    };
    let r = match &home {
        Some(h) => candidate_dirs_from(shell, p, Some(h.as_str())),
        None => candidate_dirs_from(shell, p, None),
    };
    proof {
        let hv: Option<Seq<char>> = match home {
            Some(h) => Some(h@),
            None => None,
        };
        assert(views(r@) == spec_candidates_for_exe(shell, opt_str(exe), hv));
    }
    r
}

/// Whether `dir` lies under the home directory `home`; never without one.
pub open spec fn spec_under_home(dir: Seq<char>, home: Option<Seq<char>>) -> bool {
    match home {
        Some(h) => spec_path_starts_with(dir, h),
        None => false,
    }
}

/// Whether `dir` lies under the home directory `home` (when there is one).
pub fn is_user_dir_of(dir: &str, home: Option<&str>) -> (r: bool)
    ensures
        r == spec_under_home(dir@, opt_str(home)),
{
    match home {
        Some(h) => path_starts_with(dir, h),
        None => false,
    }
}

/// Whether `dir` lies under the user's home directory: only such
/// directories are created when missing.
pub fn is_user_dir(dir: &str) -> (r: bool)
    ensures
        exists|home: Option<Seq<char>>| r == #[trigger] spec_under_home(dir@, home),
{
    let home = home_dir();
    let r = match &home {
        Some(h) => is_user_dir_of(dir, Some(h.as_str())),
        None => false,
    };
    proof {
        let hv = match home {
            Some(h) => Some(h@),
            None => None,
        };
        assert(r == spec_under_home(dir@, hv));
    }
    r
}

/// The directories an install tries, in order: only `explicit` when given,
/// otherwise the candidates.
pub fn install_dirs(shell: Shell, explicit: Option<&str>, exe: Option<&str>) -> (r: Vec<String>)
    ensures
        explicit matches Some(d) ==> views(r@) == seq![d@],
        explicit is None ==> exists|home: Option<Seq<char>>|
            views(r@) == #[trigger] spec_candidates_for_exe(shell, opt_str(exe), home),
        r@.len() >= 1,
{
    match explicit {
        Some(d) => {
            let mut v: Vec<String> = Vec::new();
            v.push(owned(d));
            assert(views(v@) =~= seq![d@]);
            v
        },
        None => {
            let r = candidate_dirs(shell, exe);
            proof {
                let hv = choose|home: Option<Seq<char>>|
                    views(r@) == #[trigger] spec_candidates_for_exe(shell, opt_str(exe), home);
                assert(views(r@) == spec_candidates_for_exe(shell, opt_str(exe), hv));
            }
            r
        },
    }
}

/// The strings joined with `, `.
pub open spec fn joined(items: Seq<Seq<char>>) -> Seq<char>
    decreases items.len(),
{
    if items.len() == 0 {
        Seq::empty()
    } else if items.len() == 1 {
        items[0]
    } else {
        joined(items.drop_last()) + ", "@ + items.last()
    }
}

/// Joins strings with `, `.
pub fn join_comma(items: &Vec<String>) -> (r: String)
    ensures
        r@ == joined(views(items@)),
{
    let mut r = String::new();
    let n = items.len();
    let mut i: usize = 0;
    while i < n
        invariant
            n == items@.len(),
            i <= n,
            r@ == joined(views(items@).take(i as int)),
        decreases n - i,
    {
        assert(views(items@).take(i + 1).drop_last() =~= views(items@).take(i as int));
        if i > 0 {
            r.append(", ");
        } else {
            assert(views(items@).take(0) =~= Seq::<Seq<char>>::empty());
        }
        r.append(items[i].as_str());
        i += 1;
    }
    assert(views(items@).take(n as int) =~= views(items@));
    r
}

/// The error when no directory accepted the script: every directory tried
/// and, when there is one, the last error.
pub fn install_failure_message(tried: &Vec<String>, last_error: Option<&str>) -> (r: String)
    ensures
        r@ == "no writable completion directory found (tried "@ + joined(views(tried@)) + ")"@
            + match last_error {
            Some(e) => "; last error: "@ + e@,
            None => Seq::empty(),
        },
{
    let list = join_comma(tried);
    let mut r = join3("no writable completion directory found (tried ", list.as_str(), ")");
    if let Some(e) = last_error {
        r.append("; last error: ");
        r.append(e);
    }
    r
}

/// One failed attempt: the directory and what went wrong there.
pub fn attempt_error(dir: &str, error: &str) -> (r: String)
    ensures
        r@ == dir@ + ": "@ + error@,
{
    join3(dir, ": ", error)
}

/// What `completions` does.
pub enum CompletionsPlan {
    /// No shell given and none recognised: this message, exit 2.
    NoShell(String),
    /// Print the script for this shell to stdout.
    Print(Shell),
    /// Install the script for this shell, into this directory when given.
    Install(Shell, Option<String>),
}

/// Decides what `completions` does: the shell given, else the detected one
/// (else an error); printing unless `--install` or `--dir` was given.
pub fn completions_plan(
    bin_name: &str,
    shell: Option<Shell>,
    env: &Env,
    install: bool,
    dir: Option<&str>,
) -> (r: CompletionsPlan)
    ensures
        ({
            let chosen = match shell {
                Some(s) => Some(s),
                None => match env.spec_get("SHELL"@) {
                    Some(p) => spec_shell_from_path(p),
                    None => None,
                },
            };
            match chosen {
                None => (r matches CompletionsPlan::NoShell(m) && m@ == bin_name@
                    + ": error: could not detect the shell from $SHELL; pass one explicitly, e.g. `"@
                    + bin_name@ + " completions zsh`"@),
                Some(s) => if !install && dir is None {
                    r == CompletionsPlan::Print(s)
                } else {
                    (r matches CompletionsPlan::Install(t, d) && t == s && match dir {
                        Some(x) => (d matches Some(y) && y@ == x@),
                        None => d is None,
                    })
                },
            }
        }),
{
    let chosen = match shell {
        Some(s) => Some(s),
        None => detect_shell(env),
    };
    match chosen {
        None => {
            let mut m = join2(
                bin_name,
                ": error: could not detect the shell from $SHELL; pass one explicitly, e.g. `",
            );
            m.append(bin_name);
            m.append(" completions zsh`");
            CompletionsPlan::NoShell(m)
        },
        Some(s) => if !install && dir.is_none() {
            CompletionsPlan::Print(s)
        } else {
            CompletionsPlan::Install(
                s,
                match dir {
                    Some(d) => Some(owned(d)),
                    None => None,
                },
            )
        },
    }
}

/// The shells whose completion scripts ship with the packages.
pub open spec fn spec_packaged_shells() -> Seq<Shell> {
    seq![Shell::Zsh, Shell::Bash, Shell::Fish]
}

/// The shells whose completion scripts ship with the packages: zsh, bash
/// and fish.
pub fn packaged_shells() -> (r: Vec<Shell>)
    ensures
        r@ == spec_packaged_shells(),
{
    let v = vec![Shell::Zsh, Shell::Bash, Shell::Fish];
    assert(v@ =~= spec_packaged_shells());
    v
}

/// Where a completion script was written, and whether its directory needs
/// adding to zsh's `fpath`.
pub struct Installed {
    pub path: String,
    pub needs_fpath_hint: bool,
}

/// The record of a script written to `path` in directory `dir`.
pub fn installed(shell: Shell, dir: &str, path: String) -> (r: Installed)
    ensures
        r.path@ == path@,
        r.needs_fpath_hint ==> shell == Shell::Zsh,
        exists|home: Option<Seq<char>>| r.needs_fpath_hint == #[trigger] spec_fpath_hint(shell, dir@, home),
{
    let hint = needs_fpath_hint(shell, dir);
    Installed { path, needs_fpath_hint: hint }
}

/// The exit code a plan settles by itself: 2 when no shell was found, 0
/// when the script is only printed; an install's code depends on how it
/// went.
pub fn plan_exit_code(plan: &CompletionsPlan) -> (r: Option<u8>)
    ensures
        r == match plan {
            CompletionsPlan::NoShell(_) => Some(2u8),
            CompletionsPlan::Print(_) => Some(0u8),
            CompletionsPlan::Install(_, _) => None::<u8>,
        },
{
    match plan {
        CompletionsPlan::NoShell(_) => Some(2),
        CompletionsPlan::Print(_) => Some(0),
        CompletionsPlan::Install(_, _) => None,
    }
}

/// How an install ends: exit 0 with the lines that say where the script
/// went, or exit 5 with the error line.
pub fn install_end(shell: Shell, bin_name: &str, result: &Result<Installed, String>) -> (r: (u8, Vec<String>, Option<String>))
    ensures
        match result {
            Ok(done) => r.0 == 0 && views(r.1@) == spec_installed_lines(shell, done.path@, done.needs_fpath_hint)
                && r.2 is None,
            Err(e) => r.0 == 5 && r.1@.len() == 0 && (r.2 matches Some(m) && m@ == bin_name@ + ": error: "@ + e@),
        },
{
    match result {
        Ok(done) => (0, installed_lines(shell, done.path.as_str(), done.needs_fpath_hint), None),
        Err(e) => (5, Vec::new(), Some(join3(bin_name, ": error: ", e.as_str()))),
    }
}

/// What a successful install prints: where the script went, then either
/// how to put a user directory on zsh's `fpath` or how to pick it up.
pub open spec fn spec_installed_lines(shell: Shell, path: Seq<char>, needs_fpath_hint: bool) -> Seq<Seq<char>> {
    let first = "installed "@ + shell.spec_name() + " completions to "@ + path;
    if needs_fpath_hint {
        let dir = match spec_path_parent(path) {
            Some(d) => d,
            None => Seq::empty(),
        };
        seq![
            first,
            Seq::empty(),
            "that directory is not on zsh's fpath by default \u{2014} add to ~/.zshrc:"@,
            "  fpath=("@ + dir + " $fpath)"@,
            "  autoload -Uz compinit && compinit"@,
        ]
    } else {
        seq![first, "start a new shell, or run: exec "@ + shell.spec_name()]
    }
}

/// The lines a successful install prints.
pub fn installed_lines(shell: Shell, path: &str, needs_fpath_hint: bool) -> (r: Vec<String>)
    ensures
        views(r@) == spec_installed_lines(shell, path@, needs_fpath_hint),
{
    let mut first = join3("installed ", shell.name(), " completions to ");
    first.append(path);
    let mut lines: Vec<String> = Vec::new();
    lines.push(first);
    if needs_fpath_hint {
        let dir = match path_parent(path) {
            Some(d) => d,
            None => String::new(),
        };
        lines.push(String::new());
        lines.push(owned("that directory is not on zsh's fpath by default \u{2014} add to ~/.zshrc:"));
        lines.push(join3("  fpath=(", dir.as_str(), " $fpath)"));
        lines.push(owned("  autoload -Uz compinit && compinit"));
    } else {
        lines.push(join2("start a new shell, or run: exec ", shell.name()));
    }
    assert(views(lines@) =~= spec_installed_lines(shell, path@, needs_fpath_hint));
    lines
}

/// Whether a script for `shell` put into `dir` needs the `fpath` hint, with
/// `home` as the home directory: a zsh script under the home directory.
pub open spec fn spec_fpath_hint(shell: Shell, dir: Seq<char>, home: Option<Seq<char>>) -> bool {
    shell == Shell::Zsh && spec_under_home(dir, home)
}

/// Whether an install into `dir` should print the `fpath` hint: a zsh
/// script put under the home directory, which zsh does not read by default.
pub fn needs_fpath_hint(shell: Shell, dir: &str) -> (r: bool)
    ensures
        r ==> shell == Shell::Zsh,
        exists|home: Option<Seq<char>>| r == #[trigger] spec_fpath_hint(shell, dir@, home),
{
    if shell == Shell::Zsh {
        let r = is_user_dir(dir);
        proof {
            let home = choose|home: Option<Seq<char>>| r == #[trigger] spec_under_home(dir@, home);
            assert(r == spec_fpath_hint(shell, dir@, home));
        }
        r
    } else {
        assert(!spec_fpath_hint(shell, dir@, None));
        false
    }
}

/// What the first-run completion reminder needs to know.
pub struct NoticeInputs {
    pub quiet: bool,
    pub stderr_is_terminal: bool,
    pub ci_set: bool,
    /// The detected login shell.
    pub shell: Option<Shell>,
    pub fsapp_installed: bool,
    pub fset_installed: bool,
    /// Whether the reminder's cache has a known location.
    pub cache_located: bool,
    /// The shell the reminder was last shown for, from its cache.
    pub shown_for_shell: Option<String>,
}

/// A reminder to show.
#[derive(Debug, Clone, Copy, PartialEq, Eq, Structural)]
pub struct Notice {
    pub shell: Shell,
    pub fsapp_missing: bool,
    pub fset_missing: bool,
}

/// The reminder due, if any: only when someone reads stderr (not quiet, a
/// terminal, not CI), the shell is recognised, a script is missing, the
/// cache has a location, and the reminder was not already shown for this
/// shell.
pub open spec fn spec_notice(i: NoticeInputs) -> Option<Notice> {
    if i.quiet || !i.stderr_is_terminal || i.ci_set {
        None
    } else {
        match i.shell {
            None => None,
            Some(s) => if i.fsapp_installed && i.fset_installed {
                None
            } else if !i.cache_located {
                None
            } else if i.shown_for_shell matches Some(t) && t@ == s.spec_name() {
                None
            } else {
                Some(Notice { shell: s, fsapp_missing: !i.fsapp_installed, fset_missing: !i.fset_installed })
            },
        }
    }
}

/// Decides whether to remind the user that tab completion is not installed.
pub fn maybe_print(i: &NoticeInputs) -> (r: Option<Notice>)
    ensures
        r == spec_notice(*i),
{
    if i.quiet || !i.stderr_is_terminal || i.ci_set {
        return None;
    }
    let s = i.shell?;
    if i.fsapp_installed && i.fset_installed {
        return None;
    }
    if !i.cache_located {
        return None;
    }
    if let Some(t) = &i.shown_for_shell {
        if str_eq(t.as_str(), s.name()) {
            return None;
        }
    }
    Some(Notice { shell: s, fsapp_missing: !i.fsapp_installed, fset_missing: !i.fset_installed })
}

/// What the reminder's cache records after showing `n`: its shell.
pub fn shown_record(n: &Notice) -> (r: String)
    ensures
        r@ == n.shell.spec_name(),
{
    owned(n.shell.name())
}

/// The reminder is shown at most once per shell: once it is recorded as
/// shown for a shell, the same situation shows nothing.
pub proof fn law_notice_shown_once(i: NoticeInputs, recorded: String)
    requires
        spec_notice(i) matches Some(n) && recorded@ == n.shell.spec_name(),
    ensures
        spec_notice(NoticeInputs { shown_for_shell: Some(recorded), ..i }) is None,
{
}

/// The reminder's lines after its icon: the headline, then one install
/// command for each binary that lacks its script.
pub fn notice_lines(n: &Notice) -> (r: Vec<String>)
    ensures
        views(r@) == seq!["tab completion for "@ + n.shell.spec_name() + " isn't installed yet"@] + (if n.fsapp_missing {
            seq!["  fsapp completions --install"@]
        } else {
            Seq::empty()
        }) + (if n.fset_missing {
            seq!["  fset completions --install"@]
        } else {
            Seq::empty()
        }),
{
    let mut lines: Vec<String> = Vec::new();
    lines.push(join3("tab completion for ", n.shell.name(), " isn't installed yet"));
    if n.fsapp_missing {
        lines.push(owned("  fsapp completions --install"));
    }
    if n.fset_missing {
        lines.push(owned("  fset completions --install"));
    }
    proof {
        let a = seq!["tab completion for "@ + n.shell.spec_name() + " isn't installed yet"@];
        let b: Seq<Seq<char>> = if n.fsapp_missing {
            seq!["  fsapp completions --install"@]
        } else {
            Seq::empty()
        };
        let c: Seq<Seq<char>> = if n.fset_missing {
            seq!["  fset completions --install"@]
        } else {
            Seq::empty()
        };
        assert(views(lines@) =~= a + b + c);
    }
    lines
}

} // verus!
