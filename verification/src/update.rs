//! The update check's decisions: how long a cached answer stays good,
//! whether a released version is newer than this build, which upgrade
//! command to suggest, and when the automatic check runs at all.

use vstd::prelude::*;
use vstd::string::*;
use vstd::std_specs::cmp::PartialOrdSpecImpl;
use std::cmp::Ordering;

use crate::resolve::{resolve_bool, spec_resolve_bool, Env};
use crate::text::{contains, dec, has_infix, has_prefix, join2, join3, owned, starts_with};

verus! {

/// How long a successful answer stays good: one day.
pub const CACHE_TTL_OK_SECS: u64 = 86400;

/// How long a failed attempt holds off the next one: one hour.
pub const CACHE_TTL_FAIL_SECS: u64 = 3600;

/// The releases page named in upgrade suggestions.
pub open spec fn releases_page() -> Seq<char> {
    "https://github.com/naut54/fsapp/releases/latest"@
}

/// The last answer of the automatic check, as stored on disk.
#[derive(Debug)]
pub struct Cache {
    /// Unix seconds of the last attempt.
    pub last_checked: u64,
    /// The latest release tag it found; `None` records a failed attempt.
    pub latest_version: Option<String>,
}

/// Whether an answer recorded at `last_checked` is still good at `now`:
/// its age is below one day for a success and one hour for a failure, and
/// a time in the future is never good.
pub open spec fn spec_is_fresh(last_checked: u64, succeeded: bool, now: u64) -> bool {
    let ttl = if succeeded {
        CACHE_TTL_OK_SECS
    } else {
        CACHE_TTL_FAIL_SECS
    };
    now >= last_checked && now - last_checked < ttl
}

/// The current Unix time in whole seconds; 0 for a clock set before 1970.
#[verifier::external_body]
pub(crate) fn now_unix() -> u64 {
    match std::time::SystemTime::now().duration_since(std::time::UNIX_EPOCH) {
        Ok(d) => d.as_secs(),
        Err(_) => 0,
    }
}

impl Cache {
    /// Whether this answer is still good at time `now`.
    pub fn is_fresh_at(&self, now: u64) -> (r: bool)
        ensures
            r == spec_is_fresh(self.last_checked, self.latest_version is Some, now),
    {
        let ttl = if self.latest_version.is_some() {
            CACHE_TTL_OK_SECS
        } else {
            CACHE_TTL_FAIL_SECS
        };
        match now.checked_sub(self.last_checked) {
            Some(age) => age < ttl,
            None => false,
        }
    }

    /// Whether this answer is still good now.
    pub fn is_fresh(&self) -> (r: bool)
        ensures
            exists|now: u64| r == #[trigger] spec_is_fresh(self.last_checked, self.latest_version is Some, now),
    {
        let now = now_unix();
        self.is_fresh_at(now)
    }
}

/// A failed attempt is retried no later than a successful answer of the
/// same age is trusted: whenever the failure still holds, so does the
/// success.
pub proof fn law_failure_expires_first(last_checked: u64, now: u64)
    ensures
        spec_is_fresh(last_checked, false, now) ==> spec_is_fresh(last_checked, true, now),
{
}

/// A last check stamped in the future is stale, whatever it recorded.
pub proof fn law_future_stamp_is_stale(last_checked: u64, succeeded: bool, now: u64)
    requires
        last_checked > now,
    ensures
        !spec_is_fresh(last_checked, succeeded, now),
{
}

/// What the automatic check does with its cache.
pub enum CacheDecision {
    /// The cache is fresh: this is the tag it recorded, `None` for a
    /// recorded failure, which means "do not ask again yet".
    Cached(Option<String>),
    /// Ask the network, after stamping the cache.
    Refresh,
}

/// Chooses between the cached answer and a new request: a fresh cache
/// (success or failure) is answered from, anything else is refreshed.
pub fn cache_decision(cached: Option<Cache>, now: u64) -> (r: CacheDecision)
    ensures
        match cached {
            Some(c) => if spec_is_fresh(c.last_checked, c.latest_version is Some, now) {
                r matches CacheDecision::Cached(t) && t == c.latest_version
            } else {
                r is Refresh
            },
            None => r is Refresh,
        },
{
    match cached {
        Some(c) => {
            if c.is_fresh_at(now) {
                CacheDecision::Cached(c.latest_version)
            } else {
                CacheDecision::Refresh
            }
        },
        None => CacheDecision::Refresh,
    }
}

/// The stamp written before a request, so that an interrupted refresh still
/// holds off the next attempt for the failure TTL.
pub fn stamp(now: u64) -> (r: Cache)
    ensures
        r.last_checked == now,
        r.latest_version is None,
{
    Cache { last_checked: now, latest_version: None }
}

/// The cache entry recording a request's outcome at `now`.
pub fn record(now: u64, fetched: Option<String>) -> (r: Cache)
    ensures
        r.last_checked == now,
        r.latest_version == fetched,
{
    Cache { last_checked: now, latest_version: fetched }
}

/// How semver reads a version: its canonical text, or the message of the
/// parse error.
pub uninterp spec fn spec_semver_parse(text: Seq<char>) -> Result<Seq<char>, Seq<char>>;

/// semver's ordering of two versions given by their canonical text:
/// `-1`, `0` or `1`.
pub uninterp spec fn spec_semver_order(a: Seq<char>, b: Seq<char>) -> i8;

/// Whether `text` is the canonical text of a semver version.
pub open spec fn is_canonical(text: Seq<char>) -> bool {
    spec_semver_parse(text) == Ok::<Seq<char>, Seq<char>>(text)
}

/// Calls `semver::Version::parse` and writes the version back out with its
/// `Display`, or the error with its `Display`. Displaying a parsed version
/// gives text that parses back to itself.
#[verifier::external_body]
fn semver_parse(text: &str) -> (r: Result<String, String>)
    ensures
        match r {
            Ok(v) => spec_semver_parse(text@) == Ok::<Seq<char>, Seq<char>>(v@) && is_canonical(v@),
            Err(e) => spec_semver_parse(text@) == Err::<Seq<char>, Seq<char>>(e@),
        },
{
    match semver::Version::parse(text) {
        Ok(v) => Ok(v.to_string()),
        Err(e) => Err(e.to_string()),
    }
}

/// Calls `semver::Version::new` and writes it with its `Display`, which for
/// a version without pre-release or build parts is `MAJOR.MINOR.PATCH`.
#[verifier::external_body]
fn semver_new(major: u64, minor: u64, patch: u64) -> (r: String)
    ensures
        r@ == dec(major as nat) + "."@ + dec(minor as nat) + "."@ + dec(patch as nat),
        is_canonical(r@),
{
    semver::Version::new(major, minor, patch).to_string()
}

/// Calls semver's `Ord` on the two versions whose canonical texts are given.
#[verifier::external_body]
fn semver_order(a: &str, b: &str) -> (r: i8)
    requires
        is_canonical(a@),
        is_canonical(b@),
    ensures
        r == spec_semver_order(a@, b@),
        -1 <= r <= 1,
{
    match (semver::Version::parse(a), semver::Version::parse(b)) {
        (Ok(x), Ok(y)) => match x.cmp(&y) {
            std::cmp::Ordering::Less => -1,
            std::cmp::Ordering::Equal => 0,
            std::cmp::Ordering::Greater => 1,
        },
        _ => 0,
    }
}

/// A semantic version, held as its canonical text.
#[derive(Debug, PartialEq, Eq)]
pub struct Version {
    text: String,
}

impl Version {
    #[verifier::type_invariant]
    spec fn canonical(self) -> bool {
        is_canonical(self.text@)
    }

    /// The version's canonical text.
    pub closed spec fn spec_text(self) -> Seq<char> {
        self.text@
    }

    /// `MAJOR.MINOR.PATCH`, with no pre-release or build part.
    pub fn new(major: u64, minor: u64, patch: u64) -> (r: Version)
        ensures
            r.spec_text() == dec(major as nat) + "."@ + dec(minor as nat) + "."@ + dec(patch as nat),
    {
        Version { text: semver_new(major, minor, patch) }
    }

    /// The version's canonical text.
    pub fn as_str(&self) -> (r: &str)
        ensures
            r@ == self.spec_text(),
    {
        self.text.as_str()
    }

    /// semver's ordering of `self` and `other`: `-1`, `0` or `1`.
    pub fn compare(&self, other: &Version) -> (r: i8)
        ensures
            r == spec_semver_order(self.spec_text(), other.spec_text()),
    {
        proof {
            use_type_invariant(self);
            use_type_invariant(other);
        }
        semver_order(self.text.as_str(), other.text.as_str())
    }
}

/// The ordering that semver's comparison result stands for.
pub open spec fn order_of(o: i8) -> Option<Ordering> {
    if o < 0 {
        Some(Ordering::Less)
    } else if o == 0 {
        Some(Ordering::Equal)
    } else {
        Some(Ordering::Greater)
    }
}

impl PartialOrd for Version {
    fn partial_cmp(&self, other: &Version) -> (r: Option<Ordering>) {
        let o = self.compare(other);
        if o < 0 {
            Some(Ordering::Less)
        } else if o == 0 {
            Some(Ordering::Equal)
        } else {
            Some(Ordering::Greater)
        }
    }
}

impl PartialOrdSpecImpl for Version {
    open spec fn obeys_partial_cmp_spec() -> bool {
        true
    }

    open spec fn partial_cmp_spec(&self, other: &Version) -> Option<Ordering> {
        order_of(spec_semver_order(self.spec_text(), other.spec_text()))
    }
}

/// Why an update check gave no verdict.
#[derive(Debug)]
pub enum UpdateError {
    /// The request to GitHub failed.
    Network(String),
    /// The latest release's tag is not `vMAJOR.MINOR.PATCH`.
    UnparsableTag(String),
    /// This build's own version does not parse.
    Current(String),
}

impl UpdateError {
    /// The message shown to the user.
    pub open spec fn spec_message(&self) -> Seq<char> {
        match self {
            UpdateError::Network(e) => "could not reach GitHub: "@ + e@,
            UpdateError::UnparsableTag(t) => "unrecognised release tag \""@ + t@ + "\""@,
            UpdateError::Current(e) => "could not parse this build's own version: "@ + e@,
        }
    }

    /// The message shown to the user.
    pub fn to_string(&self) -> (r: String)
        ensures
            r@ == self.spec_message(),
    {
        match self {
            UpdateError::Network(e) => join2("could not reach GitHub: ", e.as_str()),
            UpdateError::UnparsableTag(t) => join3("unrecognised release tag \"", t.as_str(), "\""),
            UpdateError::Current(e) => join2("could not parse this build's own version: ", e.as_str()),
        }
    }
}

/// A release tag without its one optional leading `v`.
pub open spec fn strip_v(tag: Seq<char>) -> Seq<char> {
    if tag.len() > 0 && tag[0] == 'v' {
        tag.drop_first()
    } else {
        tag
    }
}

/// Reads a release tag, `vMAJOR.MINOR.PATCH` or the same without the `v`.
pub fn parse_tag(tag: &str) -> (r: Result<Version, UpdateError>)
    ensures
        match spec_semver_parse(strip_v(tag@)) {
            Ok(t) => (r matches Ok(v) && v.spec_text() == t),
            Err(_) => (r matches Err(e) && (e matches UpdateError::UnparsableTag(t) && t@ == tag@)),
        },
{
    let n = tag.unicode_len();
    let body = if n > 0 && tag.get_char(0) == 'v' {
        tag.substring_char(1, n)
    } else {
        tag
    };
    assert(body@ =~= strip_v(tag@));
    match semver_parse(body) {
        Ok(text) => Ok(Version { text }),
        Err(_) => Err(UpdateError::UnparsableTag(owned(tag))),
    }
}

/// What the check concluded.
#[derive(Debug)]
pub enum Status {
    /// This build is the latest (or newer); carries this build's version.
    UpToDate(Version),
    /// A newer release exists.
    Newer { latest: Version, current: Version },
}

/// Compares the latest release's tag with this build's version `current`:
/// `Newer` exactly when semver orders the release above this build.
pub fn compare(latest_tag: &str, current: &str) -> (r: Result<Status, UpdateError>)
    ensures
        match spec_semver_parse(strip_v(latest_tag@)) {
            Err(_) => (r matches Err(e) && (e matches UpdateError::UnparsableTag(t) && t@ == latest_tag@)),
            Ok(l) => match spec_semver_parse(current@) {
                Err(m) => (r matches Err(e) && (e matches UpdateError::Current(t) && t@ == m)),
                Ok(c) => if spec_semver_order(l, c) > 0 {
                    (r matches Ok(s) && (s matches Status::Newer { latest, current } && latest.spec_text()
                        == l && current.spec_text() == c))
                } else {
                    (r matches Ok(s) && (s matches Status::UpToDate(v) && v.spec_text() == c))
                },
            },
        },
{
    let latest = parse_tag(latest_tag)?;
    let current = match semver_parse(current) {
        Ok(text) => Version { text },
        Err(e) => return Err(UpdateError::Current(e)),
    };
    if latest.compare(&current) > 0 {
        Ok(Status::Newer { latest, current })
    } else {
        Ok(Status::UpToDate(current))
    }
}

/// The one upgrade command that fits how the binary at `exe` was installed:
/// Homebrew for a Cellar or homebrew path, the shell installer for a cargo
/// install, the `.deb` for `/usr/bin/`, and the releases page otherwise.
pub open spec fn spec_upgrade_command(exe: Seq<char>) -> Seq<char> {
    if has_infix(exe, "/Cellar/"@) || has_infix(exe, "/homebrew/"@) {
        "brew update && brew upgrade naut54/tap/fsapp"@
    } else if has_infix(exe, "/.cargo/"@) {
        "curl --proto '=https' --tlsv1.2 -LsSf "@ + releases_page() + "/download/fsapp-installer.sh | sh"@
    } else if has_prefix(exe, "/usr/bin/"@) {
        "download the .deb from "@ + releases_page() + ", then: sudo dpkg -i fsapp_*.deb"@
    } else {
        "see "@ + releases_page()
    }
}

/// Names the upgrade command for the binary installed at `exe` (its
/// resolved path, or empty when unknown). Never empty.
pub fn upgrade_command(exe: &str) -> (r: String)
    ensures
        r@ == spec_upgrade_command(exe@),
        r@.len() > 0,
{
    let page = "https://github.com/naut54/fsapp/releases/latest";
    let r = if contains(exe, "/Cellar/") || contains(exe, "/homebrew/") {
        owned("brew update && brew upgrade naut54/tap/fsapp")
    } else if contains(exe, "/.cargo/") {
        join3("curl --proto '=https' --tlsv1.2 -LsSf ", page, "/download/fsapp-installer.sh | sh")
    } else if starts_with(exe, "/usr/bin/") {
        join3("download the .deb from ", page, ", then: sudo dpkg -i fsapp_*.deb")
    } else {
        join2("see ", page)
    };
    proof {
        reveal_strlit("brew update && brew upgrade naut54/tap/fsapp");
        reveal_strlit("curl --proto '=https' --tlsv1.2 -LsSf ");
        reveal_strlit("download the .deb from ");
        reveal_strlit("see ");
    }
    r
}

/// Whether the automatic check runs: not when turned off by
/// `--no-update-check`, `FSAPP_UPDATE_NO_CHECK` or `update.no-check`, and
/// not when nobody would read the notice (`--quiet`, stderr not a terminal,
/// or `CI` set).
pub fn auto_check_enabled(
    no_check_flag: bool,
    config_no_check: Option<bool>,
    quiet: bool,
    env: &Env,
    stderr_is_terminal: bool,
    ci_set: bool,
) -> (r: bool)
    ensures
        r == (!spec_resolve_bool(no_check_flag, env, "update"@, "no-check"@, config_no_check) && !quiet
            && stderr_is_terminal && !ci_set),
{
    if resolve_bool(no_check_flag, "update", "no-check", config_no_check, env) {
        return false;
    }
    if quiet || !stderr_is_terminal {
        return false;
    }
    if ci_set {
        return false;
    }
    true
}

/// The headline of a newer-version notice.
pub fn newer_headline(latest: &Version, current: &Version) -> (r: String)
    ensures
        r@ == "fsapp "@ + latest.spec_text() + " is available (you have "@ + current.spec_text()
            + ")"@,
{
    let mut r = join2("fsapp ", latest.as_str());
    r.append(" is available (you have ");
    r.append(current.as_str());
    r.append(")");
    r
}

/// The line of an up-to-date verdict.
pub fn latest_line(current: &Version) -> (r: String)
    ensures
        r@ == "fsapp "@ + current.spec_text() + " is the latest version"@,
{
    join3("fsapp ", current.as_str(), " is the latest version")
}

} // verus!
