//! Value precedence for every setting: a flag given on the command line,
//! then the `FSAPP_<SECTION>_<KEY>` environment variable, then the config
//! file, then the file-engine builder's own default.

use vstd::prelude::*;

use crate::enums::{CompressFormat, OnError, SortOrder};
use crate::text::{join2, parse_unsigned, replace_char, replace_char_spec, spec_parse_unsigned, str_eq};

verus! {

/// The environment variables a run sees, as name/value pairs. Variables
/// whose name or value is not valid Unicode are left out, exactly as
/// `std::env::var` reports them as absent.
pub struct Env {
    pub vars: Vec<(String, String)>,
}

/// The value of the first variable named `name`, if any.
pub open spec fn spec_env_lookup(vars: Seq<(String, String)>, name: Seq<char>) -> Option<Seq<char>>
    decreases vars.len(),
{
    if vars.len() == 0 {
        None
    } else if vars[0].0@ == name {
        Some(vars[0].1@)
    } else {
        spec_env_lookup(vars.drop_first(), name)
    }
}

impl Env {
    /// No variables at all.
    pub fn empty() -> (r: Env)
        ensures
            r.vars@.len() == 0,
    {
        Env { vars: Vec::new() }
    }

    /// The value of variable `name`.
    pub open spec fn spec_get(&self, name: Seq<char>) -> Option<Seq<char>> {
        spec_env_lookup(self.vars@, name)
    }

    /// Looks up variable `name`.
    pub fn get(&self, name: &str) -> (r: Option<&String>)
        ensures
            match self.spec_get(name@) {
                Some(v) => (r matches Some(s) && s@ == v),
                None => r is None,
            },
    {
        let n = self.vars.len();
        let mut i: usize = 0;
        assert(self.vars@.skip(0) =~= self.vars@);
        while i < n
            invariant
                n == self.vars@.len(),
                i <= n,
                spec_env_lookup(self.vars@.skip(i as int), name@) == self.spec_get(name@),
            decreases n - i,
        {
            assert(self.vars@.skip(i as int).drop_first() =~= self.vars@.skip(i + 1));
            if str_eq(self.vars[i].0.as_str(), name) {
                return Some(&self.vars[i].1);
            }
            i += 1;
        }
        None
    }
}

/// The Unicode upper-case form of a string, as `str::to_uppercase` gives it.
pub uninterp spec fn spec_to_uppercase(s: Seq<char>) -> Seq<char>;

/// Calls `str::to_uppercase`; the result depends on the argument alone.
#[verifier::external_body]
fn to_uppercase(s: &str) -> (r: String)
    ensures
        r@ == spec_to_uppercase(s@),
{
    s.to_uppercase()
}

/// The environment variable that overrides `<section>.<key>`:
/// `FSAPP_<SECTION>_<KEY>`, upper-cased, with `-` turned into `_`.
pub open spec fn spec_env_var_name(section: Seq<char>, key: Seq<char>) -> Seq<char> {
    "FSAPP_"@ + spec_to_uppercase(section) + "_"@ + replace_char_spec(spec_to_uppercase(key), '-', '_')
}

/// Names the environment variable that overrides `<section>.<key>`.
pub fn env_var_name(section: &str, key: &str) -> (r: String)
    ensures
        r@ == spec_env_var_name(section@, key@),
{
    let s = to_uppercase(section);
    let k = to_uppercase(key);
    let mut r = join2("FSAPP_", s.as_str());
    r.append("_");
    let k2 = replace_char(k.as_str(), '-', '_');
    r.append(k2.as_str());
    r
}

/// A setting's type: what an environment variable's text means for it.
pub trait ConfigValue: Sized + Copy {
    /// The value that `text` denotes, if any.
    spec fn spec_from_text(text: Seq<char>) -> Option<Self>;

    /// Reads a value from text, as the type's `FromStr` does.
    fn from_text(text: &str) -> (r: Option<Self>)
        ensures
            r == Self::spec_from_text(text@),
    ;
}

impl ConfigValue for u8 {
    open spec fn spec_from_text(text: Seq<char>) -> Option<u8> {
        match spec_parse_unsigned(text, 255) {
            Some(v) => Some(v as u8),
            None => None,
        }
    }

    fn from_text(text: &str) -> (r: Option<u8>) {
        match parse_unsigned(text, 255) {
            Some(v) => Some(v as u8),
            None => None,
        }
    }
}

impl ConfigValue for u64 {
    open spec fn spec_from_text(text: Seq<char>) -> Option<u64> {
        match spec_parse_unsigned(text, u64::MAX as nat) {
            Some(v) => Some(v as u64),
            None => None,
        }
    }

    fn from_text(text: &str) -> (r: Option<u64>) {
        parse_unsigned(text, u64::MAX)
    }
}

impl ConfigValue for OnError {
    open spec fn spec_from_text(text: Seq<char>) -> Option<OnError> {
        OnError::spec_parse(text)
    }

    fn from_text(text: &str) -> (r: Option<OnError>) {
        OnError::parse(text)
    }
}

impl ConfigValue for SortOrder {
    open spec fn spec_from_text(text: Seq<char>) -> Option<SortOrder> {
        SortOrder::spec_parse(text)
    }

    fn from_text(text: &str) -> (r: Option<SortOrder>) {
        SortOrder::parse(text)
    }
}

impl ConfigValue for CompressFormat {
    open spec fn spec_from_text(text: Seq<char>) -> Option<CompressFormat> {
        CompressFormat::spec_parse(text)
    }

    fn from_text(text: &str) -> (r: Option<CompressFormat>) {
        CompressFormat::parse(text)
    }
}

/// The environment's value for `<section>.<key>`, when it is set and reads
/// as a value of the setting's type.
pub open spec fn spec_env_value<T: ConfigValue>(env: &Env, section: Seq<char>, key: Seq<char>) -> Option<T> {
    match env.spec_get(spec_env_var_name(section, key)) {
        Some(text) => T::spec_from_text(text),
        None => None,
    }
}

fn env_value<T: ConfigValue>(env: &Env, section: &str, key: &str) -> (r: Option<T>)
    ensures
        r == spec_env_value::<T>(env, section@, key@),
{
    let name = env_var_name(section, key);
    match env.get(name.as_str()) {
        Some(text) => T::from_text(text.as_str()),
        None => None,
    }
}

/// The first of `cli`, the environment's value and `config` that is set.
pub open spec fn spec_resolve<T: ConfigValue>(
    cli: Option<T>,
    env: &Env,
    section: Seq<char>,
    key: Seq<char>,
    config: Option<T>,
) -> Option<T> {
    match cli {
        Some(v) => Some(v),
        None => match spec_env_value::<T>(env, section, key) {
            Some(v) => Some(v),
            None => config,
        },
    }
}

/// Resolves an optional setting: the command-line value when given, else
/// the environment's value when it parses, else the config file's value.
/// `None` leaves the builder's default in place.
pub fn resolve<T: ConfigValue>(cli: Option<T>, section: &str, key: &str, config: Option<T>, env: &Env) -> (r: Option<T>)
    ensures
        r == spec_resolve(cli, env, section@, key@, config),
{
    match cli {
        Some(v) => Some(v),
        None => match env_value::<T>(env, section, key) {
            Some(v) => Some(v),
            None => config,
        },
    }
}

/// Rust's `bool::from_str`: exactly `true` or `false`.
pub open spec fn spec_parse_bool(text: Seq<char>) -> Option<bool> {
    if text == "true"@ {
        Some(true)
    } else if text == "false"@ {
        Some(false)
    } else {
        None
    }
}

/// A presence-only flag: on when given; otherwise the environment's value
/// when it parses, else the config file's value, else off.
pub open spec fn spec_resolve_bool(
    cli_flag: bool,
    env: &Env,
    section: Seq<char>,
    key: Seq<char>,
    config: Option<bool>,
) -> bool {
    if cli_flag {
        true
    } else {
        match env.spec_get(spec_env_var_name(section, key)) {
            Some(text) => match spec_parse_bool(text) {
                Some(v) => v,
                None => match config {
                    Some(v) => v,
                    None => false,
                },
            },
            None => match config {
                Some(v) => v,
                None => false,
            },
        }
    }
}

/// Resolves a presence-only boolean flag. Off everywhere is every
/// builder's own default for these flags.
pub fn resolve_bool(cli_flag: bool, section: &str, key: &str, config: Option<bool>, env: &Env) -> (r: bool)
    ensures
        r == spec_resolve_bool(cli_flag, env, section@, key@, config),
{
    if cli_flag {
        return true;
    }
    let name = env_var_name(section, key);
    if let Some(text) = env.get(name.as_str()) {
        if str_eq(text.as_str(), "true") {
            return true;
        } else if str_eq(text.as_str(), "false") {
            return false;
        }
    }
    match config {
        Some(v) => v,
        None => false,
    }
}

/// The order of precedence: a value given on the command line wins over
/// the environment and the config file; without one, a value the
/// environment sets (and that parses) wins over the config file; the
/// config file's value applies only when neither gives one; and with none
/// of the three, the builder's default stays (`None`).
pub proof fn law_precedence<T: ConfigValue>(
    cli: Option<T>,
    env: &Env,
    section: Seq<char>,
    key: Seq<char>,
    config: Option<T>,
)
    ensures
        cli matches Some(v) ==> spec_resolve(cli, env, section, key, config) == Some(v),
        cli is None ==> (spec_env_value::<T>(env, section, key) matches Some(e) ==> spec_resolve(
            cli,
            env,
            section,
            key,
            config,
        ) == Some(e)),
        cli is None && spec_env_value::<T>(env, section, key) is None ==> spec_resolve(
            cli,
            env,
            section,
            key,
            config,
        ) == config,
        (cli is None && spec_env_value::<T>(env, section, key) is None && config is None) ==> spec_resolve(
            cli,
            env,
            section,
            key,
            config,
        ) is None,
{
}

/// The same order for a presence-only flag: given on the command line it is
/// on whatever else says; otherwise a `true`/`false` in the environment
/// wins over the config file; with nothing set anywhere it is off.
pub proof fn law_bool_precedence(env: &Env, section: Seq<char>, key: Seq<char>, config: Option<bool>)
    ensures
        spec_resolve_bool(true, env, section, key, config),
        env.spec_get(spec_env_var_name(section, key)) matches Some(t) ==> (spec_parse_bool(t) matches Some(
            v,
        ) ==> spec_resolve_bool(false, env, section, key, config) == v),
        env.spec_get(spec_env_var_name(section, key)) is None ==> spec_resolve_bool(
            false,
            env,
            section,
            key,
            config,
        ) == (config == Some(true)),
{
}

} // verus!
