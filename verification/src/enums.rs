//! The enumerated settings shared by the command line and the config file,
//! and the shells that completion scripts are written for.

use vstd::prelude::*;

use crate::text::{eq_ignore_ascii_case, eq_ignore_ascii_case_spec, join2, str_eq};

verus! {

/// What a batched operation does when one entry fails.
#[derive(Clone, Copy, Debug, PartialEq, Eq, Structural)]
pub enum OnError {
    Continue,
    Abort,
    Undo,
}

impl OnError {
    /// The kebab-case name this value has on the command line and in the
    /// config file.
    pub open spec fn spec_name(self) -> Seq<char> {
        match self {
            OnError::Continue => "continue"@,
            OnError::Abort => "abort"@,
            OnError::Undo => "undo"@,
        }
    }

    /// The kebab-case name this value has on the command line and in the
    /// config file.
    pub fn name(&self) -> (r: &'static str)
        ensures
            r@ == self.spec_name(),
    {
        match self {
            OnError::Continue => "continue",
            OnError::Abort => "abort",
            OnError::Undo => "undo",
        }
    }

    /// The value whose name equals `s` up to ASCII case; the first in
    /// declaration order when several would.
    pub open spec fn spec_parse(s: Seq<char>) -> Option<OnError> {
        if eq_ignore_ascii_case_spec(s, "continue"@) {
            Some(OnError::Continue)
        } else if eq_ignore_ascii_case_spec(s, "abort"@) {
            Some(OnError::Abort)
        } else if eq_ignore_ascii_case_spec(s, "undo"@) {
            Some(OnError::Undo)
        } else {
            None
        }
    }

    /// The value whose kebab-case name is exactly `s`, as the command
    /// line's value parser accepts it.
    pub open spec fn spec_from_name(s: Seq<char>) -> Option<OnError> {
        if s == "continue"@ {
            Some(OnError::Continue)
        } else if s == "abort"@ {
            Some(OnError::Abort)
        } else if s == "undo"@ {
            Some(OnError::Undo)
        } else {
            None
        }
    }

    /// Parses an exact kebab-case name.
    pub fn from_name(s: &str) -> (r: Option<OnError>)
        ensures
            r == Self::spec_from_name(s@),
    {
        if str_eq(s, "continue") {
            Some(OnError::Continue)
        } else if str_eq(s, "abort") {
            Some(OnError::Abort)
        } else if str_eq(s, "undo") {
            Some(OnError::Undo)
        } else {
            None
        }
    }

    /// Parses a name case-insensitively.
    pub fn parse(s: &str) -> (r: Option<OnError>)
        ensures
            r == Self::spec_parse(s@),
    {
        if eq_ignore_ascii_case(s, "continue") {
            Some(OnError::Continue)
        } else if eq_ignore_ascii_case(s, "abort") {
            Some(OnError::Abort)
        } else if eq_ignore_ascii_case(s, "undo") {
            Some(OnError::Undo)
        } else {
            None
        }
    }

    /// Every name, in declaration order, separated by `, `.
    pub open spec fn spec_names_listing() -> Seq<char> {
        "continue, abort, undo"@
    }

    /// Every name, in declaration order, separated by `, `.
    pub fn names_listing() -> (r: &'static str)
        ensures
            r@ == Self::spec_names_listing(),
    {
        "continue, abort, undo"
    }
}

impl core::str::FromStr for OnError {
    type Err = String;

    fn from_str(s: &str) -> (r: Result<Self, Self::Err>)
        ensures
            match OnError::spec_parse(s@) {
                Some(v) => r == Ok::<OnError, String>(v),
                None => (r matches Err(e) && e@ == "invalid variant: "@ + s@),
            },
    {
        match OnError::parse(s) {
            Some(v) => Ok(v),
            None => Err(join2("invalid variant: ", s)),
        }
    }
}

impl Default for OnError {
    fn default() -> (r: Self)
        ensures
            r == OnError::Continue,
    {
        OnError::Continue
    }
}

/// The order small files are dispatched in within a batch.
#[derive(Clone, Copy, Debug, PartialEq, Eq, Structural)]
pub enum SortOrder {
    Asc,
    Desc,
}

impl SortOrder {
    /// The kebab-case name this value has on the command line and in the
    /// config file.
    pub open spec fn spec_name(self) -> Seq<char> {
        match self {
            SortOrder::Asc => "asc"@,
            SortOrder::Desc => "desc"@,
        }
    }

    /// The kebab-case name this value has on the command line and in the
    /// config file.
    pub fn name(&self) -> (r: &'static str)
        ensures
            r@ == self.spec_name(),
    {
        match self {
            SortOrder::Asc => "asc",
            SortOrder::Desc => "desc",
        }
    }

    /// The value whose name equals `s` up to ASCII case; the first in
    /// declaration order when several would.
    pub open spec fn spec_parse(s: Seq<char>) -> Option<SortOrder> {
        if eq_ignore_ascii_case_spec(s, "asc"@) {
            Some(SortOrder::Asc)
        } else if eq_ignore_ascii_case_spec(s, "desc"@) {
            Some(SortOrder::Desc)
        } else {
            None
        }
    }

    /// The value whose kebab-case name is exactly `s`, as the command
    /// line's value parser accepts it.
    pub open spec fn spec_from_name(s: Seq<char>) -> Option<SortOrder> {
        if s == "asc"@ {
            Some(SortOrder::Asc)
        } else if s == "desc"@ {
            Some(SortOrder::Desc)
        } else {
            None
        }
    }

    /// Parses an exact kebab-case name.
    pub fn from_name(s: &str) -> (r: Option<SortOrder>)
        ensures
            r == Self::spec_from_name(s@),
    {
        if str_eq(s, "asc") {
            Some(SortOrder::Asc)
        } else if str_eq(s, "desc") {
            Some(SortOrder::Desc)
        } else {
            None
        }
    }

    /// Parses a name case-insensitively.
    pub fn parse(s: &str) -> (r: Option<SortOrder>)
        ensures
            r == Self::spec_parse(s@),
    {
        if eq_ignore_ascii_case(s, "asc") {
            Some(SortOrder::Asc)
        } else if eq_ignore_ascii_case(s, "desc") {
            Some(SortOrder::Desc)
        } else {
            None
        }
    }

    /// Every name, in declaration order, separated by `, `.
    pub open spec fn spec_names_listing() -> Seq<char> {
        "asc, desc"@
    }

    /// Every name, in declaration order, separated by `, `.
    pub fn names_listing() -> (r: &'static str)
        ensures
            r@ == Self::spec_names_listing(),
    {
        "asc, desc"
    }
}

impl core::str::FromStr for SortOrder {
    type Err = String;

    fn from_str(s: &str) -> (r: Result<Self, Self::Err>)
        ensures
            match SortOrder::spec_parse(s@) {
                Some(v) => r == Ok::<SortOrder, String>(v),
                None => (r matches Err(e) && e@ == "invalid variant: "@ + s@),
            },
    {
        match SortOrder::parse(s) {
            Some(v) => Ok(v),
            None => Err(join2("invalid variant: ", s)),
        }
    }
}

impl Default for SortOrder {
    fn default() -> (r: Self)
        ensures
            r == SortOrder::Desc,
    {
        SortOrder::Desc
    }
}

/// The archive format `compress` writes.
#[derive(Clone, Copy, Debug, PartialEq, Eq, Structural)]
pub enum CompressFormat {
    Zip,
    Gzip,
}

impl CompressFormat {
    /// The kebab-case name this value has on the command line and in the
    /// config file.
    pub open spec fn spec_name(self) -> Seq<char> {
        match self {
            CompressFormat::Zip => "zip"@,
            CompressFormat::Gzip => "gzip"@,
        }
    }

    /// The kebab-case name this value has on the command line and in the
    /// config file.
    pub fn name(&self) -> (r: &'static str)
        ensures
            r@ == self.spec_name(),
    {
        match self {
            CompressFormat::Zip => "zip",
            CompressFormat::Gzip => "gzip",
        }
    }

    /// The value whose name equals `s` up to ASCII case; the first in
    /// declaration order when several would.
    pub open spec fn spec_parse(s: Seq<char>) -> Option<CompressFormat> {
        if eq_ignore_ascii_case_spec(s, "zip"@) {
            Some(CompressFormat::Zip)
        } else if eq_ignore_ascii_case_spec(s, "gzip"@) {
            Some(CompressFormat::Gzip)
        } else {
            None
        }
    }

    /// The value whose kebab-case name is exactly `s`, as the command
    /// line's value parser accepts it.
    pub open spec fn spec_from_name(s: Seq<char>) -> Option<CompressFormat> {
        if s == "zip"@ {
            Some(CompressFormat::Zip)
        } else if s == "gzip"@ {
            Some(CompressFormat::Gzip)
        } else {
            None
        }
    }

    /// Parses an exact kebab-case name.
    pub fn from_name(s: &str) -> (r: Option<CompressFormat>)
        ensures
            r == Self::spec_from_name(s@),
    {
        if str_eq(s, "zip") {
            Some(CompressFormat::Zip)
        } else if str_eq(s, "gzip") {
            Some(CompressFormat::Gzip)
        } else {
            None
        }
    }

    /// Parses a name case-insensitively.
    pub fn parse(s: &str) -> (r: Option<CompressFormat>)
        ensures
            r == Self::spec_parse(s@),
    {
        if eq_ignore_ascii_case(s, "zip") {
            Some(CompressFormat::Zip)
        } else if eq_ignore_ascii_case(s, "gzip") {
            Some(CompressFormat::Gzip)
        } else {
            None
        }
    }

    /// Every name, in declaration order, separated by `, `.
    pub open spec fn spec_names_listing() -> Seq<char> {
        "zip, gzip"@
    }

    /// Every name, in declaration order, separated by `, `.
    pub fn names_listing() -> (r: &'static str)
        ensures
            r@ == Self::spec_names_listing(),
    {
        "zip, gzip"
    }
}

impl core::str::FromStr for CompressFormat {
    type Err = String;

    fn from_str(s: &str) -> (r: Result<Self, Self::Err>)
        ensures
            match CompressFormat::spec_parse(s@) {
                Some(v) => r == Ok::<CompressFormat, String>(v),
                None => (r matches Err(e) && e@ == "invalid variant: "@ + s@),
            },
    {
        match CompressFormat::parse(s) {
            Some(v) => Ok(v),
            None => Err(join2("invalid variant: ", s)),
        }
    }
}

/// A shell that completion scripts can be generated for.
#[derive(Clone, Copy, Debug, PartialEq, Eq, Structural)]
pub enum Shell {
    Bash,
    Elvish,
    Fish,
    PowerShell,
    Zsh,
}

impl Shell {
    /// The shell's name, as its command line argument and in messages.
    pub open spec fn spec_name(self) -> Seq<char> {
        match self {
            Shell::Bash => "bash"@,
            Shell::Elvish => "elvish"@,
            Shell::Fish => "fish"@,
            Shell::PowerShell => "powershell"@,
            Shell::Zsh => "zsh"@,
        }
    }

    /// The shell's name, as its command line argument and in messages.
    pub fn name(&self) -> (r: &'static str)
        ensures
            r@ == self.spec_name(),
    {
        match self {
            Shell::Bash => "bash",
            Shell::Elvish => "elvish",
            Shell::Fish => "fish",
            Shell::PowerShell => "powershell",
            Shell::Zsh => "zsh",
        }
    }
}

} // verus!
