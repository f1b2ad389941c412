//! The process environment (development or production) and the build identifier.
use vstd::prelude::*;

verus! {

/// Identifier reported when the build recorded no commit hash.
pub const UNKNOWN_BUILD: &'static str = "unknown";

/// The mode the process runs in.
#[derive(Debug, Clone, Copy, PartialEq, Eq, Structural)]
pub enum Environment {
    Development,
    Production,
}

/// The name under which an environment is shown.
pub open spec fn environment_name(e: Environment) -> Seq<char> {
    match e {
        Environment::Development => "development"@,
        Environment::Production => "production"@,
    }
}

/// The name of an environment as a string literal.
pub open spec fn environment_str(e: Environment) -> &'static str {
    match e {
        Environment::Development => "development",
        Environment::Production => "production",
    }
}

/// A flag value turns development mode on exactly when it reads `1` or `true`.
pub open spec fn flag_enables_development(flag: Option<Seq<char>>) -> bool {
    match flag {
        Some(s) => s == "1"@ || s == "true"@,
        None => false,
    }
}

/// The environment selected by the development flag.
pub open spec fn environment_of(flag: Option<Seq<char>>) -> Environment {
    if flag_enables_development(flag) {
        Environment::Development
    } else {
        Environment::Production
    }
}

/// The view of an optional string slice.
pub open spec fn opt_view(flag: Option<&str>) -> Option<Seq<char>> {
    match flag {
        Some(s) => Some(s@),
        None => None,
    }
}

/// The build identifier reported for a recorded commit hash.
pub open spec fn build_id(recorded: Option<Seq<char>>) -> Seq<char> {
    match recorded {
        Some(h) => if h.len() > 0 { h } else { UNKNOWN_BUILD@ },
        None => UNKNOWN_BUILD@,
    }
}

impl Environment {
    /// The name of the environment, `development` or `production`.
    pub fn name(self) -> (r: &'static str)
        ensures
            r == environment_str(self),
            r@ == environment_name(self),
    {
        proof {
            reveal_strlit("development");
            reveal_strlit("production");
        }
        match self {
            Environment::Development => "development",
            Environment::Production => "production",
        }
    }
}

impl From<Environment> for &'static str {
    fn from(e: Environment) -> (r: &'static str)
        ensures
            r == environment_str(e),
            r@ == environment_name(e),
    {
        e.name()
    }
}

impl vstd::std_specs::convert::FromSpecImpl<Environment> for &'static str {
    open spec fn obeys_from_spec() -> bool {
        true
    }

    open spec fn from_spec(e: Environment) -> &'static str {
        environment_str(e)
    }
}

/// Whether two string slices hold the same characters.
pub fn same_text(a: &str, b: &str) -> (r: bool)
    ensures
        r == (a@ == b@),
{
    let n = a.unicode_len();
    if n != b.unicode_len() {
        return false;
    }
    let mut i: usize = 0;
    while i < n
        invariant
            n == a@.len(),
            n == b@.len(),
            i <= n,
            forall|j: int| 0 <= j < i ==> a@[j] == b@[j],
        decreases n - i,
    {
        if a.get_char(i) != b.get_char(i) {
            return false;
        }
        i = i + 1;
    }
    assert(a@ =~= b@);
    true
}

/// The environment selected by the value of the development flag, if it is set.
pub fn get_environment(flag: Option<&str>) -> (r: Environment)
    ensures
        r == environment_of(opt_view(flag)),
{
    let development = match flag {
        Some(s) => {
            proof {
                reveal_strlit("1");
                reveal_strlit("true");
            }
            same_text(s, "1") || same_text(s, "true")
        },
        None => false,
    };
    if development {
        Environment::Development
    } else {
        Environment::Production
    }
}

/// Whether the flag value selects production mode.
pub fn is_production(flag: Option<&str>) -> (r: bool)
    ensures
        r == (environment_of(opt_view(flag)) == Environment::Production),
{
    get_environment(flag) == Environment::Production
}

/// Whether the flag value selects development mode.
pub fn is_development(flag: Option<&str>) -> (r: bool)
    ensures
        r == (environment_of(opt_view(flag)) == Environment::Development),
{
    get_environment(flag) == Environment::Development
}

/// The build identifier: the recorded commit hash, or `unknown` when none was recorded.
pub fn git_hash(recorded: Option<&'static str>) -> (r: &'static str)
    ensures
        r@ == build_id(opt_view(recorded)),
        r@.len() > 0,
{
    proof {
        reveal_strlit("unknown");
    }
    match recorded {
        Some(h) => {
            if h.unicode_len() > 0 {
                h
            } else {
                UNKNOWN_BUILD
            }
        },
        None => UNKNOWN_BUILD,
    }
}

/// Exactly one of development and production holds, whatever the flag.
pub proof fn lemma_environment_exclusive(flag: Option<Seq<char>>)
    ensures
        (environment_of(flag) == Environment::Development) != (environment_of(flag)
            == Environment::Production),
{
}

} // verus!
