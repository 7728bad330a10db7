//! Normalization of well-known environment variables.
//!
//! The process environment is read at the program boundary; each function
//! here takes the raw lookup result for its variable — `None` for a value
//! that is unset or not UTF-8 — and normalizes it: a value that is all
//! whitespace counts as absent, and surrounding whitespace is trimmed away.

use vstd::prelude::*;

verus! {

/// What `str::trim` returns for a string with the given characters.
pub uninterp spec fn trim_of(s: Seq<char>) -> Seq<char>;

/// Relies on `str::trim`: returns the string without leading and trailing
/// whitespace, a subslice whose characters depend on the input characters
/// alone.
#[verifier::external_body]
fn trim_str(s: &str) -> (r: String)
    ensures
        r@ == trim_of(s@),
{
    s.trim().to_owned()
}

/// The normalized value of an environment lookup: absent values stay
/// absent, all-whitespace values become absent, and anything else keeps its
/// characters with surrounding whitespace trimmed away.
pub open spec fn env_value_spec(raw: Option<Seq<char>>) -> Option<Seq<char>> {
    match raw {
        None => None,
        Some(s) => if trim_of(s).len() == 0 {
            None
        } else {
            Some(trim_of(s))
        },
    }
}

/// Normalizes one raw environment lookup, as [`env_value_spec`] describes.
fn normalize(raw: Option<String>) -> (r: Option<String>)
    ensures
        r.deep_view() == env_value_spec(raw.deep_view()),
{
    match raw {
        None => None,
        Some(s) => {
            let t = trim_str(s.as_str());
            if t.as_str().is_empty() {
                None
            } else {
                Some(t)
            }
        },
    }
}

/// The normalized value of the `HOME` variable: the user's home directory.
pub fn home(raw: Option<String>) -> (r: Option<String>)
    ensures
        r.deep_view() == env_value_spec(raw.deep_view()),
{
    normalize(raw)
}

/// The normalized value of the `PATH` variable: the executable search path.
pub fn path(raw: Option<String>) -> (r: Option<String>)
    ensures
        r.deep_view() == env_value_spec(raw.deep_view()),
{
    normalize(raw)
}

/// The normalized value of the `SHELL` variable: the user's login shell.
pub fn shell(raw: Option<String>) -> (r: Option<String>)
    ensures
        r.deep_view() == env_value_spec(raw.deep_view()),
{
    normalize(raw)
}

/// The normalized value of the `TERM` variable: the terminal type.
pub fn term(raw: Option<String>) -> (r: Option<String>)
    ensures
        r.deep_view() == env_value_spec(raw.deep_view()),
{
    normalize(raw)
}

/// The normalized value of the `TMPDIR` variable: the directory for
/// temporary files.
pub fn tmpdir(raw: Option<String>) -> (r: Option<String>)
    ensures
        r.deep_view() == env_value_spec(raw.deep_view()),
{
    normalize(raw)
}

/// The normalized value of the `USER` variable: the user's login name.
pub fn user(raw: Option<String>) -> (r: Option<String>)
    ensures
        r.deep_view() == env_value_spec(raw.deep_view()),
{
    normalize(raw)
}

/// The normalized value of the `XDG_DATA_HOME` variable: the base directory
/// for user-specific data files.
pub fn xdg_data_home(raw: Option<String>) -> (r: Option<String>)
    ensures
        r.deep_view() == env_value_spec(raw.deep_view()),
{
    normalize(raw)
}

/// The normalized value of the `XDG_CONFIG_HOME` variable: the base
/// directory for user-specific configuration files.
pub fn xdg_config_home(raw: Option<String>) -> (r: Option<String>)
    ensures
        r.deep_view() == env_value_spec(raw.deep_view()),
{
    normalize(raw)
}

/// The normalized value of the `XDG_STATE_HOME` variable: the base
/// directory for user-specific state files.
pub fn xdg_state_home(raw: Option<String>) -> (r: Option<String>)
    ensures
        r.deep_view() == env_value_spec(raw.deep_view()),
{
    normalize(raw)
}

/// The normalized value of the `XDG_CACHE_HOME` variable: the base
/// directory for user-specific cached files.
pub fn xdg_cache_home(raw: Option<String>) -> (r: Option<String>)
    ensures
        r.deep_view() == env_value_spec(raw.deep_view()),
{
    normalize(raw)
}

} // verus!
