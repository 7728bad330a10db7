//! XDG base-directory fallback rules.
//!
//! Each function here decides one XDG base directory from the raw values of
//! the variable itself and of `HOME`: the variable's normalized value wins
//! when it is set, else the conventional directory under the home
//! directory, else the directory is absent. Turning the chosen string into
//! a platform path value is the program boundary's concern.

use crate::envs;
use vstd::prelude::*;

verus! {

/// `rel` appended to the directory `base`, with a single separator between
/// them, as pushing a relative path onto `base` yields it.
pub open spec fn joined(base: Seq<char>, rel: Seq<char>) -> Seq<char> {
    if base.len() == 0 {
        rel
    } else if base.last() == '/' {
        base + rel
    } else {
        base + "/"@ + rel
    }
}

/// Appends the relative path `rel` to the directory `base`, inserting a
/// separator unless `base` is empty or already ends with one.
fn join_path(base: &str, rel: &str) -> (r: String)
    ensures
        r@ == joined(base@, rel@),
{
    let n = base.unicode_len();
    let mut out = base.to_owned();
    if n > 0 {
        let last = base.get_char(n - 1);
        if last != '/' {
            out.append("/");
        }
        out.append(rel);
        out
    } else {
        out.append(rel);
        proof {
            assert(base@ + rel@ =~= rel@);
        }
        out
    }
}

/// The directory that an XDG base-directory rule chooses: the normalized
/// value of the variable itself when it is set, else `rel` joined under the
/// normalized home directory, else absent.
pub open spec fn fallback_spec(
    xdg: Option<Seq<char>>,
    home: Option<Seq<char>>,
    rel: Seq<char>,
) -> Option<Seq<char>> {
    match envs::env_value_spec(xdg) {
        Some(p) => Some(p),
        None => match envs::env_value_spec(home) {
            Some(h) => Some(joined(h, rel)),
            None => None,
        },
    }
}

/// The base directory for user-specific data files, from the raw values of
/// `XDG_DATA_HOME` and `HOME`.
pub fn xdg_data_home(xdg: Option<String>, home: Option<String>) -> (r: Option<String>)
    ensures
        r.deep_view() == fallback_spec(xdg.deep_view(), home.deep_view(), ".local/share"@),
{
    match envs::xdg_data_home(xdg) {
        Some(p) => Some(p),
        None => match envs::home(home) {
            Some(h) => Some(join_path(h.as_str(), ".local/share")),
            None => None,
        },
    }
}

/// The base directory for user-specific configuration files, from the raw
/// values of `XDG_CONFIG_HOME` and `HOME`.
pub fn xdg_config_home(xdg: Option<String>, home: Option<String>) -> (r: Option<String>)
    ensures
        r.deep_view() == fallback_spec(xdg.deep_view(), home.deep_view(), ".config"@),
{
    match envs::xdg_config_home(xdg) {
        Some(p) => Some(p),
        None => match envs::home(home) {
            Some(h) => Some(join_path(h.as_str(), ".config")),
            None => None,
        },
    }
}

/// The base directory for user-specific state files, from the raw values
/// of `XDG_STATE_HOME` and `HOME`.
pub fn xdg_state_home(xdg: Option<String>, home: Option<String>) -> (r: Option<String>)
    ensures
        r.deep_view() == fallback_spec(xdg.deep_view(), home.deep_view(), ".local/state"@),
{
    match envs::xdg_state_home(xdg) {
        Some(p) => Some(p),
        None => match envs::home(home) {
            Some(h) => Some(join_path(h.as_str(), ".local/state")),
            None => None,
        },
    }
}

/// The base directory for user-specific cached files, from the raw values
/// of `XDG_CACHE_HOME` and `HOME`.
pub fn xdg_cache_home(xdg: Option<String>, home: Option<String>) -> (r: Option<String>)
    ensures
        r.deep_view() == fallback_spec(xdg.deep_view(), home.deep_view(), ".cache"@),
{
    match envs::xdg_cache_home(xdg) {
        Some(p) => Some(p),
        None => match envs::home(home) {
            Some(h) => Some(join_path(h.as_str(), ".cache")),
            None => None,
        },
    }
}

} // verus!
