use vstd::prelude::*;
use vstd::string::*;

verus! {

/// What joining `child` onto `base` gives, following Unix path rules:
/// an absolute `child` (one that starts with `/`) replaces `base`; otherwise
/// `child` is appended, with a `/` in between unless `base` is empty or
/// already ends with one.
pub open spec fn join_path(base: Seq<char>, child: Seq<char>) -> Seq<char> {
    if child.len() > 0 && child[0] == '/' {
        child
    } else if base.len() == 0 || base.last() == '/' {
        base + child
    } else {
        base + seq!['/'] + child
    }
}

/// Joins `child` onto `base` (see `join_path`).
pub fn join(base: &str, child: &str) -> (res: String)
    ensures
        res@ == join_path(base@, child@),
{
    let child_len = child.unicode_len();
    if child_len > 0 && child.get_char(0) == '/' {
        return child.to_owned();
    }
    let base_len = base.unicode_len();
    let mut res = base.to_owned();
    if base_len > 0 && base.get_char(base_len - 1) != '/' {
        proof {
            reveal_strlit("/");
        }
        res.append("/");
    }
    res.append(child);
    res
}


/// The environment that path resolution reads: the home directory and the
/// optional `RUSTUP_HOME`, `CARGO_HOME` and `XDG_*_HOME` overrides.
#[derive(Debug, Clone)]
pub struct EnvPaths {
    pub home: String,
    pub rustup_home: Option<String>,
    pub cargo_home: Option<String>,
    pub xdg_config_home: Option<String>,
    pub xdg_data_home: Option<String>,
    pub xdg_cache_home: Option<String>,
}

/// `~/.rustup`: rustup's legacy home.
pub open spec fn spec_default_rustup_home(env: EnvPaths) -> Seq<char> {
    join_path(env.home@, ".rustup"@)
}

/// `~/.cargo`: cargo's legacy home.
pub open spec fn spec_default_cargo_home(env: EnvPaths) -> Seq<char> {
    join_path(env.home@, ".cargo"@)
}

/// An explicit directory if one was given, else the fallback.
pub open spec fn or_fallback(explicit: Option<String>, fallback: Seq<char>) -> Seq<char> {
    match explicit {
        Some(p) => p@,
        None => fallback,
    }
}

/// `$XDG_CONFIG_HOME`, or `~/.config` when it is unset.
pub open spec fn spec_xdg_config_home(env: EnvPaths) -> Seq<char> {
    or_fallback(env.xdg_config_home, join_path(env.home@, ".config"@))
}

/// `$XDG_DATA_HOME`, or `~/.local/share` when it is unset.
pub open spec fn spec_xdg_data_home(env: EnvPaths) -> Seq<char> {
    or_fallback(env.xdg_data_home, join_path(join_path(env.home@, ".local"@), "share"@))
}

/// `$XDG_CACHE_HOME`, or `~/.cache` when it is unset.
pub open spec fn spec_xdg_cache_home(env: EnvPaths) -> Seq<char> {
    or_fallback(env.xdg_cache_home, join_path(env.home@, ".cache"@))
}

/// A copy of an optional path.
pub(crate) fn clone_path_opt(p: &Option<String>) -> (res: Option<String>)
    ensures
        res == *p,
{
    match p {
        Some(s) => Some(s.clone()),
        None => None,
    }
}

impl EnvPaths {
    /// Builds the environment from given values rather than from the process.
    pub fn from_values(
        home: String,
        rustup_home: Option<String>,
        cargo_home: Option<String>,
        xdg_config_home: Option<String>,
        xdg_data_home: Option<String>,
        xdg_cache_home: Option<String>,
    ) -> (res: Self)
        ensures
            res.home == home,
            res.rustup_home == rustup_home,
            res.cargo_home == cargo_home,
            res.xdg_config_home == xdg_config_home,
            res.xdg_data_home == xdg_data_home,
            res.xdg_cache_home == xdg_cache_home,
    {
        EnvPaths { home, rustup_home, cargo_home, xdg_config_home, xdg_data_home, xdg_cache_home }
    }

    pub fn default_rustup_home(&self) -> (res: String)
        ensures
            res@ == spec_default_rustup_home(*self),
    {
        join(self.home.as_str(), ".rustup")
    }

    pub fn default_cargo_home(&self) -> (res: String)
        ensures
            res@ == spec_default_cargo_home(*self),
    {
        join(self.home.as_str(), ".cargo")
    }

    pub fn effective_xdg_config_home(&self) -> (res: String)
        ensures
            res@ == spec_xdg_config_home(*self),
    {
        match &self.xdg_config_home {
            Some(p) => p.clone(),
            None => join(self.home.as_str(), ".config"),
        }
    }

    pub fn effective_xdg_data_home(&self) -> (res: String)
        ensures
            res@ == spec_xdg_data_home(*self),
    {
        match &self.xdg_data_home {
            Some(p) => p.clone(),
            None => {
                let local = join(self.home.as_str(), ".local");
                join(local.as_str(), "share")
            },
        }
    }

    pub fn effective_xdg_cache_home(&self) -> (res: String)
        ensures
            res@ == spec_xdg_cache_home(*self),
    {
        match &self.xdg_cache_home {
            Some(p) => p.clone(),
            None => join(self.home.as_str(), ".cache"),
        }
    }
}

} // verus!
