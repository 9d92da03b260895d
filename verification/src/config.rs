use vstd::prelude::*;

verus! {

/// Directories set in the configuration file. These are a local escape hatch
/// for experiments: they never take precedence over `RUSTUP_HOME` or
/// `CARGO_HOME`.
#[derive(Debug, Clone)]
pub struct PathOverrides {
    pub config_dir: Option<String>,
    pub data_dir: Option<String>,
    pub cache_dir: Option<String>,
    pub bin_dir: Option<String>,
}

/// The configuration file's contents.
#[derive(Debug, Clone)]
pub struct AppConfig {
    pub overrides: Option<PathOverrides>,
}

impl PathOverrides {
    /// No directory is overridden.
    pub open spec fn is_empty(self) -> bool {
        &&& self.config_dir is None
        &&& self.data_dir is None
        &&& self.cache_dir is None
        &&& self.bin_dir is None
    }
}

impl Default for PathOverrides {
    fn default() -> (res: Self)
        ensures
            res.is_empty(),
    {
        PathOverrides { config_dir: None, data_dir: None, cache_dir: None, bin_dir: None }
    }
}

impl Default for AppConfig {
    fn default() -> (res: Self)
        ensures
            res.overrides is None,
    {
        AppConfig { overrides: None }
    }
}

impl AppConfig {
    /// The overrides in force: those of the file, or none at all when the
    /// file has no `overrides` table.
    pub open spec fn effective_overrides(self) -> PathOverrides {
        match self.overrides {
            Some(o) => o,
            None => PathOverrides { config_dir: None, data_dir: None, cache_dir: None, bin_dir: None },
        }
    }
}

} // verus!
