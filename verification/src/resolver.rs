use vstd::prelude::*;
use crate::config::{AppConfig, PathOverrides};
use crate::env::{
    EnvPaths, clone_path_opt, join, join_path, or_fallback, spec_default_cargo_home,
    spec_default_rustup_home, spec_xdg_cache_home, spec_xdg_config_home, spec_xdg_data_home,
};

verus! {

/// The four directories that resolution settles.
#[derive(Debug, Clone)]
pub struct ResolvedPaths {
    pub config_dir: String,
    pub data_dir: String,
    pub cache_dir: String,
    pub bin_dir: String,
}

/// Which path was chosen for one directory, and why.
#[derive(Debug, Clone)]
pub struct PathDecision {
    pub name: String,
    pub selected_path: String,
    pub reason: String,
}

/// The outcome of resolution: the directories, one decision per directory,
/// and the warnings for the user.
#[derive(Debug, Clone)]
pub struct ResolutionReport {
    pub resolved: ResolvedPaths,
    pub decisions: Vec<PathDecision>,
    pub warnings: Vec<String>,
}

/// A `PathDecision` as text.
pub struct DecisionView {
    pub name: Seq<char>,
    pub selected_path: Seq<char>,
    pub reason: Seq<char>,
}

/// A `ResolutionReport` as text.
pub struct ReportView {
    pub config_dir: Seq<char>,
    pub data_dir: Seq<char>,
    pub cache_dir: Seq<char>,
    pub bin_dir: Seq<char>,
    pub decisions: Seq<DecisionView>,
    pub warnings: Seq<Seq<char>>,
}

impl View for PathDecision {
    type V = DecisionView;

    open spec fn view(&self) -> DecisionView {
        DecisionView { name: self.name@, selected_path: self.selected_path@, reason: self.reason@ }
    }
}

impl View for ResolutionReport {
    type V = ReportView;

    open spec fn view(&self) -> ReportView {
        ReportView {
            config_dir: self.resolved.config_dir@,
            data_dir: self.resolved.data_dir@,
            cache_dir: self.resolved.cache_dir@,
            bin_dir: self.resolved.bin_dir@,
            decisions: self.decisions@.map_values(|d: PathDecision| d@),
            warnings: self.warnings@.map_values(|w: String| w@),
        }
    }
}

pub open spec fn decision_view(name: Seq<char>, path: Seq<char>, reason: Seq<char>) -> DecisionView {
    DecisionView { name, selected_path: path, reason }
}

/// How `config_dir` is chosen: `RUSTUP_HOME`, else (XDG mode) the file's
/// override or `$XDG_CONFIG_HOME/rustup`, else (legacy mode) the file's
/// override or `~/.rustup`.
pub open spec fn config_dir_decision(env: EnvPaths, config: AppConfig, use_xdg: bool) -> DecisionView {
    let ov = config.effective_overrides().config_dir;
    match env.rustup_home {
        Some(rh) => decision_view(
            "config_dir"@,
            rh@,
            "explicit RUSTUP_HOME override preserves legacy rustup layout"@,
        ),
        None => if use_xdg {
            decision_view(
                "config_dir"@,
                or_fallback(ov, join_path(spec_xdg_config_home(env), "rustup"@)),
                if ov is Some {
                    "XDG mode enabled; using prototype config_dir override"@
                } else {
                    "XDG mode explicitly enabled and no RUSTUP_HOME override was set"@
                },
            )
        } else {
            decision_view(
                "config_dir"@,
                or_fallback(ov, spec_default_rustup_home(env)),
                if ov is Some {
                    "legacy mode; using prototype config_dir override"@
                } else {
                    "preserving legacy default rustup config layout"@
                },
            )
        },
    }
}

/// How `data_dir` is chosen: `RUSTUP_HOME`, else (XDG mode) the file's
/// override or `$XDG_DATA_HOME/rustup`, else (legacy mode) the file's
/// override or `~/.rustup`.
pub open spec fn data_dir_decision(env: EnvPaths, config: AppConfig, use_xdg: bool) -> DecisionView {
    let ov = config.effective_overrides().data_dir;
    match env.rustup_home {
        Some(rh) => decision_view(
            "data_dir"@,
            rh@,
            "explicit RUSTUP_HOME override preserves legacy rustup layout"@,
        ),
        None => if use_xdg {
            decision_view(
                "data_dir"@,
                or_fallback(ov, join_path(spec_xdg_data_home(env), "rustup"@)),
                if ov is Some {
                    "XDG mode enabled; using prototype data_dir override"@
                } else {
                    "XDG mode explicitly enabled and no RUSTUP_HOME override was set"@
                },
            )
        } else {
            decision_view(
                "data_dir"@,
                or_fallback(ov, spec_default_rustup_home(env)),
                if ov is Some {
                    "legacy mode; using prototype data_dir override"@
                } else {
                    "preserving legacy default rustup data layout"@
                },
            )
        },
    }
}

/// How `cache_dir` is chosen: `RUSTUP_HOME/tmp`, else (XDG mode) the file's
/// override or `$XDG_CACHE_HOME/rustup`, else (legacy mode) the file's
/// override or `~/.rustup/tmp`.
pub open spec fn cache_dir_decision(env: EnvPaths, config: AppConfig, use_xdg: bool) -> DecisionView {
    let ov = config.effective_overrides().cache_dir;
    match env.rustup_home {
        Some(rh) => decision_view(
            "cache_dir"@,
            join_path(rh@, "tmp"@),
            "explicit RUSTUP_HOME override preserves legacy rustup cache/tmp layout"@,
        ),
        None => if use_xdg {
            decision_view(
                "cache_dir"@,
                or_fallback(ov, join_path(spec_xdg_cache_home(env), "rustup"@)),
                if ov is Some {
                    "XDG mode enabled; using prototype cache_dir override"@
                } else {
                    "XDG mode explicitly enabled and no RUSTUP_HOME override was set"@
                },
            )
        } else {
            decision_view(
                "cache_dir"@,
                or_fallback(ov, join_path(spec_default_rustup_home(env), "tmp"@)),
                if ov is Some {
                    "legacy mode; using prototype cache_dir override"@
                } else {
                    "preserving legacy default rustup cache/tmp layout"@
                },
            )
        },
    }
}

/// How `bin_dir` is chosen, in either mode: `CARGO_HOME/bin`, else the
/// file's override, else `~/.cargo/bin`.
pub open spec fn bin_dir_decision(env: EnvPaths, config: AppConfig) -> DecisionView {
    let ov = config.effective_overrides().bin_dir;
    match env.cargo_home {
        Some(ch) => decision_view(
            "bin_dir"@,
            join_path(ch@, "bin"@),
            "explicit CARGO_HOME override preserves cargo-compatible bin directory"@,
        ),
        None => decision_view(
            "bin_dir"@,
            or_fallback(ov, join_path(spec_default_cargo_home(env), "bin"@)),
            if ov is Some {
                "using prototype bin_dir override; legacy rustup default remains ~/.cargo/bin"@
            } else {
                "preserving legacy cargo-compatible bin path for compatibility"@
            },
        ),
    }
}

/// The warning given whenever the configuration file overrides a directory.
pub open spec fn prototype_override_warning() -> Seq<char> {
    "config-file path overrides are simply a prototype-only and should not be treated as rustup's user-facing precedence"@
}

/// The warnings of a resolution, in order.
pub open spec fn resolution_warnings(env: EnvPaths, config: AppConfig, use_xdg: bool) -> Seq<Seq<char>> {
    let ov = config.effective_overrides();
    let w0: Seq<Seq<char>> = if !ov.is_empty() { seq![prototype_override_warning()] } else { seq![] };
    let w1 = if env.rustup_home is Some && use_xdg {
        w0.push(
            "RUSTUP_HOME is set, so rustup-owned directories stay in legacy layout even when XDG mode is enabled"@,
        )
    } else {
        w0
    };
    let w2 = if env.cargo_home is Some {
        w1.push("CARGO_HOME is set, so bin_dir follows legacy cargo behavior"@)
    } else {
        w1
    };
    if use_xdg && ov.bin_dir is None {
        w2.push(
            "XDG mode currently does not move bin_dir; keeping ~/.cargo/bin-style behavior is the conservative default"@,
        )
    } else {
        w2
    }
}

/// The whole resolution: each directory is the one its decision selected,
/// the decisions come in the order config, data, cache, bin.
pub open spec fn resolution(env: EnvPaths, config: AppConfig, use_xdg: bool) -> ReportView {
    let c = config_dir_decision(env, config, use_xdg);
    let d = data_dir_decision(env, config, use_xdg);
    let k = cache_dir_decision(env, config, use_xdg);
    let b = bin_dir_decision(env, config);
    ReportView {
        config_dir: c.selected_path,
        data_dir: d.selected_path,
        cache_dir: k.selected_path,
        bin_dir: b.selected_path,
        decisions: seq![c, d, k, b],
        warnings: resolution_warnings(env, config, use_xdg),
    }
}

fn decision(name: &str, selected_path: String, reason: &str) -> (res: PathDecision)
    ensures
        res@ == decision_view(name@, selected_path@, reason@),
{
    PathDecision { name: name.to_owned(), selected_path, reason: reason.to_owned() }
}

/// The overrides in force, as an owned value.
fn overrides_of(config: &AppConfig) -> (res: PathOverrides)
    ensures
        res == config.effective_overrides(),
{
    match &config.overrides {
        Some(o) => PathOverrides {
            config_dir: clone_path_opt(&o.config_dir),
            data_dir: clone_path_opt(&o.data_dir),
            cache_dir: clone_path_opt(&o.cache_dir),
            bin_dir: clone_path_opt(&o.bin_dir),
        },
        None => PathOverrides { config_dir: None, data_dir: None, cache_dir: None, bin_dir: None },
    }
}

/// The override if there is one, else the fallback.
fn override_or(ov: &Option<String>, fallback: String) -> (res: String)
    ensures
        res@ == or_fallback(*ov, fallback@),
{
    match ov {
        Some(p) => p.clone(),
        None => fallback,
    }
}

fn has_any_override(ov: &PathOverrides) -> (res: bool)
    ensures
        res == !ov.is_empty(),
{
    ov.config_dir.is_some() || ov.data_dir.is_some() || ov.cache_dir.is_some()
        || ov.bin_dir.is_some()
}

/// Resolves rustup's directories with a compatibility-first precedence:
///
/// 1. explicit environment overrides: `RUSTUP_HOME` settles config, data
///    and cache (cache is `RUSTUP_HOME/tmp`); `CARGO_HOME` settles the bin
///    directory (`CARGO_HOME/bin`);
/// 2. legacy defaults (`~/.rustup`, `~/.cargo/bin`), unless
/// 3. XDG mode is asked for (`use_xdg`), which splits config, data and cache
///    into `$XDG_CONFIG_HOME/rustup`, `$XDG_DATA_HOME/rustup` and
///    `$XDG_CACHE_HOME/rustup`. The bin directory never moves.
///
/// Overrides from the configuration file replace the defaults of steps 2
/// and 3 but never an environment override. Resolution always succeeds
/// and prints nothing: its warnings are in the report.
pub fn resolve_paths(env: &EnvPaths, config: &AppConfig, use_xdg: bool) -> (res: Result<
    ResolutionReport,
    String,
>)
    ensures
        res matches Ok(report) && report@ == resolution(*env, *config, use_xdg),
{
    let mut decisions: Vec<PathDecision> = Vec::new();
    let mut warnings: Vec<String> = Vec::new();

    let overrides = overrides_of(config);
    if has_any_override(&overrides) {
        warnings.push("config-file path overrides are simply a prototype-only and should not be treated as rustup's user-facing precedence".to_owned());
    }

    // config_dir
    let config_dir = if let Some(rustup_home) = &env.rustup_home {
        decisions.push(decision("config_dir", rustup_home.clone(), "explicit RUSTUP_HOME override preserves legacy rustup layout"));
        rustup_home.clone()
    } else if use_xdg {
        let xdg = env.effective_xdg_config_home();
        let path = override_or(&overrides.config_dir, join(xdg.as_str(), "rustup"));
        let reason = if overrides.config_dir.is_some() {
            "XDG mode enabled; using prototype config_dir override"
        } else {
            "XDG mode explicitly enabled and no RUSTUP_HOME override was set"
        };
        decisions.push(decision("config_dir", path.clone(), reason));
        path
    } else {
        let path = override_or(&overrides.config_dir, env.default_rustup_home());
        let reason = if overrides.config_dir.is_some() {
            "legacy mode; using prototype config_dir override"
        } else {
            "preserving legacy default rustup config layout"
        };
        decisions.push(decision("config_dir", path.clone(), reason));
        path
    };

    // data_dir
    let data_dir = if let Some(rustup_home) = &env.rustup_home {
        decisions.push(decision("data_dir", rustup_home.clone(), "explicit RUSTUP_HOME override preserves legacy rustup layout"));
        rustup_home.clone()
    } else if use_xdg {
        let xdg = env.effective_xdg_data_home();
        let path = override_or(&overrides.data_dir, join(xdg.as_str(), "rustup"));
        let reason = if overrides.data_dir.is_some() {
            "XDG mode enabled; using prototype data_dir override"
        } else {
            "XDG mode explicitly enabled and no RUSTUP_HOME override was set"
        };
        decisions.push(decision("data_dir", path.clone(), reason));
        path
    } else {
        let path = override_or(&overrides.data_dir, env.default_rustup_home());
        let reason = if overrides.data_dir.is_some() {
            "legacy mode; using prototype data_dir override"
        } else {
            "preserving legacy default rustup data layout"
        };
        decisions.push(decision("data_dir", path.clone(), reason));
        path
    };

    // cache_dir
    let cache_dir = if let Some(rustup_home) = &env.rustup_home {
        let path = join(rustup_home.as_str(), "tmp");
        decisions.push(decision("cache_dir", path.clone(), "explicit RUSTUP_HOME override preserves legacy rustup cache/tmp layout"));
        path
    } else if use_xdg {
        let xdg = env.effective_xdg_cache_home();
        let path = override_or(&overrides.cache_dir, join(xdg.as_str(), "rustup"));
        let reason = if overrides.cache_dir.is_some() {
            "XDG mode enabled; using prototype cache_dir override"
        } else {
            "XDG mode explicitly enabled and no RUSTUP_HOME override was set"
        };
        decisions.push(decision("cache_dir", path.clone(), reason));
        path
    } else {
        let legacy = env.default_rustup_home();
        let path = override_or(&overrides.cache_dir, join(legacy.as_str(), "tmp"));
        let reason = if overrides.cache_dir.is_some() {
            "legacy mode; using prototype cache_dir override"
        } else {
            "preserving legacy default rustup cache/tmp layout"
        };
        decisions.push(decision("cache_dir", path.clone(), reason));
        path
    };

    // bin_dir
    let bin_dir = if let Some(cargo_home) = &env.cargo_home {
        let path = join(cargo_home.as_str(), "bin");
        decisions.push(decision("bin_dir", path.clone(), "explicit CARGO_HOME override preserves cargo-compatible bin directory"));
        path
    } else {
        let cargo = env.default_cargo_home();
        let path = override_or(&overrides.bin_dir, join(cargo.as_str(), "bin"));
        let reason = if overrides.bin_dir.is_some() {
            "using prototype bin_dir override; legacy rustup default remains ~/.cargo/bin"
        } else {
            "preserving legacy cargo-compatible bin path for compatibility"
        };
        decisions.push(decision("bin_dir", path.clone(), reason));
        path
    };

    if env.rustup_home.is_some() && use_xdg {
        warnings.push("RUSTUP_HOME is set, so rustup-owned directories stay in legacy layout even when XDG mode is enabled".to_owned());
    }
    if env.cargo_home.is_some() {
        warnings.push("CARGO_HOME is set, so bin_dir follows legacy cargo behavior".to_owned());
    }
    if use_xdg && overrides.bin_dir.is_none() {
        warnings.push("XDG mode currently does not move bin_dir; keeping ~/.cargo/bin-style behavior is the conservative default".to_owned());
    }

    let report = ResolutionReport {
        resolved: ResolvedPaths { config_dir, data_dir, cache_dir, bin_dir },
        decisions,
        warnings,
    };
    assert(report@.decisions =~= resolution(*env, *config, use_xdg).decisions);
    assert(report@.warnings =~= resolution(*env, *config, use_xdg).warnings);
    Ok(report)
}

} // verus!
