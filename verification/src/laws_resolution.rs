use vstd::prelude::*;
use crate::config::AppConfig;
use crate::env::{
    EnvPaths, join_path, spec_default_cargo_home, spec_default_rustup_home, spec_xdg_cache_home,
    spec_xdg_config_home, spec_xdg_data_home,
};
use crate::resolver::resolution;

verus! {

/// Where the config directory goes, case by case: `RUSTUP_HOME`; else the
/// file's `config_dir`; else, in legacy mode, `~/.rustup`; else, in XDG
/// mode, `$XDG_CONFIG_HOME/rustup` or `~/.config/rustup`. Nothing else (the
/// other overrides, `CARGO_HOME`, the other XDG variables) has a say. The
/// decision that explains it says why.
pub proof fn law_config_dir_choice(env: EnvPaths, config: AppConfig, use_xdg: bool)
    ensures
        ({
            let r = resolution(env, config, use_xdg);
            let explicit = config.overrides matches Some(o) && o.config_dir is Some;
            &&& env.rustup_home matches Some(rh) ==> r.config_dir == rh@ && r.decisions[0].reason
                == "explicit RUSTUP_HOME override preserves legacy rustup layout"@
            &&& env.rustup_home is None ==> (config.overrides matches Some(o) ==> (o.config_dir matches Some(p)
                ==> r.config_dir == p@))
            &&& env.rustup_home is None && explicit && use_xdg ==> r.decisions[0].reason
                == "XDG mode enabled; using prototype config_dir override"@
            &&& env.rustup_home is None && explicit && !use_xdg ==> r.decisions[0].reason
                == "legacy mode; using prototype config_dir override"@
            &&& env.rustup_home is None && !explicit && !use_xdg ==> r.config_dir == join_path(
                env.home@,
                ".rustup"@,
            ) && r.decisions[0].reason == "preserving legacy default rustup config layout"@
            &&& env.rustup_home is None && !explicit && use_xdg ==> r.decisions[0].reason
                == "XDG mode explicitly enabled and no RUSTUP_HOME override was set"@
            &&& env.rustup_home is None && !explicit && use_xdg ==> (env.xdg_config_home matches Some(x)
                ==> r.config_dir == join_path(x@, "rustup"@))
            &&& env.rustup_home is None && !explicit && use_xdg && env.xdg_config_home is None
                ==> r.config_dir == join_path(join_path(env.home@, ".config"@), "rustup"@)
        }),
{
}

/// Where the data directory goes, case by case: `RUSTUP_HOME`; else the
/// file's `data_dir`; else, in legacy mode, `~/.rustup`; else, in XDG mode,
/// `$XDG_DATA_HOME/rustup` or `~/.local/share/rustup`. The config directory
/// and the other overrides have no say.
pub proof fn law_data_dir_choice(env: EnvPaths, config: AppConfig, use_xdg: bool)
    ensures
        ({
            let r = resolution(env, config, use_xdg);
            let explicit = config.overrides matches Some(o) && o.data_dir is Some;
            &&& env.rustup_home matches Some(rh) ==> r.data_dir == rh@ && r.decisions[1].reason
                == "explicit RUSTUP_HOME override preserves legacy rustup layout"@
            &&& env.rustup_home is None ==> (config.overrides matches Some(o) ==> (o.data_dir matches Some(p)
                ==> r.data_dir == p@))
            &&& env.rustup_home is None && explicit && use_xdg ==> r.decisions[1].reason
                == "XDG mode enabled; using prototype data_dir override"@
            &&& env.rustup_home is None && explicit && !use_xdg ==> r.decisions[1].reason
                == "legacy mode; using prototype data_dir override"@
            &&& env.rustup_home is None && !explicit && !use_xdg ==> r.data_dir == join_path(
                env.home@,
                ".rustup"@,
            ) && r.decisions[1].reason == "preserving legacy default rustup data layout"@
            &&& env.rustup_home is None && !explicit && use_xdg ==> r.decisions[1].reason
                == "XDG mode explicitly enabled and no RUSTUP_HOME override was set"@
            &&& env.rustup_home is None && !explicit && use_xdg ==> (env.xdg_data_home matches Some(x)
                ==> r.data_dir == join_path(x@, "rustup"@))
            &&& env.rustup_home is None && !explicit && use_xdg && env.xdg_data_home is None
                ==> r.data_dir == join_path(
                join_path(join_path(env.home@, ".local"@), "share"@),
                "rustup"@,
            )
        }),
{
}

/// Where the cache directory goes, case by case: `RUSTUP_HOME/tmp`; else the
/// file's `cache_dir`; else, in legacy mode, `~/.rustup/tmp`; else, in XDG
/// mode, `$XDG_CACHE_HOME/rustup` or `~/.cache/rustup`. The config and data
/// directories and the other overrides have no say.
pub proof fn law_cache_dir_choice(env: EnvPaths, config: AppConfig, use_xdg: bool)
    ensures
        ({
            let r = resolution(env, config, use_xdg);
            let explicit = config.overrides matches Some(o) && o.cache_dir is Some;
            &&& env.rustup_home matches Some(rh) ==> r.cache_dir == join_path(rh@, "tmp"@)
                && r.decisions[2].reason
                == "explicit RUSTUP_HOME override preserves legacy rustup cache/tmp layout"@
            &&& env.rustup_home is None ==> (config.overrides matches Some(o) ==> (o.cache_dir matches Some(p)
                ==> r.cache_dir == p@))
            &&& env.rustup_home is None && explicit && use_xdg ==> r.decisions[2].reason
                == "XDG mode enabled; using prototype cache_dir override"@
            &&& env.rustup_home is None && explicit && !use_xdg ==> r.decisions[2].reason
                == "legacy mode; using prototype cache_dir override"@
            &&& env.rustup_home is None && !explicit && !use_xdg ==> r.cache_dir == join_path(
                join_path(env.home@, ".rustup"@),
                "tmp"@,
            ) && r.decisions[2].reason == "preserving legacy default rustup cache/tmp layout"@
            &&& env.rustup_home is None && !explicit && use_xdg ==> r.decisions[2].reason
                == "XDG mode explicitly enabled and no RUSTUP_HOME override was set"@
            &&& env.rustup_home is None && !explicit && use_xdg ==> (env.xdg_cache_home matches Some(x)
                ==> r.cache_dir == join_path(x@, "rustup"@))
            &&& env.rustup_home is None && !explicit && use_xdg && env.xdg_cache_home is None
                ==> r.cache_dir == join_path(join_path(env.home@, ".cache"@), "rustup"@)
        }),
{
}

/// Where the bin directory goes, in either mode: `CARGO_HOME/bin`; else the
/// file's `bin_dir`; else `~/.cargo/bin`.
pub proof fn law_bin_dir_choice(env: EnvPaths, config: AppConfig, use_xdg: bool)
    ensures
        ({
            let r = resolution(env, config, use_xdg);
            let explicit = config.overrides matches Some(o) && o.bin_dir is Some;
            &&& env.cargo_home matches Some(ch) ==> r.bin_dir == join_path(ch@, "bin"@)
                && r.decisions[3].reason
                == "explicit CARGO_HOME override preserves cargo-compatible bin directory"@
            &&& env.cargo_home is None ==> (config.overrides matches Some(o) ==> (o.bin_dir matches Some(p)
                ==> r.bin_dir == p@))
            &&& env.cargo_home is None && explicit ==> r.decisions[3].reason
                == "using prototype bin_dir override; legacy rustup default remains ~/.cargo/bin"@
            &&& env.cargo_home is None && !explicit ==> r.bin_dir == join_path(
                join_path(env.home@, ".cargo"@),
                "bin"@,
            ) && r.decisions[3].reason
                == "preserving legacy cargo-compatible bin path for compatibility"@
        }),
{
}

/// The warnings of a resolution, in order: the prototype warning when the
/// configuration file overrides any directory; the `RUSTUP_HOME` warning in
/// XDG mode when it is set; the `CARGO_HOME` warning, in either mode, when
/// it is set; the bin-directory warning in XDG mode unless the file
/// overrides the bin directory. There are no others.
pub proof fn law_resolution_warnings(env: EnvPaths, config: AppConfig, use_xdg: bool)
    ensures
        ({
            let any_override = config.overrides matches Some(o) && (o.config_dir is Some
                || o.data_dir is Some || o.cache_dir is Some || o.bin_dir is Some);
            let bin_override = config.overrides matches Some(o) && o.bin_dir is Some;
            let proto: Seq<Seq<char>> = if any_override {
                seq![
                    "config-file path overrides are simply a prototype-only and should not be treated as rustup's user-facing precedence"@,
                ]
            } else {
                seq![]
            };
            let rustup: Seq<Seq<char>> = if env.rustup_home is Some && use_xdg {
                seq![
                    "RUSTUP_HOME is set, so rustup-owned directories stay in legacy layout even when XDG mode is enabled"@,
                ]
            } else {
                seq![]
            };
            let cargo: Seq<Seq<char>> = if env.cargo_home is Some {
                seq!["CARGO_HOME is set, so bin_dir follows legacy cargo behavior"@]
            } else {
                seq![]
            };
            let bin: Seq<Seq<char>> = if use_xdg && !bin_override {
                seq![
                    "XDG mode currently does not move bin_dir; keeping ~/.cargo/bin-style behavior is the conservative default"@,
                ]
            } else {
                seq![]
            };
            resolution(env, config, use_xdg).warnings == proto + rustup + cargo + bin
        }),
{
    let ws = resolution(env, config, use_xdg).warnings;
    let any_override = config.overrides matches Some(o) && (o.config_dir is Some
        || o.data_dir is Some || o.cache_dir is Some || o.bin_dir is Some);
    let proto: Seq<Seq<char>> = if any_override {
        seq![
            "config-file path overrides are simply a prototype-only and should not be treated as rustup's user-facing precedence"@,
        ]
    } else {
        seq![]
    };
    let rustup: Seq<Seq<char>> = if env.rustup_home is Some && use_xdg {
        seq![
            "RUSTUP_HOME is set, so rustup-owned directories stay in legacy layout even when XDG mode is enabled"@,
        ]
    } else {
        seq![]
    };
    let cargo: Seq<Seq<char>> = if env.cargo_home is Some {
        seq!["CARGO_HOME is set, so bin_dir follows legacy cargo behavior"@]
    } else {
        seq![]
    };
    let bin_override = config.overrides matches Some(o) && o.bin_dir is Some;
    let bin: Seq<Seq<char>> = if use_xdg && !bin_override {
        seq![
            "XDG mode currently does not move bin_dir; keeping ~/.cargo/bin-style behavior is the conservative default"@,
        ]
    } else {
        seq![]
    };
    assert(ws =~= proto + rustup + cargo + bin);
}

/// Whenever `CARGO_HOME` is set, in either mode, the resolution warns that
/// the bin directory follows cargo; when it is not set, it does not.
pub proof fn law_cargo_home_warning(env: EnvPaths, config: AppConfig, use_xdg: bool)
    ensures
        resolution(env, config, use_xdg).warnings.contains(
            "CARGO_HOME is set, so bin_dir follows legacy cargo behavior"@,
        ) <==> env.cargo_home is Some,
{
    law_resolution_warnings(env, config, use_xdg);
    let ws = resolution(env, config, use_xdg).warnings;
    let w = "CARGO_HOME is set, so bin_dir follows legacy cargo behavior"@;
    reveal_strlit("CARGO_HOME is set, so bin_dir follows legacy cargo behavior");
    reveal_strlit(
        "config-file path overrides are simply a prototype-only and should not be treated as rustup's user-facing precedence",
    );
    reveal_strlit(
        "RUSTUP_HOME is set, so rustup-owned directories stay in legacy layout even when XDG mode is enabled",
    );
    reveal_strlit(
        "XDG mode currently does not move bin_dir; keeping ~/.cargo/bin-style behavior is the conservative default",
    );
    if env.cargo_home is Some {
        let k = if config.overrides matches Some(o) && (o.config_dir is Some || o.data_dir is Some
            || o.cache_dir is Some || o.bin_dir is Some) {
            1int
        } else {
            0int
        } + if env.rustup_home is Some && use_xdg {
            1int
        } else {
            0int
        };
        assert(ws[k] == w);
    } else {
        assert forall|i: int| 0 <= i < ws.len() implies ws[i] != w by {
            assert(ws[i][0] != w[0]);
        }
    }
}

/// The homes that resolution starts from: `~/.rustup` and `~/.cargo`, and
/// each XDG home as set in the environment or else its fallback under the
/// home directory (`~/.config`, `~/.local/share`, `~/.cache`).
pub proof fn law_homes(env: EnvPaths)
    ensures
        spec_default_rustup_home(env) == join_path(env.home@, ".rustup"@),
        spec_default_cargo_home(env) == join_path(env.home@, ".cargo"@),
        env.xdg_config_home matches Some(x) ==> spec_xdg_config_home(env) == x@,
        env.xdg_config_home is None ==> spec_xdg_config_home(env) == join_path(env.home@, ".config"@),
        env.xdg_data_home matches Some(x) ==> spec_xdg_data_home(env) == x@,
        env.xdg_data_home is None ==> spec_xdg_data_home(env) == join_path(
            join_path(env.home@, ".local"@),
            "share"@,
        ),
        env.xdg_cache_home matches Some(x) ==> spec_xdg_cache_home(env) == x@,
        env.xdg_cache_home is None ==> spec_xdg_cache_home(env) == join_path(env.home@, ".cache"@),
{
}

/// Joining keeps the base in front when the child is relative, and puts
/// exactly one `/` between them unless the base is empty or already ends
/// with one; an absolute child replaces the base.
pub proof fn law_join(base: Seq<char>, child: Seq<char>)
    ensures
        child.len() > 0 && child[0] == '/' ==> join_path(base, child) == child,
        !(child.len() > 0 && child[0] == '/') ==> join_path(base, child).take(base.len() as int)
            == base,
        !(child.len() > 0 && child[0] == '/') ==> join_path(base, child).skip(
            join_path(base, child).len() - child.len(),
        ) == child,
        !(child.len() > 0 && child[0] == '/') && base.len() > 0 && base.last() != '/'
            ==> join_path(base, child).len() == base.len() + 1 + child.len() && join_path(
            base,
            child,
        )[base.len() as int] == '/',
        !(child.len() > 0 && child[0] == '/') && (base.len() == 0 || base.last() == '/')
            ==> join_path(base, child).len() == base.len() + child.len(),
{
    let j = join_path(base, child);
    if !(child.len() > 0 && child[0] == '/') {
        assert(j.take(base.len() as int) =~= base);
        assert(j.skip(j.len() - child.len()) =~= child);
    }
}

} // verus!
