use rustup_paths_demo::config::{AppConfig, PathOverrides};
use rustup_paths_demo::env::EnvPaths;
use rustup_paths_demo::resolver::resolve_paths;

fn p(s: &str) -> String {
    s.to_string()
}

#[test]
fn legacy_mode_without_overrides_preserves_current_defaults() {
    let env = EnvPaths::from_values(p("/home/alice"), None, None, None, None, None);
    let cfg = AppConfig::default();

    let report = resolve_paths(&env, &cfg, false).unwrap();
    assert_eq!(report.resolved.config_dir, p("/home/alice/.rustup"));
    assert_eq!(report.resolved.data_dir, p("/home/alice/.rustup"));
    assert_eq!(report.resolved.cache_dir, p("/home/alice/.rustup/tmp"));
    assert_eq!(report.resolved.bin_dir, p("/home/alice/.cargo/bin"));
}

#[test]
fn xdg_mode_without_env_overrides_uses_xdg_split() {
    let env = EnvPaths::from_values(p("/home/alice"), None, None, None, None, None);
    let cfg = AppConfig::default();

    let report = resolve_paths(&env, &cfg, true).unwrap();
    assert_eq!(report.resolved.config_dir, p("/home/alice/.config/rustup"));
    assert_eq!(
        report.resolved.data_dir,
        p("/home/alice/.local/share/rustup")
    );
    assert_eq!(report.resolved.cache_dir, p("/home/alice/.cache/rustup"));
    assert_eq!(report.resolved.bin_dir, p("/home/alice/.cargo/bin"));
}

#[test]
fn explicit_rustup_home_wins_even_when_xdg_mode_is_enabled() {
    let env = EnvPaths::from_values(
        p("/home/alice"),
        Some(p("/custom/rustup")),
        None,
        None,
        None,
        None,
    );
    let cfg = AppConfig::default();

    let report = resolve_paths(&env, &cfg, true).unwrap();
    assert_eq!(report.resolved.config_dir, p("/custom/rustup"));
    assert_eq!(report.resolved.data_dir, p("/custom/rustup"));
    assert_eq!(report.resolved.cache_dir, p("/custom/rustup/tmp"));
    assert_eq!(report.resolved.bin_dir, p("/home/alice/.cargo/bin"));
}

#[test]
fn explicit_cargo_home_wins_for_bin_dir() {
    let env = EnvPaths::from_values(
        p("/home/alice"),
        None,
        Some(p("/custom/cargo")),
        None,
        None,
        None,
    );
    let cfg = AppConfig::default();

    let report = resolve_paths(&env, &cfg, true).unwrap();
    assert_eq!(report.resolved.bin_dir, p("/custom/cargo/bin"));
}

#[test]
fn prototype_config_override_does_not_beat_env() {
    let env = EnvPaths::from_values(
        p("/home/alice"),
        Some(p("/custom/rustup")),
        None,
        None,
        None,
        None,
    );

    let cfg = AppConfig {
        overrides: Some(PathOverrides {
            config_dir: Some(p("/override/config")),
            data_dir: Some(p("/override/data")),
            cache_dir: Some(p("/override/cache")),
            bin_dir: Some(p("/override/bin")),
        }),
    };

    let report = resolve_paths(&env, &cfg, true).unwrap();
    assert_eq!(report.resolved.config_dir, p("/custom/rustup"));
    assert_eq!(report.resolved.data_dir, p("/custom/rustup"));
    assert_eq!(report.resolved.cache_dir, p("/custom/rustup/tmp"));
    assert_eq!(report.resolved.bin_dir, p("/override/bin"));
}

const PROTO: &str = "config-file path overrides are simply a prototype-only and should not be treated as rustup's user-facing precedence";
const W_RUSTUP: &str = "RUSTUP_HOME is set, so rustup-owned directories stay in legacy layout even when XDG mode is enabled";
const W_CARGO: &str = "CARGO_HOME is set, so bin_dir follows legacy cargo behavior";
const W_XDG_BIN: &str = "XDG mode currently does not move bin_dir; keeping ~/.cargo/bin-style behavior is the conservative default";

fn overrides(c: Option<&str>, d: Option<&str>, k: Option<&str>, b: Option<&str>) -> AppConfig {
    AppConfig {
        overrides: Some(PathOverrides {
            config_dir: c.map(p),
            data_dir: d.map(p),
            cache_dir: k.map(p),
            bin_dir: b.map(p),
        }),
    }
}

#[test]
fn legacy_decisions_and_no_warnings() {
    let env = EnvPaths::from_values(p("/home/alice"), None, None, None, None, None);
    let report = resolve_paths(&env, &AppConfig::default(), false).unwrap();
    let names: Vec<&str> = report.decisions.iter().map(|d| d.name.as_str()).collect();
    assert_eq!(names, vec!["config_dir", "data_dir", "cache_dir", "bin_dir"]);
    assert_eq!(report.decisions[0].selected_path, "/home/alice/.rustup");
    assert_eq!(report.decisions[0].reason, "preserving legacy default rustup config layout");
    assert_eq!(report.decisions[1].reason, "preserving legacy default rustup data layout");
    assert_eq!(report.decisions[2].reason, "preserving legacy default rustup cache/tmp layout");
    assert_eq!(report.decisions[3].reason, "preserving legacy cargo-compatible bin path for compatibility");
    assert!(report.warnings.is_empty());
}

#[test]
fn xdg_mode_with_both_env_overrides_warns_in_order() {
    let env = EnvPaths::from_values(p("/h"), Some(p("/r")), Some(p("/c")), None, None, None);
    let report = resolve_paths(&env, &AppConfig::default(), true).unwrap();
    assert_eq!(report.warnings, vec![p(W_RUSTUP), p(W_CARGO), p(W_XDG_BIN)]);
    assert_eq!(report.decisions[0].reason, "explicit RUSTUP_HOME override preserves legacy rustup layout");
    assert_eq!(report.decisions[2].reason, "explicit RUSTUP_HOME override preserves legacy rustup cache/tmp layout");
    assert_eq!(report.decisions[3].reason, "explicit CARGO_HOME override preserves cargo-compatible bin directory");
    assert_eq!(report.resolved.bin_dir, "/c/bin");
}

#[test]
fn legacy_mode_with_rustup_home_does_not_warn_about_xdg() {
    let env = EnvPaths::from_values(p("/h"), Some(p("/r")), None, None, None, None);
    let report = resolve_paths(&env, &AppConfig::default(), false).unwrap();
    assert!(report.warnings.is_empty());
}

#[test]
fn xdg_mode_uses_file_overrides_and_flags_them() {
    let env = EnvPaths::from_values(p("/h"), None, None, Some(p("/x/c")), None, None);
    let cfg = overrides(Some("/o/config"), None, Some("/o/cache"), Some("/o/bin"));
    let report = resolve_paths(&env, &cfg, true).unwrap();
    assert_eq!(report.resolved.config_dir, "/o/config");
    assert_eq!(report.resolved.data_dir, "/h/.local/share/rustup");
    assert_eq!(report.resolved.cache_dir, "/o/cache");
    assert_eq!(report.resolved.bin_dir, "/o/bin");
    assert_eq!(report.decisions[0].reason, "XDG mode enabled; using prototype config_dir override");
    assert_eq!(report.decisions[1].reason, "XDG mode explicitly enabled and no RUSTUP_HOME override was set");
    assert_eq!(report.decisions[2].reason, "XDG mode enabled; using prototype cache_dir override");
    assert_eq!(report.decisions[3].reason, "using prototype bin_dir override; legacy rustup default remains ~/.cargo/bin");
    // the bin override suppresses the XDG bin warning
    assert_eq!(report.warnings, vec![p(PROTO)]);
}

#[test]
fn xdg_mode_uses_explicit_xdg_config_home() {
    let env = EnvPaths::from_values(p("/h"), None, None, Some(p("/x/c")), Some(p("/x/d")), Some(p("/x/k")));
    let report = resolve_paths(&env, &AppConfig::default(), true).unwrap();
    assert_eq!(report.resolved.config_dir, "/x/c/rustup");
    assert_eq!(report.resolved.data_dir, "/x/d/rustup");
    assert_eq!(report.resolved.cache_dir, "/x/k/rustup");
    assert_eq!(report.warnings, vec![p(W_XDG_BIN)]);
}

#[test]
fn legacy_mode_uses_file_overrides() {
    let env = EnvPaths::from_values(p("/h"), None, None, None, None, None);
    let cfg = overrides(None, Some("/o/data"), None, None);
    let report = resolve_paths(&env, &cfg, false).unwrap();
    assert_eq!(report.resolved.config_dir, "/h/.rustup");
    assert_eq!(report.resolved.data_dir, "/o/data");
    assert_eq!(report.resolved.cache_dir, "/h/.rustup/tmp");
    assert_eq!(report.decisions[1].reason, "legacy mode; using prototype data_dir override");
    assert_eq!(report.warnings, vec![p(PROTO)]);
}

#[test]
fn empty_overrides_table_is_not_flagged() {
    let env = EnvPaths::from_values(p("/h"), None, None, None, None, None);
    let cfg = AppConfig { overrides: Some(PathOverrides::default()) };
    let report = resolve_paths(&env, &cfg, false).unwrap();
    assert!(report.warnings.is_empty());
}

#[test]
fn xdg_mode_keeps_bin_dir_in_both_modes() {
    let env = EnvPaths::from_values(p("/h"), None, None, None, None, None);
    let a = resolve_paths(&env, &AppConfig::default(), true).unwrap();
    let b = resolve_paths(&env, &AppConfig::default(), false).unwrap();
    assert_eq!(a.resolved.bin_dir, b.resolved.bin_dir);
    assert_eq!(a.decisions[3].reason, b.decisions[3].reason);
}

#[test]
fn default_config_has_no_overrides() {
    assert!(AppConfig::default().overrides.is_none());
    let o = PathOverrides::default();
    assert!(o.config_dir.is_none() && o.data_dir.is_none() && o.cache_dir.is_none() && o.bin_dir.is_none());
}
