use rustup_paths_demo::config::AppConfig;
use rustup_paths_demo::env::EnvPaths;
use rustup_paths_demo::migrate::{MigrationPlan, MigrationStep};
use rustup_paths_demo::report::{render_explain, render_migration_plan, render_resolve};
use rustup_paths_demo::resolver::resolve_paths;

fn p(s: &str) -> String {
    s.to_string()
}

#[test]
fn resolve_text_lists_four_directories() {
    let env = EnvPaths::from_values(p("/home/user"), None, None, None, None, None);
    let report = resolve_paths(&env, &AppConfig::default(), false).unwrap();
    assert_eq!(
        render_resolve(&report),
        "config_dir: /home/user/.rustup\n\
         data_dir:   /home/user/.rustup\n\
         cache_dir:  /home/user/.rustup/tmp\n\
         bin_dir:    /home/user/.cargo/bin\n"
    );
}

#[test]
fn explain_text_without_warnings() {
    let env = EnvPaths::from_values(p("/home/user"), None, None, None, None, None);
    let report = resolve_paths(&env, &AppConfig::default(), false).unwrap();
    let text = render_explain(&report);
    assert!(text.starts_with(
        "config_dir: /home/user/.rustup\n  reason: preserving legacy default rustup config layout\n\n"
    ));
    assert!(!text.contains("Warnings:"));
    assert_eq!(text.matches("  reason: ").count(), 4);
}

#[test]
fn explain_text_with_warnings() {
    let env = EnvPaths::from_values(p("/home/u"), Some(p("/home/u/.rustup")), Some(p("/home/u/.cargo")), None, None, None);
    let report = resolve_paths(&env, &AppConfig::default(), true).unwrap();
    let text = render_explain(&report);
    assert!(text.starts_with(
        "Warnings:\n\
         - RUSTUP_HOME is set, so rustup-owned directories stay in legacy layout even when XDG mode is enabled\n\
         - CARGO_HOME is set, so bin_dir follows legacy cargo behavior\n\
         - XDG mode currently does not move bin_dir; keeping ~/.cargo/bin-style behavior is the conservative default\n\
         \n\
         config_dir: /home/u/.rustup\n  reason: explicit RUSTUP_HOME override preserves legacy rustup layout\n\n"
    ));
    assert!(text.ends_with(
        "bin_dir: /home/u/.cargo/bin\n  reason: explicit CARGO_HOME override preserves cargo-compatible bin directory\n\n"
    ));
}

#[test]
fn plan_text_lists_steps() {
    let plan = MigrationPlan {
        warnings: vec![p("careful")],
        steps: vec![MigrationStep {
            from: p("/a"),
            to: p("/b"),
            description: p("Move a"),
            source_exists: true,
            destination_exists: false,
        }],
    };
    assert_eq!(render_migration_plan(&plan), "Warnings:\n- careful\n\n- /a -> /b\n  Move a\n\n");
    let empty = MigrationPlan { warnings: vec![], steps: vec![] };
    assert_eq!(render_migration_plan(&empty), "");
}
