use rustup_paths_demo::config::{AppConfig, PathOverrides};
use rustup_paths_demo::env::EnvPaths;
use rustup_paths_demo::migrate::{apply_migration_plan, build_migration_plan, MigrationPlan, create_failed, move_failed, push_step, step_needs_move, MigrationStep, MigrationSummary};
use rustup_paths_demo::resolver::resolve_paths;

fn p(s: &str) -> String {
    s.to_string()
}

fn step(from: &str, to: &str, source_exists: bool, destination_exists: bool) -> MigrationStep {
    MigrationStep {
        from: p(from),
        to: p(to),
        description: p("d"),
        source_exists,
        destination_exists,
    }
}

#[test]
fn xdg_plan_moves_three_directories() {
    let env = EnvPaths::from_values(p("/home/alice"), None, None, None, None, None);
    let report = resolve_paths(&env, &AppConfig::default(), true).unwrap();
    let plan = build_migration_plan(&report, &env, |path: &String| path.as_str() == "/home/alice/.rustup/toolchains");
    assert_eq!(plan.steps.len(), 3);
    assert_eq!(plan.steps[0].from, "/home/alice/.rustup/toolchains");
    assert_eq!(plan.steps[0].to, "/home/alice/.local/share/rustup/toolchains");
    assert_eq!(plan.steps[0].description, "Move installed toolchains to the data directory");
    assert!(plan.steps[0].source_exists);
    assert!(!plan.steps[0].destination_exists);
    assert_eq!(plan.steps[1].from, "/home/alice/.rustup/settings.toml");
    assert_eq!(plan.steps[1].to, "/home/alice/.config/rustup/settings.toml");
    assert_eq!(plan.steps[1].description, "Move settings to the config directory");
    assert!(!plan.steps[1].source_exists);
    assert_eq!(plan.steps[2].from, "/home/alice/.rustup/downloads");
    assert_eq!(plan.steps[2].to, "/home/alice/.cache/rustup/downloads");
    assert_eq!(plan.steps[2].description, "Move downloads to the cache directory");
    assert_eq!(plan.warnings, report.warnings);
}

#[test]
fn legacy_plan_moves_only_downloads() {
    let env = EnvPaths::from_values(p("/home/alice"), None, None, None, None, None);
    let report = resolve_paths(&env, &AppConfig::default(), false).unwrap();
    let plan = build_migration_plan(&report, &env, |_: &String| false);
    assert_eq!(plan.steps.len(), 1);
    assert_eq!(plan.steps[0].from, "/home/alice/.rustup/downloads");
    assert_eq!(plan.steps[0].to, "/home/alice/.rustup/tmp/downloads");
    assert!(plan.warnings.is_empty());
}

#[test]
fn same_path_written_differently_is_not_moved() {
    // `/home/alice//.rustup` and `/home/alice/.rustup` differ as text but are one path.
    let env = EnvPaths::from_values(p("/home/alice"), None, None, None, None, None);
    let cfg = AppConfig {
        overrides: Some(PathOverrides {
            config_dir: Some(p("/home/alice//.rustup")),
            data_dir: Some(p("/home/alice/./.rustup/")),
            cache_dir: Some(p("/home/alice/.rustup")),
            bin_dir: None,
        }),
    };
    let report = resolve_paths(&env, &cfg, false).unwrap();
    let plan = build_migration_plan(&report, &env, |_: &String| true);
    assert!(plan.steps.is_empty());
}

#[test]
fn rustup_home_plan_warns() {
    let env = EnvPaths::from_values(p("/home/alice"), Some(p("/custom/rustup")), None, None, None, None);
    let report = resolve_paths(&env, &AppConfig::default(), true).unwrap();
    let plan = build_migration_plan(&report, &env, |_: &String| true);
    assert_eq!(plan.warnings.len(), report.warnings.len() + 1);
    assert_eq!(&plan.warnings[..report.warnings.len()], &report.warnings[..]);
    assert_eq!(
        plan.warnings.last().unwrap(),
        "RUSTUP_HOME is explicitly set; migration is usually not recommended."
    );
    assert_eq!(plan.steps.len(), 3);
    assert_eq!(plan.steps[0].to, "/custom/rustup/toolchains");
    assert_eq!(plan.steps[2].to, "/custom/rustup/tmp/downloads");
    assert!(plan.steps[0].source_exists && plan.steps[0].destination_exists);
}

#[test]
fn probe_is_asked_for_source_and_destination() {
    let env = EnvPaths::from_values(p("/h"), None, None, None, None, None);
    let report = resolve_paths(&env, &AppConfig::default(), true).unwrap();
    let plan = build_migration_plan(&report, &env, |path: &String| path.ends_with("/settings.toml") && path.starts_with("/h/.config"));
    assert!(!plan.steps[1].source_exists);
    assert!(plan.steps[1].destination_exists);
}

#[test]
fn step_decisions() {
    assert!(step_needs_move(&step("/a", "/b", true, false)));
    assert!(!step_needs_move(&step("/a", "/b", false, false)));
    assert!(!step_needs_move(&step("/a", "/b", true, true)));
    assert!(!step_needs_move(&step("/a", "/b", false, true)));
}

#[test]
fn summary_records_skips_and_moves() {
    let mut summary = MigrationSummary::new();
    assert_eq!((summary.moved, summary.skipped), (0, 0));
    summary.record_skipped(&step("/a", "/b", false, false));
    summary.record_skipped(&step("/c", "/d", true, true));
    summary.record_moved(&step("/e", "/f", true, false));
    assert_eq!(summary.moved, 1);
    assert_eq!(summary.skipped, 2);
    assert_eq!(
        summary.messages,
        vec![
            p("skipped /a because source does not exist"),
            p("skipped /c because destination already exists: /d"),
            p("moved /e -> /f"),
        ]
    );
}

#[test]
fn push_step_skips_same_path_and_probes_others() {
    let mut steps: Vec<MigrationStep> = Vec::new();
    let probe = |path: &String| path.as_str() == "/old";
    push_step(&mut steps, p("/old"), p("/old"), "same", true, &probe);
    assert!(steps.is_empty());
    push_step(&mut steps, p("/old"), p("/new"), "move it", false, &probe);
    assert_eq!(steps.len(), 1);
    assert_eq!(steps[0].from, "/old");
    assert_eq!(steps[0].to, "/new");
    assert_eq!(steps[0].description, "move it");
    assert!(steps[0].source_exists);
    assert!(!steps[0].destination_exists);
}

#[test]
fn failures_end_the_run_with_their_message() {
    let err = create_failed("/x/y", "permission denied").unwrap_err();
    assert_eq!(err, "failed to create /x/y: permission denied");
    let err = move_failed(&step("/a", "/b", true, false), "no space").unwrap_err();
    assert_eq!(err, "failed to move /a -> /b: no space");
}

fn plan_of(steps: Vec<MigrationStep>) -> MigrationPlan {
    MigrationPlan { warnings: vec![], steps }
}

#[test]
fn run_counts_and_describes_every_step() {
    let plan = plan_of(vec![
        step("/a", "/x/b", true, false),
        step("/c", "/d", false, false),
        step("/e", "/f", true, true),
    ]);
    let moves = std::cell::RefCell::new(Vec::new());
    let summary = apply_migration_plan(
        &plan,
        |_: &String| Ok(()),
        |from: &String, to: &String| {
            moves.borrow_mut().push((from.clone(), to.clone()));
            Ok(())
        },
    )
    .unwrap();
    assert_eq!(summary.moved, 1);
    assert_eq!(summary.skipped, 2);
    assert_eq!(
        summary.messages,
        vec![
            p("moved /a -> /x/b"),
            p("skipped /c because source does not exist"),
            p("skipped /e because destination already exists: /f"),
        ]
    );
    assert_eq!(moves.into_inner(), vec![(p("/a"), p("/x/b"))]);
}

#[test]
fn run_stops_at_failed_parent_creation() {
    let plan = plan_of(vec![step("/a", "/x/b", true, false), step("/c", "/y/d", true, false)]);
    let calls = std::cell::Cell::new(0);
    let err = apply_migration_plan(
        &plan,
        |to: &String| {
            calls.set(calls.get() + 1);
            if to.as_str() == "/y/d" { Err((p("/y"), p("read-only"))) } else { Ok(()) }
        },
        |_: &String, _: &String| Ok(()),
    )
    .unwrap_err();
    assert_eq!(err, "failed to create /y: read-only");
    assert_eq!(calls.get(), 2);
}

#[test]
fn run_stops_at_first_failed_move() {
    let plan = plan_of(vec![step("/a", "/b", true, false), step("/c", "/d", true, false)]);
    let moves = std::cell::Cell::new(0);
    let err = apply_migration_plan(
        &plan,
        |_: &String| Ok(()),
        |_: &String, _: &String| {
            moves.set(moves.get() + 1);
            Err(p("busy"))
        },
    )
    .unwrap_err();
    assert_eq!(err, "failed to move /a -> /b: busy");
    assert_eq!(moves.get(), 1);
}
