use vstd::prelude::*;
use crate::env::{EnvPaths, join_path};
use crate::laws::{
    lemma_candidates_are_planned, lemma_planned_moves_are_candidates, lemma_planned_moves_ordered,
};
use crate::migrate::{
    MigrationPlan, MigrationStep, MoveView, create_failure_message, is_migration_plan,
    migration_candidates, move_failure_message, moves_count, planned_moves, run_message, same_path,
    step_failed, step_matches, step_succeeded,
};
use crate::resolver::ReportView;

verus! {

/// The moves a migration considers, written out: from the legacy
/// `~/.rustup`, its toolchains into the data directory, its
/// `settings.toml` into the config directory, its downloads into the cache
/// directory.
pub open spec fn expected_move(report: ReportView, env: EnvPaths, k: int) -> MoveView {
    let legacy = join_path(env.home@, ".rustup"@);
    if k == 0 {
        MoveView {
            from: join_path(legacy, "toolchains"@),
            to: join_path(report.data_dir, "toolchains"@),
            description: "Move installed toolchains to the data directory"@,
        }
    } else if k == 1 {
        MoveView {
            from: join_path(legacy, "settings.toml"@),
            to: join_path(report.config_dir, "settings.toml"@),
            description: "Move settings to the config directory"@,
        }
    } else {
        MoveView {
            from: join_path(legacy, "downloads"@),
            to: join_path(report.cache_dir, "downloads"@),
            description: "Move downloads to the cache directory"@,
        }
    }
}

/// A step shows the move `m`: same source, destination and description.
pub open spec fn shows_move(step: MigrationStep, m: MoveView) -> bool {
    step.from@ == m.from && step.to@ == m.to && step.description@ == m.description
}

/// The considered moves are the candidates migration works from.
proof fn lemma_expected_moves_are_candidates(report: ReportView, env: EnvPaths)
    ensures
        forall|k: int|
            0 <= k < 3 ==> #[trigger] expected_move(report, env, k) == migration_candidates(
                report,
                env,
            )[k],
        forall|k1: int, k2: int|
            0 <= k1 < 3 && 0 <= k2 < 3 && #[trigger] expected_move(report, env, k1).description
                == #[trigger] expected_move(report, env, k2).description ==> k1 == k2,
{
    reveal_strlit("Move installed toolchains to the data directory");
    reveal_strlit("Move settings to the config directory");
    reveal_strlit("Move downloads to the cache directory");
    assert forall|k1: int, k2: int|
        0 <= k1 < 3 && 0 <= k2 < 3 && #[trigger] expected_move(report, env, k1).description
            == #[trigger] expected_move(report, env, k2).description implies k1 == k2 by {
        assert(expected_move(report, env, k1).description[5] == expected_move(
            report,
            env,
            k2,
        ).description[5]);
    }
}

/// A step shows the considered move `k`, and that move goes somewhere else.
pub open spec fn shows_real_move(step: MigrationStep, report: ReportView, env: EnvPaths, k: int) -> bool {
    shows_move(step, expected_move(report, env, k)) && !same_path(
        expected_move(report, env, k).from,
        expected_move(report, env, k).to,
    )
}

/// Every step of a migration plan shows one of the considered moves, one
/// whose source and destination are different paths.
pub proof fn law_migration_steps_are_moves<F: Fn(&String) -> bool>(
    report: ReportView,
    env: EnvPaths,
    path_exists: F,
    plan: MigrationPlan,
)
    requires
        is_migration_plan(report, env, path_exists, plan),
    ensures
        forall|i: int|
            0 <= i < plan.steps@.len() ==> shows_real_move(#[trigger] plan.steps@[i], report, env, 0)
                || shows_real_move(plan.steps@[i], report, env, 1) || shows_real_move(
                plan.steps@[i],
                report,
                env,
                2,
            ),
{
    let cands = migration_candidates(report, env);
    let moves = planned_moves(cands);
    lemma_expected_moves_are_candidates(report, env);
    lemma_planned_moves_are_candidates(cands);
    assert forall|i: int| 0 <= i < plan.steps@.len() implies shows_real_move(
        #[trigger] plan.steps@[i],
        report,
        env,
        0,
    ) || shows_real_move(plan.steps@[i], report, env, 1) || shows_real_move(
        plan.steps@[i],
        report,
        env,
        2,
    ) by {
        assert(step_matches(plan.steps@[i], moves[i], path_exists));
        let k = choose|k: int|
            0 <= k < cands.len() && moves[i] == cands[k] && !same_path(cands[k].from, cands[k].to);
        assert(expected_move(report, env, k) == cands[k]);
        assert(shows_real_move(plan.steps@[i], report, env, k));
    }
}

/// Every considered move whose source and destination are different paths
/// is shown by a step of the plan.
pub proof fn law_migration_moves_are_planned<F: Fn(&String) -> bool>(
    report: ReportView,
    env: EnvPaths,
    path_exists: F,
    plan: MigrationPlan,
)
    requires
        is_migration_plan(report, env, path_exists, plan),
    ensures
        forall|k: int|
            0 <= k < 3 && !same_path(
                #[trigger] expected_move(report, env, k).from,
                expected_move(report, env, k).to,
            ) ==> exists|i: int|
                0 <= i < plan.steps@.len() && shows_move(plan.steps@[i], expected_move(report, env, k)),
{
    let cands = migration_candidates(report, env);
    let moves = planned_moves(cands);
    lemma_expected_moves_are_candidates(report, env);
    lemma_candidates_are_planned(cands);
    assert forall|k: int|
        0 <= k < 3 && !same_path(
            #[trigger] expected_move(report, env, k).from,
            expected_move(report, env, k).to,
        ) implies exists|i: int|
        0 <= i < plan.steps@.len() && shows_move(plan.steps@[i], expected_move(report, env, k)) by {
        assert(expected_move(report, env, k) == cands[k]);
        let j = choose|j: int| 0 <= j < moves.len() && moves[j] == cands[k];
        assert(step_matches(plan.steps@[j], moves[j], path_exists));
    }
}

/// The steps of a plan come in the order toolchains, settings, downloads.
pub proof fn law_migration_steps_in_order<F: Fn(&String) -> bool>(
    report: ReportView,
    env: EnvPaths,
    path_exists: F,
    plan: MigrationPlan,
)
    requires
        is_migration_plan(report, env, path_exists, plan),
    ensures
        forall|i: int, j: int, k1: int, k2: int|
            0 <= i < j < plan.steps@.len() && 0 <= k1 < 3 && 0 <= k2 < 3 && shows_move(
                #[trigger] plan.steps@[i],
                #[trigger] expected_move(report, env, k1),
            ) && shows_move(#[trigger] plan.steps@[j], #[trigger] expected_move(report, env, k2))
                ==> k1 < k2,
{
    let cands = migration_candidates(report, env);
    let moves = planned_moves(cands);
    lemma_expected_moves_are_candidates(report, env);
    lemma_planned_moves_ordered(cands);
    assert forall|i: int, j: int, k1: int, k2: int|
        0 <= i < j < plan.steps@.len() && 0 <= k1 < 3 && 0 <= k2 < 3 && shows_move(
            #[trigger] plan.steps@[i],
            #[trigger] expected_move(report, env, k1),
        ) && shows_move(#[trigger] plan.steps@[j], #[trigger] expected_move(report, env, k2))
            implies k1 < k2 by {
        assert(step_matches(plan.steps@[i], moves[i], path_exists));
        assert(step_matches(plan.steps@[j], moves[j], path_exists));
        let (a, b) = choose|a: int, b: int|
            0 <= a < b < cands.len() && moves[i] == cands[a] && moves[j] == cands[b];
        assert(expected_move(report, env, a).description == expected_move(report, env, k1).description);
        assert(expected_move(report, env, b).description == expected_move(report, env, k2).description);
    }
}

/// What a run records for a step: a step whose source exists and whose
/// destination does not is moved; a missing source, or else an existing
/// destination, is named as the reason for skipping it.
pub proof fn law_run_messages(step: MigrationStep)
    ensures
        step.source_exists && !step.destination_exists ==> run_message(step) == "moved "@
            + step.from@ + " -> "@ + step.to@,
        !step.source_exists ==> run_message(step) == "skipped "@ + step.from@
            + " because source does not exist"@,
        step.source_exists && step.destination_exists ==> run_message(step) == "skipped "@
            + step.from@ + " because destination already exists: "@ + step.to@,
{
}

/// A run moves exactly the steps whose source exists and whose destination
/// does not: none of no steps, and one more for one more such step.
pub proof fn law_moves_count(steps: Seq<MigrationStep>, s: MigrationStep)
    ensures
        moves_count(seq![]) == 0,
        moves_count(steps.push(s)) == moves_count(steps) + if s.source_exists
            && !s.destination_exists {
            1int
        } else {
            0int
        },
{
    assert(steps.push(s).drop_last() =~= steps);
}

/// The errors that end a run name what failed: the parent directory that
/// could not be created, or the move from source to destination, followed
/// by the file system's error.
pub proof fn law_failure_messages(parent: Seq<char>, error: Seq<char>, step: MigrationStep)
    ensures
        create_failure_message(parent, error) == "failed to create "@ + parent + ": "@ + error,
        move_failure_message(step, error) == "failed to move "@ + step.from@ + " -> "@ + step.to@
            + ": "@ + error,
{
}

/// A step counts as carried out when it is skipped, or when both the
/// creation of its destination's parent and the move itself succeeded. A
/// run fails on a step only if it is a move and one of these two failed.
pub proof fn law_step_outcomes<P, M>(
    step: MigrationStep,
    e: Seq<char>,
    create_parent: P,
    move_path: M,
) where P: Fn(&String) -> Result<(), (String, String)>, M: Fn(&String, &String) -> Result<(), String>
    ensures
        step_succeeded(step, create_parent, move_path) <==> (step.source_exists
            && !step.destination_exists ==> call_ensures(create_parent, (&step.to,), Ok(()))
            && call_ensures(move_path, (&step.from, &step.to), Ok(()))),
        step_failed(step, e, create_parent, move_path) ==> step.source_exists
            && !step.destination_exists,
        step_failed(step, e, create_parent, move_path) ==> (exists|failure: (String, String)|
            call_ensures(create_parent, (&step.to,), Err(failure)) && e == "failed to create "@
                + failure.0@ + ": "@ + failure.1@) || (call_ensures(
            create_parent,
            (&step.to,),
            Ok(()),
        ) && exists|error: String|
            call_ensures(move_path, (&step.from, &step.to), Err(error)) && e == "failed to move "@
                + step.from@ + " -> "@ + step.to@ + ": "@ + error@),
{
}

/// A plan repeats the report's warnings, in order, and adds one about
/// `RUSTUP_HOME` exactly when it is set.
pub proof fn law_plan_warnings<F: Fn(&String) -> bool>(
    report: ReportView,
    env: EnvPaths,
    path_exists: F,
    plan: MigrationPlan,
)
    requires
        is_migration_plan(report, env, path_exists, plan),
    ensures
        env.rustup_home is None ==> plan.warnings@.map_values(|w: String| w@) == report.warnings,
        env.rustup_home is Some ==> plan.warnings@.map_values(|w: String| w@) == report.warnings.push(
            "RUSTUP_HOME is explicitly set; migration is usually not recommended."@,
        ),
{
}

} // verus!
