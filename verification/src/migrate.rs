use vstd::prelude::*;
use crate::env::{EnvPaths, join, join_path, spec_default_rustup_home};
use crate::resolver::{ReportView, ResolutionReport};

verus! {

/// The pieces of a path's text between its `/` separators, empty pieces
/// included: `/a//b/` gives ``, `a`, ``, `b`, ``.
pub open spec fn path_pieces(s: Seq<char>) -> Seq<Seq<char>>
    decreases s.len(),
{
    if s.len() == 0 {
        seq![seq![]]
    } else {
        let rest = path_pieces(s.drop_last());
        if s.last() == '/' {
            rest.push(seq![])
        } else {
            rest.update(rest.len() - 1, rest.last().push(s.last()))
        }
    }
}

/// The pieces that are components: neither empty nor `.`.
pub open spec fn normal_pieces(pieces: Seq<Seq<char>>) -> Seq<Seq<char>>
    decreases pieces.len(),
{
    if pieces.len() == 0 {
        seq![]
    } else {
        let rest = normal_pieces(pieces.drop_last());
        let p = pieces.last();
        if p.len() == 0 || p == seq!['.'] {
            rest
        } else {
            rest.push(p)
        }
    }
}

/// Whether a path starts at the root (`/`).
pub open spec fn has_root(s: Seq<char>) -> bool {
    s.len() > 0 && s[0] == '/'
}

/// A path's components after the root, as `std::path::Path::components`
/// documents them on Unix: repeated separators and a trailing separator
/// are ignored, and `.` is dropped except as the first component of a
/// relative path.
pub open spec fn path_components(s: Seq<char>) -> Seq<Seq<char>> {
    let pieces = path_pieces(s);
    if !has_root(s) && pieces[0] == seq!['.'] {
        seq![seq!['.']] + normal_pieces(pieces)
    } else {
        normal_pieces(pieces)
    }
}

/// Whether two paths are one path as `std::path::Path` compares them:
/// both start at the root or neither does, and their components are equal.
pub open spec fn same_path(a: Seq<char>, b: Seq<char>) -> bool {
    has_root(a) == has_root(b) && path_components(a) == path_components(b)
}

/// Compares two paths with `==` on `std::path::Path`. Trusted to compare
/// them by their components as `Path::components` documents them for Unix
/// (see `same_path`).
#[verifier::external_body]
fn paths_equal(a: &str, b: &str) -> (res: bool)
    ensures
        res == same_path(a@, b@),
{
    std::path::Path::new(a) == std::path::Path::new(b)
}

/// One move from the legacy layout to the resolved one.
#[derive(Debug, Clone)]
pub struct MigrationStep {
    pub from: String,
    pub to: String,
    pub description: String,
    pub source_exists: bool,
    pub destination_exists: bool,
}

/// The moves to make, and the warnings that go with them.
#[derive(Debug, Clone)]
pub struct MigrationPlan {
    pub warnings: Vec<String>,
    pub steps: Vec<MigrationStep>,
}

/// What carrying out a plan did.
#[derive(Debug)]
pub struct MigrationSummary {
    pub moved: usize,
    pub skipped: usize,
    pub messages: Vec<String>,
}

/// A candidate move: source, destination and description.
pub struct MoveView {
    pub from: Seq<char>,
    pub to: Seq<char>,
    pub description: Seq<char>,
}

pub open spec fn move_view(from: Seq<char>, to: Seq<char>, description: Seq<char>) -> MoveView {
    MoveView { from, to, description }
}

/// The three moves that migration considers, in order: toolchains to the
/// data directory, `settings.toml` to the config directory, downloads to the
/// cache directory, each from the legacy `~/.rustup`.
pub open spec fn migration_candidates(report: ReportView, env: EnvPaths) -> Seq<MoveView> {
    let legacy = spec_default_rustup_home(env);
    seq![
        move_view(
            join_path(legacy, "toolchains"@),
            join_path(report.data_dir, "toolchains"@),
            "Move installed toolchains to the data directory"@,
        ),
        move_view(
            join_path(legacy, "settings.toml"@),
            join_path(report.config_dir, "settings.toml"@),
            "Move settings to the config directory"@,
        ),
        move_view(
            join_path(legacy, "downloads"@),
            join_path(report.cache_dir, "downloads"@),
            "Move downloads to the cache directory"@,
        ),
    ]
}

/// The candidates that actually move something: those whose source and
/// destination are not the same path, in their order.
pub open spec fn planned_moves(candidates: Seq<MoveView>) -> Seq<MoveView>
    decreases candidates.len(),
{
    if candidates.len() == 0 {
        seq![]
    } else {
        let rest = planned_moves(candidates.drop_last());
        let c = candidates.last();
        if same_path(c.from, c.to) {
            rest
        } else {
            rest.push(c)
        }
    }
}

/// The warning added to a plan when `RUSTUP_HOME` is set.
pub open spec fn rustup_home_migration_warning() -> Seq<char> {
    "RUSTUP_HOME is explicitly set; migration is usually not recommended."@
}

/// A plan's warnings: the report's, then one more when `RUSTUP_HOME` is set.
pub open spec fn plan_warnings(report: ReportView, env: EnvPaths) -> Seq<Seq<char>> {
    if env.rustup_home is Some {
        report.warnings.push(rustup_home_migration_warning())
    } else {
        report.warnings
    }
}

/// A step carries the move `m`, and its two flags are what `path_exists`
/// answered for its source and its destination.
pub open spec fn step_matches<F: Fn(&String) -> bool>(
    step: MigrationStep,
    m: MoveView,
    path_exists: F,
) -> bool {
    &&& step.from@ == m.from
    &&& step.to@ == m.to
    &&& step.description@ == m.description
    &&& call_ensures(path_exists, (&step.from,), step.source_exists)
    &&& call_ensures(path_exists, (&step.to,), step.destination_exists)
}

/// Each step carries the corresponding move (see `step_matches`), and no
/// step's source and destination are the same text.
pub open spec fn steps_match<F: Fn(&String) -> bool>(
    steps: Seq<MigrationStep>,
    moves: Seq<MoveView>,
    path_exists: F,
) -> bool {
    &&& steps.len() == moves.len()
    &&& forall|i: int|
        0 <= i < steps.len() ==> step_matches(#[trigger] steps[i], moves[i], path_exists)
    &&& forall|i: int| 0 <= i < steps.len() ==> #[trigger] steps[i].from@ != steps[i].to@
}

/// `plan` is the plan for `report` and `env`: the report's warnings (and
/// one about `RUSTUP_HOME` when it is set), then one step per planned move,
/// in order, each flagged by what `path_exists` answered.
pub open spec fn is_migration_plan<F: Fn(&String) -> bool>(
    report: ReportView,
    env: EnvPaths,
    path_exists: F,
    plan: MigrationPlan,
) -> bool {
    &&& plan.warnings@.map_values(|w: String| w@) == plan_warnings(report, env)
    &&& steps_match(plan.steps@, planned_moves(migration_candidates(report, env)), path_exists)
}

/// Considering one more candidate extends the planned steps as `add_step`
/// does.
proof fn lemma_plan_one_more<F: Fn(&String) -> bool>(
    before: Seq<MigrationStep>,
    after: Seq<MigrationStep>,
    cands: Seq<MoveView>,
    k: int,
    path_exists: F,
)
    requires
        0 <= k < cands.len(),
        steps_match(before, planned_moves(cands.take(k)), path_exists),
        same_path(cands[k].from, cands[k].to) ==> after == before,
        !same_path(cands[k].from, cands[k].to) ==> {
            &&& after.len() == before.len() + 1
            &&& after.take(before.len() as int) == before
            &&& step_matches(after.last(), cands[k], path_exists)
            &&& after.last().from@ != after.last().to@
        },
    ensures
        steps_match(after, planned_moves(cands.take(k + 1)), path_exists),
{
    assert(cands.take(k + 1).drop_last() =~= cands.take(k));
    let moves = planned_moves(cands.take(k + 1));
    if !same_path(cands[k].from, cands[k].to) {
        assert forall|i: int| 0 <= i < after.len() implies step_matches(
            #[trigger] after[i],
            moves[i],
            path_exists,
        ) && after[i].from@ != after[i].to@ by {
            if i < before.len() {
                assert(after[i] == after.take(before.len() as int)[i]);
            }
        }
    }
}

/// Adds the move from `from` to `to`, unless `same` says that both are the
/// same path. For a move that is added, `path_exists` is asked whether its
/// source, and then its destination, exist.
pub fn push_step<F: Fn(&String) -> bool>(
    steps: &mut Vec<MigrationStep>,
    from: String,
    to: String,
    description: &str,
    same: bool,
    path_exists: &F,
)
    requires
        forall|p: &String| #[trigger] path_exists.requires((p,)),
    ensures
        same ==> final(steps)@ == old(steps)@,
        !same ==> {
            &&& final(steps)@.len() == old(steps)@.len() + 1
            &&& final(steps)@.take(old(steps)@.len() as int) == old(steps)@
            &&& step_matches(final(steps)@.last(), move_view(from@, to@, description@), *path_exists)
        },
{
    if same {
        return;
    }
    let source_exists = path_exists(&from);
    let destination_exists = path_exists(&to);
    let ghost old_steps = steps@;
    steps.push(
        MigrationStep {
            source_exists,
            destination_exists,
            from,
            to,
            description: description.to_owned(),
        },
    );
    assert(steps@.take(old_steps.len() as int) =~= old_steps);
}

/// Adds the move from `from` to `to` unless both are the same path,
/// recording whether each of them exists.
fn add_step<F: Fn(&String) -> bool>(
    steps: &mut Vec<MigrationStep>,
    from: String,
    to: String,
    description: &str,
    path_exists: &F,
)
    requires
        forall|p: &String| #[trigger] path_exists.requires((p,)),
    ensures
        same_path(from@, to@) ==> final(steps)@ == old(steps)@,
        !same_path(from@, to@) ==> {
            &&& final(steps)@.len() == old(steps)@.len() + 1
            &&& final(steps)@.take(old(steps)@.len() as int) == old(steps)@
            &&& step_matches(final(steps)@.last(), move_view(from@, to@, description@), *path_exists)
            &&& final(steps)@.last().from@ != final(steps)@.last().to@
        },
{
    let same = paths_equal(from.as_str(), to.as_str());
    push_step(steps, from, to, description, same, path_exists);
}

/// Plans the moves from the legacy `~/.rustup` layout to the resolved
/// directories. A move whose source and destination are the same path is
/// left out. `path_exists` is asked, for each move kept, whether its source
/// and then its destination exist.
pub fn build_migration_plan<F: Fn(&String) -> bool>(
    report: &ResolutionReport,
    env: &EnvPaths,
    path_exists: F,
) -> (plan: MigrationPlan)
    requires
        forall|p: &String| #[trigger] path_exists.requires((p,)),
    ensures
        is_migration_plan(report@, *env, path_exists, plan),
{
    let mut warnings: Vec<String> = Vec::new();
    let n = report.warnings.len();
    for i in 0..n
        invariant
            n == report.warnings@.len(),
            warnings@.map_values(|w: String| w@) =~= report@.warnings.take(i as int),
    {
        warnings.push(report.warnings[i].clone());
        assert(report@.warnings.take((i + 1) as int) =~= report@.warnings.take(i as int).push(
            report.warnings@[i as int]@,
        ));
    }
    assert(report@.warnings.take(n as int) =~= report@.warnings);
    if env.rustup_home.is_some() {
        warnings.push("RUSTUP_HOME is explicitly set; migration is usually not recommended.".to_owned());
    }
    assert(warnings@.map_values(|w: String| w@) =~= plan_warnings(report@, *env));

    let ghost cands = migration_candidates(report@, *env);
    let legacy_rustup_home = env.default_rustup_home();
    let mut steps: Vec<MigrationStep> = Vec::new();
    proof {
        assert(planned_moves(cands.take(0)) =~= seq![]);
    }

    let ghost s0 = steps@;
    add_step(
        &mut steps,
        join(legacy_rustup_home.as_str(), "toolchains"),
        join(report.resolved.data_dir.as_str(), "toolchains"),
        "Move installed toolchains to the data directory",
        &path_exists,
    );
    proof {
        lemma_plan_one_more(s0, steps@, cands, 0, path_exists);
    }
    let ghost s1 = steps@;
    add_step(
        &mut steps,
        join(legacy_rustup_home.as_str(), "settings.toml"),
        join(report.resolved.config_dir.as_str(), "settings.toml"),
        "Move settings to the config directory",
        &path_exists,
    );
    proof {
        lemma_plan_one_more(s1, steps@, cands, 1, path_exists);
    }
    let ghost s2 = steps@;
    add_step(
        &mut steps,
        join(legacy_rustup_home.as_str(), "downloads"),
        join(report.resolved.cache_dir.as_str(), "downloads"),
        "Move downloads to the cache directory",
        &path_exists,
    );
    proof {
        lemma_plan_one_more(s2, steps@, cands, 2, path_exists);
        assert(cands.take(3) =~= cands);
    }
    MigrationPlan { warnings, steps }
}

/// Whether carrying out the plan moves this step: its source exists and
/// its destination does not. Every other step is skipped.
pub open spec fn moves_step(step: MigrationStep) -> bool {
    step.source_exists && !step.destination_exists
}

/// The message for a skipped step, naming why it was skipped.
pub open spec fn skip_message(step: MigrationStep) -> Seq<char> {
    if !step.source_exists {
        "skipped "@ + step.from@ + " because source does not exist"@
    } else {
        "skipped "@ + step.from@ + " because destination already exists: "@ + step.to@
    }
}

/// The message for a step that was carried out.
pub open spec fn move_message(step: MigrationStep) -> Seq<char> {
    "moved "@ + step.from@ + " -> "@ + step.to@
}

/// Decides a step of a plan being carried out: `true` when its source is
/// to be moved to its destination, `false` when it is skipped.
pub fn step_needs_move(step: &MigrationStep) -> (res: bool)
    ensures
        res == moves_step(*step),
{
    step.source_exists && !step.destination_exists
}

/// The error that ends a run when the destination's parent directory
/// cannot be created.
pub open spec fn create_failure_message(parent: Seq<char>, error: Seq<char>) -> Seq<char> {
    "failed to create "@ + parent + ": "@ + error
}

/// The error that ends a run when a step's move fails.
pub open spec fn move_failure_message(step: MigrationStep, error: Seq<char>) -> Seq<char> {
    "failed to move "@ + step.from@ + " -> "@ + step.to@ + ": "@ + error
}

/// The outcome of a run that failed creating `parent`, the parent
/// directory of a step's destination, with the file system's `error`.
pub fn create_failed(parent: &str, error: &str) -> (res: Result<MigrationSummary, String>)
    ensures
        res matches Err(e) && e@ == create_failure_message(parent@, error@),
{
    let mut message = "failed to create ".to_owned();
    message.append(parent);
    message.append(": ");
    message.append(error);
    Err(message)
}

/// The outcome of a run that failed moving `step` with the file system's
/// `error`.
pub fn move_failed(step: &MigrationStep, error: &str) -> (res: Result<MigrationSummary, String>)
    ensures
        res matches Err(e) && e@ == move_failure_message(*step, error@),
{
    let mut message = "failed to move ".to_owned();
    message.append(step.from.as_str());
    message.append(" -> ");
    message.append(step.to.as_str());
    message.append(": ");
    message.append(error);
    Err(message)
}

impl MigrationSummary {
    /// Nothing carried out yet.
    pub fn new() -> (res: Self)
        ensures
            res.moved == 0,
            res.skipped == 0,
            res.messages@.len() == 0,
    {
        MigrationSummary { moved: 0, skipped: 0, messages: Vec::new() }
    }

    /// Records that `step` was skipped, with the message that says why.
    pub fn record_skipped(&mut self, step: &MigrationStep)
        requires
            !moves_step(*step),
            old(self).skipped < usize::MAX,
        ensures
            final(self).skipped == old(self).skipped + 1,
            final(self).moved == old(self).moved,
            final(self).messages@.len() == old(self).messages@.len() + 1,
            final(self).messages@.take(old(self).messages@.len() as int) == old(self).messages@,
            final(self).messages@.last()@ == skip_message(*step),
    {
        self.skipped = self.skipped + 1;
        let mut message = "skipped ".to_owned();
        message.append(step.from.as_str());
        if !step.source_exists {
            message.append(" because source does not exist");
        } else {
            message.append(" because destination already exists: ");
            message.append(step.to.as_str());
        }
        let ghost old_messages = self.messages@;
        self.messages.push(message);
        assert(self.messages@.take(old_messages.len() as int) =~= old_messages);
    }

    /// Records that `step` was carried out.
    pub fn record_moved(&mut self, step: &MigrationStep)
        requires
            moves_step(*step),
            old(self).moved < usize::MAX,
        ensures
            final(self).moved == old(self).moved + 1,
            final(self).skipped == old(self).skipped,
            final(self).messages@.len() == old(self).messages@.len() + 1,
            final(self).messages@.take(old(self).messages@.len() as int) == old(self).messages@,
            final(self).messages@.last()@ == move_message(*step),
    {
        self.moved = self.moved + 1;
        let mut message = "moved ".to_owned();
        message.append(step.from.as_str());
        message.append(" -> ");
        message.append(step.to.as_str());
        let ghost old_messages = self.messages@;
        self.messages.push(message);
        assert(self.messages@.take(old_messages.len() as int) =~= old_messages);
    }
}

/// The message a run records for a step: why it was skipped, or that it
/// was moved.
pub open spec fn run_message(step: MigrationStep) -> Seq<char> {
    if moves_step(step) {
        move_message(step)
    } else {
        skip_message(step)
    }
}

/// How many steps a run moves.
pub open spec fn moves_count(steps: Seq<MigrationStep>) -> nat
    decreases steps.len(),
{
    if steps.len() == 0 {
        0
    } else {
        moves_count(steps.drop_last()) + if moves_step(steps.last()) {
            1nat
        } else {
            0nat
        }
    }
}

/// A step was carried out without error: if it is a move, creating its
/// destination's parent and then the move itself both succeeded.
pub open spec fn step_succeeded<P, M>(step: MigrationStep, create_parent: P, move_path: M) -> bool where
    P: Fn(&String) -> Result<(), (String, String)>,
    M: Fn(&String, &String) -> Result<(), String>,
 {
    moves_step(step) ==> {
        &&& call_ensures(create_parent, (&step.to,), Ok(()))
        &&& call_ensures(move_path, (&step.from, &step.to), Ok(()))
    }
}

/// The run failed on `step` with the error `e`: creating the parent of its
/// destination failed, or that succeeded and the move failed.
pub open spec fn step_failed<P, M>(
    step: MigrationStep,
    e: Seq<char>,
    create_parent: P,
    move_path: M,
) -> bool where
    P: Fn(&String) -> Result<(), (String, String)>,
    M: Fn(&String, &String) -> Result<(), String>,
 {
    &&& moves_step(step)
    &&& {
        ||| exists|failure: (String, String)|
            call_ensures(create_parent, (&step.to,), Err(failure)) && e
                == create_failure_message(failure.0@, failure.1@)
        ||| call_ensures(create_parent, (&step.to,), Ok(())) && exists|error: String|
            call_ensures(move_path, (&step.from, &step.to), Err(error)) && e
                == move_failure_message(step, error@)
    }
}

/// Carries out a plan, step by step. A step whose source is missing or
/// whose destination exists is skipped. Otherwise `create_parent` is asked
/// to create the parent directory of its destination (on failure it gives
/// the parent and the error), then `move_path` to move its source there
/// (on failure it gives the error). The first failure ends the run with
/// its message; a run without failure counts and describes every step.
pub fn apply_migration_plan<P, M>(plan: &MigrationPlan, create_parent: P, move_path: M) -> (res:
    Result<MigrationSummary, String>) where
    P: Fn(&String) -> Result<(), (String, String)>,
    M: Fn(&String, &String) -> Result<(), String>,

    requires
        forall|to: &String| #[trigger] create_parent.requires((to,)),
        forall|from: &String, to: &String| #[trigger] move_path.requires((from, to)),
    ensures
        match res {
            Ok(summary) => {
                &&& summary.moved == moves_count(plan.steps@)
                &&& summary.moved + summary.skipped == plan.steps@.len()
                &&& summary.messages@.len() == plan.steps@.len()
                &&& forall|i: int|
                    0 <= i < plan.steps@.len() ==> #[trigger] summary.messages@[i]@ == run_message(
                        plan.steps@[i],
                    )
                &&& forall|i: int|
                    0 <= i < plan.steps@.len() ==> step_succeeded(
                        #[trigger] plan.steps@[i],
                        create_parent,
                        move_path,
                    )
            },
            Err(e) => exists|k: int|
                0 <= k < plan.steps@.len() && #[trigger] step_failed(
                    plan.steps@[k],
                    e@,
                    create_parent,
                    move_path,
                ) && forall|i: int|
                    0 <= i < k ==> step_succeeded(
                        #[trigger] plan.steps@[i],
                        create_parent,
                        move_path,
                    ),
        },
{
    let mut summary = MigrationSummary::new();
    let n = plan.steps.len();
    for i in 0..n
        invariant
            n == plan.steps@.len(),
            forall|to: &String| #[trigger] create_parent.requires((to,)),
            forall|from: &String, to: &String| #[trigger] move_path.requires((from, to)),
            summary.moved == moves_count(plan.steps@.take(i as int)),
            summary.moved + summary.skipped == i,
            summary.messages@.len() == i,
            forall|j: int|
                0 <= j < i ==> #[trigger] summary.messages@[j]@ == run_message(plan.steps@[j]),
            forall|j: int|
                0 <= j < i ==> step_succeeded(#[trigger] plan.steps@[j], create_parent, move_path),
    {
        let step = &plan.steps[i];
        let ghost before = summary.messages@;
        assert(plan.steps@.take(i + 1).drop_last() =~= plan.steps@.take(i as int));
        if !step_needs_move(step) {
            summary.record_skipped(step);
        } else {
            let created = create_parent(&step.to);
            match created {
                Err(failure) => {
                    let res = create_failed(failure.0.as_str(), failure.1.as_str());
                    assert(step_failed(plan.steps@[i as int], res->Err_0@, create_parent, move_path));
                    return res;
                },
                Ok(u) => {
                    assert(created == Ok::<(), (String, String)>(u));
                },
            }
            assert(call_ensures(create_parent, (&step.to,), Ok(())));
            let moved = move_path(&step.from, &step.to);
            match moved {
                Err(error) => {
                    let res = move_failed(step, error.as_str());
                    assert(call_ensures(move_path, (&step.from, &step.to), Err(error)));
                    assert(step_failed(plan.steps@[i as int], res->Err_0@, create_parent, move_path));
                    return res;
                },
                Ok(u) => {
                    assert(moved == Ok::<(), String>(u));
                },
            }
            assert(call_ensures(move_path, (&step.from, &step.to), Ok(())));
            summary.record_moved(step);
        }
        assert forall|j: int| 0 <= j < i + 1 implies #[trigger] summary.messages@[j]@ == run_message(
            plan.steps@[j],
        ) by {
            if j < i {
                assert(summary.messages@[j] == before[j]);
            }
        }
    }
    assert(plan.steps@.take(n as int) =~= plan.steps@);
    Ok(summary)
}

} // verus!
