use vstd::prelude::*;
use crate::migrate::{MigrationPlan, MigrationStep};
use crate::resolver::{DecisionView, PathDecision, ReportView, ResolutionReport};

verus! {

/// One line per warning, each as `- <warning>`.
pub open spec fn bullet_lines(ws: Seq<Seq<char>>) -> Seq<char>
    decreases ws.len(),
{
    if ws.len() == 0 {
        seq![]
    } else {
        bullet_lines(ws.drop_last()) + ("- "@ + ws.last() + "\n"@)
    }
}

/// The warnings section: nothing when there are no warnings, else a
/// `Warnings:` heading, the bullet lines and an empty line.
pub open spec fn warnings_block(ws: Seq<Seq<char>>) -> Seq<char> {
    if ws.len() == 0 {
        seq![]
    } else {
        "Warnings:\n"@ + bullet_lines(ws) + "\n"@
    }
}

/// `<name>: <path>`, then `  reason: <reason>`, then an empty line.
pub open spec fn decision_text(d: DecisionView) -> Seq<char> {
    d.name + ": "@ + d.selected_path + "\n  reason: "@ + d.reason + "\n\n"@
}

pub open spec fn decisions_text(ds: Seq<DecisionView>) -> Seq<char>
    decreases ds.len(),
{
    if ds.len() == 0 {
        seq![]
    } else {
        decisions_text(ds.drop_last()) + decision_text(ds.last())
    }
}

/// `- <from> -> <to>`, then `  <description>`, then an empty line.
pub open spec fn step_text(step: MigrationStep) -> Seq<char> {
    "- "@ + step.from@ + " -> "@ + step.to@ + "\n  "@ + step.description@ + "\n\n"@
}

pub open spec fn steps_text(steps: Seq<MigrationStep>) -> Seq<char>
    decreases steps.len(),
{
    if steps.len() == 0 {
        seq![]
    } else {
        steps_text(steps.drop_last()) + step_text(steps.last())
    }
}

/// The four resolved directories, one per line, names padded to one column.
pub open spec fn resolve_text(r: ReportView) -> Seq<char> {
    "config_dir: "@ + r.config_dir + "\n"@ + ("data_dir:   "@ + r.data_dir + "\n"@) + (
    "cache_dir:  "@ + r.cache_dir + "\n"@) + ("bin_dir:    "@ + r.bin_dir + "\n"@)
}

/// The warnings section, then every decision.
pub open spec fn explain_text(r: ReportView) -> Seq<char> {
    warnings_block(r.warnings) + decisions_text(r.decisions)
}

/// The warnings section, then every step.
pub open spec fn plan_text(warnings: Seq<Seq<char>>, steps: Seq<MigrationStep>) -> Seq<char> {
    warnings_block(warnings) + steps_text(steps)
}

/// The text of the resolved directories, as the `resolve` command shows it.
pub fn render_resolve(report: &ResolutionReport) -> (res: String)
    ensures
        res@ == resolve_text(report@),
{
    let mut out = "config_dir: ".to_owned();
    out.append(report.resolved.config_dir.as_str());
    out.append("\n");
    out.append("data_dir:   ");
    out.append(report.resolved.data_dir.as_str());
    out.append("\n");
    out.append("cache_dir:  ");
    out.append(report.resolved.cache_dir.as_str());
    out.append("\n");
    out.append("bin_dir:    ");
    out.append(report.resolved.bin_dir.as_str());
    out.append("\n");
    assert(out@ =~= resolve_text(report@));
    out
}

/// Appends the warnings section for `warnings` to `out`.
fn append_warnings(out: &mut String, warnings: &Vec<String>)
    ensures
        final(out)@ == old(out)@ + warnings_block(warnings@.map_values(|w: String| w@)),
{
    let ghost ws = warnings@.map_values(|w: String| w@);
    if warnings.len() == 0 {
        assert(old(out)@ + warnings_block(ws) =~= old(out)@);
        return;
    }
    let ghost start = out@;
    out.append("Warnings:\n");
    let n = warnings.len();
    assert(bullet_lines(ws.take(0)) =~= seq![]);
    for i in 0..n
        invariant
            n == warnings@.len(),
            ws == warnings@.map_values(|w: String| w@),
            out@ =~= start + "Warnings:\n"@ + bullet_lines(ws.take(i as int)),
    {
        out.append("- ");
        out.append(warnings[i].as_str());
        out.append("\n");
        assert(ws.take((i + 1) as int).drop_last() =~= ws.take(i as int));
    }
    assert(ws.take(n as int) =~= ws);
    out.append("\n");
}

/// The text of the `explain` command: the warnings, then each decision
/// with its reason.
pub fn render_explain(report: &ResolutionReport) -> (res: String)
    ensures
        res@ == explain_text(report@),
{
    let mut out = String::new();
    append_warnings(&mut out, &report.warnings);
    let ghost start = out@;
    let ghost ds = report@.decisions;
    let n = report.decisions.len();
    assert(decisions_text(ds.take(0)) =~= seq![]);
    for i in 0..n
        invariant
            n == report.decisions@.len(),
            ds == report@.decisions,
            out@ =~= start + decisions_text(ds.take(i as int)),
    {
        let d: &PathDecision = &report.decisions[i];
        out.append(d.name.as_str());
        out.append(": ");
        out.append(d.selected_path.as_str());
        out.append("\n  reason: ");
        out.append(d.reason.as_str());
        out.append("\n\n");
        assert(ds.take((i + 1) as int).drop_last() =~= ds.take(i as int));
    }
    assert(ds.take(n as int) =~= ds);
    out
}

/// The text of a migration plan: the warnings, then each step with its
/// description.
pub fn render_migration_plan(plan: &MigrationPlan) -> (res: String)
    ensures
        res@ == plan_text(plan.warnings@.map_values(|w: String| w@), plan.steps@),
{
    let mut out = String::new();
    append_warnings(&mut out, &plan.warnings);
    let ghost start = out@;
    let n = plan.steps.len();
    assert(steps_text(plan.steps@.take(0)) =~= seq![]);
    for i in 0..n
        invariant
            n == plan.steps@.len(),
            out@ =~= start + steps_text(plan.steps@.take(i as int)),
    {
        let step: &MigrationStep = &plan.steps[i];
        out.append("- ");
        out.append(step.from.as_str());
        out.append(" -> ");
        out.append(step.to.as_str());
        out.append("\n  ");
        out.append(step.description.as_str());
        out.append("\n\n");
        assert(plan.steps@.take((i + 1) as int).drop_last() =~= plan.steps@.take(i as int));
    }
    assert(plan.steps@.take(n as int) =~= plan.steps@);
    out
}

} // verus!
