use vstd::prelude::*;
use crate::migrate::MigrationStep;
use crate::report::{bullet_lines, decisions_text, explain_text, plan_text, resolve_text};
use crate::resolver::{DecisionView, ReportView, ResolutionReport};

verus! {

/// The resolve text is four lines, in order, each a label padded to twelve
/// characters followed by its own directory: `config_dir: ` and the config
/// directory, `data_dir:   ` and the data directory, `cache_dir:  ` and
/// the cache directory, `bin_dir:    ` and the bin directory.
pub proof fn law_resolve_text_lines(r: ReportView)
    ensures
        ({
            let t = resolve_text(r);
            let a: int = 13 + r.config_dir.len() as int;
            let b: int = a + 13 + r.data_dir.len();
            let c: int = b + 13 + r.cache_dir.len();
            let d: int = c + 13 + r.bin_dir.len();
            &&& t.len() == d
            &&& t.subrange(0, 12) == "config_dir: "@
            &&& t.subrange(12, a - 1) == r.config_dir
            &&& t[a - 1] == '\n'
            &&& t.subrange(a, a + 12) == "data_dir:   "@
            &&& t.subrange(a + 12, b - 1) == r.data_dir
            &&& t[b - 1] == '\n'
            &&& t.subrange(b, b + 12) == "cache_dir:  "@
            &&& t.subrange(b + 12, c - 1) == r.cache_dir
            &&& t[c - 1] == '\n'
            &&& t.subrange(c, c + 12) == "bin_dir:    "@
            &&& t.subrange(c + 12, d - 1) == r.bin_dir
            &&& t[d - 1] == '\n'
        }),
{
    reveal_strlit("config_dir: ");
    reveal_strlit("data_dir:   ");
    reveal_strlit("cache_dir:  ");
    reveal_strlit("bin_dir:    ");
    reveal_strlit("\n");
    let t = resolve_text(r);
    let l1 = "config_dir: "@ + r.config_dir + "\n"@;
    let l2 = "data_dir:   "@ + r.data_dir + "\n"@;
    let l3 = "cache_dir:  "@ + r.cache_dir + "\n"@;
    let l4 = "bin_dir:    "@ + r.bin_dir + "\n"@;
    assert(t =~= l1 + l2 + l3 + l4);
    let a: int = 13 + r.config_dir.len() as int;
    let b: int = a + 13 + r.data_dir.len();
    let c: int = b + 13 + r.cache_dir.len();
    let d: int = c + 13 + r.bin_dir.len();
    assert(t.subrange(0, 12) =~= "config_dir: "@);
    assert(t.subrange(12, a - 1) =~= r.config_dir);
    assert(t.subrange(a, a + 12) =~= "data_dir:   "@);
    assert(t.subrange(a + 12, b - 1) =~= r.data_dir);
    assert(t.subrange(b, b + 12) =~= "cache_dir:  "@);
    assert(t.subrange(b + 12, c - 1) =~= r.cache_dir);
    assert(t.subrange(c, c + 12) =~= "bin_dir:    "@);
    assert(t.subrange(c + 12, d - 1) =~= r.bin_dir);
}

/// Without warnings there is no warnings section; the bullet list of no
/// warnings is empty.
pub proof fn law_no_warnings_no_section(ws: Seq<Seq<char>>)
    ensures
        bullet_lines(seq![]) == Seq::<char>::empty(),
        ws.len() == 0 ==> plan_text(ws, seq![]) == Seq::<char>::empty(),
        ws.len() > 0 ==> plan_text(ws, seq![]) == "Warnings:\n"@ + bullet_lines(ws) + "\n"@,
{
    assert(plan_text(ws, seq![]) =~= crate::report::warnings_block(ws));
}

/// One more warning adds one more line, `- ` and the warning, at the end
/// of the bullet list.
pub proof fn law_bullet_lines_push(ws: Seq<Seq<char>>, w: Seq<char>)
    ensures
        bullet_lines(ws.push(w)) == bullet_lines(ws) + ("- "@ + w + "\n"@),
{
    assert(ws.push(w).drop_last() =~= ws);
}

/// One more step adds, at the end of the plan text, one block showing that
/// very step: `- <from> -> <to>`, then `  <description>`, then an empty line.
pub proof fn law_plan_text_push(ws: Seq<Seq<char>>, steps: Seq<MigrationStep>, s: MigrationStep)
    ensures
        plan_text(ws, steps.push(s)) == plan_text(ws, steps) + ("- "@ + s.from@ + " -> "@ + s.to@
            + "\n  "@ + s.description@ + "\n\n"@),
{
    assert(steps.push(s).drop_last() =~= steps);
    assert(plan_text(ws, steps.push(s)) =~= plan_text(ws, steps) + ("- "@ + s.from@ + " -> "@
        + s.to@ + "\n  "@ + s.description@ + "\n\n"@));
}

/// One more decision adds, at the end, one block showing that very
/// decision: `<name>: <path>`, then `  reason: <reason>`, then an empty
/// line.
pub proof fn law_decisions_text_push(ds: Seq<DecisionView>, d: DecisionView)
    ensures
        decisions_text(ds.push(d)) == decisions_text(ds) + (d.name + ": "@ + d.selected_path
            + "\n  reason: "@ + d.reason + "\n\n"@),
        decisions_text(seq![]) == Seq::<char>::empty(),
{
    assert(ds.push(d).drop_last() =~= ds);
}

/// The explain text shows the warnings as the plan text does, then the
/// decisions.
pub proof fn law_explain_text_layout(r: ReportView)
    ensures
        explain_text(r) == plan_text(r.warnings, seq![]) + decisions_text(r.decisions),
{
    assert(plan_text(r.warnings, seq![]) =~= crate::report::warnings_block(r.warnings));
}

/// A report's text view holds its own fields: each directory, and each
/// decision's name, path and reason, and each warning, in order.
pub proof fn law_report_view(report: ResolutionReport)
    ensures
        report@.config_dir == report.resolved.config_dir@,
        report@.data_dir == report.resolved.data_dir@,
        report@.cache_dir == report.resolved.cache_dir@,
        report@.bin_dir == report.resolved.bin_dir@,
        report@.decisions.len() == report.decisions@.len(),
        forall|i: int|
            0 <= i < report.decisions@.len() ==> (#[trigger] report@.decisions[i]).name
                == report.decisions@[i].name@ && report@.decisions[i].selected_path
                == report.decisions@[i].selected_path@ && report@.decisions[i].reason
                == report.decisions@[i].reason@,
        report@.warnings.len() == report.warnings@.len(),
        forall|i: int|
            0 <= i < report.warnings@.len() ==> #[trigger] report@.warnings[i]
                == report.warnings@[i]@,
{
}

} // verus!
