//! Transfer decisions and reporting.
//!
//! A run transfers each pair under one mode — move, copy, or simulate —
//! chosen once. This module decides, per pair, which filesystem action the
//! caller is to perform (none at all under simulation), and builds the
//! report line and its visibility for each pair's outcome. Pairs are
//! independent: a failed transfer is reported and the batch goes on, so
//! every pair gets exactly one report.

use vstd::prelude::*;

verus! {

/// The mode of a run: chosen once, before any transfer.
#[derive(Clone, Copy, PartialEq, Eq, Structural, Debug)]
pub enum TransferMode {
    /// Relocate each source file to its destination.
    MoveFile,
    /// Duplicate each source file's content at its destination.
    CopyFile,
    /// Dry run: report what would happen, touch nothing.
    Simulate,
}

/// The filesystem action the caller is to perform for one pair.
#[derive(Clone, Copy, PartialEq, Eq, Structural, Debug)]
pub enum TransferAction {
    /// Rename the source path to the destination path.
    Rename,
    /// Copy the source's content to the destination path.
    CopyContents,
    /// Perform no filesystem operation.
    NoOp,
}

/// How one pair's transfer ended.
#[derive(Clone, Copy, PartialEq, Eq, Structural, Debug)]
pub enum PairOutcome {
    /// The pair's action was performed (or simulated) without error.
    Succeeded,
    /// The pair's action failed; the batch goes on regardless.
    Failed,
}

/// The visibility of one pair's report line.
#[derive(Clone, Copy, PartialEq, Eq, Structural, Debug)]
pub enum ReportLevel {
    /// Always shown: a failed transfer.
    Error,
    /// Shown in a verbose run: a successful transfer.
    Normal,
    /// Shown only as diagnostics: a successful transfer, verbosity off.
    Diagnostic,
}

/// One pair's report: the line to emit, its visibility, and the outcome.
#[derive(Debug)]
pub struct PairReport {
    /// The human-readable line describing the action and its outcome.
    pub line: String,
    /// The visibility at which the line is to be emitted.
    pub level: ReportLevel,
    /// Whether the pair's transfer succeeded.
    pub outcome: PairOutcome,
}

/// The mode chosen by the run's flags: a dry run simulates whatever it
/// would otherwise do; otherwise the copy flag picks copying over moving.
pub open spec fn mode_spec(copy: bool, dry_run: bool) -> TransferMode {
    if dry_run {
        TransferMode::Simulate
    } else if copy {
        TransferMode::CopyFile
    } else {
        TransferMode::MoveFile
    }
}

/// The filesystem action each mode asks for; simulation asks for none.
pub open spec fn action_spec(mode: TransferMode) -> TransferAction {
    match mode {
        TransferMode::MoveFile => TransferAction::Rename,
        TransferMode::CopyFile => TransferAction::CopyContents,
        TransferMode::Simulate => TransferAction::NoOp,
    }
}

/// The word naming the operation in report lines.
pub open spec fn op_label(copy: bool) -> Seq<char> {
    if copy {
        "copy"@
    } else {
        "move"@
    }
}

/// The marker put before a simulated pair's report line.
pub open spec fn sim_marker(dry_run: bool) -> Seq<char> {
    if dry_run {
        "[dry-run] "@
    } else {
        Seq::empty()
    }
}

/// A path as it appears in a report line, in double quotes.
pub open spec fn quoted(s: Seq<char>) -> Seq<char> {
    "\""@ + s + "\""@
}

/// The report line of a successful (or simulated) pair:
/// `{marker}{op} "{source}" -> "{dest}"`.
pub open spec fn success_line_spec(
    copy: bool,
    dry_run: bool,
    source: Seq<char>,
    dest: Seq<char>,
) -> Seq<char> {
    sim_marker(dry_run) + op_label(copy) + " "@ + quoted(source) + " -> "@ + quoted(dest)
}

/// The report line of a failed pair:
/// `Failed to {op} "{source}" -> "{dest}": {err}`.
pub open spec fn failure_line_spec(
    copy: bool,
    source: Seq<char>,
    dest: Seq<char>,
    err: Seq<char>,
) -> Seq<char> {
    "Failed to "@ + op_label(copy) + " "@ + quoted(source) + " -> "@ + quoted(dest) + ": "@ + err
}

/// The view of a per-pair operation result: the error message's characters
/// on failure.
pub open spec fn result_view(r: Result<(), String>) -> Result<(), Seq<char>> {
    match r {
        Ok(u) => Ok(u),
        Err(e) => Err(e@),
    }
}

/// The outcome a per-pair operation result maps to.
pub open spec fn outcome_spec(r: Result<(), Seq<char>>) -> PairOutcome {
    if r is Ok {
        PairOutcome::Succeeded
    } else {
        PairOutcome::Failed
    }
}

/// The visibility of a pair's report: failures are always errors; success
/// is shown normally only in a verbose run, as a diagnostic otherwise.
pub open spec fn level_spec(outcome: PairOutcome, verbose: bool) -> ReportLevel {
    if outcome is Failed {
        ReportLevel::Error
    } else if verbose {
        ReportLevel::Normal
    } else {
        ReportLevel::Diagnostic
    }
}

/// The line of a pair's report, by its operation result.
pub open spec fn line_spec(
    copy: bool,
    dry_run: bool,
    source: Seq<char>,
    dest: Seq<char>,
    r: Result<(), Seq<char>>,
) -> Seq<char> {
    match r {
        Ok(_) => success_line_spec(copy, dry_run, source, dest),
        Err(e) => failure_line_spec(copy, source, dest, e),
    }
}

/// The mode chosen by the run's flags.
pub fn transfer_mode(copy: bool, dry_run: bool) -> (m: TransferMode)
    ensures
        m == mode_spec(copy, dry_run),
{
    if dry_run {
        TransferMode::Simulate
    } else if copy {
        TransferMode::CopyFile
    } else {
        TransferMode::MoveFile
    }
}

/// The filesystem action `mode` asks for, per pair.
pub fn action_for(mode: TransferMode) -> (a: TransferAction)
    ensures
        a == action_spec(mode),
{
    match mode {
        TransferMode::MoveFile => TransferAction::Rename,
        TransferMode::CopyFile => TransferAction::CopyContents,
        TransferMode::Simulate => TransferAction::NoOp,
    }
}

/// Build the report line of a successful (or simulated) pair.
pub fn success_line(copy: bool, dry_run: bool, source: &str, dest: &str) -> (r: String)
    ensures
        r@ == success_line_spec(copy, dry_run, source@, dest@),
{
    let mut s = if dry_run {
        String::from_str("[dry-run] ")
    } else {
        String::new()
    };
    s.append(if copy { "copy" } else { "move" });
    s.append(" ");
    s.append("\"");
    s.append(source);
    s.append("\"");
    s.append(" -> ");
    s.append("\"");
    s.append(dest);
    s.append("\"");
    proof {
        assert(s@ =~= success_line_spec(copy, dry_run, source@, dest@));
    }
    s
}

/// Build the report line of a failed pair.
pub fn failure_line(copy: bool, source: &str, dest: &str, err: &str) -> (r: String)
    ensures
        r@ == failure_line_spec(copy, source@, dest@, err@),
{
    let mut s = String::from_str("Failed to ");
    s.append(if copy { "copy" } else { "move" });
    s.append(" ");
    s.append("\"");
    s.append(source);
    s.append("\"");
    s.append(" -> ");
    s.append("\"");
    s.append(dest);
    s.append("\"");
    s.append(": ");
    s.append(err);
    proof {
        assert(s@ =~= failure_line_spec(copy, source@, dest@, err@));
    }
    s
}

/// The report of one pair, from its operation result: the outcome, the
/// line describing what happened, and the line's visibility.
pub fn pair_report(
    copy: bool,
    dry_run: bool,
    verbose: bool,
    source: &str,
    dest: &str,
    op_result: &Result<(), String>,
) -> (r: PairReport)
    ensures
        r.outcome == outcome_spec(result_view(*op_result)),
        r.level == level_spec(r.outcome, verbose),
        r.line@ == line_spec(copy, dry_run, source@, dest@, result_view(*op_result)),
{
    match op_result {
        Ok(_) => {
            let line = success_line(copy, dry_run, source, dest);
            let level = if verbose {
                ReportLevel::Normal
            } else {
                ReportLevel::Diagnostic
            };
            PairReport { line, level, outcome: PairOutcome::Succeeded }
        },
        Err(e) => {
            let line = failure_line(copy, source, dest, e.as_str());
            PairReport { line, level: ReportLevel::Error, outcome: PairOutcome::Failed }
        },
    }
}

/// Report a whole batch: every pair gets exactly one report, built from
/// its own operation result alone, whatever happened to the other pairs.
pub fn execute_reports(
    pairs: &Vec<(String, String)>,
    copy: bool,
    dry_run: bool,
    verbose: bool,
    op_results: &Vec<Result<(), String>>,
) -> (reports: Vec<PairReport>)
    requires
        pairs@.len() == op_results@.len(),
    ensures
        reports@.len() == pairs@.len(),
        forall|i: int|
            0 <= i < reports@.len() ==> {
                let res = result_view(op_results@[i]);
                &&& (#[trigger] reports@[i]).outcome == outcome_spec(res)
                &&& reports@[i].level == level_spec(outcome_spec(res), verbose)
                &&& reports@[i].line@ == line_spec(copy, dry_run, pairs@[i].0@, pairs@[i].1@, res)
            },
{
    let mut reports: Vec<PairReport> = Vec::new();
    let n = pairs.len();
    for i in 0..n
        invariant
            n == pairs@.len(),
            n == op_results@.len(),
            reports@.len() == i,
            forall|j: int|
                0 <= j < i ==> {
                    let res = result_view(op_results@[j]);
                    &&& (#[trigger] reports@[j]).outcome == outcome_spec(res)
                    &&& reports@[j].level == level_spec(outcome_spec(res), verbose)
                    &&& reports@[j].line@ == line_spec(
                        copy,
                        dry_run,
                        pairs@[j].0@,
                        pairs@[j].1@,
                        res,
                    )
                },
    {
        let r = pair_report(
            copy,
            dry_run,
            verbose,
            pairs[i].0.as_str(),
            pairs[i].1.as_str(),
            &op_results[i],
        );
        reports.push(r);
    }
    reports
}

/// In a dry run — whatever the other flags say — the chosen mode asks for
/// no filesystem action at all, so no pair can change any file.
pub proof fn lemma_simulate_never_mutates(copy: bool, dry_run: bool)
    requires
        dry_run,
    ensures
        mode_spec(copy, dry_run) == TransferMode::Simulate,
        action_spec(mode_spec(copy, dry_run)) == TransferAction::NoOp,
{
}

/// A pair's report depends on its own pair and operation result alone:
/// change the result of some other pair `j`, and pair `i`'s outcome,
/// level, and line stand unchanged.
pub proof fn lemma_failure_isolation(
    copy: bool,
    dry_run: bool,
    verbose: bool,
    pairs: Seq<(Seq<char>, Seq<char>)>,
    results1: Seq<Result<(), Seq<char>>>,
    results2: Seq<Result<(), Seq<char>>>,
    i: int,
    j: int,
)
    requires
        results1.len() == pairs.len(),
        results2.len() == pairs.len(),
        0 <= i < pairs.len(),
        0 <= j < pairs.len(),
        i != j,
        forall|k: int| 0 <= k < pairs.len() && k != j ==> results1[k] == results2[k],
    ensures
        outcome_spec(results1[i]) == outcome_spec(results2[i]),
        level_spec(outcome_spec(results1[i]), verbose) == level_spec(
            outcome_spec(results2[i]),
            verbose,
        ),
        line_spec(copy, dry_run, pairs[i].0, pairs[i].1, results1[i]) == line_spec(
            copy,
            dry_run,
            pairs[i].0,
            pairs[i].1,
            results2[i],
        ),
{
    assert(results1[i] == results2[i]);
}

} // verus!
