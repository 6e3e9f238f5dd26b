//! What became of a pillar binary, and what the runner makes of it.

use vstd::prelude::*;

use crate::document::{parse_bytes, parsed_bytes};
use crate::json::{members_tree, no_members, put, put_text, Json, JsonNumber, JsonTree};
use crate::planner::{PlanStep, StepView};
use crate::runner::{judge, resume, verdict_on, Execution, Run, RunView, StepReport, Verdict};
use crate::text::{from_utf8_lossy, split, split_at_char, strings_view, utf8_lossy};

verus! {

/// What became of a pillar binary.
#[derive(Debug)]
pub enum ToolOutcome {
    /// There is no such binary on the path.
    Missing,
    /// It could not be started.
    NotStarted { error: String },
    /// It ended. Without an exit code it was ended by a signal.
    Exited { success: bool, code: Option<i32>, stdout: Vec<u8>, stderr: Vec<u8> },
}

/// A number that may be missing.
pub open spec fn code_tree(code: Option<i32>) -> JsonTree {
    match code {
        Some(code) => if code >= 0 {
            JsonTree::Number(JsonNumber::PosInt(code as u64))
        } else {
            JsonTree::Number(JsonNumber::NegInt(code as i64))
        },
        None => JsonTree::Null,
    }
}

/// The document that stands for a step whose binary is missing.
pub open spec fn missing_tree(step: StepView) -> JsonTree {
    JsonTree::Object(
        seq![
            ("pillar"@, JsonTree::Str(step.pillar)),
            (
                "reason"@,
                JsonTree::Str(
                    "binary '"@ + step.tool + "' not found on PATH; use --mock for offline testing"@,
                ),
            ),
            ("status"@, JsonTree::Str("skipped"@)),
        ],
    )
}

/// The document that stands for a step whose binary could not be started.
pub open spec fn not_started_tree(step: StepView, error: Seq<char>) -> JsonTree {
    JsonTree::Object(
        seq![
            ("error"@, JsonTree::Str(error)),
            ("pillar"@, JsonTree::Str(step.pillar)),
            ("status"@, JsonTree::Str("failed"@)),
        ],
    )
}

/// The document that stands for a step whose binary reported a failure.
pub open spec fn failed_tree(step: StepView, code: Option<i32>, stderr: Seq<char>) -> JsonTree {
    JsonTree::Object(
        seq![
            ("exit_code"@, code_tree(code)),
            ("pillar"@, JsonTree::Str(step.pillar)),
            ("status"@, JsonTree::Str("failed"@)),
            ("stderr"@, JsonTree::Str(stderr)),
        ],
    )
}

/// What a successful binary printed: the document, or else the bare text.
pub open spec fn printed_tree(step: StepView, parsed: Option<JsonTree>, raw: Seq<char>) -> JsonTree {
    match parsed {
        Some(tree) => tree,
        None => JsonTree::Object(seq![("pillar"@, JsonTree::Str(step.pillar)), ("raw"@, JsonTree::Str(raw))]),
    }
}

/// The document that stands for a step's outcome.
pub open spec fn outcome_tree(step: StepView, outcome: ToolOutcome) -> JsonTree {
    match outcome {
        ToolOutcome::Missing => missing_tree(step),
        ToolOutcome::NotStarted { error } => not_started_tree(step, error@),
        ToolOutcome::Exited { success, code, stdout, stderr } => if success {
            printed_tree(step, parsed_bytes(stdout@), utf8_lossy(stdout@))
        } else {
            failed_tree(step, code, utf8_lossy(stderr@))
        },
    }
}

/// The verdict on a step's outcome.
pub open spec fn outcome_verdict(step: StepView, outcome: ToolOutcome) -> Verdict {
    match outcome {
        ToolOutcome::Missing => Verdict::Skipped,
        ToolOutcome::NotStarted { error } => Verdict::Failed,
        ToolOutcome::Exited { success, code, stdout, stderr } => if success {
            verdict_on(step.pillar, outcome_tree(step, outcome))
        } else {
            Verdict::Failed
        },
    }
}

/// The report on a step whose binary is missing.
pub fn report_missing(step: &PlanStep) -> (report: StepReport)
    ensures
        report.verdict == Verdict::Skipped,
        report.output.tree() == missing_tree(step@),
{
    let mut reason = "binary '".to_string();
    reason.append(step.tool.as_str());
    reason.append("' not found on PATH; use --mock for offline testing");
    let mut members = no_members();
    put_text(&mut members, "pillar", step.pillar.as_str());
    put_text(&mut members, "reason", reason.as_str());
    put_text(&mut members, "status", "skipped");
    assert(members_tree(members@) =~= missing_tree(step@)->Object_0);
    StepReport { verdict: Verdict::Skipped, output: Json::object(members) }
}

/// The report on a step whose binary could not be started.
pub fn report_not_started(step: &PlanStep, error: &str) -> (report: StepReport)
    ensures
        report.verdict == Verdict::Failed,
        report.output.tree() == not_started_tree(step@, error@),
{
    let mut members = no_members();
    put_text(&mut members, "error", error);
    put_text(&mut members, "pillar", step.pillar.as_str());
    put_text(&mut members, "status", "failed");
    assert(members_tree(members@) =~= not_started_tree(step@, error@)->Object_0);
    StepReport { verdict: Verdict::Failed, output: Json::object(members) }
}

/// The report on a step whose binary reported a failure.
pub fn report_failure(step: &PlanStep, code: Option<i32>, stderr: &str) -> (report: StepReport)
    ensures
        report.verdict == Verdict::Failed,
        report.output.tree() == failed_tree(step@, code, stderr@),
{
    let code_json = match code {
        Some(code) => if code >= 0 {
            Json::Number(JsonNumber::PosInt(code as u64))
        } else {
            Json::Number(JsonNumber::NegInt(code as i64))
        },
        None => Json::Null,
    };
    let mut members = no_members();
    put(&mut members, "exit_code", code_json);
    put_text(&mut members, "pillar", step.pillar.as_str());
    put_text(&mut members, "status", "failed");
    put_text(&mut members, "stderr", stderr);
    assert(members_tree(members@) =~= failed_tree(step@, code, stderr@)->Object_0);
    StepReport { verdict: Verdict::Failed, output: Json::object(members) }
}

/// The report on a step whose binary succeeded, given the document that it printed, if it
/// was one.
pub fn report_document(step: &PlanStep, document: Json) -> (report: StepReport)
    ensures
        report.verdict == verdict_on(step.pillar@, document.tree()),
        report.output.tree() == document.tree(),
{
    StepReport { verdict: judge(step.pillar.as_str(), &document), output: document }
}

/// The report on a step whose binary succeeded, given the text that it printed, if that was
/// no document.
pub fn report_raw(step: &PlanStep, raw: &str) -> (report: StepReport)
    ensures
        report.verdict == verdict_on(step.pillar@, printed_tree(step@, None, raw@)),
        report.output.tree() == printed_tree(step@, None, raw@),
{
    let mut members = no_members();
    put_text(&mut members, "pillar", step.pillar.as_str());
    put_text(&mut members, "raw", raw);
    assert(members_tree(members@) =~= printed_tree(step@, None, raw@)->Object_0);
    report_document(step, Json::object(members))
}

/// The report on a step, from what became of its binary.
pub fn read_outcome(step: &PlanStep, outcome: &ToolOutcome) -> (report: StepReport)
    ensures
        report.verdict == outcome_verdict(step@, *outcome),
        report.output.tree() == outcome_tree(step@, *outcome),
{
    match outcome {
        ToolOutcome::Missing => report_missing(step),
        ToolOutcome::NotStarted { error } => report_not_started(step, error.as_str()),
        ToolOutcome::Exited { success, code, stdout, stderr } => if *success {
            match parse_bytes(stdout.as_slice()) {
                Some(document) => report_document(step, document),
                None => {
                    let raw = from_utf8_lossy(stdout.as_slice());
                    report_raw(step, raw.as_str())
                },
            }
        } else {
            let text = from_utf8_lossy(stderr.as_slice());
            report_failure(step, *code, text.as_str())
        },
    }
}

/// Go on with a run that waited, given what became of the binary, and how long it took.
pub fn resume_with(run: Run, outcome: &ToolOutcome, ms: u64) -> (execution: Execution)
    ensures
        execution@ == run@.reported(
            outcome_verdict(run@.current(), *outcome),
            outcome_tree(run@.current(), *outcome),
            ms,
        ).settled().progress(),
{
    let report = read_outcome(run.step(), outcome);
    resume(run, report, ms)
}

/// Where a binary called `name` may lie, for the search path `path`.
pub open spec fn candidates(path: Seq<char>, name: Seq<char>) -> Seq<Seq<char>> {
    split_at_char(path, ':').map_values(|dir: Seq<char>| dir + "/"@ + name)
}

/// Where a binary called `name` may lie, for the search path `path`: the directories between
/// the colons, in order.
pub fn binary_candidates(path: &str, name: &str) -> (places: Vec<String>)
    ensures
        strings_view(places@) == candidates(path@, name@),
{
    let dirs = split(path, ':');
    let ghost parts = split_at_char(path@, ':');
    let mut places: Vec<String> = Vec::new();
    let mut i: usize = 0;
    while i < dirs.len()
        invariant
            i <= dirs@.len(),
            strings_view(dirs@) == parts,
            places@.len() == i,
            forall|j: int| 0 <= j < i ==> (#[trigger] places@[j])@ == parts[j] + "/"@ + name@,
        decreases dirs@.len() - i,
    {
        let mut place = dirs[i].clone();
        place.append("/");
        place.append(name);
        assert(strings_view(dirs@)[i as int] == dirs@[i as int]@);
        places.push(place);
        i += 1;
    }
    assert(strings_view(places@) =~= candidates(path@, name@));
    places
}

/// What the binary for which a run waits is called with.
pub open spec fn arguments(run: RunView) -> Seq<Seq<char>> {
    seq!["ask"@, run.question, "--model"@, run.model, "--json"@]
}

/// What the binary for which a run waits is called with, in order.
pub fn binary_arguments(run: &Run) -> (args: Vec<String>)
    ensures
        strings_view(args@) == arguments(run@),
{
    let mut args: Vec<String> = Vec::new();
    args.push("ask".to_string());
    args.push(run.question().to_string());
    args.push("--model".to_string());
    args.push(run.model().to_string());
    args.push("--json".to_string());
    assert(strings_view(args@) =~= arguments(run@));
    args
}

} // verus!
