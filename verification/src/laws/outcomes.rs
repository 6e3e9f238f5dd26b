//! What holds of the reports that are made of what became of a binary.

use vstd::prelude::*;

use crate::document::parsed_bytes;
use crate::json::{JsonNumber, JsonTree};
use crate::laws::reading::{lemma_member_at, names_of};
use crate::outcome::{arguments, candidates, outcome_tree, outcome_verdict, ToolOutcome};
use crate::planner::StepView;
use crate::runner::{RunView, Verdict};
use crate::text::{split_at_char, utf8_lossy};

verus! {

proof fn lemma_names()
    ensures
        "error"@.len() == 5,
        "exit_code"@.len() == 9,
        "raw"@.len() == 3,
        "pillar"@.len() == 6 && "pillar"@[0] == 'p',
        "reason"@.len() == 6 && "reason"@[0] == 'r',
        "status"@.len() == 6 && "status"@[2] == 'a' && "status"@[0] == 's',
        "stderr"@.len() == 6 && "stderr"@[2] == 'd' && "stderr"@[0] == 's',
{
    reveal_strlit("error");
    reveal_strlit("exit_code");
    reveal_strlit("raw");
    reveal_strlit("pillar");
    reveal_strlit("reason");
    reveal_strlit("status");
    reveal_strlit("stderr");
}

/// Success alone decides whether a step ran. Of a binary that succeeded, whatever its exit
/// code and whatever stands on its stderr, the output is the document that stdout is, and else
/// an object of the pillar and the bare text of stdout. The verdict is that it ran, or, of a
/// clarify step whose document says so, that a clarification is needed: never that it failed.
pub proof fn success_is_reported_by_stdout_alone(step: StepView, code: Option<i32>, stdout: Vec<u8>, stderr: Vec<u8>)
    ensures
        ({
            let outcome = ToolOutcome::Exited { success: true, code, stdout, stderr };
            let output = outcome_tree(step, outcome);
            let verdict = outcome_verdict(step, outcome);
            &&& forall|document: JsonTree| parsed_bytes(stdout@) == Some(document) ==> output == document
            &&& parsed_bytes(stdout@) is None ==> {
                &&& output is Object
                &&& names_of(output) == seq!["pillar"@, "raw"@]
                &&& output.get("pillar"@) == Some(JsonTree::Str(step.pillar))
                &&& output.get("raw"@) == Some(JsonTree::Str(utf8_lossy(stdout@)))
            }
            &&& verdict == Verdict::ClarifyNeeded || verdict == Verdict::Okay
            &&& verdict == Verdict::ClarifyNeeded <==> step.pillar == "clarify"@ && output.get("status"@) == Some(
                JsonTree::Str("clarify_needed"@),
            )
        }),
{
    lemma_names();
    let output = outcome_tree(step, ToolOutcome::Exited { success: true, code, stdout, stderr });
    if parsed_bytes(stdout@) is None {
        lemma_member_at(output->Object_0, 0);
        lemma_member_at(output->Object_0, 1);
        assert(names_of(output) =~= seq!["pillar"@, "raw"@]);
    }
}

/// Two successful ends of a binary are reported alike where it printed the same on stdout.
pub proof fn exit_code_and_stderr_leave_success_alone(
    step: StepView,
    a: Option<i32>,
    b: Option<i32>,
    stdout: Vec<u8>,
    x: Vec<u8>,
    y: Vec<u8>,
)
    ensures
        ({
            let one = ToolOutcome::Exited { success: true, code: a, stdout, stderr: x };
            let other = ToolOutcome::Exited { success: true, code: b, stdout, stderr: y };
            &&& outcome_tree(step, one) == outcome_tree(step, other)
            &&& outcome_verdict(step, one) == outcome_verdict(step, other)
        }),
{
}

/// A binary that ended without success has failed, whatever its exit code and whatever it
/// printed: the output says so, with the exit code, if there is one, and the text of stderr.
pub proof fn failure_is_reported_with_stderr(step: StepView, code: Option<i32>, stdout: Vec<u8>, stderr: Vec<u8>)
    ensures
        ({
            let outcome = ToolOutcome::Exited { success: false, code, stdout, stderr };
            let output = outcome_tree(step, outcome);
            &&& outcome_verdict(step, outcome) == Verdict::Failed
            &&& output is Object
            &&& names_of(output) == seq!["exit_code"@, "pillar"@, "status"@, "stderr"@]
            &&& output.get("pillar"@) == Some(JsonTree::Str(step.pillar))
            &&& output.get("status"@) == Some(JsonTree::Str("failed"@))
            &&& output.get("stderr"@) == Some(JsonTree::Str(utf8_lossy(stderr@)))
            &&& code is None ==> output.get("exit_code"@) == Some(JsonTree::Null)
            &&& code matches Some(n) ==> output.get("exit_code"@) == Some(
                JsonTree::Number(
                    if n >= 0 {
                        JsonNumber::PosInt(n as u64)
                    } else {
                        JsonNumber::NegInt(n as i64)
                    },
                ),
            )
        }),
{
    lemma_names();
    let output = outcome_tree(step, ToolOutcome::Exited { success: false, code, stdout, stderr });
    lemma_member_at(output->Object_0, 0);
    lemma_member_at(output->Object_0, 1);
    lemma_member_at(output->Object_0, 2);
    lemma_member_at(output->Object_0, 3);
    assert(names_of(output) =~= seq!["exit_code"@, "pillar"@, "status"@, "stderr"@]);
}

/// A binary that is not there leaves its step skipped; the output says so, and names it.
pub proof fn missing_binary_is_reported_as_skipped(step: StepView)
    ensures
        ({
            let output = outcome_tree(step, ToolOutcome::Missing);
            &&& outcome_verdict(step, ToolOutcome::Missing) == Verdict::Skipped
            &&& output is Object
            &&& names_of(output) == seq!["pillar"@, "reason"@, "status"@]
            &&& output.get("pillar"@) == Some(JsonTree::Str(step.pillar))
            &&& output.get("status"@) == Some(JsonTree::Str("skipped"@))
            &&& output.get("reason"@) == Some(
                JsonTree::Str("binary '"@ + step.tool + "' not found on PATH; use --mock for offline testing"@),
            )
        }),
{
    lemma_names();
    let output = outcome_tree(step, ToolOutcome::Missing);
    lemma_member_at(output->Object_0, 0);
    lemma_member_at(output->Object_0, 1);
    lemma_member_at(output->Object_0, 2);
    assert(names_of(output) =~= seq!["pillar"@, "reason"@, "status"@]);
}

/// A binary that could not be started has failed; the output says so, and why.
pub proof fn unstartable_binary_is_reported_as_failed(step: StepView, error: String)
    ensures
        ({
            let outcome = ToolOutcome::NotStarted { error };
            let output = outcome_tree(step, outcome);
            &&& outcome_verdict(step, outcome) == Verdict::Failed
            &&& output is Object
            &&& names_of(output) == seq!["error"@, "pillar"@, "status"@]
            &&& output.get("error"@) == Some(JsonTree::Str(error@))
            &&& output.get("pillar"@) == Some(JsonTree::Str(step.pillar))
            &&& output.get("status"@) == Some(JsonTree::Str("failed"@))
        }),
{
    lemma_names();
    let output = outcome_tree(step, ToolOutcome::NotStarted { error });
    lemma_member_at(output->Object_0, 0);
    lemma_member_at(output->Object_0, 1);
    lemma_member_at(output->Object_0, 2);
    assert(names_of(output) =~= seq!["error"@, "pillar"@, "status"@]);
}

/// A step has failed exactly where its binary could not be started or did not succeed, and was
/// skipped exactly where there is none.
pub proof fn verdict_follows_the_outcome(step: StepView, outcome: ToolOutcome)
    ensures
        outcome_verdict(step, outcome) == Verdict::Failed <==> outcome is NotStarted || (outcome is Exited
            && !outcome->success),
        outcome_verdict(step, outcome) == Verdict::Skipped <==> outcome is Missing,
        outcome_verdict(step, outcome) != Verdict::Blocked,
{
}

/// A binary is called with `ask`, the question of the run, and, as options, the model of the
/// run and that JSON is wanted.
pub proof fn binary_is_called_with_question_and_model(run: RunView)
    ensures
        arguments(run).len() == 5,
        arguments(run)[0] == "ask"@,
        arguments(run)[1] == run.question,
        arguments(run)[2] == "--model"@,
        arguments(run)[3] == run.model,
        arguments(run)[4] == "--json"@,
{
}

/// A binary is looked for in each directory of the path, in order, under its own name.
pub proof fn binary_is_looked_for_in_each_directory(path: Seq<char>, name: Seq<char>)
    ensures
        candidates(path, name).len() == split_at_char(path, ':').len(),
        forall|i: int|
            0 <= i < candidates(path, name).len() ==> #[trigger] candidates(path, name)[i] == split_at_char(path, ':')[i]
                + "/"@ + name,
{
}

} // verus!
