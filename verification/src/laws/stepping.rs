//! What each move of a run does: how it starts, what a report changes, when a step is passed
//! over, mocked or waited for, and what the answer says in the end.

use vstd::prelude::*;

use crate::confidence::{at_least, shown};
use crate::json::JsonTree;
use crate::laws::reading::lemma_member_at;
use crate::mock::mock_tree;
use crate::planner::PlanView;
use crate::runner::{
    credential, started, verdict_on, ExecutionView, OptionsView, ResultView, RunView, StageView, Verdict,
};

verus! {

/// A run starts with the question, the model, the steps and the options that it is given,
/// with no results, and with a confidence of 1.0.
pub proof fn run_starts_as_given(plan: PlanView, opts: OptionsView)
    ensures
        started(plan, opts) == (RunView {
            question: plan.question,
            model: plan.model,
            steps: plan.steps,
            opts,
            results: Seq::empty(),
            confidence: 0x3FF0_0000_0000_0000,
            stage: StageView::Running,
        }),
{
}

/// A run that was halted or stopped, or has dealt with all its steps, hands out its answer.
pub proof fn ended_run_is_answered(run: RunView)
    requires
        run.stage !is Running || run.results.len() >= run.steps.len(),
    ensures
        run.finished(),
        !run.waiting(),
        run.settled() == run,
        run.settled().progress() == ExecutionView::Answered(run.answer()),
{
}

/// A live run waits for the binary of its next step, whatever the step, unless it is a
/// clarify step that is not needed.
pub proof fn live_step_is_waited_for(run: RunView)
    requires
        run.stage is Running,
        run.results.len() < run.steps.len(),
        !run.opts.mock,
        run.steps[run.results.len() as int].pillar == "clarify"@ ==> !at_least(run.confidence, 0x3FDC_CCCC_CCCC_CCCD)
            && run.opts.clarify_answer is None,
    ensures
        !run.finished(),
        run.waiting(),
        run.current() == run.steps[run.results.len() as int],
        run.settled() == run,
        run.settled().progress() == ExecutionView::Invoke(run),
{
}

/// A clarify step is passed over where the confidence is 0.45 or more, or the clarification
/// was given: its result says that it was skipped, and why, and the run goes on with nothing
/// else changed.
pub proof fn needless_clarify_is_skipped(run: RunView)
    requires
        run.stage is Running,
        run.results.len() < run.steps.len(),
        run.steps[run.results.len() as int].pillar == "clarify"@,
        at_least(run.confidence, 0x3FDC_CCCC_CCCC_CCCD) || run.opts.clarify_answer is Some,
    ensures
        !run.waiting(),
        ({
            let reason = if at_least(run.confidence, 0x3FDC_CCCC_CCCC_CCCD) {
                "confidence "@ + shown(run.confidence) + " >= threshold 0.45"@
            } else {
                "disambiguation answer already provided via --answer"@
            };
            let output = JsonTree::Object(
                seq![
                    ("pillar"@, JsonTree::Str("clarify"@)),
                    ("reason"@, JsonTree::Str(reason)),
                    ("status"@, JsonTree::Str("skipped"@)),
                ],
            );
            let next = RunView {
                results: run.results.push(
                    ResultView {
                        pillar: "clarify"@,
                        tool: run.steps[run.results.len() as int].tool,
                        verdict: Verdict::Skipped,
                        output,
                        ms: 0,
                    },
                ),
                ..run
            };
            &&& run.settled() == next.settled()
            &&& output.get_str("pillar"@) == Some("clarify"@)
            &&& output.get_str("reason"@) == Some(reason)
            &&& output.get_str("status"@) == Some("skipped"@)
        }),
{
    reveal_strlit("pillar");
    reveal_strlit("reason");
    reveal_strlit("status");
    assert("pillar"@[0] == 'p' && "reason"@[0] == 'r' && "status"@[0] == 's');
    let output = run.passes_over()->Some_0;
    lemma_member_at(output->Object_0, 0);
    lemma_member_at(output->Object_0, 1);
    lemma_member_at(output->Object_0, 2);
    assert(run.settled() == run.stepped().settled());
}

/// In a mocked run the canned response of a step's pillar is its report, whatever the step,
/// unless it is a clarify step that is not needed. A score that was set is for the binding
/// step alone.
pub proof fn mocked_step_is_reported(run: RunView)
    requires
        run.stage is Running,
        run.results.len() < run.steps.len(),
        run.opts.mock,
        run.steps[run.results.len() as int].pillar == "clarify"@ ==> !at_least(run.confidence, 0x3FDC_CCCC_CCCC_CCCD)
            && run.opts.clarify_answer is None,
    ensures
        !run.waiting(),
        ({
            let pillar = run.steps[run.results.len() as int].pillar;
            let score = if pillar == "binding-confidence"@ {
                run.opts.mock_confidence
            } else {
                None
            };
            let output = mock_tree(pillar, run.question, score);
            run.settled() == run.reported(verdict_on(pillar, output), output, 0).settled()
        }),
{
    assert(run.settled() == run.stepped().settled());
}

/// A step that ran is in order, but for a clarify step that says that a clarification is
/// needed.
pub proof fn step_that_ran_is_okay(pillar: Seq<char>, output: JsonTree)
    ensures
        verdict_on(pillar, output) == Verdict::ClarifyNeeded <==> pillar == "clarify"@ && output.get("status"@) == Some(
            JsonTree::Str("clarify_needed"@),
        ),
        verdict_on(pillar, output) == Verdict::Okay || verdict_on(pillar, output) == Verdict::ClarifyNeeded,
{
}

/// What a report leaves behind, and what it changes. The result holds the verdict, the output
/// and the time that were reported, under the names of the step. A clarify step halts the run
/// with the question that it reports. Any other step stops it where it failed, and leaves it
/// under way where it did not. The confidence becomes the number that a binding step reports,
/// whatever that number is, and is changed by nothing else. All the rest stays.
pub proof fn report_is_recorded(run: RunView, verdict: Verdict, output: JsonTree, ms: u64)
    requires
        run.stage is Running,
        run.results.len() < run.steps.len(),
    ensures
        ({
            let step = run.steps[run.results.len() as int];
            let next = run.reported(verdict, output, ms);
            &&& next.question == run.question
            &&& next.model == run.model
            &&& next.steps == run.steps
            &&& next.opts == run.opts
            &&& next.results == run.results.push(
                ResultView { pillar: step.pillar, tool: step.tool, verdict, output, ms },
            )
            &&& step.pillar == "clarify"@ ==> next.stage == StageView::Asked(output.get_str("clarify_question"@))
            &&& step.pillar != "clarify"@ && verdict == Verdict::Failed ==> next.stage == StageView::Failed
            &&& step.pillar != "clarify"@ && verdict != Verdict::Failed ==> next.stage == StageView::Running
            &&& forall|bits: u64|
                step.pillar == "binding-confidence"@ && output.get_double("confidence"@) == Some(bits)
                    ==> next.confidence == bits
            &&& step.pillar == "binding-confidence"@ && output.get_double("confidence"@) is None ==> next.confidence
                == run.confidence
            &&& step.pillar != "binding-confidence"@ ==> next.confidence == run.confidence
        }),
{
    reveal_strlit("clarify");
    reveal_strlit("binding-confidence");
    assert("clarify"@.len() == 7 && "binding-confidence"@.len() == 18);
}

/// The answer of a run says for what it was, what was planned and what each step came to. It
/// needs a clarification exactly where the run was halted for one, with the question that was
/// asked; otherwise it repeats the clarification that was given.
pub proof fn answer_repeats_run(run: RunView)
    ensures
        run.answer().question == run.question,
        run.answer().model == run.model,
        run.answer().plan == run.steps,
        run.answer().step_results == run.results,
        run.answer().clarify_needed <==> run.stage is Asked,
        forall|question: Option<Seq<char>>|
            run.stage == StageView::Asked(question) ==> run.answer().clarify_question == question,
        run.stage !is Asked ==> run.answer().clarify_question is None,
        run.stage is Asked ==> run.answer().clarify_answer is None,
        run.stage !is Asked ==> run.answer().clarify_answer == run.opts.clarify_answer,
        run.stage is Asked ==> run.answer().final_answer is None,
        run.stage !is Asked ==> run.answer().final_answer is Some,
{
}

proof fn lemma_first_credential(results: Seq<ResultView>, at: int)
    requires
        0 <= at < results.len(),
        results[at].pillar == "rosetta-credential"@,
        forall|i: int| 0 <= i < at ==> (#[trigger] results[i]).pillar != "rosetta-credential"@,
    ensures
        credential(results) == Some(results[at].output),
    decreases at,
{
    if at > 0 {
        assert(results[0].pillar != "rosetta-credential"@);
        let rest = results.drop_first();
        assert forall|i: int| 0 <= i < at - 1 implies (#[trigger] rest[i]).pillar != "rosetta-credential"@ by {
            assert(rest[i] == results[i + 1]);
        }
        lemma_first_credential(rest, at - 1);
    }
}

proof fn lemma_no_credential(results: Seq<ResultView>)
    requires
        forall|i: int| 0 <= i < results.len() ==> (#[trigger] results[i]).pillar != "rosetta-credential"@,
    ensures
        credential(results) is None,
    decreases results.len(),
{
    if results.len() > 0 {
        assert(results[0].pillar != "rosetta-credential"@);
        let rest = results.drop_first();
        assert forall|i: int| 0 <= i < rest.len() implies (#[trigger] rest[i]).pillar != "rosetta-credential"@ by {
            assert(rest[i] == results[i + 1]);
        }
        lemma_no_credential(rest);
    }
}

/// The final answer is the text that the credential step signed. Of every answer that needs
/// no clarification, mocked or live, with a clarification given or without: where `at` is the
/// place of the first credential result, and its output has a string called `answer`, the
/// final answer is that string, whatever it is. The default text stands only where there is
/// no such string, or no credential result at all.
pub proof fn final_answer_is_the_signed_one(run: RunView, at: int)
    requires
        !run.answer().clarify_needed,
    ensures
        ({
            let answer = run.answer();
            let results = answer.step_results;
            &&& (0 <= at < results.len() && results[at].pillar == "rosetta-credential"@ && forall|i: int|
                0 <= i < at ==> (#[trigger] results[i]).pillar != "rosetta-credential"@) ==> {
                &&& forall|text: Seq<char>|
                    results[at].output.get("answer"@) == Some(JsonTree::Str(text)) ==> answer.final_answer == Some(text)
                &&& results[at].output.get_str("answer"@) is None ==> answer.final_answer == Some(
                    "Query plan executed successfully."@,
                )
            }
            &&& (forall|i: int| 0 <= i < results.len() ==> (#[trigger] results[i]).pillar != "rosetta-credential"@)
                ==> answer.final_answer == Some("Query plan executed successfully."@)
        }),
{
    let results = run.results;
    if 0 <= at < results.len() && results[at].pillar == "rosetta-credential"@ && forall|i: int|
        0 <= i < at ==> (#[trigger] results[i]).pillar != "rosetta-credential"@ {
        lemma_first_credential(results, at);
    }
    if forall|i: int| 0 <= i < results.len() ==> (#[trigger] results[i]).pillar != "rosetta-credential"@ {
        lemma_no_credential(results);
    }
}

} // verus!
