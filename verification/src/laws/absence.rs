//! What holds of a run whose pillar binaries are not installed.

use vstd::prelude::*;

use crate::confidence::{at_least, lemma_magnitude_ordered, FULL_CONFIDENCE, LOW_CONF_THRESHOLD};
use crate::json::member;
use crate::laws::running::{follows_plan, settled_run_ends_or_waits};
use crate::outcome::{missing_tree, outcome_tree, outcome_verdict, ToolOutcome};
use crate::planner::{PlanView, StepView};
use crate::runner::{credential, skipped_tree, started, OptionsView, ResultView, RunView, Verdict, DEFAULT_ANSWER};

verus! {

/// A run that is told, `rounds` times at most, that the binary for which it waits is missing.
pub open spec fn without_binaries(run: RunView, ms: u64, rounds: nat) -> RunView
    decreases rounds,
{
    if rounds == 0 || !run.waiting() {
        run
    } else {
        let verdict = outcome_verdict(run.current(), ToolOutcome::Missing);
        let output = outcome_tree(run.current(), ToolOutcome::Missing);
        without_binaries(run.reported(verdict, output, ms).settled(), ms, (rounds - 1) as nat)
    }
}

/// So far, every step was skipped, and the confidence is the one that the run started with.
spec fn skipped_so_far(run: RunView) -> bool {
    &&& follows_plan(run.results, run.steps)
    &&& !run.opts.mock
    &&& run.stage is Running
    &&& run.confidence == FULL_CONFIDENCE
    &&& forall|i: int|
        0 <= i < run.results.len() ==> (#[trigger] run.results[i]).verdict == Verdict::Skipped
            && run.results[i].output.get_str("answer"@) is None
}

proof fn lemma_no_answer_no_score(step: StepView, reason: Seq<char>)
    ensures
        missing_tree(step).get_str("answer"@) is None,
        missing_tree(step).get_double("confidence"@) is None,
        skipped_tree(reason).get_str("answer"@) is None,
{
    reveal_strlit("pillar");
    reveal_strlit("reason");
    reveal_strlit("status");
    reveal_strlit("answer");
    reveal_strlit("confidence");
    assert("pillar"@.len() == 6 && "reason"@.len() == 6 && "status"@.len() == 6 && "answer"@.len() == 6);
    assert("confidence"@.len() == 10);
    assert("pillar"@[0] != "answer"@[0] && "reason"@[0] != "answer"@[0] && "status"@[0] != "answer"@[0]);
    reveal_with_fuel(member, 4);
    let missing = missing_tree(step)->Object_0;
    assert(missing.drop_first()[0] == missing[1]);
    assert(missing.drop_first().drop_first()[0] == missing[2]);
    let skipped = skipped_tree(reason)->Object_0;
    assert(skipped.drop_first()[0] == skipped[1]);
    assert(skipped.drop_first().drop_first()[0] == skipped[2]);
}

proof fn lemma_settling_skips(run: RunView)
    requires
        skipped_so_far(run),
    ensures
        skipped_so_far(run.settled()),
        run.settled().results.len() >= run.results.len(),
        run.settled().steps == run.steps,
    decreases run.steps.len() - run.results.len(),
{
    if !run.finished() && !run.waiting() {
        let next = run.stepped();
        let reason = (run.passes_over()->Some_0)->Object_0[1].1->Str_0;
        lemma_no_answer_no_score(run.current(), reason);
        assert(run.passes_over()->Some_0 == skipped_tree(reason));
        assert(next.results.drop_last() =~= run.results);
        lemma_settling_skips(next);
    }
}

proof fn lemma_without_binaries(run: RunView, ms: u64, rounds: nat)
    requires
        skipped_so_far(run),
        run.finished() || run.waiting(),
        run.steps.len() - run.results.len() <= rounds,
    ensures
        skipped_so_far(without_binaries(run, ms, rounds)),
        without_binaries(run, ms, rounds).finished(),
        without_binaries(run, ms, rounds).steps == run.steps,
    decreases rounds,
{
    if run.waiting() {
        lemma_magnitude_ordered(LOW_CONF_THRESHOLD, FULL_CONFIDENCE);
        assert(at_least(FULL_CONFIDENCE, LOW_CONF_THRESHOLD));
        let step = run.current();
        lemma_no_answer_no_score(step, Seq::empty());
        let next = run.reported(Verdict::Skipped, missing_tree(step), ms);
        assert(next.results.drop_last() =~= run.results);
        lemma_settling_skips(next);
        settled_run_ends_or_waits(next);
        lemma_without_binaries(next.settled(), ms, (rounds - 1) as nat);
    }
}

proof fn lemma_no_credential_answer(results: Seq<ResultView>)
    requires
        forall|i: int| 0 <= i < results.len() ==> (#[trigger] results[i]).output.get_str("answer"@) is None,
    ensures
        credential(results) matches Some(output) ==> output.get_str("answer"@) is None,
    decreases results.len(),
{
    if results.len() > 0 {
        let rest = results.drop_first();
        assert forall|i: int| 0 <= i < rest.len() implies (#[trigger] rest[i]).output.get_str("answer"@) is None by {
            assert(rest[i] == results[i + 1]);
        }
        lemma_no_credential_answer(rest);
    }
}

/// Missing binaries do not fail a run: whatever the plan, it comes to its end with every step
/// reported as skipped, asks for nothing, and has the default answer.
pub proof fn missing_binaries_are_skipped(plan: PlanView, opts: OptionsView, ms: u64)
    requires
        !opts.mock,
    ensures
        ({
            let run = without_binaries(started(plan, opts).settled(), ms, plan.steps.len());
            let answer = run.answer();
            &&& run.finished()
            &&& follows_plan(answer.step_results, plan.steps)
            &&& answer.step_results.len() == plan.steps.len()
            &&& forall|i: int|
                0 <= i < plan.steps.len() ==> (#[trigger] answer.step_results[i]).verdict == Verdict::Skipped
            &&& !answer.clarify_needed
            &&& answer.final_answer == Some(DEFAULT_ANSWER@)
        }),
{
    let first = started(plan, opts);
    lemma_settling_skips(first);
    settled_run_ends_or_waits(first);
    lemma_without_binaries(first.settled(), ms, plan.steps.len());
    lemma_no_credential_answer(without_binaries(first.settled(), ms, plan.steps.len()).results);
}

} // verus!
