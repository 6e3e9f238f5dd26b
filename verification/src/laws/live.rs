//! What holds of a live run of the planner's plans, from the first binary to the answer.

use vstd::prelude::*;

use crate::confidence::{at_least, lemma_magnitude_ordered, FULL_CONFIDENCE, LOW_CONF_THRESHOLD};
use crate::json::JsonTree;
use crate::laws::planning::{lemma_pillars_differ, pillars_are_planned_once, plan_has_fixed_ends};
use crate::laws::running::{after_reports, run_of, same_task, ReportView};
use crate::laws::stepping::{
    final_answer_is_the_signed_one, live_step_is_waited_for, needless_clarify_is_skipped, report_is_recorded,
};
use crate::planner::{planned_steps, PlanView, StepView};
use crate::runner::{started, OptionsView, ResultView, RunView, StageView, Verdict};

verus! {

/// The result of a step, as it was reported.
pub open spec fn result_of(step: StepView, report: ReportView) -> ResultView {
    ResultView {
        pillar: step.pillar,
        tool: step.tool,
        verdict: report.verdict,
        output: report.output,
        ms: report.ms,
    }
}

/// No report is that of a failure.
pub open spec fn none_failed(reports: Seq<ReportView>) -> bool {
    forall|i: int| 0 <= i < reports.len() ==> (#[trigger] reports[i]).verdict != Verdict::Failed
}

/// From where no clarify step is left, each report becomes the result of the step that is
/// next, and the run waits for the one after.
proof fn lemma_reports_are_taken(run: RunView, reports: Seq<ReportView>)
    requires
        run.stage is Running,
        !run.opts.mock,
        run.results.len() + reports.len() <= run.steps.len(),
        none_failed(reports),
        forall|i: int| run.results.len() <= i < run.steps.len() ==> (#[trigger] run.steps[i]).pillar != "clarify"@,
    ensures
        ({
            let end = after_reports(run, reports);
            let done = run.results.len() as int;
            &&& same_task(run, end)
            &&& end.stage is Running
            &&& end.results.len() == done + reports.len()
            &&& forall|i: int| 0 <= i < done ==> #[trigger] end.results[i] == run.results[i]
            &&& forall|i: int|
                done <= i < end.results.len() ==> #[trigger] end.results[i] == result_of(run.steps[i], reports[i - done])
        }),
    decreases reports.len(),
{
    if reports.len() > 0 {
        let done = run.results.len() as int;
        assert(run.steps[done].pillar != "clarify"@);
        live_step_is_waited_for(run);
        let report = reports[0];
        let next = run.reported(report.verdict, report.output, report.ms);
        report_is_recorded(run, report.verdict, report.output, report.ms);
        assert(next.settled() == next) by {
            if next.results.len() < next.steps.len() {
                assert(run.steps[done + 1].pillar != "clarify"@);
                live_step_is_waited_for(next);
            }
        }
        let rest = reports.drop_first();
        assert forall|i: int| 0 <= i < rest.len() implies (#[trigger] rest[i]).verdict != Verdict::Failed by {
            assert(rest[i] == reports[i + 1]);
        }
        lemma_reports_are_taken(next, rest);
        let end = after_reports(run, reports);
        assert(end == after_reports(next, rest));
        assert forall|i: int| 0 <= i < done implies #[trigger] end.results[i] == run.results[i] by {
            assert(end.results[i] == next.results[i]);
        }
        assert forall|i: int| done <= i < end.results.len() implies #[trigger] end.results[i] == result_of(
            run.steps[i],
            reports[i - done],
        ) by {
            if i == done {
                assert(end.results[i] == next.results[i]);
            } else {
                assert(reports[i - done] == rest[i - done - 1]);
            }
        }
    }
}

/// The binding step reports no low score: a number of 0.45 or more, or no number.
pub open spec fn binds_well(binding: ReportView) -> bool {
    match binding.output.get_double("confidence"@) {
        Some(bits) => at_least(bits, 0x3FDC_CCCC_CCCC_CCCD),
        None => true,
    }
}

/// A live run of a plan of the planner, in which no binary fails, and the binding step reports
/// a score of 0.45 or more, or none, or the clarification was given beforehand: the run never
/// waits for the clarify binary and is never halted. The first two results are those that the
/// first two binaries reported, the third is that of a clarify step that was skipped, and each
/// later one is that of its step as its binary reported it. As long as binaries are left, the
/// run waits for the next one in order.
pub proof fn live_run_takes_reports_in_order(
    plan: PlanView,
    lower: Seq<char>,
    multi_engine: bool,
    opts: OptionsView,
    embed: ReportView,
    binding: ReportView,
    rest: Seq<ReportView>,
)
    requires
        plan.steps == planned_steps(lower, plan.model, multi_engine),
        !opts.mock,
        embed.verdict != Verdict::Failed,
        binding.verdict != Verdict::Failed,
        binds_well(binding) || opts.clarify_answer is Some,
        rest.len() + 3 <= plan.steps.len(),
        none_failed(rest),
    ensures
        ({
            let run = run_of(plan, opts, seq![embed, binding] + rest);
            let results = run.answer().step_results;
            &&& !run.answer().clarify_needed
            &&& run.answer().final_answer is Some
            &&& run.answer().clarify_question is None
            &&& run.answer().clarify_answer == opts.clarify_answer
            &&& run.answer().question == plan.question
            &&& run.answer().model == plan.model
            &&& run.answer().plan == plan.steps
            &&& results.len() == 3 + rest.len()
            &&& results[0] == result_of(plan.steps[0], embed)
            &&& results[1] == result_of(plan.steps[1], binding)
            &&& results[2].pillar == "clarify"@
            &&& results[2].tool == plan.steps[2].tool
            &&& results[2].verdict == Verdict::Skipped
            &&& results[2].output.get_str("status"@) == Some("skipped"@)
            &&& forall|i: int|
                3 <= i < results.len() ==> #[trigger] results[i] == result_of(plan.steps[i], rest[i - 3])
            &&& run.finished() <==> results.len() == plan.steps.len()
            &&& !run.finished() ==> run.waiting() && run.current() == plan.steps[results.len() as int]
                && run.current().pillar != "clarify"@
        }),
{
    lemma_pillars_differ();
    plan_has_fixed_ends(lower, plan.model, multi_engine);
    lemma_magnitude_ordered(LOW_CONF_THRESHOLD, FULL_CONFIDENCE);
    assert forall|i: int| 3 <= i < plan.steps.len() implies (#[trigger] plan.steps[i]).pillar != "clarify"@ by {
        pillars_are_planned_once(lower, plan.model, multi_engine, 2, i);
    }
    let reports = seq![embed, binding] + rest;
    let first = started(plan, opts);
    live_step_is_waited_for(first);
    report_is_recorded(first, embed.verdict, embed.output, embed.ms);
    let second = first.reported(embed.verdict, embed.output, embed.ms);
    live_step_is_waited_for(second);
    report_is_recorded(second, binding.verdict, binding.output, binding.ms);
    let third = second.reported(binding.verdict, binding.output, binding.ms);
    assert(at_least(FULL_CONFIDENCE, LOW_CONF_THRESHOLD));
    needless_clarify_is_skipped(third);
    let fourth = third.stepped();
    assert(third.settled() == fourth.settled());
    assert(plan.steps[3].pillar != "clarify"@);
    live_step_is_waited_for(fourth);
    assert(reports.drop_first() =~= seq![binding] + rest);
    assert((seq![binding] + rest).drop_first() =~= rest);
    assert(reports[0] == embed && (seq![binding] + rest)[0] == binding);
    assert(after_reports(second, seq![binding] + rest) == after_reports(fourth, rest));
    assert(after_reports(first, reports) == after_reports(fourth, rest));
    lemma_reports_are_taken(fourth, rest);
    let run = run_of(plan, opts, reports);
    assert(run.results[0] == fourth.results[0]);
    assert(run.results[1] == fourth.results[1]);
    assert(run.results[2] == fourth.results[2]);
    if run.results.len() < plan.steps.len() {
        assert(plan.steps[run.results.len() as int].pillar != "clarify"@);
        live_step_is_waited_for(run);
    }
}

/// A live run of a plan of the planner, in which no binary fails and no clarification is
/// needed, or one was given, comes to the answer that the credential binary signed: whatever
/// string it reports as `answer` is the final answer. Where it reports none, the final answer
/// is the default one.
pub proof fn live_run_returns_the_signed_answer(
    plan: PlanView,
    lower: Seq<char>,
    multi_engine: bool,
    opts: OptionsView,
    embed: ReportView,
    binding: ReportView,
    rest: Seq<ReportView>,
)
    requires
        plan.steps == planned_steps(lower, plan.model, multi_engine),
        !opts.mock,
        embed.verdict != Verdict::Failed,
        binding.verdict != Verdict::Failed,
        binds_well(binding) || opts.clarify_answer is Some,
        rest.len() + 3 == plan.steps.len(),
        none_failed(rest),
    ensures
        ({
            let run = run_of(plan, opts, seq![embed, binding] + rest);
            &&& run.finished()
            &&& run.answer().step_results.len() == plan.steps.len()
            &&& forall|text: Seq<char>|
                rest.last().output.get("answer"@) == Some(JsonTree::Str(text)) ==> run.answer().final_answer == Some(
                    text,
                )
            &&& rest.last().output.get_str("answer"@) is None ==> run.answer().final_answer == Some(
                "Query plan executed successfully."@,
            )
        }),
{
    live_run_takes_reports_in_order(plan, lower, multi_engine, opts, embed, binding, rest);
    plan_has_fixed_ends(lower, plan.model, multi_engine);
    lemma_pillars_differ();
    let run = run_of(plan, opts, seq![embed, binding] + rest);
    let last = plan.steps.len() - 1;
    let results = run.answer().step_results;
    assert(results[last] == result_of(plan.steps[last], rest[last - 3]));
    assert forall|i: int| 0 <= i < last implies (#[trigger] results[i]).pillar != "rosetta-credential"@ by {
        pillars_are_planned_once(lower, plan.model, multi_engine, i, last);
        if i >= 3 {
            assert(results[i] == result_of(plan.steps[i], rest[i - 3]));
        }
    }
    final_answer_is_the_signed_one(run, last);
}

/// A live run of a plan of the planner, one of whose later binaries fails, ends there: the
/// failure is its last result, nothing after it is run, and the run asks for no clarification.
pub proof fn live_run_ends_at_failure(
    plan: PlanView,
    lower: Seq<char>,
    multi_engine: bool,
    opts: OptionsView,
    embed: ReportView,
    binding: ReportView,
    rest: Seq<ReportView>,
    failure: ReportView,
    more: Seq<ReportView>,
)
    requires
        plan.steps == planned_steps(lower, plan.model, multi_engine),
        !opts.mock,
        embed.verdict != Verdict::Failed,
        binding.verdict != Verdict::Failed,
        binds_well(binding) || opts.clarify_answer is Some,
        rest.len() + 3 < plan.steps.len(),
        none_failed(rest),
        failure.verdict == Verdict::Failed,
    ensures
        ({
            let run = run_of(plan, opts, seq![embed, binding] + rest + seq![failure] + more);
            let results = run.answer().step_results;
            &&& run.finished()
            &&& run.stage == StageView::Failed
            &&& results.len() == 4 + rest.len()
            &&& results.last() == result_of(plan.steps[(3 + rest.len()) as int], failure)
            &&& !run.answer().clarify_needed
        }),
{
    live_run_takes_reports_in_order(plan, lower, multi_engine, opts, embed, binding, rest);
    let reports = seq![embed, binding] + rest;
    let before = run_of(plan, opts, reports);
    report_is_recorded(before, failure.verdict, failure.output, failure.ms);
    let after = before.reported(failure.verdict, failure.output, failure.ms);
    lemma_reports_in_turn(started(plan, opts).settled(), reports, seq![failure] + more);
    assert(reports + (seq![failure] + more) =~= reports + seq![failure] + more);
    assert((seq![failure] + more)[0] == failure);
    assert((seq![failure] + more).drop_first() =~= more);
    assert(after_reports(before, seq![failure] + more) == after_reports(after.settled(), more));
}

/// Reports may be told in two turns.
proof fn lemma_reports_in_turn(run: RunView, a: Seq<ReportView>, b: Seq<ReportView>)
    ensures
        after_reports(run, a + b) == after_reports(after_reports(run, a), b),
    decreases a.len(),
{
    if a.len() == 0 {
        assert(a + b =~= b);
    } else if run.waiting() {
        let report = a[0];
        let next = run.reported(report.verdict, report.output, report.ms).settled();
        assert((a + b)[0] == report);
        assert((a + b).drop_first() =~= a.drop_first() + b);
        lemma_reports_in_turn(next, a.drop_first(), b);
    }
}

} // verus!
