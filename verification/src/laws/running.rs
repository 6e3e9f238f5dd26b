//! What holds of every run.

use vstd::prelude::*;

use crate::confidence::{at_least, below, bucket_name, is_nan, LOW_CONF_THRESHOLD};
use crate::json::JsonTree;
use crate::laws::planning::{lemma_pillars_differ, plan_has_fixed_ends};
use crate::planner::{planned_steps, PlanView, StepView};
use crate::runner::{started, OptionsView, ResultView, RunView, Verdict};

verus! {

/// Each result is that of the step that stands at its place in the plan, and there are no
/// others.
pub open spec fn follows_plan(results: Seq<ResultView>, steps: Seq<StepView>) -> bool {
    &&& results.len() <= steps.len()
    &&& forall|i: int|
        0 <= i < results.len() ==> (#[trigger] results[i]).pillar == steps[i].pillar && results[i].tool
            == steps[i].tool
}

/// The two runs are for the same plan and the same options.
pub open spec fn same_task(a: RunView, b: RunView) -> bool {
    a.question == b.question && a.model == b.model && a.steps == b.steps && a.opts == b.opts
}

/// A run begins with no results, and with these it keeps to the plan.
pub proof fn starting_keeps_to_plan(plan: PlanView, opts: OptionsView)
    ensures
        follows_plan(started(plan, opts).results, plan.steps),
        started(plan, opts).steps == plan.steps,
{
}

/// Going on with a run keeps to the plan: the steps are dealt with in order, no other ones
/// are, and what was there stays.
pub proof fn settling_keeps_to_plan(run: RunView)
    requires
        follows_plan(run.results, run.steps),
    ensures
        same_task(run, run.settled()),
        follows_plan(run.settled().results, run.steps),
        run.results.is_prefix_of(run.settled().results),
    decreases run.steps.len() - run.results.len(),
{
    if !run.finished() && !run.waiting() {
        let next = run.stepped();
        settling_keeps_to_plan(next);
        assert(run.results.is_prefix_of(next.results));
    }
}

/// Taking a report keeps to the plan: the step that was next gets its result, and what was
/// there stays.
pub proof fn reporting_keeps_to_plan(run: RunView, verdict: Verdict, output: JsonTree, ms: u64)
    requires
        follows_plan(run.results, run.steps),
        !run.finished(),
    ensures
        ({
            let next = run.reported(verdict, output, ms);
            &&& same_task(run, next)
            &&& follows_plan(next.results, run.steps)
            &&& next.results.drop_last() == run.results
            &&& next.results.last() == (ResultView {
                pillar: run.current().pillar,
                tool: run.current().tool,
                verdict,
                output,
                ms,
            })
        }),
{
    let next = run.reported(verdict, output, ms);
    assert(next.results.drop_last() =~= run.results);
}

/// A run that was gone on with has come to its end, or it waits for a binary.
pub proof fn settled_run_ends_or_waits(run: RunView)
    ensures
        run.settled().finished() || run.settled().waiting(),
    decreases run.steps.len() - run.results.len(),
{
    if !run.finished() && !run.waiting() {
        settled_run_ends_or_waits(run.stepped());
    }
}

/// A mocked run never waits for a binary.
pub proof fn mocked_run_never_waits(run: RunView)
    requires
        run.opts.mock,
    ensures
        run.settled().finished(),
    decreases run.steps.len() - run.results.len(),
{
    if !run.finished() {
        mocked_run_never_waits(run.stepped());
    }
}

/// A run that was neither halted nor stopped has dealt with every step.
pub proof fn completed_run_has_all_results(run: RunView)
    requires
        follows_plan(run.results, run.steps),
        run.finished(),
        run.stage is Running,
    ensures
        run.answer().step_results.len() == run.answer().plan.len(),
{
}

/// No final answer is made up where a clarification is needed, and in no other case is one
/// missing.
pub proof fn final_answer_unless_clarify_needed(run: RunView)
    ensures
        run.answer().final_answer is None <==> run.answer().clarify_needed,
        run.answer().clarify_question is Some ==> run.answer().clarify_needed,
        run.answer().clarify_needed ==> run.answer().clarify_answer is None,
{
}

/// Where the binding confidence is low and no clarification was given, the clarify step
/// fires, and the run halts there, whatever the step reports: a clarification is needed, with
/// the question that was reported, and there is no final answer.
pub proof fn low_confidence_halts(run: RunView, verdict: Verdict, output: JsonTree, ms: u64)
    requires
        !run.finished(),
        run.current().pillar == "clarify"@,
        !at_least(run.confidence, LOW_CONF_THRESHOLD),
        run.opts.clarify_answer is None,
    ensures
        run.passes_over() is None,
        ({
            let next = run.reported(verdict, output, ms);
            &&& next.finished()
            &&& next.settled() == next
            &&& next.answer().clarify_needed
            &&& next.answer().clarify_question == output.get_str("clarify_question"@)
            &&& next.answer().final_answer is None
        }),
{
}

/// Where the binding confidence is not low, the clarify step is passed over.
pub proof fn sufficient_confidence_skips_clarify(run: RunView)
    requires
        !run.finished(),
        run.current().pillar == "clarify"@,
        at_least(run.confidence, LOW_CONF_THRESHOLD),
    ensures
        run.passes_over() is Some,
        run.stepped().results.last().verdict == Verdict::Skipped,
        run.stepped().stage is Running,
{
}

/// After a step that failed nothing is run any more.
pub proof fn failure_stops_run(run: RunView, output: JsonTree, ms: u64)
    requires
        !run.finished(),
    ensures
        ({
            let next = run.reported(Verdict::Failed, output, ms);
            next.finished() && next.settled() == next
        }),
{
}

/// A step that did not fail, and is no clarify step, leaves the run under way.
pub proof fn run_goes_on_without_failure(run: RunView, verdict: Verdict, output: JsonTree, ms: u64)
    requires
        !run.finished(),
        run.current().pillar != "clarify"@,
        verdict != Verdict::Failed,
    ensures
        run.reported(verdict, output, ms).stage is Running,
{
}

/// Only a binding step changes the confidence.
pub proof fn only_binding_sets_confidence(run: RunView, verdict: Verdict, output: JsonTree, ms: u64)
    requires
        !run.finished(),
        run.current().pillar != "binding-confidence"@,
    ensures
        run.reported(verdict, output, ms).confidence == run.confidence,
{
}

/// A low score is one on which the clarify step fires.
pub proof fn low_bucket_iff_clarify_fires(bits: u64)
    requires
        !is_nan(bits),
    ensures
        bucket_name(bits) == "low"@ <==> !at_least(bits, LOW_CONF_THRESHOLD),
        below(bits, LOW_CONF_THRESHOLD) <==> !at_least(bits, LOW_CONF_THRESHOLD),
{
    reveal_strlit("low");
    reveal_strlit("medium");
    reveal_strlit("high");
    assert("low"@.len() == 3 && "medium"@.len() == 6 && "high"@.len() == 4);
}

/// What a binary came to, as it is told to a run.
pub struct ReportView {
    pub verdict: Verdict,
    pub output: JsonTree,
    pub ms: u64,
}

/// The run, gone on with after each of the reports for which it waits.
pub open spec fn after_reports(run: RunView, reports: Seq<ReportView>) -> RunView
    decreases reports.len(),
{
    if reports.len() == 0 || !run.waiting() {
        run
    } else {
        let report = reports[0];
        after_reports(
            run.reported(report.verdict, report.output, report.ms).settled(),
            reports.drop_first(),
        )
    }
}

/// The run of a plan, gone on with after each of the reports for which it waits.
pub open spec fn run_of(plan: PlanView, opts: OptionsView, reports: Seq<ReportView>) -> RunView {
    after_reports(started(plan, opts).settled(), reports)
}

/// In any run: before the last result no step has failed and no clarify step was invoked; a
/// run that halted did so at a clarify step.
pub open spec fn in_good_order(run: RunView) -> bool {
    &&& follows_plan(run.results, run.steps)
    &&& forall|i: int|
        0 <= i < run.results.len() - 1 || (0 <= i < run.results.len() && run.stage is Running) ==> (
        #[trigger] run.results[i]).verdict != Verdict::Failed && (run.results[i].pillar == "clarify"@
            ==> run.results[i].verdict == Verdict::Skipped)
    &&& run.stage is Asked ==> run.results.len() > 0 && run.results.last().pillar == "clarify"@
        && run.opts.clarify_answer is None
    &&& run.stage is Failed ==> run.results.len() > 0 && run.results.last().verdict == Verdict::Failed
}

proof fn lemma_settling_in_order(run: RunView)
    requires
        in_good_order(run),
    ensures
        in_good_order(run.settled()),
        same_task(run, run.settled()),
        run.settled().results.len() >= run.results.len(),
        run.settled().finished() || run.settled().waiting(),
    decreases run.steps.len() - run.results.len(),
{
    if !run.finished() && !run.waiting() {
        let next = run.stepped();
        assert(next.results.drop_last() =~= run.results);
        lemma_settling_in_order(next);
    }
}

proof fn lemma_reporting_in_order(run: RunView, report: ReportView)
    requires
        in_good_order(run),
        run.waiting(),
    ensures
        in_good_order(run.reported(report.verdict, report.output, report.ms)),
{
    let next = run.reported(report.verdict, report.output, report.ms);
    assert(next.results.drop_last() =~= run.results);
}

proof fn lemma_reports_in_order(run: RunView, reports: Seq<ReportView>)
    requires
        in_good_order(run),
        run.finished() || run.waiting(),
    ensures
        ({
            let end = after_reports(run, reports);
            &&& in_good_order(end)
            &&& same_task(run, end)
            &&& end.finished() || end.waiting()
            &&& end.finished() || end.results.len() >= run.results.len() + reports.len()
        }),
    decreases reports.len(),
{
    if reports.len() > 0 && run.waiting() {
        let report = reports[0];
        let next = run.reported(report.verdict, report.output, report.ms);
        lemma_reporting_in_order(run, report);
        lemma_settling_in_order(next);
        lemma_reports_in_order(next.settled(), reports.drop_first());
    }
}

/// Whatever the binaries report, a run keeps to its plan: the results are those of its first
/// steps, in order. Nothing runs after a failure or after the clarify question.
pub proof fn every_run_keeps_to_plan(plan: PlanView, opts: OptionsView, reports: Seq<ReportView>)
    ensures
        ({
            let run = run_of(plan, opts, reports);
            &&& run.question == plan.question
            &&& run.model == plan.model
            &&& run.steps == plan.steps
            &&& run.opts == opts
            &&& in_good_order(run)
        }),
{
    lemma_settling_in_order(started(plan, opts));
    lemma_reports_in_order(started(plan, opts).settled(), reports);
}

/// A run ends: it waits for no more reports than its plan has steps.
pub proof fn every_run_ends(plan: PlanView, opts: OptionsView, reports: Seq<ReportView>)
    requires
        reports.len() >= plan.steps.len(),
    ensures
        run_of(plan, opts, reports).finished(),
{
    lemma_settling_in_order(started(plan, opts));
    lemma_reports_in_order(started(plan, opts).settled(), reports);
}

/// Whatever the binaries report, a run that was given the clarification is never halted for
/// one, and waits for no clarify binary; the answer repeats the clarification and has a final
/// answer.
pub proof fn every_answered_run_completes(plan: PlanView, opts: OptionsView, reports: Seq<ReportView>)
    requires
        opts.clarify_answer is Some,
    ensures
        ({
            let run = run_of(plan, opts, reports);
            let answer = run.answer();
            &&& run.waiting() ==> run.current().pillar != "clarify"@
            &&& !answer.clarify_needed
            &&& answer.final_answer is Some
            &&& answer.clarify_answer == opts.clarify_answer
        }),
{
    every_run_keeps_to_plan(plan, opts, reports);
}

/// A run of a plan of the planner, whose binding step reports a low score, halts at the
/// clarify step, whatever that reports: there are three results, a clarification is needed,
/// and there is no final answer.
pub proof fn low_binding_score_halts_run(
    plan: PlanView,
    lower: Seq<char>,
    multi_engine: bool,
    opts: OptionsView,
    embed: ReportView,
    binding: ReportView,
    clarify: ReportView,
)
    requires
        plan.steps == planned_steps(lower, plan.model, multi_engine),
        !opts.mock,
        opts.clarify_answer is None,
        embed.verdict != Verdict::Failed,
        binding.verdict != Verdict::Failed,
        binding.output.get_double("confidence"@) is Some,
        !at_least(binding.output.get_double("confidence"@)->Some_0, LOW_CONF_THRESHOLD),
    ensures
        ({
            let run = run_of(plan, opts, seq![embed, binding, clarify]);
            let answer = run.answer();
            &&& run.finished()
            &&& answer.step_results.len() == 3
            &&& answer.clarify_needed
            &&& answer.clarify_question == clarify.output.get_str("clarify_question"@)
            &&& answer.final_answer is None
        }),
{
    lemma_pillars_differ();
    plan_has_fixed_ends(lower, plan.model, multi_engine);
    let first = started(plan, opts);
    assert(first.waiting());
    let second = first.reported(embed.verdict, embed.output, embed.ms);
    assert(second.waiting());
    let third = second.reported(binding.verdict, binding.output, binding.ms);
    assert(third.waiting());
    let end = third.reported(clarify.verdict, clarify.output, clarify.ms);
    assert(end.finished());
    let reports = seq![embed, binding, clarify];
    assert(reports.drop_first() =~= seq![binding, clarify]);
    assert(seq![binding, clarify].drop_first() =~= seq![clarify]);
    assert(seq![clarify].drop_first() =~= Seq::<ReportView>::empty());
    assert(after_reports(end, Seq::empty()) == end);
    assert(after_reports(third, seq![clarify]) == end);
    assert(after_reports(second, seq![binding, clarify]) == end);
}

} // verus!
