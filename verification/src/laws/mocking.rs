//! What holds of a mocked run of a plan.

use vstd::prelude::*;

use crate::confidence::{at_least, is_finite, lemma_magnitude_ordered, Confidence, FULL_CONFIDENCE, LOW_CONF_THRESHOLD};
use crate::json::member;
use crate::laws::planning::{lemma_pillars_differ, pillars_are_planned_once, plan_has_fixed_ends};
use crate::laws::running::{follows_plan, settling_keeps_to_plan};
use crate::mock::{mock_score, mock_tree, score_tree, AMBIGUOUS_CONFIDENCE, AMBIGUOUS_QUESTION, MOCK_CONFIDENCE};
use crate::planner::{planned_steps, PlanView};
use crate::runner::{credential, started, verdict_on, OptionsView, ResultView, RunView, Verdict};

verus! {

/// The confidence with which a mocked run comes to its clarify step. A score that JSON
/// cannot hold is not reported, and the run goes by the one that it started with.
pub open spec fn mocked_confidence(question: Seq<char>, opts: OptionsView) -> u64 {
    let score = mock_score(question, opts.mock_confidence);
    if is_finite(score) {
        score
    } else {
        FULL_CONFIDENCE
    }
}

/// A mocked run of the plan for a question.
pub open spec fn mocked_run(plan: PlanView, opts: OptionsView) -> RunView {
    started(plan, opts).settled()
}

proof fn lemma_binding_reports(question: Seq<char>, score: Option<Confidence>)
    ensures
        mock_tree("binding-confidence"@, question, score).get_double("confidence"@) == score_tree(
            mock_score(question, score),
        ).as_double(),
{
    lemma_pillars_differ();
    reveal_strlit("bucket");
    reveal_strlit("confidence");
    assert("bucket"@.len() == 6 && "confidence"@.len() == 10);
    let members = mock_tree("binding-confidence"@, question, score)->Object_0;
    reveal_with_fuel(member, 3);
    assert(members.drop_first()[0] == members[1]);
}

proof fn lemma_clarify_reports(question: Seq<char>, score: Option<Confidence>)
    ensures
        mock_tree("clarify"@, question, score).get_str("clarify_question"@) == Some(
            "Did you mean revenue by customer segment or by product category?"@,
        ),
        verdict_on("clarify"@, mock_tree("clarify"@, question, score)) == Verdict::ClarifyNeeded,
{
    lemma_pillars_differ();
    reveal_strlit("clarify_question");
    reveal_strlit("pillar");
    reveal_strlit("status");
    assert("clarify_question"@.len() == 16 && "pillar"@.len() == 6 && "status"@.len() == 6);
    assert("pillar"@[0] != "status"@[0]);
    let members = mock_tree("clarify"@, question, score)->Object_0;
    reveal_with_fuel(member, 4);
    assert(members.drop_first()[0] == members[1]);
    assert(members.drop_first().drop_first()[0] == members[2]);
}

/// The first three steps of a mocked run.
proof fn lemma_first_steps(plan: PlanView, opts: OptionsView)
    requires
        opts.mock,
        plan.steps.len() >= 3,
        plan.steps[0].pillar == "catalog-embed"@,
        plan.steps[1].pillar == "binding-confidence"@,
        plan.steps[2].pillar == "clarify"@,
    ensures
        ({
            let third = started(plan, opts).stepped().stepped();
            &&& started(plan, opts).settled() == third.settled()
            &&& third.steps == plan.steps
            &&& third.question == plan.question
            &&& third.opts == opts
            &&& third.results.len() == 2
            &&& third.results[0].verdict == Verdict::Okay
            &&& third.results[1].verdict == Verdict::Okay
            &&& third.stage is Running
            &&& third.confidence == mocked_confidence(plan.question, opts)
        }),
{
    lemma_pillars_differ();
    lemma_binding_reports(plan.question, opts.mock_confidence);
    let first = started(plan, opts);
    let second = first.stepped();
    let third = second.stepped();
    assert(!first.finished() && !first.waiting());
    assert(first.settled() == second.settled());
    assert(!second.finished() && !second.waiting());
    assert(second.settled() == third.settled());
}

/// A mocked run, from where no clarify step is left, deals with every step.
proof fn lemma_rest(run: RunView)
    requires
        run.opts.mock,
        run.stage is Running,
        follows_plan(run.results, run.steps),
        forall|i: int| run.results.len() <= i < run.steps.len() ==> (#[trigger] run.steps[i]).pillar != "clarify"@,
    ensures
        ({
            let end = run.settled();
            &&& end.stage is Running
            &&& end.results.len() == run.steps.len()
            &&& forall|i: int|
                run.results.len() <= i < run.steps.len() ==> (#[trigger] end.results[i]).verdict == Verdict::Okay
                    && (run.steps[i].pillar != "binding-confidence"@ ==> end.results[i].output == mock_tree(
                    run.steps[i].pillar,
                    run.question,
                    None,
                ))
        }),
    decreases run.steps.len() - run.results.len(),
{
    settling_keeps_to_plan(run);
    if !run.finished() {
        let next = run.stepped();
        let end = run.settled();
        assert(run.steps[run.results.len() as int].pillar != "clarify"@);
        lemma_rest(next);
        settling_keeps_to_plan(next);
        let at = run.results.len() as int;
        assert(end.results[at] == next.results[at]);
    }
}

proof fn lemma_credential_is_last(results: Seq<ResultView>)
    requires
        results.len() > 0,
        results.last().pillar == "rosetta-credential"@,
        forall|i: int| 0 <= i < results.len() - 1 ==> (#[trigger] results[i]).pillar != "rosetta-credential"@,
    ensures
        credential(results) == Some(results.last().output),
    decreases results.len(),
{
    if results.len() > 1 {
        assert(results[0].pillar != "rosetta-credential"@);
        let rest = results.drop_first();
        assert forall|i: int| 0 <= i < rest.len() - 1 implies (#[trigger] rest[i]).pillar != "rosetta-credential"@ by {
            assert(rest[i] == results[i + 1]);
        }
        lemma_credential_is_last(rest);
    }
}

/// Where the mocked binding is of low confidence and no clarification was given, a mocked run
/// halts at the clarify step: the answer asks the clarify question and has no final answer.
pub proof fn mocked_run_halts_on_low_confidence(
    plan: PlanView,
    lower: Seq<char>,
    multi_engine: bool,
    opts: OptionsView,
)
    requires
        plan.steps == planned_steps(lower, plan.model, multi_engine),
        opts.mock,
        opts.clarify_answer is None,
        !at_least(mocked_confidence(plan.question, opts), LOW_CONF_THRESHOLD),
    ensures
        ({
            let run = mocked_run(plan, opts);
            let answer = run.answer();
            &&& run.finished()
            &&& follows_plan(answer.step_results, plan.steps)
            &&& answer.step_results.len() == 3
            &&& answer.step_results[0].verdict == Verdict::Okay
            &&& answer.step_results[1].verdict == Verdict::Okay
            &&& answer.step_results[2].verdict == Verdict::ClarifyNeeded
            &&& answer.clarify_needed
            &&& answer.clarify_question == Some("Did you mean revenue by customer segment or by product category?"@)
            &&& answer.clarify_answer is None
            &&& answer.final_answer is None
        }),
{
    lemma_pillars_differ();
    plan_has_fixed_ends(lower, plan.model, multi_engine);
    lemma_first_steps(plan, opts);
    settling_keeps_to_plan(started(plan, opts));
    let third = started(plan, opts).stepped().stepped();
    lemma_clarify_reports(plan.question, None);
    let end = third.stepped();
    assert(!third.finished() && !third.waiting());
    assert(end.finished());
    assert(third.settled() == end.settled());
}

/// Where the mocked binding is of sufficient confidence, or the clarification was given, a
/// mocked run completes: every step of the plan has its result, the clarify step skipped and
/// all others in order, and the final answer is the one that the credential step signed.
pub proof fn mocked_run_completes(plan: PlanView, lower: Seq<char>, multi_engine: bool, opts: OptionsView)
    requires
        plan.steps == planned_steps(lower, plan.model, multi_engine),
        opts.mock,
        at_least(mocked_confidence(plan.question, opts), LOW_CONF_THRESHOLD) || opts.clarify_answer is Some,
    ensures
        ({
            let run = mocked_run(plan, opts);
            let answer = run.answer();
            &&& run.finished()
            &&& follows_plan(answer.step_results, plan.steps)
            &&& answer.step_results.len() == plan.steps.len()
            &&& forall|i: int|
                0 <= i < plan.steps.len() ==> (#[trigger] answer.step_results[i]).verdict == (if i == 2 {
                    Verdict::Skipped
                } else {
                    Verdict::Okay
                })
            &&& !answer.clarify_needed
            &&& answer.clarify_question is None
            &&& answer.clarify_answer == opts.clarify_answer
            &&& answer.final_answer == Some("Query executed successfully with verified provenance."@)
        }),
{
    lemma_pillars_differ();
    plan_has_fixed_ends(lower, plan.model, multi_engine);
    lemma_first_steps(plan, opts);
    let first = started(plan, opts);
    settling_keeps_to_plan(first);
    let third = first.stepped().stepped();
    let fourth = third.stepped();
    assert(!third.finished() && !third.waiting());
    assert(third.settled() == fourth.settled());
    assert forall|i: int| 3 <= i < plan.steps.len() implies (#[trigger] plan.steps[i]).pillar != "clarify"@ by {
        pillars_are_planned_once(lower, plan.model, multi_engine, 2, i);
    }
    assert(follows_plan(fourth.results, fourth.steps));
    lemma_rest(fourth);
    settling_keeps_to_plan(fourth);
    let end = fourth.settled();
    assert(end.results[0] == fourth.results[0]);
    assert(end.results[1] == fourth.results[1]);
    assert(end.results[2] == fourth.results[2]);
    assert forall|i: int| 0 <= i < end.results.len() - 1 implies (#[trigger] end.results[i]).pillar
        != "rosetta-credential"@ by {
        pillars_are_planned_once(lower, plan.model, multi_engine, i, plan.steps.len() - 1);
        assert(end.results[i].pillar == plan.steps[i].pillar);
    }
    assert(end.results.last().pillar == plan.steps.last().pillar);
    lemma_credential_is_last(end.results);
    assert(end.results[plan.steps.len() - 1].output == mock_tree("rosetta-credential"@, plan.question, None));
}

/// The canned scores: an ordinary question binds well, the ambiguous one does not.
pub proof fn canned_scores(question: Seq<char>, opts: OptionsView)
    requires
        opts.mock_confidence is None,
    ensures
        at_least(mocked_confidence(question, opts), LOW_CONF_THRESHOLD) <==> question != AMBIGUOUS_QUESTION@,
{
    lemma_magnitude_ordered(AMBIGUOUS_CONFIDENCE, LOW_CONF_THRESHOLD);
    lemma_magnitude_ordered(LOW_CONF_THRESHOLD, MOCK_CONFIDENCE);
}

/// A score that is no finite number has no effect on whether the clarify step fires.
pub proof fn unrepresentable_score_is_ignored(question: Seq<char>, opts: OptionsView)
    requires
        !is_finite(mock_score(question, opts.mock_confidence)),
    ensures
        at_least(mocked_confidence(question, opts), LOW_CONF_THRESHOLD),
{
    lemma_magnitude_ordered(LOW_CONF_THRESHOLD, FULL_CONFIDENCE);
}

} // verus!
