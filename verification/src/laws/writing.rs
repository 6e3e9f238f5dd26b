//! What holds of the documents that are written.

use vstd::prelude::*;

use crate::fixtures::FixtureView;
use crate::json::{member, JsonNumber, JsonTree};
use crate::laws::reading::{lemma_member_at, names_of};
use crate::mock::mock_tree;
use crate::outcome::{failed_tree, missing_tree, not_started_tree, printed_tree};
use crate::planner::{PlanView, StepView};
use crate::runner::{skipped_tree, AnswerView, CheckpointView, ResultView, RunView, Verdict};
use crate::confidence::Confidence;
use crate::serve::{reply_tree, unknown_tool_tree};
use crate::wire::{
    answer_tree, checkpoint_tree, fixture_tree, optional_member, plan_tree, result_tree, results_tree, step_tree,
    steps_tree, verdict_name,
};

verus! {

/// Each verdict is written by its own name.
pub proof fn verdicts_are_written_by_name()
    ensures
        verdict_name(Verdict::Okay) == "ok"@,
        verdict_name(Verdict::ClarifyNeeded) == "clarify_needed"@,
        verdict_name(Verdict::Skipped) == "skipped"@,
        verdict_name(Verdict::Blocked) == "blocked"@,
        verdict_name(Verdict::Failed) == "failed"@,
{
}

/// No two verdicts are written alike.
pub proof fn verdict_names_differ(a: Verdict, b: Verdict)
    requires
        verdict_name(a) == verdict_name(b),
    ensures
        a == b,
{
    reveal_strlit("ok");
    reveal_strlit("clarify_needed");
    reveal_strlit("skipped");
    reveal_strlit("blocked");
    reveal_strlit("failed");
    assert("ok"@.len() == 2 && "clarify_needed"@.len() == 14 && "failed"@.len() == 6);
    assert("skipped"@.len() == 7 && "blocked"@.len() == 7);
    assert("skipped"@[0] != "blocked"@[0]);
}

proof fn lemma_member_skips(members: Seq<(Seq<char>, JsonTree)>, key: Seq<char>, n: int)
    requires
        0 <= n <= members.len(),
        forall|i: int| 0 <= i < n ==> (#[trigger] members[i]).0 != key,
    ensures
        member(members, key) == member(members.skip(n), key),
    decreases n,
{
    if n == 0 {
        assert(members.skip(0) =~= members);
    } else {
        assert(members[0].0 != key);
        let rest = members.drop_first();
        assert forall|i: int| 0 <= i < n - 1 implies (#[trigger] rest[i]).0 != key by {
            assert(rest[i] == members[i + 1]);
        }
        lemma_member_skips(rest, key, n - 1);
        assert(rest.skip(n - 1) =~= members.skip(n));
    }
}

proof fn lemma_answer_keys_differ()
    ensures
        "question"@.len() == 8,
        "model"@.len() == 5,
        "plan"@.len() == 4,
        "step_results"@.len() == 12,
        "clarify_needed"@.len() == 14,
        "clarify_question"@.len() == 16,
        "clarify_answer"@.len() == 14,
        "final_answer"@.len() == 12,
        "clarify_needed"@ != "clarify_answer"@,
        "step_results"@ != "final_answer"@,
{
    reveal_strlit("question");
    reveal_strlit("model");
    reveal_strlit("plan");
    reveal_strlit("step_results");
    reveal_strlit("clarify_needed");
    reveal_strlit("clarify_question");
    reveal_strlit("clarify_answer");
    reveal_strlit("final_answer");
    assert("clarify_needed"@[8] != "clarify_answer"@[8]);
    assert("step_results"@[0] != "final_answer"@[0]);
}

/// What an answer says is what is read from its document: a member that may be missing is
/// missing exactly where there is nothing to say.
pub proof fn answer_is_read_back(answer: AnswerView)
    ensures
        answer_tree(answer).get_str("question"@) == Some(answer.question),
        answer_tree(answer).get_str("model"@) == Some(answer.model),
        answer_tree(answer).get("plan"@) == Some(steps_tree(answer.plan)),
        answer_tree(answer).get("step_results"@) == Some(results_tree(answer.step_results)),
        answer_tree(answer).get_bool("clarify_needed"@) == Some(answer.clarify_needed),
        answer_tree(answer).get_str("clarify_question"@) == answer.clarify_question,
        answer_tree(answer).get_str("clarify_answer"@) == answer.clarify_answer,
        answer_tree(answer).get_str("final_answer"@) == answer.final_answer,
{
    lemma_answer_keys_differ();
    let members = answer_tree(answer)->Object_0;
    let n = 5int;
    let asked = optional_member("clarify_question"@, answer.clarify_question);
    let given = optional_member("clarify_answer"@, answer.clarify_answer);
    let signed = optional_member("final_answer"@, answer.final_answer);
    lemma_member_skips(members, "question"@, 0);
    lemma_member_skips(members, "model"@, 1);
    lemma_member_skips(members, "plan"@, 2);
    lemma_member_skips(members, "step_results"@, 3);
    lemma_member_skips(members, "clarify_needed"@, 4);
    let after_asked = n + asked.len();
    lemma_member_skips(
        members,
        "clarify_question"@,
        if asked.len() == 0 {
            members.len() as int
        } else {
            n
        },
    );
    lemma_member_skips(
        members,
        "clarify_answer"@,
        if given.len() == 0 {
            members.len() as int
        } else {
            after_asked
        },
    );
    let after_given = after_asked + given.len();
    lemma_member_skips(members, "final_answer"@, after_given);
    assert(members.len() == after_given + signed.len());
    assert(members.skip(members.len() as int) =~= Seq::empty());
}

/// A step's document says what the step says, and no more.
pub proof fn step_is_read_back(step: StepView)
    ensures
        step_tree(step) is Object,
        names_of(step_tree(step)) == seq!["pillar"@, "tool"@, "reason"@],
        step_tree(step).get("pillar"@) == Some(JsonTree::Str(step.pillar)),
        step_tree(step).get("tool"@) == Some(JsonTree::Str(step.tool)),
        step_tree(step).get("reason"@) == Some(JsonTree::Str(step.reason)),
{
    lemma_step_names();
    let members = step_tree(step)->Object_0;
    lemma_member_at(members, 0);
    lemma_member_at(members, 1);
    lemma_member_at(members, 2);
    assert(names_of(step_tree(step)) =~= seq!["pillar"@, "tool"@, "reason"@]);
}

/// A result's document says what the result says, and no more: its pillar, its tool and its
/// output as they are, its verdict by name, and its time in milliseconds.
pub proof fn result_is_read_back(result: ResultView)
    ensures
        result_tree(result) is Object,
        names_of(result_tree(result)) == seq!["pillar"@, "tool"@, "verdict"@, "output"@, "ms"@],
        result_tree(result).get("pillar"@) == Some(JsonTree::Str(result.pillar)),
        result_tree(result).get("tool"@) == Some(JsonTree::Str(result.tool)),
        result_tree(result).get("output"@) == Some(result.output),
        result_tree(result).get("ms"@) == Some(JsonTree::Number(JsonNumber::PosInt(result.ms))),
        result_tree(result).get_str("verdict"@) == Some("ok"@) <==> result.verdict == Verdict::Okay,
        result_tree(result).get_str("verdict"@) == Some("clarify_needed"@) <==> result.verdict == Verdict::ClarifyNeeded,
        result_tree(result).get_str("verdict"@) == Some("skipped"@) <==> result.verdict == Verdict::Skipped,
        result_tree(result).get_str("verdict"@) == Some("blocked"@) <==> result.verdict == Verdict::Blocked,
        result_tree(result).get_str("verdict"@) == Some("failed"@) <==> result.verdict == Verdict::Failed,
{
    lemma_step_names();
    let members = result_tree(result)->Object_0;
    lemma_member_at(members, 0);
    lemma_member_at(members, 1);
    lemma_member_at(members, 2);
    lemma_member_at(members, 3);
    lemma_member_at(members, 4);
    assert(names_of(result_tree(result)) =~= seq!["pillar"@, "tool"@, "verdict"@, "output"@, "ms"@]);
    verdicts_are_written_by_name();
    if result.verdict != Verdict::Okay && verdict_name(result.verdict) == verdict_name(Verdict::Okay) {
        verdict_names_differ(result.verdict, Verdict::Okay);
    }
    if result.verdict != Verdict::ClarifyNeeded && verdict_name(result.verdict) == verdict_name(Verdict::ClarifyNeeded) {
        verdict_names_differ(result.verdict, Verdict::ClarifyNeeded);
    }
    if result.verdict != Verdict::Skipped && verdict_name(result.verdict) == verdict_name(Verdict::Skipped) {
        verdict_names_differ(result.verdict, Verdict::Skipped);
    }
    if result.verdict != Verdict::Blocked && verdict_name(result.verdict) == verdict_name(Verdict::Blocked) {
        verdict_names_differ(result.verdict, Verdict::Blocked);
    }
    if result.verdict != Verdict::Failed && verdict_name(result.verdict) == verdict_name(Verdict::Failed) {
        verdict_names_differ(result.verdict, Verdict::Failed);
    }
}

/// A list is written as the documents of its items, each at its place, and no others.
pub proof fn lists_are_read_back(steps: Seq<StepView>, results: Seq<ResultView>)
    ensures
        steps_tree(steps) is Array,
        steps_tree(steps)->Array_0.len() == steps.len(),
        forall|i: int| 0 <= i < steps.len() ==> #[trigger] steps_tree(steps)->Array_0[i] == step_tree(steps[i]),
        results_tree(results) is Array,
        results_tree(results)->Array_0.len() == results.len(),
        forall|i: int| 0 <= i < results.len() ==> #[trigger] results_tree(results)->Array_0[i] == result_tree(results[i]),
{
}

/// What stands in the `step_results` of an answer's document at a place is what the result at
/// that place says.
pub proof fn each_result_of_an_answer_is_read_back(answer: AnswerView, i: int)
    requires
        0 <= i < answer.step_results.len(),
    ensures
        ({
            let written = answer_tree(answer).get("step_results"@);
            &&& written matches Some(JsonTree::Array(_))
            &&& (written->Some_0)->Array_0.len() == answer.step_results.len()
            &&& ({
                let item = (written->Some_0)->Array_0[i];
                let result = answer.step_results[i];
                &&& item.get_str("pillar"@) == Some(result.pillar)
                &&& item.get_str("tool"@) == Some(result.tool)
                &&& item.get("output"@) == Some(result.output)
                &&& item.get("ms"@) == Some(JsonTree::Number(JsonNumber::PosInt(result.ms)))
                &&& item.get_str("verdict"@) == Some("failed"@) <==> result.verdict == Verdict::Failed
                &&& item.get_str("verdict"@) == Some("ok"@) <==> result.verdict == Verdict::Okay
                &&& item.get_str("verdict"@) == Some("skipped"@) <==> result.verdict == Verdict::Skipped
                &&& item.get_str("verdict"@) == Some("clarify_needed"@) <==> result.verdict == Verdict::ClarifyNeeded
                &&& item.get_str("verdict"@) == Some("blocked"@) <==> result.verdict == Verdict::Blocked
            })
        }),
{
    answer_is_read_back(answer);
    lists_are_read_back(answer.plan, answer.step_results);
    result_is_read_back(answer.step_results[i]);
}

/// What stands in the `plan` of an answer's document, or in the `steps` of a plan's, at a
/// place is what the step at that place says.
pub proof fn each_step_is_read_back(answer: AnswerView, plan: PlanView, i: int)
    ensures
        0 <= i < answer.plan.len() ==> ({
            let written = answer_tree(answer).get("plan"@);
            &&& written matches Some(JsonTree::Array(_))
            &&& (written->Some_0)->Array_0.len() == answer.plan.len()
            &&& (written->Some_0)->Array_0[i].get_str("pillar"@) == Some(answer.plan[i].pillar)
            &&& (written->Some_0)->Array_0[i].get_str("tool"@) == Some(answer.plan[i].tool)
            &&& (written->Some_0)->Array_0[i].get_str("reason"@) == Some(answer.plan[i].reason)
        }),
        0 <= i < plan.steps.len() ==> ({
            let written = plan_tree(plan).get("steps"@);
            &&& written matches Some(JsonTree::Array(_))
            &&& (written->Some_0)->Array_0.len() == plan.steps.len()
            &&& (written->Some_0)->Array_0[i].get_str("pillar"@) == Some(plan.steps[i].pillar)
            &&& (written->Some_0)->Array_0[i].get_str("tool"@) == Some(plan.steps[i].tool)
            &&& (written->Some_0)->Array_0[i].get_str("reason"@) == Some(plan.steps[i].reason)
        }),
{
    answer_is_read_back(answer);
    plan_is_read_back(plan);
    if 0 <= i < answer.plan.len() {
        step_is_read_back(answer.plan[i]);
    }
    if 0 <= i < plan.steps.len() {
        step_is_read_back(plan.steps[i]);
    }
}

/// The members of a document stand in the order of the fields, and there are no others; what
/// an answer does not say is left out.
pub proof fn members_stand_in_field_order(
    plan: PlanView,
    answer: AnswerView,
    checkpoint: CheckpointView,
    fixture: FixtureView,
)
    ensures
        plan_tree(plan) is Object,
        names_of(plan_tree(plan)) == seq!["question"@, "model"@, "planner"@, "steps"@],
        answer_tree(answer) is Object,
        names_of(answer_tree(answer)) == seq!["question"@, "model"@, "plan"@, "step_results"@, "clarify_needed"@]
            + (if answer.clarify_question is Some { seq!["clarify_question"@] } else { seq![] })
            + (if answer.clarify_answer is Some { seq!["clarify_answer"@] } else { seq![] })
            + (if answer.final_answer is Some { seq!["final_answer"@] } else { seq![] }),
        checkpoint_tree(checkpoint) is Object,
        names_of(checkpoint_tree(checkpoint)) == seq![
            "question"@,
            "model"@,
            "clarify_question"@,
            "completed_steps"@,
            "pending_pillars"@,
        ],
        fixture_tree(fixture) is Object,
        names_of(fixture_tree(fixture)) == seq!["model"@, "multi_engine"@, "engine_count"@],
{
    assert(names_of(plan_tree(plan)) =~= seq!["question"@, "model"@, "planner"@, "steps"@]);
    assert(names_of(answer_tree(answer)) =~= seq!["question"@, "model"@, "plan"@, "step_results"@, "clarify_needed"@]
        + (if answer.clarify_question is Some { seq!["clarify_question"@] } else { seq![] })
        + (if answer.clarify_answer is Some { seq!["clarify_answer"@] } else { seq![] })
        + (if answer.final_answer is Some { seq!["final_answer"@] } else { seq![] }));
    assert(names_of(checkpoint_tree(checkpoint)) =~= seq![
        "question"@,
        "model"@,
        "clarify_question"@,
        "completed_steps"@,
        "pending_pillars"@,
    ]);
    assert(names_of(fixture_tree(fixture)) =~= seq!["model"@, "multi_engine"@, "engine_count"@]);
}

/// A plan's document says what the plan says.
pub proof fn plan_is_read_back(plan: PlanView)
    ensures
        plan_tree(plan).get_str("question"@) == Some(plan.question),
        plan_tree(plan).get_str("model"@) == Some(plan.model),
        plan_tree(plan).get_str("planner"@) == Some(plan.planner),
        plan_tree(plan).get("steps"@) == Some(steps_tree(plan.steps)),
{
    reveal_strlit("question");
    reveal_strlit("model");
    reveal_strlit("planner");
    reveal_strlit("steps");
    assert("question"@.len() == 8 && "model"@.len() == 5 && "planner"@.len() == 7 && "steps"@.len() == 5);
    assert("model"@[0] != "steps"@[0]);
    let members = plan_tree(plan)->Object_0;
    lemma_member_skips(members, "question"@, 0);
    lemma_member_skips(members, "model"@, 1);
    lemma_member_skips(members, "planner"@, 2);
    lemma_member_skips(members, "steps"@, 3);
}

proof fn lemma_checkpoint_keys_differ()
    ensures
        "question"@.len() == 8,
        "model"@.len() == 5,
        "clarify_question"@.len() == 16,
        "completed_steps"@.len() == 15 && "completed_steps"@[0] == 'c',
        "pending_pillars"@.len() == 15 && "pending_pillars"@[0] == 'p',
{
    reveal_strlit("question");
    reveal_strlit("model");
    reveal_strlit("clarify_question");
    reveal_strlit("completed_steps");
    reveal_strlit("pending_pillars");
}

/// A checkpoint's document says what the checkpoint says.
pub proof fn checkpoint_is_read_back(checkpoint: CheckpointView)
    ensures
        checkpoint_tree(checkpoint).get_str("question"@) == Some(checkpoint.question),
        checkpoint_tree(checkpoint).get_str("model"@) == Some(checkpoint.model),
        checkpoint_tree(checkpoint).get_str("clarify_question"@) == Some(checkpoint.clarify_question),
        checkpoint_tree(checkpoint).get("completed_steps"@) == Some(results_tree(checkpoint.completed_steps)),
        checkpoint_tree(checkpoint).get("pending_pillars"@) == Some(steps_tree(checkpoint.pending_pillars)),
{
    lemma_checkpoint_keys_differ();
    let members = checkpoint_tree(checkpoint)->Object_0;
    lemma_member_skips(members, "question"@, 0);
    lemma_member_skips(members, "model"@, 1);
    lemma_member_skips(members, "clarify_question"@, 2);
    lemma_member_skips(members, "completed_steps"@, 3);
    lemma_member_skips(members, "pending_pillars"@, 4);
}

proof fn lemma_fixture_keys_differ()
    ensures
        "model"@.len() == 5,
        "multi_engine"@.len() == 12 && "multi_engine"@[0] == 'm',
        "engine_count"@.len() == 12 && "engine_count"@[0] == 'e',
{
    reveal_strlit("model");
    reveal_strlit("multi_engine");
    reveal_strlit("engine_count");
}

/// A fixture's document says what the fixture says.
pub proof fn fixture_is_read_back(fixture: FixtureView)
    ensures
        fixture_tree(fixture).get_str("model"@) == Some(fixture.model),
        fixture_tree(fixture).get_bool("multi_engine"@) == Some(fixture.multi_engine),
        fixture_tree(fixture).get("engine_count"@) == Some(
            JsonTree::Number(JsonNumber::PosInt(fixture.engine_count as u64)),
        ),
{
    lemma_fixture_keys_differ();
    let members = fixture_tree(fixture)->Object_0;
    lemma_member_skips(members, "model"@, 0);
    lemma_member_skips(members, "multi_engine"@, 1);
    lemma_member_skips(members, "engine_count"@, 2);
}

/// An object is well-formed where its members are, and have different names.
proof fn lemma_object(members: Seq<(Seq<char>, JsonTree)>)
    requires
        forall|i: int| 0 <= i < members.len() ==> (#[trigger] members[i]).1.well_formed(),
        forall|i: int, j: int|
            0 <= i < j < members.len() ==> (#[trigger] members[i]).0 != (#[trigger] members[j]).0,
    ensures
        JsonTree::Object(members).well_formed(),
{
}

/// The names that stand in the documents are as long as they are, and those of one length
/// begin differently.
proof fn lemma_step_names()
    ensures
        "pillar"@.len() == 6 && "pillar"@[0] == 'p' && "pillar"@[1] == 'i',
        "reason"@.len() == 6 && "reason"@[0] == 'r',
        "status"@.len() == 6 && "status"@[0] == 's' && "status"@[2] == 'a',
        "stderr"@.len() == 6 && "stderr"@[0] == 's' && "stderr"@[2] == 'd',
        "error"@.len() == 5,
        "exit_code"@.len() == 9,
        "raw"@.len() == 3,
        "tool"@.len() == 4,
        "verdict"@.len() == 7,
        "output"@.len() == 6 && "output"@[0] == 'o',
        "ms"@.len() == 2,
        "result"@.len() == 6,
{
    reveal_strlit("pillar");
    reveal_strlit("reason");
    reveal_strlit("status");
    reveal_strlit("stderr");
    reveal_strlit("error");
    reveal_strlit("exit_code");
    reveal_strlit("raw");
    reveal_strlit("tool");
    reveal_strlit("verdict");
    reveal_strlit("output");
    reveal_strlit("ms");
    reveal_strlit("result");
}

/// The documents with which the runner stands in for a step's output have no name twice.
pub proof fn stand_in_outputs_are_well_formed(
    step: StepView,
    reason: Seq<char>,
    error: Seq<char>,
    code: Option<i32>,
    text: Seq<char>,
)
    ensures
        skipped_tree(reason).well_formed(),
        missing_tree(step).well_formed(),
        not_started_tree(step, error).well_formed(),
        failed_tree(step, code, text).well_formed(),
        printed_tree(step, None, text).well_formed(),
{
    lemma_step_names();
    lemma_object(skipped_tree(reason)->Object_0);
    lemma_object(missing_tree(step)->Object_0);
    lemma_object(not_started_tree(step, error)->Object_0);
    lemma_object(failed_tree(step, code, text)->Object_0);
    lemma_object(printed_tree(step, None, text)->Object_0);
}

proof fn lemma_mock_names()
    ensures
        "embedded_tokens"@.len() == 15,
        "top_matches"@.len() == 11,
        "bucket"@.len() == 6 && "bucket"@[0] == 'b',
        "confidence"@.len() == 10,
        "question"@.len() == 8,
        "clarify_question"@.len() == 16,
        "anchor_date"@.len() == 11,
        "comparison_window"@.len() == 17,
        "period"@.len() == 6 && "period"@[0] == 'p' && "period"@[1] == 'e',
        "engines"@.len() == 7,
        "parity"@.len() == 6 && "parity"@[0] == 'p' && "parity"@[1] == 'a',
        "cleared"@.len() == 7,
        "violations"@.len() == 10,
        "answer"@.len() == 6 && "answer"@[0] == 'a',
        "provenance"@.len() == 10,
{
    reveal_strlit("embedded_tokens");
    reveal_strlit("top_matches");
    reveal_strlit("bucket");
    reveal_strlit("confidence");
    reveal_strlit("question");
    reveal_strlit("clarify_question");
    reveal_strlit("anchor_date");
    reveal_strlit("comparison_window");
    reveal_strlit("period");
    reveal_strlit("engines");
    reveal_strlit("parity");
    reveal_strlit("cleared");
    reveal_strlit("violations");
    reveal_strlit("answer");
    reveal_strlit("provenance");
}

/// The canned responses have no name twice.
pub proof fn mock_outputs_are_well_formed(pillar: Seq<char>, question: Seq<char>, score: Option<Confidence>)
    ensures
        mock_tree(pillar, question, score).well_formed(),
{
    lemma_step_names();
    lemma_mock_names();
    let members = mock_tree(pillar, question, score)->Object_0;
    assert forall|i: int| 0 <= i < members.len() implies (#[trigger] members[i]).1.well_formed() by {
        let value = members[i].1;
        assert(value !is Object);
        if value is Array {
            assert forall|j: int| 0 <= j < value->Array_0.len() implies (#[trigger] value->Array_0[j]).well_formed() by {
                assert(value->Array_0[j] is Str);
            }
        }
    }
    lemma_object(members);
}

/// The outputs of all results have no name twice.
pub open spec fn outputs_well_formed(results: Seq<ResultView>) -> bool {
    forall|i: int| 0 <= i < results.len() ==> (#[trigger] results[i]).output.well_formed()
}

/// Going on with a run leaves no output with a name twice.
pub proof fn settling_keeps_outputs_well_formed(run: RunView)
    requires
        outputs_well_formed(run.results),
    ensures
        outputs_well_formed(run.settled().results),
    decreases run.steps.len() - run.results.len(),
{
    if !run.finished() && !run.waiting() {
        let next = run.stepped();
        let pillar = run.current().pillar;
        match run.passes_over() {
            Some(output) => {
                let reason = output->Object_0[1].1->Str_0;
                assert(output == skipped_tree(reason));
                stand_in_outputs_are_well_formed(run.current(), reason, Seq::empty(), None, Seq::empty());
            },
            None => {
                mock_outputs_are_well_formed(
                    pillar,
                    run.question,
                    if pillar == "binding-confidence"@ {
                        run.opts.mock_confidence
                    } else {
                        None
                    },
                );
            },
        }
        settling_keeps_outputs_well_formed(next);
    }
}

proof fn lemma_steps_well_formed(steps: Seq<StepView>)
    ensures
        steps_tree(steps).well_formed(),
{
    lemma_step_names();
    let items = steps_tree(steps)->Array_0;
    assert forall|i: int| 0 <= i < items.len() implies (#[trigger] items[i]).well_formed() by {
        lemma_object(step_tree(steps[i])->Object_0);
    }
}

/// The document of a plan has no name twice.
pub proof fn plan_document_is_well_formed(plan: PlanView)
    ensures
        plan_tree(plan).well_formed(),
{
    reveal_strlit("question");
    reveal_strlit("model");
    reveal_strlit("planner");
    reveal_strlit("steps");
    assert("question"@.len() == 8 && "model"@.len() == 5 && "planner"@.len() == 7 && "steps"@.len() == 5);
    assert("model"@[0] != "steps"@[0]);
    lemma_steps_well_formed(plan.steps);
    lemma_object(plan_tree(plan)->Object_0);
}

proof fn lemma_results_well_formed(results: Seq<ResultView>)
    requires
        outputs_well_formed(results),
    ensures
        results_tree(results).well_formed(),
{
    lemma_step_names();
    let items = results_tree(results)->Array_0;
    assert forall|i: int| 0 <= i < items.len() implies (#[trigger] items[i]).well_formed() by {
        assert(results[i].output.well_formed());
        lemma_object(result_tree(results[i])->Object_0);
    }
}

/// The document of an answer has no name twice, as long as the outputs in it have not.
pub proof fn answer_document_is_well_formed(answer: AnswerView)
    requires
        outputs_well_formed(answer.step_results),
    ensures
        answer_tree(answer).well_formed(),
{
    lemma_answer_keys_differ();
    lemma_steps_well_formed(answer.plan);
    lemma_results_well_formed(answer.step_results);
    lemma_object(answer_tree(answer)->Object_0);
}

/// The document of a checkpoint has no name twice, as long as the outputs in it have not.
pub proof fn checkpoint_document_is_well_formed(checkpoint: CheckpointView)
    requires
        outputs_well_formed(checkpoint.completed_steps),
    ensures
        checkpoint_tree(checkpoint).well_formed(),
{
    lemma_checkpoint_keys_differ();
    lemma_steps_well_formed(checkpoint.pending_pillars);
    lemma_results_well_formed(checkpoint.completed_steps);
    lemma_object(checkpoint_tree(checkpoint)->Object_0);
}

/// The document of a fixture has no name twice.
pub proof fn fixture_document_is_well_formed(fixture: FixtureView)
    ensures
        fixture_tree(fixture).well_formed(),
{
    lemma_fixture_keys_differ();
    lemma_object(fixture_tree(fixture)->Object_0);
}

/// A reply has no name twice, as long as its result has not.
pub proof fn reply_is_well_formed(tool: Seq<char>, result: JsonTree)
    requires
        result.well_formed(),
    ensures
        reply_tree(tool, result).well_formed(),
        unknown_tool_tree(tool).well_formed(),
{
    lemma_step_names();
    lemma_object(reply_tree(tool, result)->Object_0);
    lemma_object(unknown_tool_tree(tool)->Object_0);
}

} // verus!
