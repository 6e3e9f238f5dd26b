//! What holds of reading JSON documents, and of the views of the data.

use vstd::prelude::*;

use crate::confidence::is_nearest_double;
use crate::fixtures::ModelFixture;
use crate::json::{items_tree, member, members_tree, nearest_double_is_unique, number_bits, Json, JsonNumber, JsonTree};
use crate::planner::{steps_view, texts_view, Plan, PlanStep};
use crate::runner::{
    results_view, text_of, Answer, ClarifyCheckpoint, Execution, ExecutionView, RunOptions, StepResult,
};
use crate::serve::{Handling, HandlingView, ToolCall};
use crate::text::strings_view;

verus! {

/// The names of the members of an object, in order.
pub open spec fn names_of(document: JsonTree) -> Seq<Seq<char>> {
    document->Object_0.map_values(|m: (Seq<char>, JsonTree)| m.0)
}

/// The member at `at` is found by its name, where no member before it has that name.
pub(crate) proof fn lemma_member_at(members: Seq<(Seq<char>, JsonTree)>, at: int)
    requires
        0 <= at < members.len(),
        forall|i: int| 0 <= i < at ==> (#[trigger] members[i]).0 != members[at].0,
    ensures
        member(members, members[at].0) == Some(members[at].1),
    decreases at,
{
    if at > 0 {
        assert(members[0].0 != members[at].0);
        let rest = members.drop_first();
        assert forall|i: int| 0 <= i < at - 1 implies (#[trigger] rest[i]).0 != rest[at - 1].0 by {
            assert(rest[i] == members[i + 1]);
        }
        lemma_member_at(rest, at - 1);
    }
}

/// No member is found by a name that none has.
pub(crate) proof fn lemma_member_absent(members: Seq<(Seq<char>, JsonTree)>, key: Seq<char>)
    requires
        forall|i: int| 0 <= i < members.len() ==> (#[trigger] members[i]).0 != key,
    ensures
        member(members, key) is None,
    decreases members.len(),
{
    if members.len() > 0 {
        assert(members[0].0 != key);
        let rest = members.drop_first();
        assert forall|i: int| 0 <= i < rest.len() implies (#[trigger] rest[i]).0 != key by {
            assert(rest[i] == members[i + 1]);
        }
        lemma_member_absent(rest, key);
    }
}

/// What is found by a name is the first member of that name, and nothing is found where no
/// member has it.
pub proof fn first_member_is_found(members: Seq<(Seq<char>, JsonTree)>, key: Seq<char>, at: int)
    ensures
        0 <= at < members.len() && members[at].0 == key && (forall|i: int|
            0 <= i < at ==> (#[trigger] members[i]).0 != key) ==> JsonTree::Object(members).get(key) == Some(
            members[at].1,
        ),
        (forall|i: int| 0 <= i < members.len() ==> (#[trigger] members[i]).0 != key) ==> JsonTree::Object(
            members,
        ).get(key) is None,
{
    if 0 <= at < members.len() && members[at].0 == key && (forall|i: int|
        0 <= i < at ==> (#[trigger] members[i]).0 != key) {
        lemma_member_at(members, at);
    }
    if forall|i: int| 0 <= i < members.len() ==> (#[trigger] members[i]).0 != key {
        lemma_member_absent(members, key);
    }
}

/// In a document without a repeated name, every member is found.
pub proof fn every_member_is_found(document: JsonTree, at: int)
    requires
        document is Object,
        document.well_formed(),
        0 <= at < document->Object_0.len(),
    ensures
        document.get(document->Object_0[at].0) == Some(document->Object_0[at].1),
{
    lemma_member_at(document->Object_0, at);
}

/// What is no object has no members.
pub proof fn only_objects_have_members(document: JsonTree, key: Seq<char>)
    requires
        document !is Object,
    ensures
        document.get(key) is None,
        document.get_str(key) is None,
        document.get_bool(key) is None,
        document.get_double(key) is None,
{
}

/// A member is read as what it holds, and as nothing else: a string as a text, a boolean as
/// a truth value, a number as a double.
pub proof fn members_are_read_by_kind(document: JsonTree, key: Seq<char>)
    ensures
        forall|text: Seq<char>|
            document.get_str(key) == Some(text) <==> document.get(key) == Some(JsonTree::Str(text)),
        forall|value: bool|
            document.get_bool(key) == Some(value) <==> document.get(key) == Some(JsonTree::Bool(value)),
        document.get_double(key) is Some <==> document.get(key) matches Some(JsonTree::Number(_)),
        forall|bits: u64|
            document.get(key) == Some(JsonTree::Number(JsonNumber::Float(bits))) ==> document.get_double(key) == Some(
                bits,
            ),
{
}

/// An integer is read as the double nearest to it.
pub proof fn integers_are_read_as_nearest_double(n: u64, m: i64, bits: u64)
    ensures
        is_nearest_double(bits, n as int) ==> JsonTree::Number(JsonNumber::PosInt(n)).as_double() == Some(bits),
        is_nearest_double(bits, m as int) ==> JsonTree::Number(JsonNumber::NegInt(m)).as_double() == Some(bits),
{
    if is_nearest_double(bits, n as int) {
        nearest_double_is_unique(bits, number_bits(JsonNumber::PosInt(n)), n as int);
    }
    if is_nearest_double(bits, m as int) {
        nearest_double_is_unique(bits, number_bits(JsonNumber::NegInt(m)), m as int);
    }
}

/// What a value is read as, taken by itself.
pub proof fn values_are_read_by_kind(document: JsonTree)
    ensures
        forall|text: Seq<char>| document.as_str() == Some(text) <==> document == JsonTree::Str(text),
        forall|value: bool| document.as_bool() == Some(value) <==> document == JsonTree::Bool(value),
        document.as_double() is Some <==> document is Number,
{
}

/// A document says what it is made of, layer by layer, and in order.
pub proof fn documents_say_what_they_hold(
    value: bool,
    number: JsonNumber,
    text: String,
    items: Vec<Json>,
    members: Vec<(String, Json)>,
)
    ensures
        Json::Null.tree() == JsonTree::Null,
        Json::Bool(value).tree() == JsonTree::Bool(value),
        Json::Number(number).tree() == JsonTree::Number(number),
        Json::Str(text).tree() == JsonTree::Str(text@),
        Json::Array(items).tree() is Array,
        Json::Array(items).tree()->Array_0.len() == items@.len(),
        forall|i: int|
            0 <= i < items@.len() ==> #[trigger] Json::Array(items).tree()->Array_0[i] == items@[i].tree(),
        Json::Object(members).tree() is Object,
        Json::Object(members).tree()->Object_0.len() == members@.len(),
        forall|i: int|
            0 <= i < members@.len() ==> #[trigger] Json::Object(members).tree()->Object_0[i] == (
                members@[i].0@,
                members@[i].1.tree(),
            ),
{
}

/// A list says what its items say, each at its place, and no more.
pub proof fn lists_say_what_they_hold(
    steps: Seq<PlanStep>,
    results: Seq<StepResult>,
    strings: Seq<String>,
    texts: Seq<&'static str>,
    items: Seq<Json>,
    members: Seq<(String, Json)>,
)
    ensures
        steps_view(steps).len() == steps.len(),
        forall|i: int| 0 <= i < steps.len() ==> #[trigger] steps_view(steps)[i] == steps[i]@,
        results_view(results).len() == results.len(),
        forall|i: int| 0 <= i < results.len() ==> #[trigger] results_view(results)[i] == results[i]@,
        strings_view(strings).len() == strings.len(),
        forall|i: int| 0 <= i < strings.len() ==> #[trigger] strings_view(strings)[i] == strings[i]@,
        texts_view(texts).len() == texts.len(),
        forall|i: int| 0 <= i < texts.len() ==> #[trigger] texts_view(texts)[i] == texts[i]@,
        items_tree(items).len() == items.len(),
        forall|i: int| 0 <= i < items.len() ==> #[trigger] items_tree(items)[i] == items[i].tree(),
        members_tree(members).len() == members.len(),
        forall|i: int|
            0 <= i < members.len() ==> #[trigger] members_tree(members)[i] == (members[i].0@, members[i].1.tree()),
{
}

/// An optional text is there where the string is, and says what it says.
pub proof fn optional_texts_say_what_they_hold(text: Option<String>)
    ensures
        text is Some <==> text_of(text) is Some,
        text matches Some(string) ==> text_of(text) == Some(string@),
{
}

/// What a plan, or one of its steps, says, is all that it holds.
pub proof fn plans_say_what_they_hold(plan: Plan, step: PlanStep)
    ensures
        step@.pillar == step.pillar@,
        step@.tool == step.tool@,
        step@.reason == step.reason@,
        plan@.question == plan.question@,
        plan@.model == plan.model@,
        plan@.planner == plan.planner@,
        plan@.steps.len() == plan.steps@.len(),
        forall|i: int| 0 <= i < plan.steps@.len() ==> #[trigger] plan@.steps[i] == plan.steps@[i]@,
{
}

/// What an answer, or one of its results, says, is all that it holds.
pub proof fn answers_say_what_they_hold(answer: Answer, result: StepResult)
    ensures
        result@.pillar == result.pillar@,
        result@.tool == result.tool@,
        result@.verdict == result.verdict,
        result@.output == result.output.tree(),
        result@.ms == result.ms,
        answer@.question == answer.question@,
        answer@.model == answer.model@,
        answer@.plan.len() == answer.plan@.len(),
        forall|i: int| 0 <= i < answer.plan@.len() ==> #[trigger] answer@.plan[i] == answer.plan@[i]@,
        answer@.step_results.len() == answer.step_results@.len(),
        forall|i: int|
            0 <= i < answer.step_results@.len() ==> #[trigger] answer@.step_results[i] == answer.step_results@[i]@,
        answer@.clarify_needed == answer.clarify_needed,
        answer@.clarify_question is Some == answer.clarify_question is Some,
        answer.clarify_question matches Some(text) ==> answer@.clarify_question == Some(text@),
        answer@.clarify_answer is Some == answer.clarify_answer is Some,
        answer.clarify_answer matches Some(text) ==> answer@.clarify_answer == Some(text@),
        answer@.final_answer is Some == answer.final_answer is Some,
        answer.final_answer matches Some(text) ==> answer@.final_answer == Some(text@),
{
}

/// What a checkpoint, a fixture or a set of options says, is all that it holds.
pub proof fn settings_say_what_they_hold(checkpoint: ClarifyCheckpoint, fixture: ModelFixture, opts: RunOptions)
    ensures
        checkpoint@.question == checkpoint.question@,
        checkpoint@.model == checkpoint.model@,
        checkpoint@.clarify_question == checkpoint.clarify_question@,
        checkpoint@.completed_steps.len() == checkpoint.completed_steps@.len(),
        forall|i: int|
            0 <= i < checkpoint.completed_steps@.len() ==> #[trigger] checkpoint@.completed_steps[i]
                == checkpoint.completed_steps@[i]@,
        checkpoint@.pending_pillars.len() == checkpoint.pending_pillars@.len(),
        forall|i: int|
            0 <= i < checkpoint.pending_pillars@.len() ==> #[trigger] checkpoint@.pending_pillars[i]
                == checkpoint.pending_pillars@[i]@,
        fixture@.model == fixture.model@,
        fixture@.multi_engine == fixture.multi_engine,
        fixture@.engine_count == fixture.engine_count,
        opts@.mock == opts.mock,
        opts@.clarify_answer is Some == opts.clarify_answer is Some,
        opts.clarify_answer matches Some(text) ==> opts@.clarify_answer == Some(text@),
        opts@.mock_confidence == opts.mock_confidence,
{
}

/// What a call, or what became of one, says, is all that it holds.
pub proof fn calls_say_what_they_hold(call: ToolCall, handling: Handling, execution: Execution)
    ensures
        call@.tool == call.tool@,
        call@.question == call.question@,
        call@.model == call.model@,
        call@.mock == call.mock,
        call@.answer is Some == call.answer is Some,
        call.answer matches Some(text) ==> call@.answer == Some(text@),
        handling matches Handling::Reply(json) ==> handling@ == HandlingView::Reply(json.tree()),
        handling matches Handling::Invoke(run) ==> handling@ == HandlingView::Invoke(run@),
        execution matches Execution::Answered(answer) ==> execution@ == ExecutionView::Answered(answer@),
        execution matches Execution::Invoke(run) ==> execution@ == ExecutionView::Invoke(run@),
{
}

} // verus!
