//! What holds of every tool call.

use vstd::prelude::*;

use crate::json::{member, JsonTree};
use crate::laws::planning::{bundled_multi_engine_model, plan_has_fixed_ends};
use crate::laws::reading::{lemma_member_at, names_of};
use crate::laws::running::{mocked_run_never_waits, settled_run_ends_or_waits, settling_keeps_to_plan};
use crate::laws::writing::{answer_is_read_back, plan_is_read_back, step_is_read_back};
use crate::planner::{planned_steps, PlanView};
use crate::runner::{started, AnswerView, ExecutionView, OptionsView, RunView};
use crate::serve::{
    asked, call_in, call_options, call_plan, handled, reply_tree, unknown_tool_tree, CallView, HandlingView,
};
use crate::text::{contains_text, occurs_at};
use crate::wire::{answer_tree, plan_tree, steps_tree};

verus! {

/// What can be read from a reply.
proof fn lemma_reply(tool: Seq<char>, result: JsonTree)
    ensures
        reply_tree(tool, result).get("tool"@) == Some(JsonTree::Str(tool)),
        reply_tree(tool, result).get_str("tool"@) == Some(tool),
        reply_tree(tool, result).get("result"@) == Some(result),
{
    reveal_strlit("tool");
    reveal_strlit("result");
    assert("tool"@.len() == 4 && "result"@.len() == 6);
    reveal_with_fuel(member, 3);
    let members = reply_tree(tool, result)->Object_0;
    assert(members.drop_first()[0] == members[1]);
}

proof fn lemma_tools_differ()
    ensures
        "ask"@ != "plan"@,
{
    reveal_strlit("ask");
    reveal_strlit("plan");
    assert("ask"@.len() == 3 && "plan"@.len() == 4);
}

/// Every reply names the tool that was called, and has a result.
pub proof fn reply_names_the_tool(call: CallView, lower: Seq<char>)
    requires
        handled(call, lower) is Reply,
    ensures
        handled(call, lower)->Reply_0.get_str("tool"@) == Some(call.tool),
        handled(call, lower)->Reply_0.get("result"@) is Some,
{
    lemma_tools_differ();
    if call.tool == "plan"@ {
        lemma_reply(call.tool, plan_tree(call_plan(call, lower)));
    } else if call.tool == "ask"@ {
        let execution = started(call_plan(call, lower), call_options(call)).settled().progress();
        lemma_reply("ask"@, answer_tree(execution->Answered_0));
    } else {
        lemma_reply(call.tool, unknown_tool_tree(call.tool));
    }
}

/// Nothing but an `ask` call that is not mocked wants a binary; every other call is replied
/// to at once.
pub proof fn only_live_asks_wait(call: CallView, lower: Seq<char>)
    requires
        handled(call, lower) is Invoke,
    ensures
        call.tool == "ask"@,
        !call.mock,
{
    if call.mock {
        mocked_run_never_waits(started(call_plan(call, lower), call_options(call)));
    }
}

/// A `plan` call is replied to with the plan, which has steps.
pub proof fn plan_call_returns_the_plan(call: CallView, lower: Seq<char>)
    requires
        call.tool == "plan"@,
    ensures
        handled(call, lower) is Reply,
        handled(call, lower)->Reply_0.get("result"@) == Some(plan_tree(call_plan(call, lower))),
        call_plan(call, lower).steps.len() >= 5,
{
    let plan = call_plan(call, lower);
    lemma_reply(call.tool, plan_tree(plan));
    plan_has_fixed_ends(lower, plan.model, true);
    plan_has_fixed_ends(lower, plan.model, false);
}

/// An unknown tool is replied to with an error that quotes it.
pub proof fn unknown_tool_returns_an_error(call: CallView, lower: Seq<char>)
    requires
        call.tool != "plan"@,
        call.tool != "ask"@,
    ensures
        handled(call, lower) is Reply,
        ({
            let result = handled(call, lower)->Reply_0.get("result"@)->Some_0;
            &&& result.get_str("error"@) is Some
            &&& contains_text(result.get_str("error"@)->Some_0, call.tool)
        }),
{
    let result = unknown_tool_tree(call.tool);
    lemma_reply(call.tool, result);
    let error = "unknown tool '"@ + call.tool + "'; supported: ask, plan"@;
    assert(result.get_str("error"@) == Some(error));
    let at = "unknown tool '"@.len();
    assert(error.subrange(at as int, (at + call.tool.len()) as int) =~= call.tool);
    assert(occurs_at(error, call.tool, at as int));
}

/// A document that is no object, or an empty one, is a call of no known tool.
pub proof fn empty_call_is_of_no_known_tool(document: JsonTree)
    requires
        document !is Object || document->Object_0.len() == 0,
    ensures
        call_in(document).tool == "unknown"@,
        call_in(document).tool != "plan"@,
        call_in(document).tool != "ask"@,
{
    reveal_strlit("unknown");
    reveal_strlit("ask");
    reveal_strlit("plan");
    assert("unknown"@.len() == 7 && "ask"@.len() == 3 && "plan"@.len() == 4);
}

/// A call says what its document says: the tool, the question and the model, the answer, and
/// whether it is mocked. A member that is missing, or of another kind, counts as not said: then
/// the tool is unknown, the question empty, the model the default one, there is no answer, and
/// nothing is mocked.
pub proof fn call_is_read_from_document(document: JsonTree)
    ensures
        ({
            let call = call_in(document);
            &&& forall|text: Seq<char>| document.get("tool"@) == Some(JsonTree::Str(text)) ==> call.tool == text
            &&& document.get_str("tool"@) is None ==> call.tool == "unknown"@
            &&& forall|text: Seq<char>| document.get("question"@) == Some(JsonTree::Str(text)) ==> call.question == text
            &&& document.get_str("question"@) is None ==> call.question.len() == 0
            &&& forall|text: Seq<char>| document.get("model"@) == Some(JsonTree::Str(text)) ==> call.model == text
            &&& document.get_str("model"@) is None ==> call.model == "__default__"@
            &&& forall|text: Seq<char>| document.get("answer"@) == Some(JsonTree::Str(text)) ==> call.answer == Some(text)
            &&& document.get_str("answer"@) is None ==> call.answer is None
            &&& call.mock <==> document.get("mock"@) == Some(JsonTree::Bool(true))
        }),
{
    reveal_strlit("");
}

/// A `plan` call is replied to with a plan for the question and the model of the call: both
/// are read from the result as they stand in the call, and so is each of the steps that the
/// question and the model need.
pub proof fn plan_call_is_for_its_question_and_model(call: CallView, lower: Seq<char>, i: int)
    requires
        call.tool == "plan"@,
    ensures
        handled(call, lower) is Reply,
        ({
            let reply = handled(call, lower)->Reply_0;
            let result = reply.get("result"@)->Some_0;
            let steps = planned_steps(lower, call.model, call.model == "internet_sales"@);
            let written = result.get("steps"@);
            &&& reply.get("tool"@) == Some(JsonTree::Str("plan"@))
            &&& reply.get("result"@) is Some
            &&& result.get("question"@) == Some(JsonTree::Str(call.question))
            &&& result.get("model"@) == Some(JsonTree::Str(call.model))
            &&& result.get("planner"@) == Some(JsonTree::Str("deterministic"@))
            &&& written matches Some(JsonTree::Array(_))
            &&& (written->Some_0)->Array_0.len() == steps.len()
            &&& 0 <= i < steps.len() ==> {
                &&& (written->Some_0)->Array_0[i].get_str("pillar"@) == Some(steps[i].pillar)
                &&& (written->Some_0)->Array_0[i].get_str("tool"@) == Some(steps[i].tool)
                &&& (written->Some_0)->Array_0[i].get_str("reason"@) == Some(steps[i].reason)
            }
        }),
{
    bundled_multi_engine_model(call.model);
    let plan = call_plan(call, lower);
    lemma_reply(call.tool, plan_tree(plan));
    plan_is_read_back(plan);
    if 0 <= i < plan.steps.len() {
        step_is_read_back(plan.steps[i]);
    }
}

/// An `ask` call runs the plan for its question and its model, with its own answer as the
/// clarification, mocked exactly where it says so, and with no score set. What the run hands
/// out is what becomes of the call.
pub proof fn ask_call_is_run_as_it_says(call: CallView, lower: Seq<char>)
    requires
        call.tool == "ask"@,
    ensures
        ({
            let plan = PlanView {
                question: call.question,
                model: call.model,
                planner: "deterministic"@,
                steps: planned_steps(lower, call.model, call.model == "internet_sales"@),
            };
            let opts = OptionsView { mock: call.mock, clarify_answer: call.answer, mock_confidence: None };
            let execution = started(plan, opts).settled().progress();
            &&& handled(call, lower) == asked(execution)
            &&& execution matches ExecutionView::Invoke(run) ==> handled(call, lower) == HandlingView::Invoke(run)
            &&& execution matches ExecutionView::Answered(answer) ==> handled(call, lower) is Reply && handled(
                call,
                lower,
            )->Reply_0.get("result"@) == Some(answer_tree(answer))
        }),
{
    lemma_tools_differ();
    bundled_multi_engine_model(call.model);
    let execution = started(call_plan(call, lower), call_options(call)).settled().progress();
    if execution is Answered {
        lemma_reply("ask"@, answer_tree(execution->Answered_0));
    }
}

/// A run that an `ask` call hands out is for the question and the model of the call, with its
/// answer, and is not mocked.
pub proof fn waiting_ask_is_for_its_question_and_model(call: CallView, lower: Seq<char>)
    requires
        handled(call, lower) is Invoke,
    ensures
        ({
            let run = handled(call, lower)->Invoke_0;
            &&& run.question == call.question
            &&& run.model == call.model
            &&& run.steps == planned_steps(lower, call.model, call.model == "internet_sales"@)
            &&& !run.opts.mock
            &&& run.opts.clarify_answer == call.answer
            &&& run.opts.mock_confidence is None
            &&& run.waiting()
        }),
{
    only_live_asks_wait(call, lower);
    bundled_multi_engine_model(call.model);
    let first = started(call_plan(call, lower), call_options(call));
    settling_keeps_to_plan(first);
    settled_run_ends_or_waits(first);
}

/// An `ask` call that is replied to at once is replied to with an answer to the question and
/// on the model of the call, and with the plan for them.
pub proof fn ask_reply_is_for_its_question_and_model(call: CallView, lower: Seq<char>)
    requires
        call.tool == "ask"@,
        handled(call, lower) is Reply,
    ensures
        ({
            let result = handled(call, lower)->Reply_0.get("result"@)->Some_0;
            &&& handled(call, lower)->Reply_0.get("tool"@) == Some(JsonTree::Str("ask"@))
            &&& result.get("question"@) == Some(JsonTree::Str(call.question))
            &&& result.get("model"@) == Some(JsonTree::Str(call.model))
            &&& result.get("plan"@) == Some(
                steps_tree(planned_steps(lower, call.model, call.model == "internet_sales"@)),
            )
        }),
{
    lemma_tools_differ();
    bundled_multi_engine_model(call.model);
    let first = started(call_plan(call, lower), call_options(call));
    settling_keeps_to_plan(first);
    let answer = first.settled().answer();
    lemma_reply("ask"@, answer_tree(answer));
    answer_is_read_back(answer);
}

/// Going on with an `ask` call: an answer is replied with, under the name of the tool; a run
/// that waits is handed out as it is.
pub proof fn continued_ask_is_passed_on(answer: AnswerView, run: RunView)
    ensures
        asked(ExecutionView::Invoke(run)) == HandlingView::Invoke(run),
        asked(ExecutionView::Answered(answer)) is Reply,
        asked(ExecutionView::Answered(answer))->Reply_0.get("tool"@) == Some(JsonTree::Str("ask"@)),
        asked(ExecutionView::Answered(answer))->Reply_0.get("result"@) == Some(answer_tree(answer)),
{
    lemma_reply("ask"@, answer_tree(answer));
}

/// Every reply has a result and names its tool, and says nothing else.
pub proof fn reply_says_nothing_else(call: CallView, lower: Seq<char>, execution: ExecutionView)
    ensures
        handled(call, lower) is Reply ==> handled(call, lower)->Reply_0 is Object && names_of(
            handled(call, lower)->Reply_0,
        ) == seq!["result"@, "tool"@],
        asked(execution) is Reply ==> asked(execution)->Reply_0 is Object && names_of(asked(execution)->Reply_0) == seq![
            "result"@,
            "tool"@,
        ],
{
    if handled(call, lower) is Reply {
        assert(names_of(handled(call, lower)->Reply_0) =~= seq!["result"@, "tool"@]);
    }
    if asked(execution) is Reply {
        assert(names_of(asked(execution)->Reply_0) =~= seq!["result"@, "tool"@]);
    }
}

/// A call of any other tool is replied to with an error that says so, and nothing else,
/// whatever else the call says.
pub proof fn unknown_tool_is_named_in_the_error(call: CallView, lower: Seq<char>)
    requires
        call.tool != "plan"@,
        call.tool != "ask"@,
    ensures
        handled(call, lower) is Reply,
        ({
            let reply = handled(call, lower)->Reply_0;
            let result = reply.get("result"@)->Some_0;
            &&& reply.get("tool"@) == Some(JsonTree::Str(call.tool))
            &&& result is Object
            &&& names_of(result) == seq!["error"@]
            &&& result.get("error"@) == Some(
                JsonTree::Str("unknown tool '"@ + call.tool + "'; supported: ask, plan"@),
            )
        }),
{
    let result = unknown_tool_tree(call.tool);
    lemma_reply(call.tool, result);
    lemma_member_at(result->Object_0, 0);
    assert(names_of(result) =~= seq!["error"@]);
}

} // verus!
