//! The tool server: calls as lines of JSON, replies as JSON documents.

use vstd::prelude::*;
use vstd::utf8::is_ascii_chars;

use crate::document::{parse_text, parsed_text};
use crate::fixtures::{bundled_fixtures, on_multiple_engines, DEFAULT_MODEL};
use crate::json::{members_tree, no_members, put, put_text, Json, JsonTree};
use crate::planner::{build_plan_from, planned, PlanView, PlannerOptions, PlannerVariant};
use crate::runner::{execute_plan, started, text_of, Execution, ExecutionView, OptionsView, Run, RunOptions, RunView};
use crate::text::{ascii_lowercased, blank, is_blank, lowercased, same_text, to_lowercase};
use crate::wire::{answer_tree, plan_tree};

verus! {

/// A tool call.
#[derive(Debug)]
pub struct ToolCall {
    /// Which tool is called.
    pub tool: String,
    pub question: String,
    pub model: String,
    /// Use mock responses instead of real subprocess invocations.
    pub mock: bool,
    /// Optional disambiguation answer.
    pub answer: Option<String>,
}

/// What a tool call says.
#[verifier::ext_equal]
pub struct CallView {
    pub tool: Seq<char>,
    pub question: Seq<char>,
    pub model: Seq<char>,
    pub mock: bool,
    pub answer: Option<Seq<char>>,
}

impl View for ToolCall {
    type V = CallView;

    open spec fn view(&self) -> CallView {
        CallView {
            tool: self.tool@,
            question: self.question@,
            model: self.model@,
            mock: self.mock,
            answer: text_of(self.answer),
        }
    }
}

/// Why a line is no call.
#[derive(Debug)]
pub enum CallError {
    /// The line is no JSON document.
    Malformed(serde_json::Error),
}

/// The text, or another where there is none.
pub open spec fn text_or(text: Option<Seq<char>>, other: Seq<char>) -> Seq<char> {
    match text {
        Some(text) => text,
        None => other,
    }
}

/// The call that a document stands for. What it does not say is filled in.
pub open spec fn call_in(document: JsonTree) -> CallView {
    CallView {
        tool: text_or(document.get_str("tool"@), "unknown"@),
        question: text_or(document.get_str("question"@), ""@),
        model: text_or(document.get_str("model"@), DEFAULT_MODEL@),
        mock: document.get_bool("mock"@) == Some(true),
        answer: document.get_str("answer"@),
    }
}

/// The plan for a call, given its question in lower case.
pub open spec fn call_plan(call: CallView, lower: Seq<char>) -> PlanView {
    planned(
        call.question,
        lower,
        call.model,
        PlannerVariant::Deterministic,
        on_multiple_engines(call.model, bundled_fixtures()),
    )
}

/// The options with which an `ask` call is run.
pub open spec fn call_options(call: CallView) -> OptionsView {
    OptionsView { mock: call.mock, clarify_answer: call.answer, mock_confidence: None }
}

/// The document that reports a tool that there is not.
pub open spec fn unknown_tool_tree(tool: Seq<char>) -> JsonTree {
    JsonTree::Object(
        seq![("error"@, JsonTree::Str("unknown tool '"@ + tool + "'; supported: ask, plan"@))],
    )
}

/// A reply.
pub open spec fn reply_tree(tool: Seq<char>, result: JsonTree) -> JsonTree {
    JsonTree::Object(seq![("result"@, result), ("tool"@, JsonTree::Str(tool))])
}

/// What becomes of a call: a reply, or a run that waits for a binary.
#[derive(Debug)]
pub enum Handling {
    Reply(Json),
    Invoke(Run),
}

/// What a handled call says.
#[verifier::ext_equal]
pub enum HandlingView {
    Reply(JsonTree),
    Invoke(RunView),
}

impl View for Handling {
    type V = HandlingView;

    open spec fn view(&self) -> HandlingView {
        match self {
            Handling::Reply(json) => HandlingView::Reply(json.tree()),
            Handling::Invoke(run) => HandlingView::Invoke(run@),
        }
    }
}

/// What becomes of an `ask` call whose run has got so far.
pub open spec fn asked(execution: ExecutionView) -> HandlingView {
    match execution {
        ExecutionView::Answered(answer) => HandlingView::Reply(reply_tree("ask"@, answer_tree(answer))),
        ExecutionView::Invoke(run) => HandlingView::Invoke(run),
    }
}

/// What becomes of a call, given its question in lower case.
pub open spec fn handled(call: CallView, lower: Seq<char>) -> HandlingView {
    if call.tool == "plan"@ {
        HandlingView::Reply(reply_tree(call.tool, plan_tree(call_plan(call, lower))))
    } else if call.tool == "ask"@ {
        asked(started(call_plan(call, lower), call_options(call)).settled().progress())
    } else {
        HandlingView::Reply(reply_tree(call.tool, unknown_tool_tree(call.tool)))
    }
}

fn text_member(document: &Json, key: &str, other: &str) -> (text: String)
    ensures
        text@ == text_or(document.tree().get_str(key@), other@),
{
    match document.get_str(key) {
        Some(text) => text.to_string(),
        None => other.to_string(),
    }
}

/// The call that a document stands for.
pub fn read_call(document: &Json) -> (call: ToolCall)
    ensures
        call@ == call_in(document.tree()),
{
    ToolCall {
        tool: text_member(document, "tool", "unknown"),
        question: text_member(document, "question", ""),
        model: text_member(document, "model", DEFAULT_MODEL),
        mock: match document.get_bool("mock") {
            Some(mock) => mock,
            None => false,
        },
        answer: match document.get_str("answer") {
            Some(text) => Some(text.to_string()),
            None => None,
        },
    }
}

/// The call on a line of input; none where the line is blank.
pub fn read_line(line: &str) -> (call: Result<Option<ToolCall>, CallError>)
    ensures
        match call {
            Ok(None) => is_blank(line@),
            Ok(Some(call)) => !is_blank(line@) && parsed_text(line@) is Some && call@ == call_in(
                parsed_text(line@)->Some_0,
            ),
            Err(_) => !is_blank(line@) && parsed_text(line@) is None,
        },
{
    if blank(line) {
        return Ok(None);
    }
    match parse_text(line) {
        Ok(document) => Ok(Some(read_call(&document))),
        Err(error) => Err(CallError::Malformed(error)),
    }
}

/// A reply.
fn reply(tool: &str, result: Json) -> (json: Json)
    ensures
        json.tree() == reply_tree(tool@, result.tree()),
{
    let mut members = no_members();
    put(&mut members, "result", result);
    put_text(&mut members, "tool", tool);
    assert(members_tree(members@) =~= reply_tree(tool@, result.tree())->Object_0);
    Json::object(members)
}

/// The document that reports a tool that there is not.
fn unknown_tool(tool: &str) -> (json: Json)
    ensures
        json.tree() == unknown_tool_tree(tool@),
{
    let mut error = "unknown tool '".to_string();
    error.append(tool);
    error.append("'; supported: ask, plan");
    let mut members = no_members();
    put_text(&mut members, "error", error.as_str());
    assert(members_tree(members@) =~= unknown_tool_tree(tool@)->Object_0);
    Json::object(members)
}

/// Go on with an `ask` call whose run has got so far.
pub fn continue_ask(execution: Execution) -> (handling: Handling)
    ensures
        handling@ == asked(execution@),
{
    match execution {
        Execution::Answered(answer) => Handling::Reply(reply("ask", answer.to_json())),
        Execution::Invoke(run) => Handling::Invoke(run),
    }
}

/// Handles a call, given its question in lower case.
pub fn handle_call_from(call: &ToolCall, lower: &str) -> (handling: Handling)
    ensures
        handling@ == handled(call@, lower@),
{
    let opts = PlannerOptions::default();
    if same_text(&call.tool, "plan") {
        let plan = build_plan_from(call.question.as_str(), lower, call.model.as_str(), &opts);
        Handling::Reply(reply(call.tool.as_str(), plan.to_json()))
    } else if same_text(&call.tool, "ask") {
        let plan = build_plan_from(call.question.as_str(), lower, call.model.as_str(), &opts);
        let run_opts = RunOptions {
            mock: call.mock,
            clarify_answer: match &call.answer {
                Some(text) => Some(text.clone()),
                None => None,
            },
            mock_confidence: None,
        };
        continue_ask(execute_plan(&plan, &run_opts))
    } else {
        Handling::Reply(reply(call.tool.as_str(), unknown_tool(call.tool.as_str())))
    }
}

/// Handles a call.
pub fn handle_call(call: &ToolCall) -> (handling: Handling)
    ensures
        handling@ == handled(call@, lowercased(call.question@)),
        handling@ == handled(call@, lowercased(ascii_lowercased(call.question@))),
        is_ascii_chars(call.question@) ==> handling@ == handled(call@, ascii_lowercased(call.question@)),
{
    let lower = to_lowercase(call.question.as_str());
    handle_call_from(call, lower.as_str())
}

} // verus!
