//! Plans, answers, checkpoints and fixtures as JSON documents.

use vstd::prelude::*;

use crate::fixtures::{FixtureView, ModelFixture};
use crate::json::{items_tree, members_tree, no_items, no_members, put, put_item, put_text, Json, JsonNumber, JsonTree};
use crate::planner::{steps_view, Plan, PlanStep, PlanView, StepView};
use crate::runner::{
    results_view, text_of, Answer, AnswerView, CheckpointView, ClarifyCheckpoint, ResultView, StepResult, Verdict,
};

verus! {

/// How a verdict is written.
pub open spec fn verdict_name(verdict: Verdict) -> Seq<char> {
    match verdict {
        Verdict::Okay => "ok"@,
        Verdict::ClarifyNeeded => "clarify_needed"@,
        Verdict::Skipped => "skipped"@,
        Verdict::Blocked => "blocked"@,
        Verdict::Failed => "failed"@,
    }
}

/// How a planned step is written.
pub open spec fn step_tree(step: StepView) -> JsonTree {
    JsonTree::Object(
        seq![
            ("pillar"@, JsonTree::Str(step.pillar)),
            ("tool"@, JsonTree::Str(step.tool)),
            ("reason"@, JsonTree::Str(step.reason)),
        ],
    )
}

/// How a list of planned steps is written.
pub open spec fn steps_tree(steps: Seq<StepView>) -> JsonTree {
    JsonTree::Array(steps.map_values(|step: StepView| step_tree(step)))
}

/// How a plan is written.
pub open spec fn plan_tree(plan: PlanView) -> JsonTree {
    JsonTree::Object(
        seq![
            ("question"@, JsonTree::Str(plan.question)),
            ("model"@, JsonTree::Str(plan.model)),
            ("planner"@, JsonTree::Str(plan.planner)),
            ("steps"@, steps_tree(plan.steps)),
        ],
    )
}

/// How a step's result is written.
pub open spec fn result_tree(result: ResultView) -> JsonTree {
    JsonTree::Object(
        seq![
            ("pillar"@, JsonTree::Str(result.pillar)),
            ("tool"@, JsonTree::Str(result.tool)),
            ("verdict"@, JsonTree::Str(verdict_name(result.verdict))),
            ("output"@, result.output),
            ("ms"@, JsonTree::Number(JsonNumber::PosInt(result.ms))),
        ],
    )
}

/// How a list of results is written.
pub open spec fn results_tree(results: Seq<ResultView>) -> JsonTree {
    JsonTree::Array(results.map_values(|result: ResultView| result_tree(result)))
}

/// A member that is left out where there is nothing to write.
pub open spec fn optional_member(key: Seq<char>, text: Option<Seq<char>>) -> Seq<(Seq<char>, JsonTree)> {
    match text {
        Some(text) => seq![(key, JsonTree::Str(text))],
        None => Seq::empty(),
    }
}

/// How an answer is written.
pub open spec fn answer_tree(answer: AnswerView) -> JsonTree {
    JsonTree::Object(
        seq![
            ("question"@, JsonTree::Str(answer.question)),
            ("model"@, JsonTree::Str(answer.model)),
            ("plan"@, steps_tree(answer.plan)),
            ("step_results"@, results_tree(answer.step_results)),
            ("clarify_needed"@, JsonTree::Bool(answer.clarify_needed)),
        ] + optional_member("clarify_question"@, answer.clarify_question) + optional_member(
            "clarify_answer"@,
            answer.clarify_answer,
        ) + optional_member("final_answer"@, answer.final_answer),
    )
}

/// How a checkpoint is written.
pub open spec fn checkpoint_tree(checkpoint: CheckpointView) -> JsonTree {
    JsonTree::Object(
        seq![
            ("question"@, JsonTree::Str(checkpoint.question)),
            ("model"@, JsonTree::Str(checkpoint.model)),
            ("clarify_question"@, JsonTree::Str(checkpoint.clarify_question)),
            ("completed_steps"@, results_tree(checkpoint.completed_steps)),
            ("pending_pillars"@, steps_tree(checkpoint.pending_pillars)),
        ],
    )
}

/// How a model's fixture is written.
pub open spec fn fixture_tree(fixture: FixtureView) -> JsonTree {
    JsonTree::Object(
        seq![
            ("model"@, JsonTree::Str(fixture.model)),
            ("multi_engine"@, JsonTree::Bool(fixture.multi_engine)),
            ("engine_count"@, JsonTree::Number(JsonNumber::PosInt(fixture.engine_count as u64))),
        ],
    )
}

impl Verdict {
    /// How the verdict is written.
    pub fn name(self) -> (name: &'static str)
        ensures
            name@ == verdict_name(self),
    {
        match self {
            Verdict::Okay => "ok",
            Verdict::ClarifyNeeded => "clarify_needed",
            Verdict::Skipped => "skipped",
            Verdict::Blocked => "blocked",
            Verdict::Failed => "failed",
        }
    }
}

impl PlanStep {
    /// The step as a JSON document.
    pub fn to_json(&self) -> (json: Json)
        ensures
            json.tree() == step_tree(self@),
    {
        let mut members = no_members();
        put_text(&mut members, "pillar", self.pillar.as_str());
        put_text(&mut members, "tool", self.tool.as_str());
        put_text(&mut members, "reason", self.reason.as_str());
        assert(members_tree(members@) =~= step_tree(self@)->Object_0);
        Json::object(members)
    }
}

fn steps_json(steps: &Vec<PlanStep>) -> (json: Json)
    ensures
        json.tree() == steps_tree(steps_view(steps@)),
{
    let mut items = no_items();
    let mut i: usize = 0;
    while i < steps.len()
        invariant
            i <= steps@.len(),
            items_tree(items@).len() == i,
            forall|j: int| 0 <= j < i ==> #[trigger] items_tree(items@)[j] == step_tree(steps@[j]@),
        decreases steps@.len() - i,
    {
        put_item(&mut items, steps[i].to_json());
        i += 1;
    }
    assert(items_tree(items@) =~= steps_tree(steps_view(steps@))->Array_0);
    Json::array(items)
}

impl Plan {
    /// The plan as a JSON document.
    pub fn to_json(&self) -> (json: Json)
        ensures
            json.tree() == plan_tree(self@),
    {
        let mut members = no_members();
        put_text(&mut members, "question", self.question.as_str());
        put_text(&mut members, "model", self.model.as_str());
        put_text(&mut members, "planner", self.planner.as_str());
        put(&mut members, "steps", steps_json(&self.steps));
        assert(members_tree(members@) =~= plan_tree(self@)->Object_0);
        Json::object(members)
    }
}

impl StepResult {
    /// The result as a JSON document.
    pub fn to_json(&self) -> (json: Json)
        ensures
            json.tree() == result_tree(self@),
    {
        let mut members = no_members();
        put_text(&mut members, "pillar", self.pillar.as_str());
        put_text(&mut members, "tool", self.tool.as_str());
        put_text(&mut members, "verdict", self.verdict.name());
        put(&mut members, "output", self.output.clone());
        put(&mut members, "ms", Json::Number(JsonNumber::PosInt(self.ms)));
        assert(members_tree(members@) =~= result_tree(self@)->Object_0);
        Json::object(members)
    }
}

fn results_json(results: &Vec<StepResult>) -> (json: Json)
    ensures
        json.tree() == results_tree(results_view(results@)),
{
    let mut items = no_items();
    let mut i: usize = 0;
    while i < results.len()
        invariant
            i <= results@.len(),
            items_tree(items@).len() == i,
            forall|j: int| 0 <= j < i ==> #[trigger] items_tree(items@)[j] == result_tree(results@[j]@),
        decreases results@.len() - i,
    {
        put_item(&mut items, results[i].to_json());
        i += 1;
    }
    assert(items_tree(items@) =~= results_tree(results_view(results@))->Array_0);
    Json::array(items)
}

fn put_optional(members: &mut Vec<(String, Json)>, key: &str, text: &Option<String>)
    ensures
        members_tree(final(members)@) == members_tree(old(members)@) + optional_member(key@, text_of(*text)),
{
    match text {
        Some(text) => put_text(members, key, text.as_str()),
        None => {},
    }
    assert(members_tree(members@) =~= members_tree(old(members)@) + optional_member(key@, text_of(*text)));
}

impl Answer {
    /// The answer as a JSON document.
    pub fn to_json(&self) -> (json: Json)
        ensures
            json.tree() == answer_tree(self@),
    {
        let mut members = no_members();
        put_text(&mut members, "question", self.question.as_str());
        put_text(&mut members, "model", self.model.as_str());
        put(&mut members, "plan", steps_json(&self.plan));
        put(&mut members, "step_results", results_json(&self.step_results));
        put(&mut members, "clarify_needed", Json::Bool(self.clarify_needed));
        let ghost head = members_tree(members@);
        assert(head =~= seq![
            ("question"@, JsonTree::Str(self@.question)),
            ("model"@, JsonTree::Str(self@.model)),
            ("plan"@, steps_tree(self@.plan)),
            ("step_results"@, results_tree(self@.step_results)),
            ("clarify_needed"@, JsonTree::Bool(self@.clarify_needed)),
        ]);
        put_optional(&mut members, "clarify_question", &self.clarify_question);
        put_optional(&mut members, "clarify_answer", &self.clarify_answer);
        put_optional(&mut members, "final_answer", &self.final_answer);
        Json::object(members)
    }
}

impl ClarifyCheckpoint {
    /// The checkpoint as a JSON document.
    pub fn to_json(&self) -> (json: Json)
        ensures
            json.tree() == checkpoint_tree(self@),
    {
        let mut members = no_members();
        put_text(&mut members, "question", self.question.as_str());
        put_text(&mut members, "model", self.model.as_str());
        put_text(&mut members, "clarify_question", self.clarify_question.as_str());
        put(&mut members, "completed_steps", results_json(&self.completed_steps));
        put(&mut members, "pending_pillars", steps_json(&self.pending_pillars));
        assert(members_tree(members@) =~= checkpoint_tree(self@)->Object_0);
        Json::object(members)
    }
}

impl ModelFixture {
    /// The fixture as a JSON document.
    pub fn to_json(&self) -> (json: Json)
        ensures
            json.tree() == fixture_tree(self@),
    {
        let mut members = no_members();
        put_text(&mut members, "model", self.model.as_str());
        put(&mut members, "multi_engine", Json::Bool(self.multi_engine));
        put(&mut members, "engine_count", Json::Number(JsonNumber::PosInt(self.engine_count as u64)));
        assert(members_tree(members@) =~= fixture_tree(self@)->Object_0);
        Json::object(members)
    }
}

} // verus!
