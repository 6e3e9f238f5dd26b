//! The runner: the steps of a plan, one after the other, up to the answer.
//!
//! A run alternates between decisions, which are made here, and the invocation of pillar
//! binaries, which is not. `execute_plan` goes as far as it can without a binary; where one
//! is wanted, it hands out a `Run`, and `resume` goes on from there with what the binary
//! reported.

use vstd::prelude::*;

use crate::confidence::{at_least, shown, Confidence, FULL_CONFIDENCE, LOW_CONF_THRESHOLD};
use crate::json::{members_tree, no_members, put_text, Json, JsonTree};
use crate::mock::{mock_response, mock_tree};
use crate::planner::{copy_steps, steps_view, Plan, PlanStep, PlanView, StepView};
use crate::text::same_text;

verus! {

/// Verdict from one executed pillar step.
#[derive(Debug, Clone, Copy, PartialEq, Eq, Structural)]
pub enum Verdict {
    /// The step ran; written `ok`.
    Okay,
    ClarifyNeeded,
    Skipped,
    Blocked,
    Failed,
}

/// Per-step result in an answer.
#[derive(Debug)]
pub struct StepResult {
    pub pillar: String,
    pub tool: String,
    pub verdict: Verdict,
    /// The raw output from the subprocess (or mock).
    pub output: Json,
    /// Wall-clock milliseconds (excluded from determinism checks).
    pub ms: u64,
}

/// What a step's result says.
#[verifier::ext_equal]
pub struct ResultView {
    pub pillar: Seq<char>,
    pub tool: Seq<char>,
    pub verdict: Verdict,
    pub output: JsonTree,
    pub ms: u64,
}

impl View for StepResult {
    type V = ResultView;

    open spec fn view(&self) -> ResultView {
        ResultView {
            pillar: self.pillar@,
            tool: self.tool@,
            verdict: self.verdict,
            output: self.output.tree(),
            ms: self.ms,
        }
    }
}

impl Clone for StepResult {
    fn clone(&self) -> (copy: Self)
        ensures
            copy@ == self@,
    {
        StepResult {
            pillar: self.pillar.clone(),
            tool: self.tool.clone(),
            verdict: self.verdict,
            output: self.output.clone(),
            ms: self.ms,
        }
    }
}

/// What a list of results says.
pub open spec fn results_view(results: Seq<StepResult>) -> Seq<ResultView> {
    results.map_values(|result: StepResult| result@)
}

/// State checkpointed between a clarify pause and resume.
#[derive(Debug)]
pub struct ClarifyCheckpoint {
    pub question: String,
    pub model: String,
    pub clarify_question: String,
    /// Steps already completed before clarify halted.
    pub completed_steps: Vec<StepResult>,
    /// Steps remaining after clarify (post-resume plan).
    pub pending_pillars: Vec<PlanStep>,
}

/// What a checkpoint says.
#[verifier::ext_equal]
pub struct CheckpointView {
    pub question: Seq<char>,
    pub model: Seq<char>,
    pub clarify_question: Seq<char>,
    pub completed_steps: Seq<ResultView>,
    pub pending_pillars: Seq<StepView>,
}

impl View for ClarifyCheckpoint {
    type V = CheckpointView;

    open spec fn view(&self) -> CheckpointView {
        CheckpointView {
            question: self.question@,
            model: self.model@,
            clarify_question: self.clarify_question@,
            completed_steps: results_view(self.completed_steps@),
            pending_pillars: steps_view(self.pending_pillars@),
        }
    }
}

impl Clone for ClarifyCheckpoint {
    fn clone(&self) -> (copy: Self)
        ensures
            copy@ == self@,
    {
        ClarifyCheckpoint {
            question: self.question.clone(),
            model: self.model.clone(),
            clarify_question: self.clarify_question.clone(),
            completed_steps: copy_results(&self.completed_steps),
            pending_pillars: copy_steps(&self.pending_pillars),
        }
    }
}

/// The same results once more.
fn copy_results(results: &Vec<StepResult>) -> (copies: Vec<StepResult>)
    ensures
        results_view(copies@) == results_view(results@),
{
    let mut copies: Vec<StepResult> = Vec::new();
    let mut i: usize = 0;
    while i < results.len()
        invariant
            i <= results@.len(),
            copies@.len() == i,
            forall|j: int| 0 <= j < i ==> (#[trigger] copies@[j])@ == results@[j]@,
        decreases results@.len() - i,
    {
        copies.push(results[i].clone());
        i += 1;
    }
    assert(results_view(copies@) =~= results_view(results@));
    copies
}

/// The text of an optional string.
pub open spec fn text_of(text: Option<String>) -> Option<Seq<char>> {
    match text {
        Some(text) => Some(text@),
        None => None,
    }
}

fn copy_text(text: &Option<String>) -> (copy: Option<String>)
    ensures
        text_of(copy) == text_of(*text),
{
    match text {
        Some(text) => Some(text.clone()),
        None => None,
    }
}

/// The final output of an `ask` run.
#[derive(Debug)]
pub struct Answer {
    pub question: String,
    pub model: String,
    /// The plan that was executed.
    pub plan: Vec<PlanStep>,
    /// Results for each executed step.
    pub step_results: Vec<StepResult>,
    /// Whether a clarify round was needed.
    pub clarify_needed: bool,
    /// The clarify question emitted (if any).
    pub clarify_question: Option<String>,
    /// The user's disambiguation answer (if provided).
    pub clarify_answer: Option<String>,
    /// The final signed answer text (or None when clarify_needed and no answer given).
    pub final_answer: Option<String>,
}

/// What an answer says.
#[verifier::ext_equal]
pub struct AnswerView {
    pub question: Seq<char>,
    pub model: Seq<char>,
    pub plan: Seq<StepView>,
    pub step_results: Seq<ResultView>,
    pub clarify_needed: bool,
    pub clarify_question: Option<Seq<char>>,
    pub clarify_answer: Option<Seq<char>>,
    pub final_answer: Option<Seq<char>>,
}

impl View for Answer {
    type V = AnswerView;

    open spec fn view(&self) -> AnswerView {
        AnswerView {
            question: self.question@,
            model: self.model@,
            plan: steps_view(self.plan@),
            step_results: results_view(self.step_results@),
            clarify_needed: self.clarify_needed,
            clarify_question: text_of(self.clarify_question),
            clarify_answer: text_of(self.clarify_answer),
            final_answer: text_of(self.final_answer),
        }
    }
}

impl Clone for Answer {
    fn clone(&self) -> (copy: Self)
        ensures
            copy@ == self@,
    {
        Answer {
            question: self.question.clone(),
            model: self.model.clone(),
            plan: copy_steps(&self.plan),
            step_results: copy_results(&self.step_results),
            clarify_needed: self.clarify_needed,
            clarify_question: copy_text(&self.clarify_question),
            clarify_answer: copy_text(&self.clarify_answer),
            final_answer: copy_text(&self.final_answer),
        }
    }
}

/// Options for ask/run execution.
#[derive(Debug)]
pub struct RunOptions {
    /// Use mock responses instead of real subprocess invocations.
    pub mock: bool,
    /// Optional disambiguation answer (for --answer resume).
    pub clarify_answer: Option<String>,
    /// Optional confidence override for mock (for testing low-conf path).
    pub mock_confidence: Option<Confidence>,
}

/// What the options of a run say.
#[verifier::ext_equal]
pub struct OptionsView {
    pub mock: bool,
    pub clarify_answer: Option<Seq<char>>,
    pub mock_confidence: Option<Confidence>,
}

impl View for RunOptions {
    type V = OptionsView;

    open spec fn view(&self) -> OptionsView {
        OptionsView {
            mock: self.mock,
            clarify_answer: text_of(self.clarify_answer),
            mock_confidence: self.mock_confidence,
        }
    }
}

impl Clone for RunOptions {
    fn clone(&self) -> (copy: Self)
        ensures
            copy@ == self@,
    {
        RunOptions {
            mock: self.mock,
            clarify_answer: copy_text(&self.clarify_answer),
            mock_confidence: self.mock_confidence,
        }
    }
}

impl Default for RunOptions {
    fn default() -> (opts: Self)
        ensures
            opts@ == (OptionsView { mock: false, clarify_answer: None, mock_confidence: None }),
    {
        RunOptions { mock: false, clarify_answer: None, mock_confidence: None }
    }
}

/// How a run stands.
pub enum StageView {
    /// Going on.
    Running,
    /// Halted for clarification, with the question to ask, if there is one.
    Asked(Option<Seq<char>>),
    /// Stopped after a step that failed.
    Failed,
}

/// A run under way. Each step that was dealt with has left one result.
#[verifier::ext_equal]
pub struct RunView {
    pub question: Seq<char>,
    pub model: Seq<char>,
    pub steps: Seq<StepView>,
    pub opts: OptionsView,
    pub results: Seq<ResultView>,
    /// The bits of the binding confidence.
    pub confidence: u64,
    pub stage: StageView,
}

/// The answer of a run that found no better one.
pub const DEFAULT_ANSWER: &'static str = "Query plan executed successfully.";

/// A run that has done nothing yet.
pub open spec fn started(plan: PlanView, opts: OptionsView) -> RunView {
    RunView {
        question: plan.question,
        model: plan.model,
        steps: plan.steps,
        opts,
        results: Seq::empty(),
        confidence: FULL_CONFIDENCE,
        stage: StageView::Running,
    }
}

/// The verdict on a step that ran, from its output.
pub open spec fn verdict_on(pillar: Seq<char>, output: JsonTree) -> Verdict {
    if pillar == "clarify"@ && output.get_str("status"@) == Some("clarify_needed"@) {
        Verdict::ClarifyNeeded
    } else {
        Verdict::Okay
    }
}

/// The document that stands for a clarify step that was not needed.
pub open spec fn skipped_tree(reason: Seq<char>) -> JsonTree {
    JsonTree::Object(
        seq![
            ("pillar"@, JsonTree::Str("clarify"@)),
            ("reason"@, JsonTree::Str(reason)),
            ("status"@, JsonTree::Str("skipped"@)),
        ],
    )
}

/// Why a step need not be invoked, if so: a clarify step is passed over where the binding
/// confidence is not low, or the clarification has been given already.
pub open spec fn passed_over(pillar: Seq<char>, confidence: u64, answered: bool) -> Option<JsonTree> {
    if pillar != "clarify"@ {
        None
    } else if at_least(confidence, LOW_CONF_THRESHOLD) {
        Some(skipped_tree("confidence "@ + shown(confidence) + " >= threshold 0.45"@))
    } else if answered {
        Some(skipped_tree("disambiguation answer already provided via --answer"@))
    } else {
        None
    }
}

impl RunView {
    /// Nothing is left to do.
    pub open spec fn finished(self) -> bool {
        self.stage !is Running || self.results.len() >= self.steps.len()
    }

    /// The step that is next.
    pub open spec fn current(self) -> StepView {
        self.steps[self.results.len() as int]
    }

    /// Why the next step need not be invoked, if so.
    pub open spec fn passes_over(self) -> Option<JsonTree> {
        passed_over(self.current().pillar, self.confidence, self.opts.clarify_answer is Some)
    }

    /// The next step cannot be dealt with but by its binary.
    pub open spec fn waiting(self) -> bool {
        !self.finished() && self.passes_over() is None && !self.opts.mock
    }

    /// The run, with a result of the step that was next.
    pub open spec fn recorded(self, verdict: Verdict, output: JsonTree, ms: u64) -> RunView {
        let step = self.current();
        RunView {
            results: self.results.push(
                ResultView { pillar: step.pillar, tool: step.tool, verdict, output, ms },
            ),
            ..self
        }
    }

    /// The run, after the step that was next has been invoked: a clarify step halts it, a
    /// binding step sets the confidence that it reports, a failure stops it.
    pub open spec fn reported(self, verdict: Verdict, output: JsonTree, ms: u64) -> RunView {
        let pillar = self.current().pillar;
        let next = self.recorded(verdict, output, ms);
        if pillar == "clarify"@ {
            RunView { stage: StageView::Asked(output.get_str("clarify_question"@)), ..next }
        } else {
            RunView {
                confidence: match output.get_double("confidence"@) {
                    Some(bits) => if pillar == "binding-confidence"@ {
                        bits
                    } else {
                        self.confidence
                    },
                    None => self.confidence,
                },
                stage: if verdict == Verdict::Failed {
                    StageView::Failed
                } else {
                    StageView::Running
                },
                ..next
            }
        }
    }

    /// What the next step is answered in a mocked run.
    pub open spec fn mocked_output(self) -> JsonTree {
        let pillar = self.current().pillar;
        mock_tree(
            pillar,
            self.question,
            if pillar == "binding-confidence"@ {
                self.opts.mock_confidence
            } else {
                None
            },
        )
    }

    /// The run, after the next step has been dealt with without a binary.
    pub open spec fn stepped(self) -> RunView {
        match self.passes_over() {
            Some(output) => self.recorded(Verdict::Skipped, output, 0),
            None => {
                let output = self.mocked_output();
                self.reported(verdict_on(self.current().pillar, output), output, 0)
            },
        }
    }

    /// The run, gone on with as far as it goes without a binary.
    pub open spec fn settled(self) -> RunView
        decreases self.steps.len() - self.results.len(),
    {
        if self.finished() || self.waiting() {
            self
        } else {
            self.stepped().settled()
        }
    }

    /// The answer of a finished run.
    pub open spec fn answer(self) -> AnswerView {
        AnswerView {
            question: self.question,
            model: self.model,
            plan: self.steps,
            step_results: self.results,
            clarify_needed: self.stage is Asked,
            clarify_question: match self.stage {
                StageView::Asked(question) => question,
                _ => None,
            },
            clarify_answer: if self.stage is Asked {
                None
            } else {
                self.opts.clarify_answer
            },
            final_answer: if self.stage is Asked {
                None
            } else {
                Some(signed_answer(self.results))
            },
        }
    }

    /// What a run that has been settled hands out.
    pub open spec fn progress(self) -> ExecutionView {
        if self.finished() {
            ExecutionView::Answered(self.answer())
        } else {
            ExecutionView::Invoke(self)
        }
    }
}

/// The output of the first credential step.
pub open spec fn credential(results: Seq<ResultView>) -> Option<JsonTree>
    decreases results.len(),
{
    if results.len() == 0 {
        None
    } else if results[0].pillar == "rosetta-credential"@ {
        Some(results[0].output)
    } else {
        credential(results.drop_first())
    }
}

/// The answer that the credential step signed, or else the default one.
pub open spec fn signed_answer(results: Seq<ResultView>) -> Seq<char> {
    match credential(results) {
        Some(output) => match output.get_str("answer"@) {
            Some(text) => text,
            None => DEFAULT_ANSWER@,
        },
        None => DEFAULT_ANSWER@,
    }
}

/// How a run stands.
#[derive(Debug)]
enum Stage {
    Running,
    Asked(Option<String>),
    Failed,
}

impl View for Stage {
    type V = StageView;

    closed spec fn view(&self) -> StageView {
        match self {
            Stage::Running => StageView::Running,
            Stage::Asked(question) => StageView::Asked(text_of(*question)),
            Stage::Failed => StageView::Failed,
        }
    }
}

/// A run under way.
#[derive(Debug)]
struct State {
    question: String,
    model: String,
    steps: Vec<PlanStep>,
    opts: RunOptions,
    results: Vec<StepResult>,
    confidence: Confidence,
    stage: Stage,
}

impl View for State {
    type V = RunView;

    closed spec fn view(&self) -> RunView {
        RunView {
            question: self.question@,
            model: self.model@,
            steps: steps_view(self.steps@),
            opts: self.opts@,
            results: results_view(self.results@),
            confidence: self.confidence.bits,
            stage: self.stage@,
        }
    }
}

/// A run that waits for what a pillar binary reports.
#[derive(Debug)]
pub struct Run {
    state: State,
}

impl View for Run {
    type V = RunView;

    closed spec fn view(&self) -> RunView {
        self.state@
    }
}

/// What has become of a run: it has come to its answer, or it waits for a binary.
#[derive(Debug)]
pub enum Execution {
    Answered(Answer),
    Invoke(Run),
}

/// What an execution says.
#[verifier::ext_equal]
pub enum ExecutionView {
    Answered(AnswerView),
    Invoke(RunView),
}

impl View for Execution {
    type V = ExecutionView;

    open spec fn view(&self) -> ExecutionView {
        match self {
            Execution::Answered(answer) => ExecutionView::Answered(answer@),
            Execution::Invoke(run) => ExecutionView::Invoke(run@),
        }
    }
}

/// What a step's binary, or the mock, came to.
#[derive(Debug)]
pub struct StepReport {
    pub verdict: Verdict,
    pub output: Json,
}

/// Determines the verdict on a step that ran, from its output.
pub fn judge(pillar: &str, output: &Json) -> (verdict: Verdict)
    ensures
        verdict == verdict_on(pillar@, output.tree()),
{
    if same_text(&pillar.to_string(), "clarify") {
        match output.get_str("status") {
            Some(status) => if same_text(&status.to_string(), "clarify_needed") {
                Verdict::ClarifyNeeded
            } else {
                Verdict::Okay
            },
            None => Verdict::Okay,
        }
    } else {
        Verdict::Okay
    }
}

/// Extract binding confidence from a step result output.
pub fn extract_confidence(output: &Json) -> (score: Option<Confidence>)
    ensures
        match score {
            Some(score) => output.tree().get_double("confidence"@) == Some(score.bits),
            None => output.tree().get_double("confidence"@) is None,
        },
{
    output.get_double("confidence")
}

/// Extract clarify question from a clarify step output.
pub fn extract_clarify_question(output: &Json) -> (question: Option<String>)
    ensures
        text_of(question) == output.tree().get_str("clarify_question"@),
{
    match output.get_str("clarify_question") {
        Some(text) => Some(text.to_string()),
        None => None,
    }
}

/// The document that stands for a clarify step that was not needed.
fn skipped_output(reason: &str) -> (output: Json)
    ensures
        output.tree() == skipped_tree(reason@),
{
    let mut members = no_members();
    put_text(&mut members, "pillar", "clarify");
    put_text(&mut members, "reason", reason);
    put_text(&mut members, "status", "skipped");
    assert(members_tree(members@) =~= skipped_tree(reason@)->Object_0);
    Json::object(members)
}

/// Why a step need not be invoked, if so.
fn pass_over(pillar: &String, confidence: Confidence, answered: bool) -> (output: Option<Json>)
    ensures
        match output {
            Some(output) => passed_over(pillar@, confidence.bits, answered) == Some(output.tree()),
            None => passed_over(pillar@, confidence.bits, answered) is None,
        },
{
    if !same_text(pillar, "clarify") {
        None
    } else if confidence.is_at_least(Confidence { bits: LOW_CONF_THRESHOLD }) {
        let mut reason = "confidence ".to_string();
        let score = confidence.shown();
        reason.append(score.as_str());
        reason.append(" >= threshold 0.45");
        Some(skipped_output(reason.as_str()))
    } else if answered {
        Some(skipped_output("disambiguation answer already provided via --answer"))
    } else {
        None
    }
}

impl State {
    fn finished(&self) -> (yes: bool)
        ensures
            yes == self@.finished(),
    {
        match self.stage {
            Stage::Running => self.results.len() >= self.steps.len(),
            _ => true,
        }
    }

    fn record(&mut self, verdict: Verdict, output: Json, ms: u64)
        requires
            !old(self)@.finished(),
        ensures
            final(self)@ == old(self)@.recorded(verdict, output.tree(), ms),
    {
        let ghost before = self.results@;
        let step: &PlanStep = &self.steps[self.results.len()];
        let result = StepResult { pillar: step.pillar.clone(), tool: step.tool.clone(), verdict, output, ms };
        self.results.push(result);
        assert(results_view(self.results@) =~= results_view(before).push(result@));
        assert(self@ =~= old(self)@.recorded(verdict, output.tree(), ms));
    }

    fn report(&mut self, report: StepReport, ms: u64)
        requires
            !old(self)@.finished(),
        ensures
            final(self)@ == old(self)@.reported(report.verdict, report.output.tree(), ms),
    {
        let at: usize = self.results.len();
        let verdict = report.verdict;
        assert(self@.current() == self.steps@[at as int]@);
        if same_text(&self.steps[at].pillar, "clarify") {
            let question = extract_clarify_question(&report.output);
            self.record(verdict, report.output, ms);
            self.stage = Stage::Asked(question);
        } else {
            let score = if same_text(&self.steps[at].pillar, "binding-confidence") {
                extract_confidence(&report.output)
            } else {
                None
            };
            self.record(verdict, report.output, ms);
            match score {
                Some(score) => {
                    self.confidence = score;
                },
                None => {},
            }
            if verdict == Verdict::Failed {
                self.stage = Stage::Failed;
            }
        }
        assert(self@ =~= old(self)@.reported(verdict, report.output.tree(), ms));
    }

    /// What the next step is answered in a mocked run.
    fn mock_report(&self) -> (report: StepReport)
        requires
            !self@.finished(),
        ensures
            report.output.tree() == self@.mocked_output(),
            report.verdict == verdict_on(self@.current().pillar, self@.mocked_output()),
    {
        let step: &PlanStep = &self.steps[self.results.len()];
        assert(self@.current() == step@);
        let conf_override = if same_text(&step.pillar, "binding-confidence") {
            self.opts.mock_confidence
        } else {
            None
        };
        let output = mock_response(step.pillar.as_str(), self.question.as_str(), conf_override);
        StepReport { verdict: judge(step.pillar.as_str(), &output), output }
    }

    fn settle(self) -> (execution: Execution)
        ensures
            execution@ == self@.settled().progress(),
    {
        let mut state = self;
        while !state.finished()
            invariant
                state@.settled() == self@.settled(),
            decreases state@.steps.len() - state@.results.len(),
        {
            let at: usize = state.results.len();
            assert(state@.current() == state.steps@[at as int]@);
            let passed = pass_over(&state.steps[at].pillar, state.confidence, state.opts.clarify_answer.is_some());
            let ghost before = state@;
            match passed {
                Some(output) => {
                    state.record(Verdict::Skipped, output, 0);
                    assert(state@ == before.stepped());
                },
                None => {
                    if !state.opts.mock {
                        return Execution::Invoke(Run { state });
                    }
                    let report = state.mock_report();
                    state.report(report, 0);
                    assert(state@ == before.stepped());
                },
            }
        }
        Execution::Answered(state.into_answer())
    }

    fn into_answer(self) -> (answer: Answer)
        requires
            self@.finished(),
        ensures
            answer@ == self@.answer(),
    {
        let plan = copy_steps(&self.steps);
        match self.stage {
            Stage::Asked(question) => Answer {
                question: self.question,
                model: self.model,
                plan,
                step_results: self.results,
                clarify_needed: true,
                clarify_question: question,
                clarify_answer: None,
                final_answer: None,
            },
            _ => {
                let text = sign(&self.results);
                Answer {
                    question: self.question,
                    model: self.model,
                    plan,
                    step_results: self.results,
                    clarify_needed: false,
                    clarify_question: None,
                    clarify_answer: self.opts.clarify_answer,
                    final_answer: Some(text),
                }
            },
        }
    }
}

/// The answer that the credential step signed, or else the default one.
fn sign(results: &Vec<StepResult>) -> (text: String)
    ensures
        text@ == signed_answer(results_view(results@)),
{
    let ghost all = results_view(results@);
    assert(all.skip(0) =~= all);
    let mut i: usize = 0;
    while i < results.len()
        invariant
            i <= results@.len(),
            all == results_view(results@),
            credential(all) == credential(all.skip(i as int)),
        decreases results@.len() - i,
    {
        assert(all.skip(i as int)[0] == results@[i as int]@);
        assert(all.skip(i as int).drop_first() =~= all.skip(i as int + 1));
        if same_text(&results[i].pillar, "rosetta-credential") {
            return match results[i].output.get_str("answer") {
                Some(text) => text.to_string(),
                None => DEFAULT_ANSWER.to_string(),
            };
        }
        i += 1;
    }
    DEFAULT_ANSWER.to_string()
}

impl Run {
    #[verifier::type_invariant]
    spec fn waits(self) -> bool {
        self.state@.waiting()
    }

    /// The step whose binary is wanted.
    pub fn step(&self) -> (step: &PlanStep)
        ensures
            step@ == self@.current(),
            self@.waiting(),
    {
        proof {
            use_type_invariant(self);
        }
        &self.state.steps[self.state.results.len()]
    }

    /// The question that is being answered.
    pub fn question(&self) -> (question: &str)
        ensures
            question@ == self@.question,
    {
        self.state.question.as_str()
    }

    /// The model that is queried.
    pub fn model(&self) -> (model: &str)
        ensures
            model@ == self@.model,
    {
        self.state.model.as_str()
    }
}

/// Execute the plan, running each step in order, up to the final Answer or to the first
/// step that wants its binary.
pub fn execute_plan(plan: &Plan, run_opts: &RunOptions) -> (execution: Execution)
    ensures
        execution@ == started(plan@, run_opts@).settled().progress(),
{
    let state = State {
        question: plan.question.clone(),
        model: plan.model.clone(),
        steps: copy_steps(&plan.steps),
        opts: run_opts.clone(),
        results: Vec::new(),
        confidence: Confidence { bits: FULL_CONFIDENCE },
        stage: Stage::Running,
    };
    assert(state@ =~= started(plan@, run_opts@));
    state.settle()
}

/// Go on with a run that waited, given what the binary came to, and how long it took.
pub fn resume(run: Run, report: StepReport, ms: u64) -> (execution: Execution)
    ensures
        execution@ == run@.reported(report.verdict, report.output.tree(), ms).settled().progress(),
{
    proof {
        use_type_invariant(&run);
    }
    let mut state = run.state;
    state.report(report, ms);
    state.settle()
}

} // verus!
