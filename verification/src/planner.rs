//! The planner: which pillars a question needs, in what order, and why.

use vstd::prelude::*;
use vstd::utf8::is_ascii_chars;

use crate::fixtures::{bundled_fixtures, bundled_model_fixtures, is_multi_engine, on_multiple_engines, FixtureMap};
use crate::laws::planning::{plans_pillar, time_intelligence_iff_period};
use crate::text::{ascii_lowercased, chars_of, contains, contains_text, joined, lowercased, to_lowercase};

verus! {

/// The bundled default planner rule table.
/// This is the readable config that drives all planning decisions.
pub const DEFAULT_RULE_TABLE: &'static str = r#"
# mqo-agent planner rule table (TOML-ish comment format for readability)
#
# Rule evaluation order (all rules are checked; highest-priority wins for ordering):
#
# 1. catalog-embed       — ALWAYS first: embeds the question against the semantic catalog
# 2. binding-confidence  — ALWAYS second: scores how well columns bound to the question
# 3. clarify             — IF binding_confidence < LOW_CONF_THRESHOLD (0.45)
#                          ↳ emits clarify_needed + question, halts until --answer provided
# 4. time-intelligence   — IF question contains period-over-period tokens:
#                          yoy, qoq, mom, ytd, "year over year", "quarter over quarter",
#                          "month over month", "year-to-date", "prior year", "prior quarter"
# 5. engine-parity       — IF model is registered on >1 engine (multi_engine fixture flag)
# 6. sensitivity-scan    — ALWAYS before final answer; ensures no PII/forbidden fields leak
# 7. rosetta-credential  — ALWAYS terminal: signs the final answer with provenance
#
# Planner variant:
#   --planner deterministic (default): rule table above, no LLM
#   --planner brain: consult local wm-brain for ordering (opt-in, not the test path)
"#;

/// Period-over-period token patterns that trigger time-intelligence.
pub const PERIOD_TOKENS: [&'static str; 13] = [
    "yoy",
    "qoq",
    "mom",
    "ytd",
    "year over year",
    "quarter over quarter",
    "month over month",
    "year-to-date",
    "prior year",
    "prior quarter",
    "year-on-year",
    "quarter-on-quarter",
    "month-on-month",
];

/// A single planned pillar step.
#[derive(Debug, PartialEq, Eq)]
pub struct PlanStep {
    /// Short pillar name, e.g. `"catalog-embed"`.
    pub pillar: String,
    /// Binary that implements this pillar.
    pub tool: String,
    /// Human-readable reason this step was selected.
    pub reason: String,
}

/// What a planned step says.
#[verifier::ext_equal]
pub struct StepView {
    pub pillar: Seq<char>,
    pub tool: Seq<char>,
    pub reason: Seq<char>,
}

impl View for PlanStep {
    type V = StepView;

    open spec fn view(&self) -> StepView {
        StepView { pillar: self.pillar@, tool: self.tool@, reason: self.reason@ }
    }
}

impl Clone for PlanStep {
    fn clone(&self) -> (copy: Self)
        ensures
            copy@ == self@,
    {
        PlanStep { pillar: self.pillar.clone(), tool: self.tool.clone(), reason: self.reason.clone() }
    }
}

/// What a list of planned steps says.
pub open spec fn steps_view(steps: Seq<PlanStep>) -> Seq<StepView> {
    steps.map_values(|step: PlanStep| step@)
}

/// The full plan: ordered list of steps + metadata.
#[derive(Debug)]
pub struct Plan {
    pub question: String,
    pub model: String,
    pub planner: String,
    pub steps: Vec<PlanStep>,
}

/// What a plan says.
#[verifier::ext_equal]
pub struct PlanView {
    pub question: Seq<char>,
    pub model: Seq<char>,
    pub planner: Seq<char>,
    pub steps: Seq<StepView>,
}

impl View for Plan {
    type V = PlanView;

    open spec fn view(&self) -> PlanView {
        PlanView {
            question: self.question@,
            model: self.model@,
            planner: self.planner@,
            steps: steps_view(self.steps@),
        }
    }
}

impl Clone for Plan {
    fn clone(&self) -> (copy: Self)
        ensures
            copy@ == self@,
    {
        Plan {
            question: self.question.clone(),
            model: self.model.clone(),
            planner: self.planner.clone(),
            steps: copy_steps(&self.steps),
        }
    }
}

/// The same steps once more.
pub(crate) fn copy_steps(steps: &Vec<PlanStep>) -> (copies: Vec<PlanStep>)
    ensures
        steps_view(copies@) == steps_view(steps@),
{
    let mut copies: Vec<PlanStep> = Vec::new();
    let mut i: usize = 0;
    while i < steps.len()
        invariant
            i <= steps@.len(),
            copies@.len() == i,
            forall|j: int| 0 <= j < i ==> (#[trigger] copies@[j])@ == steps@[j]@,
        decreases steps@.len() - i,
    {
        copies.push(steps[i].clone());
        i += 1;
    }
    assert(steps_view(copies@) =~= steps_view(steps@));
    copies
}

/// Which planner to use.
#[derive(Debug, Clone, Copy, PartialEq, Eq, Structural)]
pub enum PlannerVariant {
    Deterministic,
    Brain,
}

/// Options for the planner.
#[derive(Debug)]
pub struct PlannerOptions {
    pub planner: PlannerVariant,
    pub model_fixtures: FixtureMap,
}

impl Clone for PlannerOptions {
    fn clone(&self) -> (copy: Self)
        ensures
            copy.planner == self.planner,
            copy.model_fixtures@ == self.model_fixtures@,
    {
        PlannerOptions { planner: self.planner, model_fixtures: self.model_fixtures.clone() }
    }
}

impl Default for PlannerOptions {
    fn default() -> (opts: Self)
        ensures
            opts.planner == PlannerVariant::Deterministic,
            opts.model_fixtures@ == bundled_fixtures(),
    {
        PlannerOptions { planner: PlannerVariant::Deterministic, model_fixtures: bundled_model_fixtures() }
    }
}

/// Some period-over-period token stands in `lower`, the question in lower case.
pub open spec fn mentions_period(lower: Seq<char>) -> bool {
    exists|i: int| 0 <= i < 13 && contains_text(lower, (#[trigger] PERIOD_TOKENS@[i])@)
}

/// Those of the first `n` tokens that stand in `lower`.
pub open spec fn tokens_among(lower: Seq<char>, n: nat) -> Seq<Seq<char>>
    decreases n,
{
    if n == 0 {
        Seq::empty()
    } else {
        let before = tokens_among(lower, (n - 1) as nat);
        let token = PERIOD_TOKENS@[n - 1]@;
        if contains_text(lower, token) {
            before.push(token)
        } else {
            before
        }
    }
}

/// The period-over-period tokens that stand in `lower`, in the order of the table.
pub open spec fn period_tokens_in(lower: Seq<char>) -> Seq<Seq<char>> {
    tokens_among(lower, 13)
}

pub open spec fn catalog_embed_step() -> StepView {
    StepView {
        pillar: "catalog-embed"@,
        tool: "mqo-catalog-embed"@,
        reason: "Always first: embed question against semantic catalog to identify relevant columns."@,
    }
}

pub open spec fn binding_confidence_step() -> StepView {
    StepView {
        pillar: "binding-confidence"@,
        tool: "mqo-binding-confidence"@,
        reason: "Always second: score column binding confidence to determine if clarification is needed."@,
    }
}

pub open spec fn clarify_step() -> StepView {
    StepView {
        pillar: "clarify"@,
        tool: "mqo-clarify"@,
        reason: "Conditional: fires if binding-confidence < 0.45; emits a clarify question and halts until --answer is provided."@,
    }
}

pub open spec fn time_intelligence_step(tokens: Seq<Seq<char>>) -> StepView {
    StepView {
        pillar: "time-intelligence"@,
        tool: "mqo-time-intelligence"@,
        reason: "Period-over-period tokens detected in question: "@ + joined(tokens, ", "@),
    }
}

pub open spec fn engine_parity_step(model: Seq<char>) -> StepView {
    StepView {
        pillar: "engine-parity"@,
        tool: "mqo-engine-parity"@,
        reason: "Model '"@ + model
            + "' is registered on multiple query engines; engine-parity ensures consistent results across them."@,
    }
}

pub open spec fn sensitivity_scan_step() -> StepView {
    StepView {
        pillar: "sensitivity-scan"@,
        tool: "mqo-sensitivity-scan"@,
        reason: "Always penultimate: scan for PII or forbidden field leakage before returning."@,
    }
}

pub open spec fn rosetta_credential_step() -> StepView {
    StepView {
        pillar: "rosetta-credential"@,
        tool: "rosetta-credential"@,
        reason: "Always terminal: sign the final answer with provenance."@,
    }
}

/// The steps that a question needs, given its lower-case form.
pub open spec fn planned_steps(lower: Seq<char>, model: Seq<char>, multi_engine: bool) -> Seq<StepView> {
    let opening = seq![catalog_embed_step(), binding_confidence_step(), clarify_step()];
    let timed = if mentions_period(lower) {
        opening.push(time_intelligence_step(period_tokens_in(lower)))
    } else {
        opening
    };
    let checked = if multi_engine {
        timed.push(engine_parity_step(model))
    } else {
        timed
    };
    checked.push(sensitivity_scan_step()).push(rosetta_credential_step())
}

/// The name of a planner.
pub open spec fn planner_name(planner: PlannerVariant) -> Seq<char> {
    match planner {
        PlannerVariant::Deterministic => "deterministic"@,
        PlannerVariant::Brain => "brain"@,
    }
}

/// The plan for a question, given its lower-case form.
pub open spec fn planned(
    question: Seq<char>,
    lower: Seq<char>,
    model: Seq<char>,
    planner: PlannerVariant,
    multi_engine: bool,
) -> PlanView {
    PlanView {
        question,
        model,
        planner: planner_name(planner),
        steps: planned_steps(lower, model, multi_engine),
    }
}

proof fn lemma_tokens_among(lower: Seq<char>, n: nat)
    requires
        n <= 13,
    ensures
        tokens_among(lower, n).len() > 0 <==> exists|i: int| 0 <= i < n && contains_text(lower, (#[trigger] PERIOD_TOKENS@[i])@),
    decreases n,
{
    if n > 0 {
        lemma_tokens_among(lower, (n - 1) as nat);
        let last = PERIOD_TOKENS@[n - 1];
        if tokens_among(lower, n).len() > 0 && !contains_text(lower, last@) {
            let i = choose|i: int| 0 <= i < n - 1 && contains_text(lower, (#[trigger] PERIOD_TOKENS@[i])@);
            assert(0 <= i < n && contains_text(lower, PERIOD_TOKENS@[i]@));
        }
    }
}

/// A question mentions a period exactly where some token is found in it.
pub proof fn period_mentioned_iff_tokens_found(lower: Seq<char>)
    ensures
        mentions_period(lower) <==> period_tokens_in(lower).len() > 0,
{
    lemma_tokens_among(lower, 13);
}

/// What a list of texts says.
pub open spec fn texts_view(texts: Seq<&'static str>) -> Seq<Seq<char>> {
    texts.map_values(|text: &'static str| text@)
}

/// The period-over-period tokens that stand in `lower`, a question in lower case.
pub fn find_period_tokens(lower: &str) -> (tokens: Vec<&'static str>)
    ensures
        texts_view(tokens@) == period_tokens_in(lower@),
{
    let hay = chars_of(lower);
    let mut tokens: Vec<&'static str> = Vec::new();
    let mut i: usize = 0;
    assert(texts_view(tokens@) =~= tokens_among(lower@, 0));
    while i < 13
        invariant
            i <= 13,
            hay@ == lower@,
            texts_view(tokens@) == tokens_among(lower@, i as nat),
        decreases 13 - i,
    {
        let token: &'static str = PERIOD_TOKENS[i];
        let ghost before = tokens@;
        if contains(&hay, token) {
            tokens.push(token);
            assert(texts_view(tokens@) =~= texts_view(before).push(token@));
        }
        i += 1;
    }
    tokens
}

/// The tokens are made of ASCII characters.
proof fn lemma_tokens_are_ascii(i: int)
    requires
        0 <= i < 13,
    ensures
        is_ascii_chars(PERIOD_TOKENS@[i]@),
{
    reveal_strlit("yoy");
    reveal_strlit("qoq");
    reveal_strlit("mom");
    reveal_strlit("ytd");
    reveal_strlit("year over year");
    reveal_strlit("quarter over quarter");
    reveal_strlit("month over month");
    reveal_strlit("year-to-date");
    reveal_strlit("prior year");
    reveal_strlit("prior quarter");
    reveal_strlit("year-on-year");
    reveal_strlit("quarter-on-quarter");
    reveal_strlit("month-on-month");
}

/// A token that stands in `plain` stands in `lower` too, where every ASCII word does.
proof fn lemma_period_carries_over(plain: Seq<char>, lower: Seq<char>)
    requires
        forall|word: Seq<char>| is_ascii_chars(word) && #[trigger] contains_text(plain, word) ==> contains_text(lower, word),
    ensures
        mentions_period(plain) ==> mentions_period(lower),
{
    if mentions_period(plain) {
        let i = choose|i: int| 0 <= i < 13 && contains_text(plain, (#[trigger] PERIOD_TOKENS@[i])@);
        lemma_tokens_are_ascii(i);
        assert(contains_text(lower, PERIOD_TOKENS@[i]@));
    }
}

/// Checks if the question contains any period-over-period tokens.
pub fn has_period_tokens(question: &str) -> (yes: bool)
    ensures
        yes == mentions_period(lowercased(question@)),
        yes == mentions_period(lowercased(ascii_lowercased(question@))),
        mentions_period(ascii_lowercased(question@)) ==> yes,
        is_ascii_chars(question@) ==> yes == mentions_period(ascii_lowercased(question@)),
{
    let lower = to_lowercase(question);
    let tokens = find_period_tokens(lower.as_str());
    proof {
        lemma_period_carries_over(ascii_lowercased(question@), lower@);
        period_mentioned_iff_tokens_found(lower@);
        assert(tokens@.len() == texts_view(tokens@).len());
    }
    tokens.len() > 0
}

/// The texts in order, `sep` between each two.
fn join(parts: &Vec<&'static str>, sep: &str) -> (out: String)
    ensures
        out@ == joined(texts_view(parts@), sep@),
{
    let ghost all = texts_view(parts@);
    let mut out = String::new();
    let mut i: usize = 0;
    assert(all.take(0) =~= Seq::<Seq<char>>::empty());
    while i < parts.len()
        invariant
            i <= parts@.len(),
            all == texts_view(parts@),
            out@ == joined(all.take(i as int), sep@),
        decreases parts@.len() - i,
    {
        let ghost next = all.take(i as int + 1);
        assert(next.drop_last() =~= all.take(i as int));
        assert(next.last() == parts@[i as int]@);
        if i > 0 {
            out.append(sep);
        }
        out.append(parts[i]);
        assert(out@ =~= joined(next, sep@));
        i += 1;
    }
    assert(all.take(parts@.len() as int) =~= all);
    out
}

/// A step of the plan.
fn step(pillar: &str, tool: &str, reason: String) -> (made: PlanStep)
    ensures
        made@ == (StepView { pillar: pillar@, tool: tool@, reason: reason@ }),
{
    PlanStep { pillar: pillar.to_string(), tool: tool.to_string(), reason }
}

fn push_step(steps: &mut Vec<PlanStep>, made: PlanStep)
    ensures
        steps_view(final(steps)@) == steps_view(old(steps)@).push(made@),
{
    let ghost before = steps@;
    steps.push(made);
    assert(steps_view(steps@) =~= steps_view(before).push(made@));
}

/// Build the plan for a question + model, given the question in lower case.
pub fn build_plan_from(question: &str, lower: &str, model: &str, opts: &PlannerOptions) -> (plan: Plan)
    ensures
        plan@ == planned(
            question@,
            lower@,
            model@,
            opts.planner,
            on_multiple_engines(model@, opts.model_fixtures@),
        ),
{
    let mut steps: Vec<PlanStep> = Vec::new();
    assert(steps_view(steps@) =~= Seq::<StepView>::empty());

    push_step(
        &mut steps,
        step(
            "catalog-embed",
            "mqo-catalog-embed",
            "Always first: embed question against semantic catalog to identify relevant columns.".to_string(),
        ),
    );
    push_step(
        &mut steps,
        step(
            "binding-confidence",
            "mqo-binding-confidence",
            "Always second: score column binding confidence to determine if clarification is needed.".to_string(),
        ),
    );
    // The step is planned in any case; whether it fires is decided by the score at run time.
    push_step(
        &mut steps,
        step(
            "clarify",
            "mqo-clarify",
            "Conditional: fires if binding-confidence < 0.45; emits a clarify question and halts until --answer is provided.".to_string(),
        ),
    );

    let tokens = find_period_tokens(lower);
    proof {
        period_mentioned_iff_tokens_found(lower@);
        assert(tokens@.len() == texts_view(tokens@).len());
    }
    if tokens.len() > 0 {
        let mut reason = "Period-over-period tokens detected in question: ".to_string();
        let list = join(&tokens, ", ");
        reason.append(list.as_str());
        push_step(&mut steps, step("time-intelligence", "mqo-time-intelligence", reason));
    }
    if is_multi_engine(model, &opts.model_fixtures) {
        let mut reason = "Model '".to_string();
        reason.append(model);
        reason.append(
            "' is registered on multiple query engines; engine-parity ensures consistent results across them.",
        );
        push_step(&mut steps, step("engine-parity", "mqo-engine-parity", reason));
    }
    push_step(
        &mut steps,
        step(
            "sensitivity-scan",
            "mqo-sensitivity-scan",
            "Always penultimate: scan for PII or forbidden field leakage before returning.".to_string(),
        ),
    );
    push_step(
        &mut steps,
        step(
            "rosetta-credential",
            "rosetta-credential",
            "Always terminal: sign the final answer with provenance.".to_string(),
        ),
    );

    let planner = match opts.planner {
        PlannerVariant::Deterministic => "deterministic".to_string(),
        PlannerVariant::Brain => "brain".to_string(),
    };
    Plan { question: question.to_string(), model: model.to_string(), planner, steps }
}

/// Build the deterministic plan for a question + model.
pub fn build_plan(question: &str, model: &str, opts: &PlannerOptions) -> (plan: Plan)
    ensures
        plan@ == planned(
            question@,
            lowercased(question@),
            model@,
            opts.planner,
            on_multiple_engines(model@, opts.model_fixtures@),
        ),
        plan@ == planned(
            question@,
            lowercased(ascii_lowercased(question@)),
            model@,
            opts.planner,
            on_multiple_engines(model@, opts.model_fixtures@),
        ),
        mentions_period(ascii_lowercased(question@)) ==> plans_pillar(plan@.steps, "time-intelligence"@),
        is_ascii_chars(question@) ==> plan@ == planned(
            question@,
            ascii_lowercased(question@),
            model@,
            opts.planner,
            on_multiple_engines(model@, opts.model_fixtures@),
        ),
{
    let lower = to_lowercase(question);
    proof {
        lemma_period_carries_over(ascii_lowercased(question@), lower@);
        time_intelligence_iff_period(lower@, model@, on_multiple_engines(model@, opts.model_fixtures@));
    }
    build_plan_from(question, lower.as_str(), model, opts)
}

} // verus!
