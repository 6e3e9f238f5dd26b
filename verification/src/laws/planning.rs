//! What holds of every plan.

use vstd::prelude::*;
use vstd::utf8::is_ascii_chars;

use crate::fixtures::{bundled_fixtures, on_multiple_engines, FixtureView};
use crate::planner::{
    binding_confidence_step, catalog_embed_step, clarify_step, engine_parity_step, mentions_period, period_tokens_in,
    planned, planned_steps, rosetta_credential_step, sensitivity_scan_step, texts_view, time_intelligence_step,
    tokens_among, PlannerVariant, StepView, PERIOD_TOKENS,
};
use crate::text::{ascii_lowercased, ascii_uppercased, contains_text, joined, lowercased, occurs_at};

verus! {

/// A text stands in another exactly where that one is some text, then the text, then some
/// text.
pub proof fn standing_in_is_being_a_part(hay: Seq<char>, needle: Seq<char>, before: Seq<char>, after: Seq<char>)
    ensures
        contains_text(before + needle + after, needle),
        contains_text(hay, needle) ==> exists|front: Seq<char>, back: Seq<char>| hay == #[trigger] (front + needle + back),
{
    let whole = before + needle + after;
    assert(whole.subrange(before.len() as int, (before.len() + needle.len()) as int) =~= needle);
    assert(occurs_at(whole, needle, before.len() as int));
    if contains_text(hay, needle) {
        let at = choose|at: int| occurs_at(hay, needle, at);
        let front = hay.take(at);
        let back = hay.skip(at + needle.len());
        assert(hay =~= front + hay.subrange(at, at + needle.len()) + back);
    }
}

/// A question mentions a period exactly where one of these phrases stands in it.
pub proof fn period_is_mentioned_by_these_phrases(lower: Seq<char>)
    ensures
        mentions_period(lower) <==> {
            ||| contains_text(lower, "yoy"@)
            ||| contains_text(lower, "qoq"@)
            ||| contains_text(lower, "mom"@)
            ||| contains_text(lower, "ytd"@)
            ||| contains_text(lower, "year over year"@)
            ||| contains_text(lower, "quarter over quarter"@)
            ||| contains_text(lower, "month over month"@)
            ||| contains_text(lower, "year-to-date"@)
            ||| contains_text(lower, "prior year"@)
            ||| contains_text(lower, "prior quarter"@)
            ||| contains_text(lower, "year-on-year"@)
            ||| contains_text(lower, "quarter-on-quarter"@)
            ||| contains_text(lower, "month-on-month"@)
        },
{
    lemma_phrases();
    if mentions_period(lower) {
        let i = choose|i: int| 0 <= i < 13 && contains_text(lower, (#[trigger] PERIOD_TOKENS@[i])@);
        assert(contains_text(lower, PERIOD_TOKENS@[i]@));
    }
}

proof fn lemma_phrases()
    ensures
        PERIOD_TOKENS@.len() == 13,
        PERIOD_TOKENS@[0]@ == "yoy"@,
        PERIOD_TOKENS@[1]@ == "qoq"@,
        PERIOD_TOKENS@[2]@ == "mom"@,
        PERIOD_TOKENS@[3]@ == "ytd"@,
        PERIOD_TOKENS@[4]@ == "year over year"@,
        PERIOD_TOKENS@[5]@ == "quarter over quarter"@,
        PERIOD_TOKENS@[6]@ == "month over month"@,
        PERIOD_TOKENS@[7]@ == "year-to-date"@,
        PERIOD_TOKENS@[8]@ == "prior year"@,
        PERIOD_TOKENS@[9]@ == "prior quarter"@,
        PERIOD_TOKENS@[10]@ == "year-on-year"@,
        PERIOD_TOKENS@[11]@ == "quarter-on-quarter"@,
        PERIOD_TOKENS@[12]@ == "month-on-month"@,
{
}

/// The tokens that are found are those phrases of the table that stand in the question, each
/// once, in the order of the table.
pub proof fn found_tokens_keep_the_order_of_the_table(lower: Seq<char>)
    ensures
        period_tokens_in(lower) == seq![
            "yoy"@,
            "qoq"@,
            "mom"@,
            "ytd"@,
            "year over year"@,
            "quarter over quarter"@,
            "month over month"@,
            "year-to-date"@,
            "prior year"@,
            "prior quarter"@,
            "year-on-year"@,
            "quarter-on-quarter"@,
            "month-on-month"@,
        ].filter(|phrase: Seq<char>| contains_text(lower, phrase)),
{
    lemma_phrases();
    let table = texts_view(PERIOD_TOKENS@);
    assert(table =~= seq![
        "yoy"@,
        "qoq"@,
        "mom"@,
        "ytd"@,
        "year over year"@,
        "quarter over quarter"@,
        "month over month"@,
        "year-to-date"@,
        "prior year"@,
        "prior quarter"@,
        "year-on-year"@,
        "quarter-on-quarter"@,
        "month-on-month"@,
    ]);
    lemma_tokens_are_filtered(lower, 13);
    assert(table.take(13) =~= table);
}

proof fn lemma_tokens_are_filtered(lower: Seq<char>, n: nat)
    requires
        n <= 13,
    ensures
        tokens_among(lower, n) == texts_view(PERIOD_TOKENS@).take(n as int).filter(
            |phrase: Seq<char>| contains_text(lower, phrase),
        ),
    decreases n,
{
    reveal(Seq::filter);
    let table = texts_view(PERIOD_TOKENS@);
    let test = |phrase: Seq<char>| contains_text(lower, phrase);
    if n == 0 {
        assert(table.take(0).filter(test) =~= Seq::empty());
    } else {
        lemma_tokens_are_filtered(lower, (n - 1) as nat);
        let part = table.take(n as int);
        assert(part.drop_last() =~= table.take(n - 1));
        assert(part.last() == PERIOD_TOKENS@[n - 1]@);
        assert(part.filter(test) == tokens_among(lower, n));
    }
}

/// Texts are joined in order, with the separator between each two and nowhere else.
pub proof fn joining_puts_the_separator_between(a: Seq<Seq<char>>, b: Seq<Seq<char>>, text: Seq<char>, sep: Seq<char>)
    ensures
        joined(Seq::empty(), sep) == Seq::<char>::empty(),
        joined(seq![text], sep) == text,
        a.len() > 0 && b.len() > 0 ==> joined(a + b, sep) == joined(a, sep) + sep + joined(b, sep),
    decreases b.len(),
{
    if a.len() > 0 && b.len() > 0 {
        let both = a + b;
        if b.len() == 1 {
            assert(both.drop_last() =~= a);
            assert(both.last() == b[0]);
        } else {
            joining_puts_the_separator_between(a, b.drop_last(), text, sep);
            assert(both.drop_last() =~= a + b.drop_last());
            assert(both.last() == b.last());
            assert(joined(both, sep) =~= joined(a, sep) + sep + joined(b, sep));
        }
    }
}

/// A plan is for the question and the model that were given, names its planner, and has just
/// these steps, in this order, each with its tool and the reason for it: the embedding, the
/// binding score and the clarify gate; the comparison of periods, where the question mentions
/// one; the comparison of engines, where there are several; the scan, and the credential.
pub proof fn plan_says_what_is_needed(
    question: Seq<char>,
    lower: Seq<char>,
    model: Seq<char>,
    planner: PlannerVariant,
    multi_engine: bool,
)
    ensures
        ({
            let plan = planned(question, lower, model, planner, multi_engine);
            let timed = StepView {
                pillar: "time-intelligence"@,
                tool: "mqo-time-intelligence"@,
                reason: "Period-over-period tokens detected in question: "@ + joined(period_tokens_in(lower), ", "@),
            };
            let parity = StepView {
                pillar: "engine-parity"@,
                tool: "mqo-engine-parity"@,
                reason: "Model '"@ + model
                    + "' is registered on multiple query engines; engine-parity ensures consistent results across them."@,
            };
            &&& plan.question == question
            &&& plan.model == model
            &&& planner == PlannerVariant::Deterministic ==> plan.planner == "deterministic"@
            &&& planner == PlannerVariant::Brain ==> plan.planner == "brain"@
            &&& plan.steps == seq![
                StepView {
                    pillar: "catalog-embed"@,
                    tool: "mqo-catalog-embed"@,
                    reason: "Always first: embed question against semantic catalog to identify relevant columns."@,
                },
                StepView {
                    pillar: "binding-confidence"@,
                    tool: "mqo-binding-confidence"@,
                    reason: "Always second: score column binding confidence to determine if clarification is needed."@,
                },
                StepView {
                    pillar: "clarify"@,
                    tool: "mqo-clarify"@,
                    reason: "Conditional: fires if binding-confidence < 0.45; emits a clarify question and halts until --answer is provided."@,
                },
            ] + (if mentions_period(lower) { seq![timed] } else { seq![] }) + (if multi_engine {
                seq![parity]
            } else {
                seq![]
            }) + seq![
                StepView {
                    pillar: "sensitivity-scan"@,
                    tool: "mqo-sensitivity-scan"@,
                    reason: "Always penultimate: scan for PII or forbidden field leakage before returning."@,
                },
                StepView {
                    pillar: "rosetta-credential"@,
                    tool: "rosetta-credential"@,
                    reason: "Always terminal: sign the final answer with provenance."@,
                },
            ]
        }),
{
}

/// A model is on several engines where its own fixture says so. A model without a fixture goes
/// by the default one, and where there is none either, it is on one engine.
pub proof fn engines_are_those_of_the_fixture(model: Seq<char>, fixtures: Map<Seq<char>, FixtureView>)
    ensures
        fixtures.contains_key(model) ==> on_multiple_engines(model, fixtures) == fixtures[model].multi_engine,
        !fixtures.contains_key(model) && fixtures.contains_key("__default__"@) ==> on_multiple_engines(model, fixtures)
            == fixtures["__default__"@].multi_engine,
        !fixtures.contains_key(model) && !fixtures.contains_key("__default__"@) ==> !on_multiple_engines(model, fixtures),
{
}

/// A fixture decides for its own model, and the default one for those without: recording
/// another has no effect on a model that has its own.
pub proof fn other_fixtures_have_no_effect(
    model: Seq<char>,
    other: Seq<char>,
    fixture: FixtureView,
    fixtures: Map<Seq<char>, FixtureView>,
)
    ensures
        on_multiple_engines(model, fixtures.insert(model, fixture)) == fixture.multi_engine,
        other != model && (fixtures.contains_key(model) || other != "__default__"@) ==> on_multiple_engines(
            model,
            fixtures.insert(other, fixture),
        ) == on_multiple_engines(model, fixtures),
{
}

/// The bundled fixtures are those of three names, `internet_sales` on two engines and the
/// other two on one.
pub proof fn bundled_fixtures_are_these(name: Seq<char>)
    ensures
        bundled_fixtures().contains_key(name) <==> name == "tasty_bytes"@ || name == "internet_sales"@ || name
            == "__default__"@,
        bundled_fixtures().contains_key(name) ==> {
            &&& bundled_fixtures()[name].model == name
            &&& bundled_fixtures()[name].multi_engine <==> name == "internet_sales"@
            &&& bundled_fixtures()[name].engine_count == (if name == "internet_sales"@ {
                2usize
            } else {
                1usize
            })
        },
{
    lemma_models_differ();
}

/// Some step of the list is for `pillar`.
pub open spec fn plans_pillar(steps: Seq<StepView>, pillar: Seq<char>) -> bool {
    exists|i: int| 0 <= i < steps.len() && (#[trigger] steps[i]).pillar == pillar
}

/// The names of the pillars are different from each other.
pub(crate) proof fn lemma_pillars_differ()
    ensures
        "catalog-embed"@ != "binding-confidence"@,
        "catalog-embed"@ != "clarify"@,
        "catalog-embed"@ != "time-intelligence"@,
        "catalog-embed"@ != "engine-parity"@,
        "catalog-embed"@ != "sensitivity-scan"@,
        "catalog-embed"@ != "rosetta-credential"@,
        "binding-confidence"@ != "clarify"@,
        "binding-confidence"@ != "time-intelligence"@,
        "binding-confidence"@ != "engine-parity"@,
        "binding-confidence"@ != "sensitivity-scan"@,
        "binding-confidence"@ != "rosetta-credential"@,
        "clarify"@ != "time-intelligence"@,
        "clarify"@ != "engine-parity"@,
        "clarify"@ != "sensitivity-scan"@,
        "clarify"@ != "rosetta-credential"@,
        "time-intelligence"@ != "engine-parity"@,
        "time-intelligence"@ != "sensitivity-scan"@,
        "time-intelligence"@ != "rosetta-credential"@,
        "engine-parity"@ != "sensitivity-scan"@,
        "engine-parity"@ != "rosetta-credential"@,
        "sensitivity-scan"@ != "rosetta-credential"@,
{
    reveal_strlit("catalog-embed");
    reveal_strlit("binding-confidence");
    reveal_strlit("clarify");
    reveal_strlit("time-intelligence");
    reveal_strlit("engine-parity");
    reveal_strlit("sensitivity-scan");
    reveal_strlit("rosetta-credential");
    assert("catalog-embed"@.len() == 13 && "engine-parity"@.len() == 13);
    assert("binding-confidence"@.len() == 18 && "rosetta-credential"@.len() == 18);
    assert("clarify"@.len() == 7);
    assert("time-intelligence"@.len() == 17);
    assert("sensitivity-scan"@.len() == 16);
    assert("catalog-embed"@[0] != "engine-parity"@[0]);
    assert("binding-confidence"@[0] != "rosetta-credential"@[0]);
}

/// Every plan opens with the embedding, the binding score and the clarify gate, and closes
/// with the sensitivity scan and, last of all, the credential.
pub proof fn plan_has_fixed_ends(lower: Seq<char>, model: Seq<char>, multi_engine: bool)
    ensures
        ({
            let steps = planned_steps(lower, model, multi_engine);
            &&& 5 <= steps.len() <= 7
            &&& steps[0] == catalog_embed_step()
            &&& steps[1] == binding_confidence_step()
            &&& steps[2] == clarify_step()
            &&& steps[steps.len() - 2] == sensitivity_scan_step()
            &&& steps.last() == rosetta_credential_step()
        }),
{
}

/// What stands between the ends of a plan.
proof fn lemma_middle(lower: Seq<char>, model: Seq<char>, multi_engine: bool)
    ensures
        ({
            let steps = planned_steps(lower, model, multi_engine);
            let timed = mentions_period(lower);
            &&& steps.len() == 5 + (if timed { 1int } else { 0 }) + (if multi_engine { 1int } else { 0 })
            &&& timed ==> steps[3] == time_intelligence_step(period_tokens_in(lower))
            &&& multi_engine ==> steps[steps.len() - 3] == engine_parity_step(model)
        }),
{
}

/// A plan has a time-intelligence step exactly where the question mentions a period.
pub proof fn time_intelligence_iff_period(lower: Seq<char>, model: Seq<char>, multi_engine: bool)
    ensures
        plans_pillar(planned_steps(lower, model, multi_engine), "time-intelligence"@) <==> mentions_period(lower),
{
    lemma_pillars_differ();
    lemma_middle(lower, model, multi_engine);
    plan_has_fixed_ends(lower, model, multi_engine);
    let steps = planned_steps(lower, model, multi_engine);
    if mentions_period(lower) {
        assert(steps[3].pillar == "time-intelligence"@);
    }
}

/// A plan has an engine-parity step exactly where the model is on several engines.
pub proof fn engine_parity_iff_multi_engine(lower: Seq<char>, model: Seq<char>, multi_engine: bool)
    ensures
        plans_pillar(planned_steps(lower, model, multi_engine), "engine-parity"@) <==> multi_engine,
{
    lemma_pillars_differ();
    lemma_middle(lower, model, multi_engine);
    plan_has_fixed_ends(lower, model, multi_engine);
    let steps = planned_steps(lower, model, multi_engine);
    if multi_engine {
        assert(steps[steps.len() - 3].pillar == "engine-parity"@);
    }
}

/// No plan calls a pillar twice.
pub proof fn pillars_are_planned_once(lower: Seq<char>, model: Seq<char>, multi_engine: bool, i: int, j: int)
    requires
        0 <= i < j < planned_steps(lower, model, multi_engine).len(),
    ensures
        planned_steps(lower, model, multi_engine)[i].pillar != planned_steps(lower, model, multi_engine)[j].pillar,
{
    lemma_pillars_differ();
    lemma_middle(lower, model, multi_engine);
    plan_has_fixed_ends(lower, model, multi_engine);
}

/// Every step of a plan carries the reason for which it was selected.
pub proof fn every_step_has_a_reason(lower: Seq<char>, model: Seq<char>, multi_engine: bool, i: int)
    requires
        0 <= i < planned_steps(lower, model, multi_engine).len(),
    ensures
        planned_steps(lower, model, multi_engine)[i].reason.len() > 0,
{
    lemma_middle(lower, model, multi_engine);
    plan_has_fixed_ends(lower, model, multi_engine);
    reveal_strlit("Always first: embed question against semantic catalog to identify relevant columns.");
    reveal_strlit("Always second: score column binding confidence to determine if clarification is needed.");
    reveal_strlit(
        "Conditional: fires if binding-confidence < 0.45; emits a clarify question and halts until --answer is provided.",
    );
    reveal_strlit("Period-over-period tokens detected in question: ");
    reveal_strlit("Model '");
    reveal_strlit("Always penultimate: scan for PII or forbidden field leakage before returning.");
    reveal_strlit("Always terminal: sign the final answer with provenance.");
}

proof fn lemma_part_of_joined(parts: Seq<Seq<char>>, sep: Seq<char>, i: int)
    requires
        0 <= i < parts.len(),
    ensures
        contains_text(joined(parts, sep), parts[i]),
    decreases parts.len(),
{
    if parts.len() == 1 {
        assert(joined(parts, sep).subrange(0, parts[0].len() as int) =~= parts[0]);
        assert(occurs_at(joined(parts, sep), parts[0], 0));
    } else {
        let front = joined(parts.drop_last(), sep);
        let whole = joined(parts, sep);
        if i == parts.len() - 1 {
            let at = front.len() + sep.len();
            assert(whole.subrange(at as int, (at + parts[i].len()) as int) =~= parts[i]);
            assert(occurs_at(whole, parts[i], at as int));
        } else {
            lemma_part_of_joined(parts.drop_last(), sep, i);
            let at = choose|at: int| occurs_at(front, parts[i], at);
            assert(whole.subrange(at, at + parts[i].len()) =~= front.subrange(at, at + parts[i].len()));
            assert(occurs_at(whole, parts[i], at));
        }
    }
}

/// The reason for a time-intelligence step quotes every token that was found.
pub proof fn time_intelligence_reason_quotes_tokens(lower: Seq<char>, i: int)
    requires
        0 <= i < period_tokens_in(lower).len(),
    ensures
        contains_text(time_intelligence_step(period_tokens_in(lower)).reason, period_tokens_in(lower)[i]),
{
    let tokens = period_tokens_in(lower);
    let list = joined(tokens, ", "@);
    let reason = time_intelligence_step(tokens).reason;
    lemma_part_of_joined(tokens, ", "@, i);
    let at = choose|at: int| occurs_at(list, tokens[i], at);
    let lead = "Period-over-period tokens detected in question: "@.len();
    assert(reason.subrange(lead + at, lead + at + tokens[i].len()) =~= list.subrange(at, at + tokens[i].len()));
    assert(occurs_at(reason, tokens[i], lead + at));
}

/// The tokens that are found are those of the table that stand in the question.
pub proof fn found_tokens_stand_in_question(lower: Seq<char>, token: Seq<char>)
    ensures
        period_tokens_in(lower).contains(token) <==> contains_text(lower, token) && exists|i: int|
            0 <= i < 13 && (#[trigger] PERIOD_TOKENS@[i])@ == token,
{
    lemma_found_among(lower, token, 13);
}

proof fn lemma_found_among(lower: Seq<char>, token: Seq<char>, n: nat)
    requires
        n <= 13,
    ensures
        tokens_among(lower, n).contains(token) <==> contains_text(lower, token) && exists|i: int|
            0 <= i < n && (#[trigger] PERIOD_TOKENS@[i])@ == token,
    decreases n,
{
    if n > 0 {
        lemma_found_among(lower, token, (n - 1) as nat);
        let before = tokens_among(lower, (n - 1) as nat);
        let last = PERIOD_TOKENS@[n - 1];
        let all = tokens_among(lower, n);
        if contains_text(lower, last@) {
            assert(all == before.push(last@));
            assert(all.last() == last@);
            if before.contains(token) {
                let i = choose|i: int| 0 <= i < before.len() && before[i] == token;
                assert(all[i] == token);
            }
            if all.contains(token) && token != last@ {
                let i = choose|i: int| 0 <= i < all.len() && all[i] == token;
                assert(before[i] == token);
            }
        }
        if exists|i: int| 0 <= i < n - 1 && (#[trigger] PERIOD_TOKENS@[i])@ == token {
            let i = choose|i: int| 0 <= i < n - 1 && (#[trigger] PERIOD_TOKENS@[i])@ == token;
            assert(0 <= i < n && PERIOD_TOKENS@[i]@ == token);
        }
    }
}

/// A token is found wherever it stands in a question, in whatever letter case.
pub proof fn period_found_in_any_letter_case(
    before: Seq<char>,
    word: Seq<char>,
    after: Seq<char>,
    i: int,
)
    requires
        0 <= i < 13,
        ascii_lowercased(word) == PERIOD_TOKENS@[i]@,
    ensures
        mentions_period(ascii_lowercased(before + word + after)),
{
    let lower = ascii_lowercased(before + word + after);
    let token = PERIOD_TOKENS@[i]@;
    assert(word.len() == token.len());
    assert(lower.subrange(before.len() as int, (before.len() + token.len()) as int) =~= ascii_lowercased(word));
    assert(occurs_at(lower, token, before.len() as int));
    assert(contains_text(lower, PERIOD_TOKENS@[i]@));
}

/// Text around a question never removes a token from it.
pub proof fn period_found_in_wider_question(before: Seq<char>, question: Seq<char>, after: Seq<char>)
    requires
        mentions_period(ascii_lowercased(question)),
    ensures
        mentions_period(ascii_lowercased(before + question + after)),
{
    let lower = ascii_lowercased(question);
    let wider = ascii_lowercased(before + question + after);
    let i = choose|i: int| 0 <= i < 13 && contains_text(lower, (#[trigger] PERIOD_TOKENS@[i])@);
    let token = PERIOD_TOKENS@[i]@;
    let at = choose|at: int| occurs_at(lower, token, at);
    let from = before.len() + at;
    assert(wider.subrange(from, from + token.len()) =~= lower.subrange(at, at + token.len()));
    assert(occurs_at(wider, token, from));
    assert(contains_text(wider, PERIOD_TOKENS@[i]@));
}

/// Letter case in ASCII leaves no trace once the ASCII letters are in lower case.
proof fn lemma_ascii_case_is_lost(text: Seq<char>)
    ensures
        ascii_lowercased(ascii_uppercased(text)) == ascii_lowercased(text),
        ascii_lowercased(ascii_lowercased(text)) == ascii_lowercased(text),
{
    assert(ascii_lowercased(ascii_uppercased(text)) =~= ascii_lowercased(text));
    assert(ascii_lowercased(ascii_lowercased(text)) =~= ascii_lowercased(text));
}

/// Letter case never changes whether a token is found in an ASCII question: put in upper or
/// in lower case, the question stays an ASCII one, and mentions a period just where it did.
pub proof fn period_found_alike_in_ascii_question(question: Seq<char>)
    requires
        is_ascii_chars(question),
    ensures
        is_ascii_chars(ascii_uppercased(question)),
        is_ascii_chars(ascii_lowercased(question)),
        mentions_period(ascii_lowercased(ascii_uppercased(question))) <==> mentions_period(ascii_lowercased(question)),
        mentions_period(ascii_lowercased(ascii_lowercased(question))) <==> mentions_period(ascii_lowercased(question)),
{
    lemma_ascii_case_is_lost(question);
}

/// Letter case in ASCII never changes whether a token is found in a question, whatever
/// characters stand in it.
pub proof fn period_found_alike_in_any_ascii_case(question: Seq<char>)
    ensures
        mentions_period(lowercased(ascii_lowercased(ascii_uppercased(question)))) <==> mentions_period(
            lowercased(ascii_lowercased(question)),
        ),
        mentions_period(lowercased(ascii_lowercased(ascii_lowercased(question)))) <==> mentions_period(
            lowercased(ascii_lowercased(question)),
        ),
{
    lemma_ascii_case_is_lost(question);
}

/// Two questions that differ in nothing but the letter case of ASCII letters are planned in
/// the same steps.
pub proof fn ascii_case_leaves_steps_alone(
    a: Seq<char>,
    b: Seq<char>,
    model: Seq<char>,
    planner: PlannerVariant,
    multi_engine: bool,
)
    requires
        ascii_uppercased(a) == ascii_uppercased(b),
    ensures
        planned(a, lowercased(ascii_lowercased(a)), model, planner, multi_engine).steps == planned(
            b,
            lowercased(ascii_lowercased(b)),
            model,
            planner,
            multi_engine,
        ).steps,
{
    lemma_ascii_case_is_lost(a);
    lemma_ascii_case_is_lost(b);
}

/// Which planner is chosen changes its name in the plan, and nothing else.
pub proof fn planner_variant_leaves_steps_alone(
    question: Seq<char>,
    lower: Seq<char>,
    model: Seq<char>,
    a: PlannerVariant,
    b: PlannerVariant,
    multi_engine: bool,
)
    ensures
        planned(question, lower, model, a, multi_engine).steps == planned(
            question,
            lower,
            model,
            b,
            multi_engine,
        ).steps,
{
}

/// Of all models, bundled or not, the planner takes just `internet_sales` to be on several
/// engines, as long as the fixtures are the bundled ones.
pub proof fn bundled_multi_engine_model(model: Seq<char>)
    ensures
        on_multiple_engines(model, bundled_fixtures()) <==> model == "internet_sales"@,
{
    lemma_models_differ();
}

proof fn lemma_models_differ()
    ensures
        "tasty_bytes"@ != "internet_sales"@,
        "tasty_bytes"@ != "__default__"@,
        "internet_sales"@ != "__default__"@,
{
    reveal_strlit("tasty_bytes");
    reveal_strlit("internet_sales");
    reveal_strlit("__default__");
    assert("tasty_bytes"@[0] != "__default__"@[0]);
}

/// Of each bundled model, the flag agrees with the number of engines, and the fixture bears
/// the name under which it is found.
pub proof fn bundled_flags_agree_with_counts(name: Seq<char>)
    requires
        bundled_fixtures().contains_key(name),
    ensures
        bundled_fixtures()[name].multi_engine <==> bundled_fixtures()[name].engine_count > 1,
        bundled_fixtures()[name].model == name,
{
    lemma_models_differ();
}

} // verus!
