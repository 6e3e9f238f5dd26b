//! What holds of the canned responses.

use vstd::prelude::*;

use crate::confidence::{below, is_finite, Confidence};
use crate::json::{JsonNumber, JsonTree};
use crate::laws::planning::lemma_pillars_differ;
use crate::laws::reading::{lemma_member_at, names_of};
use crate::mock::mock_tree;

verus! {

proof fn lemma_names()
    ensures
        "pillar"@.len() == 6 && "pillar"@[0] == 'p' && "pillar"@[1] == 'i',
        "status"@.len() == 6 && "status"@[0] == 's',
        "bucket"@.len() == 6 && "bucket"@[0] == 'b',
        "period"@.len() == 6 && "period"@[0] == 'p' && "period"@[1] == 'e',
        "parity"@.len() == 6 && "parity"@[0] == 'p' && "parity"@[1] == 'a',
        "answer"@.len() == 6 && "answer"@[0] == 'a',
        "engines"@.len() == 7,
        "cleared"@.len() == 7,
        "question"@.len() == 8,
        "confidence"@.len() == 10 && "confidence"@[0] == 'c',
        "violations"@.len() == 10 && "violations"@[0] == 'v',
        "provenance"@.len() == 10 && "provenance"@[0] == 'p',
        "top_matches"@.len() == 11,
        "anchor_date"@.len() == 11,
        "embedded_tokens"@.len() == 15,
        "clarify_question"@.len() == 16,
        "comparison_window"@.len() == 17,
{
    reveal_strlit("pillar");
    reveal_strlit("status");
    reveal_strlit("bucket");
    reveal_strlit("period");
    reveal_strlit("parity");
    reveal_strlit("answer");
    reveal_strlit("engines");
    reveal_strlit("cleared");
    reveal_strlit("question");
    reveal_strlit("confidence");
    reveal_strlit("violations");
    reveal_strlit("provenance");
    reveal_strlit("top_matches");
    reveal_strlit("anchor_date");
    reveal_strlit("embedded_tokens");
    reveal_strlit("clarify_question");
    reveal_strlit("comparison_window");
}

/// Of no pillar but the binding one does the response depend on the question or on the score
/// that was set.
pub proof fn only_binding_depends_on_the_question(
    pillar: Seq<char>,
    a: Seq<char>,
    b: Seq<char>,
    x: Option<Confidence>,
    y: Option<Confidence>,
)
    requires
        pillar != "binding-confidence"@,
    ensures
        mock_tree(pillar, a, x) == mock_tree(pillar, b, y),
{
}

/// The binding pillar repeats the question and reports the score that was set, as JSON can
/// hold it, and where none was set, 0.3 for the ambiguous question and 0.82 for any other. The
/// score is put in words: low below 0.45, medium below 0.7, and else high.
pub proof fn binding_reports_the_score(question: Seq<char>, score: Option<Confidence>)
    ensures
        ({
            let output = mock_tree("binding-confidence"@, question, score);
            let bits: u64 = match score {
                Some(score) => score.bits,
                None => if question == "Revenue stuff"@ {
                    0x3FD3_3333_3333_3333
                } else {
                    0x3FEA_3D70_A3D7_0A3D
                },
            };
            &&& output is Object
            &&& names_of(output) == seq!["bucket"@, "confidence"@, "pillar"@, "question"@, "status"@]
            &&& output.get("pillar"@) == Some(JsonTree::Str("binding-confidence"@))
            &&& output.get("status"@) == Some(JsonTree::Str("ok"@))
            &&& output.get("question"@) == Some(JsonTree::Str(question))
            &&& is_finite(bits) ==> output.get("confidence"@) == Some(JsonTree::Number(JsonNumber::Float(bits)))
            &&& is_finite(bits) ==> output.get_double("confidence"@) == Some(bits)
            &&& !is_finite(bits) ==> output.get("confidence"@) == Some(JsonTree::Null)
            &&& below(bits, 0x3FDC_CCCC_CCCC_CCCD) ==> output.get("bucket"@) == Some(JsonTree::Str("low"@))
            &&& !below(bits, 0x3FDC_CCCC_CCCC_CCCD) && below(bits, 0x3FE6_6666_6666_6666) ==> output.get("bucket"@)
                == Some(JsonTree::Str("medium"@))
            &&& !below(bits, 0x3FDC_CCCC_CCCC_CCCD) && !below(bits, 0x3FE6_6666_6666_6666) ==> output.get("bucket"@)
                == Some(JsonTree::Str("high"@))
        }),
{
    lemma_pillars_differ();
    lemma_names();
    let output = mock_tree("binding-confidence"@, question, score);
    let members = output->Object_0;
    lemma_member_at(members, 0);
    lemma_member_at(members, 1);
    lemma_member_at(members, 2);
    lemma_member_at(members, 3);
    lemma_member_at(members, 4);
    assert(names_of(output) =~= seq!["bucket"@, "confidence"@, "pillar"@, "question"@, "status"@]);
}

/// The clarify pillar asks for a clarification.
pub proof fn clarify_asks(question: Seq<char>, score: Option<Confidence>)
    ensures
        ({
            let output = mock_tree("clarify"@, question, score);
            &&& output is Object
            &&& names_of(output) == seq!["clarify_question"@, "pillar"@, "status"@]
            &&& output.get("pillar"@) == Some(JsonTree::Str("clarify"@))
            &&& output.get("status"@) == Some(JsonTree::Str("clarify_needed"@))
            &&& output.get("clarify_question"@) == Some(
                JsonTree::Str("Did you mean revenue by customer segment or by product category?"@),
            )
        }),
{
    lemma_pillars_differ();
    lemma_names();
    let output = mock_tree("clarify"@, question, score);
    let members = output->Object_0;
    lemma_member_at(members, 0);
    lemma_member_at(members, 1);
    lemma_member_at(members, 2);
    assert(names_of(output) =~= seq!["clarify_question"@, "pillar"@, "status"@]);
}

/// What the pillars at the two ends of a plan are answered: the embedding has three matches,
/// the scan clears the answer, and the credential signs it.
pub proof fn ends_of_a_plan_are_answered(question: Seq<char>, score: Option<Confidence>)
    ensures
        ({
            let output = mock_tree("catalog-embed"@, question, score);
            &&& output is Object
            &&& names_of(output) == seq!["embedded_tokens"@, "pillar"@, "status"@, "top_matches"@]
            &&& output.get("pillar"@) == Some(JsonTree::Str("catalog-embed"@))
            &&& output.get("status"@) == Some(JsonTree::Str("ok"@))
            &&& output.get("embedded_tokens"@) == Some(JsonTree::Number(JsonNumber::PosInt(12)))
            &&& output.get("top_matches"@) == Some(
                JsonTree::Array(seq![JsonTree::Str("revenue"@), JsonTree::Str("region"@), JsonTree::Str("category"@)]),
            )
        }),
        ({
            let output = mock_tree("sensitivity-scan"@, question, score);
            &&& output is Object
            &&& names_of(output) == seq!["cleared"@, "pillar"@, "status"@, "violations"@]
            &&& output.get("pillar"@) == Some(JsonTree::Str("sensitivity-scan"@))
            &&& output.get("status"@) == Some(JsonTree::Str("ok"@))
            &&& output.get("cleared"@) == Some(JsonTree::Bool(true))
            &&& output.get("violations"@) == Some(JsonTree::Array(Seq::empty()))
        }),
        ({
            let output = mock_tree("rosetta-credential"@, question, score);
            &&& output is Object
            &&& names_of(output) == seq!["answer"@, "pillar"@, "provenance"@, "status"@]
            &&& output.get("pillar"@) == Some(JsonTree::Str("rosetta-credential"@))
            &&& output.get("status"@) == Some(JsonTree::Str("ok"@))
            &&& output.get("provenance"@) == Some(JsonTree::Str("rosetta-signed"@))
            &&& output.get("answer"@) == Some(JsonTree::Str("Query executed successfully with verified provenance."@))
        }),
{
    lemma_pillars_differ();
    lemma_names();
    let embed = mock_tree("catalog-embed"@, question, score);
    lemma_member_at(embed->Object_0, 0);
    lemma_member_at(embed->Object_0, 1);
    lemma_member_at(embed->Object_0, 2);
    lemma_member_at(embed->Object_0, 3);
    assert(names_of(embed) =~= seq!["embedded_tokens"@, "pillar"@, "status"@, "top_matches"@]);
    let scan = mock_tree("sensitivity-scan"@, question, score);
    lemma_member_at(scan->Object_0, 0);
    lemma_member_at(scan->Object_0, 1);
    lemma_member_at(scan->Object_0, 2);
    lemma_member_at(scan->Object_0, 3);
    assert("cleared"@ != "pillar"@ && "violations"@ != "status"@);
    assert(names_of(scan) =~= seq!["cleared"@, "pillar"@, "status"@, "violations"@]);
    let signed = mock_tree("rosetta-credential"@, question, score);
    lemma_member_at(signed->Object_0, 0);
    lemma_member_at(signed->Object_0, 1);
    lemma_member_at(signed->Object_0, 2);
    lemma_member_at(signed->Object_0, 3);
    assert(names_of(signed) =~= seq!["answer"@, "pillar"@, "provenance"@, "status"@]);
}

/// What the pillars in the middle of a plan are answered: the window of comparison, and that
/// the engines agree.
pub proof fn middle_of_a_plan_is_answered(question: Seq<char>, score: Option<Confidence>)
    ensures
        ({
            let output = mock_tree("time-intelligence"@, question, score);
            &&& output is Object
            &&& names_of(output) == seq!["anchor_date"@, "comparison_window"@, "period"@, "pillar"@, "status"@]
            &&& output.get("pillar"@) == Some(JsonTree::Str("time-intelligence"@))
            &&& output.get("status"@) == Some(JsonTree::Str("ok"@))
            &&& output.get("period"@) == Some(JsonTree::Str("year-over-year"@))
            &&& output.get("anchor_date"@) == Some(JsonTree::Str("2024-12-31"@))
            &&& output.get("comparison_window"@) == Some(JsonTree::Str("2023-12-31"@))
        }),
        ({
            let output = mock_tree("engine-parity"@, question, score);
            &&& output is Object
            &&& names_of(output) == seq!["engines"@, "parity"@, "pillar"@, "status"@]
            &&& output.get("pillar"@) == Some(JsonTree::Str("engine-parity"@))
            &&& output.get("status"@) == Some(JsonTree::Str("ok"@))
            &&& output.get("parity"@) == Some(JsonTree::Str("verified"@))
            &&& output.get("engines"@) == Some(
                JsonTree::Array(seq![JsonTree::Str("bigquery"@), JsonTree::Str("snowflake"@)]),
            )
        }),
{
    lemma_pillars_differ();
    lemma_names();
    let timed = mock_tree("time-intelligence"@, question, score);
    lemma_member_at(timed->Object_0, 0);
    lemma_member_at(timed->Object_0, 1);
    lemma_member_at(timed->Object_0, 2);
    lemma_member_at(timed->Object_0, 3);
    lemma_member_at(timed->Object_0, 4);
    assert(names_of(timed) =~= seq!["anchor_date"@, "comparison_window"@, "period"@, "pillar"@, "status"@]);
    let agreed = mock_tree("engine-parity"@, question, score);
    lemma_member_at(agreed->Object_0, 0);
    lemma_member_at(agreed->Object_0, 1);
    lemma_member_at(agreed->Object_0, 2);
    lemma_member_at(agreed->Object_0, 3);
    assert(names_of(agreed) =~= seq!["engines"@, "parity"@, "pillar"@, "status"@]);
}

/// Any other pillar is answered with its own name, and that it is in order.
pub proof fn other_pillars_are_in_order(pillar: Seq<char>, question: Seq<char>, score: Option<Confidence>)
    requires
        pillar != "catalog-embed"@,
        pillar != "binding-confidence"@,
        pillar != "clarify"@,
        pillar != "time-intelligence"@,
        pillar != "engine-parity"@,
        pillar != "sensitivity-scan"@,
        pillar != "rosetta-credential"@,
    ensures
        ({
            let output = mock_tree(pillar, question, score);
            &&& output is Object
            &&& names_of(output) == seq!["pillar"@, "status"@]
            &&& output.get("pillar"@) == Some(JsonTree::Str(pillar))
            &&& output.get("status"@) == Some(JsonTree::Str("ok"@))
        }),
{
    lemma_names();
    let output = mock_tree(pillar, question, score);
    lemma_member_at(output->Object_0, 0);
    lemma_member_at(output->Object_0, 1);
    assert(names_of(output) =~= seq!["pillar"@, "status"@]);
}

} // verus!
