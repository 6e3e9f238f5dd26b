//! Canned responses of the pillars, for runs without the pillar binaries.

use vstd::prelude::*;

use crate::confidence::{bucket_name, is_finite, Confidence};
use crate::json::{items_tree, members_tree, no_items, no_members, put, put_item, put_text, Json, JsonNumber, JsonTree};
use crate::text::same_text;

verus! {

/// The score that a mocked binding step reports: the bits of 0.82.
pub const MOCK_CONFIDENCE: u64 = 0x3FEA_3D70_A3D7_0A3D;

/// A question that the mocked catalog cannot bind.
pub const AMBIGUOUS_QUESTION: &'static str = "Revenue stuff";

/// The score that a mocked binding step reports for that question: the bits of 0.3.
pub const AMBIGUOUS_CONFIDENCE: u64 = 0x3FD3_3333_3333_3333;

/// The score that a mocked binding step reports for a question.
pub open spec fn mock_score(question: Seq<char>, confidence_override: Option<Confidence>) -> u64 {
    match confidence_override {
        Some(score) => score.bits,
        None => if question == AMBIGUOUS_QUESTION@ {
            AMBIGUOUS_CONFIDENCE
        } else {
            MOCK_CONFIDENCE
        },
    }
}

/// How a score is written in JSON, which has only finite numbers.
pub open spec fn score_tree(bits: u64) -> JsonTree {
    if is_finite(bits) {
        JsonTree::Number(JsonNumber::Float(bits))
    } else {
        JsonTree::Null
    }
}

/// The canned response of a pillar to a question.
pub open spec fn mock_tree(
    pillar: Seq<char>,
    question: Seq<char>,
    confidence_override: Option<Confidence>,
) -> JsonTree {
    if pillar == "catalog-embed"@ {
        JsonTree::Object(
            seq![
                ("embedded_tokens"@, JsonTree::Number(JsonNumber::PosInt(12))),
                ("pillar"@, JsonTree::Str("catalog-embed"@)),
                ("status"@, JsonTree::Str("ok"@)),
                (
                    "top_matches"@,
                    JsonTree::Array(
                        seq![JsonTree::Str("revenue"@), JsonTree::Str("region"@), JsonTree::Str("category"@)],
                    ),
                ),
            ],
        )
    } else if pillar == "binding-confidence"@ {
        let score = mock_score(question, confidence_override);
        JsonTree::Object(
            seq![
                ("bucket"@, JsonTree::Str(bucket_name(score))),
                ("confidence"@, score_tree(score)),
                ("pillar"@, JsonTree::Str("binding-confidence"@)),
                ("question"@, JsonTree::Str(question)),
                ("status"@, JsonTree::Str("ok"@)),
            ],
        )
    } else if pillar == "clarify"@ {
        JsonTree::Object(
            seq![
                (
                    "clarify_question"@,
                    JsonTree::Str("Did you mean revenue by customer segment or by product category?"@),
                ),
                ("pillar"@, JsonTree::Str("clarify"@)),
                ("status"@, JsonTree::Str("clarify_needed"@)),
            ],
        )
    } else if pillar == "time-intelligence"@ {
        JsonTree::Object(
            seq![
                ("anchor_date"@, JsonTree::Str("2024-12-31"@)),
                ("comparison_window"@, JsonTree::Str("2023-12-31"@)),
                ("period"@, JsonTree::Str("year-over-year"@)),
                ("pillar"@, JsonTree::Str("time-intelligence"@)),
                ("status"@, JsonTree::Str("ok"@)),
            ],
        )
    } else if pillar == "engine-parity"@ {
        JsonTree::Object(
            seq![
                ("engines"@, JsonTree::Array(seq![JsonTree::Str("bigquery"@), JsonTree::Str("snowflake"@)])),
                ("parity"@, JsonTree::Str("verified"@)),
                ("pillar"@, JsonTree::Str("engine-parity"@)),
                ("status"@, JsonTree::Str("ok"@)),
            ],
        )
    } else if pillar == "sensitivity-scan"@ {
        JsonTree::Object(
            seq![
                ("cleared"@, JsonTree::Bool(true)),
                ("pillar"@, JsonTree::Str("sensitivity-scan"@)),
                ("status"@, JsonTree::Str("ok"@)),
                ("violations"@, JsonTree::Array(Seq::empty())),
            ],
        )
    } else if pillar == "rosetta-credential"@ {
        JsonTree::Object(
            seq![
                ("answer"@, JsonTree::Str("Query executed successfully with verified provenance."@)),
                ("pillar"@, JsonTree::Str("rosetta-credential"@)),
                ("provenance"@, JsonTree::Str("rosetta-signed"@)),
                ("status"@, JsonTree::Str("ok"@)),
            ],
        )
    } else {
        JsonTree::Object(seq![("pillar"@, JsonTree::Str(pillar)), ("status"@, JsonTree::Str("ok"@))])
    }
}

/// The score that a mocked binding step reports.
fn mocked_confidence(question: &str, confidence_override: Option<Confidence>) -> (score: Confidence)
    ensures
        score.bits == mock_score(question@, confidence_override),
{
    match confidence_override {
        Some(score) => score,
        None => if same_text(&question.to_string(), AMBIGUOUS_QUESTION) {
            Confidence { bits: AMBIGUOUS_CONFIDENCE }
        } else {
            Confidence { bits: MOCK_CONFIDENCE }
        },
    }
}

/// Returns a canned mock response for a given pillar + question.
/// These are deterministic and stable across runs.
pub fn mock_response(pillar: &str, question: &str, confidence_override: Option<Confidence>) -> (response: Json)
    ensures
        response.tree() == mock_tree(pillar@, question@, confidence_override),
{
    let name = pillar.to_string();
    let mut members = no_members();
    if same_text(&name, "catalog-embed") {
        let mut matches = no_items();
        put_item(&mut matches, Json::text("revenue"));
        put_item(&mut matches, Json::text("region"));
        put_item(&mut matches, Json::text("category"));
        assert(items_tree(matches@) =~= seq![
            JsonTree::Str("revenue"@),
            JsonTree::Str("region"@),
            JsonTree::Str("category"@),
        ]);
        put(&mut members, "embedded_tokens", Json::Number(JsonNumber::PosInt(12)));
        put_text(&mut members, "pillar", "catalog-embed");
        put_text(&mut members, "status", "ok");
        put(&mut members, "top_matches", Json::array(matches));
    } else if same_text(&name, "binding-confidence") {
        let score = mocked_confidence(question, confidence_override);
        put_text(&mut members, "bucket", score.bucket());
        if score.is_finite() {
            put(&mut members, "confidence", Json::Number(JsonNumber::Float(score.bits)));
        } else {
            put(&mut members, "confidence", Json::Null);
        }
        put_text(&mut members, "pillar", "binding-confidence");
        put_text(&mut members, "question", question);
        put_text(&mut members, "status", "ok");
    } else if same_text(&name, "clarify") {
        put_text(
            &mut members,
            "clarify_question",
            "Did you mean revenue by customer segment or by product category?",
        );
        put_text(&mut members, "pillar", "clarify");
        put_text(&mut members, "status", "clarify_needed");
    } else if same_text(&name, "time-intelligence") {
        put_text(&mut members, "anchor_date", "2024-12-31");
        put_text(&mut members, "comparison_window", "2023-12-31");
        put_text(&mut members, "period", "year-over-year");
        put_text(&mut members, "pillar", "time-intelligence");
        put_text(&mut members, "status", "ok");
    } else if same_text(&name, "engine-parity") {
        let mut engines = no_items();
        put_item(&mut engines, Json::text("bigquery"));
        put_item(&mut engines, Json::text("snowflake"));
        assert(items_tree(engines@) =~= seq![JsonTree::Str("bigquery"@), JsonTree::Str("snowflake"@)]);
        put(&mut members, "engines", Json::array(engines));
        put_text(&mut members, "parity", "verified");
        put_text(&mut members, "pillar", "engine-parity");
        put_text(&mut members, "status", "ok");
    } else if same_text(&name, "sensitivity-scan") {
        put(&mut members, "cleared", Json::Bool(true));
        put_text(&mut members, "pillar", "sensitivity-scan");
        put_text(&mut members, "status", "ok");
        put(&mut members, "violations", Json::array(no_items()));
    } else if same_text(&name, "rosetta-credential") {
        put_text(&mut members, "answer", "Query executed successfully with verified provenance.");
        put_text(&mut members, "pillar", "rosetta-credential");
        put_text(&mut members, "provenance", "rosetta-signed");
        put_text(&mut members, "status", "ok");
    } else {
        put_text(&mut members, "pillar", pillar);
        put_text(&mut members, "status", "ok");
    }
    assert(members_tree(members@) =~= mock_tree(pillar@, question@, confidence_override)->Object_0);
    Json::object(members)
}

} // verus!
