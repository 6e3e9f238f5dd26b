//! What the bundled rule table says.

use vstd::prelude::*;

use crate::planner::DEFAULT_RULE_TABLE;
use crate::text::{contains_text, occurs_at};

verus! {

/// The rule table states the rules by which plans are made and run: the seven steps in the
/// order in which they are planned, the score below which the clarify step fires, the phrases
/// that mention a period, and the two planners.
pub proof fn rule_table_states_the_rules()
    ensures
        contains_text(
            DEFAULT_RULE_TABLE@,
            "# 1. catalog-embed       — ALWAYS first: embeds the question against the semantic catalog"@,
        ),
        contains_text(
            DEFAULT_RULE_TABLE@,
            "# 2. binding-confidence  — ALWAYS second: scores how well columns bound to the question"@,
        ),
        contains_text(
            DEFAULT_RULE_TABLE@,
            "# 3. clarify             — IF binding_confidence < LOW_CONF_THRESHOLD (0.45)"@,
        ),
        contains_text(
            DEFAULT_RULE_TABLE@,
            "#                          ↳ emits clarify_needed + question, halts until --answer provided"@,
        ),
        contains_text(
            DEFAULT_RULE_TABLE@,
            "# 4. time-intelligence   — IF question contains period-over-period tokens:"@,
        ),
        contains_text(
            DEFAULT_RULE_TABLE@,
            "#                          yoy, qoq, mom, ytd, \"year over year\", \"quarter over quarter\","@,
        ),
        contains_text(
            DEFAULT_RULE_TABLE@,
            "#                          \"month over month\", \"year-to-date\", \"prior year\", \"prior quarter\""@,
        ),
        contains_text(
            DEFAULT_RULE_TABLE@,
            "# 5. engine-parity       — IF model is registered on >1 engine (multi_engine fixture flag)"@,
        ),
        contains_text(
            DEFAULT_RULE_TABLE@,
            "# 6. sensitivity-scan    — ALWAYS before final answer; ensures no PII/forbidden fields leak"@,
        ),
        contains_text(
            DEFAULT_RULE_TABLE@,
            "# 7. rosetta-credential  — ALWAYS terminal: signs the final answer with provenance"@,
        ),
        contains_text(
            DEFAULT_RULE_TABLE@,
            "#   --planner deterministic (default): rule table above, no LLM"@,
        ),
        contains_text(
            DEFAULT_RULE_TABLE@,
            "#   --planner brain: consult local wm-brain for ordering (opt-in, not the test path)"@,
        ),
{
    reveal_strlit(
        r#"
# mqo-agent planner rule table (TOML-ish comment format for readability)
#
# Rule evaluation order (all rules are checked; highest-priority wins for ordering):
#
# 1. catalog-embed       — ALWAYS first: embeds the question against the semantic catalog
# 2. binding-confidence  — ALWAYS second: scores how well columns bound to the question
# 3. clarify             — IF binding_confidence < LOW_CONF_THRESHOLD (0.45)
#                          ↳ emits clarify_needed + question, halts until --answer provided
# 4. time-intelligence   — IF question contains period-over-period tokens:
#                          yoy, qoq, mom, ytd, "year over year", "quarter over quarter",
#                          "month over month", "year-to-date", "prior year", "prior quarter"
# 5. engine-parity       — IF model is registered on >1 engine (multi_engine fixture flag)
# 6. sensitivity-scan    — ALWAYS before final answer; ensures no PII/forbidden fields leak
# 7. rosetta-credential  — ALWAYS terminal: signs the final answer with provenance
#
# Planner variant:
#   --planner deterministic (default): rule table above, no LLM
#   --planner brain: consult local wm-brain for ordering (opt-in, not the test path)
"#,
    );
    reveal_strlit("# 1. catalog-embed       — ALWAYS first: embeds the question against the semantic catalog");
    assert(DEFAULT_RULE_TABLE@.subrange(163, 252) =~= "# 1. catalog-embed       — ALWAYS first: embeds the question against the semantic catalog"@);
    assert(occurs_at(DEFAULT_RULE_TABLE@, "# 1. catalog-embed       — ALWAYS first: embeds the question against the semantic catalog"@, 163));
    reveal_strlit("# 2. binding-confidence  — ALWAYS second: scores how well columns bound to the question");
    assert(DEFAULT_RULE_TABLE@.subrange(253, 340) =~= "# 2. binding-confidence  — ALWAYS second: scores how well columns bound to the question"@);
    assert(occurs_at(DEFAULT_RULE_TABLE@, "# 2. binding-confidence  — ALWAYS second: scores how well columns bound to the question"@, 253));
    reveal_strlit("# 3. clarify             — IF binding_confidence < LOW_CONF_THRESHOLD (0.45)");
    assert(DEFAULT_RULE_TABLE@.subrange(341, 417) =~= "# 3. clarify             — IF binding_confidence < LOW_CONF_THRESHOLD (0.45)"@);
    assert(occurs_at(DEFAULT_RULE_TABLE@, "# 3. clarify             — IF binding_confidence < LOW_CONF_THRESHOLD (0.45)"@, 341));
    reveal_strlit("#                          ↳ emits clarify_needed + question, halts until --answer provided");
    assert(DEFAULT_RULE_TABLE@.subrange(418, 509) =~= "#                          ↳ emits clarify_needed + question, halts until --answer provided"@);
    assert(occurs_at(DEFAULT_RULE_TABLE@, "#                          ↳ emits clarify_needed + question, halts until --answer provided"@, 418));
    reveal_strlit("# 4. time-intelligence   — IF question contains period-over-period tokens:");
    assert(DEFAULT_RULE_TABLE@.subrange(510, 584) =~= "# 4. time-intelligence   — IF question contains period-over-period tokens:"@);
    assert(occurs_at(DEFAULT_RULE_TABLE@, "# 4. time-intelligence   — IF question contains period-over-period tokens:"@, 510));
    reveal_strlit("#                          yoy, qoq, mom, ytd, \"year over year\", \"quarter over quarter\",");
    assert(DEFAULT_RULE_TABLE@.subrange(585, 673) =~= "#                          yoy, qoq, mom, ytd, \"year over year\", \"quarter over quarter\","@);
    assert(occurs_at(DEFAULT_RULE_TABLE@, "#                          yoy, qoq, mom, ytd, \"year over year\", \"quarter over quarter\","@, 585));
    reveal_strlit("#                          \"month over month\", \"year-to-date\", \"prior year\", \"prior quarter\"");
    assert(DEFAULT_RULE_TABLE@.subrange(674, 766) =~= "#                          \"month over month\", \"year-to-date\", \"prior year\", \"prior quarter\""@);
    assert(occurs_at(DEFAULT_RULE_TABLE@, "#                          \"month over month\", \"year-to-date\", \"prior year\", \"prior quarter\""@, 674));
    reveal_strlit("# 5. engine-parity       — IF model is registered on >1 engine (multi_engine fixture flag)");
    assert(DEFAULT_RULE_TABLE@.subrange(767, 857) =~= "# 5. engine-parity       — IF model is registered on >1 engine (multi_engine fixture flag)"@);
    assert(occurs_at(DEFAULT_RULE_TABLE@, "# 5. engine-parity       — IF model is registered on >1 engine (multi_engine fixture flag)"@, 767));
    reveal_strlit("# 6. sensitivity-scan    — ALWAYS before final answer; ensures no PII/forbidden fields leak");
    assert(DEFAULT_RULE_TABLE@.subrange(858, 949) =~= "# 6. sensitivity-scan    — ALWAYS before final answer; ensures no PII/forbidden fields leak"@);
    assert(occurs_at(DEFAULT_RULE_TABLE@, "# 6. sensitivity-scan    — ALWAYS before final answer; ensures no PII/forbidden fields leak"@, 858));
    reveal_strlit("# 7. rosetta-credential  — ALWAYS terminal: signs the final answer with provenance");
    assert(DEFAULT_RULE_TABLE@.subrange(950, 1032) =~= "# 7. rosetta-credential  — ALWAYS terminal: signs the final answer with provenance"@);
    assert(occurs_at(DEFAULT_RULE_TABLE@, "# 7. rosetta-credential  — ALWAYS terminal: signs the final answer with provenance"@, 950));
    reveal_strlit("#   --planner deterministic (default): rule table above, no LLM");
    assert(DEFAULT_RULE_TABLE@.subrange(1054, 1117) =~= "#   --planner deterministic (default): rule table above, no LLM"@);
    assert(occurs_at(DEFAULT_RULE_TABLE@, "#   --planner deterministic (default): rule table above, no LLM"@, 1054));
    reveal_strlit("#   --planner brain: consult local wm-brain for ordering (opt-in, not the test path)");
    assert(DEFAULT_RULE_TABLE@.subrange(1118, 1202) =~= "#   --planner brain: consult local wm-brain for ordering (opt-in, not the test path)"@);
    assert(occurs_at(DEFAULT_RULE_TABLE@, "#   --planner brain: consult local wm-brain for ordering (opt-in, not the test path)"@, 1118));
}

} // verus!
