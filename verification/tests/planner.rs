//! Planning: which pillars a question needs.

use mqo_agent::{
    build_plan, build_plan_from, bundled_model_fixtures, find_period_tokens, has_period_tokens, is_multi_engine, FixtureMap,
    Json, JsonNumber, ModelFixture, Plan, PlanStep, PlannerOptions, PlannerVariant, DEFAULT_RULE_TABLE, PERIOD_TOKENS,
};

fn default_opts() -> PlannerOptions {
    PlannerOptions::default()
}

#[test]
fn ac1_yoy_question_includes_time_intelligence() {
    let plan = build_plan("Show me revenue YoY by region", "internet_sales", &default_opts());
    let pillars: Vec<&str> = plan.steps.iter().map(|s| s.pillar.as_str()).collect();
    assert!(
        pillars.contains(&"time-intelligence"),
        "YoY question must include time-intelligence step; got: {:?}",
        pillars
    );
    // Also verify the reason records the token
    let ti = plan.steps.iter().find(|s| s.pillar == "time-intelligence").unwrap();
    assert!(
        ti.reason.to_lowercase().contains("yoy"),
        "time-intelligence reason should mention 'yoy'"
    );
}

#[test]
fn ac1_no_period_tokens_omits_time_intelligence() {
    let plan = build_plan("Show me menu items by category", "tasty_bytes", &default_opts());
    let pillars: Vec<&str> = plan.steps.iter().map(|s| s.pillar.as_str()).collect();
    assert!(
        !pillars.contains(&"time-intelligence"),
        "Non-period question must NOT include time-intelligence; got: {:?}",
        pillars
    );
}

#[test]
fn ac1_period_token_variants() {
    for token in &["QoQ", "MoM", "year over year", "prior quarter", "YTD", "year-to-date"] {
        let q = format!("Show me sales {} comparison", token);
        let plan = build_plan(&q, "tasty_bytes", &default_opts());
        let has_ti = plan.steps.iter().any(|s| s.pillar == "time-intelligence");
        assert!(has_ti, "token '{}' should trigger time-intelligence", token);
    }
}

#[test]
fn ac2_multi_engine_includes_engine_parity() {
    let plan = build_plan("What is total revenue?", "internet_sales", &default_opts());
    let pillars: Vec<&str> = plan.steps.iter().map(|s| s.pillar.as_str()).collect();
    assert!(
        pillars.contains(&"engine-parity"),
        "multi-engine model must include engine-parity; got: {:?}",
        pillars
    );
}

#[test]
fn ac2_single_engine_omits_engine_parity() {
    let plan = build_plan("What are the top menu items?", "tasty_bytes", &default_opts());
    let pillars: Vec<&str> = plan.steps.iter().map(|s| s.pillar.as_str()).collect();
    assert!(
        !pillars.contains(&"engine-parity"),
        "single-engine model must NOT include engine-parity; got: {:?}",
        pillars
    );
}

#[test]
fn ac5_sensitivity_scan_before_final_answer() {
    let plan = build_plan("What is revenue by region?", "tasty_bytes", &default_opts());
    let pillars: Vec<&str> = plan.steps.iter().map(|s| s.pillar.as_str()).collect();
    let sens_pos = pillars.iter().position(|&p| p == "sensitivity-scan");
    let rosetta_pos = pillars.iter().position(|&p| p == "rosetta-credential");
    assert!(sens_pos.is_some(), "sensitivity-scan must be in plan");
    assert!(rosetta_pos.is_some(), "rosetta-credential must be in plan");
    assert!(
        sens_pos.unwrap() < rosetta_pos.unwrap(),
        "sensitivity-scan must precede rosetta-credential"
    );
}

#[test]
fn ac5_rosetta_credential_is_terminal() {
    for (q, m) in &[("revenue by region", "tasty_bytes"), ("revenue YoY", "internet_sales")] {
        let plan = build_plan(q, m, &default_opts());
        let last = plan.steps.last().unwrap();
        assert_eq!(
            last.pillar, "rosetta-credential",
            "rosetta-credential must be the last step; got '{}'",
            last.pillar
        );
    }
}

#[test]
fn ac5_sensitivity_scan_before_rosetta_yoy_multi_engine() {
    let plan = build_plan("revenue YoY EMEA vs AMER", "internet_sales", &default_opts());
    let pillars: Vec<&str> = plan.steps.iter().map(|s| s.pillar.as_str()).collect();
    let sens_pos = pillars.iter().position(|&p| p == "sensitivity-scan").unwrap();
    let rosetta_pos = pillars.iter().position(|&p| p == "rosetta-credential").unwrap();
    assert!(
        sens_pos < rosetta_pos,
        "sensitivity-scan must be before rosetta-credential in YoY/multi-engine plan"
    );
}

#[test]
fn ac6_rule_table_is_non_empty_and_readable() {
    assert!(DEFAULT_RULE_TABLE.len() > 100, "rule table must be non-empty");
    assert!(DEFAULT_RULE_TABLE.contains("catalog-embed"), "rule table must mention catalog-embed");
    assert!(DEFAULT_RULE_TABLE.contains("rosetta-credential"), "rule table must mention rosetta-credential");
    assert!(DEFAULT_RULE_TABLE.contains("LOW_CONF_THRESHOLD"), "rule table must document threshold");
}

#[test]
fn ac8_plan_via_planner_returns_valid_structure() {
    let opts = PlannerOptions::default();
    let plan = build_plan("revenue by region", "tasty_bytes", &opts);
    // Plan must have at least catalog-embed, binding-confidence, sensitivity-scan, rosetta-credential
    let pillars: Vec<&str> = plan.steps.iter().map(|s| s.pillar.as_str()).collect();
    for required in &["catalog-embed", "binding-confidence", "sensitivity-scan", "rosetta-credential"] {
        assert!(pillars.contains(required), "plan missing required pillar: {}", required);
    }
}

#[test]
fn main_plan_returns_non_empty_steps() {
    let opts = PlannerOptions::default();
    let plan = build_plan("total revenue by region", "__default__", &opts);
    assert!(!plan.steps.is_empty(), "plan must have steps");
}

#[test]
fn plan_is_laid_out() {
    let plan = build_plan("Show me revenue YoY by EMEA region", "internet_sales", &default_opts());
    let expected = "\
Plan for: Show me revenue YoY by EMEA region
Model:    internet_sales
Planner:  deterministic

   1. catalog-embed         mqo-catalog-embed
      Reason: Always first: embed question against semantic catalog to identify relevant columns.
   2. binding-confidence    mqo-binding-confidence
      Reason: Always second: score column binding confidence to determine if clarification is needed.
   3. clarify               mqo-clarify
      Reason: Conditional: fires if binding-confidence < 0.45; emits a clarify question and halts until --answer is provided.
   4. time-intelligence     mqo-time-intelligence
      Reason: Period-over-period tokens detected in question: yoy
   5. engine-parity         mqo-engine-parity
      Reason: Model 'internet_sales' is registered on multiple query engines; engine-parity ensures consistent results across them.
   6. sensitivity-scan      mqo-sensitivity-scan
      Reason: Always penultimate: scan for PII or forbidden field leakage before returning.
   7. rosetta-credential    rosetta-credential
      Reason: Always terminal: sign the final answer with provenance.
";
    assert_eq!(plan.render(), expected);
}

#[test]
fn every_token_is_found_and_listed_in_order() {
    let mut question = String::from("compare");
    for token in PERIOD_TOKENS.iter().rev() {
        question.push_str("; ");
        question.push_str(&token.to_uppercase());
        assert!(has_period_tokens(&token.to_uppercase()));
    }
    let plan = build_plan(&question, "tasty_bytes", &default_opts());
    let step = plan.steps.iter().find(|s| s.pillar == "time-intelligence").unwrap();
    assert_eq!(
        step.reason,
        format!("Period-over-period tokens detected in question: {}", PERIOD_TOKENS.join(", "))
    );
}

#[test]
fn tokens_are_sought_in_lower_case() {
    assert!(has_period_tokens("YoY"));
    assert!(has_period_tokens("a moment"));
    assert!(!has_period_tokens("revenue by region"));
    assert!(!has_period_tokens(""));
    // The Kelvin sign and the dotted capital I have lower-case forms of their own.
    assert_eq!(find_period_tokens("yoy and ytd"), vec!["yoy", "ytd"]);
    assert!(find_period_tokens("YOY").is_empty());
    assert!(has_period_tokens("\u{212A}ONTO QOQ \u{130}"));
}

#[test]
fn ascii_letter_case_is_immaterial() {
    for (question, found) in [
        ("Revenue yOy by Region", true),
        ("Year-On-Year, pRIOR qUARTER", true),
        ("Menu items by Category", false),
        ("Ums\u{c4}tze YoY f\u{fc}r \u{130}zmir", true),
        ("\u{39f}\u{394}\u{39f}\u{3a3}Mom\u{39f}\u{394}\u{39f}\u{3a3}", true),
        ("a\u{3a3} A\u{3a3}b \u{3a3}C", false),
        ("pr\u{130}or year", false),
        ("\u{212a}elvin", false),
        ("", false),
    ] {
        let upper = question.to_ascii_uppercase();
        let lower = question.to_ascii_lowercase();
        assert_eq!(has_period_tokens(question), found, "{}", question);
        assert_eq!(has_period_tokens(&upper), found, "{}", upper);
        assert_eq!(has_period_tokens(&lower), found, "{}", lower);
        let plan = build_plan(question, "internet_sales", &default_opts());
        assert_eq!(plan.steps.iter().any(|s| s.pillar == "time-intelligence"), found);
        assert_eq!(build_plan(&upper, "internet_sales", &default_opts()).steps, plan.steps);
        assert_eq!(build_plan(&lower, "internet_sales", &default_opts()).steps, plan.steps);
    }
}

#[test]
fn text_around_a_question_removes_no_token() {
    for question in ["revenue YoY", "Prior Quarter", "\u{c4}rger MoM \u{3a3}", "\u{3a3}ytd\u{130}"] {
        assert!(has_period_tokens(question));
        for (before, after) in
            [("", "?"), ("Show me ", " by region"), ("a", "b"), ("\u{39f}", "\u{3a3}"), ("\u{130}", "\u{212a}"), ("y", "y")]
        {
            let wider = format!("{}{}{}", before, question, after);
            assert!(has_period_tokens(&wider), "{}", wider);
            let plan = build_plan(&wider, "tasty_bytes", &default_opts());
            assert_eq!(plan.steps[3].pillar, "time-intelligence");
        }
    }
}

#[test]
fn fixtures_are_written_in_field_order() {
    let fixtures = bundled_model_fixtures();
    let json = fixtures.get("internet_sales").unwrap().to_json();
    match &json {
        Json::Object(members) => {
            let names: Vec<&str> = members.iter().map(|(name, _)| name.as_str()).collect();
            assert_eq!(names, vec!["model", "multi_engine", "engine_count"]);
        }
        other => panic!("not an object: {:?}", other),
    }
    assert_eq!(json.get_str("model"), Some("internet_sales"));
    assert_eq!(json.get_bool("multi_engine"), Some(true));
    assert!(matches!(json.get("engine_count"), Some(Json::Number(JsonNumber::PosInt(2)))));
}

#[test]
fn tokens_are_found_beside_any_character() {
    let mut question = String::new();
    for c in '\0'..=char::MAX {
        question.clear();
        question.push(c);
        question.push_str("YtD");
        question.push(c);
        assert!(has_period_tokens(&question), "{:?}", c);
    }
}

#[test]
fn plan_can_be_built_from_a_lowered_question() {
    let given = build_plan_from("Sales YoY", "sales yoy", "tasty_bytes", &default_opts());
    let built = build_plan("Sales YoY", "tasty_bytes", &default_opts());
    assert_eq!(given.steps, built.steps);
    let other = build_plan_from("Sales YoY", "sales", "tasty_bytes", &default_opts());
    assert_eq!(other.steps.len(), 5);
}

#[test]
fn plans_have_five_to_seven_steps_with_fixed_ends() {
    for (question, model, len) in [
        ("revenue", "tasty_bytes", 5),
        ("revenue yoy", "tasty_bytes", 6),
        ("revenue", "internet_sales", 6),
        ("revenue yoy", "internet_sales", 7),
    ] {
        let plan = build_plan(question, model, &default_opts());
        let pillars: Vec<&str> = plan.steps.iter().map(|s| s.pillar.as_str()).collect();
        assert_eq!(pillars.len(), len);
        assert_eq!(pillars[..3], ["catalog-embed", "binding-confidence", "clarify"]);
        assert_eq!(pillars[len - 2..], ["sensitivity-scan", "rosetta-credential"]);
        for (i, a) in pillars.iter().enumerate() {
            assert!(!pillars[i + 1..].contains(a), "{} is planned twice", a);
        }
        assert!(plan.steps.iter().all(|s| !s.reason.is_empty()));
    }
}

#[test]
fn planner_variant_changes_the_name_alone() {
    let mut opts = default_opts();
    let deterministic = build_plan("revenue YoY", "internet_sales", &opts);
    opts.planner = PlannerVariant::Brain;
    let brain = build_plan("revenue YoY", "internet_sales", &opts);
    assert_eq!(deterministic.planner, "deterministic");
    assert_eq!(brain.planner, "brain");
    assert_eq!(deterministic.steps, brain.steps);
}

#[test]
fn bundled_fixtures_are_those_of_the_models() {
    let fixtures = bundled_model_fixtures();
    for (name, multi_engine, engine_count) in
        [("tasty_bytes", false, 1), ("internet_sales", true, 2), ("__default__", false, 1)]
    {
        let fixture = fixtures.get(name).unwrap();
        assert_eq!(fixture.model, name);
        assert_eq!(fixture.multi_engine, multi_engine);
        assert_eq!(fixture.engine_count, engine_count);
        assert_eq!(is_multi_engine(name, &fixtures), multi_engine);
    }
    assert!(fixtures.get("other").is_none());
    assert!(!is_multi_engine("other", &fixtures));
}

#[test]
fn unknown_models_go_by_the_default_fixture() {
    let mut fixtures = FixtureMap::new();
    assert!(!is_multi_engine("other", &fixtures));
    fixtures.insert(
        "__default__".to_string(),
        ModelFixture { model: "__default__".to_string(), multi_engine: true, engine_count: 3 },
    );
    assert!(is_multi_engine("other", &fixtures));
    fixtures.insert(
        "other".to_string(),
        ModelFixture { model: "other".to_string(), multi_engine: false, engine_count: 1 },
    );
    assert!(!is_multi_engine("other", &fixtures));
    // A second fixture takes the place of the first.
    fixtures.insert(
        "other".to_string(),
        ModelFixture { model: "other".to_string(), multi_engine: true, engine_count: 2 },
    );
    assert!(is_multi_engine("other", &fixtures));
    assert_eq!(fixtures.get("other").unwrap().engine_count, 2);
    let opts = PlannerOptions { planner: PlannerVariant::Deterministic, model_fixtures: fixtures.clone() };
    let plan = build_plan("revenue", "unheard_of", &opts);
    assert_eq!(
        plan.steps[3].reason,
        "Model 'unheard_of' is registered on multiple query engines; engine-parity ensures consistent results across them."
    );
}

#[test]
fn long_plans_are_aligned() {
    let step = PlanStep {
        pillar: "a-pillar-with-a-name-of-some-length".to_string(),
        tool: "t\u{e9}l".to_string(),
        reason: "why".to_string(),
    };
    let short = PlanStep { pillar: "\u{e9}".to_string(), tool: "t".to_string(), reason: "r".to_string() };
    let mut steps: Vec<PlanStep> = vec![short; 99];
    steps.push(step);
    let plan = Plan { question: "q".to_string(), model: "m".to_string(), planner: "p".to_string(), steps };
    let mut expected = String::from("Plan for: q\nModel:    m\nPlanner:  p\n\n");
    for (i, step) in plan.steps.iter().enumerate() {
        expected.push_str(&format!("  {:2}. {:20}  {}\n", i + 1, step.pillar, step.tool));
        expected.push_str(&format!("      Reason: {}\n", step.reason));
    }
    assert_eq!(plan.render(), expected);
}
