//! Tool calls, as lines of JSON.

use mqo_agent::{
    continue_ask, handle_call, parse_text, read_call, read_line, resume_with, CallError, Handling, Json, JsonNumber,
    ToolOutcome,
};

fn to_value(json: &Json) -> serde_json::Value {
    match json {
        Json::Null => serde_json::Value::Null,
        Json::Bool(value) => serde_json::Value::from(*value),
        Json::Number(JsonNumber::PosInt(n)) => serde_json::Value::from(*n),
        Json::Number(JsonNumber::NegInt(n)) => serde_json::Value::from(*n),
        Json::Number(JsonNumber::Float(bits)) => serde_json::Value::from(f64::from_bits(*bits)),
        Json::Str(text) => serde_json::Value::from(text.as_str()),
        Json::Array(items) => serde_json::Value::Array(items.iter().map(to_value).collect()),
        Json::Object(members) => {
            serde_json::Value::Object(members.iter().map(|(name, value)| (name.clone(), to_value(value))).collect())
        }
    }
}

/// Handles one line of input; no binaries are installed.
fn serve_one(input: &str) -> serde_json::Value {
    let call = read_line(input).expect("a document").expect("a call");
    let mut handling = handle_call(&call);
    loop {
        match handling {
            Handling::Reply(reply) => return to_value(&reply),
            Handling::Invoke(run) => handling = continue_ask(resume_with(run, &ToolOutcome::Missing, 0)),
        }
    }
}

#[test]
fn ac8_serve_plan_tool_returns_steps() {
    let input = r#"{"tool":"plan","question":"Show me revenue YoY by region","model":"internet_sales"}"#;

    let resp = serve_one(input);
    let result = &resp["result"];

    // Must return a plan with steps
    let steps = result["steps"].as_array().expect("steps must be array");
    assert!(!steps.is_empty(), "plan must have steps");

    let pillars: Vec<&str> = steps.iter().filter_map(|s| s["pillar"].as_str()).collect();
    assert!(
        pillars.contains(&"time-intelligence"),
        "YoY question must include time-intelligence in plan; got {:?}",
        pillars
    );
    assert!(
        pillars.contains(&"engine-parity"),
        "multi-engine model must include engine-parity; got {:?}",
        pillars
    );
}

#[test]
fn ac8_serve_ask_tool_mock_returns_answer() {
    let input = r#"{"tool":"ask","question":"What are total sales by region?","model":"tasty_bytes","mock":true}"#;

    let resp = serve_one(input);
    let result = &resp["result"];

    assert!(
        result["final_answer"].is_string(),
        "serve ask must return final_answer; got: {:?}",
        result
    );
    assert_eq!(
        result["clarify_needed"].as_bool().unwrap_or(true),
        false,
        "clarify_needed must be false for high-confidence mock"
    );
}

#[test]
fn ac8_serve_unknown_tool_returns_error() {
    let input = r#"{"tool":"frobnicate","question":"test"}"#;

    let resp = serve_one(input);
    let result = &resp["result"];
    assert!(result["error"].is_string(), "unknown tool must return error field");
}

#[test]
fn replies_name_the_tool() {
    assert_eq!(
        serve_one("{\"tool\": \"frobnicate\"}"),
        serde_json::from_str::<serde_json::Value>(
            r#"{"tool": "frobnicate", "result": {"error": "unknown tool 'frobnicate'; supported: ask, plan"}}"#
        )
        .unwrap()
    );
    assert_eq!(serve_one("[]")["tool"], serde_json::Value::from("unknown"));
    assert_eq!(serve_one("{\"tool\": \"plan\"}")["tool"], serde_json::Value::from("plan"));
    assert_eq!(serve_one("{\"tool\": \"ask\"}")["tool"], serde_json::Value::from("ask"));
}

#[test]
fn what_a_call_leaves_out_is_filled_in() {
    let call = read_call(&parse_text("{}").unwrap());
    assert_eq!(call.tool, "unknown");
    assert_eq!(call.question, "");
    assert_eq!(call.model, "__default__");
    assert!(!call.mock);
    assert_eq!(call.answer, None);
    let odd = read_call(&parse_text("{\"tool\": 3, \"question\": null, \"mock\": \"true\", \"answer\": []}").unwrap());
    assert_eq!(odd.tool, "unknown");
    assert_eq!(odd.question, "");
    assert!(!odd.mock);
    assert_eq!(odd.answer, None);
    let full = read_call(
        &parse_text("{\"tool\": \"ask\", \"question\": \"q\", \"model\": \"m\", \"mock\": true, \"answer\": \"a\"}").unwrap(),
    );
    assert_eq!((full.tool.as_str(), full.question.as_str(), full.model.as_str()), ("ask", "q", "m"));
    assert!(full.mock);
    assert_eq!(full.answer.as_deref(), Some("a"));
}

#[test]
fn blank_lines_are_no_calls() {
    for line in ["", "   ", "\t\r", "\u{a0}\u{3000}"] {
        assert!(matches!(read_line(line), Ok(None)), "{:?}", line);
    }
}

#[test]
fn white_space_alone_makes_a_line_blank() {
    let mut line = String::new();
    for c in '\0'..=char::MAX {
        line.clear();
        line.push(c);
        let white = matches!(
            c,
            '\u{9}'..='\u{d}'
                | ' '
                | '\u{85}'
                | '\u{a0}'
                | '\u{1680}'
                | '\u{2000}'..='\u{200a}'
                | '\u{2028}'
                | '\u{2029}'
                | '\u{202f}'
                | '\u{205f}'
                | '\u{3000}'
        );
        assert_eq!(matches!(read_line(&line), Ok(None)), white, "{:?}", c);
    }
    assert!(matches!(read_line(" \t{}\u{3000}"), Err(CallError::Malformed(_))));
    assert!(matches!(read_line(" \t{}"), Ok(Some(_))));
}

#[test]
fn malformed_lines_are_errors() {
    for line in ["{", "x", "{} {}"] {
        assert!(matches!(read_line(line), Err(CallError::Malformed(_))), "{:?}", line);
    }
}

#[test]
fn clarification_round_is_served() {
    let halted = serve_one(r#"{"tool":"ask","question":"Revenue stuff","mock":true}"#);
    assert_eq!(halted["result"]["clarify_needed"], serde_json::Value::from(true));
    assert!(halted["result"].get("final_answer").is_none());
    let resumed = serve_one(r#"{"tool":"ask","question":"Revenue stuff","mock":true,"answer":"by category"}"#);
    assert_eq!(resumed["result"]["clarify_needed"], serde_json::Value::from(false));
    assert_eq!(resumed["result"]["clarify_answer"], serde_json::Value::from("by category"));
    assert!(resumed["result"]["final_answer"].is_string());
}

#[test]
fn live_asks_wait_for_binaries() {
    let call = read_line(r#"{"tool":"ask","question":"revenue"}"#).unwrap().unwrap();
    assert!(matches!(handle_call(&call), Handling::Invoke(_)));
    let resp = serve_one(r#"{"tool":"ask","question":"revenue"}"#);
    assert_eq!(resp["result"]["final_answer"], serde_json::Value::from("Query plan executed successfully."));
    assert_eq!(resp["result"]["step_results"][0]["verdict"], serde_json::Value::from("skipped"));
}
