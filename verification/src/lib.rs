//! mqo-agent: an adaptive reference agent that plans which MQO pillars to call.
//!
//! The planner is deterministic and rule-based: of a question and a model it makes a plan,
//! an ordered list of pillar steps, each with the reason for which it was selected. The
//! runner takes a plan to its answer, step by step. Where a step wants its pillar binary, the
//! runner hands the run out and goes on with what became of the binary; a binary that is
//! absent leaves its step skipped.

pub mod confidence;
pub mod decimal;
pub mod document;
pub mod fixtures;
pub mod json;
pub mod laws;
pub mod mock;
pub mod outcome;
pub mod planner;
pub mod render;
pub mod runner;
pub mod serve;
pub mod text;
pub mod wire;

pub use crate::confidence::{Confidence, HIGH_CONF_THRESHOLD, LOW_CONF_THRESHOLD};
pub use crate::document::{parse_bytes, parse_text};
pub use crate::fixtures::{bundled_model_fixtures, is_multi_engine, FixtureMap, ModelFixture};
pub use crate::json::{Json, JsonNumber};
pub use crate::mock::mock_response;
pub use crate::outcome::{binary_arguments, binary_candidates, read_outcome, resume_with, ToolOutcome};
pub use crate::planner::{
    build_plan, build_plan_from, find_period_tokens, has_period_tokens, Plan, PlanStep, PlannerOptions, PlannerVariant,
    DEFAULT_RULE_TABLE, PERIOD_TOKENS,
};
pub use crate::runner::{
    execute_plan, extract_clarify_question, extract_confidence, resume, Answer, ClarifyCheckpoint, Execution, Run,
    RunOptions, StepReport, StepResult, Verdict,
};
pub use crate::serve::{continue_ask, handle_call, read_call, read_line, CallError, Handling, ToolCall};
