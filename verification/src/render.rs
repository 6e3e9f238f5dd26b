//! Plans as text for people.

use vstd::prelude::*;

use crate::decimal::{decimal, decimal_text};
use crate::planner::{steps_view, Plan, PlanStep, PlanView, StepView};
use crate::text::{align_left, align_right, left_aligned, right_aligned};

verus! {

/// The lines on the step that stands at position `n`, counted from one.
pub open spec fn step_lines(n: nat, step: StepView) -> Seq<char> {
    "  "@ + right_aligned(decimal(n), 2) + ". "@ + left_aligned(step.pillar, 20) + "  "@ + step.tool
        + "\n      Reason: "@ + step.reason + "\n"@
}

/// The lines on a list of steps.
pub open spec fn steps_lines(steps: Seq<StepView>) -> Seq<char>
    decreases steps.len(),
{
    if steps.len() == 0 {
        Seq::empty()
    } else {
        steps_lines(steps.drop_last()) + step_lines(steps.len(), steps.last())
    }
}

/// A plan as text: what it is for, and each step with the reason for it.
pub open spec fn plan_lines(plan: PlanView) -> Seq<char> {
    "Plan for: "@ + plan.question + "\nModel:    "@ + plan.model + "\nPlanner:  "@ + plan.planner + "\n\n"@
        + steps_lines(plan.steps)
}

fn render_step(n: u64, step: &PlanStep) -> (out: String)
    ensures
        out@ == step_lines(n as nat, step@),
{
    let number = decimal_text(n);
    let mut out = "  ".to_string();
    let aligned = align_right(number.as_str(), 2);
    out.append(aligned.as_str());
    out.append(". ");
    let pillar = align_left(step.pillar.as_str(), 20);
    out.append(pillar.as_str());
    out.append("  ");
    out.append(step.tool.as_str());
    out.append("\n      Reason: ");
    out.append(step.reason.as_str());
    out.append("\n");
    out
}

impl Plan {
    /// The plan as text.
    pub fn render(&self) -> (out: String)
        ensures
            out@ == plan_lines(self@),
    {
        let mut out = "Plan for: ".to_string();
        out.append(self.question.as_str());
        out.append("\nModel:    ");
        out.append(self.model.as_str());
        out.append("\nPlanner:  ");
        out.append(self.planner.as_str());
        out.append("\n\n");
        let ghost head = out@;
        let ghost all = steps_view(self.steps@);
        let len: usize = self.steps.len();
        let mut i: usize = 0;
        assert(out@ =~= head + steps_lines(all.take(0)));
        while i < len
            invariant
                i <= len,
                len == self.steps@.len(),
                all == steps_view(self.steps@),
                out@ == head + steps_lines(all.take(i as int)),
            decreases len - i,
        {
            let lines = render_step(i as u64 + 1, &self.steps[i]);
            out.append(lines.as_str());
            i += 1;
            assert(all.take(i as int).drop_last() =~= all.take(i - 1));
            assert(out@ =~= head + steps_lines(all.take(i as int)));
        }
        assert(all.take(len as int) =~= all);
        out
    }
}

} // verus!
