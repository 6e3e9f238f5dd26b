//! What holds of text that is laid out for people, and of the text that comes in.

use vstd::prelude::*;

use crate::decimal::decimal;
use crate::planner::{PlanView, StepView};
use crate::render::{plan_lines, step_lines};
use crate::text::{
    ascii_lowercased, ascii_uppercased, is_blank, left_aligned, right_aligned, white_space,
};

verus! {

/// What decimal digits stand for.
pub open spec fn digits_value(text: Seq<char>) -> nat
    decreases text.len(),
{
    if text.len() == 0 {
        0
    } else {
        10 * digits_value(text.drop_last()) + (text.last() as nat - 48) as nat
    }
}

/// A natural number is written in decimal digits that stand for it, without needless zeros in
/// front.
pub proof fn decimal_notation_is_read_back(n: nat)
    ensures
        digits_value(decimal(n)) == n,
        decimal(n).len() > 0,
        forall|i: int| 0 <= i < decimal(n).len() ==> '0' <= #[trigger] decimal(n)[i] <= '9',
        decimal(n)[0] == '0' ==> n == 0,
    decreases n,
{
    if n < 10 {
        assert(decimal(n).drop_last() =~= Seq::<char>::empty());
        assert(digits_value(decimal(n).drop_last()) == 0);
    } else {
        decimal_notation_is_read_back(n / 10);
        assert(decimal(n).drop_last() =~= decimal(n / 10));
        assert(decimal(n)[0] == decimal(n / 10)[0]);
    }
}

/// Text that is put to the right has blanks in front, and text that is put to the left has
/// them behind, just so many that the width is filled; longer text stays as it is.
pub proof fn alignment_fills_the_width(text: Seq<char>, width: nat)
    ensures
        text.len() >= width ==> right_aligned(text, width) == text && left_aligned(text, width) == text,
        text.len() < width ==> {
            let fill = width - text.len();
            &&& right_aligned(text, width).len() == width
            &&& right_aligned(text, width).skip(fill) == text
            &&& forall|i: int| 0 <= i < fill ==> #[trigger] right_aligned(text, width)[i] == ' '
            &&& left_aligned(text, width).len() == width
            &&& left_aligned(text, width).take(text.len() as int) == text
            &&& forall|i: int| text.len() <= i < width ==> #[trigger] left_aligned(text, width)[i] == ' '
        },
{
    if text.len() < width {
        assert(right_aligned(text, width).skip(width - text.len()) =~= text);
        assert(left_aligned(text, width).take(text.len() as int) =~= text);
    }
}

/// The lines on a step are its number, its pillar and its tool, and on the next line the
/// reason for it.
pub proof fn step_is_laid_out(n: nat, step: StepView)
    ensures
        step_lines(n, step) == "  "@ + right_aligned(decimal(n), 2) + ". "@ + left_aligned(step.pillar, 20) + "  "@
            + step.tool + "\n      Reason: "@ + step.reason + "\n"@,
{
}

/// A plan is laid out with its question, its model and its planner in front. One more step
/// adds the lines on it at the end, with the number that follows, and changes nothing before.
pub proof fn steps_are_laid_out_in_order(plan: PlanView, step: StepView)
    ensures
        plan_lines(PlanView { steps: Seq::empty(), ..plan }) == "Plan for: "@ + plan.question + "\nModel:    "@
            + plan.model + "\nPlanner:  "@ + plan.planner + "\n\n"@,
        plan_lines(PlanView { steps: plan.steps.push(step), ..plan }) == plan_lines(plan) + step_lines(
            plan.steps.len() + 1,
            step,
        ),
{
    let none = PlanView { steps: Seq::empty(), ..plan };
    assert(plan_lines(none) =~= "Plan for: "@ + plan.question + "\nModel:    "@ + plan.model + "\nPlanner:  "@
        + plan.planner + "\n\n"@);
    assert(plan.steps.push(step).drop_last() =~= plan.steps);
    let more = PlanView { steps: plan.steps.push(step), ..plan };
    assert(plan_lines(more) =~= plan_lines(plan) + step_lines(plan.steps.len() + 1, step));
}

/// A text is blank where its parts are; the empty text is, and one character is where it is
/// white space.
pub proof fn blank_text_is_white_throughout(a: Seq<char>, b: Seq<char>, c: char)
    ensures
        is_blank(Seq::empty()),
        is_blank(seq![c]) <==> white_space(c),
        is_blank(a + b) <==> is_blank(a) && is_blank(b),
{
    assert(seq![c][0] == c);
    if is_blank(a + b) {
        assert forall|i: int| 0 <= i < a.len() implies white_space(#[trigger] a[i]) by {
            assert((a + b)[i] == a[i]);
        }
        assert forall|i: int| 0 <= i < b.len() implies white_space(#[trigger] b[i]) by {
            assert((a + b)[a.len() + i] == b[i]);
        }
    }
}

/// White space is the blank, the five controls from the tabulator on, and the listed
/// characters beyond ASCII; no visible ASCII character is.
pub proof fn white_space_in_ascii(c: char)
    requires
        c <= '\u{7f}',
    ensures
        white_space(c) <==> c == ' ' || c == '\t' || c == '\n' || c == '\u{b}' || c == '\u{c}' || c == '\r',
{
}

/// Letter case is changed in place, of ASCII letters and of no other characters.
pub proof fn ascii_case_is_changed_in_place(text: Seq<char>, i: int)
    requires
        0 <= i < text.len(),
    ensures
        ascii_lowercased(text).len() == text.len(),
        ascii_uppercased(text).len() == text.len(),
        'A' <= text[i] <= 'Z' ==> ascii_lowercased(text)[i] as int == text[i] as int + 32,
        !('A' <= text[i] <= 'Z') ==> ascii_lowercased(text)[i] == text[i],
        'a' <= text[i] <= 'z' ==> ascii_uppercased(text)[i] as int == text[i] as int - 32,
        !('a' <= text[i] <= 'z') ==> ascii_uppercased(text)[i] == text[i],
{
}

} // verus!
