//! What holds of the state machine in every state.

use vstd::prelude::*;
use crate::number::Number;
use crate::numeric::ReplyView;
use crate::state::model::{is_error_text, CalculatorView, PendingView};
use crate::state::types::Operation;
use crate::text::{integer_text, integers_show_no_point};

verus! {

/// The error flag and the error kind agree, and the display of a latched
/// machine is one of the fixed error texts.
pub open spec fn coherent(state: CalculatorView) -> bool {
    &&& state.error_state <==> state.last_error is Some
    &&& state.error_state ==> is_error_text(state.display_value)
}

/// Whether `reply` is an answer to what `pending` asks.
pub open spec fn answers(reply: ReplyView, pending: PendingView) -> bool {
    match pending {
        PendingView::Operand { .. } => reply is Parsed,
        PendingView::Outcome { .. } => reply is Applied,
        PendingView::Rendering { .. } => reply is Formatted,
        PendingView::Capture { .. } => reply is Parsed,
    }
}

/// How many answers an evaluation can still need, at most: one for each of
/// the steps of the calculation that are still to come, and one more for the
/// capture of the display where an operation key started it.
pub open spec fn steps_left(pending: Option<PendingView>) -> nat {
    match pending {
        Some(PendingView::Operand { chained, .. }) => 3 + capture_steps(chained),
        Some(PendingView::Outcome { chained, .. }) => 2 + capture_steps(chained),
        Some(PendingView::Rendering { chained, .. }) => 1 + capture_steps(chained),
        Some(PendingView::Capture { .. }) => 1,
        None => 0,
    }
}

/// The one answer that the capture of the display needs, where an operation
/// key started the calculation.
pub open spec fn capture_steps(chained: Option<Operation>) -> nat {
    if chained is Some {
        1
    } else {
        0
    }
}

/// A fresh calculator shows "0", is not in the error state, and is coherent.
pub proof fn fresh_calculator()
    ensures
        CalculatorView::initial().display_value == "0"@,
        !CalculatorView::initial().error_state,
        coherent(CalculatorView::initial()),
{
}

/// No key breaks coherence.
pub proof fn keys_keep_coherence(state: CalculatorView, digit: u8, operation: Operation)
    requires
        coherent(state),
    ensures
        coherent(state.cleared()),
        coherent(state.entry_cleared()),
        coherent(state.with_digit(digit)),
        coherent(state.with_decimal()),
        coherent(state.sign_toggled()),
        coherent(state.backspaced()),
        coherent(state.operation_set(operation).0),
        coherent(state.calculated().0),
{
}

/// No answer of the numeric unit breaks coherence, whatever it answers and
/// whatever it is taken to answer.
pub proof fn answers_keep_coherence(state: CalculatorView, pending: PendingView, reply: ReplyView)
    requires
        coherent(state),
    ensures
        coherent(state.resumed(pending, reply).0),
{
}

/// In the error state every key but clear and clear-entry leaves the machine
/// as it is and asks nothing of the numeric unit, and a calculation does not
/// go on.
pub proof fn error_state_is_latched(
    state: CalculatorView,
    digit: u8,
    operation: Operation,
    pending: PendingView,
    reply: ReplyView,
)
    requires
        state.error_state,
    ensures
        state.with_digit(digit) == state,
        state.with_decimal() == state,
        state.sign_toggled() == state,
        state.backspaced() == state,
        state.operation_set(operation) == (state, None::<PendingView>),
        state.calculated() == (state, None::<PendingView>),
        !(pending is Capture) && answers(reply, pending) ==> state.resumed(pending, reply) == (
            state,
            None::<PendingView>,
        ),
{
}

/// The clear key ends the error state: the machine is as new.
pub proof fn clear_recovers(state: CalculatorView)
    ensures
        state.cleared() == CalculatorView::initial(),
        !state.cleared().error_state,
{
}

/// A second decimal point in a row changes nothing.
pub proof fn decimal_point_is_idempotent(state: CalculatorView)
    ensures
        state.with_decimal().with_decimal() == state.with_decimal(),
{
    reveal_strlit("0.");
    reveal_strlit(".");
    let once = state.with_decimal();
    if !state.error_state {
        if state.clear_on_next_input {
            assert("0."@[1] == '.');
            assert(once.display_value.contains('.'));
        } else if !state.display_value.contains('.') {
            assert(once.display_value[state.display_value.len() as int] == '.');
            assert(once.display_value.contains('.'));
        }
    }
}

/// The backspace key never leaves the display empty, and a display of at
/// most one character becomes "0".
pub proof fn backspace_keeps_a_display(state: CalculatorView)
    requires
        coherent(state),
    ensures
        state.backspaced().display_value.len() >= 1,
        state.display_value.len() <= 1 ==> state.backspaced().display_value == "0"@,
{
    reveal_strlit("0");
    reveal_strlit("Error");
    reveal_strlit("Error: Invalid input");
    reveal_strlit("Error: Overflow");
    reveal_strlit("Error: Invalid operation");
}

/// The sign key leaves a display of "0" as it is.
pub proof fn zero_has_no_sign(state: CalculatorView)
    requires
        state.display_value == "0"@,
    ensures
        state.sign_toggled() == state,
{
}

/// A result that is a whole number that a 64-bit signed integer holds is on
/// the display at once, as that integer and without a point, and is the
/// pending operand; the numeric unit is not asked to render it.
pub proof fn whole_results_show_no_point(state: CalculatorView, value: Number, k: int)
    requires
        value.integer() == Some(k),
    ensures
        state.concluded(value, None).1 is None,
        state.concluded(value, None).0.display_value == integer_text(k),
        state.concluded(value, None).0.first_operand == Some(value),
        !state.concluded(value, None).0.display_value.contains('.'),
        state.concluded(value, None).0.error_state == state.error_state,
{
    integers_show_no_point(k);
}

/// The machine never asks for an operation to be applied when none is
/// pending, and never for a division by zero.
pub proof fn no_division_by_zero_is_asked(
    state: CalculatorView,
    pending: PendingView,
    reply: ReplyView,
)
    requires
        pending is Operand,
    ensures
        state.resumed(pending, reply).1 matches Some(
            PendingView::Outcome { operation, second, .. },
        ) ==> operation != Operation::Unset && !(operation == Operation::Divide && second.zero()),
{
}

/// Every answer to what was asked brings an evaluation nearer to its end: one
/// that the equals key starts is over after three answers at most, one that an
/// operation key starts after four.
pub proof fn evaluation_ends(
    state: CalculatorView,
    operation: Operation,
    pending: PendingView,
    reply: ReplyView,
)
    requires
        answers(reply, pending),
    ensures
        steps_left(state.resumed(pending, reply).1) < steps_left(Some(pending)),
        steps_left(state.calculated().1) <= 3,
        steps_left(state.operation_set(operation).1) <= 4,
{
}

} // verus!
