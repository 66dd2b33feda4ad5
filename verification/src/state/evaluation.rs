//! Whole evaluations: where the machine ends up once the numeric unit has
//! answered every question of an evaluation.

use vstd::prelude::*;
use crate::errors::CalculatorErrorType;
use crate::number::Number;
use crate::numeric::{ReplyView, RequestView};
use crate::state::laws::steps_left;
use crate::state::model::{
    error_text,
    invalid_input_text,
    invalid_operation_text,
    overflow_text,
    CalculatorView,
    PendingView,
};
use crate::state::types::Operation;
use crate::text::integer_text;

verus! {

/// A numeric unit as mathematics: what it answers to each question.
pub struct NumericUnit {
    /// The number that a text stands for, if it stands for one.
    pub parse: spec_fn(Seq<char>) -> Option<Number>,
    /// The result of an operation on two numbers.
    pub apply: spec_fn(Operation, Number, Number) -> Number,
    /// The text of a number.
    pub format: spec_fn(Number) -> Seq<char>,
}

impl NumericUnit {
    /// The unit's answer to `request`.
    pub open spec fn answer(self, request: RequestView) -> ReplyView {
        match request {
            RequestView::Parse { text } => ReplyView::Parsed((self.parse)(text)),
            RequestView::Apply { operation, first, second } => ReplyView::Applied(
                (self.apply)(operation, first, second),
            ),
            RequestView::Format { value } => ReplyView::Formatted((self.format)(value)),
        }
    }
}

/// The state in which an evaluation ends when `unit` answers each of its
/// questions in turn.
pub open spec fn completed(
    state: CalculatorView,
    pending: Option<PendingView>,
    unit: NumericUnit,
) -> CalculatorView
    decreases steps_left(pending),
{
    match pending {
        None => state,
        Some(asked) => {
            let step = state.resumed(asked, unit.answer(asked.request()));
            completed(step.0, step.1, unit)
        },
    }
}

/// The text of the result of a calculation: a whole number that a 64-bit
/// signed integer holds is written as that integer, any other value as the
/// numeric unit writes it.
pub open spec fn result_text(value: Number, unit: NumericUnit) -> Seq<char> {
    match value.integer() {
        Some(k) => integer_text(k),
        None => (unit.format)(value),
    }
}

/// What the equals key comes to.
///
/// In the error state, nothing. Without a pending operand the calculation
/// just ends. Otherwise the display is the second operand: where it is no
/// number, or is zero under a pending division, the error state is latched;
/// else the value is the result of the pending operation, or the second
/// operand itself where none is pending. An infinite value and one that is
/// not a number latch the error state; any other is shown and becomes the
/// pending operand. However it went, the calculation ends.
pub open spec fn calculation(state: CalculatorView, unit: NumericUnit) -> CalculatorView {
    if state.error_state {
        state
    } else {
        match state.first_operand {
            None => state.settled(),
            Some(first) => match (unit.parse)(state.display_value) {
                None => state.failed(
                    CalculatorErrorType::InvalidInput,
                    invalid_input_text(),
                ).settled(),
                Some(second) => if state.current_operation == Operation::Divide && second.zero() {
                    state.failed(CalculatorErrorType::DivisionByZero, error_text()).settled()
                } else {
                    let value = if state.current_operation == Operation::Unset {
                        second
                    } else {
                        (unit.apply)(state.current_operation, first, second)
                    };
                    if value.infinite() {
                        state.failed(CalculatorErrorType::Overflow, overflow_text()).settled()
                    } else if value.nan() {
                        state.failed(
                            CalculatorErrorType::CalculationError,
                            invalid_operation_text(),
                        ).settled()
                    } else {
                        state.shown(value, result_text(value, unit))
                    }
                },
            },
        }
    }
}

/// What an operation key comes to.
///
/// In the error state, nothing. Otherwise the pending calculation is done
/// first, where an operand is pending and the last key was no operation key;
/// then the display, as it is by then, is captured as the first operand of
/// `operation`.
pub open spec fn operation_key(
    state: CalculatorView,
    operation: Operation,
    unit: NumericUnit,
) -> CalculatorView {
    if state.error_state {
        state
    } else {
        let ready = if state.first_operand is Some && !state.last_pressed_operation {
            calculation(state, unit)
        } else {
            state
        };
        ready.captured(operation, (unit.parse)(ready.display_value))
    }
}

/// The equals key, answered to its end by any numeric unit, comes to
/// `calculation`.
pub proof fn equals_key_in_full(state: CalculatorView, unit: NumericUnit)
    ensures
        completed(state.calculated().0, state.calculated().1, unit) == calculation(state, unit),
{
    reveal_with_fuel(completed, 5);
}

/// An operation key, answered to its end by any numeric unit, comes to
/// `operation_key`.
pub proof fn operation_key_in_full(state: CalculatorView, operation: Operation, unit: NumericUnit)
    ensures
        completed(state.operation_set(operation).0, state.operation_set(operation).1, unit)
            == operation_key(state, operation, unit),
{
    reveal_with_fuel(completed, 6);
}

} // verus!
