//! The keys of the calculator, each as an operation on its state.

use vstd::prelude::*;
use vstd::string::StrSliceExecFns;
use vstd::string::StringExecFns;
use crate::calculator::operations::divide;
use crate::errors::CalculatorErrorType;
use crate::number::Number;
use crate::numeric::Reply;
use crate::state::types::{pending_view, view_of_state, CalculatorState, Operation, Pending};
use crate::text::{contains_char, digit_str, drop_first, drop_last, integer_string, same_text};

verus! {

broadcast use view_of_state;

impl CalculatorState {
    /// The clear key: back to the initial state, whatever the state.
    pub fn clear(&mut self)
        ensures
            final(self)@ == old(self)@.cleared(),
    {
        self.display_value = String::from_str("0");
        self.first_operand = None;
        self.current_operation = Operation::Unset;
        self.clear_on_next_input = false;
        self.last_pressed_operation = false;
        self.error_state = false;
        self.last_error = None;
    }

    /// The clear-entry key: the display goes back to "0" and the error state
    /// ends; the pending operand and operation stay.
    pub fn clear_entry(&mut self)
        ensures
            final(self)@ == old(self)@.entry_cleared(),
    {
        self.display_value = String::from_str("0");
        self.clear_on_next_input = false;
        self.error_state = false;
        self.last_error = None;
    }

    /// The key of a digit, 0 to 9; any other value is ignored.
    pub fn input_digit(&mut self, digit: u8)
        ensures
            final(self)@ == old(self)@.with_digit(digit),
    {
        if self.error_state || digit > 9 {
            return ;
        }
        let glyph = digit_str(digit);
        if self.clear_on_next_input || same_text(self.display_value.as_str(), "0") {
            self.display_value = String::from_str(glyph);
            self.clear_on_next_input = false;
        } else {
            self.display_value.append(glyph);
        }
        self.last_pressed_operation = false;
    }

    /// The decimal-point key.
    pub fn input_decimal(&mut self)
        ensures
            final(self)@ == old(self)@.with_decimal(),
    {
        if self.error_state {
            return ;
        }
        if self.clear_on_next_input {
            self.display_value = String::from_str("0.");
            self.clear_on_next_input = false;
        } else if !contains_char(self.display_value.as_str(), '.') {
            self.display_value.append(".");
        }
        self.last_pressed_operation = false;
    }

    /// The sign key.
    pub fn toggle_sign(&mut self)
        ensures
            final(self)@ == old(self)@.sign_toggled(),
    {
        if self.error_state {
            return ;
        }
        if !same_text(self.display_value.as_str(), "0") {
            let shown = self.display_value.as_str();
            if shown.unicode_len() > 0 && shown.get_char(0) == '-' {
                self.display_value = drop_first(shown, 1);
            } else {
                let mut negated = String::from_str("-");
                negated.append(shown);
                self.display_value = negated;
            }
        }
    }

    /// The backspace key.
    pub fn backspace(&mut self)
        ensures
            final(self)@ == old(self)@.backspaced(),
    {
        if self.error_state {
            return ;
        }
        if self.clear_on_next_input {
            self.clear_entry();
            return ;
        }
        if self.display_value.as_str().unicode_len() > 1 {
            self.display_value = drop_last(self.display_value.as_str());
        } else {
            self.display_value = String::from_str("0");
        }
    }

    /// Latches the error state and shows `text`.
    fn fail(&mut self, kind: CalculatorErrorType, text: &str)
        ensures
            final(self)@ == old(self)@.failed(kind, text@),
    {
        self.display_value = String::from_str(text);
        self.error_state = true;
        self.last_error = Some(kind);
    }

    /// Ends a calculation with its result on the display.
    fn show(&mut self, value: Number, text: String)
        ensures
            final(self)@ == old(self)@.shown(value, text@),
    {
        self.display_value = text;
        self.first_operand = Some(value);
        self.settle();
    }

    /// Ends a calculation.
    fn settle(&mut self)
        ensures
            final(self)@ == old(self)@.settled(),
    {
        self.current_operation = Operation::Unset;
        self.clear_on_next_input = true;
        self.last_pressed_operation = false;
    }

    /// What follows a finished calculation.
    fn proceed(&self, chained: Option<Operation>) -> (pending: Option<Pending>)
        ensures
            pending_view(pending) == self@.proceed(chained).1,
    {
        match chained {
            Some(operation) => Some(
                Pending::Capture { text: self.display_value.clone(), operation },
            ),
            None => None,
        }
    }

    /// Ends a calculation in the error state.
    fn abandon(
        &mut self,
        kind: CalculatorErrorType,
        text: &str,
        chained: Option<Operation>,
    ) -> (pending: Option<Pending>)
        ensures
            final(self)@ == old(self)@.failed(kind, text@).settled().proceed(chained).0,
            pending_view(pending) == old(self)@.failed(kind, text@).settled().proceed(chained).1,
    {
        self.fail(kind, text);
        self.settle();
        self.proceed(chained)
    }

    /// Judges the value of a calculation.
    fn conclude(&mut self, value: Number, chained: Option<Operation>) -> (pending: Option<Pending>)
        ensures
            final(self)@ == old(self)@.concluded(value, chained).0,
            pending_view(pending) == old(self)@.concluded(value, chained).1,
    {
        if value.is_infinite() {
            self.abandon(CalculatorErrorType::Overflow, "Error: Overflow", chained)
        } else if value.is_nan() {
            self.abandon(CalculatorErrorType::CalculationError, "Error: Invalid operation", chained)
        } else {
            match value.to_integer() {
                Some(k) => {
                    self.show(value, integer_string(k));
                    self.proceed(chained)
                },
                None => Some(Pending::Rendering { value, chained }),
            }
        }
    }

    /// Takes the parsed display as the first operand of `operation`.
    fn capture(&mut self, operation: Operation, parsed: Option<Number>)
        ensures
            final(self)@ == old(self)@.captured(operation, parsed),
    {
        match parsed {
            Some(value) if value.is_finite() => {
                self.first_operand = Some(value);
                self.current_operation = operation;
                self.clear_on_next_input = true;
                self.last_pressed_operation = true;
            },
            _ => {
                self.display_value = String::from_str("Error");
                if !(self.error_state && self.last_error.is_some()) {
                    self.last_error = Some(CalculatorErrorType::InvalidInput);
                }
                self.error_state = true;
            },
        }
    }

    /// An operation key. In the error state it does nothing. Otherwise the
    /// display is to be captured as the first operand of `operation`, after
    /// the pending calculation where there is one and the last key was no
    /// operation key. The state changes only as the answers come in.
    pub fn set_operation(&mut self, operation: Operation) -> (pending: Option<Pending>)
        ensures
            final(self)@ == old(self)@.operation_set(operation).0,
            pending_view(pending) == old(self)@.operation_set(operation).1,
    {
        if self.error_state {
            return None;
        }
        match self.first_operand {
            Some(first) if !self.last_pressed_operation => Some(
                Pending::Operand {
                    text: self.display_value.clone(),
                    operation: self.current_operation,
                    first,
                    chained: Some(operation),
                },
            ),
            _ => Some(Pending::Capture { text: self.display_value.clone(), operation }),
        }
    }

    /// The equals key. In the error state it does nothing; without a pending
    /// operand the calculation ends at once; with one, the display is to be
    /// parsed as the second operand.
    pub fn calculate(&mut self) -> (pending: Option<Pending>)
        ensures
            final(self)@ == old(self)@.calculated().0,
            pending_view(pending) == old(self)@.calculated().1,
    {
        if self.error_state {
            return None;
        }
        match self.first_operand {
            Some(first) => Some(
                Pending::Operand {
                    text: self.display_value.clone(),
                    operation: self.current_operation,
                    first,
                    chained: None,
                },
            ),
            None => {
                self.settle();
                None
            },
        }
    }

    /// Goes on with an evaluation, given the numeric unit's answer to what
    /// `pending` asked. Returns what is asked next, or `None` when the
    /// evaluation is over.
    pub fn resume(&mut self, pending: Pending, reply: Reply) -> (next: Option<Pending>)
        ensures
            final(self)@ == old(self)@.resumed(pending@, reply@).0,
            pending_view(next) == old(self)@.resumed(pending@, reply@).1,
    {
        match pending {
            Pending::Operand { text, operation, first, chained } => match reply {
                Reply::Parsed(parsed) => {
                    if self.error_state {
                        return None;
                    }
                    match parsed {
                        None => self.abandon(
                            CalculatorErrorType::InvalidInput,
                            "Error: Invalid input",
                            chained,
                        ),
                        Some(second) => match operation {
                            Operation::Unset => self.conclude(second, chained),
                            Operation::Divide => match divide(first, second) {
                                Ok(_) => Some(
                                    Pending::Outcome { operation, first, second, chained },
                                ),
                                Err(error) => self.abandon(error.error_type(), "Error", chained),
                            },
                            _ => Some(Pending::Outcome { operation, first, second, chained }),
                        },
                    }
                },
                _ => Some(Pending::Operand { text, operation, first, chained }),
            },
            Pending::Outcome { operation, first, second, chained } => match reply {
                Reply::Applied(value) => {
                    if self.error_state {
                        return None;
                    }
                    self.conclude(value, chained)
                },
                _ => Some(Pending::Outcome { operation, first, second, chained }),
            },
            Pending::Rendering { value, chained } => match reply {
                Reply::Formatted(text) => {
                    if self.error_state {
                        return None;
                    }
                    self.show(value, text);
                    self.proceed(chained)
                },
                _ => Some(Pending::Rendering { value, chained }),
            },
            Pending::Capture { text, operation } => match reply {
                Reply::Parsed(parsed) => {
                    self.capture(operation, parsed);
                    None
                },
                _ => Some(Pending::Capture { text, operation }),
            },
        }
    }
}

} // verus!
