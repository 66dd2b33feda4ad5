//! The state machine as mathematics: what a calculator's state holds, and the
//! state that each key and each answer of the numeric unit leads to.

use vstd::prelude::*;
use crate::errors::CalculatorErrorType;
use crate::number::Number;
use crate::numeric::{ReplyView, RequestView};
use crate::state::types::Operation;
use crate::text::{digit_text, integer_text};

verus! {

/// What a calculator's state holds.
#[verifier::ext_equal]
pub struct CalculatorView {
    /// The text on the display.
    pub display_value: Seq<char>,
    /// The left-hand operand of the pending operation.
    pub first_operand: Option<Number>,
    /// The operation that waits for its second operand.
    pub current_operation: Operation,
    /// Whether the next digit or decimal point replaces the display.
    pub clear_on_next_input: bool,
    /// Whether the last key was an operation key.
    pub last_pressed_operation: bool,
    /// Whether the machine is latched in its error state.
    pub error_state: bool,
    /// The kind of the error that latched the machine.
    pub last_error: Option<CalculatorErrorType>,
}

/// What an evaluation in progress waits for, and what it goes on with.
#[verifier::ext_equal]
pub enum PendingView {
    Operand { text: Seq<char>, operation: Operation, first: Number, chained: Option<Operation> },
    Outcome { operation: Operation, first: Number, second: Number, chained: Option<Operation> },
    Rendering { value: Number, chained: Option<Operation> },
    Capture { text: Seq<char>, operation: Operation },
}

/// The display of an error without a message.
pub open spec fn error_text() -> Seq<char> {
    "Error"@
}

/// The display after a second operand that is not a number.
pub open spec fn invalid_input_text() -> Seq<char> {
    "Error: Invalid input"@
}

/// The display after an infinite result.
pub open spec fn overflow_text() -> Seq<char> {
    "Error: Overflow"@
}

/// The display after a result that is not a number.
pub open spec fn invalid_operation_text() -> Seq<char> {
    "Error: Invalid operation"@
}

/// Whether `text` is one of the displays of the error state.
pub open spec fn is_error_text(text: Seq<char>) -> bool {
    text == error_text() || text == invalid_input_text() || text == overflow_text() || text
        == invalid_operation_text()
}

impl PendingView {
    /// The work that the numeric unit is asked to do.
    pub open spec fn request(self) -> RequestView {
        match self {
            PendingView::Operand { text, .. } => RequestView::Parse { text },
            PendingView::Outcome { operation, first, second, .. } => RequestView::Apply {
                operation,
                first,
                second,
            },
            PendingView::Rendering { value, .. } => RequestView::Format { value },
            PendingView::Capture { text, .. } => RequestView::Parse { text },
        }
    }
}

impl CalculatorView {
    /// A calculator that has just been switched on.
    pub open spec fn initial() -> Self {
        CalculatorView {
            display_value: "0"@,
            first_operand: None,
            current_operation: Operation::Unset,
            clear_on_next_input: false,
            last_pressed_operation: false,
            error_state: false,
            last_error: None,
        }
    }

    /// After the clear key: the initial state, whatever came before.
    pub open spec fn cleared(self) -> Self {
        Self::initial()
    }

    /// After the clear-entry key: the display is "0" and the error is gone;
    /// the pending operand and operation stay.
    pub open spec fn entry_cleared(self) -> Self {
        CalculatorView {
            display_value: "0"@,
            clear_on_next_input: false,
            error_state: false,
            last_error: None,
            ..self
        }
    }

    /// After the key of the digit `digit`. A digit above 9 changes nothing. A
    /// digit replaces the display where a fresh entry begins or the display is
    /// "0", and is appended otherwise.
    pub open spec fn with_digit(self, digit: u8) -> Self {
        if self.error_state || digit > 9 {
            self
        } else {
            CalculatorView {
                display_value: if self.clear_on_next_input || self.display_value == "0"@ {
                    digit_text(digit)
                } else {
                    self.display_value + digit_text(digit)
                },
                clear_on_next_input: false,
                last_pressed_operation: false,
                ..self
            }
        }
    }

    /// After the decimal-point key: a fresh entry begins with "0.", a display
    /// without a point gets one appended, and a display with a point stays.
    pub open spec fn with_decimal(self) -> Self {
        if self.error_state {
            self
        } else {
            CalculatorView {
                display_value: if self.clear_on_next_input {
                    "0."@
                } else if !self.display_value.contains('.') {
                    self.display_value + "."@
                } else {
                    self.display_value
                },
                clear_on_next_input: false,
                last_pressed_operation: false,
                ..self
            }
        }
    }

    /// After the sign key: a display other than "0" loses its leading minus
    /// sign, or gets one where it has none.
    pub open spec fn sign_toggled(self) -> Self {
        if self.error_state || self.display_value == "0"@ {
            self
        } else if self.display_value.len() > 0 && self.display_value[0] == '-' {
            CalculatorView {
                display_value: self.display_value.subrange(1, self.display_value.len() as int),
                ..self
            }
        } else {
            CalculatorView { display_value: "-"@ + self.display_value, ..self }
        }
    }

    /// After the backspace key: where a fresh entry is due, the same as
    /// clear-entry; otherwise a display of more than one character loses its
    /// last, and a shorter one becomes "0".
    pub open spec fn backspaced(self) -> Self {
        if self.error_state {
            self
        } else if self.clear_on_next_input {
            self.entry_cleared()
        } else if self.display_value.len() > 1 {
            CalculatorView {
                display_value: self.display_value.subrange(0, self.display_value.len() - 1),
                ..self
            }
        } else {
            CalculatorView { display_value: "0"@, ..self }
        }
    }

    /// The machine latched in its error state, showing `text`.
    pub open spec fn failed(self, kind: CalculatorErrorType, text: Seq<char>) -> Self {
        CalculatorView {
            display_value: text,
            error_state: true,
            last_error: Some(kind),
            ..self
        }
    }

    /// The end of every calculation: no operation is pending, the next entry
    /// starts afresh, and the last key was not an operation key.
    pub open spec fn settled(self) -> Self {
        CalculatorView {
            current_operation: Operation::Unset,
            clear_on_next_input: true,
            last_pressed_operation: false,
            ..self
        }
    }

    /// What follows a finished calculation: the capture of the display for
    /// the operation whose key started it, if one did.
    pub open spec fn proceed(self, chained: Option<Operation>) -> (Self, Option<PendingView>) {
        match chained {
            Some(operation) => (
                self,
                Some(PendingView::Capture { text: self.display_value, operation }),
            ),
            None => (self, None),
        }
    }

    /// The end of a successful calculation: `text` on the display, and the
    /// value as the pending operand, so that the next operation goes on from it.
    pub open spec fn shown(self, value: Number, text: Seq<char>) -> Self {
        (CalculatorView { display_value: text, first_operand: Some(value), ..self }).settled()
    }

    /// What becomes of the value of a calculation. An infinite one and one
    /// that is not a number latch the error state. A whole number that
    /// a 64-bit signed integer holds is shown as that integer, without a
    /// point; any other value is to be rendered by the numeric unit.
    pub open spec fn concluded(self, value: Number, chained: Option<Operation>) -> (
        Self,
        Option<PendingView>,
    ) {
        if value.infinite() {
            self.failed(CalculatorErrorType::Overflow, overflow_text()).settled().proceed(chained)
        } else if value.nan() {
            self.failed(
                CalculatorErrorType::CalculationError,
                invalid_operation_text(),
            ).settled().proceed(chained)
        } else {
            match value.integer() {
                Some(k) => self.shown(value, integer_text(k)).proceed(chained),
                None => (self, Some(PendingView::Rendering { value, chained })),
            }
        }
    }

    /// The display read as the left-hand operand of `operation`: a finite
    /// number is stored with the operation, anything else latches the error
    /// state (keeping the kind of an error that is already latched).
    pub open spec fn captured(self, operation: Operation, parsed: Option<Number>) -> Self {
        match parsed {
            Some(value) if value.finite() => CalculatorView {
                first_operand: Some(value),
                current_operation: operation,
                clear_on_next_input: true,
                last_pressed_operation: true,
                ..self
            },
            _ => CalculatorView {
                display_value: error_text(),
                error_state: true,
                last_error: if self.error_state && self.last_error is Some {
                    self.last_error
                } else {
                    Some(CalculatorErrorType::InvalidInput)
                },
                ..self
            },
        }
    }

    /// After the equals key. In the error state nothing happens. Without a
    /// pending operand the calculation just ends. With one, the display is to
    /// be parsed as the second operand.
    pub open spec fn calculated(self) -> (Self, Option<PendingView>) {
        if self.error_state {
            (self, None)
        } else {
            match self.first_operand {
                Some(first) => (
                    self,
                    Some(
                        PendingView::Operand {
                            text: self.display_value,
                            operation: self.current_operation,
                            first,
                            chained: None,
                        },
                    ),
                ),
                None => (self.settled(), None),
            }
        }
    }

    /// After an operation key. In the error state nothing happens. Where an
    /// operand is pending and the last key was no operation key, the pending
    /// calculation runs first, and the capture of the display follows it;
    /// otherwise the display is captured at once.
    pub open spec fn operation_set(self, operation: Operation) -> (Self, Option<PendingView>) {
        if self.error_state {
            (self, None)
        } else {
            match self.first_operand {
                Some(first) if !self.last_pressed_operation => (
                    self,
                    Some(
                        PendingView::Operand {
                            text: self.display_value,
                            operation: self.current_operation,
                            first,
                            chained: Some(operation),
                        },
                    ),
                ),
                _ => (self, Some(PendingView::Capture { text: self.display_value, operation })),
            }
        }
    }

    /// After the numeric unit's answer to what `pending` asked.
    ///
    /// An answer of another kind than was asked for changes nothing, and the
    /// question stands. A calculation does not go on in the error state. The
    /// second operand: where it is not a number, the error state is latched;
    /// with no operation pending it is itself the value; a zero divisor
    /// latches the error state; otherwise the operation is to be applied. The
    /// value of the calculation is judged by `concluded`. Its text becomes the
    /// display, and the value the pending operand.
    pub open spec fn resumed(self, pending: PendingView, reply: ReplyView) -> (
        Self,
        Option<PendingView>,
    ) {
        match (pending, reply) {
            (PendingView::Operand { operation, first, chained, .. }, ReplyView::Parsed(parsed)) => {
                if self.error_state {
                    (self, None)
                } else {
                    match parsed {
                        None => self.failed(
                            CalculatorErrorType::InvalidInput,
                            invalid_input_text(),
                        ).settled().proceed(chained),
                        Some(second) => if operation == Operation::Unset {
                            self.concluded(second, chained)
                        } else if operation == Operation::Divide && second.zero() {
                            self.failed(
                                CalculatorErrorType::DivisionByZero,
                                error_text(),
                            ).settled().proceed(chained)
                        } else {
                            (
                                self,
                                Some(PendingView::Outcome { operation, first, second, chained }),
                            )
                        },
                    }
                }
            },
            (PendingView::Outcome { chained, .. }, ReplyView::Applied(value)) => {
                if self.error_state {
                    (self, None)
                } else {
                    self.concluded(value, chained)
                }
            },
            (PendingView::Rendering { value, chained }, ReplyView::Formatted(text)) => {
                if self.error_state {
                    (self, None)
                } else {
                    self.shown(value, text).proceed(chained)
                }
            },
            (PendingView::Capture { operation, .. }, ReplyView::Parsed(parsed)) => (
                self.captured(operation, parsed),
                None,
            ),
            _ => (self, Some(pending)),
        }
    }
}

} // verus!
