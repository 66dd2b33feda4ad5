//! The kinds of failure a calculation can meet, each with its message.

use vstd::prelude::*;
use vstd::string::StringExecFns;
use crate::number::Number;
use crate::text::{drop_first, has_prefix, same_text, starts_with, without_first};

verus! {

/// The kinds of error that a calculator operation can raise.
#[derive(Debug, Clone, Copy, PartialEq, Eq, Structural)]
pub enum CalculatorErrorType {
    /// Division by zero
    DivisionByZero,
    /// Input that is not a number
    InvalidInput,
    /// Result too large to represent
    Overflow,
    /// Result too small to represent
    Underflow,
    /// Any other failure of a calculation
    CalculationError,
}

/// An error raised by a calculator operation: its kind and a message for people.
#[derive(Debug, Clone)]
pub struct CalculatorError {
    error_type: CalculatorErrorType,
    message: String,
}

/// What a [`CalculatorError`] holds.
pub struct CalculatorErrorView {
    pub error_type: CalculatorErrorType,
    pub message: Seq<char>,
}

/// Result of a calculator operation that may fail; of a number, unless said
/// otherwise.
pub type CalcResult<T = Number> = Result<T, CalculatorError>;

/// The message of an invalid-input error with the given details.
pub open spec fn invalid_input_message(details: Option<Seq<char>>) -> Seq<char> {
    match details {
        Some(d) => "Invalid input: "@ + d,
        None => "Invalid input"@,
    }
}

/// The error that a bare message stands for: the fixed division-by-zero
/// message gives that error; a message that begins with "Invalid input" gives
/// an invalid-input error whose details are what follows its first fourteen
/// characters; any other message gives a general calculation error.
pub open spec fn error_of_message(message: Seq<char>) -> CalculatorErrorView {
    if message == "Division by zero is not allowed"@ {
        CalculatorErrorView { error_type: CalculatorErrorType::DivisionByZero, message }
    } else if has_prefix(message, "Invalid input"@) {
        CalculatorErrorView {
            error_type: CalculatorErrorType::InvalidInput,
            message: invalid_input_message(Some(without_first(message, 14))),
        }
    } else {
        CalculatorErrorView { error_type: CalculatorErrorType::CalculationError, message }
    }
}

/// The text shown for an error of kind `error_type` raised with `message`.
pub open spec fn js_string_of(error_type: CalculatorErrorType, message: Seq<char>) -> Seq<char> {
    match error_type {
        CalculatorErrorType::DivisionByZero => "Division by zero is not allowed"@,
        CalculatorErrorType::InvalidInput => "Invalid input: "@ + message,
        CalculatorErrorType::Overflow => "Result is too large to represent"@,
        CalculatorErrorType::Underflow => "Result is too small to represent"@,
        CalculatorErrorType::CalculationError => "Calculation error: "@ + message,
    }
}

impl View for CalculatorError {
    type V = CalculatorErrorView;

    closed spec fn view(&self) -> CalculatorErrorView {
        CalculatorErrorView { error_type: self.error_type, message: self.message@ }
    }
}

impl CalculatorError {
    /// An error of kind `error_type` with the given message.
    pub fn new(error_type: CalculatorErrorType, message: String) -> (error: Self)
        ensures
            error@ == (CalculatorErrorView { error_type, message: message@ }),
    {
        Self { error_type, message }
    }

    /// The error of a division by zero.
    pub fn division_by_zero() -> (error: Self)
        ensures
            error@ == (CalculatorErrorView {
                error_type: CalculatorErrorType::DivisionByZero,
                message: "Division by zero is not allowed"@,
            }),
    {
        Self::new(
            CalculatorErrorType::DivisionByZero,
            String::from_str("Division by zero is not allowed"),
        )
    }

    /// The error of an input that is not a number, with optional details.
    pub fn invalid_input(details: Option<&str>) -> (error: Self)
        ensures
            error@ == (CalculatorErrorView {
                error_type: CalculatorErrorType::InvalidInput,
                message: invalid_input_message(
                    match details {
                        Some(d) => Some(d@),
                        None => None,
                    },
                ),
            }),
    {
        let message = match details {
            Some(d) => {
                let mut m = String::from_str("Invalid input: ");
                m.append(d);
                m
            },
            None => String::from_str("Invalid input"),
        };
        Self::new(CalculatorErrorType::InvalidInput, message)
    }

    /// The error of a result too large to represent.
    pub fn overflow() -> (error: Self)
        ensures
            error@ == (CalculatorErrorView {
                error_type: CalculatorErrorType::Overflow,
                message: "Result is too large to represent"@,
            }),
    {
        Self::new(
            CalculatorErrorType::Overflow,
            String::from_str("Result is too large to represent"),
        )
    }

    /// The error of a result too small to represent.
    pub fn underflow() -> (error: Self)
        ensures
            error@ == (CalculatorErrorView {
                error_type: CalculatorErrorType::Underflow,
                message: "Result is too small to represent"@,
            }),
    {
        Self::new(
            CalculatorErrorType::Underflow,
            String::from_str("Result is too small to represent"),
        )
    }

    /// The kind of this error.
    pub fn error_type(&self) -> (kind: CalculatorErrorType)
        ensures
            kind == self@.error_type,
    {
        self.error_type
    }

    /// The message of this error.
    pub fn message(&self) -> (message: &str)
        ensures
            message@ == self@.message,
    {
        self.message.as_str()
    }

    /// The text handed to a script host for this error: its message.
    pub fn to_js_string(&self) -> (text: String)
        ensures
            text@ == self@.message,
    {
        self.message.clone()
    }
}

/// Turns a bare error message into the error it stands for.
pub fn string_to_calculator_error(error_message: &str) -> (error: CalculatorError)
    ensures
        error@ == error_of_message(error_message@),
{
    if same_text(error_message, "Division by zero is not allowed") {
        CalculatorError::division_by_zero()
    } else if starts_with(error_message, "Invalid input") {
        let details = drop_first(error_message, 14);
        CalculatorError::invalid_input(Some(details.as_str()))
    } else {
        CalculatorError::new(
            CalculatorErrorType::CalculationError,
            String::from_str(error_message),
        )
    }
}

/// The text handed to a script host for an error of kind `error_type` raised
/// with `message`.
pub fn error_to_js_string_by_type(error_type: CalculatorErrorType, message: &str) -> (text: String)
    ensures
        text@ == js_string_of(error_type, message@),
{
    match error_type {
        CalculatorErrorType::DivisionByZero => String::from_str("Division by zero is not allowed"),
        CalculatorErrorType::InvalidInput => {
            let mut text = String::from_str("Invalid input: ");
            text.append(message);
            text
        },
        CalculatorErrorType::Overflow => String::from_str("Result is too large to represent"),
        CalculatorErrorType::Underflow => String::from_str("Result is too small to represent"),
        CalculatorErrorType::CalculationError => {
            let mut text = String::from_str("Calculation error: ");
            text.append(message);
            text
        },
    }
}

} // verus!
