//! The calculator's state, the operations it can hold, and an evaluation in
//! progress.

use vstd::prelude::*;
use vstd::string::StringExecFns;
use crate::errors::CalculatorErrorType;
use crate::number::Number;
use crate::numeric::Request;
use crate::state::model::{CalculatorView, PendingView};

verus! {

/// The operation that waits for its second operand.
#[derive(Debug, Clone, Copy, PartialEq, Eq, Structural)]
pub enum Operation {
    /// No operation is pending.
    Unset,
    Add,
    Subtract,
    Multiply,
    Divide,
}

/// The state of the calculator: its display and what it remembers of the
/// calculation in progress.
#[derive(Debug, Clone)]
pub struct CalculatorState {
    pub(crate) display_value: String,
    pub(crate) first_operand: Option<Number>,
    pub(crate) current_operation: Operation,
    pub(crate) clear_on_next_input: bool,
    pub(crate) last_pressed_operation: bool,
    pub(crate) error_state: bool,
    pub(crate) last_error: Option<CalculatorErrorType>,
}

/// An evaluation in progress: the work that the numeric unit is asked to do,
/// with what the machine needs to go on once the answer is there.
#[derive(Debug, Clone)]
pub enum Pending {
    /// The display is to be parsed as the second operand of `operation`, whose
    /// first operand is `first`. `chained` is the operation whose key started
    /// the calculation, if one did.
    Operand { text: String, operation: Operation, first: Number, chained: Option<Operation> },
    /// `operation` is to be applied to `first` and `second`.
    Outcome { operation: Operation, first: Number, second: Number, chained: Option<Operation> },
    /// The value of the calculation is to be rendered for the display.
    Rendering { value: Number, chained: Option<Operation> },
    /// The display is to be parsed as the first operand of `operation`.
    Capture { text: String, operation: Operation },
}

impl View for Pending {
    type V = PendingView;

    open spec fn view(&self) -> PendingView {
        match self {
            Pending::Operand { text, operation, first, chained } => PendingView::Operand {
                text: text@,
                operation: *operation,
                first: *first,
                chained: *chained,
            },
            Pending::Outcome { operation, first, second, chained } => PendingView::Outcome {
                operation: *operation,
                first: *first,
                second: *second,
                chained: *chained,
            },
            Pending::Rendering { value, chained } => PendingView::Rendering {
                value: *value,
                chained: *chained,
            },
            Pending::Capture { text, operation } => PendingView::Capture {
                text: text@,
                operation: *operation,
            },
        }
    }
}

/// What an optional evaluation in progress holds.
pub open spec fn pending_view(pending: Option<Pending>) -> Option<PendingView> {
    match pending {
        Some(p) => Some(p@),
        None => None,
    }
}

impl Pending {
    /// The work that the numeric unit is asked to do.
    pub fn request(&self) -> (request: Request)
        ensures
            request@ == self@.request(),
    {
        match self {
            Pending::Operand { text, .. } => Request::Parse { text: text.clone() },
            Pending::Outcome { operation, first, second, .. } => Request::Apply {
                operation: *operation,
                first: *first,
                second: *second,
            },
            Pending::Rendering { value, .. } => Request::Format { value: *value },
            Pending::Capture { text, .. } => Request::Parse { text: text.clone() },
        }
    }
}

impl View for CalculatorState {
    type V = CalculatorView;

    closed spec fn view(&self) -> CalculatorView {
        CalculatorView {
            display_value: self.display_value@,
            first_operand: self.first_operand,
            current_operation: self.current_operation,
            clear_on_next_input: self.clear_on_next_input,
            last_pressed_operation: self.last_pressed_operation,
            error_state: self.error_state,
            last_error: self.last_error,
        }
    }
}

/// The view of a state, field by field.
pub(crate) broadcast proof fn view_of_state(state: CalculatorState)
    ensures
        #[trigger] state@ == (CalculatorView {
            display_value: state.display_value@,
            first_operand: state.first_operand,
            current_operation: state.current_operation,
            clear_on_next_input: state.clear_on_next_input,
            last_pressed_operation: state.last_pressed_operation,
            error_state: state.error_state,
            last_error: state.last_error,
        }),
{
}

impl CalculatorState {
    /// A calculator in its initial state: the display shows "0", nothing is
    /// pending and no flag is set.
    pub fn new() -> (state: Self)
        ensures
            state@ == CalculatorView::initial(),
    {
        Self {
            display_value: String::from_str("0"),
            first_operand: None,
            current_operation: Operation::Unset,
            clear_on_next_input: false,
            last_pressed_operation: false,
            error_state: false,
            last_error: None,
        }
    }

    /// The text on the display.
    pub fn display_value(&self) -> (text: String)
        ensures
            text@ == self@.display_value,
    {
        self.display_value.clone()
    }

    /// The left-hand operand of the pending operation.
    pub fn first_operand(&self) -> (operand: Option<Number>)
        ensures
            operand == self@.first_operand,
    {
        self.first_operand
    }

    /// The operation that waits for its second operand.
    pub fn current_operation(&self) -> (operation: Operation)
        ensures
            operation == self@.current_operation,
    {
        self.current_operation
    }

    /// Whether the next digit or decimal point replaces the display.
    pub fn clear_on_next_input(&self) -> (flag: bool)
        ensures
            flag == self@.clear_on_next_input,
    {
        self.clear_on_next_input
    }

    /// Whether the last key was an operation key.
    pub fn last_pressed_operation(&self) -> (flag: bool)
        ensures
            flag == self@.last_pressed_operation,
    {
        self.last_pressed_operation
    }

    /// Whether the machine is latched in its error state.
    pub fn error_state(&self) -> (flag: bool)
        ensures
            flag == self@.error_state,
    {
        self.error_state
    }

    /// The kind of the error that latched the machine.
    pub fn last_error(&self) -> (kind: Option<CalculatorErrorType>)
        ensures
            kind == self@.last_error,
    {
        self.last_error
    }
}

impl Default for CalculatorState {
    fn default() -> (state: Self)
        ensures
            state@ == CalculatorView::initial(),
    {
        Self::new()
    }
}

} // verus!
