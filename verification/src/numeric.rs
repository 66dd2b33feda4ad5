//! What the library asks of the host's numeric unit, and what comes back.
//!
//! The library decides when a number is parsed, computed or rendered and what
//! becomes of the answer; the host performs the floating-point work itself.

use vstd::prelude::*;
use crate::number::Number;
use crate::state::types::Operation;

verus! {

/// A piece of floating-point work that the library asks the host to perform.
#[derive(Debug, Clone)]
pub enum Request {
    /// Read `text` as a decimal number.
    Parse { text: String },
    /// Apply `operation` to `first` and `second`, in that order.
    Apply { operation: Operation, first: Number, second: Number },
    /// Write `value` as text.
    Format { value: Number },
}

/// What a [`Request`] holds.
pub enum RequestView {
    Parse { text: Seq<char> },
    Apply { operation: Operation, first: Number, second: Number },
    Format { value: Number },
}

impl View for Request {
    type V = RequestView;

    open spec fn view(&self) -> RequestView {
        match self {
            Request::Parse { text } => RequestView::Parse { text: text@ },
            Request::Apply { operation, first, second } => RequestView::Apply {
                operation: *operation,
                first: *first,
                second: *second,
            },
            Request::Format { value } => RequestView::Format { value: *value },
        }
    }
}

/// The host's answer to a [`Request`].
#[derive(Debug, Clone)]
pub enum Reply {
    /// The number that the text stands for, or `None` where it stands for none.
    Parsed(Option<Number>),
    /// The result of the operation.
    Applied(Number),
    /// The text of the value.
    Formatted(String),
}

/// What a [`Reply`] holds.
pub enum ReplyView {
    Parsed(Option<Number>),
    Applied(Number),
    Formatted(Seq<char>),
}

impl View for Reply {
    type V = ReplyView;

    open spec fn view(&self) -> ReplyView {
        match self {
            Reply::Parsed(parsed) => ReplyView::Parsed(*parsed),
            Reply::Applied(value) => ReplyView::Applied(*value),
            Reply::Formatted(text) => ReplyView::Formatted(text@),
        }
    }
}

} // verus!
