//! The display state machine behind the calculator keypad.

pub mod types;
pub mod model;
pub mod operations;
pub mod laws;
pub mod evaluation;

pub use types::{CalculatorState, Operation, Pending};
pub use model::{CalculatorView, PendingView};
