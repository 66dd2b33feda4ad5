//! The four arithmetic primitives. Each says what the numeric unit is to
//! compute; division first turns a zero divisor away.

use vstd::prelude::*;
use crate::errors::{CalcResult, CalculatorError, CalculatorErrorType, CalculatorErrorView};
use crate::number::Number;
use crate::numeric::{Request, RequestView};
use crate::state::types::Operation;

verus! {

/// The sum `a + b`.
pub fn add(a: Number, b: Number) -> (request: Request)
    ensures
        request@ == (RequestView::Apply { operation: Operation::Add, first: a, second: b }),
{
    Request::Apply { operation: Operation::Add, first: a, second: b }
}

/// The difference `a - b`.
pub fn subtract(a: Number, b: Number) -> (request: Request)
    ensures
        request@ == (RequestView::Apply { operation: Operation::Subtract, first: a, second: b }),
{
    Request::Apply { operation: Operation::Subtract, first: a, second: b }
}

/// The product `a * b`.
pub fn multiply(a: Number, b: Number) -> (request: Request)
    ensures
        request@ == (RequestView::Apply { operation: Operation::Multiply, first: a, second: b }),
{
    Request::Apply { operation: Operation::Multiply, first: a, second: b }
}

/// The quotient `a / b`. A divisor that is positive or negative zero is
/// refused with the division-by-zero error; any other divisor is accepted.
pub fn divide(a: Number, b: Number) -> (result: CalcResult<Request>)
    ensures
        b.zero() <==> result is Err,
        result matches Err(error) ==> error@ == (CalculatorErrorView {
            error_type: CalculatorErrorType::DivisionByZero,
            message: "Division by zero is not allowed"@,
        }),
        result matches Ok(request) ==> request@ == (RequestView::Apply {
            operation: Operation::Divide,
            first: a,
            second: b,
        }),
{
    if b.is_zero() {
        Err(CalculatorError::division_by_zero())
    } else {
        Ok(Request::Apply { operation: Operation::Divide, first: a, second: b })
    }
}

} // verus!
