//! The calculator's keys, pressed in sequence. The floating-point work that
//! the library asks for is done here, as a host would do it.

use rust_wasm_calc::errors::CalculatorErrorType;
use rust_wasm_calc::number::Number;
use rust_wasm_calc::numeric::{Reply, Request};
use rust_wasm_calc::state::types::{CalculatorState, Operation, Pending};

fn number(value: f64) -> Number {
    Number::from_bits(value.to_bits())
}

fn float(number: Number) -> f64 {
    f64::from_bits(number.to_bits())
}

fn answer(request: &Request) -> Reply {
    match request {
        Request::Parse { text } => Reply::Parsed(text.parse::<f64>().ok().map(number)),
        Request::Apply { operation, first, second } => {
            let (a, b) = (float(*first), float(*second));
            Reply::Applied(number(match operation {
                Operation::Add => a + b,
                Operation::Subtract => a - b,
                Operation::Multiply => a * b,
                Operation::Divide => a / b,
                Operation::Unset => b,
            }))
        }
        Request::Format { value } => Reply::Formatted(format!("{}", float(*value))),
    }
}

fn run(state: &mut CalculatorState, mut pending: Option<Pending>) {
    while let Some(asked) = pending {
        let reply = answer(&asked.request());
        pending = state.resume(asked, reply);
    }
}

fn set_operation(state: &mut CalculatorState, operation: Operation) {
    let pending = state.set_operation(operation);
    run(state, pending);
}

fn calculate(state: &mut CalculatorState) {
    let pending = state.calculate();
    run(state, pending);
}

/// The state as text, with the pending operand written as a float.
fn debug(state: &CalculatorState) -> String {
    format!("{:?} first_operand: {:?}", state, state.first_operand().map(float))
}

fn press(state: &mut CalculatorState, digits: &[u8]) {
    for digit in digits {
        state.input_digit(*digit);
    }
}

#[test]
fn test_new_calculator_state() {
    let state = CalculatorState::new();
    assert_eq!(state.display_value(), "0");
    assert_eq!(state.first_operand(), None);
    assert_eq!(state.current_operation(), Operation::Unset);
    assert_eq!(state.clear_on_next_input(), false);
    assert_eq!(state.last_pressed_operation(), false);
    assert_eq!(state.error_state(), false);
}

#[test]
fn state_test_input_digit() {
    let mut state = CalculatorState::new();

    state.input_digit(5);
    assert_eq!(state.display_value(), "5");

    state.input_digit(3);
    assert_eq!(state.display_value(), "53");

    // The equals key with nothing pending makes the next entry start afresh.
    calculate(&mut state);
    assert_eq!(state.clear_on_next_input(), true);
    state.input_digit(7);
    assert_eq!(state.display_value(), "7");
    assert_eq!(state.clear_on_next_input(), false);
}

#[test]
fn state_test_input_decimal() {
    let mut state = CalculatorState::new();

    state.input_decimal();
    assert_eq!(state.display_value(), "0.");

    state.input_digit(5);
    assert_eq!(state.display_value(), "0.5");

    state.input_decimal();
    assert_eq!(state.display_value(), "0.5");
}

#[test]
fn state_test_toggle_sign() {
    let mut state = CalculatorState::new();

    state.toggle_sign();
    assert_eq!(state.display_value(), "0");

    state.input_digit(5);
    state.toggle_sign();
    assert_eq!(state.display_value(), "-5");

    state.toggle_sign();
    assert_eq!(state.display_value(), "5");
}

#[test]
fn state_test_backspace() {
    let mut state = CalculatorState::new();

    state.input_digit(5);
    state.backspace();
    assert_eq!(state.display_value(), "0");

    state.input_digit(1);
    state.input_digit(2);
    state.input_digit(3);
    state.backspace();
    assert_eq!(state.display_value(), "12");
}

#[test]
fn state_test_clear() {
    let mut state = CalculatorState::new();

    state.input_digit(5);
    set_operation(&mut state, Operation::Add);
    state.input_digit(3);

    state.clear();
    assert_eq!(state.display_value(), "0");
    assert_eq!(state.first_operand(), None);
    assert_eq!(state.current_operation(), Operation::Unset);
    assert_eq!(state.clear_on_next_input(), false);
}

#[test]
fn state_test_clear_entry() {
    let mut state = CalculatorState::new();

    state.input_digit(5);
    set_operation(&mut state, Operation::Add);
    state.input_digit(3);

    state.clear_entry();
    assert_eq!(state.display_value(), "0");
    assert_eq!(state.first_operand().map(float), Some(5.0));
    assert_eq!(state.current_operation(), Operation::Add);
}

#[test]
fn state_test_addition() {
    let mut state = CalculatorState::new();

    state.input_digit(5);
    set_operation(&mut state, Operation::Add);
    state.input_digit(3);
    calculate(&mut state);

    assert_eq!(state.display_value(), "8");
}

#[test]
fn state_test_subtraction() {
    let mut state = CalculatorState::new();

    state.input_digit(5);
    set_operation(&mut state, Operation::Subtract);
    state.input_digit(3);
    calculate(&mut state);

    assert_eq!(state.display_value(), "2");
}

#[test]
fn state_test_multiplication() {
    let mut state = CalculatorState::new();

    state.input_digit(5);
    set_operation(&mut state, Operation::Multiply);
    state.input_digit(3);
    calculate(&mut state);

    assert_eq!(state.display_value(), "15");
}

#[test]
fn state_test_division() {
    let mut state = CalculatorState::new();

    state.input_digit(6);
    set_operation(&mut state, Operation::Divide);
    state.input_digit(3);
    calculate(&mut state);

    assert_eq!(state.display_value(), "2");
}

#[test]
fn state_test_division_by_zero() {
    let mut state = CalculatorState::new();

    state.input_digit(5);
    set_operation(&mut state, Operation::Divide);
    state.input_digit(0);
    calculate(&mut state);

    assert_eq!(state.display_value(), "Error");
    assert_eq!(state.error_state(), true);
}

#[test]
fn test_operation_chaining() {
    let mut state = CalculatorState::new();

    state.input_digit(5);
    set_operation(&mut state, Operation::Add);
    state.input_digit(3);
    set_operation(&mut state, Operation::Multiply);
    state.input_digit(2);
    calculate(&mut state);

    assert_eq!(state.display_value(), "16");
}

#[test]
fn test_full_calculation_sequence() {
    let mut state = CalculatorState::new();

    assert_eq!(state.display_value(), "0");

    state.input_digit(5);
    assert_eq!(state.display_value(), "5");

    set_operation(&mut state, Operation::Add);

    state.input_digit(3);
    assert_eq!(state.display_value(), "3");

    calculate(&mut state);
    assert_eq!(state.display_value(), "8");

    set_operation(&mut state, Operation::Multiply);
    state.input_digit(2);
    calculate(&mut state);

    assert_eq!(state.display_value(), "16");
}

#[test]
fn test_error_handling_and_recovery() {
    let mut state = CalculatorState::new();

    state.input_digit(5);
    set_operation(&mut state, Operation::Divide);
    state.input_digit(0);

    calculate(&mut state);
    assert!(state.display_value().contains("Error"));

    state.clear();
    assert_eq!(state.display_value(), "0");

    state.input_digit(7);
    set_operation(&mut state, Operation::Add);
    state.input_digit(3);
    calculate(&mut state);
    assert_eq!(state.display_value(), "10");
}

#[test]
fn operations_tests_test_clear() {
    let mut state = CalculatorState::new();

    state.input_digit(5);
    set_operation(&mut state, Operation::Add);
    state.input_digit(3);

    state.clear();

    assert_eq!(state.display_value(), "0");

    let debug_str = debug(&state);
    assert!(debug_str.contains("display_value: \"0\""));
    assert!(debug_str.contains("first_operand: None"));
    assert!(debug_str.contains("current_operation: Unset"));
    assert!(debug_str.contains("clear_on_next_input: false"));
    assert!(debug_str.contains("last_pressed_operation: false"));
    assert!(debug_str.contains("error_state: false"));
}

#[test]
fn operations_tests_test_clear_entry() {
    let mut state = CalculatorState::new();

    state.input_digit(5);
    set_operation(&mut state, Operation::Add);
    state.input_digit(3);

    state.clear_entry();

    assert_eq!(state.display_value(), "0");

    let debug_str = debug(&state);
    assert!(debug_str.contains("current_operation: Add"));
}

#[test]
fn operations_tests_test_input_digit() {
    let mut state = CalculatorState::new();

    state.input_digit(5);
    assert_eq!(state.display_value(), "5");

    state.input_digit(3);
    assert_eq!(state.display_value(), "53");

    state.input_digit(0);
    state.input_digit(1);
    assert_eq!(state.display_value(), "5301");
}

#[test]
fn test_input_digit_after_operation() {
    let mut state = CalculatorState::new();

    state.input_digit(5);
    assert_eq!(state.display_value(), "5");

    set_operation(&mut state, Operation::Add);

    state.input_digit(3);
    assert_eq!(state.display_value(), "3");
}

#[test]
fn operations_tests_test_input_decimal() {
    let mut state = CalculatorState::new();

    state.input_decimal();
    assert_eq!(state.display_value(), "0.");

    state.input_digit(5);
    assert_eq!(state.display_value(), "0.5");

    state.input_digit(2);
    state.input_digit(3);
    assert_eq!(state.display_value(), "0.523");

    state.input_decimal();
    assert_eq!(state.display_value(), "0.523");
}

#[test]
fn operations_tests_test_toggle_sign() {
    let mut state = CalculatorState::new();

    state.input_digit(5);
    assert_eq!(state.display_value(), "5");

    state.toggle_sign();
    assert_eq!(state.display_value(), "-5");

    state.toggle_sign();
    assert_eq!(state.display_value(), "5");

    state.clear();
    state.input_digit(1);
    state.input_decimal();
    state.input_digit(5);
    assert_eq!(state.display_value(), "1.5");

    state.toggle_sign();
    assert_eq!(state.display_value(), "-1.5");
}

#[test]
fn operations_tests_test_backspace() {
    let mut state = CalculatorState::new();

    state.input_digit(5);
    state.input_digit(4);
    state.input_digit(3);
    assert_eq!(state.display_value(), "543");

    state.backspace();
    assert_eq!(state.display_value(), "54");

    state.backspace();
    assert_eq!(state.display_value(), "5");

    state.backspace();
    assert_eq!(state.display_value(), "0");

    state.backspace();
    assert_eq!(state.display_value(), "0");
}

#[test]
fn test_set_operation() {
    let mut state = CalculatorState::new();

    state.input_digit(5);

    set_operation(&mut state, Operation::Add);

    let debug_str = debug(&state);
    assert!(debug_str.contains("current_operation: Add"));
    assert!(debug_str.contains("first_operand: Some(5"));
}

#[test]
fn operations_tests_test_addition() {
    let mut state = CalculatorState::new();

    state.input_digit(5);
    set_operation(&mut state, Operation::Add);
    state.input_digit(3);
    calculate(&mut state);

    assert_eq!(state.display_value(), "8");
}

#[test]
fn operations_tests_test_subtraction() {
    let mut state = CalculatorState::new();

    state.input_digit(1);
    state.input_digit(0);
    set_operation(&mut state, Operation::Subtract);
    state.input_digit(4);
    calculate(&mut state);

    assert_eq!(state.display_value(), "6");
}

#[test]
fn operations_tests_test_multiplication() {
    let mut state = CalculatorState::new();

    state.input_digit(6);
    set_operation(&mut state, Operation::Multiply);
    state.input_digit(7);
    calculate(&mut state);

    assert_eq!(state.display_value(), "42");
}

#[test]
fn operations_tests_test_division() {
    let mut state = CalculatorState::new();

    state.input_digit(1);
    state.input_digit(0);
    set_operation(&mut state, Operation::Divide);
    state.input_digit(2);
    calculate(&mut state);

    assert_eq!(state.display_value(), "5");
}

#[test]
fn operations_tests_test_division_by_zero() {
    let mut state = CalculatorState::new();

    state.input_digit(5);
    set_operation(&mut state, Operation::Divide);
    state.input_digit(0);
    calculate(&mut state);

    assert!(state.display_value().contains("Error"));

    let debug_str = debug(&state);
    assert!(debug_str.contains("error_state: true"));
}

#[test]
fn test_chained_operations() {
    let mut state = CalculatorState::new();

    state.input_digit(5);
    set_operation(&mut state, Operation::Add);
    state.input_digit(3);
    calculate(&mut state);
    assert_eq!(state.display_value(), "8");

    set_operation(&mut state, Operation::Multiply);
    state.input_digit(2);
    calculate(&mut state);
    assert_eq!(state.display_value(), "16");

    set_operation(&mut state, Operation::Subtract);
    state.input_digit(6);
    calculate(&mut state);
    assert_eq!(state.display_value(), "10");

    set_operation(&mut state, Operation::Divide);
    state.input_digit(5);
    calculate(&mut state);
    assert_eq!(state.display_value(), "2");
}

#[test]
fn test_calculator_state_new() {
    let state = CalculatorState::new();

    assert_eq!(state.display_value(), "0");

    let debug_str = debug(&state);
    assert!(debug_str.contains("display_value: \"0\""));
    assert!(debug_str.contains("first_operand: None"));
    assert!(debug_str.contains("current_operation: Unset"));
    assert!(debug_str.contains("clear_on_next_input: false"));
    assert!(debug_str.contains("last_pressed_operation: false"));
    assert!(debug_str.contains("error_state: false"));
}

#[test]
fn test_display_value_getter() {
    let state = CalculatorState::new();
    assert_eq!(state.display_value(), "0");
}

#[test]
fn test_operation_equality() {
    assert_eq!(Operation::Unset, Operation::Unset);
    assert_eq!(Operation::Add, Operation::Add);
    assert_eq!(Operation::Subtract, Operation::Subtract);
    assert_eq!(Operation::Multiply, Operation::Multiply);
    assert_eq!(Operation::Divide, Operation::Divide);

    assert_ne!(Operation::Unset, Operation::Add);
    assert_ne!(Operation::Add, Operation::Subtract);
    assert_ne!(Operation::Subtract, Operation::Multiply);
    assert_ne!(Operation::Multiply, Operation::Divide);
    assert_ne!(Operation::Divide, Operation::Unset);
}

#[test]
fn test_operation_copy() {
    let op1 = Operation::Add;
    let op2 = op1;

    assert_eq!(op1, Operation::Add);
    assert_eq!(op2, Operation::Add);
}

#[test]
fn test_operation_debug() {
    assert_eq!(format!("{:?}", Operation::Unset), "Unset");
    assert_eq!(format!("{:?}", Operation::Add), "Add");
    assert_eq!(format!("{:?}", Operation::Subtract), "Subtract");
    assert_eq!(format!("{:?}", Operation::Multiply), "Multiply");
    assert_eq!(format!("{:?}", Operation::Divide), "Divide");
}

#[test]
fn test_calculator_state_wasm() {
    let mut state = CalculatorState::new();

    state.input_digit(7);
    state.input_digit(5);
    assert_eq!(state.display_value(), "75");

    set_operation(&mut state, Operation::Add);
    state.input_digit(2);
    state.input_digit(5);
    calculate(&mut state);

    assert_eq!(state.display_value(), "100");
}

#[test]
fn default_state_is_the_initial_state() {
    let state = CalculatorState::default();
    assert_eq!(state.display_value(), "0");
    assert_eq!(state.first_operand(), None);
    assert_eq!(state.current_operation(), Operation::Unset);
    assert_eq!(state.last_error(), None);
}

#[test]
fn digits_above_nine_are_ignored() {
    let mut state = CalculatorState::new();
    state.input_digit(10);
    state.input_digit(255);
    assert_eq!(state.display_value(), "0");
    state.input_digit(4);
    state.input_digit(12);
    assert_eq!(state.display_value(), "4");
}

#[test]
fn zero_is_replaced_and_later_zeros_are_kept() {
    let mut state = CalculatorState::new();
    press(&mut state, &[0, 0, 7, 0, 0]);
    assert_eq!(state.display_value(), "700");
}

#[test]
fn decimal_point_twice_is_once() {
    let mut state = CalculatorState::new();
    state.input_decimal();
    state.input_decimal();
    assert_eq!(state.display_value(), "0.");
}

#[test]
fn decimal_point_starts_a_fresh_entry() {
    let mut state = CalculatorState::new();
    press(&mut state, &[1, 2]);
    set_operation(&mut state, Operation::Add);
    state.input_decimal();
    assert_eq!(state.display_value(), "0.");
    assert_eq!(state.clear_on_next_input(), false);
    assert_eq!(state.last_pressed_operation(), false);
    state.input_digit(5);
    calculate(&mut state);
    assert_eq!(state.display_value(), "12.5");
}

#[test]
fn sign_of_a_lone_minus_is_dropped() {
    let mut state = CalculatorState::new();
    state.input_digit(5);
    state.toggle_sign();
    state.backspace();
    assert_eq!(state.display_value(), "-");
    state.toggle_sign();
    assert_eq!(state.display_value(), "");
    state.backspace();
    assert_eq!(state.display_value(), "0");
}

#[test]
fn backspace_after_an_operation_clears_the_entry() {
    let mut state = CalculatorState::new();
    press(&mut state, &[4, 2]);
    set_operation(&mut state, Operation::Multiply);
    assert_eq!(state.clear_on_next_input(), true);
    state.backspace();
    assert_eq!(state.display_value(), "0");
    assert_eq!(state.clear_on_next_input(), false);
    assert_eq!(state.first_operand().map(float), Some(42.0));
    assert_eq!(state.current_operation(), Operation::Multiply);
}

#[test]
fn a_second_operation_key_replaces_the_first() {
    let mut state = CalculatorState::new();
    state.input_digit(9);
    set_operation(&mut state, Operation::Add);
    set_operation(&mut state, Operation::Subtract);
    assert_eq!(state.current_operation(), Operation::Subtract);
    assert_eq!(state.first_operand().map(float), Some(9.0));
    assert_eq!(state.display_value(), "9");
    state.input_digit(4);
    calculate(&mut state);
    assert_eq!(state.display_value(), "5");
}

#[test]
fn equals_without_an_operand_only_ends_the_entry() {
    let mut state = CalculatorState::new();
    press(&mut state, &[3, 1]);
    let pending = state.calculate();
    assert!(pending.is_none());
    assert_eq!(state.display_value(), "31");
    assert_eq!(state.first_operand(), None);
    assert_eq!(state.current_operation(), Operation::Unset);
    assert_eq!(state.clear_on_next_input(), true);
    assert_eq!(state.last_pressed_operation(), false);
}

#[test]
fn equals_twice_keeps_the_result() {
    let mut state = CalculatorState::new();
    state.input_digit(5);
    set_operation(&mut state, Operation::Add);
    state.input_digit(3);
    calculate(&mut state);
    calculate(&mut state);
    assert_eq!(state.display_value(), "8");
    assert_eq!(state.first_operand().map(float), Some(8.0));
}

#[test]
fn fractions_are_shown_as_the_numeric_unit_writes_them() {
    let mut state = CalculatorState::new();
    state.input_digit(1);
    set_operation(&mut state, Operation::Divide);
    state.input_digit(4);
    calculate(&mut state);
    assert_eq!(state.display_value(), "0.25");

    state.clear();
    state.input_decimal();
    state.input_digit(1);
    set_operation(&mut state, Operation::Add);
    state.input_decimal();
    state.input_digit(2);
    calculate(&mut state);
    assert_eq!(state.display_value(), "0.30000000000000004");
}

#[test]
fn negative_results_carry_their_sign() {
    let mut state = CalculatorState::new();
    state.input_digit(3);
    set_operation(&mut state, Operation::Subtract);
    state.input_digit(8);
    calculate(&mut state);
    assert_eq!(state.display_value(), "-5");
}

#[test]
fn the_steps_of_a_calculation_are_asked_in_order() {
    let mut state = CalculatorState::new();
    state.input_digit(6);
    let capture = state.set_operation(Operation::Multiply).unwrap();
    assert!(matches!(&capture, Pending::Capture { text, operation: Operation::Multiply } if text == "6"));
    assert!(state.resume(capture, Reply::Parsed(Some(number(6.0)))).is_none());
    state.input_digit(7);

    let operand = state.calculate().unwrap();
    assert!(matches!(operand.request(), Request::Parse { text } if text == "7"));
    assert_eq!(state.display_value(), "7");

    let outcome = state.resume(operand, Reply::Parsed(Some(number(7.0)))).unwrap();
    match outcome.request() {
        Request::Apply { operation, first, second } => {
            assert_eq!(operation, Operation::Multiply);
            assert_eq!(float(first), 6.0);
            assert_eq!(float(second), 7.0);
        }
        other => panic!("asked {:?}", other),
    }

    let rendering = state.resume(outcome, Reply::Applied(number(42.5))).unwrap();
    assert!(matches!(rendering.request(), Request::Format { value } if float(value) == 42.5));

    assert!(state.resume(rendering, Reply::Formatted("42.5".to_string())).is_none());
    assert_eq!(state.display_value(), "42.5");
    assert_eq!(state.first_operand().map(float), Some(42.5));
    assert_eq!(state.current_operation(), Operation::Unset);
    assert_eq!(state.clear_on_next_input(), true);
}

#[test]
fn an_answer_of_another_kind_leaves_the_question_standing() {
    let mut state = CalculatorState::new();
    state.input_digit(6);
    set_operation(&mut state, Operation::Add);
    state.input_digit(1);
    let operand = state.calculate().unwrap();
    let again = state.resume(operand, Reply::Applied(number(1.0))).unwrap();
    assert!(matches!(again, Pending::Operand { .. }));
    let again = state.resume(again, Reply::Formatted("1".to_string())).unwrap();
    assert!(matches!(again, Pending::Operand { .. }));
    assert_eq!(state.display_value(), "1");
    assert_eq!(state.error_state(), false);
}

#[test]
fn a_display_that_is_no_number_fails_the_operation_key() {
    let mut state = CalculatorState::new();
    state.input_digit(5);
    state.toggle_sign();
    state.backspace();
    assert_eq!(state.display_value(), "-");
    set_operation(&mut state, Operation::Add);
    assert_eq!(state.display_value(), "Error");
    assert_eq!(state.error_state(), true);
    assert_eq!(state.last_error(), Some(CalculatorErrorType::InvalidInput));
    assert_eq!(state.first_operand(), None);
}

#[test]
fn a_second_operand_that_is_no_number_fails_the_calculation() {
    let mut state = CalculatorState::new();
    state.input_digit(5);
    set_operation(&mut state, Operation::Add);
    state.input_digit(5);
    state.toggle_sign();
    state.backspace();
    calculate(&mut state);
    assert_eq!(state.display_value(), "Error: Invalid input");
    assert_eq!(state.error_state(), true);
    assert_eq!(state.last_error(), Some(CalculatorErrorType::InvalidInput));
    assert_eq!(state.current_operation(), Operation::Unset);
    assert_eq!(state.clear_on_next_input(), true);
}

#[test]
fn an_infinite_result_is_an_overflow() {
    let mut state = CalculatorState::new();
    state.input_digit(9);
    set_operation(&mut state, Operation::Multiply);
    state.input_digit(9);
    let operand = state.calculate().unwrap();
    let outcome = state.resume(operand, Reply::Parsed(Some(number(9.0)))).unwrap();
    assert!(state.resume(outcome, Reply::Applied(number(f64::INFINITY))).is_none());
    assert_eq!(state.display_value(), "Error: Overflow");
    assert_eq!(state.last_error(), Some(CalculatorErrorType::Overflow));

    let mut state = CalculatorState::new();
    state.input_digit(9);
    set_operation(&mut state, Operation::Multiply);
    state.input_digit(9);
    let operand = state.calculate().unwrap();
    let outcome = state.resume(operand, Reply::Parsed(Some(number(9.0)))).unwrap();
    assert!(state.resume(outcome, Reply::Applied(number(f64::NEG_INFINITY))).is_none());
    assert_eq!(state.display_value(), "Error: Overflow");
}

#[test]
fn a_result_that_is_no_number_is_an_invalid_operation() {
    let mut state = CalculatorState::new();
    state.input_digit(9);
    set_operation(&mut state, Operation::Multiply);
    state.input_digit(9);
    let operand = state.calculate().unwrap();
    let outcome = state.resume(operand, Reply::Parsed(Some(number(9.0)))).unwrap();
    assert!(state.resume(outcome, Reply::Applied(number(f64::NAN))).is_none());
    assert_eq!(state.display_value(), "Error: Invalid operation");
    assert_eq!(state.error_state(), true);
    assert_eq!(state.last_error(), Some(CalculatorErrorType::CalculationError));
}

#[test]
fn a_long_display_overflows_through_the_numeric_unit() {
    let mut state = CalculatorState::new();
    state.input_digit(1);
    for _ in 0..400 {
        state.input_digit(0);
    }
    // The display parses as infinity, which is no operand.
    set_operation(&mut state, Operation::Add);
    assert_eq!(state.display_value(), "Error");
    assert_eq!(state.last_error(), Some(CalculatorErrorType::InvalidInput));
}

#[test]
fn division_by_negative_zero_is_division_by_zero() {
    let mut state = CalculatorState::new();
    state.input_digit(5);
    set_operation(&mut state, Operation::Divide);
    state.input_digit(0);
    state.input_decimal();
    state.toggle_sign();
    assert_eq!(state.display_value(), "-0.");
    calculate(&mut state);
    assert_eq!(state.display_value(), "Error");
    assert_eq!(state.last_error(), Some(CalculatorErrorType::DivisionByZero));
}

#[test]
fn the_error_state_is_latched_until_clear() {
    let mut state = CalculatorState::new();
    state.input_digit(5);
    set_operation(&mut state, Operation::Divide);
    state.input_digit(0);
    calculate(&mut state);
    assert!(state.error_state());
    let shown = state.display_value();

    state.input_digit(7);
    state.input_decimal();
    state.toggle_sign();
    state.backspace();
    assert!(state.set_operation(Operation::Add).is_none());
    assert!(state.calculate().is_none());
    assert_eq!(state.display_value(), shown);
    assert!(state.error_state());

    state.clear();
    assert!(!state.error_state());
    assert_eq!(state.last_error(), None);
    state.input_digit(7);
    set_operation(&mut state, Operation::Add);
    state.input_digit(3);
    calculate(&mut state);
    assert_eq!(state.display_value(), "10");
}

#[test]
fn clear_entry_ends_the_error_state_and_keeps_the_operand() {
    let mut state = CalculatorState::new();
    state.input_digit(5);
    set_operation(&mut state, Operation::Add);
    state.input_digit(5);
    state.toggle_sign();
    state.backspace();
    calculate(&mut state);
    assert!(state.error_state());
    state.clear_entry();
    assert!(!state.error_state());
    assert_eq!(state.last_error(), None);
    assert_eq!(state.display_value(), "0");
    assert_eq!(state.first_operand().map(float), Some(5.0));
}

#[test]
fn a_failed_chained_calculation_shows_the_bare_error() {
    let mut state = CalculatorState::new();
    state.input_digit(5);
    set_operation(&mut state, Operation::Divide);
    state.input_digit(0);
    set_operation(&mut state, Operation::Add);
    assert_eq!(state.display_value(), "Error");
    assert!(state.error_state());
    assert_eq!(state.last_error(), Some(CalculatorErrorType::DivisionByZero));
}

#[test]
fn whole_results_are_shown_without_asking() {
    let mut state = CalculatorState::new();
    state.input_digit(6);
    set_operation(&mut state, Operation::Multiply);
    state.input_digit(7);
    let operand = state.calculate().unwrap();
    let outcome = state.resume(operand, Reply::Parsed(Some(number(7.0)))).unwrap();
    assert!(state.resume(outcome, Reply::Applied(number(42.0))).is_none());
    assert_eq!(state.display_value(), "42");
    assert_eq!(state.first_operand().map(float), Some(42.0));
    assert_eq!(state.clear_on_next_input(), true);
}

#[test]
fn negative_zero_is_shown_as_zero() {
    let mut state = CalculatorState::new();
    state.input_digit(0);
    state.input_decimal();
    state.toggle_sign();
    assert_eq!(state.display_value(), "-0.");
    set_operation(&mut state, Operation::Multiply);
    assert_eq!(state.first_operand().map(|n| n.to_bits()), Some((-0.0f64).to_bits()));
    state.input_digit(5);
    calculate(&mut state);
    assert_eq!(state.display_value(), "0");
    assert_eq!(state.first_operand().map(|n| n.to_bits()), Some((-0.0f64).to_bits()));
}

#[test]
fn large_whole_results_are_written_by_the_numeric_unit() {
    let mut state = CalculatorState::new();
    press(&mut state, &[1, 0, 0, 0, 0, 0, 0, 0, 0, 0, 0]);
    set_operation(&mut state, Operation::Multiply);
    press(&mut state, &[1, 0, 0, 0, 0, 0, 0, 0, 0, 0, 0]);
    let operand = state.calculate().unwrap();
    let outcome = state.resume(operand, Reply::Parsed(Some(number(1e10)))).unwrap();
    let rendering = state.resume(outcome, Reply::Applied(number(1e20))).unwrap();
    assert!(matches!(rendering.request(), Request::Format { value } if float(value) == 1e20));
    let reply = answer(&rendering.request());
    assert!(state.resume(rendering, reply).is_none());
    assert_eq!(state.display_value(), "100000000000000000000");

    let mut state = CalculatorState::new();
    press(&mut state, &[9, 9, 9, 9, 9, 9, 9, 9, 9]);
    set_operation(&mut state, Operation::Multiply);
    press(&mut state, &[9, 9, 9, 9, 9, 9, 9, 9, 9]);
    calculate(&mut state);
    assert_eq!(state.display_value(), "999999998000000000");
}

#[test]
fn the_result_of_a_chain_is_captured_from_the_display() {
    let mut state = CalculatorState::new();
    state.input_digit(1);
    set_operation(&mut state, Operation::Divide);
    state.input_digit(3);
    let operand = state.set_operation(Operation::Add).unwrap();
    assert!(matches!(&operand, Pending::Operand { chained: Some(Operation::Add), operation: Operation::Divide, .. }));
    let outcome = state.resume(operand, Reply::Parsed(Some(number(3.0)))).unwrap();
    let rendering = state.resume(outcome, Reply::Applied(number(1.0 / 3.0))).unwrap();
    let capture = state.resume(rendering, Reply::Formatted("0.3333333333333333".to_string())).unwrap();
    assert!(matches!(&capture, Pending::Capture { text, operation: Operation::Add } if text == "0.3333333333333333"));
    assert_eq!(state.current_operation(), Operation::Unset);
    assert!(state.resume(capture, Reply::Parsed(Some(number(0.3333333333333333)))).is_none());
    assert_eq!(state.current_operation(), Operation::Add);
    assert_eq!(state.first_operand().map(float), Some(0.3333333333333333));
    assert_eq!(state.clear_on_next_input(), true);
    assert_eq!(state.last_pressed_operation(), true);
}
