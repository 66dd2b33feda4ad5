//! The memory register: one number that is stored, recalled, cleared, and
//! added to or subtracted from.

use vstd::prelude::*;
use crate::number::Number;
use crate::numeric::{Request, RequestView};
use crate::state::types::Operation;

verus! {

/// The calculator's memory: a single number, zero at first.
#[derive(Debug, Clone, Copy, PartialEq, Eq, Structural)]
pub struct MemoryRegister {
    pub value: Number,
}

impl MemoryRegister {
    /// The register after `value` was stored in it.
    pub open spec fn stored(self, value: Number) -> Self {
        MemoryRegister { value }
    }

    /// The register after it was cleared: it holds positive zero.
    pub open spec fn cleared(self) -> Self {
        MemoryRegister { value: Number { bits: 0 } }
    }

    /// A register that holds positive zero.
    pub fn new() -> (register: Self)
        ensures
            register.value.bits == 0,
    {
        MemoryRegister { value: Number::positive_zero() }
    }
}

impl Default for MemoryRegister {
    fn default() -> (register: Self)
        ensures
            register.value.bits == 0,
    {
        Self::new()
    }
}

/// Stores `value` in the register, over what it held.
pub fn memory_store(register: &mut MemoryRegister, value: Number)
    ensures
        *final(register) == old(register).stored(value),
{
    register.value = value;
}

/// The number that the register holds; the register keeps it.
pub fn memory_recall(register: &MemoryRegister) -> (value: Number)
    ensures
        value == register.value,
{
    register.value
}

/// Sets the register to positive zero.
pub fn memory_clear(register: &mut MemoryRegister)
    ensures
        *final(register) == old(register).cleared(),
{
    register.value = Number::positive_zero();
}

/// The sum of what the register holds and `value`, in that order. The answer
/// of the numeric unit is what `memory_store` then puts into the register.
pub fn memory_add(register: &MemoryRegister, value: Number) -> (request: Request)
    ensures
        request@ == (RequestView::Apply {
            operation: Operation::Add,
            first: register.value,
            second: value,
        }),
{
    crate::calculator::operations::add(register.value, value)
}

/// The difference of what the register holds and `value`, in that order. The
/// answer of the numeric unit is what `memory_store` then puts into the
/// register.
pub fn memory_subtract(register: &MemoryRegister, value: Number) -> (request: Request)
    ensures
        request@ == (RequestView::Apply {
            operation: Operation::Subtract,
            first: register.value,
            second: value,
        }),
{
    crate::calculator::operations::subtract(register.value, value)
}

/// What was stored is what is recalled, whatever the register held before:
/// not-a-number and either zero included, bit for bit.
pub proof fn store_then_recall(register: MemoryRegister, value: Number)
    ensures
        register.stored(value).value == value,
{
}

/// A cleared register holds positive zero, whatever it held before.
pub proof fn clear_then_recall(register: MemoryRegister)
    ensures
        register.cleared().value.bits == 0,
        register.cleared().value.zero(),
{
}

} // verus!
