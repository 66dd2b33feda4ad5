//! The arithmetic primitives and the memory register.

pub mod operations;
pub mod memory;

pub use operations::{add, divide, multiply, subtract};
pub use memory::{
    memory_add,
    memory_clear,
    memory_recall,
    memory_store,
    memory_subtract,
    MemoryRegister,
};
pub use crate::errors::CalcResult;
