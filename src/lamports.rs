//! Errors of lamport arithmetic.
use vstd::prelude::*;

verus! {

#[derive(Debug, Clone, Copy, PartialEq, Eq, Structural)]
pub enum LamportsError {
    /// arithmetic underflowed
    ArithmeticUnderflow,
    /// arithmetic overflowed
    ArithmeticOverflow,
}

impl LamportsError {
    /// The error's message.
    pub fn message(&self) -> (r: &'static str) {
        match self {
            LamportsError::ArithmeticUnderflow => "Arithmetic underflowed",
            LamportsError::ArithmeticOverflow => "Arithmetic overflowed",
        }
    }
}

} // verus!
