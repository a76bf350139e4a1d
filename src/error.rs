use vstd::prelude::*;

verus! {

/// The kinds of failure that evaluation can report.
#[derive(PartialEq, Eq, Structural, Debug, Clone, Copy)]
pub enum ErrorType {
    /// An operand is of the wrong kind for its operator.
    TypeError,
    /// A variable or an assignment target has no binding.
    UndefinedName,
    /// The target of a call is not a function.
    NotCallable,
    /// A call passes another number of arguments than the function takes.
    ArityMismatch,
    /// A node holds a token of a kind that cannot stand in its place.
    MalformedTree,
    /// A division whose divisor is zero.
    DivisionByZero,
    /// A numeric result whose numerator or denominator does not fit in 64 bits.
    NumericOverflow,
    /// Calls nested deeper than the evaluator allows.
    CallDepthExceeded,
}

/// A failure of evaluation, with the source position of the token that caused
/// it (line and column `0` where the node has no token).
#[derive(PartialEq, Eq, Structural, Debug, Clone, Copy)]
pub struct RuntimeError {
    pub kind: ErrorType,
    pub line: usize,
    pub col: usize,
}

} // verus!
