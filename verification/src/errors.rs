//! The flat error kind shared by the checker and the evaluator.
use vstd::prelude::*;

verus! {

/// Every way a check or an evaluation can fail.  Check-time failures
/// (type mismatches, a statement after a definite return, an indefinite
/// function return) and run-time failures (bad operands, division by
/// zero, a negative exponent, a failed conversion, calling a value that
/// is not a function, a wrong argument count, an exhausted input queue)
/// share one flat kind; there is no structured hierarchy.
#[derive(Clone, Copy, Debug, PartialEq, Eq, Structural)]
pub enum ErrKind {
    ExpectedInt,
    ExpectedBool,
    ExpectedStr,
    ExpectedIntOrBool,
    ExpectedFunction,
    UndefinedVariable,
    DivideByZero,
    ModByZero,
    NegativePower,
    IntParseFailure,
    ArityMismatch,
    InputExhausted,
    IntOverflow,
    OutOfFuel,
    AlreadyReturned,
    MismatchedTypes,
    IndefiniteReturn,
}

impl ErrKind {
    /// A human-readable diagnostic for this kind.
    pub fn message(&self) -> (r: &'static str)
        ensures
            r@ == self.spec_message(),
    {
        match self {
            ErrKind::ExpectedInt => "type error: expected int",
            ErrKind::ExpectedBool => "type error: expected bool",
            ErrKind::ExpectedStr => "type error: expected str",
            ErrKind::ExpectedIntOrBool => "type error: expected int or bool",
            ErrKind::ExpectedFunction => "type error: expected function",
            ErrKind::UndefinedVariable => "undefined variable",
            ErrKind::DivideByZero => "cannot divide by zero",
            ErrKind::ModByZero => "cannot mod by zero",
            ErrKind::NegativePower => "negative powers are not supported since there are no floats",
            ErrKind::IntParseFailure => "couldn't convert to int",
            ErrKind::ArityMismatch => "unexpected number of arguments",
            ErrKind::InputExhausted => "could not read input",
            ErrKind::IntOverflow => "integer overflow",
            ErrKind::OutOfFuel => "evaluation budget exhausted",
            ErrKind::AlreadyReturned => "unexpected statement; already returned",
            ErrKind::MismatchedTypes => "mismatched types",
            ErrKind::IndefiniteReturn => "function blocks must return a definite value",
        }
    }

    /// The text that [`Self::message`] yields, as a sequence of characters.
    pub open spec fn spec_message(self) -> Seq<char> {
        match self {
            ErrKind::ExpectedInt => "type error: expected int"@,
            ErrKind::ExpectedBool => "type error: expected bool"@,
            ErrKind::ExpectedStr => "type error: expected str"@,
            ErrKind::ExpectedIntOrBool => "type error: expected int or bool"@,
            ErrKind::ExpectedFunction => "type error: expected function"@,
            ErrKind::UndefinedVariable => "undefined variable"@,
            ErrKind::DivideByZero => "cannot divide by zero"@,
            ErrKind::ModByZero => "cannot mod by zero"@,
            ErrKind::NegativePower => "negative powers are not supported since there are no floats"@,
            ErrKind::IntParseFailure => "couldn't convert to int"@,
            ErrKind::ArityMismatch => "unexpected number of arguments"@,
            ErrKind::InputExhausted => "could not read input"@,
            ErrKind::IntOverflow => "integer overflow"@,
            ErrKind::OutOfFuel => "evaluation budget exhausted"@,
            ErrKind::AlreadyReturned => "unexpected statement; already returned"@,
            ErrKind::MismatchedTypes => "mismatched types"@,
            ErrKind::IndefiniteReturn => "function blocks must return a definite value"@,
        }
    }
}

} // verus!
