use vstd::prelude::*;

verus! {

/// The recoverable failures of the evaluator.
#[derive(Debug, Clone)]
pub enum CalcError {
    /// A division whose divisor is exactly zero.
    DivisionByZero,
    /// Reserved for numeric overflow; no operation raises it at present.
    Overflow,
    /// A named misuse, described by a free-text message.
    InvalidOperation(String),
}

/// The human-readable rendering of an error.
pub open spec fn message_of(e: CalcError) -> Seq<char> {
    match e {
        CalcError::DivisionByZero => "Division by zero"@,
        CalcError::Overflow => "Numeric overflow"@,
        CalcError::InvalidOperation(msg) => "Invalid operation: "@ + msg@,
    }
}

/// Errors are equal when their variants agree and, for `InvalidOperation`,
/// their messages hold the same characters.
pub open spec fn same_error(a: CalcError, b: CalcError) -> bool {
    match (a, b) {
        (CalcError::DivisionByZero, CalcError::DivisionByZero) => true,
        (CalcError::Overflow, CalcError::Overflow) => true,
        (CalcError::InvalidOperation(x), CalcError::InvalidOperation(y)) => x@ == y@,
        _ => false,
    }
}

impl CalcError {
    /// Renders the error as text: "Division by zero", "Numeric overflow", or
    /// "Invalid operation: " followed by the message.
    pub fn message(&self) -> (r: String)
        ensures
            r@ == message_of(*self),
    {
        match self {
            CalcError::DivisionByZero => String::from_str("Division by zero"),
            CalcError::Overflow => String::from_str("Numeric overflow"),
            CalcError::InvalidOperation(msg) => {
                let mut r = String::from_str("Invalid operation: ");
                r.append(msg.as_str());
                r
            },
        }
    }
}

impl PartialEq for CalcError {
    fn eq(&self, other: &CalcError) -> (r: bool) {
        match (self, other) {
            (CalcError::DivisionByZero, CalcError::DivisionByZero) => true,
            (CalcError::Overflow, CalcError::Overflow) => true,
            (CalcError::InvalidOperation(x), CalcError::InvalidOperation(y)) => x.eq(y),
            _ => false,
        }
    }
}

impl vstd::std_specs::cmp::PartialEqSpecImpl for CalcError {
    open spec fn obeys_eq_spec() -> bool {
        true
    }

    open spec fn eq_spec(&self, other: &CalcError) -> bool {
        same_error(*self, *other)
    }
}

} // verus!
