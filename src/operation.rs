use vstd::prelude::*;

use crate::error::CalcError;

verus! {

/// The text carried by the error that a square root of a negative value gives.
pub open spec fn sqrt_negative_text() -> Seq<char> {
    "Cannot sqrt negative"@
}

/// A selector for one of the binary operations; it carries no operands.
#[derive(Debug, Clone, Copy, PartialEq, Eq, Structural)]
pub enum Operation {
    Add,
    Subtract,
    Multiply,
    Divide,
}

/// Whether `op` fails on a right operand that is, or is not, exactly zero:
/// only a division by zero does.
pub open spec fn operation_fails(op: Operation, right_is_zero: bool) -> bool {
    op == Operation::Divide && right_is_zero
}

impl Operation {
    /// Decides the outcome of applying this operation before any arithmetic is
    /// done. `right_is_zero` tells whether the right operand is exactly zero.
    /// Only `Divide` with a zero right operand fails, with `DivisionByZero`;
    /// every other combination succeeds.
    pub fn check(&self, right_is_zero: bool) -> (r: Result<(), CalcError>)
        ensures
            r is Err <==> operation_fails(*self, right_is_zero),
            r matches Err(e) ==> e == CalcError::DivisionByZero,
    {
        match self {
            Operation::Divide => {
                if right_is_zero {
                    Err(CalcError::DivisionByZero)
                } else {
                    Ok(())
                }
            },
            _ => Ok(()),
        }
    }
}

/// Decides whether a square root may be taken: it fails, with
/// `InvalidOperation("Cannot sqrt negative")`, exactly when the operand is
/// negative.
pub fn check_sqrt(operand_is_negative: bool) -> (r: Result<(), CalcError>)
    ensures
        r is Err <==> operand_is_negative,
        r matches Err(e) ==> (e matches CalcError::InvalidOperation(msg) && msg@
            == sqrt_negative_text()),
{
    if operand_is_negative {
        Err(CalcError::InvalidOperation(String::from_str("Cannot sqrt negative")))
    } else {
        Ok(())
    }
}

} // verus!
