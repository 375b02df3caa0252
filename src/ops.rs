//! Operators, doubles by bit pattern, and the combination of two operands.
use vstd::prelude::*;

verus! {

/// The sign bit of an IEEE-754 double.
pub const SIGN_BIT: u64 = 0x8000_0000_0000_0000;

/// A double, held by its IEEE-754 bit pattern.
#[derive(Clone, Copy, Debug, PartialEq, Eq, Structural)]
pub struct Num {
    pub bits: u64,
}

/// Whether a bit pattern is `+0.0` or `-0.0`, the two doubles equal to zero.
pub open spec fn is_zero_bits(bits: u64) -> bool {
    bits == 0 || bits == SIGN_BIT
}

/// Negating a double flips its sign bit and nothing else.
pub open spec fn negated_bits(bits: u64) -> u64 {
    bits ^ SIGN_BIT
}

impl Num {
    /// Positive zero.
    pub fn zero() -> (r: Num)
        ensures
            r.bits == 0,
    {
        Num { bits: 0 }
    }

    /// Whether the value compares equal to zero (either sign).
    pub fn is_zero(&self) -> (r: bool)
        ensures
            r == is_zero_bits(self.bits),
    {
        self.bits == 0 || self.bits == SIGN_BIT
    }

    /// The negation of the value.
    pub fn negate(&self) -> (r: Num)
        ensures
            r.bits == negated_bits(self.bits),
    {
        Num { bits: self.bits ^ SIGN_BIT }
    }
}

/// One of the four binary operators.
#[derive(Clone, Copy, Debug, PartialEq, Eq, Structural)]
pub enum Op {
    Add,
    Subtract,
    Multiply,
    Divide,
}

/// The operator that a symbol stands for, spellings of one operation included.
pub open spec fn op_of_symbol(c: char) -> Option<Op> {
    if c == '+' {
        Some(Op::Add)
    } else if c == '-' {
        Some(Op::Subtract)
    } else if c == '×' || c == 'x' || c == '*' {
        Some(Op::Multiply)
    } else if c == '÷' || c == '/' {
        Some(Op::Divide)
    } else {
        None
    }
}

/// The symbol under which an operator is shown.
pub open spec fn symbol_of(op: Op) -> char {
    match op {
        Op::Add => '+',
        Op::Subtract => '-',
        Op::Multiply => '×',
        Op::Divide => '÷',
    }
}

impl Op {
    /// The operator named by a symbol, or `None` for any other character.
    pub fn from_symbol(c: char) -> (r: Option<Op>)
        ensures
            r == op_of_symbol(c),
    {
        if c == '+' {
            Some(Op::Add)
        } else if c == '-' {
            Some(Op::Subtract)
        } else if c == '×' || c == 'x' || c == '*' {
            Some(Op::Multiply)
        } else if c == '÷' || c == '/' {
            Some(Op::Divide)
        } else {
            None
        }
    }

    /// The symbol shown for the operator.
    pub fn symbol(&self) -> (r: char)
        ensures
            r == symbol_of(*self),
            op_of_symbol(r) == Some(*self),
    {
        match self {
            Op::Add => '+',
            Op::Subtract => '-',
            Op::Multiply => '×',
            Op::Divide => '÷',
        }
    }
}

/// A failed operation.
#[derive(Clone, Copy, Debug, PartialEq, Eq, Structural)]
pub enum CalcError {
    /// The display cannot be read as a number.
    InvalidNumber,
    /// The right operand of a division is zero.
    DivisionByZero,
}

impl CalcError {
    /// The message shown to the user.
    pub fn message(&self) -> (r: &'static str)
        ensures
            *self == CalcError::InvalidNumber ==> r@ == "Invalid number"@,
            *self == CalcError::DivisionByZero ==> r@ == "Cannot divide by zero!"@,
    {
        match self {
            CalcError::InvalidNumber => "Invalid number",
            CalcError::DivisionByZero => "Cannot divide by zero!",
        }
    }
}

/// The outcome of combining two operands, when it is not an error.
#[derive(Clone, Copy, Debug, PartialEq, Eq, Structural)]
pub enum Applied {
    /// The result is known without arithmetic.
    Value(Num),
    /// The result is `lhs op rhs` in IEEE-754 double arithmetic.
    Arith { op: Op, lhs: Num, rhs: Num },
}

/// Combining `lhs` with `rhs` under an optional operator: no operator gives
/// `rhs` itself, a division by zero fails, anything else is one arithmetic step.
pub open spec fn applied(pending: Option<Op>, lhs: Num, rhs: Num) -> Result<Applied, CalcError> {
    match pending {
        None => Ok(Applied::Value(rhs)),
        Some(op) => if op == Op::Divide && is_zero_bits(rhs.bits) {
            Err(CalcError::DivisionByZero)
        } else {
            Ok(Applied::Arith { op, lhs, rhs })
        },
    }
}

/// Combines `lhs` with `rhs` under `pending`.
pub fn apply_op(pending: Option<Op>, lhs: Num, rhs: Num) -> (r: Result<Applied, CalcError>)
    ensures
        r == applied(pending, lhs, rhs),
{
    match pending {
        None => Ok(Applied::Value(rhs)),
        Some(op) => {
            if op == Op::Divide && rhs.is_zero() {
                Err(CalcError::DivisionByZero)
            } else {
                Ok(Applied::Arith { op, lhs, rhs })
            }
        },
    }
}

} // verus!
