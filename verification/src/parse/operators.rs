use vstd::prelude::*;

verus! {

/// The operators that compute a value from two operands.
#[derive(Clone, Copy, Debug, PartialEq, Eq, Structural)]
pub enum EvaluationOperator {
    Plus,
    Minus,
    Slash,
    Star,
    Div,
    Modulo,
    And,
    Or,
    Xor,
    BitShiftLeft,
    BitShiftRight,
}

/// The operators that compare two operands.
#[derive(Clone, Copy, Debug, PartialEq, Eq, Structural)]
pub enum EqualityOperator {
    Equal,
    NotEqual,
    GreaterThan,
    GreaterThanOrEqual,
    LessThan,
    LessThanOrEqual,
}

/// The operators that join two conditions.
#[derive(Clone, Copy, Debug, PartialEq, Eq, Structural)]
pub enum LogicalOperator {
    And,
    Or,
    Xor,
}

/// The operators of an assignment.
#[derive(Clone, Copy, Debug, PartialEq, Eq, Structural)]
pub enum AssignmentOperator {
    Equal,
    PlusEqual,
    MinusEqual,
    StarEqual,
    SlashEqual,
    XorEqual,
    OrEqual,
    AndEqual,
    NullCoalecenceEqual,
    ModEqual,
}

/// The operators that stand before their operand.
#[derive(Clone, Copy, Debug, PartialEq, Eq, Structural)]
pub enum UnaryOperator {
    Increment,
    Decrement,
    Not,
    Positive,
    Negative,
    BitwiseNot,
}

/// The operators that stand after their operand.
#[derive(Clone, Copy, Debug, PartialEq, Eq, Structural)]
pub enum PostfixOperator {
    Increment,
    Decrement,
}

impl UnaryOperator {
    /// Whether the operator works on a condition rather than on a number.
    pub fn is_logical(&self) -> (yes: bool)
        ensures
            yes == (*self == UnaryOperator::Not),
    {
        match self {
            UnaryOperator::Not => true,
            _ => false,
        }
    }
}

} // verus!
