use vstd::prelude::*;

use crate::syntax::SyntaxKind;
use crate::value::ObjectKind;

verus! {

/// What a resolved binary operator does at evaluation time.
#[derive(Clone, Copy, Debug, PartialEq, Eq, Structural)]
pub enum BoundBinaryOperatorKind {
    Addition,
    Subtraction,
    Multiplication,
    Division,
    LogicalAnd,
    LogicalOr,
    Equality,
    Inequality,
}

/// What a resolved unary operator does at evaluation time.
#[derive(Clone, Copy, Debug, PartialEq, Eq, Structural)]
pub enum BoundUnaryOperatorKind {
    Identity,
    Negation,
    LogicalNegation,
}

/// A row of the fixed binary operator table: the operator token it answers
/// to, the operation it performs, the exact operand types it accepts and
/// the type of its result.
#[derive(Clone, Copy, Debug, PartialEq, Eq, Structural)]
pub struct BoundBinaryOperator {
    pub syntax_kind: SyntaxKind,
    pub kind: BoundBinaryOperatorKind,
    pub left_type: ObjectKind,
    pub right_type: ObjectKind,
    pub result_type: ObjectKind,
}

/// A row of the fixed unary operator table.
#[derive(Clone, Copy, Debug, PartialEq, Eq, Structural)]
pub struct BoundUnaryOperator {
    pub syntax_kind: SyntaxKind,
    pub kind: BoundUnaryOperatorKind,
    pub operand_type: ObjectKind,
    pub result_type: ObjectKind,
}

impl BoundBinaryOperator {
    /// The whole binary operator table: arithmetic on numbers, logic on
    /// booleans, equality and inequality on any matching pair of types.
    /// Operand types must match a row exactly; there is no coercion.
    pub open spec fn bind_spec(
        syntax_kind: SyntaxKind,
        left_type: ObjectKind,
        right_type: ObjectKind,
    ) -> Option<BoundBinaryOperator> {
        match (left_type, right_type) {
            (ObjectKind::Number, ObjectKind::Number) => match syntax_kind {
                SyntaxKind::PlusToken => Some(
                    BoundBinaryOperator {
                        syntax_kind,
                        kind: BoundBinaryOperatorKind::Addition,
                        left_type,
                        right_type,
                        result_type: ObjectKind::Number,
                    },
                ),
                SyntaxKind::MinusToken => Some(
                    BoundBinaryOperator {
                        syntax_kind,
                        kind: BoundBinaryOperatorKind::Subtraction,
                        left_type,
                        right_type,
                        result_type: ObjectKind::Number,
                    },
                ),
                SyntaxKind::StarToken => Some(
                    BoundBinaryOperator {
                        syntax_kind,
                        kind: BoundBinaryOperatorKind::Multiplication,
                        left_type,
                        right_type,
                        result_type: ObjectKind::Number,
                    },
                ),
                SyntaxKind::SlashToken => Some(
                    BoundBinaryOperator {
                        syntax_kind,
                        kind: BoundBinaryOperatorKind::Division,
                        left_type,
                        right_type,
                        result_type: ObjectKind::Number,
                    },
                ),
                SyntaxKind::EqualsEqualsToken => Some(
                    BoundBinaryOperator {
                        syntax_kind,
                        kind: BoundBinaryOperatorKind::Equality,
                        left_type,
                        right_type,
                        result_type: ObjectKind::Boolean,
                    },
                ),
                SyntaxKind::BangEqualsToken => Some(
                    BoundBinaryOperator {
                        syntax_kind,
                        kind: BoundBinaryOperatorKind::Inequality,
                        left_type,
                        right_type,
                        result_type: ObjectKind::Boolean,
                    },
                ),
                _ => None,
            },
            (ObjectKind::Boolean, ObjectKind::Boolean) => match syntax_kind {
                SyntaxKind::AmpersandAmpersandToken => Some(
                    BoundBinaryOperator {
                        syntax_kind,
                        kind: BoundBinaryOperatorKind::LogicalAnd,
                        left_type,
                        right_type,
                        result_type: ObjectKind::Boolean,
                    },
                ),
                SyntaxKind::PipePipeToken => Some(
                    BoundBinaryOperator {
                        syntax_kind,
                        kind: BoundBinaryOperatorKind::LogicalOr,
                        left_type,
                        right_type,
                        result_type: ObjectKind::Boolean,
                    },
                ),
                SyntaxKind::EqualsEqualsToken => Some(
                    BoundBinaryOperator {
                        syntax_kind,
                        kind: BoundBinaryOperatorKind::Equality,
                        left_type,
                        right_type,
                        result_type: ObjectKind::Boolean,
                    },
                ),
                SyntaxKind::BangEqualsToken => Some(
                    BoundBinaryOperator {
                        syntax_kind,
                        kind: BoundBinaryOperatorKind::Inequality,
                        left_type,
                        right_type,
                        result_type: ObjectKind::Boolean,
                    },
                ),
                _ => None,
            },
            _ => None,
        }
    }

    /// Looks the operator up in the fixed table; `None` when no row matches.
    pub fn bind(
        syntax_kind: SyntaxKind,
        left_type: ObjectKind,
        right_type: ObjectKind,
    ) -> (r: Option<BoundBinaryOperator>)
        ensures
            r == Self::bind_spec(syntax_kind, left_type, right_type),
    {
        match (left_type, right_type) {
            (ObjectKind::Number, ObjectKind::Number) => match syntax_kind {
                SyntaxKind::PlusToken => Some(
                    BoundBinaryOperator {
                        syntax_kind,
                        kind: BoundBinaryOperatorKind::Addition,
                        left_type,
                        right_type,
                        result_type: ObjectKind::Number,
                    },
                ),
                SyntaxKind::MinusToken => Some(
                    BoundBinaryOperator {
                        syntax_kind,
                        kind: BoundBinaryOperatorKind::Subtraction,
                        left_type,
                        right_type,
                        result_type: ObjectKind::Number,
                    },
                ),
                SyntaxKind::StarToken => Some(
                    BoundBinaryOperator {
                        syntax_kind,
                        kind: BoundBinaryOperatorKind::Multiplication,
                        left_type,
                        right_type,
                        result_type: ObjectKind::Number,
                    },
                ),
                SyntaxKind::SlashToken => Some(
                    BoundBinaryOperator {
                        syntax_kind,
                        kind: BoundBinaryOperatorKind::Division,
                        left_type,
                        right_type,
                        result_type: ObjectKind::Number,
                    },
                ),
                SyntaxKind::EqualsEqualsToken => Some(
                    BoundBinaryOperator {
                        syntax_kind,
                        kind: BoundBinaryOperatorKind::Equality,
                        left_type,
                        right_type,
                        result_type: ObjectKind::Boolean,
                    },
                ),
                SyntaxKind::BangEqualsToken => Some(
                    BoundBinaryOperator {
                        syntax_kind,
                        kind: BoundBinaryOperatorKind::Inequality,
                        left_type,
                        right_type,
                        result_type: ObjectKind::Boolean,
                    },
                ),
                _ => None,
            },
            (ObjectKind::Boolean, ObjectKind::Boolean) => match syntax_kind {
                SyntaxKind::AmpersandAmpersandToken => Some(
                    BoundBinaryOperator {
                        syntax_kind,
                        kind: BoundBinaryOperatorKind::LogicalAnd,
                        left_type,
                        right_type,
                        result_type: ObjectKind::Boolean,
                    },
                ),
                SyntaxKind::PipePipeToken => Some(
                    BoundBinaryOperator {
                        syntax_kind,
                        kind: BoundBinaryOperatorKind::LogicalOr,
                        left_type,
                        right_type,
                        result_type: ObjectKind::Boolean,
                    },
                ),
                SyntaxKind::EqualsEqualsToken => Some(
                    BoundBinaryOperator {
                        syntax_kind,
                        kind: BoundBinaryOperatorKind::Equality,
                        left_type,
                        right_type,
                        result_type: ObjectKind::Boolean,
                    },
                ),
                SyntaxKind::BangEqualsToken => Some(
                    BoundBinaryOperator {
                        syntax_kind,
                        kind: BoundBinaryOperatorKind::Inequality,
                        left_type,
                        right_type,
                        result_type: ObjectKind::Boolean,
                    },
                ),
                _ => None,
            },
            _ => None,
        }
    }
}

impl BoundUnaryOperator {
    /// The whole unary operator table: identity and negation on numbers,
    /// logical negation on booleans.
    pub open spec fn bind_spec(
        syntax_kind: SyntaxKind,
        operand_type: ObjectKind,
    ) -> Option<BoundUnaryOperator> {
        match operand_type {
            ObjectKind::Number => match syntax_kind {
                SyntaxKind::PlusToken => Some(
                    BoundUnaryOperator {
                        syntax_kind,
                        kind: BoundUnaryOperatorKind::Identity,
                        operand_type,
                        result_type: ObjectKind::Number,
                    },
                ),
                SyntaxKind::MinusToken => Some(
                    BoundUnaryOperator {
                        syntax_kind,
                        kind: BoundUnaryOperatorKind::Negation,
                        operand_type,
                        result_type: ObjectKind::Number,
                    },
                ),
                _ => None,
            },
            ObjectKind::Boolean => match syntax_kind {
                SyntaxKind::BangToken => Some(
                    BoundUnaryOperator {
                        syntax_kind,
                        kind: BoundUnaryOperatorKind::LogicalNegation,
                        operand_type,
                        result_type: ObjectKind::Boolean,
                    },
                ),
                _ => None,
            },
        }
    }

    /// Looks the operator up in the fixed table; `None` when no row matches.
    pub fn bind(syntax_kind: SyntaxKind, operand_type: ObjectKind) -> (r: Option<
        BoundUnaryOperator,
    >)
        ensures
            r == Self::bind_spec(syntax_kind, operand_type),
    {
        match operand_type {
            ObjectKind::Number => match syntax_kind {
                SyntaxKind::PlusToken => Some(
                    BoundUnaryOperator {
                        syntax_kind,
                        kind: BoundUnaryOperatorKind::Identity,
                        operand_type,
                        result_type: ObjectKind::Number,
                    },
                ),
                SyntaxKind::MinusToken => Some(
                    BoundUnaryOperator {
                        syntax_kind,
                        kind: BoundUnaryOperatorKind::Negation,
                        operand_type,
                        result_type: ObjectKind::Number,
                    },
                ),
                _ => None,
            },
            ObjectKind::Boolean => match syntax_kind {
                SyntaxKind::BangToken => Some(
                    BoundUnaryOperator {
                        syntax_kind,
                        kind: BoundUnaryOperatorKind::LogicalNegation,
                        operand_type,
                        result_type: ObjectKind::Boolean,
                    },
                ),
                _ => None,
            },
        }
    }
}

} // verus!
