use vstd::prelude::*;

use crate::syntax::SyntaxToken;
use crate::text::TextSpan;
use crate::value::Object;

verus! {

/// An expression of the untyped syntax tree.
#[derive(Debug)]
pub enum ExpressionSyntax {
    Binary(BinaryExpressionSyntax),
    Unary(UnaryExpressionSyntax),
    Literal(LiteralExpressionSyntax),
    Parenthesized(ParenthesizedExpressionSyntax),
    Name(NameExpressionSyntax),
    Assignment(AssignmentExpressionSyntax),
}

#[derive(Debug)]
pub struct BinaryExpressionSyntax {
    pub left: Box<ExpressionSyntax>,
    pub operator_token: SyntaxToken,
    pub right: Box<ExpressionSyntax>,
}

#[derive(Debug)]
pub struct UnaryExpressionSyntax {
    pub operator_token: SyntaxToken,
    pub operand: Box<ExpressionSyntax>,
}

#[derive(Debug)]
pub struct LiteralExpressionSyntax {
    pub literal_token: SyntaxToken,
    pub value: Object,
}

#[derive(Debug)]
pub struct ParenthesizedExpressionSyntax {
    pub open_parenthesis_token: SyntaxToken,
    pub expression: Box<ExpressionSyntax>,
    pub close_parenthesis_token: SyntaxToken,
}

#[derive(Debug)]
pub struct NameExpressionSyntax {
    pub identifier_token: SyntaxToken,
}

#[derive(Debug)]
pub struct AssignmentExpressionSyntax {
    pub identifier_token: SyntaxToken,
    pub equals_token: SyntaxToken,
    pub expression: Box<ExpressionSyntax>,
}

/// A borrowed view of an expression node.
#[derive(Clone, Copy)]
pub enum ExpressionSyntaxRef<'a> {
    Binary(&'a BinaryExpressionSyntax),
    Unary(&'a UnaryExpressionSyntax),
    Literal(&'a LiteralExpressionSyntax),
    Parenthesized(&'a ParenthesizedExpressionSyntax),
    Name(&'a NameExpressionSyntax),
    Assignment(&'a AssignmentExpressionSyntax),
}

impl<'a> ExpressionSyntaxRef<'a> {
    /// The pointed-at expression as a value.
    pub open spec fn deref_spec(self) -> ExpressionSyntax {
        match self {
            ExpressionSyntaxRef::Binary(e) => ExpressionSyntax::Binary(*e),
            ExpressionSyntaxRef::Unary(e) => ExpressionSyntax::Unary(*e),
            ExpressionSyntaxRef::Literal(e) => ExpressionSyntax::Literal(*e),
            ExpressionSyntaxRef::Parenthesized(e) => ExpressionSyntax::Parenthesized(*e),
            ExpressionSyntaxRef::Name(e) => ExpressionSyntax::Name(*e),
            ExpressionSyntaxRef::Assignment(e) => ExpressionSyntax::Assignment(*e),
        }
    }
}

impl ExpressionSyntax {
    pub fn create_ref(&self) -> (r: ExpressionSyntaxRef)
        ensures
            r.deref_spec() == *self,
    {
        match self {
            ExpressionSyntax::Binary(e) => ExpressionSyntaxRef::Binary(e),
            ExpressionSyntax::Unary(e) => ExpressionSyntaxRef::Unary(e),
            ExpressionSyntax::Literal(e) => ExpressionSyntaxRef::Literal(e),
            ExpressionSyntax::Parenthesized(e) => ExpressionSyntaxRef::Parenthesized(e),
            ExpressionSyntax::Name(e) => ExpressionSyntaxRef::Name(e),
            ExpressionSyntax::Assignment(e) => ExpressionSyntaxRef::Assignment(e),
        }
    }

    /// Where the expression's source text starts.
    pub open spec fn start_spec(&self) -> int
        decreases self,
    {
        match self {
            ExpressionSyntax::Binary(e) => e.left.start_spec(),
            ExpressionSyntax::Unary(e) => e.operator_token.position as int,
            ExpressionSyntax::Literal(e) => e.literal_token.position as int,
            ExpressionSyntax::Parenthesized(e) => e.open_parenthesis_token.position as int,
            ExpressionSyntax::Name(e) => e.identifier_token.position as int,
            ExpressionSyntax::Assignment(e) => e.identifier_token.position as int,
        }
    }

    /// One past the last byte of the expression's source text.
    pub open spec fn end_spec(&self) -> int
        decreases self,
    {
        match self {
            ExpressionSyntax::Binary(e) => e.right.end_spec(),
            ExpressionSyntax::Unary(e) => e.operand.end_spec(),
            ExpressionSyntax::Literal(e) => e.literal_token.span_spec().end_spec(),
            ExpressionSyntax::Parenthesized(e) => e.close_parenthesis_token.span_spec().end_spec(),
            ExpressionSyntax::Name(e) => e.identifier_token.span_spec().end_spec(),
            ExpressionSyntax::Assignment(e) => e.expression.end_spec(),
        }
    }

    /// The structural guarantees the external parser gives: tokens lie in
    /// addressable text and every node starts no later than it ends.
    pub open spec fn wf(&self) -> bool
        decreases self,
    {
        match self {
            ExpressionSyntax::Binary(e) => e.left.wf() && e.operator_token.wf() && e.right.wf()
                && e.left.start_spec() <= e.right.end_spec(),
            ExpressionSyntax::Unary(e) => e.operator_token.wf() && e.operand.wf()
                && e.operator_token.position <= e.operand.end_spec(),
            ExpressionSyntax::Literal(e) => e.literal_token.wf(),
            ExpressionSyntax::Parenthesized(e) => e.open_parenthesis_token.wf() && e.expression.wf()
                && e.close_parenthesis_token.wf()
                && e.open_parenthesis_token.position
                    <= e.close_parenthesis_token.span_spec().end_spec(),
            ExpressionSyntax::Name(e) => e.identifier_token.wf(),
            ExpressionSyntax::Assignment(e) => e.identifier_token.wf() && e.equals_token.wf()
                && e.expression.wf() && e.identifier_token.position <= e.expression.end_spec(),
        }
    }

    /// The region of source text the expression covers.
    pub open spec fn span_spec(&self) -> TextSpan {
        TextSpan {
            start: self.start_spec() as usize,
            length: (self.end_spec() - self.start_spec()) as usize,
        }
    }

    pub proof fn lemma_wf_bounds(&self)
        requires
            self.wf(),
        ensures
            0 <= self.start_spec() <= self.end_spec() <= usize::MAX,
        decreases self,
    {
        match self {
            ExpressionSyntax::Binary(e) => {
                e.left.lemma_wf_bounds();
                e.right.lemma_wf_bounds();
            },
            ExpressionSyntax::Unary(e) => {
                e.operand.lemma_wf_bounds();
            },
            ExpressionSyntax::Assignment(e) => {
                e.expression.lemma_wf_bounds();
            },
            _ => {},
        }
    }

    pub fn span(&self) -> (r: TextSpan)
        requires
            self.wf(),
        ensures
            r == self.span_spec(),
        decreases *self,
    {
        proof {
            self.lemma_wf_bounds();
        }
        match self {
            ExpressionSyntax::Binary(e) => {
                let left = e.left.span();
                let right = e.right.span();
                proof {
                    e.right.lemma_wf_bounds();
                }
                TextSpan::from_bounds(left.start, right.end())
            },
            ExpressionSyntax::Unary(e) => {
                let operand = e.operand.span();
                proof {
                    e.operand.lemma_wf_bounds();
                }
                TextSpan::from_bounds(e.operator_token.position, operand.end())
            },
            ExpressionSyntax::Literal(e) => e.literal_token.span(),
            ExpressionSyntax::Parenthesized(e) => {
                let close = e.close_parenthesis_token.span();
                TextSpan::from_bounds(e.open_parenthesis_token.position, close.end())
            },
            ExpressionSyntax::Name(e) => e.identifier_token.span(),
            ExpressionSyntax::Assignment(e) => {
                let inner = e.expression.span();
                proof {
                    e.expression.lemma_wf_bounds();
                }
                TextSpan::from_bounds(e.identifier_token.position, inner.end())
            },
        }
    }
}

} // verus!
