use vstd::prelude::*;

use crate::text::TextSpan;

pub mod expressions;
pub mod statements;

use expressions::ExpressionSyntax;
use expressions::ExpressionSyntaxRef;
use statements::StatementSyntax;
use statements::StatementSyntaxRef;

verus! {

/// The classification of a token or a syntax node, as the external
/// parser reports it.
#[derive(Clone, Copy, Debug, PartialEq, Eq, Structural)]
pub enum SyntaxKind {
    PlusToken,
    MinusToken,
    StarToken,
    SlashToken,
    BangToken,
    AmpersandAmpersandToken,
    PipePipeToken,
    EqualsEqualsToken,
    BangEqualsToken,
    EqualsToken,
    IdentifierToken,
    NumberToken,
    OpenParenthesisToken,
    CloseParenthesisToken,
    OpenBraceToken,
    CloseBraceToken,
    TrueKeyword,
    FalseKeyword,
    LetKeyword,
    VarKeyword,
    EndOfFileToken,
    BlockStatement,
    ExpressionStatement,
    VariableDeclarationStatement,
}

/// A token handed over by the external lexer: its kind, the byte position
/// where it starts, and its text.
#[derive(Clone, Debug)]
pub struct SyntaxToken {
    pub kind: SyntaxKind,
    pub position: usize,
    pub text: String,
}

impl SyntaxToken {
    /// How many bytes of source text the token covers.
    pub open spec fn width(&self) -> nat {
        vstd::utf8::encode_utf8(self.text@).len()
    }

    /// The token lies inside addressable source text.
    pub open spec fn wf(&self) -> bool {
        self.position + self.width() <= usize::MAX
    }

    /// The region of source text the token covers.
    pub open spec fn span_spec(&self) -> TextSpan {
        TextSpan { start: self.position, length: self.width() as usize }
    }

    pub fn span(&self) -> (r: TextSpan)
        ensures
            r == self.span_spec(),
    {
        TextSpan { start: self.position, length: self.text.as_str().len() }
    }
}

/// A borrowed view of any node of the syntax tree.
#[derive(Clone, Copy)]
pub enum SyntaxNodeRef<'a> {
    Token(&'a SyntaxToken),
    Expression(ExpressionSyntaxRef<'a>),
    Statement(StatementSyntaxRef<'a>),
}

/// The node a `SyntaxNodeRef` points at, as an owned value; contracts
/// about borrowed nodes are stated over this.
pub enum SyntaxNodeValue {
    Token(SyntaxToken),
    Expression(ExpressionSyntax),
    Statement(StatementSyntax),
}

impl<'a> SyntaxNodeRef<'a> {
    /// The pointed-at node as a value.
    pub open spec fn value(self) -> SyntaxNodeValue {
        match self {
            SyntaxNodeRef::Token(t) => SyntaxNodeValue::Token(*t),
            SyntaxNodeRef::Expression(e) => SyntaxNodeValue::Expression(e.deref_spec()),
            SyntaxNodeRef::Statement(s) => SyntaxNodeValue::Statement(s.deref_spec()),
        }
    }
}

/// One submission of a session, as the external parser hands it over:
/// a single top-level statement.
#[derive(Debug)]
pub struct CompilationUnitSyntax {
    pub statement: StatementSyntax,
    pub end_of_file_token: SyntaxToken,
}

} // verus!
