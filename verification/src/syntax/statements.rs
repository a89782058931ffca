use vstd::prelude::*;

use crate::syntax::expressions::ExpressionSyntax;
use crate::syntax::SyntaxKind;
use crate::syntax::SyntaxNodeRef;
use crate::syntax::SyntaxNodeValue;
use crate::syntax::SyntaxToken;

verus! {

/// A statement of the untyped syntax tree.
#[derive(Debug)]
pub enum StatementSyntax {
    Block(BlockStatementSyntax),
    Expression(ExpressionStatementSyntax),
    VariableDeclaration(VariableDeclarationStatementSyntax),
}

#[derive(Debug)]
pub struct BlockStatementSyntax {
    pub open_brace_token: SyntaxToken,
    pub statements: Vec<StatementSyntax>,
    pub close_brace_token: SyntaxToken,
}

#[derive(Debug)]
pub struct ExpressionStatementSyntax {
    pub expression: ExpressionSyntax,
}

#[derive(Debug)]
pub struct VariableDeclarationStatementSyntax {
    pub keyword: SyntaxToken,
    pub identifier: SyntaxToken,
    pub equals_token: SyntaxToken,
    pub initializer: ExpressionSyntax,
}

/// A borrowed view of a statement node.
#[derive(Clone, Copy)]
pub enum StatementSyntaxRef<'a> {
    Block(&'a BlockStatementSyntax),
    Expression(&'a ExpressionStatementSyntax),
    VariableDeclaration(&'a VariableDeclarationStatementSyntax),
}

impl BlockStatementSyntax {
    /// Every statement of the block meets the parser's guarantees.
    pub open spec fn wf(&self) -> bool
        decreases self, 0int,
    {
        forall|i: int| #![trigger self.statements@[i]]
            0 <= i < self.statements@.len() ==> self.statements@[i].wf()
    }
}

impl StatementSyntax {
    /// The structural guarantees the external parser gives, extended
    /// through every expression the statement contains.
    pub open spec fn wf(&self) -> bool
        decreases self, 1int,
    {
        match self {
            StatementSyntax::Block(b) => b.wf(),
            StatementSyntax::Expression(s) => s.expression.wf(),
            StatementSyntax::VariableDeclaration(s) => s.identifier.wf() && s.initializer.wf(),
        }
    }

    pub fn create_ref(&self) -> (r: StatementSyntaxRef)
        ensures
            r.deref_spec() == *self,
    {
        match self {
            StatementSyntax::Block(s) => StatementSyntaxRef::Block(s),
            StatementSyntax::Expression(s) => StatementSyntaxRef::Expression(s),
            StatementSyntax::VariableDeclaration(s) => StatementSyntaxRef::VariableDeclaration(s),
        }
    }
}

/// The children of a statement node, oldest first, as owned values.
pub open spec fn statement_children(s: StatementSyntax) -> Seq<SyntaxNodeValue> {
    match s {
        StatementSyntax::Block(b) => seq![SyntaxNodeValue::Token(b.open_brace_token)]
            + b.statements@.map_values(|st: StatementSyntax| SyntaxNodeValue::Statement(st))
            + seq![SyntaxNodeValue::Token(b.close_brace_token)],
        StatementSyntax::Expression(s) => seq![SyntaxNodeValue::Expression(s.expression)],
        StatementSyntax::VariableDeclaration(s) => seq![
            SyntaxNodeValue::Token(s.keyword),
            SyntaxNodeValue::Token(s.identifier),
            SyntaxNodeValue::Token(s.equals_token),
            SyntaxNodeValue::Expression(s.initializer),
        ],
    }
}

impl<'a> StatementSyntaxRef<'a> {
    /// The pointed-at statement as a value.
    pub open spec fn deref_spec(self) -> StatementSyntax {
        match self {
            StatementSyntaxRef::Block(s) => StatementSyntax::Block(*s),
            StatementSyntaxRef::Expression(s) => StatementSyntax::Expression(*s),
            StatementSyntaxRef::VariableDeclaration(s) => StatementSyntax::VariableDeclaration(*s),
        }
    }

    /// The syntax kind of the pointed-at statement.
    pub open spec fn kind_spec(self) -> SyntaxKind {
        match self {
            StatementSyntaxRef::Block(_) => SyntaxKind::BlockStatement,
            StatementSyntaxRef::Expression(_) => SyntaxKind::ExpressionStatement,
            StatementSyntaxRef::VariableDeclaration(_) => SyntaxKind::VariableDeclarationStatement,
        }
    }

    pub fn kind(&self) -> (r: SyntaxKind)
        ensures
            r == self.kind_spec(),
    {
        match self {
            StatementSyntaxRef::Block(_) => SyntaxKind::BlockStatement,
            StatementSyntaxRef::Expression(_) => SyntaxKind::ExpressionStatement,
            StatementSyntaxRef::VariableDeclaration(_) => SyntaxKind::VariableDeclarationStatement,
        }
    }

    /// The node's children, in source order.
    pub fn children(self) -> (r: Vec<SyntaxNodeRef<'a>>)
        ensures
            r@.map_values(|c: SyntaxNodeRef<'a>| c.value()) == statement_children(
                self.deref_spec(),
            ),
    {
        match self {
            StatementSyntaxRef::Block(s) => {
                let mut result: Vec<SyntaxNodeRef<'a>> = Vec::new();
                result.push(SyntaxNodeRef::Token(&s.open_brace_token));
                let mut i: usize = 0;
                while i < s.statements.len()
                    invariant
                        0 <= i <= s.statements@.len(),
                        result@.len() == i + 1,
                        result@[0] == SyntaxNodeRef::Token(&s.open_brace_token),
                        forall|j: int|
                            1 <= j < result@.len() ==> #[trigger] result@[j].value()
                                == SyntaxNodeValue::Statement(s.statements@[j - 1]),
                    decreases s.statements@.len() - i,
                {
                    result.push(SyntaxNodeRef::Statement(s.statements[i].create_ref()));
                    i += 1;
                }
                result.push(SyntaxNodeRef::Token(&s.close_brace_token));
                proof {
                    assert(result@.map_values(|c: SyntaxNodeRef<'a>| c.value()) =~= statement_children(
                        self.deref_spec(),
                    ));
                }
                result
            },
            StatementSyntaxRef::Expression(s) => {
                let mut result: Vec<SyntaxNodeRef<'a>> = Vec::new();
                result.push(SyntaxNodeRef::Expression(s.expression.create_ref()));
                proof {
                    assert(result@.map_values(|c: SyntaxNodeRef<'a>| c.value()) =~= statement_children(
                        self.deref_spec(),
                    ));
                }
                result
            },
            StatementSyntaxRef::VariableDeclaration(s) => {
                let mut result: Vec<SyntaxNodeRef<'a>> = Vec::new();
                result.push(SyntaxNodeRef::Token(&s.keyword));
                result.push(SyntaxNodeRef::Token(&s.identifier));
                result.push(SyntaxNodeRef::Token(&s.equals_token));
                result.push(SyntaxNodeRef::Expression(s.initializer.create_ref()));
                proof {
                    assert(result@.map_values(|c: SyntaxNodeRef<'a>| c.value()) =~= statement_children(
                        self.deref_spec(),
                    ));
                }
                result
            },
        }
    }
}

} // verus!
