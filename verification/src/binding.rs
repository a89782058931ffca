use vstd::prelude::*;

pub mod operators;
pub mod scope;

use crate::diagnostics::Diagnostic;
use crate::diagnostics::DiagnosticBag;
use crate::diagnostics::DiagnosticKind;
use crate::syntax::expressions::ExpressionSyntax;
use crate::syntax::expressions::AssignmentExpressionSyntax;
use crate::syntax::expressions::BinaryExpressionSyntax;
use crate::syntax::expressions::LiteralExpressionSyntax;
use crate::syntax::expressions::NameExpressionSyntax;
use crate::syntax::expressions::ParenthesizedExpressionSyntax;
use crate::syntax::expressions::UnaryExpressionSyntax;
use crate::syntax::statements::BlockStatementSyntax;
use crate::syntax::statements::ExpressionStatementSyntax;
use crate::syntax::statements::StatementSyntax;
use crate::syntax::statements::VariableDeclarationStatementSyntax;
use crate::syntax::CompilationUnitSyntax;
use crate::syntax::SyntaxKind;
use crate::value::Object;
use crate::value::ObjectKind;
use crate::text::VariableSymbol;

use operators::BoundBinaryOperator;
use operators::BoundUnaryOperator;
use scope::chain_declare;
use scope::chain_lookup;
use scope::chain_wf;
use scope::BoundGlobalScope;
use scope::BoundScope;
use scope::ScopeChain;

verus! {

/// The classification of a bound node.
#[derive(Clone, Copy, Debug, PartialEq, Eq, Structural)]
pub enum BoundNodeKind {
    BinaryExpression,
    UnaryExpression,
    LiteralExpression,
    VariableExpression,
    AssignmentExpression,
    BlockStatement,
    ExpressionStatement,
    VariableDeclarationStatement,
}

/// Any node of the bound tree.
pub enum BoundNode {
    Expression(BoundExpression),
    Statement(BoundStatement),
}

/// A statement of the bound tree.
#[derive(Debug)]
pub enum BoundStatement {
    Block(BoundBlockStatement),
    Expression(BoundExpressionStatement),
    VariableDeclaration(BoundVariableDeclarationStatement),
}

#[derive(Debug)]
pub struct BoundBlockStatement {
    pub statements: Vec<BoundStatement>,
}

#[derive(Debug)]
pub struct BoundExpressionStatement {
    pub expression: BoundExpression,
}

#[derive(Debug)]
pub struct BoundVariableDeclarationStatement {
    pub variable: VariableSymbol,
    pub initializer: BoundExpression,
}

/// An expression of the bound tree: every operator resolved, every name
/// bound to its symbol, every node carrying its type.
#[derive(Debug)]
pub enum BoundExpression {
    Binary(BoundBinaryExpression),
    Unary(BoundUnaryExpression),
    Literal(BoundLiteralExpression),
    Variable(BoundVariableExpression),
    Assignment(BoundAssignmentExpression),
}

#[derive(Debug)]
pub struct BoundBinaryExpression {
    pub left: Box<BoundExpression>,
    pub operator: BoundBinaryOperator,
    pub right: Box<BoundExpression>,
}

#[derive(Debug)]
pub struct BoundUnaryExpression {
    pub operator: BoundUnaryOperator,
    pub operand: Box<BoundExpression>,
}

#[derive(Debug)]
pub struct BoundLiteralExpression {
    pub value: Object,
}

#[derive(Debug)]
pub struct BoundVariableExpression {
    pub variable: VariableSymbol,
}

#[derive(Debug)]
pub struct BoundAssignmentExpression {
    pub variable: VariableSymbol,
    pub expression: Box<BoundExpression>,
}

impl BoundNode {
    pub open spec fn kind_spec(&self) -> BoundNodeKind {
        match self {
            BoundNode::Expression(e) => e.kind_spec(),
            BoundNode::Statement(s) => s.kind_spec(),
        }
    }

    pub fn kind(&self) -> (r: BoundNodeKind)
        ensures
            r == self.kind_spec(),
    {
        match self {
            BoundNode::Expression(e) => e.kind(),
            BoundNode::Statement(s) => s.kind(),
        }
    }
}

impl BoundStatement {
    pub open spec fn kind_spec(&self) -> BoundNodeKind {
        match self {
            BoundStatement::Block(_) => BoundNodeKind::BlockStatement,
            BoundStatement::Expression(_) => BoundNodeKind::ExpressionStatement,
            BoundStatement::VariableDeclaration(_) => BoundNodeKind::VariableDeclarationStatement,
        }
    }

    pub fn kind(&self) -> (r: BoundNodeKind)
        ensures
            r == self.kind_spec(),
    {
        match self {
            BoundStatement::Block(_) => BoundNodeKind::BlockStatement,
            BoundStatement::Expression(_) => BoundNodeKind::ExpressionStatement,
            BoundStatement::VariableDeclaration(_) => BoundNodeKind::VariableDeclarationStatement,
        }
    }
}

impl BoundExpression {
    pub open spec fn kind_spec(&self) -> BoundNodeKind {
        match self {
            BoundExpression::Binary(_) => BoundNodeKind::BinaryExpression,
            BoundExpression::Unary(_) => BoundNodeKind::UnaryExpression,
            BoundExpression::Literal(_) => BoundNodeKind::LiteralExpression,
            BoundExpression::Variable(_) => BoundNodeKind::VariableExpression,
            BoundExpression::Assignment(_) => BoundNodeKind::AssignmentExpression,
        }
    }

    pub fn kind(&self) -> (r: BoundNodeKind)
        ensures
            r == self.kind_spec(),
    {
        match self {
            BoundExpression::Binary(_) => BoundNodeKind::BinaryExpression,
            BoundExpression::Unary(_) => BoundNodeKind::UnaryExpression,
            BoundExpression::Literal(_) => BoundNodeKind::LiteralExpression,
            BoundExpression::Variable(_) => BoundNodeKind::VariableExpression,
            BoundExpression::Assignment(_) => BoundNodeKind::AssignmentExpression,
        }
    }

    /// The type every bound expression carries: a literal's is its value's
    /// own type, a variable's is its symbol's declared type, an
    /// assignment's is its inner expression's type, an operator's is the
    /// resolved row's result type.
    pub open spec fn type_spec(&self) -> ObjectKind
        decreases self,
    {
        match self {
            BoundExpression::Binary(e) => e.operator.result_type,
            BoundExpression::Unary(e) => e.operator.result_type,
            BoundExpression::Literal(e) => e.value.kind_spec(),
            BoundExpression::Variable(e) => e.variable.kind,
            BoundExpression::Assignment(e) => e.expression.type_spec(),
        }
    }

    pub fn get_type(&self) -> (r: ObjectKind)
        ensures
            r == self.type_spec(),
        decreases *self,
    {
        match self {
            BoundExpression::Binary(e) => e.operator.result_type,
            BoundExpression::Unary(e) => e.operator.result_type,
            BoundExpression::Literal(e) => e.value.kind(),
            BoundExpression::Variable(e) => e.variable.kind,
            BoundExpression::Assignment(e) => e.expression.get_type(),
        }
    }
}

/// The mathematical model of a bound statement: as the statement itself,
/// but a block holds its children as a sequence.
pub enum BoundStatementModel {
    Block { statements: Seq<BoundStatementModel> },
    Expression { expression: BoundExpression },
    VariableDeclaration { variable: VariableSymbol, initializer: BoundExpression },
}

/// The model of a bound statement.
pub open spec fn statement_model(s: BoundStatement) -> BoundStatementModel
    decreases s, 1int,
{
    match s {
        BoundStatement::Block(b) => BoundStatementModel::Block {
            statements: statements_model(b.statements@),
        },
        BoundStatement::Expression(e) => BoundStatementModel::Expression {
            expression: e.expression,
        },
        BoundStatement::VariableDeclaration(d) => BoundStatementModel::VariableDeclaration {
            variable: d.variable,
            initializer: d.initializer,
        },
    }
}

/// The models of a sequence of bound statements, in order.
pub open spec fn statements_model(s: Seq<BoundStatement>) -> Seq<BoundStatementModel>
    decreases s, 0int,
{
    if s.len() == 0 {
        Seq::empty()
    } else {
        statements_model(s.drop_last()).push(statement_model(s.last()))
    }
}

/// What binding an expression against a scope chain produces: the bound
/// expression and the diagnostics it adds, in order.  This is the
/// specification the executable binder is proved against.
pub open spec fn bind_expression_spec(chain: ScopeChain, e: ExpressionSyntax) -> (
    BoundExpression,
    Seq<Diagnostic>,
)
    decreases e,
{
    match e {
        ExpressionSyntax::Literal(l) => (
            BoundExpression::Literal(BoundLiteralExpression { value: l.value }),
            Seq::empty(),
        ),
        ExpressionSyntax::Name(n) => match chain_lookup(chain, n.identifier_token.text@) {
            Some(v) => (
                BoundExpression::Variable(BoundVariableExpression { variable: v }),
                Seq::empty(),
            ),
            None => (
                BoundExpression::Literal(BoundLiteralExpression { value: Object::Number(0) }),
                seq![
                    Diagnostic {
                        span: n.identifier_token.span_spec(),
                        kind: DiagnosticKind::UndefinedName { name: n.identifier_token.text },
                    },
                ],
            ),
        },
        ExpressionSyntax::Parenthesized(p) => bind_expression_spec(chain, *p.expression),
        ExpressionSyntax::Unary(u) => {
            let (operand, diags) = bind_expression_spec(chain, *u.operand);
            match BoundUnaryOperator::bind_spec(u.operator_token.kind, operand.type_spec()) {
                Some(op) => (
                    BoundExpression::Unary(
                        BoundUnaryExpression { operator: op, operand: Box::new(operand) },
                    ),
                    diags,
                ),
                None => (
                    operand,
                    diags.push(
                        Diagnostic {
                            span: u.operator_token.span_spec(),
                            kind: DiagnosticKind::UndefinedUnaryOperator {
                                operator: u.operator_token.text,
                                operand_type: operand.type_spec(),
                            },
                        },
                    ),
                ),
            }
        },
        ExpressionSyntax::Binary(b) => {
            let (left, dl) = bind_expression_spec(chain, *b.left);
            let (right, dr) = bind_expression_spec(chain, *b.right);
            match BoundBinaryOperator::bind_spec(
                b.operator_token.kind,
                left.type_spec(),
                right.type_spec(),
            ) {
                Some(op) => (
                    BoundExpression::Binary(
                        BoundBinaryExpression {
                            left: Box::new(left),
                            operator: op,
                            right: Box::new(right),
                        },
                    ),
                    dl + dr,
                ),
                None => (
                    left,
                    (dl + dr).push(
                        Diagnostic {
                            span: b.operator_token.span_spec(),
                            kind: DiagnosticKind::UndefinedBinaryOperator {
                                operator: b.operator_token.text,
                                left_type: left.type_spec(),
                                right_type: right.type_spec(),
                            },
                        },
                    ),
                ),
            }
        },
        ExpressionSyntax::Assignment(a) => {
            let (rhs, d) = bind_expression_spec(chain, *a.expression);
            match chain_lookup(chain, a.identifier_token.text@) {
                None => (
                    rhs,
                    d.push(
                        Diagnostic {
                            span: a.identifier_token.span_spec(),
                            kind: DiagnosticKind::UndefinedName { name: a.identifier_token.text },
                        },
                    ),
                ),
                Some(v) => {
                    let d2 = if v.is_read_only {
                        d.push(
                            Diagnostic {
                                span: a.equals_token.span_spec(),
                                kind: DiagnosticKind::CannotAssign {
                                    name: a.identifier_token.text,
                                },
                            },
                        )
                    } else {
                        d
                    };
                    if rhs.type_spec() != v.kind {
                        (
                            rhs,
                            d2.push(
                                Diagnostic {
                                    span: a.expression.span_spec(),
                                    kind: DiagnosticKind::CannotConvert {
                                        from_type: rhs.type_spec(),
                                        to_type: v.kind,
                                    },
                                },
                            ),
                        )
                    } else {
                        (
                            BoundExpression::Assignment(
                                BoundAssignmentExpression {
                                    variable: v,
                                    expression: Box::new(rhs),
                                },
                            ),
                            d2,
                        )
                    }
                },
            }
        },
    }
}

/// What binding a statement does: the bound statement's model, the
/// diagnostics it adds, and the scope chain afterwards.  A block leaves
/// the chain as it found it; a declaration extends its innermost level.
pub open spec fn bind_statement_spec(chain: ScopeChain, s: StatementSyntax) -> (
    BoundStatementModel,
    Seq<Diagnostic>,
    ScopeChain,
)
    decreases s, 1int,
{
    match s {
        StatementSyntax::Block(b) => {
            let r = bind_statements_spec(chain.push(Seq::empty()), b.statements@);
            (BoundStatementModel::Block { statements: r.0 }, r.1, chain)
        },
        StatementSyntax::Expression(es) => {
            let (e, d) = bind_expression_spec(chain, es.expression);
            (BoundStatementModel::Expression { expression: e }, d, chain)
        },
        StatementSyntax::VariableDeclaration(ds) => {
            let (init, d) = bind_expression_spec(chain, ds.initializer);
            let symbol = VariableSymbol {
                name: ds.identifier.text,
                is_read_only: ds.keyword.kind == SyntaxKind::LetKeyword,
                kind: init.type_spec(),
            };
            let (declared, chain2) = chain_declare(chain, symbol);
            let d2 = if declared {
                d
            } else {
                d.push(
                    Diagnostic {
                        span: ds.identifier.span_spec(),
                        kind: DiagnosticKind::VariableAlreadyDeclared { name: ds.identifier.text },
                    },
                )
            };
            (
                BoundStatementModel::VariableDeclaration { variable: symbol, initializer: init },
                d2,
                chain2,
            )
        },
    }
}

/// Binding a sequence of statements in order, threading the chain.
pub open spec fn bind_statements_spec(chain: ScopeChain, stmts: Seq<StatementSyntax>) -> (
    Seq<BoundStatementModel>,
    Seq<Diagnostic>,
    ScopeChain,
)
    decreases stmts, 0int,
{
    if stmts.len() == 0 {
        (Seq::empty(), Seq::empty(), chain)
    } else {
        let (sts, ds, c1) = bind_statements_spec(chain, stmts.drop_last());
        let (st, d, c2) = bind_statement_spec(c1, stmts.last());
        (sts.push(st), ds + d, c2)
    }
}

/// Binding a statement never touches the outer levels of the chain: only
/// the innermost level can gain declarations, and a block's own level is
/// gone again when the block is done.
pub proof fn lemma_bind_statement_frame(chain: ScopeChain, s: StatementSyntax)
    requires
        chain.len() > 0,
    ensures
        ({
            let (m, d, c2) = bind_statement_spec(chain, s);
            c2.len() == chain.len() && c2.drop_last() == chain.drop_last()
        }),
    decreases s, 1int,
{
    match s {
        StatementSyntax::Block(_) => {},
        StatementSyntax::Expression(_) => {},
        StatementSyntax::VariableDeclaration(ds) => {
            let (init, d) = bind_expression_spec(chain, ds.initializer);
            let symbol = VariableSymbol {
                name: ds.identifier.text,
                is_read_only: ds.keyword.kind == SyntaxKind::LetKeyword,
                kind: init.type_spec(),
            };
            let (declared, chain2) = chain_declare(chain, symbol);
            assert(chain2.len() == chain.len());
            assert(chain2.drop_last() =~= chain.drop_last());
        },
    }
}

/// The frame property of `lemma_bind_statement_frame`, over a sequence.
pub proof fn lemma_bind_statements_frame(chain: ScopeChain, stmts: Seq<StatementSyntax>)
    requires
        chain.len() > 0,
    ensures
        ({
            let (ms, ds, c2) = bind_statements_spec(chain, stmts);
            c2.len() == chain.len() && c2.drop_last() == chain.drop_last()
        }),
    decreases stmts, 0int,
{
    if stmts.len() > 0 {
        lemma_bind_statements_frame(chain, stmts.drop_last());
        let (sts, ds, c1) = bind_statements_spec(chain, stmts.drop_last());
        lemma_bind_statement_frame(c1, stmts.last());
    }
}

/// The session history behind a snapshot, oldest first, ending with the
/// snapshot itself.
pub open spec fn snapshots_rec(previous: Option<Box<BoundGlobalScope>>) -> Seq<BoundGlobalScope>
    decreases previous,
{
    match previous {
        None => Seq::empty(),
        Some(g) => snapshots_rec(g.previous).push(*g),
    }
}

/// The session history handed to a binding pass, oldest first.
pub open spec fn session_snapshots(previous: Option<&BoundGlobalScope>) -> Seq<BoundGlobalScope> {
    match previous {
        None => Seq::empty(),
        Some(p) => snapshots_rec(p.previous).push(*p),
    }
}

/// Replaying the first `n` of a snapshot's variables into one fresh scope
/// level: a name already replayed is not replayed again.
pub open spec fn declared_level(vars: Seq<VariableSymbol>, n: int) -> Seq<VariableSymbol>
    decreases n,
{
    if n <= 0 {
        Seq::empty()
    } else {
        let prev = declared_level(vars, n - 1);
        if scope::symbols_contain(prev, vars[n - 1].name@) {
            prev
        } else {
            prev.push(vars[n - 1])
        }
    }
}

/// The scope chain a binding pass starts from: an empty root level, then
/// one level per earlier submission, oldest first, so that later
/// submissions shadow earlier ones.
pub open spec fn replay_chain(snaps: Seq<BoundGlobalScope>) -> ScopeChain
    decreases snaps.len(),
{
    if snaps.len() == 0 {
        seq![Seq::<VariableSymbol>::empty()]
    } else {
        replay_chain(snaps.drop_last()).push(
            declared_level(snaps.last().variables@, snaps.last().variables@.len() as int),
        )
    }
}

/// The binder: walks a syntax tree, resolves names against its current
/// scope and operators against the fixed tables, and collects every
/// semantic error into its diagnostic bag.
pub struct Binder {
    pub diagnostics: DiagnosticBag,
    pub scope: BoundScope,
}

impl Binder {
    /// The binder's scope chain declares each name at most once per level.
    pub open spec fn wf(self) -> bool {
        self.scope.wf()
    }

    /// A fresh binder over `scope`, with no diagnostics yet.
    pub fn new(scope: BoundScope) -> (r: Binder)
        ensures
            r.scope == scope,
            r.diagnostics.diagnostics@ == Seq::<Diagnostic>::empty(),
    {
        Binder { diagnostics: DiagnosticBag::new(), scope }
    }

    pub fn bind_statement(&mut self, statement: &StatementSyntax) -> (r: Box<BoundStatement>)
        requires
            old(self).wf(),
            statement.wf(),
        ensures
            final(self).wf(),
            ({
                let (m, d, c2) = bind_statement_spec(old(self).scope.chain(), *statement);
                statement_model(*r) == m && final(self).diagnostics.diagnostics@ == old(
                    self,
                ).diagnostics.diagnostics@ + d && final(self).scope.chain() == c2
            }),
        decreases *statement,
    {
        match statement {
            StatementSyntax::Block(s) => self.bind_block_statement(s),
            StatementSyntax::Expression(s) => self.bind_expression_statement(s),
            StatementSyntax::VariableDeclaration(s) => {
                self.bind_variable_declaration_statement(s)
            },
        }
    }

    pub fn bind_expression(&mut self, expression: &ExpressionSyntax) -> (r: Box<BoundExpression>)
        requires
            old(self).wf(),
            expression.wf(),
        ensures
            final(self).wf(),
            final(self).scope == old(self).scope,
            ({
                let (b, d) = bind_expression_spec(old(self).scope.chain(), *expression);
                *r == b && final(self).diagnostics.diagnostics@ == old(
                    self,
                ).diagnostics.diagnostics@ + d
            }),
        decreases *expression,
    {
        match expression {
            ExpressionSyntax::Binary(e) => self.bind_binary_expression(e),
            ExpressionSyntax::Unary(e) => self.bind_unary_expression(e),
            ExpressionSyntax::Literal(e) => self.bind_literal_expression(e),
            ExpressionSyntax::Parenthesized(e) => self.bind_parenthesized_expression(e),
            ExpressionSyntax::Name(e) => self.bind_name_expression(e),
            ExpressionSyntax::Assignment(e) => self.bind_assignment_expression(e),
        }
    }

    fn bind_binary_expression(&mut self, e: &BinaryExpressionSyntax) -> (r: Box<BoundExpression>)
        requires
            old(self).wf(),
            (ExpressionSyntax::Binary(*e)).wf(),
        ensures
            final(self).wf(),
            final(self).scope == old(self).scope,
            ({
                let (b, d) = bind_expression_spec(
                    old(self).scope.chain(),
                    ExpressionSyntax::Binary(*e),
                );
                *r == b && final(self).diagnostics.diagnostics@ == old(
                    self,
                ).diagnostics.diagnostics@ + d
            }),
        decreases *e,
    {
        let left = self.bind_expression(&e.left);
        let right = self.bind_expression(&e.right);
        let ghost dl = bind_expression_spec(old(self).scope.chain(), *e.left).1;
        let ghost dr = bind_expression_spec(old(self).scope.chain(), *e.right).1;
        let operator = BoundBinaryOperator::bind(
            e.operator_token.kind,
            left.get_type(),
            right.get_type(),
        );
        match operator {
            Some(operator) => {
                proof {
                    assert(old(self).diagnostics.diagnostics@ + dl + dr == old(
                        self,
                    ).diagnostics.diagnostics@ + (dl + dr)) by {
                        assert(old(self).diagnostics.diagnostics@ + dl + dr =~= old(
                            self,
                        ).diagnostics.diagnostics@ + (dl + dr));
                    }
                }
                Box::new(
                    BoundExpression::Binary(BoundBinaryExpression { left, operator, right }),
                )
            },
            None => {
                let left_type = left.get_type();
                let right_type = right.get_type();
                self.diagnostics.report_undefined_binary_operator(
                    e.operator_token.span(),
                    e.operator_token.text.clone(),
                    left_type,
                    right_type,
                );
                proof {
                    assert(final(self).diagnostics.diagnostics@ =~= old(
                        self,
                    ).diagnostics.diagnostics@ + (dl + dr).push(
                        Diagnostic {
                            span: e.operator_token.span_spec(),
                            kind: DiagnosticKind::UndefinedBinaryOperator {
                                operator: e.operator_token.text,
                                left_type: left.type_spec(),
                                right_type: right.type_spec(),
                            },
                        },
                    ));
                }
                left
            },
        }
    }

    fn bind_unary_expression(&mut self, e: &UnaryExpressionSyntax) -> (r: Box<BoundExpression>)
        requires
            old(self).wf(),
            (ExpressionSyntax::Unary(*e)).wf(),
        ensures
            final(self).wf(),
            final(self).scope == old(self).scope,
            ({
                let (b, d) = bind_expression_spec(
                    old(self).scope.chain(),
                    ExpressionSyntax::Unary(*e),
                );
                *r == b && final(self).diagnostics.diagnostics@ == old(
                    self,
                ).diagnostics.diagnostics@ + d
            }),
        decreases *e,
    {
        let operand = self.bind_expression(&e.operand);
        let operator = BoundUnaryOperator::bind(e.operator_token.kind, operand.get_type());
        match operator {
            Some(operator) => Box::new(
                BoundExpression::Unary(BoundUnaryExpression { operator, operand }),
            ),
            None => {
                let operand_type = operand.get_type();
                self.diagnostics.report_undefined_unary_operator(
                    e.operator_token.span(),
                    e.operator_token.text.clone(),
                    operand_type,
                );
                operand
            },
        }
    }

    fn bind_literal_expression(&self, e: &LiteralExpressionSyntax) -> (r: Box<BoundExpression>)
        ensures
            ({
                let (b, d) = bind_expression_spec(
                    self.scope.chain(),
                    ExpressionSyntax::Literal(*e),
                );
                *r == b && d == Seq::<Diagnostic>::empty()
            }),
    {
        Box::new(BoundExpression::Literal(BoundLiteralExpression { value: e.value }))
    }

    fn bind_parenthesized_expression(&mut self, e: &ParenthesizedExpressionSyntax) -> (r: Box<
        BoundExpression,
    >)
        requires
            old(self).wf(),
            (ExpressionSyntax::Parenthesized(*e)).wf(),
        ensures
            final(self).wf(),
            final(self).scope == old(self).scope,
            ({
                let (b, d) = bind_expression_spec(
                    old(self).scope.chain(),
                    ExpressionSyntax::Parenthesized(*e),
                );
                *r == b && final(self).diagnostics.diagnostics@ == old(
                    self,
                ).diagnostics.diagnostics@ + d
            }),
        decreases *e,
    {
        self.bind_expression(&e.expression)
    }

    fn bind_name_expression(&mut self, e: &NameExpressionSyntax) -> (r: Box<BoundExpression>)
        requires
            old(self).wf(),
            (ExpressionSyntax::Name(*e)).wf(),
        ensures
            final(self).wf(),
            final(self).scope == old(self).scope,
            ({
                let (b, d) = bind_expression_spec(
                    old(self).scope.chain(),
                    ExpressionSyntax::Name(*e),
                );
                *r == b && final(self).diagnostics.diagnostics@ == old(
                    self,
                ).diagnostics.diagnostics@ + d
            }),
    {
        let name = e.identifier_token.text.clone();
        let variable = self.scope.try_lookup(&name);
        match variable {
            Some(v) => {
                let v = v.duplicate();
                Box::new(BoundExpression::Variable(BoundVariableExpression { variable: v }))
            },
            None => {
                self.diagnostics.report_undefined_name(e.identifier_token.span(), &name);
                proof {
                    assert(final(self).diagnostics.diagnostics@ =~= old(
                        self,
                    ).diagnostics.diagnostics@ + seq![
                        Diagnostic {
                            span: e.identifier_token.span_spec(),
                            kind: DiagnosticKind::UndefinedName { name: e.identifier_token.text },
                        },
                    ]);
                }
                Box::new(
                    BoundExpression::Literal(BoundLiteralExpression { value: Object::Number(0) }),
                )
            },
        }
    }

    fn bind_assignment_expression(&mut self, e: &AssignmentExpressionSyntax) -> (r: Box<
        BoundExpression,
    >)
        requires
            old(self).wf(),
            (ExpressionSyntax::Assignment(*e)).wf(),
        ensures
            final(self).wf(),
            final(self).scope == old(self).scope,
            ({
                let (b, d) = bind_expression_spec(
                    old(self).scope.chain(),
                    ExpressionSyntax::Assignment(*e),
                );
                *r == b && final(self).diagnostics.diagnostics@ == old(
                    self,
                ).diagnostics.diagnostics@ + d
            }),
        decreases *e,
    {
        let name = e.identifier_token.text.clone();
        let expression = self.bind_expression(&e.expression);
        let ghost d = bind_expression_spec(old(self).scope.chain(), *e.expression).1;
        let looked_up = self.scope.try_lookup(&name);
        let variable = match looked_up {
            Some(v) => v.duplicate(),
            None => {
                self.diagnostics.report_undefined_name(e.identifier_token.span(), &name);
                proof {
                    assert(final(self).diagnostics.diagnostics@ =~= old(
                        self,
                    ).diagnostics.diagnostics@ + d.push(
                        Diagnostic {
                            span: e.identifier_token.span_spec(),
                            kind: DiagnosticKind::UndefinedName { name: e.identifier_token.text },
                        },
                    ));
                }
                return expression;
            },
        };
        let ghost d2 = if variable.is_read_only {
            d.push(
                Diagnostic {
                    span: e.equals_token.span_spec(),
                    kind: DiagnosticKind::CannotAssign { name: e.identifier_token.text },
                },
            )
        } else {
            d
        };
        if variable.is_read_only {
            self.diagnostics.report_cannot_assign(e.equals_token.span(), &name);
        }
        proof {
            assert(self.diagnostics.diagnostics@ =~= old(self).diagnostics.diagnostics@ + d2);
        }
        if expression.get_type() != variable.kind {
            let from_type = expression.get_type();
            self.diagnostics.report_cannot_convert(e.expression.span(), from_type, variable.kind);
            proof {
                assert(final(self).diagnostics.diagnostics@ =~= old(
                    self,
                ).diagnostics.diagnostics@ + d2.push(
                    Diagnostic {
                        span: e.expression.span_spec(),
                        kind: DiagnosticKind::CannotConvert {
                            from_type: expression.type_spec(),
                            to_type: variable.kind,
                        },
                    },
                ));
            }
            return expression;
        }
        Box::new(BoundExpression::Assignment(BoundAssignmentExpression { variable, expression }))
    }

    #[verifier::loop_isolation(false)]
    #[verifier::rlimit(100)]
    fn bind_block_statement(&mut self, s: &BlockStatementSyntax) -> (r: Box<BoundStatement>)
        requires
            old(self).wf(),
            (StatementSyntax::Block(*s)).wf(),
        ensures
            final(self).wf(),
            ({
                let (m, d, c2) = bind_statement_spec(
                    old(self).scope.chain(),
                    StatementSyntax::Block(*s),
                );
                statement_model(*r) == m && final(self).diagnostics.diagnostics@ == old(
                    self,
                ).diagnostics.diagnostics@ + d && final(self).scope.chain() == c2
            }),
        decreases *s,
    {
        let ghost chain0 = old(self).scope.chain();
        let ghost inner0 = chain0.push(Seq::<VariableSymbol>::empty());
        proof {
            assert(s.wf());
        }

        let mut statements: Vec<BoundStatement> = Vec::new();

        let mut scope = BoundScope::new(None);
        core::mem::swap(&mut scope, &mut self.scope);
        self.scope = BoundScope::new(Some(Box::new(scope)));
        proof {
            assert(self.scope.chain() =~= inner0);
            assert(chain_wf(inner0)) by {
                assert(forall|lv: int|
                    0 <= lv < chain0.len() ==> inner0[lv] == chain0[lv]);
                assert(scope::symbols_unique(Seq::<VariableSymbol>::empty()));
            }
        }

        let mut i: usize = 0;
        while i < s.statements.len()
            invariant
                0 <= i <= s.statements@.len(),
                self.wf(),
                ({
                    let (sts, ds, c) = bind_statements_spec(
                        inner0,
                        s.statements@.subrange(0, i as int),
                    );
                    statements_model(statements@) == sts && self.diagnostics.diagnostics@ == old(
                        self,
                    ).diagnostics.diagnostics@ + ds && self.scope.chain() == c
                }),
            decreases s.statements@.len() - i,
        {
            proof {
                assert(s.wf());
                assert(0 <= i < s.statements@.len());
                assert(s.statements@[i as int].wf());
            }
            let ghost pre = s.statements@.subrange(0, i as int);
            let ghost (sts, ds, c) = bind_statements_spec(inner0, pre);
            let ghost stsv = statements@;
            let statement = self.bind_statement(&s.statements[i]);
            let ghost stm = *statement;
            statements.push(*statement);
            i += 1;
            proof {
                let post = s.statements@.subrange(0, i as int);
                assert(post.drop_last() =~= pre);
                assert(post.last() == s.statements@[i - 1]);
                let (st1, d1, c1) = bind_statement_spec(c, s.statements@[i - 1]);
                assert(bind_statements_spec(inner0, post) == (sts.push(st1), ds + d1, c1));
                assert(statements@.drop_last() =~= stsv);
                assert(statements@.last() == stm);
                assert(statements_model(statements@) == sts.push(st1));
                assert(self.diagnostics.diagnostics@ =~= old(self).diagnostics.diagnostics@ + (ds
                    + d1));
            }
        }
        proof {
            assert(s.statements@.subrange(0, s.statements@.len() as int) =~= s.statements@);
            lemma_bind_statements_frame(inner0, s.statements@);
        }

        let ghost (sts_all, ds_all, c_all) = bind_statements_spec(inner0, s.statements@);

        let mut inner = BoundScope::new(None);
        core::mem::swap(&mut inner, &mut self.scope);
        let ghost inner_snap = inner;
        proof {
            inner_snap.lemma_chain_nonempty();
            assert(inner_snap.chain() == c_all);
            assert(c_all.len() == inner0.len());
            if inner_snap.parent is None {
                assert(inner_snap.chain().len() == 1);
                assert(false);
            }
        }
        match inner.parent {
            Some(parent) => {
                proof {
                    assert(inner_snap.chain() == (*parent).chain().push(inner_snap.symbols@));
                    assert((*parent).chain() =~= c_all.drop_last());
                    assert(c_all.drop_last() == inner0.drop_last());
                    assert(inner0.drop_last() =~= chain0);
                }
                self.scope = *parent;
            },
            None => {
                proof {
                    assert(false);
                }
                self.scope = BoundScope::new(None);
            },
        }
        Box::new(BoundStatement::Block(BoundBlockStatement { statements }))
    }

    fn bind_expression_statement(&mut self, s: &ExpressionStatementSyntax) -> (r: Box<
        BoundStatement,
    >)
        requires
            old(self).wf(),
            (StatementSyntax::Expression(*s)).wf(),
        ensures
            final(self).wf(),
            ({
                let (m, d, c2) = bind_statement_spec(
                    old(self).scope.chain(),
                    StatementSyntax::Expression(*s),
                );
                statement_model(*r) == m && final(self).diagnostics.diagnostics@ == old(
                    self,
                ).diagnostics.diagnostics@ + d && final(self).scope.chain() == c2
            }),
        decreases *s,
    {
        let expression = self.bind_expression(&s.expression);
        Box::new(BoundStatement::Expression(BoundExpressionStatement { expression: *expression }))
    }

    fn bind_variable_declaration_statement(
        &mut self,
        s: &VariableDeclarationStatementSyntax,
    ) -> (r: Box<BoundStatement>)
        requires
            old(self).wf(),
            (StatementSyntax::VariableDeclaration(*s)).wf(),
        ensures
            final(self).wf(),
            ({
                let (m, d, c2) = bind_statement_spec(
                    old(self).scope.chain(),
                    StatementSyntax::VariableDeclaration(*s),
                );
                statement_model(*r) == m && final(self).diagnostics.diagnostics@ == old(
                    self,
                ).diagnostics.diagnostics@ + d && final(self).scope.chain() == c2
            }),
        decreases *s,
    {
        let name = s.identifier.text.clone();
        let initializer = self.bind_expression(&s.initializer);
        let is_read_only = s.keyword.kind == SyntaxKind::LetKeyword;
        let kind = initializer.get_type();
        let variable = VariableSymbol { name: name.clone(), is_read_only, kind };
        if !self.scope.try_declare(variable.duplicate()) {
            self.diagnostics.report_variable_already_declared(s.identifier.span(), &name);
        }
        Box::new(
            BoundStatement::VariableDeclaration(
                BoundVariableDeclarationStatement { variable, initializer: *initializer },
            ),
        )
    }

    /// Binds one submission against the accumulated declarations of the
    /// whole session and produces its snapshot.  The returned snapshot
    /// carries no back link; retaining the chain is the driver's concern.
    pub fn bind_global_scope(
        previous: Option<&BoundGlobalScope>,
        syntax: &CompilationUnitSyntax,
    ) -> (r: BoundGlobalScope)
        requires
            syntax.statement.wf(),
        ensures
            ({
                let chain = replay_chain(session_snapshots(previous));
                let (m, d, c2) = bind_statement_spec(chain, syntax.statement);
                r.previous is None && statement_model(r.statement) == m && r.diagnostics@ == d
                    && r.variables@ == c2.last()
            }),
    {
        let parent_scope = Binder::create_parent_scopes(previous);
        let mut binder = Binder::new(parent_scope);
        let statement = binder.bind_statement(&syntax.statement);
        let variables = binder.scope.get_declared_variables();
        proof {
            binder.scope.lemma_chain_nonempty();
            assert(binder.diagnostics.diagnostics@ =~= Seq::<Diagnostic>::empty()
                + bind_statement_spec(
                replay_chain(session_snapshots(previous)),
                syntax.statement,
            ).1);
        }
        let diagnostics = binder.diagnostics.diagnostics;
        BoundGlobalScope { previous: None, diagnostics, variables, statement: *statement }
    }

    /// Rebuilds the session's scope chain from the snapshot history: an
    /// empty root scope, then one scope per snapshot, oldest first, each
    /// declaring that snapshot's variables.
    #[verifier::loop_isolation(false)]
    pub fn create_parent_scopes(previous: Option<&BoundGlobalScope>) -> (r: BoundScope)
        ensures
            r.wf(),
            r.chain() == replay_chain(session_snapshots(previous)),
        decreases session_snapshots(previous).len(),
    {
        match previous {
            None => {
                let r = BoundScope::new(None);
                proof {
                    assert(r.chain() =~= replay_chain(session_snapshots(previous)));
                    assert(chain_wf(r.chain())) by {
                        assert(scope::symbols_unique(Seq::<VariableSymbol>::empty()));
                    }
                }
                r
            },
            Some(g) => {
                let rest: Option<&BoundGlobalScope> = match &g.previous {
                    None => None,
                    Some(b) => Some(&**b),
                };
                proof {
                    assert(session_snapshots(rest) =~= snapshots_rec(g.previous));
                    assert(session_snapshots(previous).len() == snapshots_rec(g.previous).len()
                        + 1);
                }
                let parent = Binder::create_parent_scopes(rest);
                let ghost parent_chain = parent.chain();
                let mut scope = BoundScope::new(Some(Box::new(parent)));
                proof {
                    assert(scope.chain() == parent_chain.push(scope.symbols@));
                    assert(scope.chain() =~= parent_chain.push(declared_level(g.variables@, 0)));
                    assert(chain_wf(scope.chain())) by {
                        assert(forall|lv: int|
                            0 <= lv < parent_chain.len() ==> scope.chain()[lv]
                                == parent_chain[lv]);
                        assert(scope::symbols_unique(Seq::<VariableSymbol>::empty()));
                    }
                }
                let mut i: usize = 0;
                while i < g.variables.len()
                    invariant
                        0 <= i <= g.variables@.len(),
                        scope.wf(),
                        scope.chain() == parent_chain.push(declared_level(g.variables@, i as int)),
                    decreases g.variables@.len() - i,
                {
                    let ghost before = scope.chain();
                    let declared = scope.try_declare(g.variables[i].duplicate());
                    proof {
                        let level = declared_level(g.variables@, i as int);
                        let symbol = g.variables@[i as int];
                        assert(before.last() == level);
                        if scope::symbols_contain(level, symbol.name@) {
                            assert(scope.chain() == before);
                            assert(declared_level(g.variables@, i + 1) == level);
                        } else {
                            assert(scope.chain() =~= parent_chain.push(
                                declared_level(g.variables@, i + 1),
                            ));
                        }
                    }
                    i += 1;
                }
                proof {
                    let snaps = session_snapshots(previous);
                    assert(snaps.drop_last() =~= snapshots_rec(g.previous));
                    assert(snaps.last() == *g);
                    assert(replay_chain(snaps) == replay_chain(snaps.drop_last()).push(
                        declared_level(snaps.last().variables@, snaps.last().variables@.len() as int),
                    ));
                    assert(replay_chain(session_snapshots(rest)) == replay_chain(
                        snapshots_rec(g.previous),
                    ));
                }
                scope
            },
        }
    }
}

} // verus!
