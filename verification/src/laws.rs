use vstd::prelude::*;

use crate::binding::bind_expression_spec;
use crate::binding::bind_statement_spec;
use crate::binding::bind_statements_spec;
use crate::binding::declared_level;
use crate::binding::lemma_bind_statements_frame;
use crate::binding::operators::BoundBinaryOperator;
use crate::binding::operators::BoundUnaryOperator;
use crate::binding::replay_chain;
use crate::binding::session_snapshots;
use crate::binding::scope::chain_declare;
use crate::binding::scope::chain_lookup;
use crate::binding::scope::symbols_contain;
use crate::binding::scope::symbols_find;
use crate::binding::scope::symbols_unique;
use crate::binding::scope::BoundGlobalScope;
use crate::binding::scope::ScopeChain;
use crate::binding::BoundAssignmentExpression;
use crate::binding::BoundExpression;
use crate::binding::BoundLiteralExpression;
use crate::binding::BoundStatementModel;
use crate::diagnostics::Diagnostic;
use crate::diagnostics::DiagnosticKind;
use crate::syntax::expressions::AssignmentExpressionSyntax;
use crate::syntax::expressions::BinaryExpressionSyntax;
use crate::syntax::expressions::ExpressionSyntax;
use crate::syntax::expressions::NameExpressionSyntax;
use crate::syntax::statements::StatementSyntax;
use crate::syntax::statements::VariableDeclarationStatementSyntax;
use crate::syntax::SyntaxKind;
use crate::text::VariableSymbol;
use crate::value::Object;
use crate::value::ObjectKind;

verus! {

/// The type an expression is expected to have from its syntactic shape
/// alone: a literal its value's type, a name its declaration's type, an
/// operator use its table row's result type, an assignment its right-hand
/// side's type.  On an ill-typed node it names the type of the fallback
/// the binder degrades to.
pub open spec fn expr_static_type(chain: ScopeChain, e: ExpressionSyntax) -> ObjectKind
    decreases e,
{
    match e {
        ExpressionSyntax::Literal(l) => l.value.kind_spec(),
        ExpressionSyntax::Name(n) => match chain_lookup(chain, n.identifier_token.text@) {
            Some(v) => v.kind,
            None => ObjectKind::Number,
        },
        ExpressionSyntax::Parenthesized(p) => expr_static_type(chain, *p.expression),
        ExpressionSyntax::Unary(u) => match BoundUnaryOperator::bind_spec(
            u.operator_token.kind,
            expr_static_type(chain, *u.operand),
        ) {
            Some(op) => op.result_type,
            None => expr_static_type(chain, *u.operand),
        },
        ExpressionSyntax::Binary(b) => match BoundBinaryOperator::bind_spec(
            b.operator_token.kind,
            expr_static_type(chain, *b.left),
            expr_static_type(chain, *b.right),
        ) {
            Some(op) => op.result_type,
            None => expr_static_type(chain, *b.left),
        },
        ExpressionSyntax::Assignment(a) => expr_static_type(chain, *a.expression),
    }
}

/// Every name the expression uses is declared, every operator use has a
/// row in the table for its operand types, and every assignment hits a
/// mutable variable of the right type.
pub open spec fn expr_well_typed(chain: ScopeChain, e: ExpressionSyntax) -> bool
    decreases e,
{
    match e {
        ExpressionSyntax::Literal(_) => true,
        ExpressionSyntax::Name(n) => chain_lookup(chain, n.identifier_token.text@) is Some,
        ExpressionSyntax::Parenthesized(p) => expr_well_typed(chain, *p.expression),
        ExpressionSyntax::Unary(u) => expr_well_typed(chain, *u.operand)
            && BoundUnaryOperator::bind_spec(
            u.operator_token.kind,
            expr_static_type(chain, *u.operand),
        ) is Some,
        ExpressionSyntax::Binary(b) => expr_well_typed(chain, *b.left) && expr_well_typed(
            chain,
            *b.right,
        ) && BoundBinaryOperator::bind_spec(
            b.operator_token.kind,
            expr_static_type(chain, *b.left),
            expr_static_type(chain, *b.right),
        ) is Some,
        ExpressionSyntax::Assignment(a) => expr_well_typed(chain, *a.expression) && match
            chain_lookup(chain, a.identifier_token.text@) {
            Some(v) => !v.is_read_only && expr_static_type(chain, *a.expression) == v.kind,
            None => false,
        },
    }
}

/// As `expr_well_typed`, for a statement: declarations additionally do
/// not collide with a name of their own scope level.
pub open spec fn stmt_well_typed(chain: ScopeChain, s: StatementSyntax) -> bool
    decreases s, 1int,
{
    match s {
        StatementSyntax::Block(b) => stmts_well_typed(
            chain.push(Seq::empty()),
            b.statements@,
        ),
        StatementSyntax::Expression(es) => expr_well_typed(chain, es.expression),
        StatementSyntax::VariableDeclaration(ds) => expr_well_typed(chain, ds.initializer)
            && !symbols_contain(chain.last(), ds.identifier.text@),
    }
}

/// As `stmt_well_typed`, for a sequence bound in order: each statement is
/// well typed against the chain as it stands when its turn comes.
pub open spec fn stmts_well_typed(chain: ScopeChain, stmts: Seq<StatementSyntax>) -> bool
    decreases stmts, 0int,
{
    if stmts.len() == 0 {
        true
    } else {
        stmts_well_typed(chain, stmts.drop_last()) && stmt_well_typed(
            bind_statements_spec(chain, stmts.drop_last()).2,
            stmts.last(),
        )
    }
}

/// A well-typed expression binds without a single diagnostic, and the
/// bound expression's derived type is the type its syntactic shape
/// statically calls for.
pub proof fn lemma_well_typed_expression(chain: ScopeChain, e: ExpressionSyntax)
    requires
        expr_well_typed(chain, e),
    ensures
        bind_expression_spec(chain, e).1 == Seq::<Diagnostic>::empty(),
        bind_expression_spec(chain, e).0.type_spec() == expr_static_type(chain, e),
    decreases e,
{
    let empty = Seq::<Diagnostic>::empty();
    match e {
        ExpressionSyntax::Literal(_) => {},
        ExpressionSyntax::Name(_) => {},
        ExpressionSyntax::Parenthesized(p) => {
            lemma_well_typed_expression(chain, *p.expression);
        },
        ExpressionSyntax::Unary(u) => {
            lemma_well_typed_expression(chain, *u.operand);
        },
        ExpressionSyntax::Binary(b) => {
            lemma_well_typed_expression(chain, *b.left);
            lemma_well_typed_expression(chain, *b.right);
            assert(empty + empty =~= empty);
        },
        ExpressionSyntax::Assignment(a) => {
            lemma_well_typed_expression(chain, *a.expression);
        },
    }
}

/// A well-typed statement binds without a single diagnostic.
pub proof fn lemma_well_typed_statement(chain: ScopeChain, s: StatementSyntax)
    requires
        chain.len() > 0,
        stmt_well_typed(chain, s),
    ensures
        bind_statement_spec(chain, s).1 == Seq::<Diagnostic>::empty(),
    decreases s, 1int,
{
    match s {
        StatementSyntax::Block(b) => {
            lemma_well_typed_statements(chain.push(Seq::empty()), b.statements@);
        },
        StatementSyntax::Expression(es) => {
            lemma_well_typed_expression(chain, es.expression);
        },
        StatementSyntax::VariableDeclaration(ds) => {
            lemma_well_typed_expression(chain, ds.initializer);
        },
    }
}

/// A well-typed statement sequence binds without a single diagnostic.
pub proof fn lemma_well_typed_statements(chain: ScopeChain, stmts: Seq<StatementSyntax>)
    requires
        chain.len() > 0,
        stmts_well_typed(chain, stmts),
    ensures
        bind_statements_spec(chain, stmts).1 == Seq::<Diagnostic>::empty(),
    decreases stmts, 0int,
{
    let empty = Seq::<Diagnostic>::empty();
    if stmts.len() > 0 {
        lemma_well_typed_statements(chain, stmts.drop_last());
        lemma_bind_statements_frame(chain, stmts.drop_last());
        let c1 = bind_statements_spec(chain, stmts.drop_last()).2;
        lemma_well_typed_statement(c1, stmts.last());
        assert(empty + empty =~= empty);
    }
}

/// Declaring one name twice in the same scope level: the first
/// declaration goes through, the second is refused with exactly one
/// "already declared" diagnostic, and the refused declaration still
/// stands in the bound tree, its symbol carried along.
pub proof fn lemma_duplicate_declaration(
    chain: ScopeChain,
    s1: VariableDeclarationStatementSyntax,
    s2: VariableDeclarationStatementSyntax,
)
    requires
        chain.len() > 0,
        !symbols_contain(chain.last(), s1.identifier.text@),
        s2.identifier.text@ == s1.identifier.text@,
        bind_expression_spec(chain, s1.initializer).1 == Seq::<Diagnostic>::empty(),
        bind_expression_spec(
            bind_statement_spec(chain, StatementSyntax::VariableDeclaration(s1)).2,
            s2.initializer,
        ).1 == Seq::<Diagnostic>::empty(),
    ensures
        ({
            let (m1, d1, c1) = bind_statement_spec(chain, StatementSyntax::VariableDeclaration(s1));
            let (m2, d2, c2) = bind_statement_spec(c1, StatementSyntax::VariableDeclaration(s2));
            d1 == Seq::<Diagnostic>::empty() && d2 == seq![
                Diagnostic {
                    span: s2.identifier.span_spec(),
                    kind: DiagnosticKind::VariableAlreadyDeclared { name: s2.identifier.text },
                },
            ] && (m2 matches BoundStatementModel::VariableDeclaration { variable, .. }
                && variable.name == s2.identifier.text)
        }),
{
    let (m1, d1, c1) = bind_statement_spec(chain, StatementSyntax::VariableDeclaration(s1));
    let (init1, _) = bind_expression_spec(chain, s1.initializer);
    let symbol1 = VariableSymbol {
        name: s1.identifier.text,
        is_read_only: s1.keyword.kind == SyntaxKind::LetKeyword,
        kind: init1.type_spec(),
    };
    assert(c1 == chain_declare(chain, symbol1).1);
    assert(c1.last() == chain.last().push(symbol1)) by {
        assert(c1[c1.len() - 1] == chain.last().push(symbol1));
    }
    assert(symbols_contain(c1.last(), s2.identifier.text@)) by {
        assert(c1.last()[c1.last().len() - 1] == symbol1);
    }
    let (m2, d2, c2) = bind_statement_spec(c1, StatementSyntax::VariableDeclaration(s2));
    assert(d2 =~= seq![
        Diagnostic {
            span: s2.identifier.span_spec(),
            kind: DiagnosticKind::VariableAlreadyDeclared { name: s2.identifier.text },
        },
    ]);
}

/// Shadowing: declaring a name again in a nested level succeeds, lookups
/// inside the nested level then resolve to the inner symbol, and once the
/// nested level is gone they resolve to the outer symbol again.
pub proof fn lemma_shadowing(chain: ScopeChain, outer: VariableSymbol, inner: VariableSymbol)
    requires
        chain.len() > 0,
        chain_lookup(chain, outer.name@) == Some(outer),
        inner.name@ == outer.name@,
    ensures
        ({
            let pushed = chain.push(Seq::empty());
            let (declared, c2) = chain_declare(pushed, inner);
            declared && chain_lookup(c2, inner.name@) == Some(inner) && c2.drop_last() == chain
                && chain_lookup(c2.drop_last(), outer.name@) == Some(outer)
        }),
{
    let pushed = chain.push(Seq::empty());
    let (declared, c2) = chain_declare(pushed, inner);
    assert(!symbols_contain(pushed.last(), inner.name@));
    assert(c2.last() == Seq::<VariableSymbol>::empty().push(inner)) by {
        assert(c2[c2.len() - 1] == pushed.last().push(inner));
    }
    assert(symbols_find(c2.last(), inner.name@) == Some(inner));
    assert(c2.drop_last() =~= chain);
}

/// Referencing an undeclared name: exactly one "undefined name"
/// diagnostic, and the bound expression is the literal numeric zero, so
/// that whatever evaluates it sees zero.
pub proof fn lemma_undefined_name(chain: ScopeChain, n: NameExpressionSyntax)
    requires
        chain_lookup(chain, n.identifier_token.text@) is None,
    ensures
        bind_expression_spec(chain, ExpressionSyntax::Name(n)) == (
            BoundExpression::Literal(BoundLiteralExpression { value: Object::Number(0) }),
            seq![
                Diagnostic {
                    span: n.identifier_token.span_spec(),
                    kind: DiagnosticKind::UndefinedName { name: n.identifier_token.text },
                },
            ],
        ),
{
}

/// Assigning an expression of the wrong type to a previously declared,
/// mutable variable: exactly one "cannot convert" diagnostic naming both
/// types, and the assignment degrades to its (unconverted) right-hand
/// side.
pub proof fn lemma_assignment_type_mismatch(chain: ScopeChain, a: AssignmentExpressionSyntax)
    requires
        bind_expression_spec(chain, *a.expression).1 == Seq::<Diagnostic>::empty(),
        ({
            let v = chain_lookup(chain, a.identifier_token.text@);
            v is Some && !v.unwrap().is_read_only && bind_expression_spec(
                chain,
                *a.expression,
            ).0.type_spec() != v.unwrap().kind
        }),
    ensures
        ({
            let rhs = bind_expression_spec(chain, *a.expression).0;
            let v = chain_lookup(chain, a.identifier_token.text@).unwrap();
            bind_expression_spec(chain, ExpressionSyntax::Assignment(a)) == (
                rhs,
                seq![
                    Diagnostic {
                        span: a.expression.span_spec(),
                        kind: DiagnosticKind::CannotConvert {
                            from_type: rhs.type_spec(),
                            to_type: v.kind,
                        },
                    },
                ],
            )
        }),
{
    let rhs = bind_expression_spec(chain, *a.expression).0;
    let v = chain_lookup(chain, a.identifier_token.text@).unwrap();
    assert(Seq::<Diagnostic>::empty().push(
        Diagnostic {
            span: a.expression.span_spec(),
            kind: DiagnosticKind::CannotConvert { from_type: rhs.type_spec(), to_type: v.kind },
        },
    ) =~= seq![
        Diagnostic {
            span: a.expression.span_spec(),
            kind: DiagnosticKind::CannotConvert { from_type: rhs.type_spec(), to_type: v.kind },
        },
    ]);
}

/// Assigning a well-typed expression to a read-only variable: exactly one
/// "cannot assign" diagnostic, but the assignment still succeeds in type
/// terms and a proper assignment node is produced.
pub proof fn lemma_assignment_read_only(chain: ScopeChain, a: AssignmentExpressionSyntax)
    requires
        bind_expression_spec(chain, *a.expression).1 == Seq::<Diagnostic>::empty(),
        ({
            let v = chain_lookup(chain, a.identifier_token.text@);
            v is Some && v.unwrap().is_read_only && bind_expression_spec(
                chain,
                *a.expression,
            ).0.type_spec() == v.unwrap().kind
        }),
    ensures
        ({
            let rhs = bind_expression_spec(chain, *a.expression).0;
            let v = chain_lookup(chain, a.identifier_token.text@).unwrap();
            bind_expression_spec(chain, ExpressionSyntax::Assignment(a)) == (
                BoundExpression::Assignment(
                    BoundAssignmentExpression { variable: v, expression: Box::new(rhs) },
                ),
                seq![
                    Diagnostic {
                        span: a.equals_token.span_spec(),
                        kind: DiagnosticKind::CannotAssign { name: a.identifier_token.text },
                    },
                ],
            )
        }),
{
    let rhs = bind_expression_spec(chain, *a.expression).0;
    assert(Seq::<Diagnostic>::empty().push(
        Diagnostic {
            span: a.equals_token.span_spec(),
            kind: DiagnosticKind::CannotAssign { name: a.identifier_token.text },
        },
    ) =~= seq![
        Diagnostic {
            span: a.equals_token.span_spec(),
            kind: DiagnosticKind::CannotAssign { name: a.identifier_token.text },
        },
    ]);
}

/// A binary operator use whose operand types have no row in the table:
/// exactly one "undefined binary operator" diagnostic naming the operator
/// text and both types, and the bind degrades to the left operand.
pub proof fn lemma_undefined_binary_operator(chain: ScopeChain, b: BinaryExpressionSyntax)
    requires
        bind_expression_spec(chain, *b.left).1 == Seq::<Diagnostic>::empty(),
        bind_expression_spec(chain, *b.right).1 == Seq::<Diagnostic>::empty(),
        BoundBinaryOperator::bind_spec(
            b.operator_token.kind,
            bind_expression_spec(chain, *b.left).0.type_spec(),
            bind_expression_spec(chain, *b.right).0.type_spec(),
        ) is None,
    ensures
        ({
            let left = bind_expression_spec(chain, *b.left).0;
            let right = bind_expression_spec(chain, *b.right).0;
            bind_expression_spec(chain, ExpressionSyntax::Binary(b)) == (
                left,
                seq![
                    Diagnostic {
                        span: b.operator_token.span_spec(),
                        kind: DiagnosticKind::UndefinedBinaryOperator {
                            operator: b.operator_token.text,
                            left_type: left.type_spec(),
                            right_type: right.type_spec(),
                        },
                    },
                ],
            )
        }),
{
    let left = bind_expression_spec(chain, *b.left).0;
    let right = bind_expression_spec(chain, *b.right).0;
    let empty = Seq::<Diagnostic>::empty();
    let diag = Diagnostic {
        span: b.operator_token.span_spec(),
        kind: DiagnosticKind::UndefinedBinaryOperator {
            operator: b.operator_token.text,
            left_type: left.type_spec(),
            right_type: right.type_spec(),
        },
    };
    assert((empty + empty).push(diag) =~= seq![diag]);
}

/// Replaying a snapshot whose variable names are distinct keeps every one
/// of its variables.
proof fn lemma_declared_level_keeps_all(vars: Seq<VariableSymbol>, n: int)
    requires
        symbols_unique(vars),
        0 <= n <= vars.len(),
    ensures
        declared_level(vars, n) == vars.subrange(0, n),
    decreases n,
{
    if n > 0 {
        lemma_declared_level_keeps_all(vars, n - 1);
        assert(vars.subrange(0, n - 1) =~= vars.subrange(0, n).drop_last());
        if symbols_contain(vars.subrange(0, n - 1), vars[n - 1].name@) {
            let i = choose|i: int|
                0 <= i < vars.subrange(0, n - 1).len() && #[trigger] vars.subrange(
                    0,
                    n - 1,
                )[i].name@ == vars[n - 1].name@;
            assert(vars[i].name@ == vars[n - 1].name@);
            assert(false);
        }
        assert(vars.subrange(0, n - 1).push(vars[n - 1]) =~= vars.subrange(0, n));
    } else {
        assert(vars.subrange(0, 0) =~= Seq::<VariableSymbol>::empty());
    }
}

/// Session incrementality: a variable a submission's snapshot declares
/// resolves in the scope chain the next submission is bound against.
pub proof fn lemma_session_lookup(snapshot: BoundGlobalScope, i: int)
    requires
        snapshot.previous is None,
        symbols_unique(snapshot.variables@),
        0 <= i < snapshot.variables@.len(),
    ensures
        ({
            let chain = replay_chain(session_snapshots(Some(&snapshot)));
            let v = snapshot.variables@[i];
            chain_lookup(chain, v.name@) == Some(v)
        }),
{
    let vars = snapshot.variables@;
    let v = vars[i];
    crate::binding::scope::lemma_symbols_find_some(vars, v.name@, i);
    let snaps = session_snapshots(Some(&snapshot));
    assert(snaps =~= seq![snapshot]);
    assert(snaps.drop_last() =~= Seq::<BoundGlobalScope>::empty());
    let chain = replay_chain(snaps);
    lemma_declared_level_keeps_all(vars, vars.len() as int);
    assert(vars.subrange(0, vars.len() as int) =~= vars);
    assert(chain == replay_chain(snaps.drop_last()).push(vars));
    assert(chain.last() == vars);
}

} // verus!
