use minsk::binding::Binder;
use minsk::binding::BoundExpression;
use minsk::binding::BoundStatement;
use minsk::binding::operators::BoundBinaryOperatorKind;
use minsk::diagnostics::Diagnostic;
use minsk::diagnostics::DiagnosticKind;
use minsk::syntax::expressions::AssignmentExpressionSyntax;
use minsk::syntax::expressions::BinaryExpressionSyntax;
use minsk::syntax::expressions::ExpressionSyntax;
use minsk::syntax::expressions::LiteralExpressionSyntax;
use minsk::syntax::expressions::NameExpressionSyntax;
use minsk::syntax::expressions::ParenthesizedExpressionSyntax;
use minsk::syntax::expressions::UnaryExpressionSyntax;
use minsk::syntax::statements::BlockStatementSyntax;
use minsk::syntax::statements::ExpressionStatementSyntax;
use minsk::syntax::statements::StatementSyntax;
use minsk::syntax::statements::VariableDeclarationStatementSyntax;
use minsk::syntax::CompilationUnitSyntax;
use minsk::syntax::SyntaxKind;
use minsk::syntax::SyntaxToken;
use minsk::text::TextSpan;
use minsk::value::Object;
use minsk::value::ObjectKind;

fn tok(kind: SyntaxKind, position: usize, text: &str) -> SyntaxToken {
    SyntaxToken { kind, position, text: text.to_string() }
}

fn num(position: usize, text: &str, value: i64) -> ExpressionSyntax {
    ExpressionSyntax::Literal(LiteralExpressionSyntax {
        literal_token: tok(SyntaxKind::NumberToken, position, text),
        value: Object::Number(value),
    })
}

fn boolean(position: usize, value: bool) -> ExpressionSyntax {
    let (kind, text) = if value {
        (SyntaxKind::TrueKeyword, "true")
    } else {
        (SyntaxKind::FalseKeyword, "false")
    };
    ExpressionSyntax::Literal(LiteralExpressionSyntax {
        literal_token: tok(kind, position, text),
        value: Object::Boolean(value),
    })
}

fn name(position: usize, text: &str) -> ExpressionSyntax {
    ExpressionSyntax::Name(NameExpressionSyntax {
        identifier_token: tok(SyntaxKind::IdentifierToken, position, text),
    })
}

fn binary(left: ExpressionSyntax, op: SyntaxKind, op_pos: usize, op_text: &str, right: ExpressionSyntax) -> ExpressionSyntax {
    ExpressionSyntax::Binary(BinaryExpressionSyntax {
        left: Box::new(left),
        operator_token: tok(op, op_pos, op_text),
        right: Box::new(right),
    })
}

fn assignment(pos: usize, target: &str, rhs: ExpressionSyntax) -> ExpressionSyntax {
    ExpressionSyntax::Assignment(AssignmentExpressionSyntax {
        identifier_token: tok(SyntaxKind::IdentifierToken, pos, target),
        equals_token: tok(SyntaxKind::EqualsToken, pos + 2, "="),
        expression: Box::new(rhs),
    })
}

fn declaration(kw: SyntaxKind, kw_text: &str, pos: usize, var: &str, init: ExpressionSyntax) -> StatementSyntax {
    StatementSyntax::VariableDeclaration(VariableDeclarationStatementSyntax {
        keyword: tok(kw, pos, kw_text),
        identifier: tok(SyntaxKind::IdentifierToken, pos + 4, var),
        equals_token: tok(SyntaxKind::EqualsToken, pos + 6, "="),
        initializer: init,
    })
}

fn let_decl(pos: usize, var: &str, init: ExpressionSyntax) -> StatementSyntax {
    declaration(SyntaxKind::LetKeyword, "let", pos, var, init)
}

fn var_decl(pos: usize, var: &str, init: ExpressionSyntax) -> StatementSyntax {
    declaration(SyntaxKind::VarKeyword, "var", pos, var, init)
}

fn expr_stmt(e: ExpressionSyntax) -> StatementSyntax {
    StatementSyntax::Expression(ExpressionStatementSyntax { expression: e })
}

fn block(open: usize, close: usize, statements: Vec<StatementSyntax>) -> StatementSyntax {
    StatementSyntax::Block(BlockStatementSyntax {
        open_brace_token: tok(SyntaxKind::OpenBraceToken, open, "{"),
        statements,
        close_brace_token: tok(SyntaxKind::CloseBraceToken, close, "}"),
    })
}

fn unit(statement: StatementSyntax) -> CompilationUnitSyntax {
    CompilationUnitSyntax {
        statement,
        end_of_file_token: tok(SyntaxKind::EndOfFileToken, 500, ""),
    }
}

#[test]
fn well_typed_block_binds_without_diagnostics() {
    // { let x = 1  x + 2 }
    let syntax = unit(block(
        0,
        40,
        vec![
            let_decl(2, "x", num(10, "1", 1)),
            expr_stmt(binary(name(12, "x"), SyntaxKind::PlusToken, 14, "+", num(16, "2", 2))),
        ],
    ));
    let gs = Binder::bind_global_scope(None, &syntax);
    assert_eq!(gs.diagnostics.len(), 0);
    assert!(gs.previous.is_none());
    match &gs.statement {
        BoundStatement::Block(b) => {
            assert_eq!(b.statements.len(), 2);
            match &b.statements[0] {
                BoundStatement::VariableDeclaration(d) => {
                    assert_eq!(d.variable.name, "x");
                    assert!(d.variable.is_read_only);
                    assert_eq!(d.variable.kind, ObjectKind::Number);
                    assert_eq!(d.initializer.get_type(), ObjectKind::Number);
                }
                other => panic!("expected a declaration, got {:?}", other),
            }
            match &b.statements[1] {
                BoundStatement::Expression(es) => {
                    assert_eq!(es.expression.get_type(), ObjectKind::Number);
                    match &es.expression {
                        BoundExpression::Binary(be) => {
                            assert!(matches!(be.operator.kind, BoundBinaryOperatorKind::Addition));
                            assert_eq!(be.operator.result_type, ObjectKind::Number);
                            assert!(matches!(&*be.left, BoundExpression::Variable(_)));
                        }
                        other => panic!("expected a binary expression, got {:?}", other),
                    }
                }
                other => panic!("expected an expression statement, got {:?}", other),
            }
        }
        other => panic!("expected a block, got {:?}", other),
    }
}

#[test]
fn duplicate_declaration_reports_exactly_once() {
    // { var x = 1  var x = 2 }
    let syntax = unit(block(
        0,
        40,
        vec![var_decl(2, "x", num(10, "1", 1)), var_decl(12, "x", num(20, "2", 2))],
    ));
    let gs = Binder::bind_global_scope(None, &syntax);
    assert_eq!(gs.diagnostics.len(), 1);
    assert_eq!(
        gs.diagnostics[0],
        Diagnostic {
            span: TextSpan { start: 16, length: 1 },
            kind: DiagnosticKind::VariableAlreadyDeclared { name: "x".to_string() },
        }
    );
    // the refused declaration still stands in the bound tree, symbol and all
    match &gs.statement {
        BoundStatement::Block(b) => match &b.statements[1] {
            BoundStatement::VariableDeclaration(d) => {
                assert_eq!(d.variable.name, "x");
                assert!(!d.variable.is_read_only);
            }
            other => panic!("expected a declaration, got {:?}", other),
        },
        other => panic!("expected a block, got {:?}", other),
    }
}

#[test]
fn shadowing_resolves_to_innermost_then_back() {
    // { let x = 1  { let x = true  x }  x }
    let inner = block(
        12,
        30,
        vec![
            let_decl(14, "x", boolean(22, true)),
            expr_stmt(name(28, "x")),
        ],
    );
    let syntax = unit(block(
        0,
        40,
        vec![let_decl(2, "x", num(10, "1", 1)), inner, expr_stmt(name(32, "x"))],
    ));
    let gs = Binder::bind_global_scope(None, &syntax);
    assert_eq!(gs.diagnostics.len(), 0);
    match &gs.statement {
        BoundStatement::Block(b) => {
            match &b.statements[1] {
                BoundStatement::Block(inner_bound) => match &inner_bound.statements[1] {
                    BoundStatement::Expression(es) => match &es.expression {
                        BoundExpression::Variable(v) => {
                            assert_eq!(v.variable.kind, ObjectKind::Boolean);
                        }
                        other => panic!("expected a variable, got {:?}", other),
                    },
                    other => panic!("expected an expression statement, got {:?}", other),
                },
                other => panic!("expected the inner block, got {:?}", other),
            }
            match &b.statements[2] {
                BoundStatement::Expression(es) => match &es.expression {
                    BoundExpression::Variable(v) => {
                        assert_eq!(v.variable.kind, ObjectKind::Number);
                    }
                    other => panic!("expected a variable, got {:?}", other),
                },
                other => panic!("expected an expression statement, got {:?}", other),
            }
        }
        other => panic!("expected a block, got {:?}", other),
    }
}

#[test]
fn undefined_name_reports_and_degrades_to_zero() {
    let syntax = unit(expr_stmt(name(0, "y")));
    let gs = Binder::bind_global_scope(None, &syntax);
    assert_eq!(gs.diagnostics.len(), 1);
    assert_eq!(
        gs.diagnostics[0],
        Diagnostic {
            span: TextSpan { start: 0, length: 1 },
            kind: DiagnosticKind::UndefinedName { name: "y".to_string() },
        }
    );
    match &gs.statement {
        BoundStatement::Expression(es) => match &es.expression {
            BoundExpression::Literal(l) => assert_eq!(l.value, Object::Number(0)),
            other => panic!("expected the zero literal, got {:?}", other),
        },
        other => panic!("expected an expression statement, got {:?}", other),
    }
}

#[test]
fn assigning_boolean_to_number_variable_reports_cannot_convert() {
    // { var x = 1  x = true }
    let syntax = unit(block(
        0,
        60,
        vec![
            var_decl(2, "x", num(10, "1", 1)),
            expr_stmt(assignment(12, "x", boolean(16, true))),
        ],
    ));
    let gs = Binder::bind_global_scope(None, &syntax);
    assert_eq!(gs.diagnostics.len(), 1);
    assert_eq!(
        gs.diagnostics[0],
        Diagnostic {
            span: TextSpan { start: 16, length: 4 },
            kind: DiagnosticKind::CannotConvert {
                from_type: ObjectKind::Boolean,
                to_type: ObjectKind::Number,
            },
        }
    );
    // the assignment degrades to its (unconverted) right-hand side
    match &gs.statement {
        BoundStatement::Block(b) => match &b.statements[1] {
            BoundStatement::Expression(es) => match &es.expression {
                BoundExpression::Literal(l) => assert_eq!(l.value, Object::Boolean(true)),
                other => panic!("expected the right-hand literal, got {:?}", other),
            },
            other => panic!("expected an expression statement, got {:?}", other),
        },
        other => panic!("expected a block, got {:?}", other),
    }
}

#[test]
fn assigning_to_read_only_variable_reports_cannot_assign() {
    // { let x = 1  x = 2 }
    let syntax = unit(block(
        0,
        60,
        vec![
            let_decl(2, "x", num(10, "1", 1)),
            expr_stmt(assignment(12, "x", num(16, "2", 2))),
        ],
    ));
    let gs = Binder::bind_global_scope(None, &syntax);
    assert_eq!(gs.diagnostics.len(), 1);
    assert_eq!(
        gs.diagnostics[0],
        Diagnostic {
            span: TextSpan { start: 14, length: 1 },
            kind: DiagnosticKind::CannotAssign { name: "x".to_string() },
        }
    );
    // in type terms the assignment still succeeds: a proper assignment node
    match &gs.statement {
        BoundStatement::Block(b) => match &b.statements[1] {
            BoundStatement::Expression(es) => match &es.expression {
                BoundExpression::Assignment(a) => {
                    assert_eq!(a.variable.name, "x");
                    assert_eq!(es.expression.get_type(), ObjectKind::Number);
                }
                other => panic!("expected an assignment, got {:?}", other),
            },
            other => panic!("expected an expression statement, got {:?}", other),
        },
        other => panic!("expected a block, got {:?}", other),
    }
}

#[test]
fn number_plus_boolean_reports_undefined_binary_operator() {
    // 1 + true
    let syntax = unit(expr_stmt(binary(
        num(0, "1", 1),
        SyntaxKind::PlusToken,
        2,
        "+",
        boolean(4, true),
    )));
    let gs = Binder::bind_global_scope(None, &syntax);
    assert_eq!(gs.diagnostics.len(), 1);
    assert_eq!(
        gs.diagnostics[0],
        Diagnostic {
            span: TextSpan { start: 2, length: 1 },
            kind: DiagnosticKind::UndefinedBinaryOperator {
                operator: "+".to_string(),
                left_type: ObjectKind::Number,
                right_type: ObjectKind::Boolean,
            },
        }
    );
    // the bind degrades to the left operand
    match &gs.statement {
        BoundStatement::Expression(es) => match &es.expression {
            BoundExpression::Literal(l) => assert_eq!(l.value, Object::Number(1)),
            other => panic!("expected the left literal, got {:?}", other),
        },
        other => panic!("expected an expression statement, got {:?}", other),
    }
}

#[test]
fn minus_on_boolean_reports_undefined_unary_operator() {
    // -true
    let syntax = unit(expr_stmt(ExpressionSyntax::Unary(UnaryExpressionSyntax {
        operator_token: tok(SyntaxKind::MinusToken, 0, "-"),
        operand: Box::new(boolean(1, true)),
    })));
    let gs = Binder::bind_global_scope(None, &syntax);
    assert_eq!(gs.diagnostics.len(), 1);
    assert_eq!(
        gs.diagnostics[0],
        Diagnostic {
            span: TextSpan { start: 0, length: 1 },
            kind: DiagnosticKind::UndefinedUnaryOperator {
                operator: "-".to_string(),
                operand_type: ObjectKind::Boolean,
            },
        }
    );
}

#[test]
fn parenthesized_expression_is_transparent() {
    // (1 + 2): no bound node for the parentheses
    let syntax = unit(expr_stmt(ExpressionSyntax::Parenthesized(ParenthesizedExpressionSyntax {
        open_parenthesis_token: tok(SyntaxKind::OpenParenthesisToken, 0, "("),
        expression: Box::new(binary(num(1, "1", 1), SyntaxKind::PlusToken, 3, "+", num(5, "2", 2))),
        close_parenthesis_token: tok(SyntaxKind::CloseParenthesisToken, 6, ")"),
    })));
    let gs = Binder::bind_global_scope(None, &syntax);
    assert_eq!(gs.diagnostics.len(), 0);
    match &gs.statement {
        BoundStatement::Expression(es) => {
            assert!(matches!(&es.expression, BoundExpression::Binary(_)));
        }
        other => panic!("expected an expression statement, got {:?}", other),
    }
}

#[test]
fn session_second_submission_resolves_earlier_declaration() {
    // submit `let a = 1`, then `a + 1` with the first snapshot as previous
    let first = Binder::bind_global_scope(None, &unit(let_decl(0, "a", num(8, "1", 1))));
    assert_eq!(first.diagnostics.len(), 0);
    assert_eq!(first.variables.len(), 1);
    assert_eq!(first.variables[0].name, "a");
    assert_eq!(first.variables[0].kind, ObjectKind::Number);

    let second_syntax = unit(expr_stmt(binary(
        name(0, "a"),
        SyntaxKind::PlusToken,
        2,
        "+",
        num(4, "1", 1),
    )));
    let second = Binder::bind_global_scope(Some(&first), &second_syntax);
    assert_eq!(second.diagnostics.len(), 0);
    match &second.statement {
        BoundStatement::Expression(es) => {
            assert_eq!(es.expression.get_type(), ObjectKind::Number);
            match &es.expression {
                BoundExpression::Binary(b) => match &*b.left {
                    BoundExpression::Variable(v) => assert_eq!(v.variable.name, "a"),
                    other => panic!("expected the variable, got {:?}", other),
                },
                other => panic!("expected a binary expression, got {:?}", other),
            }
        }
        other => panic!("expected an expression statement, got {:?}", other),
    }
}

#[test]
fn session_chain_of_two_snapshots_accumulates() {
    // submit `let a = 1`, then `let b = true`, then `a + 1` sees both
    let first = Binder::bind_global_scope(None, &unit(let_decl(0, "a", num(8, "1", 1))));
    let mut second = Binder::bind_global_scope(Some(&first), &unit(let_decl(0, "b", boolean(8, true))));
    assert_eq!(second.diagnostics.len(), 0);
    second.previous = Some(Box::new(first));
    let third_syntax = unit(expr_stmt(binary(
        name(0, "a"),
        SyntaxKind::PlusToken,
        2,
        "+",
        num(4, "1", 1),
    )));
    let third = Binder::bind_global_scope(Some(&second), &third_syntax);
    assert_eq!(third.diagnostics.len(), 0);
}

#[test]
fn empty_block_binds_to_empty_block() {
    let gs = Binder::bind_global_scope(None, &unit(block(0, 1, vec![])));
    assert_eq!(gs.diagnostics.len(), 0);
    match &gs.statement {
        BoundStatement::Block(b) => assert_eq!(b.statements.len(), 0),
        other => panic!("expected a block, got {:?}", other),
    }
}

#[test]
fn errors_do_not_stop_later_binding() {
    // { y  var x = 1  x = true }: the undefined name and the bad assignment
    // are both reported in one pass
    let syntax = unit(block(
        0,
        80,
        vec![
            expr_stmt(name(2, "y")),
            var_decl(4, "x", num(12, "1", 1)),
            expr_stmt(assignment(14, "x", boolean(18, true))),
        ],
    ));
    let gs = Binder::bind_global_scope(None, &syntax);
    assert_eq!(gs.diagnostics.len(), 2);
    assert!(matches!(gs.diagnostics[0].kind, DiagnosticKind::UndefinedName { .. }));
    assert!(matches!(gs.diagnostics[1].kind, DiagnosticKind::CannotConvert { .. }));
}
