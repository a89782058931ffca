use minsk::binding::operators::BoundBinaryOperator;
use minsk::syntax::expressions::BinaryExpressionSyntax;
use minsk::syntax::statements::BlockStatementSyntax;
use minsk::binding::operators::BoundBinaryOperatorKind;
use minsk::binding::operators::BoundUnaryOperator;
use minsk::binding::operators::BoundUnaryOperatorKind;
use minsk::binding::scope::BoundScope;
use minsk::binding::BoundExpression;
use minsk::binding::BoundLiteralExpression;
use minsk::binding::BoundNode;
use minsk::binding::BoundNodeKind;
use minsk::binding::BoundVariableExpression;
use minsk::diagnostics::DiagnosticBag;
use minsk::diagnostics::DiagnosticKind;
use minsk::syntax::expressions::ExpressionSyntax;
use minsk::syntax::expressions::LiteralExpressionSyntax;
use minsk::syntax::statements::ExpressionStatementSyntax;
use minsk::syntax::statements::StatementSyntax;
use minsk::syntax::statements::VariableDeclarationStatementSyntax;
use minsk::syntax::SyntaxKind;
use minsk::syntax::SyntaxNodeRef;
use minsk::syntax::SyntaxToken;
use minsk::text::TextSpan;
use minsk::text::VariableSymbol;
use minsk::value::Object;
use minsk::value::ObjectKind;

fn tok(kind: SyntaxKind, position: usize, text: &str) -> SyntaxToken {
    SyntaxToken { kind, position, text: text.to_string() }
}

fn sym(name: &str, is_read_only: bool, kind: ObjectKind) -> VariableSymbol {
    VariableSymbol { name: name.to_string(), is_read_only, kind }
}

#[test]
fn binary_operator_table_resolves_exact_rows() {
    let add = BoundBinaryOperator::bind(
        SyntaxKind::PlusToken,
        ObjectKind::Number,
        ObjectKind::Number,
    )
    .unwrap();
    assert!(matches!(add.kind, BoundBinaryOperatorKind::Addition));
    assert_eq!(add.result_type, ObjectKind::Number);

    let and = BoundBinaryOperator::bind(
        SyntaxKind::AmpersandAmpersandToken,
        ObjectKind::Boolean,
        ObjectKind::Boolean,
    )
    .unwrap();
    assert!(matches!(and.kind, BoundBinaryOperatorKind::LogicalAnd));
    assert_eq!(and.result_type, ObjectKind::Boolean);

    let eq_numbers = BoundBinaryOperator::bind(
        SyntaxKind::EqualsEqualsToken,
        ObjectKind::Number,
        ObjectKind::Number,
    )
    .unwrap();
    assert!(matches!(eq_numbers.kind, BoundBinaryOperatorKind::Equality));
    assert_eq!(eq_numbers.result_type, ObjectKind::Boolean);

    let ne_booleans = BoundBinaryOperator::bind(
        SyntaxKind::BangEqualsToken,
        ObjectKind::Boolean,
        ObjectKind::Boolean,
    )
    .unwrap();
    assert!(matches!(ne_booleans.kind, BoundBinaryOperatorKind::Inequality));

    // no implicit coercion: mixed operand types match no row
    assert!(BoundBinaryOperator::bind(
        SyntaxKind::PlusToken,
        ObjectKind::Number,
        ObjectKind::Boolean,
    )
    .is_none());
    assert!(BoundBinaryOperator::bind(
        SyntaxKind::EqualsEqualsToken,
        ObjectKind::Number,
        ObjectKind::Boolean,
    )
    .is_none());
    assert!(BoundBinaryOperator::bind(
        SyntaxKind::AmpersandAmpersandToken,
        ObjectKind::Number,
        ObjectKind::Number,
    )
    .is_none());
}

#[test]
fn unary_operator_table_resolves_exact_rows() {
    let identity = BoundUnaryOperator::bind(SyntaxKind::PlusToken, ObjectKind::Number).unwrap();
    assert!(matches!(identity.kind, BoundUnaryOperatorKind::Identity));
    assert_eq!(identity.result_type, ObjectKind::Number);

    let negation = BoundUnaryOperator::bind(SyntaxKind::MinusToken, ObjectKind::Number).unwrap();
    assert!(matches!(negation.kind, BoundUnaryOperatorKind::Negation));

    let not = BoundUnaryOperator::bind(SyntaxKind::BangToken, ObjectKind::Boolean).unwrap();
    assert!(matches!(not.kind, BoundUnaryOperatorKind::LogicalNegation));
    assert_eq!(not.result_type, ObjectKind::Boolean);

    assert!(BoundUnaryOperator::bind(SyntaxKind::BangToken, ObjectKind::Number).is_none());
    assert!(BoundUnaryOperator::bind(SyntaxKind::MinusToken, ObjectKind::Boolean).is_none());
}

#[test]
fn scope_declares_once_and_looks_up_through_parents() {
    let mut root = BoundScope::new(None);
    assert!(root.try_declare(sym("x", true, ObjectKind::Number)));
    assert!(!root.try_declare(sym("x", false, ObjectKind::Boolean)));
    assert!(root.try_declare(sym("y", false, ObjectKind::Boolean)));

    let found = root.try_lookup(&"x".to_string()).unwrap();
    assert_eq!(found.name, "x");
    assert!(found.is_read_only);
    assert_eq!(found.kind, ObjectKind::Number);
    assert!(root.try_lookup(&"z".to_string()).is_none());

    // a child scope sees the parent's declarations and may shadow them
    let mut child = BoundScope::new(Some(Box::new(root)));
    assert_eq!(child.try_lookup(&"x".to_string()).unwrap().kind, ObjectKind::Number);
    assert!(child.try_declare(sym("x", false, ObjectKind::Boolean)));
    assert_eq!(child.try_lookup(&"x".to_string()).unwrap().kind, ObjectKind::Boolean);
    assert_eq!(child.try_lookup(&"y".to_string()).unwrap().name, "y");
}

#[test]
fn scope_lists_its_own_declarations_in_order() {
    let mut scope = BoundScope::new(None);
    scope.try_declare(sym("a", true, ObjectKind::Number));
    scope.try_declare(sym("b", false, ObjectKind::Boolean));
    let vars = scope.get_declared_variables();
    assert_eq!(vars.len(), 2);
    assert_eq!(vars[0].name, "a");
    assert_eq!(vars[1].name, "b");
}

#[test]
fn diagnostic_bag_keeps_reports_in_order() {
    let mut bag = DiagnosticBag::new();
    bag.report_undefined_name(TextSpan { start: 0, length: 1 }, &"y".to_string());
    bag.report_cannot_convert(
        TextSpan { start: 4, length: 4 },
        ObjectKind::Boolean,
        ObjectKind::Number,
    );
    assert_eq!(bag.diagnostics.len(), 2);
    assert!(matches!(bag.diagnostics[0].kind, DiagnosticKind::UndefinedName { .. }));
    assert!(matches!(bag.diagnostics[1].kind, DiagnosticKind::CannotConvert { .. }));
}

#[test]
fn token_and_span_arithmetic() {
    let t = tok(SyntaxKind::IdentifierToken, 5, "abc");
    assert_eq!(t.span(), TextSpan { start: 5, length: 3 });

    let s = TextSpan::from_bounds(2, 7);
    assert_eq!(s, TextSpan { start: 2, length: 5 });
    assert_eq!(s.end(), 7);
}

#[test]
fn expression_span_covers_first_to_last_token() {
    let e = ExpressionSyntax::Binary(BinaryExpressionSyntax {
        left: Box::new(ExpressionSyntax::Literal(LiteralExpressionSyntax {
            literal_token: tok(SyntaxKind::NumberToken, 3, "10"),
            value: Object::Number(10),
        })),
        operator_token: tok(SyntaxKind::PlusToken, 6, "+"),
        right: Box::new(ExpressionSyntax::Literal(LiteralExpressionSyntax {
            literal_token: tok(SyntaxKind::NumberToken, 8, "234"),
            value: Object::Number(234),
        })),
    });
    assert_eq!(e.span(), TextSpan { start: 3, length: 8 });
}

#[test]
fn statement_ref_reports_kind_and_children() {
    let decl = StatementSyntax::VariableDeclaration(VariableDeclarationStatementSyntax {
        keyword: tok(SyntaxKind::LetKeyword, 0, "let"),
        identifier: tok(SyntaxKind::IdentifierToken, 4, "x"),
        equals_token: tok(SyntaxKind::EqualsToken, 6, "="),
        initializer: ExpressionSyntax::Literal(LiteralExpressionSyntax {
            literal_token: tok(SyntaxKind::NumberToken, 8, "1"),
            value: Object::Number(1),
        }),
    });
    let r = decl.create_ref();
    assert_eq!(r.kind(), SyntaxKind::VariableDeclarationStatement);
    let children = r.children();
    assert_eq!(children.len(), 4);
    match &children[0] {
        SyntaxNodeRef::Token(t) => assert_eq!(t.kind, SyntaxKind::LetKeyword),
        _ => panic!("expected the keyword token first"),
    }
    match &children[3] {
        SyntaxNodeRef::Expression(_) => {}
        _ => panic!("expected the initializer last"),
    }

    let es = StatementSyntax::Expression(ExpressionStatementSyntax {
        expression: ExpressionSyntax::Literal(LiteralExpressionSyntax {
            literal_token: tok(SyntaxKind::NumberToken, 0, "1"),
            value: Object::Number(1),
        }),
    });
    let r = es.create_ref();
    assert_eq!(r.kind(), SyntaxKind::ExpressionStatement);
    assert_eq!(r.children().len(), 1);
}

#[test]
fn block_ref_children_wrap_statements_in_braces() {
    let block = StatementSyntax::Block(BlockStatementSyntax {
        open_brace_token: tok(SyntaxKind::OpenBraceToken, 0, "{"),
        statements: vec![StatementSyntax::Expression(ExpressionStatementSyntax {
            expression: ExpressionSyntax::Literal(LiteralExpressionSyntax {
                literal_token: tok(SyntaxKind::NumberToken, 2, "1"),
                value: Object::Number(1),
            }),
        })],
        close_brace_token: tok(SyntaxKind::CloseBraceToken, 4, "}"),
    });
    let r = block.create_ref();
    assert_eq!(r.kind(), SyntaxKind::BlockStatement);
    let children = r.children();
    assert_eq!(children.len(), 3);
    assert!(matches!(&children[0], SyntaxNodeRef::Token(t) if t.kind == SyntaxKind::OpenBraceToken));
    assert!(matches!(&children[1], SyntaxNodeRef::Statement(_)));
    assert!(matches!(&children[2], SyntaxNodeRef::Token(t) if t.kind == SyntaxKind::CloseBraceToken));
}

#[test]
fn bound_nodes_report_kind_and_type() {
    let literal = BoundExpression::Literal(BoundLiteralExpression { value: Object::Boolean(true) });
    assert_eq!(literal.kind(), BoundNodeKind::LiteralExpression);
    assert_eq!(literal.get_type(), ObjectKind::Boolean);

    let variable = BoundExpression::Variable(BoundVariableExpression {
        variable: sym("x", false, ObjectKind::Number),
    });
    assert_eq!(variable.kind(), BoundNodeKind::VariableExpression);
    assert_eq!(variable.get_type(), ObjectKind::Number);

    let node = BoundNode::Expression(BoundExpression::Literal(BoundLiteralExpression {
        value: Object::Number(7),
    }));
    assert_eq!(node.kind(), BoundNodeKind::LiteralExpression);

    assert_eq!(Object::Number(3).kind(), ObjectKind::Number);
    assert_eq!(Object::Boolean(false).kind(), ObjectKind::Boolean);
}
