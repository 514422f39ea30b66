use polyglot_parser::diagnostic::Diagnostic;
use polyglot_parser::nodes::{ExprKind, ExprNode, Token, ValueKind, ValueNode};
use polyglot_parser::parser::parse;
use polyglot_parser::tree::{Expr, Main, Type, Value};

fn create_main(vec: Vec<Expr>) -> Main {
    Main(vec)
}

fn create_init(name: &str, ty: Type, value: Value, context: &str) -> Expr {
    Expr::Init { name: name.into(), ty, value, context: context.into() }
}

/// The node of `var NAME = INT`, as a parser gives it for a statement that
/// starts at byte `at`.
fn init_int(at: usize, name: &str, literal: &str) -> ExprNode {
    let text = format!("var {} = {}", name, literal);
    let value_at = at + 4 + name.len() + 3;
    ExprNode {
        span: at..at + text.len(),
        text,
        kind: ExprKind::Init {
            name: Token { text: name.into(), span: at + 4..at + 4 + name.len() },
            ty: None,
            value: ValueNode {
                span: value_at..value_at + literal.len(),
                kind: ValueKind::Int(literal.into()),
            },
        },
    }
}

#[test]
fn initialization_int() {
    let code = "
            var a = 1
            var b = -1
            var c = -555
            var d = 9999999
            ";
    let root = vec![
        init_int(13, "a", "1"),
        init_int(35, "b", "-1"),
        init_int(58, "c", "-555"),
        init_int(83, "d", "9999999"),
    ];
    let mut diags: Vec<Diagnostic> = Vec::new();
    let out = parse(&root, "test.txt".into(), code.into(), false, &mut diags).unwrap();
    let correct = create_main(vec![
        create_init("a", Type::Int, Value::Int(1), "var a = 1"),
        create_init("b", Type::Int, Value::Int(-1), "var b = -1"),
        create_init("c", Type::Int, Value::Int(-555), "var c = -555"),
        create_init("d", Type::Int, Value::Int(9999999), "var d = 9999999"),
    ]);

    assert_eq!(out, correct);
    assert!(diags.is_empty());
}
