use polyglot_parser::diagnostic::Diagnostic;
use polyglot_parser::nodes::{
    check_exprs, AccessNode, CallNode, ExprKind, ExprNode, Token, TypeNode, ValueKind, ValueNode,
};
use polyglot_parser::parser::{parse, parse_exprs};
use polyglot_parser::scope::Scope;
use polyglot_parser::tree::{
    Expr, ListAccessMode, Op, TupleAccessMode, Type, Value,
};
use std::ops::Range;

/// One statement of a source text: where it starts and what it says.
struct Line<'a> {
    start: usize,
    text: &'a str,
}

fn line<'a>(code: &'a str, text: &'a str) -> Line<'a> {
    Line { start: code.find(text).unwrap(), text }
}

impl Line<'_> {
    fn span(&self, part: &str) -> Range<usize> {
        let at = self.start + self.text.find(part).unwrap();
        at..at + part.len()
    }

    fn last_span(&self, part: &str) -> Range<usize> {
        let at = self.start + self.text.rfind(part).unwrap();
        at..at + part.len()
    }

    fn token(&self, part: &str) -> Token {
        Token { text: part.into(), span: self.span(part) }
    }

    fn number(&self, part: &str) -> ValueNode {
        ValueNode { span: self.last_span(part), kind: ValueKind::Int(part.into()) }
    }

    fn string(&self, part: &str) -> ValueNode {
        ValueNode { span: self.last_span(part), kind: ValueKind::Str(part.into()) }
    }

    fn name(&self, part: &str) -> ValueNode {
        ValueNode { span: self.last_span(part), kind: ValueKind::Name(part.into()) }
    }

    fn expr(&self, kind: ExprKind) -> ExprNode {
        ExprNode { span: self.start..self.start + self.text.len(), text: self.text.into(), kind }
    }

    fn init(&self, name: &str, ty: Option<TypeNode>, value: ValueNode) -> ExprNode {
        self.expr(ExprKind::Init { name: self.token(name), ty, value })
    }
}

fn struct_type(members: Vec<(&str, TypeNode)>) -> TypeNode {
    TypeNode::Struct(
        members
            .into_iter()
            .map(|(name, ty)| (Token { text: name.into(), span: 0..0 }, ty))
            .collect(),
    )
}

fn analyse(root: &Vec<ExprNode>) -> (Vec<Expr>, Scope, Vec<Diagnostic>) {
    assert!(check_exprs(root));
    let mut scope = Scope::new(vec![], vec![]);
    let mut diags = Vec::new();
    let exprs = parse_exprs(root, &mut scope, &mut diags);
    (exprs, scope, diags)
}

fn report(range: Range<usize>, header: &str, body: &str) -> Diagnostic {
    Diagnostic { range, header: header.into(), body: body.into() }
}

#[test]
fn inference_and_widening() {
    let code = "var a = 1\nvar b: num = 2\nvar c: num = a\n";
    let l1 = line(code, "var a = 1");
    let l2 = line(code, "var b: num = 2");
    let l3 = line(code, "var c: num = a");
    let root = vec![
        l1.init("a", None, l1.number("1")),
        l2.init("b", Some(TypeNode::Num), l2.number("2")),
        l3.init("c", Some(TypeNode::Num), l3.name("a")),
    ];
    let (exprs, scope, diags) = analyse(&root);
    assert_eq!(
        exprs,
        vec![
            Expr::Init {
                name: "a".into(),
                ty: Type::Int,
                value: Value::Int(1),
                context: "var a = 1".into()
            },
            Expr::Init {
                name: "b".into(),
                ty: Type::Num,
                value: Value::Int(2),
                context: "var b: num = 2".into()
            },
            Expr::Init {
                name: "c".into(),
                ty: Type::Num,
                value: Value::Var { name: "a".into(), range: 38..39 },
                context: "var c: num = a".into()
            },
        ]
    );
    assert!(matches!(scope.get("a"), Some(Type::Int)));
    assert!(matches!(scope.get("b"), Some(Type::Num)));
    assert!(matches!(scope.get("c"), Some(Type::Num)));
    assert!(diags.is_empty());
    let mut again = Vec::new();
    assert!(parse(&root, "test.txt".into(), code.into(), false, &mut again).is_ok());
}

#[test]
fn struct_and_tuple_are_interchangeable() {
    let code = "var p: (x: int, y: int) = (3, 4)\nvar q: (int, int) = p\n";
    let l1 = line(code, "var p: (x: int, y: int) = (3, 4)");
    let l2 = line(code, "var q: (int, int) = p");
    let tuple =
        ValueNode { span: l1.span("(3, 4)"), kind: ValueKind::Tuple(vec![l1.number("3"), l1.number("4")]) };
    let root = vec![
        l1.init(
            "p",
            Some(struct_type(vec![("x", TypeNode::Int), ("y", TypeNode::Int)])),
            tuple,
        ),
        l2.init("q", Some(TypeNode::Tuple(vec![TypeNode::Int, TypeNode::Int])), l2.name("p")),
    ];
    let (exprs, scope, diags) = analyse(&root);
    assert!(diags.is_empty());
    assert!(matches!(exprs[0], Expr::Init { .. }));
    assert!(matches!(exprs[1], Expr::Init { .. }));
    match scope.get("p") {
        Some(Type::Struct(members)) => {
            assert_eq!(members.len(), 2);
            assert_eq!(members[0].0, "x");
            assert_eq!(members[1].0, "y");
        }
        _ => panic!("p is a struct"),
    }
    match scope.get("q") {
        Some(Type::Tuple(items)) => assert_eq!(items.len(), 2),
        _ => panic!("q is a tuple"),
    }
    match &exprs[1] {
        Expr::Init { value: Value::Var { name, .. }, .. } => assert_eq!(name, "p"),
        _ => panic!("q is initialised from a variable"),
    }
}

#[test]
fn reordered_fields_are_refused() {
    let code = "var p: (x: int, y: str) = (\"a\", 4)\n";
    let l1 = line(code, "var p: (x: int, y: str) = (\"a\", 4)");
    let tuple = ValueNode {
        span: l1.span("(\"a\", 4)"),
        kind: ValueKind::Tuple(vec![l1.string("\"a\""), l1.number("4")]),
    };
    let root = vec![l1.init(
        "p",
        Some(struct_type(vec![("x", TypeNode::Int), ("y", TypeNode::Str)])),
        tuple,
    )];
    let (exprs, scope, diags) = analyse(&root);
    assert_eq!(exprs, vec![Expr::Error]);
    assert!(scope.get("p").is_none());
    assert_eq!(
        diags,
        vec![report(
            l1.span("(\"a\", 4)"),
            "wrong assignment type",
            "expected '(x: int, y: str)', found '(str, int)'"
        )]
    );
}

#[test]
fn wrong_type_assignment() {
    let code = "var a: int = 1\na = \"hello\"\n";
    let l1 = line(code, "var a: int = 1");
    let l2 = line(code, "a = \"hello\"");
    let root = vec![
        l1.init("a", Some(TypeNode::Int), l1.number("1")),
        l2.expr(ExprKind::Assig { name: l2.token("a"), value: l2.string("\"hello\"") }),
    ];
    let (exprs, _, diags) = analyse(&root);
    assert!(matches!(exprs[0], Expr::Init { .. }));
    assert_eq!(exprs[1], Expr::Error);
    assert_eq!(exprs.iter().filter(|e| **e == Expr::Error).count(), 1);
    assert_eq!(
        diags,
        vec![report(19..26, "wrong assignment type", "expected 'int', found 'str'")]
    );
    let mut again = Vec::new();
    assert!(parse(&root, "test.txt".into(), code.into(), false, &mut again).is_err());
    assert_eq!(again, diags);
    let mut debug = Vec::new();
    let shown = parse(&root, "test.txt".into(), code.into(), true, &mut debug).unwrap();
    assert_eq!(shown.0, exprs);
}

#[test]
fn function_signature_and_call() {
    let code = "fn add(x: int, y: int) -> int { var r = x }\nadd(1, 2)\nadd(1, \"x\")\n";
    let l1 = line(code, "fn add(x: int, y: int) -> int { var r = x }");
    let body = Line { start: l1.span("var r = x").start, text: "var r = x" };
    let l2 = line(code, "add(1, 2)");
    let l3 = line(code, "add(1, \"x\")");
    let root = vec![
        l1.expr(ExprKind::Fn {
            name: l1.token("add"),
            ty: Some(TypeNode::Int),
            params: vec![(l1.token("x"), TypeNode::Int), (l1.token("y"), TypeNode::Int)],
            body: vec![body.init("r", None, body.name("x"))],
        }),
        l2.expr(ExprKind::Call(CallNode {
            name: l2.token("add"),
            args: vec![l2.number("1"), l2.number("2")],
        })),
        l3.expr(ExprKind::Call(CallNode {
            name: l3.token("add"),
            args: vec![l3.number("1"), l3.string("\"x\"")],
        })),
    ];
    let (exprs, scope, diags) = analyse(&root);
    let add = scope.get_fn("add").unwrap();
    assert!(matches!(add.ty, Type::Int));
    assert_eq!(add.args.len(), 2);
    assert!(matches!(add.args[0], Type::Int));
    assert!(matches!(scope.get_fn_type("add"), Type::Int));
    assert!(matches!(scope.get_fn_type("sub"), Type::Error));
    assert!(scope.get("r").is_none());
    assert!(scope.get("x").is_none());
    match &exprs[0] {
        Expr::Fn { name, ty, args, exprs, context } => {
            assert_eq!(name, "add");
            assert!(matches!(ty, Type::Int));
            assert_eq!(args.len(), 2);
            assert_eq!(args[0].0, "x");
            assert_eq!(args[1].0, "y");
            assert_eq!(context, "fn add(x: int, y: int) -> int { var r = x }");
            assert_eq!(
                exprs,
                &vec![Expr::Init {
                    name: "r".into(),
                    ty: Type::Int,
                    value: Value::Var { name: "x".into(), range: body.span("x") },
                    context: "var r = x".into()
                }]
            );
        }
        _ => panic!("the first statement is a function"),
    }
    assert_eq!(
        exprs[1],
        Expr::Call { name: "add".into(), args: vec![Value::Int(1), Value::Int(2)] }
    );
    assert_eq!(exprs[2], Expr::Error);
    assert_eq!(
        diags,
        vec![report(l3.span("\"x\""), "wrong argument type", "expected 'int', found 'str'")]
    );
}

#[test]
fn tuple_and_struct_access_diagnostics() {
    let code = "var t: (int, int) = (1, 2)\nvar s: (a: int, b: int) = (1, 2)\nvar x = t.a\nvar y = s.0\n";
    let l1 = line(code, "var t: (int, int) = (1, 2)");
    let l2 = line(code, "var s: (a: int, b: int) = (1, 2)");
    let l3 = line(code, "var x = t.a");
    let l4 = line(code, "var y = s.0");
    let pair = |l: &Line| ValueNode {
        span: l.span("(1, 2)"),
        kind: ValueKind::Tuple(vec![l.number("1"), l.number("2")]),
    };
    let root = vec![
        l1.init("t", Some(TypeNode::Tuple(vec![TypeNode::Int, TypeNode::Int])), pair(&l1)),
        l2.init(
            "s",
            Some(struct_type(vec![("a", TypeNode::Int), ("b", TypeNode::Int)])),
            pair(&l2),
        ),
        l3.init(
            "x",
            None,
            ValueNode {
                span: l3.span("t.a"),
                kind: ValueKind::TupleAccess {
                    name: l3.token("t"),
                    access: AccessNode::Member(Token { text: "a".into(), span: l3.last_span("a") }),
                },
            },
        ),
        l4.init(
            "y",
            None,
            ValueNode {
                span: l4.span("s.0"),
                kind: ValueKind::TupleAccess {
                    name: l4.token("s"),
                    access: AccessNode::Index(Token { text: "0".into(), span: l4.span("0") }),
                },
            },
        ),
    ];
    let (exprs, _, diags) = analyse(&root);
    assert_eq!(
        diags,
        vec![
            report(l3.span(".a"), "accessed tuple by member name", "use index instead: t.0"),
            report(l4.span(".0"), "accessed struct by index", "use member name instead: s.member"),
        ]
    );
    match &exprs[2] {
        Expr::Init { ty, value, .. } => {
            assert!(matches!(ty, Type::Error));
            assert_eq!(
                value,
                &Value::TupleAccess {
                    name: "t".into(),
                    access_mode: TupleAccessMode::Member("a".into()),
                    name_range: l3.span("t"),
                    access_range: l3.span(".a"),
                }
            );
        }
        _ => panic!("the third statement is an initialisation"),
    }
}

#[test]
fn list_remove_and_dict_access() {
    let code = "var xs: [int] = [1, 2, 3]\nxs --= 2\nvar d: [str -> int] = [\"a\": 1]\nvar v = d[\"a\"]\nvar w = d[1]\n";
    let l1 = line(code, "var xs: [int] = [1, 2, 3]");
    let l2 = line(code, "xs --= 2");
    let l3 = line(code, "var d: [str -> int] = [\"a\": 1]");
    let l4 = line(code, "var v = d[\"a\"]");
    let l5 = line(code, "var w = d[1]");
    let root = vec![
        l1.init(
            "xs",
            Some(TypeNode::List(Box::new(TypeNode::Int))),
            ValueNode {
                span: l1.span("[1, 2, 3]"),
                kind: ValueKind::List(vec![l1.number("1"), l1.number("2"), l1.number("3")]),
            },
        ),
        l2.expr(ExprKind::ListRemAssig { name: l2.token("xs"), value: l2.number("2") }),
        l3.init(
            "d",
            Some(TypeNode::Dict(Box::new((TypeNode::Str, TypeNode::Int)))),
            ValueNode {
                span: l3.span("[\"a\": 1]"),
                kind: ValueKind::Dict(vec![(l3.string("\"a\""), l3.number("1"))]),
            },
        ),
        l4.init(
            "v",
            None,
            ValueNode {
                span: l4.span("d[\"a\"]"),
                kind: ValueKind::ListAccess {
                    name: l4.token("d"),
                    key: Box::new(l4.string("\"a\"")),
                },
            },
        ),
        l5.init(
            "w",
            None,
            ValueNode {
                span: l5.span("d[1]"),
                kind: ValueKind::ListAccess { name: l5.token("d"), key: Box::new(l5.number("1")) },
            },
        ),
    ];
    let (exprs, scope, diags) = analyse(&root);
    assert_eq!(
        exprs[1],
        Expr::Assig {
            name: "xs".into(),
            value: Value::Op {
                op: Op::ListRemoveAll(Box::new(("xs".into(), Value::Int(2)))),
                range: l2.span("2"),
            },
            context: "xs --= 2".into(),
        }
    );
    assert_eq!(
        exprs[3],
        Expr::Init {
            name: "v".into(),
            ty: Type::Int,
            value: Value::ListAccess {
                name: "d".into(),
                access_mode: ListAccessMode::Dict(Box::new(Value::Str("a".into()))),
                access_type: Type::Int,
                name_range: l4.span("d"),
                access_range: l4.span("[\"a\"]"),
            },
            context: "var v = d[\"a\"]".into(),
        }
    );
    assert_eq!(exprs[4], Expr::Error);
    assert!(matches!(scope.get("v"), Some(Type::Int)));
    assert!(scope.get("w").is_none());
    assert_eq!(diags, vec![report(l5.span("[1]"), "wrong access type", "expected str found int")]);
}
