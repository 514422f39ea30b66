use polyglot_parser::diagnostic::{emit, Diagnostic, ParseErr};
use polyglot_parser::infer::{check_inferable, parse_type_from_value};
use polyglot_parser::nodes::{
    AccessNode, CallNode, CmpKind, CmpNode, ExprKind, ExprNode, LogicOperand, Token, TypeNode,
    ValueKind, ValueNode,
};
use polyglot_parser::parser::{parse_expr, parse_type};
use polyglot_parser::scope::Scope;
use polyglot_parser::tree::{
    Bool, Cmp, Connective, Expr, Fn, Op, Operator, Relation, TupleAccessMode, Type, Value,
};
use polyglot_parser::values::{parse_comparison, parse_value};
use std::ops::Range;

fn token(text: &str, start: usize) -> Token {
    Token { text: text.into(), span: start..start + text.len() }
}

fn node(text: &str, start: usize, kind: ValueKind) -> ValueNode {
    ValueNode { span: start..start + text.len(), kind }
}

fn number(text: &str, start: usize) -> ValueNode {
    node(text, start, ValueKind::Int(text.into()))
}

fn string(text: &str, start: usize) -> ValueNode {
    node(text, start, ValueKind::Str(text.into()))
}

fn name(text: &str, start: usize) -> ValueNode {
    node(text, start, ValueKind::Name(text.into()))
}

fn truth(text: &str, start: usize) -> ValueNode {
    node(text, start, ValueKind::Bool(text.into()))
}

fn statement(text: &str, kind: ExprKind) -> ExprNode {
    ExprNode { span: 0..text.len(), text: text.into(), kind }
}

fn report(range: Range<usize>, header: &str, body: &str) -> Diagnostic {
    Diagnostic { range, header: header.into(), body: body.into() }
}

fn scope_with(vars: Vec<(&str, Type)>) -> Scope {
    Scope::new(vars.into_iter().map(|(n, t)| (n.into(), t)).collect(), vec![])
}

fn lower(value: &ValueNode, scope: &Scope) -> (Value, Vec<Diagnostic>) {
    let mut diags = Vec::new();
    let v = parse_value(value, scope, &mut diags);
    (v, diags)
}

fn run(statement: &ExprNode, scope: &mut Scope) -> (Expr, Vec<Diagnostic>) {
    let mut diags = Vec::new();
    let e = parse_expr(statement, scope, &mut diags);
    (e, diags)
}

fn type_of(value: &Value, scope: &Scope) -> (Type, Vec<Diagnostic>) {
    let mut diags = Vec::new();
    let t = parse_type_from_value(value, scope, &mut diags);
    (t, diags)
}

#[test]
fn emit_appends_one_report() {
    let mut diags = vec![report(0..1, "first", "one")];
    let _witness: ParseErr = emit(&(3..7), "second", "two", &mut diags);
    assert_eq!(diags, vec![report(0..1, "first", "one"), report(3..7, "second", "two")]);
}

#[test]
fn witness_gives_each_error_value() {
    assert!(matches!(ParseErr.type_err(), Type::Error));
    assert_eq!(ParseErr.value_err(), Value::Error);
    assert_eq!(ParseErr.expr_err(), Expr::Error);
    assert_eq!(ParseErr.cmp_err(), Cmp::Error);
    assert!(!ParseErr._false());
    assert!(ParseErr._true());
}

#[test]
fn unknown_variable_is_reported_by_inference() {
    let scope = scope_with(vec![]);
    let (t, diags) = type_of(&Value::Var { name: "y".into(), range: 8..9 }, &scope);
    assert!(matches!(t, Type::Error));
    assert_eq!(diags, vec![report(8..9, "variable 'y' does not exist", "not declared")]);
}

#[test]
fn access_to_unknown_tuple_is_reported() {
    let scope = scope_with(vec![]);
    let value = Value::TupleAccess {
        name: "t".into(),
        access_mode: TupleAccessMode::Index(0),
        name_range: 4..5,
        access_range: 5..7,
    };
    let (t, diags) = type_of(&value, &scope);
    assert!(matches!(t, Type::Error));
    assert_eq!(diags, vec![report(4..5, "accessed invalid tuple/struct", "struct does not exist")]);
}

#[test]
fn missing_member_is_reported() {
    let scope = scope_with(vec![(
        "s",
        Type::Struct(vec![("a".into(), Type::Int), ("b".into(), Type::Str)]),
    )]);
    let access = |member: &str| Value::TupleAccess {
        name: "s".into(),
        access_mode: TupleAccessMode::Member(member.into()),
        name_range: 4..5,
        access_range: 5..7,
    };
    let (found, none) = type_of(&access("b"), &scope);
    assert!(matches!(found, Type::Str));
    assert!(none.is_empty());
    let (t, diags) = type_of(&access("c"), &scope);
    assert!(matches!(t, Type::Error));
    assert_eq!(diags, vec![report(5..7, "member 's.c' does not exist", "not declared")]);
}

#[test]
fn first_member_of_a_name_is_found() {
    let scope = scope_with(vec![(
        "s",
        Type::Struct(vec![("a".into(), Type::Bool), ("a".into(), Type::Str)]),
    )]);
    let value = Value::TupleAccess {
        name: "s".into(),
        access_mode: TupleAccessMode::Member("a".into()),
        name_range: 0..1,
        access_range: 1..3,
    };
    let (t, diags) = type_of(&value, &scope);
    assert!(matches!(t, Type::Bool));
    assert!(diags.is_empty());
}

#[test]
fn index_out_of_bounds_is_reported() {
    let scope = scope_with(vec![
        ("t", Type::Tuple(vec![Type::Int, Type::Str])),
        ("u", Type::Tuple(vec![Type::Int])),
    ]);
    let access = |name: &str, index: usize| Value::TupleAccess {
        name: name.into(),
        access_mode: TupleAccessMode::Index(index),
        name_range: 10..11,
        access_range: 11..13,
    };
    let (second, none) = type_of(&access("t", 1), &scope);
    assert!(matches!(second, Type::Str));
    assert!(none.is_empty());
    let (t, diags) = type_of(&access("t", 2), &scope);
    assert!(matches!(t, Type::Error));
    assert_eq!(
        diags,
        vec![report(
            10..13,
            "index out of bounds",
            "tuple has 2 elements, trying to access element number 3"
        )]
    );
    let (_, diags) = type_of(&access("u", 41), &scope);
    assert_eq!(
        diags,
        vec![report(
            10..13,
            "index out of bounds",
            "tuple has 1 element, trying to access element number 42"
        )]
    );
    let (_, diags) = type_of(&access("u", usize::MAX), &scope);
    assert_eq!(
        diags[0].body,
        format!("tuple has 1 element, trying to access element number {}", usize::MAX as u128 + 1)
    );
}

#[test]
fn list_removal_as_a_value_is_reported() {
    let scope = scope_with(vec![]);
    let value = Value::Op {
        op: Op::ListRemoveAll(Box::new(("xs".into(), Value::Int(2)))),
        range: 3..9,
    };
    let (t, diags) = type_of(&value, &scope);
    assert!(matches!(t, Type::Error));
    assert_eq!(
        diags,
        vec![report(3..9, "operation not permitted", "only use as expression, 'xs --= ...'")]
    );
}

#[test]
fn inference_follows_the_shape_of_a_value() {
    let scope = Scope::new(
        vec![("n".into(), Type::Num)],
        vec![("f".into(), Fn { ty: Type::Str, args: vec![] })],
    );
    let value = Value::Tuple(vec![
        Value::Num("1.5".into()),
        Value::Bool(Bool::Primitive(true)),
        Value::Char('c'),
        Value::Struct(vec![("k".into(), Value::Str("v".into()))]),
        Value::List(vec![Value::Int(1), Value::Int(2)]),
        Value::Dict(vec![(Value::Str("a".into()), Value::Int(1))]),
        Value::Parenthesis(Box::new(Value::Var { name: "n".into(), range: 0..1 })),
        Value::Op { op: Op::Mul(Box::new((Value::Int(2), Value::Str("x".into())))), range: 0..5 },
        Value::Call { name: "f".into(), args: vec![] },
        Value::Call { name: "g".into(), args: vec![] },
        Value::Cmp { cmp: Cmp::Error, range: 0..1 },
        Value::Error,
    ]);
    let (t, diags) = type_of(&value, &scope);
    assert!(diags.is_empty());
    assert_eq!(
        t.to_string(),
        "(num, bool, char, (k: str), [int], [str -> int], num, int, str, error, bool, error)"
    );
}

#[test]
fn values_without_a_first_element_have_no_type() {
    assert!(check_inferable(&Value::List(vec![Value::Int(1)])));
    assert!(!check_inferable(&Value::List(vec![])));
    assert!(!check_inferable(&Value::Dict(vec![])));
    assert!(check_inferable(&Value::Tuple(vec![])));
    assert!(check_inferable(&Value::Struct(vec![])));
    assert!(!check_inferable(&Value::Tuple(vec![Value::Int(1), Value::List(vec![])])));
    assert!(!check_inferable(&Value::Struct(vec![("a".into(), Value::Dict(vec![]))])));
    assert!(!check_inferable(&Value::Parenthesis(Box::new(Value::List(vec![])))));
    assert!(!check_inferable(&Value::Dict(vec![(Value::Int(1), Value::List(vec![]))])));
    let op = |lhs: Value, rhs: Value| Value::Op { op: Op::Add(Box::new((lhs, rhs))), range: 0..1 };
    assert!(!check_inferable(&op(Value::List(vec![]), Value::Int(1))));
    assert!(check_inferable(&op(Value::Int(1), Value::List(vec![]))));
    assert!(check_inferable(&Value::Call { name: "f".into(), args: vec![Value::List(vec![])] }));
}

#[test]
fn inference_reports_in_order() {
    let scope = scope_with(vec![]);
    let value = Value::Tuple(vec![
        Value::Var { name: "a".into(), range: 1..2 },
        Value::Int(1),
        Value::Var { name: "b".into(), range: 7..8 },
    ]);
    let (t, diags) = type_of(&value, &scope);
    assert_eq!(t.to_string(), "(error, int, error)");
    assert_eq!(
        diags,
        vec![
            report(1..2, "variable 'a' does not exist", "not declared"),
            report(7..8, "variable 'b' does not exist", "not declared"),
        ]
    );
}

#[test]
fn literals_are_lowered() {
    let scope = scope_with(vec![]);
    assert_eq!(lower(&number("-17", 0), &scope).0, Value::Int(-17));
    assert_eq!(
        lower(&node("2.50", 0, ValueKind::Num("2.50".into())), &scope).0,
        Value::Num("2.50".into())
    );
    assert_eq!(lower(&truth("true", 0), &scope).0, Value::Bool(Bool::Primitive(true)));
    assert_eq!(lower(&truth("false", 0), &scope).0, Value::Bool(Bool::Primitive(false)));
    assert_eq!(lower(&node("x", 0, ValueKind::Char("x".into())), &scope).0, Value::Char('x'));
    assert_eq!(lower(&string("\"hi there\"", 0), &scope).0, Value::Str("hi there".into()));
    assert_eq!(lower(&string("\"\"", 0), &scope).0, Value::Str("".into()));
    assert_eq!(
        lower(&name("abc", 4), &scope).0,
        Value::Var { name: "abc".into(), range: 4..7 }
    );
}

#[test]
fn composite_literals_keep_their_order() {
    let scope = scope_with(vec![]);
    let members = node(
        "(b: 1, a: 2)",
        0,
        ValueKind::Struct(vec![
            (token("b", 1), number("1", 4)),
            (token("a", 7), number("2", 10)),
        ]),
    );
    assert_eq!(
        lower(&members, &scope).0,
        Value::Struct(vec![("b".into(), Value::Int(1)), ("a".into(), Value::Int(2))])
    );
    let pairs = node(
        "[2: \"b\", 1: \"a\"]",
        0,
        ValueKind::Dict(vec![
            (number("2", 1), string("\"b\"", 4)),
            (number("1", 9), string("\"a\"", 12)),
        ]),
    );
    assert_eq!(
        lower(&pairs, &scope).0,
        Value::Dict(vec![
            (Value::Int(2), Value::Str("b".into())),
            (Value::Int(1), Value::Str("a".into())),
        ])
    );
    let list = node("[3, 1]", 0, ValueKind::List(vec![number("3", 1), number("1", 4)]));
    assert_eq!(lower(&list, &scope).0, Value::List(vec![Value::Int(3), Value::Int(1)]));
    let empty = node("()", 0, ValueKind::Tuple(vec![]));
    assert_eq!(lower(&empty, &scope).0, Value::Tuple(vec![]));
}

#[test]
fn operations_are_lowered_without_a_check() {
    let scope = scope_with(vec![]);
    let op = node(
        "1 ** \"x\"",
        2,
        ValueKind::Op {
            operator: Operator::Pow,
            lhs: Box::new(number("1", 2)),
            rhs: Box::new(string("\"x\"", 7)),
        },
    );
    let (v, diags) = lower(&op, &scope);
    assert_eq!(
        v,
        Value::Op {
            op: Op::Pow(Box::new((Value::Int(1), Value::Str("x".into())))),
            range: 2..10,
        }
    );
    assert!(diags.is_empty());
    let wrapped = node("(1)", 0, ValueKind::Parenthesis(Box::new(number("1", 1))));
    assert_eq!(lower(&wrapped, &scope).0, Value::Parenthesis(Box::new(Value::Int(1))));
}

fn list_access(container: &str, key: ValueNode) -> ValueNode {
    let end = key.span.end + 1;
    ValueNode {
        span: 0..end,
        kind: ValueKind::ListAccess { name: token(container, 0), key: Box::new(key) },
    }
}

#[test]
fn list_access_diagnostics() {
    let scope = scope_with(vec![
        ("xs", Type::List(Box::new(Type::Str))),
        ("n", Type::Int),
        ("c", Type::Custom("c".into())),
    ]);
    let (v, diags) = lower(&list_access("xs", number("12", 3)), &scope);
    assert_eq!(
        v,
        Value::ListAccess {
            name: "xs".into(),
            access_mode: polyglot_parser::tree::ListAccessMode::List(12),
            access_type: Type::Str,
            name_range: 0..2,
            access_range: 2..6,
        }
    );
    assert!(diags.is_empty());

    let (v, diags) = lower(&list_access("ys", number("0", 3)), &scope);
    assert_eq!(v, Value::Error);
    assert_eq!(
        diags,
        vec![report(0..2, "accessed invalid list/dictionary", "list/dictionary does not exist")]
    );

    let (v, diags) = lower(&list_access("n", number("0", 2)), &scope);
    assert_eq!(v, Value::Error);
    assert_eq!(
        diags,
        vec![report(0..1, "variable exists but is not a list/dictionary", "not a list/dictionary")]
    );

    let (v, diags) = lower(&list_access("c", number("0", 2)), &scope);
    assert_eq!(v, Value::Error);
    assert_eq!(diags[0].header, "variable exists but is not a list/dictionary");

    let (v, diags) = lower(&list_access("xs", number("-1", 3)), &scope);
    assert_eq!(v, Value::Error);
    assert_eq!(
        diags,
        vec![report(
            2..6,
            "negative index",
            "index is negative, lists can only be accessed with positive numbers"
        )]
    );

    let (v, diags) = lower(&list_access("xs", string("\"k\"", 3)), &scope);
    assert_eq!(v, Value::Error);
    assert_eq!(
        diags,
        vec![report(
            2..7,
            "accessing list as a dictionary",
            "use the index of the element you want to access instead: xs[0]"
        )]
    );
}

fn relation(relation: Relation, lhs: ValueNode, rhs: ValueNode) -> CmpNode {
    CmpNode {
        span: lhs.span.start..rhs.span.end,
        kind: CmpKind::Relation { relation, lhs: Box::new(lhs), rhs: Box::new(rhs) },
    }
}

fn compare(c: &CmpNode, scope: &Scope) -> (Cmp, Vec<Diagnostic>) {
    let mut diags = Vec::new();
    let r = parse_comparison(c, scope, &mut diags);
    (r, diags)
}

#[test]
fn each_relation_keeps_its_kind() {
    let scope = scope_with(vec![]);
    let pair = || Box::new((Value::Int(1), Value::Num("2.0".into())));
    let operands = || (number("1", 0), node("2.0", 4, ValueKind::Num("2.0".into())));
    let cases = vec![
        (Relation::Less, Cmp::Less(pair())),
        (Relation::Greater, Cmp::Greater(pair())),
        (Relation::LessEq, Cmp::LessEq(pair())),
        (Relation::GreatEq, Cmp::GreatEq(pair())),
        (Relation::Equal, Cmp::Equal(pair())),
        (Relation::NotEq, Cmp::NotEq(pair())),
    ];
    for (kind, expected) in cases {
        let (l, r) = operands();
        let (c, diags) = compare(&relation(kind, l, r), &scope);
        assert_eq!(c, expected);
        assert!(diags.is_empty());
    }
}

#[test]
fn comparison_diagnostics() {
    let scope = Scope::new(
        vec![
            ("t".into(), Type::Tuple(vec![Type::Int])),
            ("s".into(), Type::Struct(vec![("a".into(), Type::Int)])),
        ],
        vec![("f".into(), Fn { ty: Type::Void, args: vec![] })],
    );
    let (c, diags) =
        compare(&relation(Relation::Less, number("1", 0), string("\"a\"", 4)), &scope);
    assert_eq!(c, Cmp::Error);
    assert_eq!(
        diags,
        vec![report(
            0..7,
            "comparing values of different types",
            "only comparisons of the same type are allowed"
        )]
    );

    let (c, diags) = compare(&relation(Relation::Equal, name("t", 0), name("s", 5)), &scope);
    assert_eq!(c, Cmp::Error);
    assert_eq!(
        diags,
        vec![report(
            0..6,
            "comparing tuple/struct",
            "tuples/structs cannot be compared, create a function if you need it"
        )]
    );

    let call = |start: usize| {
        node("f()", start, ValueKind::Call(CallNode { name: token("f", start), args: vec![] }))
    };
    let (c, diags) = compare(&relation(Relation::Equal, call(0), call(7)), &scope);
    assert_eq!(c, Cmp::Error);
    assert_eq!(
        diags,
        vec![report(
            0..10,
            "trying to compare void expressions",
            "functions return void, which cannot be compared"
        )]
    );
}

#[test]
fn negation_needs_a_bool() {
    let scope = scope_with(vec![]);
    let not = |inner: ValueNode| CmpNode { span: 0..inner.span.end, kind: CmpKind::Not(Box::new(inner)) };
    let (c, diags) = compare(&not(truth("true", 1)), &scope);
    assert_eq!(c, Cmp::Not(Box::new(Value::Bool(Bool::Primitive(true)))));
    assert!(diags.is_empty());
    let (c, diags) = compare(&not(number("5", 1)), &scope);
    assert_eq!(c, Cmp::Error);
    assert_eq!(diags, vec![report(0..2, "wrong negation type", "type 'int' can't be negated")]);
}

#[test]
fn comparison_as_a_value_is_a_bool() {
    let scope = scope_with(vec![]);
    let c = relation(Relation::Less, number("1", 0), number("2", 4));
    let value = node("1 < 2", 0, ValueKind::Cmp(Box::new(c)));
    let (v, diags) = lower(&value, &scope);
    assert_eq!(
        v,
        Value::Bool(Bool::Cmp(Cmp::Less(Box::new((Value::Int(1), Value::Int(2))))))
    );
    assert!(diags.is_empty());
    assert!(matches!(type_of(&v, &scope).0, Type::Bool));
}

fn logic(connective: Connective, lhs: LogicOperand, rhs: ValueNode, text: &str) -> ValueNode {
    node(text, 0, ValueKind::Logic { connective, lhs: Box::new(lhs), rhs: Box::new(rhs) })
}

#[test]
fn connectives_join_bool_operands() {
    let scope = scope_with(vec![]);
    let and = logic(
        Connective::And,
        LogicOperand::Value(truth("true", 0)),
        truth("false", 8),
        "true && false",
    );
    let (v, diags) = lower(&and, &scope);
    assert_eq!(
        v,
        Value::Cmp {
            cmp: Cmp::And(Box::new((
                Value::Bool(Bool::Primitive(true)),
                Value::Bool(Bool::Primitive(false))
            ))),
            range: 0..13,
        }
    );
    assert!(diags.is_empty());

    let or = logic(
        Connective::Or,
        LogicOperand::Cmp(relation(Relation::Less, number("1", 0), number("2", 4))),
        truth("true", 9),
        "1 < 2 || true",
    );
    let (v, diags) = lower(&or, &scope);
    assert_eq!(
        v,
        Value::Cmp {
            cmp: Cmp::Or(Box::new((
                Value::Cmp {
                    cmp: Cmp::Less(Box::new((Value::Int(1), Value::Int(2)))),
                    range: 0..5
                },
                Value::Bool(Bool::Primitive(true))
            ))),
            range: 0..13,
        }
    );
    assert!(diags.is_empty());
}

#[test]
fn connectives_refuse_other_operands() {
    let scope = scope_with(vec![]);
    let left = logic(Connective::And, LogicOperand::Value(number("1", 0)), truth("true", 5), "1 && true");
    let (v, diags) = lower(&left, &scope);
    assert_eq!(v, Value::Cmp { cmp: Cmp::Error, range: 0..9 });
    assert_eq!(diags, vec![report(0..9, "wrong type", "expected 'bool', found 'int'")]);
    let right = logic(
        Connective::Or,
        LogicOperand::Value(truth("true", 0)),
        string("\"x\"", 8),
        "true || \"x\"",
    );
    let (v, diags) = lower(&right, &scope);
    assert_eq!(v, Value::Cmp { cmp: Cmp::Error, range: 0..11 });
    assert_eq!(diags, vec![report(0..11, "wrong type", "expected 'bool', found 'str'")]);
}

#[test]
fn unknown_type_name_is_reported() {
    let scope = scope_with(vec![("point", Type::Tuple(vec![Type::Int, Type::Int]))]);
    let mut diags = Vec::new();
    let known = parse_type(&TypeNode::Custom(token("point", 3)), &scope, &mut diags);
    assert_eq!(known.to_string(), "(int, int)");
    assert!(diags.is_empty());
    let unknown = parse_type(
        &TypeNode::List(Box::new(TypeNode::Custom(token("shape", 9)))),
        &scope,
        &mut diags,
    );
    assert_eq!(unknown.to_string(), "[error]");
    assert_eq!(diags, vec![report(9..14, "not declared type", "does not exist")]);
}

#[test]
fn every_type_node_is_lowered() {
    let scope = scope_with(vec![]);
    let mut diags = Vec::new();
    let node = TypeNode::Struct(vec![
        (token("a", 0), TypeNode::Int),
        (token("b", 0), TypeNode::Num),
        (token("c", 0), TypeNode::Bool),
        (token("d", 0), TypeNode::Char),
        (token("e", 0), TypeNode::Str),
        (token("f", 0), TypeNode::Void),
        (token("g", 0), TypeNode::Tuple(vec![TypeNode::Int, TypeNode::Str])),
        (token("h", 0), TypeNode::Dict(Box::new((TypeNode::Str, TypeNode::Int)))),
    ]);
    let t = parse_type(&node, &scope, &mut diags);
    assert_eq!(
        t.to_string(),
        "(a: int, b: num, c: bool, d: char, e: str, f: void, g: (int, str), h: [str -> int])"
    );
    assert!(diags.is_empty());
}

#[test]
fn declaration_binds_or_fails() {
    let mut scope = scope_with(vec![]);
    let decl = statement(
        "var a: [int]",
        ExprKind::Decl { name: token("a", 4), ty: TypeNode::List(Box::new(TypeNode::Int)) },
    );
    let (e, diags) = run(&decl, &mut scope);
    assert_eq!(
        e,
        Expr::Decl {
            name: "a".into(),
            ty: Type::List(Box::new(Type::Int)),
            context: "var a: [int]".into()
        }
    );
    assert!(diags.is_empty());
    assert_eq!(scope.get("a").unwrap().to_string(), "[int]");
    let bad = statement(
        "var b: shape",
        ExprKind::Decl { name: token("b", 4), ty: TypeNode::Custom(token("shape", 7)) },
    );
    let (e, diags) = run(&bad, &mut scope);
    assert_eq!(e, Expr::Error);
    assert_eq!(diags, vec![report(7..12, "not declared type", "does not exist")]);
    assert!(scope.get("b").is_none());
}

#[test]
fn typedef_shares_the_variable_table() {
    let mut scope = scope_with(vec![]);
    let typedef = statement(
        "type point = (int, int)",
        ExprKind::Typedef {
            name: token("point", 5),
            ty: TypeNode::Tuple(vec![TypeNode::Int, TypeNode::Int]),
        },
    );
    let (e, diags) = run(&typedef, &mut scope);
    assert_eq!(
        e,
        Expr::Typedef { name: "point".into(), ty: Type::Tuple(vec![Type::Int, Type::Int]) }
    );
    assert!(diags.is_empty());
    let decl = statement(
        "var p: point",
        ExprKind::Decl { name: token("p", 4), ty: TypeNode::Custom(token("point", 7)) },
    );
    let (e, _) = run(&decl, &mut scope);
    assert_eq!(
        e,
        Expr::Decl {
            name: "p".into(),
            ty: Type::Tuple(vec![Type::Int, Type::Int]),
            context: "var p: point".into()
        }
    );
}

#[test]
fn assignment_diagnostics() {
    let mut scope = scope_with(vec![("a", Type::Num)]);
    let assign = |target: &str, value: ValueNode, text: &str| {
        statement(text, ExprKind::Assig { name: token(target, 0), value })
    };
    let (e, diags) = run(&assign("a", number("3", 4), "a = 3"), &mut scope);
    assert_eq!(
        e,
        Expr::Assig { name: "a".into(), value: Value::Int(3), context: "a = 3".into() }
    );
    assert!(diags.is_empty());
    let (e, diags) = run(&assign("b", number("3", 4), "b = 3"), &mut scope);
    assert_eq!(e, Expr::Error);
    assert_eq!(diags, vec![report(0..1, "assignment to inexistent variable", "not declared")]);
    let (e, diags) = run(&assign("a", truth("true", 4), "a = true"), &mut scope);
    assert_eq!(e, Expr::Error);
    assert_eq!(
        diags,
        vec![report(4..8, "wrong assignment type", "expected 'num', found 'bool'")]
    );
}

#[test]
fn compound_assignment_stores_an_operation() {
    let mut scope = scope_with(vec![("a", Type::Int)]);
    let kinds = vec![
        (Operator::Add, "a += 2"),
        (Operator::Sub, "a -= 2"),
        (Operator::Mul, "a *= 2"),
        (Operator::Div, "a /= 2"),
        (Operator::Mod, "a %= 2"),
        (Operator::Pow, "a **= 2"),
    ];
    for (operator, text) in kinds {
        let at = text.len() - 1;
        let node = statement(
            text,
            ExprKind::OpAssig { operator, name: token("a", 0), value: number("2", at) },
        );
        let (e, diags) = run(&node, &mut scope);
        let operands =
            Box::new((Value::Var { name: "a".into(), range: at..at + 1 }, Value::Int(2)));
        let op = match operator {
            Operator::Add => Op::Add(operands),
            Operator::Sub => Op::Sub(operands),
            Operator::Mul => Op::Mul(operands),
            Operator::Div => Op::Div(operands),
            Operator::Mod => Op::Mod(operands),
            Operator::Pow => Op::Pow(operands),
        };
        assert_eq!(
            e,
            Expr::Assig {
                name: "a".into(),
                value: Value::Op { op, range: at..at + 1 },
                context: text.into()
            }
        );
        assert!(diags.is_empty());
    }
    let bad = statement(
        "a += \"x\"",
        ExprKind::OpAssig { operator: Operator::Add, name: token("a", 0), value: string("\"x\"", 5) },
    );
    let (e, diags) = run(&bad, &mut scope);
    assert_eq!(e, Expr::Error);
    assert_eq!(
        diags,
        vec![report(5..8, "wrong assignment type", "expected 'int', found 'str'")]
    );
    let missing = statement(
        "z += 1",
        ExprKind::OpAssig { operator: Operator::Add, name: token("z", 0), value: number("1", 5) },
    );
    let (e, diags) = run(&missing, &mut scope);
    assert_eq!(e, Expr::Error);
    assert_eq!(diags, vec![report(0..1, "assignment to inexistent variable", "not declared")]);
}

#[test]
fn list_removal_diagnostics() {
    let mut scope = scope_with(vec![("xs", Type::List(Box::new(Type::Int))), ("n", Type::Int)]);
    let remove = |target: &str, value: ValueNode, text: &str| {
        statement(text, ExprKind::ListRemAssig { name: token(target, 0), value })
    };
    let (e, diags) = run(&remove("ys", number("1", 7), "ys --= 1"), &mut scope);
    assert_eq!(e, Expr::Error);
    assert_eq!(diags, vec![report(0..2, "removing from inexistent list", "not declared")]);
    let (e, diags) = run(&remove("n", number("1", 6), "n --= 1"), &mut scope);
    assert_eq!(e, Expr::Error);
    assert_eq!(diags, vec![report(0..1, "variable exists but is not a list", "not a list")]);
    let (e, diags) = run(&remove("xs", string("\"a\"", 7), "xs --= \"a\""), &mut scope);
    assert_eq!(e, Expr::Error);
    assert_eq!(diags, vec![report(7..10, "wrong type", "expected 'int', found 'str'")]);
}

fn function(name_: &str, params: Vec<(&str, TypeNode)>, ty: Option<TypeNode>, body: Vec<ExprNode>) -> ExprNode {
    statement(
        "fn",
        ExprKind::Fn {
            name: token(name_, 3),
            ty,
            params: params.into_iter().map(|(n, t)| (token(n, 0), t)).collect(),
            body,
        },
    )
}

#[test]
fn function_diagnostics() {
    let mut scope = scope_with(vec![("outer", Type::Int)]);
    let body = vec![statement(
        "var r = outer",
        ExprKind::Init { name: token("r", 4), ty: None, value: name("outer", 8) },
    )];
    let (e, diags) = run(&function("f", vec![("x", TypeNode::Int)], None, body), &mut scope);
    match e {
        Expr::Fn { ty, exprs, .. } => {
            assert!(matches!(ty, Type::Void));
            assert_eq!(exprs.len(), 1);
            assert!(matches!(exprs[0], Expr::Init { ty: Type::Error, .. }));
        }
        _ => panic!("a function is lowered to a function"),
    }
    assert_eq!(
        diags,
        vec![report(8..13, "variable 'outer' does not exist", "not declared")]
    );
    assert!(scope.get("outer").is_some());

    let (e, diags) = run(&function("f", vec![], Some(TypeNode::Str), vec![]), &mut scope);
    assert_eq!(e, Expr::Error);
    assert_eq!(
        diags,
        vec![report(
            3..4,
            "function with the same name is defined",
            "already exists, try changing the name"
        )]
    );
    assert!(matches!(scope.get_fn_type("f"), Type::Str));
    assert!(scope.get_fn("f").unwrap().args.is_empty());
}

#[test]
fn function_body_sees_sibling_functions() {
    let mut scope = scope_with(vec![]);
    let (_, diags) = run(&function("one", vec![], Some(TypeNode::Int), vec![]), &mut scope);
    assert!(diags.is_empty());
    let call = node("one()", 8, ValueKind::Call(CallNode { name: token("one", 8), args: vec![] }));
    let body = vec![statement(
        "var r = one()",
        ExprKind::Init { name: token("r", 4), ty: None, value: call },
    )];
    let (e, diags) = run(&function("two", vec![], None, body), &mut scope);
    assert!(diags.is_empty());
    match e {
        Expr::Fn { exprs, .. } => assert_eq!(
            exprs,
            vec![Expr::Init {
                name: "r".into(),
                ty: Type::Int,
                value: Value::Call { name: "one".into(), args: vec![] },
                context: "var r = one()".into()
            }]
        ),
        _ => panic!("a function is lowered to a function"),
    }
}

#[test]
fn call_diagnostics() {
    let mut scope = Scope::new(
        vec![],
        vec![("f".into(), Fn { ty: Type::Int, args: vec![Type::Int, Type::Str] })],
    );
    let call = |target: &str, args: Vec<ValueNode>| {
        statement("call", ExprKind::Call(CallNode { name: token(target, 0), args }))
    };
    let (e, diags) = run(&call("g", vec![]), &mut scope);
    assert_eq!(e, Expr::Error);
    assert_eq!(diags, vec![report(0..1, "call to non declared function", "does not exist")]);

    let (e, diags) = run(&call("f", vec![number("1", 2)]), &mut scope);
    assert_eq!(e, Expr::Error);
    assert_eq!(diags, vec![report(0..1, "wrong number of arguments", "expected 2, found 1")]);

    let three = vec![number("1", 2), string("\"a\"", 5), number("3", 10)];
    let (e, diags) = run(&call("f", three), &mut scope);
    assert_eq!(e, Expr::Error);
    assert_eq!(diags, vec![report(0..1, "wrong number of arguments", "expected 2, found 3")]);

    let (e, diags) = run(&call("f", vec![string("\"a\"", 2), number("1", 7)]), &mut scope);
    assert_eq!(e, Expr::Error);
    assert_eq!(
        diags,
        vec![
            report(2..5, "wrong argument type", "expected 'int', found 'str'"),
            report(7..8, "wrong argument type", "expected 'str', found 'int'"),
        ]
    );
}

#[test]
fn unfinished_forms_are_refused() {
    let mut scope = scope_with(vec![]);
    for (kind, body) in vec![
        (ExprKind::Use, "imports are not supported"),
        (ExprKind::ModuleAccess, "module access is not supported"),
        (ExprKind::If, "conditionals are not supported"),
    ] {
        let (e, diags) = run(&statement("use a", kind), &mut scope);
        assert_eq!(e, Expr::Error);
        assert_eq!(diags, vec![report(0..5, "unimplemented", body)]);
    }
    for (kind, body) in vec![
        (ValueKind::ModuleAccess, "module access is not supported"),
        (ValueKind::TypeConversion, "type conversion is not supported"),
    ] {
        let (v, diags) = lower(&node("a::b", 3, kind), &scope);
        assert_eq!(v, Value::Error);
        assert_eq!(diags, vec![report(3..7, "unimplemented", body)]);
    }
}

#[test]
fn tuple_access_is_lowered_with_its_dot() {
    let scope = scope_with(vec![]);
    let index = node(
        "t.10",
        4,
        ValueKind::TupleAccess { name: token("t", 4), access: AccessNode::Index(token("10", 6)) },
    );
    assert_eq!(
        lower(&index, &scope).0,
        Value::TupleAccess {
            name: "t".into(),
            access_mode: TupleAccessMode::Index(10),
            name_range: 4..5,
            access_range: 5..8,
        }
    );
}
