//! Laws of the analysis, each proved from the definitions.

use crate::diagnostic::{none, DiagnosticView};
use crate::infer::{infer, infer_items};
use crate::nodes::{ExprKind, ExprNode, Token, TypeNode, ValueNode};
use crate::diagnostic::ParseErr;
use crate::parser::{
    assignable, init_type, lower_expr, lower_exprs, lower_type, parse_post, removable,
};
use crate::tree::Main;
use crate::scope::ScopeView;
use crate::tree::{
    items_text, members_text, shorter, type_equiv, type_text, Connective, ExprView,
    TypeView, ValueView,
};
use crate::values::{
    comparable, connect, lower_list_access, lower_value, lower_values, mismatch_report,
};
use std::ops::Range;
use vstd::prelude::*;

verus! {

/// Every type is interchangeable with itself.
pub proof fn lemma_equiv_reflexive(t: TypeView)
    ensures
        type_equiv(t, t),
    decreases t,
{
    match t {
        TypeView::List(item) => lemma_equiv_reflexive(*item),
        TypeView::Dict(key, value) => {
            lemma_equiv_reflexive(*key);
            lemma_equiv_reflexive(*value);
        },
        TypeView::Tuple(items) => {
            assert forall|i: int| 0 <= i < items.len() implies type_equiv(
                #[trigger] items[i],
                items[i],
            ) by {
                lemma_equiv_reflexive(items[i]);
            }
        },
        TypeView::Struct(members) => {
            assert forall|i: int| 0 <= i < members.len() implies type_equiv(
                (#[trigger] members[i]).1,
                members[i].1,
            ) by {
                lemma_equiv_reflexive(members[i].1);
            }
        },
        _ => {},
    }
}

/// Interchangeability does not depend on the side: what fits one way fits the other way.
pub proof fn lemma_equiv_symmetric(a: TypeView, b: TypeView)
    ensures
        type_equiv(a, b) == type_equiv(b, a),
    decreases a,
{
    match a {
        TypeView::List(x) => {
            if b is List {
                lemma_equiv_symmetric(*x, *b->List_0);
            }
        },
        TypeView::Dict(xk, xv) => {
            if b is Dict {
                lemma_equiv_symmetric(*xk, *b->Dict_0);
                lemma_equiv_symmetric(*xv, *b->Dict_1);
            }
        },
        TypeView::Tuple(x) => {
            match b {
                TypeView::Tuple(y) => {
                    assert forall|i: int| 0 <= i < shorter(x.len(), y.len()) implies type_equiv(
                        x[i],
                        y[i],
                    ) == type_equiv(y[i], x[i]) by {
                        lemma_equiv_symmetric(x[i], y[i]);
                    }
                    if type_equiv(a, b) {
                        assert forall|i: int| 0 <= i < y.len() implies type_equiv(
                            #[trigger] y[i],
                            x[i],
                        ) by {
                            assert(type_equiv(x[i], y[i]));
                        }
                    }
                    if type_equiv(b, a) {
                        assert forall|i: int| 0 <= i < x.len() implies type_equiv(
                            #[trigger] x[i],
                            y[i],
                        ) by {
                            assert(type_equiv(y[i], x[i]));
                        }
                    }
                },
                TypeView::Struct(y) => {
                    let n = shorter(x.len(), y.len());
                    assert forall|i: int| 0 <= i < n implies type_equiv(x[i], y[i].1)
                        == type_equiv(y[i].1, x[i]) by {
                        lemma_equiv_symmetric(x[i], y[i].1);
                    }
                    if type_equiv(a, b) {
                        assert forall|i: int| 0 <= i < n implies type_equiv(
                            (#[trigger] y[i]).1,
                            x[i],
                        ) by {
                            assert(type_equiv(x[i], y[i].1));
                        }
                    }
                    if type_equiv(b, a) {
                        assert forall|i: int| 0 <= i < n implies type_equiv(
                            #[trigger] x[i],
                            y[i].1,
                        ) by {
                            assert(type_equiv(y[i].1, x[i]));
                        }
                    }
                },
                _ => {},
            }
        },
        TypeView::Struct(x) => {
            match b {
                TypeView::Struct(y) => {
                    assert forall|i: int| 0 <= i < shorter(x.len(), y.len()) implies type_equiv(
                        x[i].1,
                        y[i].1,
                    ) == type_equiv(y[i].1, x[i].1) by {
                        lemma_equiv_symmetric(x[i].1, y[i].1);
                    }
                    if type_equiv(a, b) {
                        assert forall|i: int| 0 <= i < y.len() implies (#[trigger] y[i]).0
                            == x[i].0 && type_equiv(y[i].1, x[i].1) by {
                            assert(x[i].0 == y[i].0 && type_equiv(x[i].1, y[i].1));
                        }
                    }
                    if type_equiv(b, a) {
                        assert forall|i: int| 0 <= i < x.len() implies (#[trigger] x[i]).0
                            == y[i].0 && type_equiv(x[i].1, y[i].1) by {
                            assert(y[i].0 == x[i].0 && type_equiv(y[i].1, x[i].1));
                        }
                    }
                },
                TypeView::Tuple(y) => {
                    let n = shorter(x.len(), y.len());
                    assert forall|i: int| 0 <= i < n implies type_equiv(x[i].1, y[i])
                        == type_equiv(y[i], x[i].1) by {
                        lemma_equiv_symmetric(x[i].1, y[i]);
                    }
                    if type_equiv(a, b) {
                        assert forall|i: int| 0 <= i < n implies type_equiv(
                            #[trigger] y[i],
                            x[i].1,
                        ) by {
                            assert(type_equiv(x[i].1, y[i]));
                        }
                    }
                    if type_equiv(b, a) {
                        assert forall|i: int| 0 <= i < n implies type_equiv(
                            (#[trigger] x[i]).1,
                            y[i],
                        ) by {
                            assert(type_equiv(y[i], x[i].1));
                        }
                    }
                },
                _ => {},
            }
        },
        _ => {},
    }
}

/// The types of the fields of a struct, in order.
pub open spec fn field_types(members: Seq<(Seq<char>, TypeView)>) -> Seq<TypeView> {
    Seq::new(members.len(), |i: int| members[i].1)
}

/// A struct type and the tuple of its field types, in order, are
/// interchangeable, whichever of the two is declared.
pub proof fn lemma_struct_fits_its_tuple(members: Seq<(Seq<char>, TypeView)>)
    ensures
        type_equiv(TypeView::Struct(members), TypeView::Tuple(field_types(members))),
        type_equiv(TypeView::Tuple(field_types(members)), TypeView::Struct(members)),
{
    let tuple = field_types(members);
    assert forall|i: int| 0 <= i < shorter(members.len(), tuple.len()) implies type_equiv(
        (#[trigger] members[i]).1,
        tuple[i],
    ) by {
        lemma_equiv_reflexive(members[i].1);
    }
    assert(type_equiv(TypeView::Struct(members), TypeView::Tuple(tuple)));
    lemma_equiv_symmetric(TypeView::Struct(members), TypeView::Tuple(tuple));
}

/// A struct of two fields does not fit the tuple of its field types in the
/// other order, unless the two field types are themselves interchangeable.
pub proof fn lemma_reordered_fields_do_not_fit(
    a: Seq<char>,
    t1: TypeView,
    b: Seq<char>,
    t2: TypeView,
)
    requires
        !type_equiv(t1, t2),
    ensures
        !type_equiv(TypeView::Struct(seq![(a, t1), (b, t2)]), TypeView::Tuple(seq![t2, t1])),
        !type_equiv(TypeView::Tuple(seq![t2, t1]), TypeView::Struct(seq![(a, t1), (b, t2)])),
{
    let members = seq![(a, t1), (b, t2)];
    let tuple = seq![t2, t1];
    assert(members[0].1 == t1 && tuple[0] == t2);
    assert(0 <= 0 < shorter(members.len(), tuple.len()));
    assert(TypeView::Struct(members)->Struct_0 == members);
    lemma_equiv_symmetric(TypeView::Struct(members), TypeView::Tuple(tuple));
}

/// A variable declared with a struct type is initialised by, and assigned, a
/// value whose type is the tuple of the field types; and one declared with
/// that tuple, a value of the struct type.
pub proof fn lemma_struct_and_tuple_are_assigned(
    name: Token,
    annotation: TypeNode,
    v: ValueView,
    span: Range<usize>,
    scope: ScopeView,
    members: Seq<(Seq<char>, TypeView)>,
)
    requires
        (infer(v, scope).0 == TypeView::Tuple(field_types(members)) && lower_type(
            annotation,
            scope,
        ).0 == TypeView::Struct(members)) || (infer(v, scope).0 == TypeView::Struct(members)
            && lower_type(annotation, scope).0 == TypeView::Tuple(field_types(members))),
    ensures
        init_type(Some(annotation), v, span, scope).0 == Some(lower_type(annotation, scope).0),
        scope.vars.contains_key(name.text@) && scope.vars[name.text@] == lower_type(
            annotation,
            scope,
        ).0 ==> assignable(name, v, span, scope).0,
{
    lemma_struct_fits_its_tuple(members);
}

/// A variable declared a number is initialised by, and assigned, a value
/// that is inferred an integer; and one declared an integer, a number.
pub proof fn lemma_numbers_are_assigned(
    name: Token,
    annotation: TypeNode,
    v: ValueView,
    span: Range<usize>,
    scope: ScopeView,
)
    requires
        (infer(v, scope).0 is Int && lower_type(annotation, scope).0 is Num) || (infer(
            v,
            scope,
        ).0 is Num && lower_type(annotation, scope).0 is Int),
    ensures
        init_type(Some(annotation), v, span, scope).0 == Some(lower_type(annotation, scope).0),
        scope.vars.contains_key(name.text@) && scope.vars[name.text@] == lower_type(
            annotation,
            scope,
        ).0 ==> assignable(name, v, span, scope).0,
{
}

/// The kind of a type: what remains when its parts are forgotten.
pub open spec fn kind(t: TypeView) -> int {
    match t {
        TypeView::Int => 0,
        TypeView::Num => 1,
        TypeView::Bool => 2,
        TypeView::Char => 3,
        TypeView::Str => 4,
        TypeView::Tuple(_) => 5,
        TypeView::Struct(_) => 6,
        TypeView::List(_) => 7,
        TypeView::Dict(_, _) => 8,
        TypeView::Void => 9,
        TypeView::Custom(_) => 10,
        TypeView::Error => 11,
    }
}

/// An integer and a number are interchangeable, both ways. Apart from that
/// and from a struct with a tuple, types of different kinds never are.
pub proof fn lemma_numeric_widening(a: TypeView, b: TypeView)
    ensures
        type_equiv(TypeView::Int, TypeView::Num),
        type_equiv(TypeView::Num, TypeView::Int),
        type_equiv(a, b) && kind(a) != kind(b) ==> (a is Int && b is Num) || (a is Num && b is Int)
            || (a is Struct && b is Tuple) || (a is Tuple && b is Struct),
{
}

/// A check that is handed the error type reports nothing: the error was
/// reported where it arose.
pub proof fn lemma_error_type_is_silent(
    expected: TypeView,
    found: TypeView,
    range: Range<usize>,
    header: Seq<char>,
    body: Seq<char>,
    connective: Connective,
    l: ValueView,
    r: ValueView,
)
    requires
        expected is Error || found is Error,
    ensures
        mismatch_report(expected, found, range, header, body) == none(),
        comparable(expected, found, range).1 == none(),
        !comparable(expected, found, range).0,
        connect(connective, l, r, expected, found, range).0 is Error,
        expected is Error || expected is Bool ==> connect(
            connective,
            l,
            r,
            expected,
            found,
            range,
        ).1 == none(),
{
}

/// The error value has the error type, and inferring it reports nothing.
pub proof fn lemma_error_value_is_silent(scope: ScopeView)
    ensures
        infer(ValueView::Error, scope).0 is Error,
        infer(ValueView::Error, scope).1 == none(),
{
}

/// The value node of a statement that holds one.
pub open spec fn value_of(e: ExprNode) -> Option<ValueNode> {
    match e.kind {
        ExprKind::Init { name, ty, value } => Some(value),
        ExprKind::Assig { name, value } => Some(value),
        ExprKind::OpAssig { operator, name, value } => Some(value),
        ExprKind::ListRemAssig { name, value } => Some(value),
        _ => None,
    }
}

/// A statement whose value lowers to the error value is the error statement,
/// leaves the scope as it was, and reports nothing beyond what lowering the
/// value reported.
pub proof fn lemma_error_value_ends_statement(e: ExprNode, scope: ScopeView)
    requires
        value_of(e) is Some,
        lower_value(value_of(e)->0, scope).0 is Error,
    ensures
        lower_expr(e, scope).expr is Error,
        lower_expr(e, scope).scope == scope,
        lower_expr(e, scope).diags == lower_value(value_of(e)->0, scope).1,
{
}

/// A value whose inferred type is the error type is not assigned, not used to
/// initialise an annotated variable and not removed from a list where the
/// other type is not the error type too, and the refusal reports nothing
/// beyond what inference reported.
pub proof fn lemma_error_type_ends_statement(
    name: Token,
    ty: TypeNode,
    v: ValueView,
    span: Range<usize>,
    scope: ScopeView,
)
    requires
        infer(v, scope).0 is Error,
    ensures
        scope.vars.contains_key(name.text@) && !(scope.vars[name.text@] is Error) ==> !assignable(
            name,
            v,
            span,
            scope,
        ).0 && assignable(name, v, span, scope).1 == infer(v, scope).1,
        scope.vars.contains_key(name.text@) && scope.vars[name.text@] is List && !(
        *scope.vars[name.text@]->List_0 is Error) ==> !removable(name, v, span, scope).0
            && removable(name, v, span, scope).1 == infer(v, scope).1,
        !(lower_type(ty, scope).0 is Error) ==> init_type(Some(ty), v, span, scope).0 is None
            && init_type(Some(ty), v, span, scope).1 == lower_type(ty, scope).1 + infer(
            v,
            scope,
        ).1,
{
    assert(infer(v, scope).1 + none() =~= infer(v, scope).1);
    assert(lower_type(ty, scope).1 + infer(v, scope).1 + none() =~= lower_type(ty, scope).1
        + infer(v, scope).1);
}

/// A dictionary access whose key has the error type reports nothing beyond
/// what lowering the key and inferring its type reported.
pub proof fn lemma_error_key_is_silent(name: Token, key: ValueNode, scope: ScopeView)
    requires
        scope.vars.contains_key(name.text@),
        scope.vars[name.text@] is Dict,
        infer(lower_value(key, scope).0, scope).0 is Error,
    ensures
        lower_list_access(name, key, scope).1 == lower_value(key, scope).1 + infer(
            lower_value(key, scope).0,
            scope,
        ).1,
        !(*scope.vars[name.text@]->Dict_0 is Error) ==> lower_list_access(
            name,
            key,
            scope,
        ).0 is Error,
{
    let k = lower_value(key, scope);
    let kt = infer(k.0, scope);
    assert(k.1 + kt.1 + none() =~= k.1 + kt.1);
}

/// A list access never lowers its key, so a key that is no integer literal,
/// whatever its type would be, gives one report and no other.
pub proof fn lemma_list_key_gives_one_report(name: Token, key: ValueNode, scope: ScopeView)
    requires
        scope.vars.contains_key(name.text@),
        scope.vars[name.text@] is List,
    ensures
        lower_list_access(name, key, scope).1.len() <= 1,
{
}

/// The name that a checked statement binds in the variable table, with its type.
pub open spec fn bound_by(e: ExprView) -> Option<(Seq<char>, TypeView)> {
    match e {
        ExprView::Init { name, ty, value, context } => Some((name, ty)),
        ExprView::Decl { name, ty, context } => Some((name, ty)),
        ExprView::Typedef { name, ty } => Some((name, ty)),
        _ => None,
    }
}

/// A statement changes the variable table by what it binds, and by nothing else:
/// after an initialisation or a declaration of `name` with type `t`, the
/// scope holds `name` with `t`.
pub proof fn lemma_statement_binds(e: ExprNode, scope: ScopeView)
    ensures
        lower_expr(e, scope).scope.vars == (match bound_by(lower_expr(e, scope).expr) {
            Some((name, ty)) => scope.vars.insert(name, ty),
            None => scope.vars,
        }),
        lower_expr(e, scope).scope.text == scope.text,
        lower_expr(e, scope).scope.path == scope.path,
{
    let step = lower_expr(e, scope);
    match e.kind {
        ExprKind::Call(call) => {},
        _ => {},
    }
}

/// What the body of a function binds or registers does not reach the scope
/// around the function: a function definition registers its own signature
/// there, and no statement but a function definition changes the functions.
pub proof fn lemma_function_body_does_not_leak(e: ExprNode, scope: ScopeView)
    ensures
        match e.kind {
            ExprKind::Fn { name, ty, params, body } => {
                &&& lower_expr(e, scope).scope.vars == scope.vars
                &&& lower_expr(e, scope).scope.funcs.dom() == scope.funcs.dom().insert(name.text@)
                &&& forall|other: Seq<char>|
                    other != name.text@ && scope.funcs.contains_key(other) ==> lower_expr(
                        e,
                        scope,
                    ).scope.funcs[other] == scope.funcs[other]
            },
            _ => lower_expr(e, scope).scope.funcs == scope.funcs,
        },
{
    match e.kind {
        ExprKind::Fn { name, ty, params, body } => {
            let step = lower_expr(e, scope);
            assert(step.scope.funcs.dom() =~= scope.funcs.dom().insert(name.text@));
        },
        _ => {},
    }
}

/// What a statement of a program binds stays bound to the end of the
/// analysis, unless a later statement of the program binds the same name.
pub proof fn lemma_binding_stays(
    nodes: Seq<ExprNode>,
    n: nat,
    scope: ScopeView,
    i: int,
    name: Seq<char>,
    ty: TypeView,
)
    requires
        0 <= i < n <= nodes.len(),
        bound_by(lower_exprs(nodes, n, scope).0[i]) == Some((name, ty)),
        forall|j: int|
            i < j < n ==> match bound_by(#[trigger] lower_exprs(nodes, n, scope).0[j]) {
                Some((other, _)) => other != name,
                None => true,
            },
    ensures
        lower_exprs(nodes, n, scope).1.vars.contains_key(name),
        lower_exprs(nodes, n, scope).1.vars[name] == ty,
    decreases n,
{
    let all = lower_exprs(nodes, n, scope);
    let before = lower_exprs(nodes, (n - 1) as nat, scope);
    let step = lower_expr(nodes[n - 1], before.1);
    lemma_statement_binds(nodes[n - 1], before.1);
    lemma_exprs_len(nodes, (n - 1) as nat, scope);
    assert(all.0[n - 1] == step.expr);
    if i == n - 1 {
    } else {
        assert(all.0[i] == before.0[i]);
        assert forall|j: int| i < j < n - 1 implies match bound_by(#[trigger] before.0[j]) {
            Some((other, _)) => other != name,
            None => true,
        } by {
            assert(all.0[j] == before.0[j]);
        }
        lemma_binding_stays(nodes, (n - 1) as nat, scope, i, name, ty);
    }
}

/// A list of values is lowered value by value: the result has one value for
/// each node, and each is the lowering of its node.
pub proof fn lemma_values_are_lowered_one_by_one(
    items: Seq<ValueNode>,
    n: nat,
    scope: ScopeView,
    i: int,
)
    requires
        0 <= i < n <= items.len(),
    ensures
        lower_values(items, n, scope).0.len() == n,
        lower_values(items, n, scope).0[i] == lower_value(items[i], scope).0,
    decreases n,
{
    if n > 0 {
        lemma_values_len(items, (n - 1) as nat, scope);
        if i < n - 1 {
            lemma_values_are_lowered_one_by_one(items, (n - 1) as nat, scope, i);
        }
    }
}

/// Lowering a list of values gives one value for each node.
pub proof fn lemma_values_len(items: Seq<ValueNode>, n: nat, scope: ScopeView)
    requires
        n <= items.len(),
    ensures
        lower_values(items, n, scope).0.len() == n,
    decreases n,
{
    if n > 0 {
        lemma_values_len(items, (n - 1) as nat, scope);
    }
}

/// The type of a tuple is inferred element by element: it has one element
/// type for each element, and each is the inferred type of its element.
pub proof fn lemma_tuple_is_inferred_one_by_one(
    items: Seq<ValueView>,
    n: nat,
    scope: ScopeView,
    i: int,
)
    requires
        0 <= i < n <= items.len(),
    ensures
        infer_items(items, n, scope).0.len() == n,
        infer_items(items, n, scope).0[i] == infer(items[i], scope).0,
    decreases n,
{
    if n > 0 {
        lemma_items_len(items, (n - 1) as nat, scope);
        if i < n - 1 {
            lemma_tuple_is_inferred_one_by_one(items, (n - 1) as nat, scope, i);
        }
    }
}

/// Inferring the element types of a tuple gives one type for each element.
pub proof fn lemma_items_len(items: Seq<ValueView>, n: nat, scope: ScopeView)
    requires
        n <= items.len(),
    ensures
        infer_items(items, n, scope).0.len() == n,
    decreases n,
{
    if n > 0 {
        lemma_items_len(items, (n - 1) as nat, scope);
    }
}

/// Statements are analysed in source order, each in the scope that the
/// statements before it left.
pub proof fn lemma_statements_are_analysed_in_order(
    nodes: Seq<ExprNode>,
    n: nat,
    scope: ScopeView,
    i: int,
)
    requires
        0 <= i < n <= nodes.len(),
    ensures
        lower_exprs(nodes, n, scope).0.len() == n,
        lower_exprs(nodes, n, scope).0[i] == lower_expr(
            nodes[i],
            lower_exprs(nodes, i as nat, scope).1,
        ).expr,
    decreases n,
{
    lemma_exprs_len(nodes, (n - 1) as nat, scope);
    if i < n - 1 {
        lemma_statements_are_analysed_in_order(nodes, (n - 1) as nat, scope, i);
    }
}

/// The analysis gives one checked statement for each statement.
pub proof fn lemma_exprs_len(nodes: Seq<ExprNode>, n: nat, scope: ScopeView)
    requires
        n <= nodes.len(),
    ensures
        lower_exprs(nodes, n, scope).0.len() == n,
    decreases n,
{
    if n > 0 {
        lemma_exprs_len(nodes, (n - 1) as nat, scope);
    }
}

/// The analysis is a function of the program: two runs on the same program,
/// file and mode give the same checked statements, or both refuse it, and
/// report the same.
pub proof fn lemma_analysis_is_deterministic(
    root: Seq<ExprNode>,
    path: Seq<char>,
    text: Seq<char>,
    debug: bool,
    before: Seq<DiagnosticView>,
    first: Result<Main, ParseErr>,
    first_reports: Seq<DiagnosticView>,
    second: Result<Main, ParseErr>,
    second_reports: Seq<DiagnosticView>,
)
    requires
        parse_post(root, path, text, debug, before, first, first_reports),
        parse_post(root, path, text, debug, before, second, second_reports),
    ensures
        first_reports == second_reports,
        first is Ok <==> second is Ok,
        first is Ok ==> first->Ok_0@ == second->Ok_0@,
{
}

/// A tuple of one element is written as that element in parentheses, and an
/// empty tuple or struct as `()`.
pub proof fn lemma_small_tuple_text(t: TypeView)
    ensures
        type_text(TypeView::Tuple(seq![t])) == "("@ + type_text(t) + ")"@,
        type_text(TypeView::Tuple(Seq::empty())) == "("@ + ")"@,
        type_text(TypeView::Struct(Seq::empty())) == "("@ + ")"@,
{
    let one = seq![t];
    assert(one[0] == t);
    assert(items_text(one, 1) == type_text(t));
    assert(items_text(Seq::<TypeView>::empty(), 0) == Seq::<char>::empty());
    assert(members_text(Seq::<(Seq<char>, TypeView)>::empty(), 0) == Seq::<char>::empty());
    assert("("@ + Seq::<char>::empty() + ")"@ =~= "("@ + ")"@);
}

} // verus!
