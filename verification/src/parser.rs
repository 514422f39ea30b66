//! Lowering of type nodes and statements, and the analysis of a whole program.

use crate::diagnostic::{
    diagnostics_view, emit, expected_found, lemma_joined, none, one, text_expected_found,
    Diagnostic, DiagnosticView, ParseErr,
};
use crate::infer::{infer, inferable, parse_type_from_value};
use crate::nodes::{
    check_exprs, expr_node_wf, exprs_wf, ExprKind, ExprNode, GetRange, NameNodeUtils, Token,
    TypeNode,
};
use crate::scope::{bindings, param_types, Scope, ScopeView};
use crate::tree::{
    clone_members, equivalent, exprs_view, lemma_fn_expr_view, lemma_struct_view,
    lemma_tuple_view, make_op, members_view, type_equiv, type_text, types_view, Expr, ExprView,
    Fn, FnView, Main, Op, OpView, Type, TypeView, Value, ValueView,
};
use crate::values::{
    call_expr, lower_call, lower_value, mismatch_report, parse_call, parse_value, report_mismatch,
};
use std::ops::Range;
use vstd::prelude::*;
use vstd::string::*;

verus! {

/// The type that a type node denotes, and what lowering it reports.
///
/// A custom name denotes the type bound to it in the scope; where none is
/// bound, the error type.
pub open spec fn lower_type(n: TypeNode, scope: ScopeView) -> (TypeView, Seq<DiagnosticView>)
    decreases n, 0nat,
{
    match n {
        TypeNode::Int => (TypeView::Int, none()),
        TypeNode::Num => (TypeView::Num, none()),
        TypeNode::Bool => (TypeView::Bool, none()),
        TypeNode::Char => (TypeView::Char, none()),
        TypeNode::Str => (TypeView::Str, none()),
        TypeNode::Void => (TypeView::Void, none()),
        TypeNode::Tuple(items) => {
            let r = lower_types(items@, items@.len(), scope);
            (TypeView::Tuple(r.0), r.1)
        },
        TypeNode::Struct(members) => {
            let r = lower_fields(members@, members@.len(), scope);
            (TypeView::Struct(r.0), r.1)
        },
        TypeNode::List(item) => {
            let r = lower_type(*item, scope);
            (TypeView::List(Box::new(r.0)), r.1)
        },
        TypeNode::Dict(pair) => {
            let k = lower_type(pair.0, scope);
            let v = lower_type(pair.1, scope);
            (TypeView::Dict(Box::new(k.0), Box::new(v.0)), k.1 + v.1)
        },
        TypeNode::Custom(token) => if scope.vars.contains_key(token.text@) {
            (scope.vars[token.text@], none())
        } else {
            (TypeView::Error, one(token.span, "not declared type"@, "does not exist"@))
        },
    }
}

/// [`lower_type`] of the first `n` nodes of a list.
pub open spec fn lower_types(items: Seq<TypeNode>, n: nat, scope: ScopeView) -> (
    Seq<TypeView>,
    Seq<DiagnosticView>,
)
    decreases items, n,
{
    if n == 0 || n > items.len() {
        (Seq::empty(), none())
    } else {
        let before = lower_types(items, (n - 1) as nat, scope);
        let last = lower_type(items[n - 1], scope);
        (before.0.push(last.0), before.1 + last.1)
    }
}

/// [`lower_type`] of the first `n` named type nodes: struct members or parameters.
pub open spec fn lower_fields(members: Seq<(Token, TypeNode)>, n: nat, scope: ScopeView) -> (
    Seq<(Seq<char>, TypeView)>,
    Seq<DiagnosticView>,
)
    decreases members, n,
{
    if n == 0 || n > members.len() {
        (Seq::empty(), none())
    } else {
        let before = lower_fields(members, (n - 1) as nat, scope);
        let last = lower_type(members[n - 1].1, scope);
        (before.0.push((members[n - 1].0.text@, last.0)), before.1 + last.1)
    }
}

/// Whether a value may be assigned to a variable, and what is reported where
/// not: the variable must be declared, and the inferred type of the value
/// must be interchangeable with the declared type.
pub open spec fn assignable(
    name: Token,
    v: ValueView,
    value_span: Range<usize>,
    scope: ScopeView,
) -> (bool, Seq<DiagnosticView>) {
    if scope.vars.contains_key(name.text@) {
        let declared = scope.vars[name.text@];
        let inferred = infer(v, scope);
        if type_equiv(inferred.0, declared) {
            (true, inferred.1)
        } else {
            (
                false,
                inferred.1 + mismatch_report(
                    declared,
                    inferred.0,
                    value_span,
                    "wrong assignment type"@,
                    text_expected_found(type_text(declared), type_text(inferred.0)),
                ),
            )
        }
    } else {
        (false, one(name.span, "assignment to inexistent variable"@, "not declared"@))
    }
}

/// Whether all occurrences of a value may be removed from a list variable,
/// and what is reported where not: the variable must be declared and be a
/// list, and the value must have the type of its elements.
pub open spec fn removable(
    name: Token,
    v: ValueView,
    value_span: Range<usize>,
    scope: ScopeView,
) -> (bool, Seq<DiagnosticView>) {
    if !scope.vars.contains_key(name.text@) {
        (false, one(name.span, "removing from inexistent list"@, "not declared"@))
    } else {
        match scope.vars[name.text@] {
            TypeView::List(item) => {
                let inferred = infer(v, scope);
                if type_equiv(*item, inferred.0) {
                    (true, inferred.1)
                } else {
                    (
                        false,
                        inferred.1 + mismatch_report(
                            *item,
                            inferred.0,
                            value_span,
                            "wrong type"@,
                            text_expected_found(type_text(*item), type_text(inferred.0)),
                        ),
                    )
                }
            },
            _ => (false, one(name.span, "variable exists but is not a list"@, "not a list"@)),
        }
    }
}

/// The type that an initialisation gives its variable, or `None` where it is
/// refused, and what is reported: the annotated type where there is one,
/// which the inferred type of the value must be interchangeable with, and
/// else the inferred type.
pub open spec fn init_type(
    ty: Option<TypeNode>,
    v: ValueView,
    value_span: Range<usize>,
    scope: ScopeView,
) -> (Option<TypeView>, Seq<DiagnosticView>) {
    match ty {
        Some(tn) => {
            let t = lower_type(tn, scope);
            let vt = infer(v, scope);
            if type_equiv(t.0, vt.0) {
                (Some(t.0), t.1 + vt.1)
            } else {
                (
                    None,
                    t.1 + vt.1 + mismatch_report(
                        t.0,
                        vt.0,
                        value_span,
                        "wrong assignment type"@,
                        text_expected_found(type_text(t.0), type_text(vt.0)),
                    ),
                )
            }
        },
        None => {
            let vt = infer(v, scope);
            (Some(vt.0), vt.1)
        },
    }
}

/// What the analysis of one statement gives: the checked statement, the scope
/// after it, and what it reports.
pub struct Step {
    pub expr: ExprView,
    pub scope: ScopeView,
    pub diags: Seq<DiagnosticView>,
}

/// The analysis of one statement in a scope.
pub open spec fn lower_expr(e: ExprNode, scope: ScopeView) -> Step
    decreases e, 0nat,
{
    match e.kind {
        ExprKind::Init { name, ty, value } => {
            let v = lower_value(value, scope);
            if v.0 is Error {
                Step { expr: ExprView::Error, scope, diags: v.1 }
            } else {
                let t = init_type(ty, v.0, value.span, scope);
                match t.0 {
                    Some(found) => Step {
                        expr: ExprView::Init {
                            name: name.text@,
                            ty: found,
                            value: v.0,
                            context: e.text@,
                        },
                        scope: scope.bind(name.text@, found),
                        diags: v.1 + t.1,
                    },
                    None => Step { expr: ExprView::Error, scope, diags: v.1 + t.1 },
                }
            }
        },
        ExprKind::Decl { name, ty } => {
            let t = lower_type(ty, scope);
            if t.0 is Error {
                Step { expr: ExprView::Error, scope, diags: t.1 }
            } else {
                Step {
                    expr: ExprView::Decl { name: name.text@, ty: t.0, context: e.text@ },
                    scope: scope.bind(name.text@, t.0),
                    diags: t.1,
                }
            }
        },
        ExprKind::Assig { name, value } => {
            let v = lower_value(value, scope);
            if v.0 is Error {
                Step { expr: ExprView::Error, scope, diags: v.1 }
            } else {
                let ok = assignable(name, v.0, value.span, scope);
                Step {
                    expr: if ok.0 {
                        ExprView::Assig { name: name.text@, value: v.0, context: e.text@ }
                    } else {
                        ExprView::Error
                    },
                    scope,
                    diags: v.1 + ok.1,
                }
            }
        },
        ExprKind::OpAssig { operator, name, value } => {
            let v = lower_value(value, scope);
            if v.0 is Error {
                Step { expr: ExprView::Error, scope, diags: v.1 }
            } else {
                let ok = assignable(name, v.0, value.span, scope);
                Step {
                    expr: if ok.0 {
                        ExprView::Assig {
                            name: name.text@,
                            value: ValueView::Op {
                                op: OpView::Binary(
                                    operator,
                                    Box::new(ValueView::Var { name: name.text@, range: value.span }),
                                    Box::new(v.0),
                                ),
                                range: value.span,
                            },
                            context: e.text@,
                        }
                    } else {
                        ExprView::Error
                    },
                    scope,
                    diags: v.1 + ok.1,
                }
            }
        },
        ExprKind::ListRemAssig { name, value } => {
            let v = lower_value(value, scope);
            if v.0 is Error {
                Step { expr: ExprView::Error, scope, diags: v.1 }
            } else {
                let ok = removable(name, v.0, value.span, scope);
                Step {
                    expr: if ok.0 {
                        ExprView::Assig {
                            name: name.text@,
                            value: ValueView::Op {
                                op: OpView::ListRemoveAll(name.text@, Box::new(v.0)),
                                range: value.span,
                            },
                            context: e.text@,
                        }
                    } else {
                        ExprView::Error
                    },
                    scope,
                    diags: v.1 + ok.1,
                }
            }
        },
        ExprKind::Typedef { name, ty } => {
            let t = lower_type(ty, scope);
            Step {
                expr: ExprView::Typedef { name: name.text@, ty: t.0 },
                scope: scope.bind(name.text@, t.0),
                diags: t.1,
            }
        },
        ExprKind::Fn { name, ty, params, body } => {
            let t = match ty {
                Some(tn) => lower_type(tn, scope),
                None => (TypeView::Void, none()),
            };
            let ps = lower_fields(params@, params@.len(), scope);
            let registered = scope.register(
                name.text@,
                FnView { ty: t.0, args: param_types(ps.0) },
            );
            if scope.funcs.contains_key(name.text@) {
                Step {
                    expr: ExprView::Error,
                    scope: registered,
                    diags: t.1 + ps.1 + one(
                        name.span,
                        "function with the same name is defined"@,
                        "already exists, try changing the name"@,
                    ),
                }
            } else {
                let inner = lower_exprs(body@, body@.len(), registered.fork(bindings(ps.0)));
                Step {
                    expr: ExprView::Fn {
                        name: name.text@,
                        ty: t.0,
                        args: ps.0,
                        exprs: inner.0,
                        context: e.text@,
                    },
                    scope: registered,
                    diags: t.1 + ps.1 + inner.2,
                }
            }
        },
        ExprKind::Call(call) => Step {
            expr: call_expr(call, scope),
            scope,
            diags: lower_call(call, scope).1,
        },
        ExprKind::Use => Step {
            expr: ExprView::Error,
            scope,
            diags: one(e.span, "unimplemented"@, "imports are not supported"@),
        },
        ExprKind::ModuleAccess => Step {
            expr: ExprView::Error,
            scope,
            diags: one(e.span, "unimplemented"@, "module access is not supported"@),
        },
        ExprKind::If => Step {
            expr: ExprView::Error,
            scope,
            diags: one(e.span, "unimplemented"@, "conditionals are not supported"@),
        },
    }
}

/// The analysis of the first `n` statements of a list, one after the other,
/// each in the scope that the one before it left: the checked statements,
/// the scope at the end, and what was reported.
pub open spec fn lower_exprs(nodes: Seq<ExprNode>, n: nat, scope: ScopeView) -> (
    Seq<ExprView>,
    ScopeView,
    Seq<DiagnosticView>,
)
    decreases nodes, n,
{
    if n == 0 || n > nodes.len() {
        (Seq::empty(), scope, none())
    } else {
        let before = lower_exprs(nodes, (n - 1) as nat, scope);
        let step = lower_expr(nodes[n - 1], before.1);
        (before.0.push(step.expr), step.scope, before.2 + step.diags)
    }
}

/// Whether one of the statements is the error statement.
pub open spec fn has_error(exprs: Seq<ExprView>) -> bool {
    exists|i: int| 0 <= i < exprs.len() && #[trigger] exprs[i] is Error
}

/// The scope in which the analysis of a file starts: nothing is bound.
pub open spec fn initial_scope(path: Seq<char>, text: Seq<char>) -> ScopeView {
    ScopeView { vars: Map::empty(), funcs: Map::empty(), text, path }
}

/// Lowers the type nodes of a list, in order.
pub fn parse_types(items: &Vec<TypeNode>, scope: &Scope, diags: &mut Vec<Diagnostic>) -> (out: Vec<
    Type,
>)
    ensures
        types_view(out@) == lower_types(items@, items@.len(), scope@).0,
        diagnostics_view(final(diags)@) =~= diagnostics_view(old(diags)@) + lower_types(
            items@,
            items@.len(),
            scope@,
        ).1,
    decreases items,
{
    let ghost before = diagnostics_view(diags@);
    let mut out: Vec<Type> = Vec::new();
    let mut i: usize = 0;
    while i < items.len()
        invariant
            i <= items.len(),
            types_view(out@) == lower_types(items@, i as nat, scope@).0,
            diagnostics_view(diags@) =~= before + lower_types(items@, i as nat, scope@).1,
        decreases items.len() - i,
    {
        proof {
            lemma_joined(
                before,
                lower_types(items@, i as nat, scope@).1,
                lower_type(items@[i as int], scope@).1,
            );
        }
        let t = parse_type(&items[i], scope, diags);
        let ghost old_out = out@;
        out.push(t);
        i += 1;
        assert(types_view(out@) =~= types_view(old_out).push(t@));
    }
    out
}

/// Lowers named type nodes, in order: the members of a struct type or the
/// parameters of a function.
pub fn parse_fields(members: &Vec<(Token, TypeNode)>, scope: &Scope, diags: &mut Vec<Diagnostic>) -> (out:
    Vec<(String, Type)>)
    ensures
        members_view(out@) == lower_fields(members@, members@.len(), scope@).0,
        diagnostics_view(final(diags)@) =~= diagnostics_view(old(diags)@) + lower_fields(
            members@,
            members@.len(),
            scope@,
        ).1,
    decreases members,
{
    let ghost before = diagnostics_view(diags@);
    let mut out: Vec<(String, Type)> = Vec::new();
    let mut i: usize = 0;
    while i < members.len()
        invariant
            i <= members.len(),
            members_view(out@) == lower_fields(members@, i as nat, scope@).0,
            diagnostics_view(diags@) =~= before + lower_fields(members@, i as nat, scope@).1,
        decreases members.len() - i,
    {
        proof {
            lemma_joined(
                before,
                lower_fields(members@, i as nat, scope@).1,
                lower_type(members@[i as int].1, scope@).1,
            );
        }
        let t = parse_type(&members[i].1, scope, diags);
        let name = members[i].0.to_string();
        let ghost old_out = out@;
        out.push((name, t));
        i += 1;
        assert(members_view(out@) =~= members_view(old_out).push((name@, t@)));
    }
    out
}

/// Lowers a type node and records what there is to report.
pub fn parse_type(node: &TypeNode, scope: &Scope, diags: &mut Vec<Diagnostic>) -> (t: Type)
    ensures
        t@ == lower_type(*node, scope@).0,
        diagnostics_view(final(diags)@) =~= diagnostics_view(old(diags)@) + lower_type(
            *node,
            scope@,
        ).1,
    decreases node, 0nat,
{
    match node {
        TypeNode::Int => Type::Int,
        TypeNode::Num => Type::Num,
        TypeNode::Bool => Type::Bool,
        TypeNode::Char => Type::Char,
        TypeNode::Str => Type::Str,
        TypeNode::Void => Type::Void,
        TypeNode::Tuple(items) => {
            let out = parse_types(items, scope, diags);
            proof {
                lemma_tuple_view(out);
            }
            Type::Tuple(out)
        },
        TypeNode::Struct(members) => {
            let out = parse_fields(members, scope, diags);
            proof {
                lemma_struct_view(out);
            }
            Type::Struct(out)
        },
        TypeNode::List(item) => Type::List(Box::new(parse_type(item, scope, diags))),
        TypeNode::Dict(pair) => {
            proof {
                lemma_joined(
                    diagnostics_view(diags@),
                    lower_type(pair.0, scope@).1,
                    lower_type(pair.1, scope@).1,
                );
            }
            let k = parse_type(&pair.0, scope, diags);
            let v = parse_type(&pair.1, scope, diags);
            Type::Dict(Box::new((k, v)))
        },
        TypeNode::Custom(token) => match scope.get(token.text.as_str()) {
            Some(t) => t.clone(),
            None => emit(&token.span, "not declared type", "does not exist", diags).type_err(),
        },
    }
}

/// Decides [`assignable`] and records what it reports.
pub fn check_assignable(
    name: &Token,
    value: &Value,
    value_span: &Range<usize>,
    scope: &Scope,
    diags: &mut Vec<Diagnostic>,
) -> (ok: bool)
    requires
        inferable(value@),
    ensures
        ok == assignable(*name, value@, *value_span, scope@).0,
        diagnostics_view(final(diags)@) =~= diagnostics_view(old(diags)@) + assignable(
            *name,
            value@,
            *value_span,
            scope@,
        ).1,
{
    match scope.get(name.text.as_str()) {
        Some(declared) => {
            let ghost d0 = diagnostics_view(diags@);
            let inferred = parse_type_from_value(value, scope, diags);
            if equivalent(&inferred, declared) {
                true
            } else {
                let expected = declared.to_string();
                let found = inferred.to_string();
                let body = expected_found(expected.as_str(), found.as_str());
                proof {
                    lemma_joined(
                        d0,
                        infer(value@, scope@).1,
                        mismatch_report(
                            declared@,
                            inferred@,
                            *value_span,
                            "wrong assignment type"@,
                            body@,
                        ),
                    );
                }
                report_mismatch(
                    declared,
                    &inferred,
                    value_span,
                    "wrong assignment type",
                    body.as_str(),
                    diags,
                );
                false
            }
        },
        None => emit(&name.span, "assignment to inexistent variable", "not declared", diags)._false(),
    }
}

/// Decides [`removable`] and records what it reports.
pub fn check_removable(
    name: &Token,
    value: &Value,
    value_span: &Range<usize>,
    scope: &Scope,
    diags: &mut Vec<Diagnostic>,
) -> (ok: bool)
    requires
        inferable(value@),
    ensures
        ok == removable(*name, value@, *value_span, scope@).0,
        diagnostics_view(final(diags)@) =~= diagnostics_view(old(diags)@) + removable(
            *name,
            value@,
            *value_span,
            scope@,
        ).1,
{
    let declared = match scope.get(name.text.as_str()) {
        Some(t) => t,
        None => {
            return emit(&name.span, "removing from inexistent list", "not declared", diags)._false();
        },
    };
    match declared {
        Type::List(item) => {
            let ghost d0 = diagnostics_view(diags@);
            let inferred = parse_type_from_value(value, scope, diags);
            if equivalent(&**item, &inferred) {
                true
            } else {
                let expected = item.to_string();
                let found = inferred.to_string();
                let body = expected_found(expected.as_str(), found.as_str());
                proof {
                    lemma_joined(
                        d0,
                        infer(value@, scope@).1,
                        mismatch_report(item@, inferred@, *value_span, "wrong type"@, body@),
                    );
                }
                report_mismatch(&**item, &inferred, value_span, "wrong type", body.as_str(), diags);
                false
            }
        },
        _ => emit(&name.span, "variable exists but is not a list", "not a list", diags)._false(),
    }
}

/// Decides [`init_type`] and records what it reports.
pub fn check_init_type(
    ty: &Option<TypeNode>,
    value: &Value,
    value_span: &Range<usize>,
    scope: &Scope,
    diags: &mut Vec<Diagnostic>,
) -> (r: Option<Type>)
    requires
        inferable(value@),
    ensures
        match r {
            Some(t) => init_type(*ty, value@, *value_span, scope@).0 == Some(t@),
            None => init_type(*ty, value@, *value_span, scope@).0 is None,
        },
        diagnostics_view(final(diags)@) =~= diagnostics_view(old(diags)@) + init_type(
            *ty,
            value@,
            *value_span,
            scope@,
        ).1,
{
    match ty {
        Some(node_t) => {
            let ghost d0 = diagnostics_view(diags@);
            let t = parse_type(node_t, scope, diags);
            let vt = parse_type_from_value(value, scope, diags);
            proof {
                lemma_joined(d0, lower_type(*node_t, scope@).1, infer(value@, scope@).1);
            }
            if equivalent(&t, &vt) {
                Some(t)
            } else {
                let expected = t.to_string();
                let found = vt.to_string();
                let body = expected_found(expected.as_str(), found.as_str());
                report_mismatch(&t, &vt, value_span, "wrong assignment type", body.as_str(), diags);
                proof {
                    lemma_joined(
                        d0,
                        lower_type(*node_t, scope@).1 + infer(value@, scope@).1,
                        mismatch_report(t@, vt@, *value_span, "wrong assignment type"@, body@),
                    );
                }
                None
            }
        },
        None => Some(parse_type_from_value(value, scope, diags)),
    }
}

/// Analyses `var NAME [: TYPE] = VALUE`.
pub fn parse_init(node: &ExprNode, scope: &mut Scope, diags: &mut Vec<Diagnostic>) -> (e: Expr)
    requires
        expr_node_wf(*node),
        node.kind is Init,
    ensures
        e@ == lower_expr(*node, old(scope)@).expr,
        final(scope)@ == lower_expr(*node, old(scope)@).scope,
        diagnostics_view(final(diags)@) =~= diagnostics_view(old(diags)@) + lower_expr(
            *node,
            old(scope)@,
        ).diags,
{
    match &node.kind {
        ExprKind::Init { name, ty, value } => {
            let ghost d0 = diagnostics_view(diags@);
            let parsed_v = parse_value(value, scope, diags);
            if matches!(parsed_v, Value::Error) {
                return Expr::Error;
            }
            proof {
                lemma_joined(
                    d0,
                    lower_value(*value, scope@).1,
                    init_type(*ty, parsed_v@, value.span, scope@).1,
                );
            }
            match check_init_type(ty, &parsed_v, &value.span, scope, diags) {
                Some(t) => {
                    scope.insert(name.to_string(), t.clone());
                    Expr::Init {
                        name: name.to_string(),
                        ty: t,
                        value: parsed_v,
                        context: node.text.clone(),
                    }
                },
                None => Expr::Error,
            }
        },
        _ => Expr::Error,
    }
}

/// Analyses `var NAME : TYPE`.
pub fn parse_decl(node: &ExprNode, scope: &mut Scope, diags: &mut Vec<Diagnostic>) -> (e: Expr)
    requires
        node.kind is Decl,
    ensures
        e@ == lower_expr(*node, old(scope)@).expr,
        final(scope)@ == lower_expr(*node, old(scope)@).scope,
        diagnostics_view(final(diags)@) =~= diagnostics_view(old(diags)@) + lower_expr(
            *node,
            old(scope)@,
        ).diags,
{
    match &node.kind {
        ExprKind::Decl { name, ty } => {
            let t = parse_type(ty, scope, diags);
            if matches!(t, Type::Error) {
                return Expr::Error;
            }
            scope.insert(name.to_string(), t.clone());
            Expr::Decl { name: name.to_string(), ty: t, context: node.text.clone() }
        },
        _ => Expr::Error,
    }
}

/// Analyses `NAME = VALUE`.
pub fn parse_assig(node: &ExprNode, scope: &Scope, diags: &mut Vec<Diagnostic>) -> (e: Expr)
    requires
        expr_node_wf(*node),
        node.kind is Assig,
    ensures
        e@ == lower_expr(*node, scope@).expr,
        diagnostics_view(final(diags)@) =~= diagnostics_view(old(diags)@) + lower_expr(
            *node,
            scope@,
        ).diags,
{
    match &node.kind {
        ExprKind::Assig { name, value } => {
            let ghost d0 = diagnostics_view(diags@);
            let v = parse_value(value, scope, diags);
            if matches!(v, Value::Error) {
                return Expr::Error;
            }
            proof {
                lemma_joined(
                    d0,
                    lower_value(*value, scope@).1,
                    assignable(*name, v@, value.span, scope@).1,
                );
            }
            if !check_assignable(name, &v, &value.span, scope, diags) {
                return Expr::Error;
            }
            Expr::Assig { name: name.to_string(), value: v, context: node.text.clone() }
        },
        _ => Expr::Error,
    }
}

/// Analyses `NAME --= VALUE`.
pub fn parse_list_remove_assign(node: &ExprNode, scope: &Scope, diags: &mut Vec<Diagnostic>) -> (e:
    Expr)
    requires
        expr_node_wf(*node),
        node.kind is ListRemAssig,
    ensures
        e@ == lower_expr(*node, scope@).expr,
        diagnostics_view(final(diags)@) =~= diagnostics_view(old(diags)@) + lower_expr(
            *node,
            scope@,
        ).diags,
{
    match &node.kind {
        ExprKind::ListRemAssig { name, value } => {
            let ghost d0 = diagnostics_view(diags@);
            let v = parse_value(value, scope, diags);
            if matches!(v, Value::Error) {
                return Expr::Error;
            }
            proof {
                lemma_joined(
                    d0,
                    lower_value(*value, scope@).1,
                    removable(*name, v@, value.span, scope@).1,
                );
            }
            if !check_removable(name, &v, &value.span, scope, diags) {
                return Expr::Error;
            }
            let op = Op::ListRemoveAll(Box::new((name.to_string(), v)));
            assert(op@ == OpView::ListRemoveAll(name.text@, Box::new(v@)));
            Expr::Assig {
                name: name.to_string(),
                value: Value::Op { op, range: value.range() },
                context: node.text.clone(),
            }
        },
        _ => Expr::Error,
    }
}

/// Analyses `NAME <op>= VALUE`.
pub fn parse_assig_op(node: &ExprNode, scope: &Scope, diags: &mut Vec<Diagnostic>) -> (e: Expr)
    requires
        expr_node_wf(*node),
        node.kind is OpAssig,
    ensures
        e@ == lower_expr(*node, scope@).expr,
        diagnostics_view(final(diags)@) =~= diagnostics_view(old(diags)@) + lower_expr(
            *node,
            scope@,
        ).diags,
{
    match &node.kind {
        ExprKind::OpAssig { operator, name, value } => {
            let ghost d0 = diagnostics_view(diags@);
            let v = parse_value(value, scope, diags);
            if matches!(v, Value::Error) {
                return Expr::Error;
            }
            proof {
                lemma_joined(
                    d0,
                    lower_value(*value, scope@).1,
                    assignable(*name, v@, value.span, scope@).1,
                );
            }
            if !check_assignable(name, &v, &value.span, scope, diags) {
                return Expr::Error;
            }
            let target = Value::Var { name: name.to_string(), range: value.range() };
            let stored = Value::Op {
                op: make_op(*operator, target, v),
                range: value.range(),
            };
            Expr::Assig { name: name.to_string(), value: stored, context: node.text.clone() }
        },
        _ => Expr::Error,
    }
}

/// Analyses `type NAME = TYPE`.
pub fn parse_typedef(node: &ExprNode, scope: &mut Scope, diags: &mut Vec<Diagnostic>) -> (e: Expr)
    requires
        node.kind is Typedef,
    ensures
        e@ == lower_expr(*node, old(scope)@).expr,
        final(scope)@ == lower_expr(*node, old(scope)@).scope,
        diagnostics_view(final(diags)@) =~= diagnostics_view(old(diags)@) + lower_expr(
            *node,
            old(scope)@,
        ).diags,
{
    match &node.kind {
        ExprKind::Typedef { name, ty } => {
            let t = parse_type(ty, scope, diags);
            scope.insert(name.to_string(), t.clone());
            Expr::Typedef { name: name.to_string(), ty: t }
        },
        _ => Expr::Error,
    }
}

/// Analyses `fn NAME(arg: T, ...) [-> T] { body }`.
pub fn parse_fn(node: &ExprNode, scope: &mut Scope, diags: &mut Vec<Diagnostic>) -> (e: Expr)
    requires
        expr_node_wf(*node),
        node.kind is Fn,
    ensures
        e@ == lower_expr(*node, old(scope)@).expr,
        final(scope)@ == lower_expr(*node, old(scope)@).scope,
        diagnostics_view(final(diags)@) =~= diagnostics_view(old(diags)@) + lower_expr(
            *node,
            old(scope)@,
        ).diags,
    decreases node, 0nat,
{
    match &node.kind {
        ExprKind::Fn { name, ty, params, body } => {
            let ghost d0 = diagnostics_view(diags@);
            let ghost outer = scope@;
            let t = match ty {
                Some(node_t) => parse_type(node_t, scope, diags),
                None => Type::Void,
            };
            let args = parse_fields(params, scope, diags);
            let ghost a = match ty {
                Some(node_t) => lower_type(*node_t, outer).1,
                None => none(),
            };
            let ghost b = lower_fields(params@, params@.len(), outer).1;
            proof {
                assert(diagnostics_view(diags@) == d0 + a + b);
                lemma_joined(d0, a, b);
            }
            if scope.insert_fn(name.to_string(), t.clone(), args.as_slice()) {
                proof {
                    lemma_joined(
                        d0,
                        a + b,
                        one(
                            name.span,
                            "function with the same name is defined"@,
                            "already exists, try changing the name"@,
                        ),
                    );
                }
                return emit(
                    &name.span,
                    "function with the same name is defined",
                    "already exists, try changing the name",
                    diags,
                ).expr_err();
            }
            let mut fn_scope = scope.clone_into_new_scope(clone_members(&args));
            proof {
                lemma_joined(
                    d0,
                    a + b,
                    lower_exprs(body@, body@.len(), fn_scope@).2,
                );
            }
            let exprs = parse_exprs(body, &mut fn_scope, diags);
            let name = name.to_string();
            let context = node.text.clone();
            proof {
                lemma_fn_expr_view(name, t, args, exprs, context);
            }
            Expr::Fn { name, ty: t, args, exprs, context }
        },
        _ => Expr::Error,
    }
}

/// Analyses one statement: lowers it in the scope, binds what it declares,
/// and records what there is to report.
pub fn parse_expr(node: &ExprNode, scope: &mut Scope, diags: &mut Vec<Diagnostic>) -> (e: Expr)
    requires
        expr_node_wf(*node),
    ensures
        e@ == lower_expr(*node, old(scope)@).expr,
        final(scope)@ == lower_expr(*node, old(scope)@).scope,
        diagnostics_view(final(diags)@) =~= diagnostics_view(old(diags)@) + lower_expr(
            *node,
            old(scope)@,
        ).diags,
        e@ matches ExprView::Init { name, ty, .. } ==> final(scope)@.vars.contains_key(name)
            && final(scope)@.vars[name] == ty,
        e@ matches ExprView::Decl { name, ty, .. } ==> final(scope)@.vars.contains_key(name)
            && final(scope)@.vars[name] == ty,
    decreases node, 1nat,
{
    match &node.kind {
        ExprKind::Init { .. } => parse_init(node, scope, diags),
        ExprKind::Decl { .. } => parse_decl(node, scope, diags),
        ExprKind::Assig { .. } => parse_assig(node, scope, diags),
        ExprKind::ListRemAssig { .. } => parse_list_remove_assign(node, scope, diags),
        ExprKind::OpAssig { .. } => parse_assig_op(node, scope, diags),
        ExprKind::Typedef { .. } => parse_typedef(node, scope, diags),
        ExprKind::Fn { .. } => parse_fn(node, scope, diags),
        ExprKind::Call(call) => parse_call(call, scope, diags),
        ExprKind::Use => emit(&node.span, "unimplemented", "imports are not supported", diags).expr_err(),
        ExprKind::ModuleAccess => emit(
            &node.span,
            "unimplemented",
            "module access is not supported",
            diags,
        ).expr_err(),
        ExprKind::If => emit(
            &node.span,
            "unimplemented",
            "conditionals are not supported",
            diags,
        ).expr_err(),
    }
}

/// Analyses statements in source order, each in the scope that the one before it left.
pub fn parse_exprs(nodes: &Vec<ExprNode>, scope: &mut Scope, diags: &mut Vec<Diagnostic>) -> (out:
    Vec<Expr>)
    requires
        exprs_wf(nodes@),
    ensures
        exprs_view(out@) == lower_exprs(nodes@, nodes@.len(), old(scope)@).0,
        final(scope)@ == lower_exprs(nodes@, nodes@.len(), old(scope)@).1,
        diagnostics_view(final(diags)@) =~= diagnostics_view(old(diags)@) + lower_exprs(
            nodes@,
            nodes@.len(),
            old(scope)@,
        ).2,
    decreases nodes,
{
    let ghost before = diagnostics_view(diags@);
    let ghost start = scope@;
    let mut out: Vec<Expr> = Vec::new();
    let mut i: usize = 0;
    while i < nodes.len()
        invariant
            i <= nodes.len(),
            exprs_wf(nodes@),
            exprs_view(out@) == lower_exprs(nodes@, i as nat, start).0,
            scope@ == lower_exprs(nodes@, i as nat, start).1,
            diagnostics_view(diags@) =~= before + lower_exprs(nodes@, i as nat, start).2,
        decreases nodes.len() - i,
    {
        proof {
            lemma_joined(
                before,
                lower_exprs(nodes@, i as nat, start).2,
                lower_expr(nodes@[i as int], scope@).diags,
            );
        }
        let e = parse_expr(&nodes[i], scope, diags);
        let ghost old_out = out@;
        out.push(e);
        i += 1;
        assert(exprs_view(out@) =~= exprs_view(old_out).push(e@));
    }
    out
}

/// Decides [`has_error`].
pub fn any_error(exprs: &Vec<Expr>) -> (r: bool)
    ensures
        r == has_error(exprs_view(exprs@)),
{
    let mut i: usize = 0;
    while i < exprs.len()
        invariant
            i <= exprs.len(),
            forall|k: int| 0 <= k < i ==> !(#[trigger] exprs_view(exprs@)[k] is Error),
        decreases exprs.len() - i,
    {
        if matches!(exprs[i], Expr::Error) {
            assert(exprs_view(exprs@)[i as int] is Error);
            return true;
        }
        assert(!(exprs_view(exprs@)[i as int] is Error));
        i += 1;
    }
    false
}

/// What the analysis of a program gives: the checked statements, or `None`
/// where the program is refused, and what is reported. Without `debug` a
/// program is refused if one of its statements is the error statement.
pub open spec fn analysis(root: Seq<ExprNode>, path: Seq<char>, text: Seq<char>, debug: bool) -> (
    Option<Seq<ExprView>>,
    Seq<DiagnosticView>,
) {
    let out = lower_exprs(root, root.len(), initial_scope(path, text));
    (
        if debug || !has_error(out.0) {
            Some(out.0)
        } else {
            None
        },
        out.2,
    )
}

/// Whether `r` and the reports `after` are what [`parse`] gives for a
/// program when the reports before the call were `before`.
pub open spec fn parse_post(
    root: Seq<ExprNode>,
    path: Seq<char>,
    text: Seq<char>,
    debug: bool,
    before: Seq<DiagnosticView>,
    r: Result<Main, ParseErr>,
    after: Seq<DiagnosticView>,
) -> bool {
    &&& match r {
        Ok(main) => analysis(root, path, text, debug).0 == Some(main@),
        Err(_) => analysis(root, path, text, debug).0 is None,
    }
    &&& after == before + analysis(root, path, text, debug).1
}

/// Analyses a program: its statements in source order, starting from the
/// empty scope of the given file.
///
/// Without `debug`, a program with an error statement at its top level is
/// refused. With `debug`, the checked statements are given in any case.
pub fn parse(
    root: &Vec<ExprNode>,
    path: String,
    text: String,
    debug: bool,
    diags: &mut Vec<Diagnostic>,
) -> (r: Result<Main, ParseErr>)
    requires
        exprs_wf(root@),
    ensures
        parse_post(
            root@,
            path@,
            text@,
            debug,
            diagnostics_view(old(diags)@),
            r,
            diagnostics_view(final(diags)@),
        ),
{
    let mut global = Scope::new(Vec::new(), Vec::new());
    global.set_file(path, text);
    proof {
        crate::scope::lemma_bindings_empty::<TypeView>();
        crate::scope::lemma_bindings_empty::<FnView>();
        assert(members_view(Seq::<(String, Type)>::empty()) =~= Seq::<
            (Seq<char>, TypeView),
        >::empty());
        assert(crate::scope::signatures_view(Seq::<(String, Fn)>::empty()) =~= Seq::<
            (Seq<char>, FnView),
        >::empty());
        assert(global@ == initial_scope(path@, text@));
    }
    let ghost before = diagnostics_view(diags@);
    let exprs = parse_exprs(root, &mut global, diags);
    assert(diagnostics_view(diags@) == before + analysis(root@, path@, text@, debug).1);
    let err_found = any_error(&exprs);
    if err_found && !debug {
        Err(ParseErr)
    } else {
        Ok(Main::new(exprs))
    }
}

/// Analyses a program if its parse tree is one that a parser of the language
/// can give, as [`parse`] does; otherwise gives `None` and reports nothing.
pub fn parse_checked(
    root: &Vec<ExprNode>,
    path: String,
    text: String,
    debug: bool,
    diags: &mut Vec<Diagnostic>,
) -> (r: Option<Result<Main, ParseErr>>)
    ensures
        r is Some <==> exprs_wf(root@),
        match r {
            Some(outcome) => parse_post(
                root@,
                path@,
                text@,
                debug,
                diagnostics_view(old(diags)@),
                outcome,
                diagnostics_view(final(diags)@),
            ),
            None => final(diags)@ == old(diags)@,
        },
{
    if check_exprs(root) {
        Some(parse(root, path, text, debug, diags))
    } else {
        None
    }
}

} // verus!
