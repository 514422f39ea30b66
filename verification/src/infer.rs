//! Type inference: the type of a checked value, in a scope.

use crate::diagnostic::{
    diagnostics_view, emit, member_missing, none, one, out_of_bounds, text_member_missing,
    text_out_of_bounds, text_wrapped, wrapped, Diagnostic, DiagnosticView,
};
use crate::scope::{Scope, ScopeView};
use crate::tree::{
    lemma_dict_value_view, lemma_list_value_view, lemma_struct_value_view, lemma_struct_view,
    lemma_tuple_value_view, lemma_tuple_view, members_view, types_view, Op,
    Operator, OpView, TupleAccessMode, TupleAccessModeView, Type, TypeView, Value, ValueView,
};
use std::ops::Range;
use vstd::prelude::*;
use vstd::string::*;

verus! {

/// The type of the first member of that name, looking from position `from` on.
pub open spec fn member_type(
    members: Seq<(Seq<char>, TypeView)>,
    name: Seq<char>,
    from: nat,
) -> Option<TypeView>
    decreases members.len() - from,
{
    if from >= members.len() {
        None
    } else if members[from as int].0 == name {
        Some(members[from as int].1)
    } else {
        member_type(members, name, from + 1)
    }
}

/// The type of `name.member` or `name.index`, with what is reported where there is none.
pub open spec fn infer_access(
    name: Seq<char>,
    mode: TupleAccessModeView,
    name_range: Range<usize>,
    access_range: Range<usize>,
    scope: ScopeView,
) -> (TypeView, Seq<DiagnosticView>) {
    if !scope.vars.contains_key(name) {
        (
            TypeView::Error,
            one(name_range, "accessed invalid tuple/struct"@, "struct does not exist"@),
        )
    } else {
        let target = scope.vars[name];
        match mode {
            TupleAccessModeView::Member(member) => match target {
                TypeView::Struct(members) => match member_type(members, member, 0) {
                    Some(t) => (t, none()),
                    None => (
                        TypeView::Error,
                        one(access_range, text_member_missing(name, member), "not declared"@),
                    ),
                },
                _ => (
                    TypeView::Error,
                    one(
                        access_range,
                        "accessed tuple by member name"@,
                        text_wrapped("use index instead: "@, name, ".0"@),
                    ),
                ),
            },
            TupleAccessModeView::Index(index) => match target {
                TypeView::Tuple(items) => if index < items.len() {
                    (items[index as int], none())
                } else {
                    (
                        TypeView::Error,
                        one(
                            Range { start: name_range.start, end: access_range.end },
                            "index out of bounds"@,
                            text_out_of_bounds(items.len(), index as nat),
                        ),
                    )
                },
                _ => (
                    TypeView::Error,
                    one(
                        access_range,
                        "accessed struct by index"@,
                        text_wrapped("use member name instead: "@, name, ".member"@),
                    ),
                ),
            },
        }
    }
}

/// The type of a value, and what inferring it reports, in order.
///
/// A literal has the type of its kind, a comparison is a `bool`, a tuple or
/// struct has the types of its parts, a list or dictionary that of its first
/// element, a variable the type bound to it, an access the type of what it
/// reaches, an arithmetic operation that of its left operand, a call the
/// return type of the function. The error value has the error type and
/// reports nothing.
pub open spec fn infer(v: ValueView, scope: ScopeView) -> (TypeView, Seq<DiagnosticView>)
    decreases v, 0nat,
{
    match v {
        ValueView::Int(_) => (TypeView::Int, none()),
        ValueView::Num(_) => (TypeView::Num, none()),
        ValueView::Bool(_) => (TypeView::Bool, none()),
        ValueView::Cmp { .. } => (TypeView::Bool, none()),
        ValueView::Char(_) => (TypeView::Char, none()),
        ValueView::Str(_) => (TypeView::Str, none()),
        ValueView::Tuple(items) => {
            let r = infer_items(items, items.len(), scope);
            (TypeView::Tuple(r.0), r.1)
        },
        ValueView::Struct(members) => {
            let r = infer_members(members, members.len(), scope);
            (TypeView::Struct(r.0), r.1)
        },
        ValueView::List(items) => if items.len() > 0 {
            let r = infer(items[0], scope);
            (TypeView::List(Box::new(r.0)), r.1)
        } else {
            (TypeView::Error, none())
        },
        ValueView::Dict(pairs) => if pairs.len() > 0 {
            let k = infer(pairs[0].0, scope);
            let e = infer(pairs[0].1, scope);
            (TypeView::Dict(Box::new(k.0), Box::new(e.0)), k.1 + e.1)
        } else {
            (TypeView::Error, none())
        },
        ValueView::Var { name, range } => if scope.vars.contains_key(name) {
            (scope.vars[name], none())
        } else {
            (
                TypeView::Error,
                one(range, text_wrapped("variable '"@, name, "' does not exist"@), "not declared"@),
            )
        },
        ValueView::TupleAccess { name, access_mode, name_range, access_range } => infer_access(
            name,
            access_mode,
            name_range,
            access_range,
            scope,
        ),
        ValueView::ListAccess { name, access_mode, access_type, name_range, access_range } => (
            access_type,
            none(),
        ),
        ValueView::Op { op, range } => match op {
            OpView::Binary(_, lhs, _) => infer(*lhs, scope),
            OpView::ListRemoveAll(name, _) => (
                TypeView::Error,
                one(
                    range,
                    "operation not permitted"@,
                    text_wrapped("only use as expression, '"@, name, " --= ...'"@),
                ),
            ),
        },
        ValueView::Parenthesis(inner) => infer(*inner, scope),
        ValueView::Call { name, args } => (
            if scope.funcs.contains_key(name) {
                scope.funcs[name].ty
            } else {
                TypeView::Error
            },
            none(),
        ),
        ValueView::Error => (TypeView::Error, none()),
    }
}

/// [`infer`] of the first `n` values of a list.
pub open spec fn infer_items(items: Seq<ValueView>, n: nat, scope: ScopeView) -> (
    Seq<TypeView>,
    Seq<DiagnosticView>,
)
    decreases items, n,
{
    if n == 0 || n > items.len() {
        (Seq::empty(), none())
    } else {
        let before = infer_items(items, (n - 1) as nat, scope);
        let last = infer(items[n - 1], scope);
        (before.0.push(last.0), before.1 + last.1)
    }
}

/// [`infer`] of the first `n` members of a struct value, each under its name.
pub open spec fn infer_members(
    members: Seq<(Seq<char>, ValueView)>,
    n: nat,
    scope: ScopeView,
) -> (Seq<(Seq<char>, TypeView)>, Seq<DiagnosticView>)
    decreases members, n,
{
    if n == 0 || n > members.len() {
        (Seq::empty(), none())
    } else {
        let before = infer_members(members, (n - 1) as nat, scope);
        let last = infer(members[n - 1].1, scope);
        (before.0.push((members[n - 1].0, last.0)), before.1 + last.1)
    }
}

/// Whether a value has a type to infer: each list or dictionary that
/// inference looks into has a first element.
pub open spec fn inferable(v: ValueView) -> bool
    decreases v,
{
    match v {
        ValueView::Tuple(items) => items.len() >= 0 && forall|i: int|
            0 <= i < items.len() ==> inferable(#[trigger] items[i]),
        ValueView::Struct(members) => members.len() >= 0 && forall|i: int|
            0 <= i < members.len() ==> inferable((#[trigger] members[i]).1),
        ValueView::List(items) => items.len() > 0 && inferable(items[0]),
        ValueView::Dict(pairs) => pairs.len() > 0 && inferable(pairs[0].0) && inferable(
            pairs[0].1,
        ),
        ValueView::Op { op, range } => match op {
            OpView::Binary(_, lhs, _) => inferable(*lhs),
            OpView::ListRemoveAll(_, _) => true,
        },
        ValueView::Parenthesis(inner) => inferable(*inner),
        _ => true,
    }
}

/// Decides [`inferable`].
pub fn check_inferable(value: &Value) -> (ok: bool)
    ensures
        ok == inferable(value@),
    decreases value,
{
    match value {
        Value::Tuple(items) => {
            let ghost vs = crate::tree::values_view(items@);
            proof {
                lemma_tuple_value_view(*items);
            }
            let mut i: usize = 0;
            while i < items.len()
                invariant
                    i <= items.len(),
                    value is Tuple,
                    *items == value->Tuple_0,
                    vs == crate::tree::values_view(items@),
                    value@ == ValueView::Tuple(vs),
                    forall|k: int| 0 <= k < i ==> inferable(#[trigger] vs[k]),
                decreases items.len() - i,
            {
                if !check_inferable(&items[i]) {
                    assert(!inferable(vs[i as int]));
                    return false;
                }
                i += 1;
            }
            true
        },
        Value::Struct(members) => {
            let ghost vs = crate::tree::named_values_view(members@);
            proof {
                lemma_struct_value_view(*members);
            }
            let mut i: usize = 0;
            while i < members.len()
                invariant
                    i <= members.len(),
                    value is Struct,
                    *members == value->Struct_0,
                    vs == crate::tree::named_values_view(members@),
                    value@ == ValueView::Struct(vs),
                    forall|k: int| 0 <= k < i ==> inferable((#[trigger] vs[k]).1),
                decreases members.len() - i,
            {
                if !check_inferable(&members[i].1) {
                    assert(!inferable(vs[i as int].1));
                    return false;
                }
                i += 1;
            }
            true
        },
        Value::List(items) => {
            proof {
                lemma_list_value_view(*items);
            }
            items.len() > 0 && check_inferable(&items[0])
        },
        Value::Dict(pairs) => {
            proof {
                lemma_dict_value_view(*pairs);
            }
            pairs.len() > 0 && check_inferable(&pairs[0].0) && check_inferable(&pairs[0].1)
        },
        Value::Op { op, range } => match op {
            Op::Add(v) => {
                assert(op@ == OpView::Binary(Operator::Add, Box::new(v.0@), Box::new(v.1@)));
                check_inferable(&v.0)
            },
            Op::Sub(v) => {
                assert(op@ == OpView::Binary(Operator::Sub, Box::new(v.0@), Box::new(v.1@)));
                check_inferable(&v.0)
            },
            Op::Mul(v) => {
                assert(op@ == OpView::Binary(Operator::Mul, Box::new(v.0@), Box::new(v.1@)));
                check_inferable(&v.0)
            },
            Op::Div(v) => {
                assert(op@ == OpView::Binary(Operator::Div, Box::new(v.0@), Box::new(v.1@)));
                check_inferable(&v.0)
            },
            Op::Mod(v) => {
                assert(op@ == OpView::Binary(Operator::Mod, Box::new(v.0@), Box::new(v.1@)));
                check_inferable(&v.0)
            },
            Op::Pow(v) => {
                assert(op@ == OpView::Binary(Operator::Pow, Box::new(v.0@), Box::new(v.1@)));
                check_inferable(&v.0)
            },
            Op::ListRemoveAll(lra) => {
                assert(op@ == OpView::ListRemoveAll(lra.0@, Box::new(lra.1@)));
                true
            },
        },
        Value::Parenthesis(inner) => check_inferable(inner),
        _ => true,
    }
}

/// Finds the first member of a struct type by name.
fn find_member<'a>(members: &'a Vec<(String, Type)>, name: &String) -> (r: Option<&'a Type>)
    ensures
        match r {
            Some(t) => member_type(members_view(members@), name@, 0) == Some(t@),
            None => member_type(members_view(members@), name@, 0) is None,
        },
{
    let ghost ms = members_view(members@);
    let mut i: usize = 0;
    while i < members.len()
        invariant
            i <= members.len(),
            ms == members_view(members@),
            member_type(ms, name@, 0) == member_type(ms, name@, i as nat),
        decreases members.len() - i,
    {
        if members[i].0 == *name {
            return Some(&members[i].1);
        }
        i += 1;
    }
    None
}

/// Infers the type of `name.member` or `name.index`.
fn infer_tuple_access(
    name: &String,
    access_mode: &TupleAccessMode,
    name_range: &Range<usize>,
    access_range: &Range<usize>,
    scope: &Scope,
    diags: &mut Vec<Diagnostic>,
) -> (t: Type)
    ensures
        t@ == infer_access(name@, access_mode@, *name_range, *access_range, scope@).0,
        diagnostics_view(final(diags)@) == diagnostics_view(old(diags)@) + infer_access(
            name@,
            access_mode@,
            *name_range,
            *access_range,
            scope@,
        ).1,
{
    let target = match scope.get(name.as_str()) {
        Some(ty) => ty,
        None => {
            return emit(
                name_range,
                "accessed invalid tuple/struct",
                "struct does not exist",
                diags,
            ).type_err();
        },
    };
    match access_mode {
        TupleAccessMode::Member(member) => {
            match target {
                Type::Struct(members) => {
                    proof {
                        lemma_struct_view(*members);
                    }
                    match find_member(members, member) {
                        Some(ty) => {
                            assert(diagnostics_view(diags@) + none() =~= diagnostics_view(diags@));
                            ty.clone()
                        },
                        None => {
                            let header = member_missing(name.as_str(), member.as_str());
                            emit(access_range, header.as_str(), "not declared", diags);
                            Type::Error
                        },
                    }
                },
                _ => {
                    let body = wrapped("use index instead: ", name.as_str(), ".0");
                    emit(
                        access_range,
                        "accessed tuple by member name",
                        body.as_str(),
                        diags,
                    ).type_err()
                },
            }
        },
        TupleAccessMode::Index(index) => {
            match target {
                Type::Tuple(items) => {
                    proof {
                        lemma_tuple_view(*items);
                    }
                    if *index < items.len() {
                        assert(diagnostics_view(diags@) + none() =~= diagnostics_view(diags@));
                        items[*index].clone()
                    } else {
                        let body = out_of_bounds(items.len(), *index);
                        emit(
                            &(name_range.start..access_range.end),
                            "index out of bounds",
                            body.as_str(),
                            diags,
                        ).type_err()
                    }
                },
                _ => {
                    let body = wrapped("use member name instead: ", name.as_str(), ".member");
                    emit(access_range, "accessed struct by index", body.as_str(), diags).type_err()
                },
            }
        },
    }
}

/// Infers the type of a value and records what there is to report.
pub fn parse_type_from_value(value: &Value, scope: &Scope, diags: &mut Vec<Diagnostic>) -> (t:
    Type)
    requires
        inferable(value@),
    ensures
        t@ == infer(value@, scope@).0,
        diagnostics_view(final(diags)@) == diagnostics_view(old(diags)@) + infer(
            value@,
            scope@,
        ).1,
    decreases value,
{
    let ghost before = diagnostics_view(diags@);
    assert(before + none() =~= before);
    match value {
        Value::Int(_) => Type::Int,
        Value::Num(_) => Type::Num,
        Value::Bool(_) => Type::Bool,
        Value::Cmp { .. } => Type::Bool,
        Value::Char(_) => Type::Char,
        Value::Str(_) => Type::Str,
        Value::Tuple(items) => {
            let ghost vs = crate::tree::values_view(items@);
            proof {
                lemma_tuple_value_view(*items);
            }
            let mut out: Vec<Type> = Vec::new();
            let mut i: usize = 0;
            while i < items.len()
                invariant
                    i <= items.len(),
                    value is Tuple,
                    *items == value->Tuple_0,
                    vs == crate::tree::values_view(items@),
                    forall|k: int| 0 <= k < vs.len() ==> inferable(#[trigger] vs[k]),
                    types_view(out@) == infer_items(vs, i as nat, scope@).0,
                    diagnostics_view(diags@) == before + infer_items(vs, i as nat, scope@).1,
                decreases items.len() - i,
            {
                let ghost sofar = infer_items(vs, i as nat, scope@);
                assert(inferable(vs[i as int]));
                let t = parse_type_from_value(&items[i], scope, diags);
                let ghost old_out = out@;
                out.push(t);
                i += 1;
                proof {
                    let last = infer(vs[i - 1], scope@);
                    assert(types_view(out@) =~= types_view(old_out).push(t@));
                    assert(before + (sofar.1 + last.1) =~= (before + sofar.1) + last.1);
                }
            }
            proof {
                lemma_tuple_view(out);
            }
            Type::Tuple(out)
        },
        Value::Struct(members) => {
            let ghost vs = crate::tree::named_values_view(members@);
            proof {
                lemma_struct_value_view(*members);
            }
            let mut out: Vec<(String, Type)> = Vec::new();
            let mut i: usize = 0;
            while i < members.len()
                invariant
                    i <= members.len(),
                    value is Struct,
                    *members == value->Struct_0,
                    vs == crate::tree::named_values_view(members@),
                    forall|k: int| 0 <= k < vs.len() ==> inferable((#[trigger] vs[k]).1),
                    members_view(out@) == infer_members(vs, i as nat, scope@).0,
                    diagnostics_view(diags@) == before + infer_members(vs, i as nat, scope@).1,
                decreases members.len() - i,
            {
                let ghost sofar = infer_members(vs, i as nat, scope@);
                assert(inferable(vs[i as int].1));
                let t = parse_type_from_value(&members[i].1, scope, diags);
                let name = members[i].0.clone();
                let ghost old_out = out@;
                out.push((name, t));
                i += 1;
                proof {
                    let last = infer(vs[i - 1].1, scope@);
                    assert(members_view(out@) =~= members_view(old_out).push((name@, t@)));
                    assert(before + (sofar.1 + last.1) =~= (before + sofar.1) + last.1);
                }
            }
            proof {
                lemma_struct_view(out);
            }
            Type::Struct(out)
        },
        Value::List(items) => {
            proof {
                lemma_list_value_view(*items);
            }
            Type::List(Box::new(parse_type_from_value(&items[0], scope, diags)))
        },
        Value::Dict(pairs) => {
            proof {
                lemma_dict_value_view(*pairs);
            }
            let k = parse_type_from_value(&pairs[0].0, scope, diags);
            let e = parse_type_from_value(&pairs[0].1, scope, diags);
            proof {
                let kd = infer(pairs@[0].0@, scope@).1;
                let ed = infer(pairs@[0].1@, scope@).1;
                assert(before + (kd + ed) =~= (before + kd) + ed);
            }
            Type::Dict(Box::new((k, e)))
        },
        Value::Var { name, range } => {
            match scope.get(name.as_str()) {
                Some(t) => t.clone(),
                None => {
                    let header = wrapped("variable '", name.as_str(), "' does not exist");
                    emit(range, header.as_str(), "not declared", diags).type_err()
                },
            }
        },
        Value::TupleAccess { name, access_mode, name_range, access_range } => infer_tuple_access(
            name,
            access_mode,
            name_range,
            access_range,
            scope,
            diags,
        ),
        Value::ListAccess { name, access_mode, access_type, name_range, access_range } => {
            access_type.clone()
        },
        Value::Op { op, range } => match op {
            Op::Add(v) => {
                assert(op@ == OpView::Binary(Operator::Add, Box::new(v.0@), Box::new(v.1@)));
                parse_type_from_value(&v.0, scope, diags)
            },
            Op::Sub(v) => {
                assert(op@ == OpView::Binary(Operator::Sub, Box::new(v.0@), Box::new(v.1@)));
                parse_type_from_value(&v.0, scope, diags)
            },
            Op::Mul(v) => {
                assert(op@ == OpView::Binary(Operator::Mul, Box::new(v.0@), Box::new(v.1@)));
                parse_type_from_value(&v.0, scope, diags)
            },
            Op::Div(v) => {
                assert(op@ == OpView::Binary(Operator::Div, Box::new(v.0@), Box::new(v.1@)));
                parse_type_from_value(&v.0, scope, diags)
            },
            Op::Mod(v) => {
                assert(op@ == OpView::Binary(Operator::Mod, Box::new(v.0@), Box::new(v.1@)));
                parse_type_from_value(&v.0, scope, diags)
            },
            Op::Pow(v) => {
                assert(op@ == OpView::Binary(Operator::Pow, Box::new(v.0@), Box::new(v.1@)));
                parse_type_from_value(&v.0, scope, diags)
            },
            Op::ListRemoveAll(lra) => {
                assert(op@ == OpView::ListRemoveAll(lra.0@, Box::new(lra.1@)));
                let body = wrapped("only use as expression, '", lra.0.as_str(), " --= ...'");
                emit(range, "operation not permitted", body.as_str(), diags).type_err()
            },
        },
        Value::Parenthesis(inner) => parse_type_from_value(inner, scope, diags),
        Value::Call { name, args } => {
            proof {
                crate::tree::lemma_call_value_view(*name, *args);
            }
            scope.get_fn_type(name.as_str())
        },
        Value::Error => Type::Error,
    }
}

} // verus!
