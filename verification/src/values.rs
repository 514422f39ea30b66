//! Lowering of value nodes into checked values.

use crate::diagnostic::{
    access_expected, arity, diagnostics_view, emit, expected_found, lemma_joined, none, one,
    text_access_expected,
    text_arity, text_expected_found, text_wrapped, wrapped, Diagnostic, DiagnosticView,
};
use crate::infer::{infer, inferable, parse_type_from_value};
use crate::nodes::{
    access_wf, comparison_wf, value_node_wf, values_wf, widened, AccessNode, CallNode, CmpKind,
    CmpNode, GetRange, LogicOperand, NameNodeUtils, Token, ValueKind, ValueNode,
};
use crate::scope::{Scope, ScopeView};
use crate::text::{
    char_of, i64_of, is_word, parse_char, parse_i64, parse_str, parse_usize, unquoted, usize_of,
};
use crate::tree::{
    comparison_value, equivalent, lemma_call_value_view, lemma_dict_value_view,
    lemma_list_value_view, lemma_struct_value_view, lemma_tuple_value_view, make_comparison_value,
    make_logic, make_op, make_relation, named_values_view, pairs_view, type_equiv, type_text,
    values_view, Bool, BoolView, Cmp, CmpView, Connective, Expr, ExprView, ListAccessMode,
    ListAccessModeView, OpView, Relation, TupleAccessMode, TupleAccessModeView, Type,
    TypeView, Value, ValueView,
};
use std::ops::Range;
use vstd::prelude::*;
use vstd::string::*;

verus! {

/// What a check of one type against another reports where they do not fit:
/// the given report, unless one of the two is the error type. An error type
/// stands for something already reported, so nothing more is said of it.
pub open spec fn mismatch_report(
    expected: TypeView,
    found: TypeView,
    range: Range<usize>,
    header: Seq<char>,
    body: Seq<char>,
) -> Seq<DiagnosticView> {
    if expected is Error || found is Error {
        none()
    } else {
        one(range, header, body)
    }
}

/// Whether values of two types may be compared, and what is reported where not:
/// the types must be interchangeable, and neither tuples, structs nor void
/// are compared. Error types report nothing.
pub open spec fn comparable(lt: TypeView, rt: TypeView, range: Range<usize>) -> (
    bool,
    Seq<DiagnosticView>,
) {
    if type_equiv(lt, rt) {
        match lt {
            TypeView::Tuple(_) => (
                false,
                one(
                    range,
                    "comparing tuple/struct"@,
                    "tuples/structs cannot be compared, create a function if you need it"@,
                ),
            ),
            TypeView::Struct(_) => (
                false,
                one(
                    range,
                    "comparing tuple/struct"@,
                    "tuples/structs cannot be compared, create a function if you need it"@,
                ),
            ),
            TypeView::Void => (
                false,
                one(
                    range,
                    "trying to compare void expressions"@,
                    "functions return void, which cannot be compared"@,
                ),
            ),
            TypeView::Error => (false, none()),
            _ => (true, none()),
        }
    } else {
        (
            false,
            mismatch_report(
                lt,
                rt,
                range,
                "comparing values of different types"@,
                "only comparisons of the same type are allowed"@,
            ),
        )
    }
}

/// A conjunction or disjunction of two operands of the given types, and what
/// is reported where an operand is no `bool`.
pub open spec fn connect(
    connective: Connective,
    l: ValueView,
    r: ValueView,
    lt: TypeView,
    rt: TypeView,
    range: Range<usize>,
) -> (CmpView, Seq<DiagnosticView>) {
    if !(lt is Bool) {
        (
            CmpView::Error,
            mismatch_report(
                TypeView::Bool,
                lt,
                range,
                "wrong type"@,
                text_expected_found("bool"@, type_text(lt)),
            ),
        )
    } else if !(rt is Bool) {
        (
            CmpView::Error,
            mismatch_report(
                TypeView::Bool,
                rt,
                range,
                "wrong type"@,
                text_expected_found("bool"@, type_text(rt)),
            ),
        )
    } else {
        (CmpView::Logic(connective, Box::new(l), Box::new(r)), none())
    }
}

/// How an access node reaches into a tuple or struct.
pub open spec fn access_mode_of(access: AccessNode) -> TupleAccessModeView {
    match access {
        AccessNode::Member(token) => TupleAccessModeView::Member(token.text@),
        AccessNode::Index(token) => TupleAccessModeView::Index(usize_of(token.text@)->0),
    }
}

/// The range of an access node, its dot included.
pub open spec fn access_range_of(access: AccessNode) -> Range<usize> {
    access.range_of()
}

/// The checked value of a value node, and what lowering it reports, in order.
pub open spec fn lower_value(n: ValueNode, scope: ScopeView) -> (ValueView, Seq<DiagnosticView>)
    decreases n, 0nat,
{
    match n.kind {
        ValueKind::Int(text) => (ValueView::Int(i64_of(text@)->0), none()),
        ValueKind::Num(text) => (ValueView::Num(text@), none()),
        ValueKind::Bool(text) => (ValueView::Bool(BoolView::Primitive(text@ == "true"@)), none()),
        ValueKind::Char(text) => (ValueView::Char(char_of(text@)), none()),
        ValueKind::Str(text) => (ValueView::Str(unquoted(text@)), none()),
        ValueKind::Name(text) => (ValueView::Var { name: text@, range: n.span }, none()),
        ValueKind::Tuple(items) => {
            let r = lower_values(items@, items@.len(), scope);
            (ValueView::Tuple(r.0), r.1)
        },
        ValueKind::Struct(members) => {
            let r = lower_members(members@, members@.len(), scope);
            (ValueView::Struct(r.0), r.1)
        },
        ValueKind::List(items) => {
            let r = lower_values(items@, items@.len(), scope);
            (ValueView::List(r.0), r.1)
        },
        ValueKind::Dict(pairs) => {
            let r = lower_pairs(pairs@, pairs@.len(), scope);
            (ValueView::Dict(r.0), r.1)
        },
        ValueKind::TupleAccess { name, access } => (
            ValueView::TupleAccess {
                name: name.text@,
                access_mode: access_mode_of(access),
                name_range: name.span,
                access_range: access_range_of(access),
            },
            none(),
        ),
        ValueKind::ListAccess { name, key } => lower_list_access(name, *key, scope),
        ValueKind::Op { operator, lhs, rhs } => {
            let l = lower_value(*lhs, scope);
            let r = lower_value(*rhs, scope);
            (
                ValueView::Op {
                    op: OpView::Binary(operator, Box::new(l.0), Box::new(r.0)),
                    range: n.span,
                },
                l.1 + r.1,
            )
        },
        ValueKind::Cmp(c) => {
            let r = lower_comparison(*c, scope);
            (ValueView::Bool(BoolView::Cmp(r.0)), r.1)
        },
        ValueKind::Logic { connective, lhs, rhs } => {
            let l = match *lhs {
                LogicOperand::Value(v) => lower_value(v, scope),
                LogicOperand::Cmp(c) => {
                    let inner = lower_comparison(c, scope);
                    (comparison_value(inner.0, c.span), inner.1)
                },
            };
            let r = lower_value(*rhs, scope);
            let lt = infer(l.0, scope);
            let rt = infer(r.0, scope);
            let joined = connect(connective, l.0, r.0, lt.0, rt.0, n.span);
            (comparison_value(joined.0, n.span), l.1 + r.1 + lt.1 + rt.1 + joined.1)
        },
        ValueKind::Parenthesis(inner) => {
            let r = lower_value(*inner, scope);
            (ValueView::Parenthesis(Box::new(r.0)), r.1)
        },
        ValueKind::Call(call) => {
            let r = lower_call(call, scope);
            (
                match r.0 {
                    Some(args) => ValueView::Call { name: call.name.text@, args },
                    None => ValueView::Error,
                },
                r.1,
            )
        },
        ValueKind::ModuleAccess => (
            ValueView::Error,
            one(n.span, "unimplemented"@, "module access is not supported"@),
        ),
        ValueKind::TypeConversion => (
            ValueView::Error,
            one(n.span, "unimplemented"@, "type conversion is not supported"@),
        ),
    }
}

/// [`lower_value`] of the first `n` nodes of a list.
pub open spec fn lower_values(items: Seq<ValueNode>, n: nat, scope: ScopeView) -> (
    Seq<ValueView>,
    Seq<DiagnosticView>,
)
    decreases items, n,
{
    if n == 0 || n > items.len() {
        (Seq::empty(), none())
    } else {
        let before = lower_values(items, (n - 1) as nat, scope);
        let last = lower_value(items[n - 1], scope);
        (before.0.push(last.0), before.1 + last.1)
    }
}

/// [`lower_value`] of the first `n` members of a struct literal, each under its name.
pub open spec fn lower_members(members: Seq<(Token, ValueNode)>, n: nat, scope: ScopeView) -> (
    Seq<(Seq<char>, ValueView)>,
    Seq<DiagnosticView>,
)
    decreases members, n,
{
    if n == 0 || n > members.len() {
        (Seq::empty(), none())
    } else {
        let before = lower_members(members, (n - 1) as nat, scope);
        let last = lower_value(members[n - 1].1, scope);
        (before.0.push((members[n - 1].0.text@, last.0)), before.1 + last.1)
    }
}

/// [`lower_value`] of the first `n` pairs of a dictionary literal, key before value.
pub open spec fn lower_pairs(pairs: Seq<(ValueNode, ValueNode)>, n: nat, scope: ScopeView) -> (
    Seq<(ValueView, ValueView)>,
    Seq<DiagnosticView>,
)
    decreases pairs, n,
{
    if n == 0 || n > pairs.len() {
        (Seq::empty(), none())
    } else {
        let before = lower_pairs(pairs, (n - 1) as nat, scope);
        let key = lower_value(pairs[n - 1].0, scope);
        let value = lower_value(pairs[n - 1].1, scope);
        (before.0.push((key.0, value.0)), before.1 + key.1 + value.1)
    }
}

/// The checked value of `name[key]`.
///
/// The variable must be a list or a dictionary. A list takes an integer
/// literal that is an index. A dictionary takes a key of its key type.
pub open spec fn lower_list_access(name: Token, key: ValueNode, scope: ScopeView) -> (
    ValueView,
    Seq<DiagnosticView>,
)
    decreases key, 1nat,
{
    let access_range = widened(key.span);
    if !scope.vars.contains_key(name.text@) {
        (
            ValueView::Error,
            one(
                name.span,
                "accessed invalid list/dictionary"@,
                "list/dictionary does not exist"@,
            ),
        )
    } else {
        match scope.vars[name.text@] {
            TypeView::List(item) => match key.kind {
                ValueKind::Int(text) => match usize_of(text@) {
                    Some(index) => (
                        ValueView::ListAccess {
                            name: name.text@,
                            access_mode: ListAccessModeView::List(index),
                            access_type: *item,
                            name_range: name.span,
                            access_range,
                        },
                        none(),
                    ),
                    None => (
                        ValueView::Error,
                        one(
                            access_range,
                            "negative index"@,
                            "index is negative, lists can only be accessed with positive numbers"@,
                        ),
                    ),
                },
                _ => (
                    ValueView::Error,
                    one(
                        access_range,
                        "accessing list as a dictionary"@,
                        text_wrapped(
                            "use the index of the element you want to access instead: "@,
                            name.text@,
                            "[0]"@,
                        ),
                    ),
                ),
            },
            TypeView::Dict(key_type, value_type) => {
                let k = lower_value(key, scope);
                let kt = infer(k.0, scope);
                if type_equiv(*key_type, kt.0) {
                    (
                        ValueView::ListAccess {
                            name: name.text@,
                            access_mode: ListAccessModeView::Dict(Box::new(k.0)),
                            access_type: *value_type,
                            name_range: name.span,
                            access_range,
                        },
                        k.1 + kt.1,
                    )
                } else {
                    (
                        ValueView::Error,
                        k.1 + kt.1 + mismatch_report(
                            *key_type,
                            kt.0,
                            access_range,
                            "wrong access type"@,
                            text_access_expected(type_text(*key_type), type_text(kt.0)),
                        ),
                    )
                }
            },
            _ => (
                ValueView::Error,
                one(
                    name.span,
                    "variable exists but is not a list/dictionary"@,
                    "not a list/dictionary"@,
                ),
            ),
        }
    }
}

/// The checked form of a comparison or negation node.
///
/// Both sides of a comparison must be [`comparable`]; what is negated must be
/// a `bool`. Where not, the result is the error comparison.
pub open spec fn lower_comparison(c: CmpNode, scope: ScopeView) -> (
    CmpView,
    Seq<DiagnosticView>,
)
    decreases c, 0nat,
{
    match c.kind {
        CmpKind::Relation { relation, lhs, rhs } => {
            let l = lower_value(*lhs, scope);
            let r = lower_value(*rhs, scope);
            let lt = infer(l.0, scope);
            let rt = infer(r.0, scope);
            let ok = comparable(lt.0, rt.0, c.span);
            (
                if ok.0 {
                    CmpView::Relation(relation, Box::new(l.0), Box::new(r.0))
                } else {
                    CmpView::Error
                },
                l.1 + r.1 + lt.1 + rt.1 + ok.1,
            )
        },
        CmpKind::Not(inner) => {
            let v = lower_value(*inner, scope);
            let t = infer(v.0, scope);
            if t.0 is Bool {
                (CmpView::Not(Box::new(v.0)), v.1 + t.1)
            } else {
                (
                    CmpView::Error,
                    v.1 + t.1 + mismatch_report(
                        TypeView::Bool,
                        t.0,
                        c.span,
                        "wrong negation type"@,
                        text_wrapped("type '"@, type_text(t.0), "' can't be negated"@),
                    ),
                )
            }
        },
    }
}

/// The checked arguments of a call, or `None` where the call is refused.
///
/// The function must be declared and take as many arguments as are given;
/// then each argument is lowered and must have the type of its parameter.
pub open spec fn lower_call(call: CallNode, scope: ScopeView) -> (
    Option<Seq<ValueView>>,
    Seq<DiagnosticView>,
)
    decreases call, 0nat,
{
    let name = call.name.text@;
    if !scope.funcs.contains_key(name) {
        (None, one(call.name.span, "call to non declared function"@, "does not exist"@))
    } else {
        let params = scope.funcs[name].args;
        if call.args@.len() != params.len() {
            (
                None,
                one(
                    call.name.span,
                    "wrong number of arguments"@,
                    text_arity(params.len(), call.args@.len()),
                ),
            )
        } else {
            let r = lower_args(call.args@, params, call.args@.len(), scope);
            (
                if r.1 {
                    Some(r.0)
                } else {
                    None
                },
                r.2,
            )
        }
    }
}

/// The first `n` arguments of a call, lowered; whether each has the type of
/// its parameter; and what is reported.
pub open spec fn lower_args(
    args: Seq<ValueNode>,
    params: Seq<TypeView>,
    n: nat,
    scope: ScopeView,
) -> (Seq<ValueView>, bool, Seq<DiagnosticView>)
    decreases args, n,
{
    if n == 0 || n > args.len() || n > params.len() {
        (Seq::empty(), true, none())
    } else {
        let before = lower_args(args, params, (n - 1) as nat, scope);
        let v = lower_value(args[n - 1], scope);
        let t = infer(v.0, scope);
        let fits = type_equiv(t.0, params[n - 1]);
        (
            before.0.push(v.0),
            before.1 && fits,
            before.2 + v.1 + t.1 + (if fits {
                none()
            } else {
                mismatch_report(
                    params[n - 1],
                    t.0,
                    args[n - 1].span,
                    "wrong argument type"@,
                    text_expected_found(type_text(params[n - 1]), type_text(t.0)),
                )
            }),
        )
    }
}

/// The statement that a call gives.
pub open spec fn call_expr(call: CallNode, scope: ScopeView) -> ExprView {
    match lower_call(call, scope).0 {
        Some(args) => ExprView::Call { name: call.name.text@, args },
        None => ExprView::Error,
    }
}

/// Records the given report of a mismatch, unless one of the two types is the error type.
pub fn report_mismatch(
    expected: &Type,
    found: &Type,
    range: &Range<usize>,
    header: &str,
    body: &str,
    diags: &mut Vec<Diagnostic>,
)
    ensures
        diagnostics_view(final(diags)@) =~= diagnostics_view(old(diags)@) + mismatch_report(
            expected@,
            found@,
            *range,
            header@,
            body@,
        ),
{
    let silent = matches!(expected, Type::Error) || matches!(found, Type::Error);
    if !silent {
        emit(range, header, body, diags);
    }
}

/// Decides [`comparable`] and records what it reports.
pub fn can_compare(lt: &Type, rt: &Type, range: &Range<usize>, diags: &mut Vec<Diagnostic>) -> (ok:
    bool)
    ensures
        ok == comparable(lt@, rt@, *range).0,
        diagnostics_view(final(diags)@) =~= diagnostics_view(old(diags)@) + comparable(
            lt@,
            rt@,
            *range,
        ).1,
{
    if equivalent(lt, rt) {
        match lt {
            Type::Tuple(_) | Type::Struct(_) => emit(
                range,
                "comparing tuple/struct",
                "tuples/structs cannot be compared, create a function if you need it",
                diags,
            )._false(),
            Type::Void => emit(
                range,
                "trying to compare void expressions",
                "functions return void, which cannot be compared",
                diags,
            )._false(),
            Type::Error => false,
            _ => true,
        }
    } else {
        report_mismatch(
            lt,
            rt,
            range,
            "comparing values of different types",
            "only comparisons of the same type are allowed",
            diags,
        );
        false
    }
}

/// Joins two operands by a connective where both are `bool`.
pub fn parse_connective(
    connective: Connective,
    l: Value,
    r: Value,
    lt: &Type,
    rt: &Type,
    range: &Range<usize>,
    diags: &mut Vec<Diagnostic>,
) -> (c: Cmp)
    ensures
        c@ == connect(connective, l@, r@, lt@, rt@, *range).0,
        diagnostics_view(final(diags)@) =~= diagnostics_view(old(diags)@) + connect(
            connective,
            l@,
            r@,
            lt@,
            rt@,
            *range,
        ).1,
{
    if !matches!(lt, Type::Bool) {
        let found = lt.to_string();
        let body = expected_found("bool", found.as_str());
        report_mismatch(&Type::Bool, lt, range, "wrong type", body.as_str(), diags);
        Cmp::Error
    } else if !matches!(rt, Type::Bool) {
        let found = rt.to_string();
        let body = expected_found("bool", found.as_str());
        report_mismatch(&Type::Bool, rt, range, "wrong type", body.as_str(), diags);
        Cmp::Error
    } else {
        make_logic(connective, l, r)
    }
}

/// Lowers the nodes of a list, in order.
pub fn parse_values(items: &Vec<ValueNode>, scope: &Scope, diags: &mut Vec<Diagnostic>) -> (out:
    Vec<Value>)
    requires
        values_wf(items@),
    ensures
        out@.len() == items@.len(),
        values_view(out@) == lower_values(items@, items@.len(), scope@).0,
        diagnostics_view(final(diags)@) =~= diagnostics_view(old(diags)@) + lower_values(
            items@,
            items@.len(),
            scope@,
        ).1,
        forall|k: int| 0 <= k < out@.len() ==> inferable(#[trigger] out@[k]@),
    decreases items,
{
    let ghost before = diagnostics_view(diags@);
    let mut out: Vec<Value> = Vec::new();
    let mut i: usize = 0;
    while i < items.len()
        invariant
            i <= items.len(),
            out@.len() == i,
            values_wf(items@),
            values_view(out@) == lower_values(items@, i as nat, scope@).0,
            diagnostics_view(diags@) =~= before + lower_values(items@, i as nat, scope@).1,
            forall|k: int| 0 <= k < out@.len() ==> inferable(#[trigger] out@[k]@),
        decreases items.len() - i,
    {
        let v = parse_value(&items[i], scope, diags);
        let ghost old_out = out@;
        out.push(v);
        i += 1;
        assert(values_view(out@) =~= values_view(old_out).push(v@));
    }
    out
}

/// Lowers the members of a struct literal, in order.
pub fn parse_members(
    members: &Vec<(Token, ValueNode)>,
    scope: &Scope,
    diags: &mut Vec<Diagnostic>,
) -> (out: Vec<(String, Value)>)
    requires
        forall|i: int| 0 <= i < members@.len() ==> value_node_wf((#[trigger] members@[i]).1),
    ensures
        named_values_view(out@) == lower_members(members@, members@.len(), scope@).0,
        diagnostics_view(final(diags)@) =~= diagnostics_view(old(diags)@) + lower_members(
            members@,
            members@.len(),
            scope@,
        ).1,
        forall|k: int| 0 <= k < out@.len() ==> inferable((#[trigger] out@[k]).1@),
    decreases members,
{
    let ghost before = diagnostics_view(diags@);
    let mut out: Vec<(String, Value)> = Vec::new();
    let mut i: usize = 0;
    while i < members.len()
        invariant
            i <= members.len(),
            out@.len() == i,
            forall|i: int| 0 <= i < members@.len() ==> value_node_wf((#[trigger] members@[i]).1),
            named_values_view(out@) == lower_members(members@, i as nat, scope@).0,
            diagnostics_view(diags@) =~= before + lower_members(members@, i as nat, scope@).1,
            forall|k: int| 0 <= k < out@.len() ==> inferable((#[trigger] out@[k]).1@),
        decreases members.len() - i,
    {
        assert(value_node_wf(members@[i as int].1));
        let v = parse_value(&members[i].1, scope, diags);
        let name = members[i].0.to_string();
        let ghost old_out = out@;
        out.push((name, v));
        i += 1;
        assert(named_values_view(out@) =~= named_values_view(old_out).push((name@, v@)));
    }
    out
}

/// Lowers the pairs of a dictionary literal, in order, each key before its value.
pub fn parse_pairs(
    pairs: &Vec<(ValueNode, ValueNode)>,
    scope: &Scope,
    diags: &mut Vec<Diagnostic>,
) -> (out: Vec<(Value, Value)>)
    requires
        forall|i: int|
            0 <= i < pairs@.len() ==> value_node_wf((#[trigger] pairs@[i]).0) && value_node_wf(
                pairs@[i].1,
            ),
    ensures
        out@.len() == pairs@.len(),
        pairs_view(out@) == lower_pairs(pairs@, pairs@.len(), scope@).0,
        diagnostics_view(final(diags)@) =~= diagnostics_view(old(diags)@) + lower_pairs(
            pairs@,
            pairs@.len(),
            scope@,
        ).1,
        forall|k: int|
            0 <= k < out@.len() ==> inferable((#[trigger] out@[k]).0@) && inferable(out@[k].1@),
    decreases pairs,
{
    let ghost before = diagnostics_view(diags@);
    let mut out: Vec<(Value, Value)> = Vec::new();
    let mut i: usize = 0;
    while i < pairs.len()
        invariant
            i <= pairs.len(),
            out@.len() == i,
            forall|i: int|
                0 <= i < pairs@.len() ==> value_node_wf((#[trigger] pairs@[i]).0) && value_node_wf(
                    pairs@[i].1,
                ),
            pairs_view(out@) == lower_pairs(pairs@, i as nat, scope@).0,
            diagnostics_view(diags@) =~= before + lower_pairs(pairs@, i as nat, scope@).1,
            forall|k: int|
                0 <= k < out@.len() ==> inferable((#[trigger] out@[k]).0@) && inferable(
                    out@[k].1@,
                ),
        decreases pairs.len() - i,
    {
        assert(value_node_wf(pairs@[i as int].0) && value_node_wf(pairs@[i as int].1));
        let k = parse_value(&pairs[i].0, scope, diags);
        let v = parse_value(&pairs[i].1, scope, diags);
        let ghost old_out = out@;
        out.push((k, v));
        i += 1;
        assert(pairs_view(out@) =~= pairs_view(old_out).push((k@, v@)));
    }
    out
}

/// Lowers a tuple or struct access.
pub fn parse_tuple_access(name: &Token, access: &AccessNode) -> (v: Value)
    requires
        access_wf(*access),
    ensures
        v@ == (ValueView::TupleAccess {
            name: name.text@,
            access_mode: access_mode_of(*access),
            name_range: name.span,
            access_range: access_range_of(*access),
        }),
{
    match access {
        AccessNode::Member(token) => Value::TupleAccess {
            name: name.to_string(),
            access_mode: TupleAccessMode::Member(token.to_string()),
            name_range: name.range(),
            access_range: access.range(),
        },
        AccessNode::Index(token) => Value::TupleAccess {
            name: name.to_string(),
            access_mode: TupleAccessMode::Index(parse_usize(token.text.as_str()).unwrap()),
            name_range: name.range(),
            access_range: access.range(),
        },
    }
}

/// Lowers a value node and records what there is to report.
pub fn parse_value(node: &ValueNode, scope: &Scope, diags: &mut Vec<Diagnostic>) -> (v: Value)
    requires
        value_node_wf(*node),
    ensures
        v@ == lower_value(*node, scope@).0,
        diagnostics_view(final(diags)@) =~= diagnostics_view(old(diags)@) + lower_value(
            *node,
            scope@,
        ).1,
        inferable(v@),
    decreases node, 1nat,
{
    match &node.kind {
        ValueKind::Int(text) => Value::Int(parse_i64(text.as_str()).unwrap()),
        ValueKind::Num(text) => Value::Num(text.clone()),
        ValueKind::Bool(text) => {
            let b = Bool::Primitive(is_word(text.as_str(), "true"));
            assert(b@ == BoolView::Primitive(text@ == "true"@));
            Value::Bool(b)
        },
        ValueKind::Char(text) => Value::Char(parse_char(text.as_str())),
        ValueKind::Str(text) => Value::Str(parse_str(text.as_str())),
        ValueKind::Name(text) => Value::Var { name: text.clone(), range: node.range() },
        ValueKind::Tuple(_) => parse_literal_of_values(node, scope, diags),
        ValueKind::List(_) => parse_literal_of_values(node, scope, diags),
        ValueKind::Struct(_) => parse_literal_of_pairs(node, scope, diags),
        ValueKind::Dict(_) => parse_literal_of_pairs(node, scope, diags),
        ValueKind::TupleAccess { name, access } => parse_tuple_access(name, access),
        ValueKind::ListAccess { name, key } => parse_value_list_access(name, key, scope, diags),
        ValueKind::Op { .. } => parse_value_op(node, scope, diags),
        ValueKind::Cmp(c) => {
            let b = Bool::Cmp(parse_comparison(c, scope, diags));
            assert(b@ == BoolView::Cmp(lower_comparison(**c, scope@).0));
            Value::Bool(b)
        },
        ValueKind::Logic { .. } => parse_value_logic(node, scope, diags),
        ValueKind::Parenthesis(inner) => Value::Parenthesis(
            Box::new(parse_value(inner, scope, diags)),
        ),
        ValueKind::Call(_) => parse_value_call(node, scope, diags),
        ValueKind::ModuleAccess => emit(
            &node.span,
            "unimplemented",
            "module access is not supported",
            diags,
        ).value_err(),
        ValueKind::TypeConversion => emit(
            &node.span,
            "unimplemented",
            "type conversion is not supported",
            diags,
        ).value_err(),
    }
}

/// Lowers a tuple or list literal.
pub fn parse_literal_of_values(node: &ValueNode, scope: &Scope, diags: &mut Vec<Diagnostic>) -> (v:
    Value)
    requires
        value_node_wf(*node),
        node.kind is Tuple || node.kind is List,
    ensures
        v@ == lower_value(*node, scope@).0,
        diagnostics_view(final(diags)@) =~= diagnostics_view(old(diags)@) + lower_value(
            *node,
            scope@,
        ).1,
        inferable(v@),
    decreases node, 0nat,
{
    match &node.kind {
        ValueKind::Tuple(items) => {
            let out = parse_values(items, scope, diags);
            proof {
                lemma_tuple_value_view(out);
                assert forall|k: int| 0 <= k < values_view(out@).len() implies inferable(
                    #[trigger] values_view(out@)[k],
                ) by {
                    assert(inferable(out@[k]@));
                }
            }
            Value::Tuple(out)
        },
        ValueKind::List(items) => {
            let out = parse_values(items, scope, diags);
            proof {
                lemma_list_value_view(out);
                assert(inferable(out@[0]@));
            }
            Value::List(out)
        },
        _ => Value::Error,
    }
}

/// Lowers a struct or dictionary literal.
pub fn parse_literal_of_pairs(node: &ValueNode, scope: &Scope, diags: &mut Vec<Diagnostic>) -> (v:
    Value)
    requires
        value_node_wf(*node),
        node.kind is Struct || node.kind is Dict,
    ensures
        v@ == lower_value(*node, scope@).0,
        diagnostics_view(final(diags)@) =~= diagnostics_view(old(diags)@) + lower_value(
            *node,
            scope@,
        ).1,
        inferable(v@),
    decreases node, 0nat,
{
    match &node.kind {
        ValueKind::Struct(members) => {
            let out = parse_members(members, scope, diags);
            proof {
                lemma_struct_value_view(out);
                assert forall|k: int| 0 <= k < named_values_view(out@).len() implies inferable(
                    (#[trigger] named_values_view(out@)[k]).1,
                ) by {
                    assert(inferable(out@[k].1@));
                }
            }
            Value::Struct(out)
        },
        ValueKind::Dict(pairs) => {
            let out = parse_pairs(pairs, scope, diags);
            proof {
                lemma_dict_value_view(out);
                assert(inferable(out@[0].0@) && inferable(out@[0].1@));
            }
            Value::Dict(out)
        },
        _ => Value::Error,
    }
}

/// Lowers a conjunction or disjunction: both operands must be `bool`.
pub fn parse_value_logic(node: &ValueNode, scope: &Scope, diags: &mut Vec<Diagnostic>) -> (v: Value)
    requires
        value_node_wf(*node),
        node.kind is Logic,
    ensures
        v@ == lower_value(*node, scope@).0,
        diagnostics_view(final(diags)@) =~= diagnostics_view(old(diags)@) + lower_value(
            *node,
            scope@,
        ).1,
        inferable(v@),
    decreases node, 0nat,
{
    match &node.kind {
        ValueKind::Logic { connective, lhs, rhs } => {
            let ghost d0 = diagnostics_view(diags@);
            let l = match &**lhs {
                LogicOperand::Value(v) => parse_value(v, scope, diags),
                LogicOperand::Cmp(c) => {
                    let inner = parse_comparison(c, scope, diags);
                    make_comparison_value(inner, c.range())
                },
            };
            let ghost d1 = diagnostics_view(diags@);
            let r = parse_value(rhs, scope, diags);
            let ghost d2 = diagnostics_view(diags@);
            let lt = parse_type_from_value(&l, scope, diags);
            let ghost d3 = diagnostics_view(diags@);
            let rt = parse_type_from_value(&r, scope, diags);
            let ghost d4 = diagnostics_view(diags@);
            let joined = parse_connective(*connective, l, r, &lt, &rt, &node.span, diags);
            proof {
                let a = match &**lhs {
                    LogicOperand::Value(v) => lower_value(*v, scope@).1,
                    LogicOperand::Cmp(c) => lower_comparison(*c, scope@).1,
                };
                let b = lower_value(**rhs, scope@).1;
                let c = infer(l@, scope@).1;
                let d = infer(r@, scope@).1;
                let e = connect(*connective, l@, r@, lt@, rt@, node.span).1;
                assert(d1 == d0 + a);
                assert(d2 == d1 + b);
                assert(d3 == d2 + c);
                assert(d4 == d3 + d);
                lemma_joined(d0, a, b);
                lemma_joined(d0, a + b, c);
                lemma_joined(d0, a + b + c, d);
                lemma_joined(d0, a + b + c + d, e);
                assert(diagnostics_view(diags@) == d0 + (a + b + c + d + e));
            }
            make_comparison_value(joined, node.range())
        },
        _ => Value::Error,
    }
}

/// Lowers a call that stands as a value.
pub fn parse_value_call(node: &ValueNode, scope: &Scope, diags: &mut Vec<Diagnostic>) -> (v: Value)
    requires
        value_node_wf(*node),
        node.kind is Call,
    ensures
        v@ == lower_value(*node, scope@).0,
        diagnostics_view(final(diags)@) =~= diagnostics_view(old(diags)@) + lower_value(
            *node,
            scope@,
        ).1,
        inferable(v@),
    decreases node, 0nat,
{
    match &node.kind {
        ValueKind::Call(call) => {
            match parse_call_args(call, scope, diags) {
                Some(args) => {
                    let name = call.name.to_string();
                    proof {
                        lemma_call_value_view(name, args);
                    }
                    Value::Call { name, args }
                },
                None => Value::Error,
            }
        },
        _ => Value::Error,
    }
}

/// Lowers an arithmetic operation: both operands, left before right.
pub fn parse_value_op(node: &ValueNode, scope: &Scope, diags: &mut Vec<Diagnostic>) -> (v: Value)
    requires
        value_node_wf(*node),
        node.kind is Op,
    ensures
        v@ == lower_value(*node, scope@).0,
        diagnostics_view(final(diags)@) =~= diagnostics_view(old(diags)@) + lower_value(
            *node,
            scope@,
        ).1,
        inferable(v@),
    decreases node, 0nat,
{
    match &node.kind {
        ValueKind::Op { operator, lhs, rhs } => {
            let l = parse_value(lhs, scope, diags);
            let r = parse_value(rhs, scope, diags);
            Value::Op { op: make_op(*operator, l, r), range: node.range() }
        },
        _ => Value::Error,
    }
}

/// Lowers `name[key]`.
pub fn parse_value_list_access(
    name: &Token,
    key: &ValueNode,
    scope: &Scope,
    diags: &mut Vec<Diagnostic>,
) -> (v: Value)
    requires
        value_node_wf(*key),
        key.span.start >= 1,
        key.span.end < usize::MAX,
    ensures
        v@ == lower_list_access(*name, *key, scope@).0,
        diagnostics_view(final(diags)@) =~= diagnostics_view(old(diags)@) + lower_list_access(
            *name,
            *key,
            scope@,
        ).1,
        inferable(v@),
    decreases key, 2nat,
{
    let access_range = key.span.start - 1..key.span.end + 1;
    let list_type = match scope.get(name.text.as_str()) {
        Some(t) => t,
        None => {
            return emit(
                &name.span,
                "accessed invalid list/dictionary",
                "list/dictionary does not exist",
                diags,
            ).value_err();
        },
    };
    match list_type {
        Type::List(item) => match &key.kind {
            ValueKind::Int(text) => match parse_usize(text.as_str()) {
                Some(index) => {
                    let mode = ListAccessMode::List(index);
                    assert(mode@ == ListAccessModeView::List(index));
                    Value::ListAccess {
                        name: name.to_string(),
                        access_mode: mode,
                        access_type: (**item).clone(),
                        name_range: name.range(),
                        access_range,
                    }
                },
                None => emit(
                    &access_range,
                    "negative index",
                    "index is negative, lists can only be accessed with positive numbers",
                    diags,
                ).value_err(),
            },
            _ => {
                let body = wrapped(
                    "use the index of the element you want to access instead: ",
                    name.text.as_str(),
                    "[0]",
                );
                emit(&access_range, "accessing list as a dictionary", body.as_str(), diags).value_err()
            },
        },
        Type::Dict(pair) => {
            let ghost d0 = diagnostics_view(diags@);
            let k = parse_value(key, scope, diags);
            let kt = parse_type_from_value(&k, scope, diags);
            proof {
                lemma_joined(d0, lower_value(*key, scope@).1, infer(k@, scope@).1);
            }
            if equivalent(&pair.0, &kt) {
                let mode = ListAccessMode::Dict(Box::new(k));
                assert(mode@ == ListAccessModeView::Dict(Box::new(k@)));
                Value::ListAccess {
                    name: name.to_string(),
                    access_mode: mode,
                    access_type: pair.1.clone(),
                    name_range: name.range(),
                    access_range,
                }
            } else {
                let expected = pair.0.to_string();
                let found = kt.to_string();
                let body = access_expected(expected.as_str(), found.as_str());
                report_mismatch(
                    &pair.0,
                    &kt,
                    &access_range,
                    "wrong access type",
                    body.as_str(),
                    diags,
                );
                proof {
                    lemma_joined(
                        d0,
                        lower_value(*key, scope@).1 + infer(k@, scope@).1,
                        mismatch_report(pair.0@, kt@, access_range, "wrong access type"@, body@),
                    );
                }
                Value::Error
            }
        },
        _ => emit(
            &name.span,
            "variable exists but is not a list/dictionary",
            "not a list/dictionary",
            diags,
        ).value_err(),
    }
}

/// Lowers a comparison or negation node.
pub fn parse_comparison(c: &CmpNode, scope: &Scope, diags: &mut Vec<Diagnostic>) -> (r: Cmp)
    requires
        comparison_wf(*c),
    ensures
        r@ == lower_comparison(*c, scope@).0,
        diagnostics_view(final(diags)@) =~= diagnostics_view(old(diags)@) + lower_comparison(
            *c,
            scope@,
        ).1,
    decreases c, 0nat,
{
    match &c.kind {
        CmpKind::Relation { relation, lhs, rhs } => {
            let ghost d0 = diagnostics_view(diags@);
            let l = parse_value(lhs, scope, diags);
            let r = parse_value(rhs, scope, diags);
            let lt = parse_type_from_value(&l, scope, diags);
            let rt = parse_type_from_value(&r, scope, diags);
            let ok = can_compare(&lt, &rt, &c.span, diags);
            proof {
                let a = lower_value(**lhs, scope@).1;
                let b = lower_value(**rhs, scope@).1;
                let e = infer(l@, scope@).1;
                let f = infer(r@, scope@).1;
                let g = comparable(lt@, rt@, c.span).1;
                lemma_joined(d0, a, b);
                lemma_joined(d0, a + b, e);
                lemma_joined(d0, a + b + e, f);
                lemma_joined(d0, a + b + e + f, g);
                assert(diagnostics_view(diags@) == d0 + (a + b + e + f + g));
            }
            if ok {
                make_relation(*relation, l, r)
            } else {
                Cmp::Error
            }
        },
        CmpKind::Not(inner) => {
            let ghost d0 = diagnostics_view(diags@);
            let v = parse_value(inner, scope, diags);
            let t = parse_type_from_value(&v, scope, diags);
            proof {
                lemma_joined(d0, lower_value(**inner, scope@).1, infer(v@, scope@).1);
            }
            if matches!(t, Type::Bool) {
                Cmp::Not(Box::new(v))
            } else {
                let text = t.to_string();
                let body = wrapped("type '", text.as_str(), "' can't be negated");
                report_mismatch(
                    &Type::Bool,
                    &t,
                    &c.span,
                    "wrong negation type",
                    body.as_str(),
                    diags,
                );
                proof {
                    lemma_joined(
                        d0,
                        lower_value(**inner, scope@).1 + infer(v@, scope@).1,
                        mismatch_report(TypeView::Bool, t@, c.span, "wrong negation type"@, body@),
                    );
                }
                Cmp::Error
            }
        },
    }
}

/// Lowers the arguments of a call; `None` where the call is refused.
pub fn parse_call_args(call: &CallNode, scope: &Scope, diags: &mut Vec<Diagnostic>) -> (r: Option<
    Vec<Value>,
>)
    requires
        values_wf(call.args@),
    ensures
        match r {
            Some(args) => lower_call(*call, scope@).0 == Some(values_view(args@)),
            None => lower_call(*call, scope@).0 is None,
        },
        diagnostics_view(final(diags)@) =~= diagnostics_view(old(diags)@) + lower_call(
            *call,
            scope@,
        ).1,
    decreases call, 0nat,
{
    let ghost before = diagnostics_view(diags@);
    let func = match scope.get_fn(call.name.text.as_str()) {
        Some(f) => f,
        None => {
            emit(&call.name.span, "call to non declared function", "does not exist", diags);
            return None;
        },
    };
    let ghost params = crate::tree::types_view(func.args@);
    if call.args.len() != func.args.len() {
        let body = arity(func.args.len(), call.args.len());
        emit(&call.name.span, "wrong number of arguments", body.as_str(), diags);
        return None;
    }
    let mut ok = true;
    let mut args: Vec<Value> = Vec::new();
    let mut i: usize = 0;
    while i < call.args.len()
        invariant
            i <= call.args.len(),
            call.args.len() == func.args.len(),
            args@.len() == i,
            values_wf(call.args@),
            params == crate::tree::types_view(func.args@),
            values_view(args@) == lower_args(call.args@, params, i as nat, scope@).0,
            ok == lower_args(call.args@, params, i as nat, scope@).1,
            diagnostics_view(diags@) =~= before + lower_args(call.args@, params, i as nat, scope@).2,
        decreases call.args.len() - i,
    {
        let ghost sofar = lower_args(call.args@, params, i as nat, scope@).2;
        let value = parse_value(&call.args[i], scope, diags);
        let vt = parse_type_from_value(&value, scope, diags);
        let at = &func.args[i];
        let ghost a = lower_value(call.args@[i as int], scope@).1;
        let ghost b = infer(value@, scope@).1;
        let ghost c = none();
        if !equivalent(&vt, at) {
            ok = false;
            let expected = at.to_string();
            let found = vt.to_string();
            let body = expected_found(expected.as_str(), found.as_str());
            report_mismatch(at, &vt, &call.args[i].span, "wrong argument type", body.as_str(), diags);
            proof {
                c = mismatch_report(at@, vt@, call.args@[i as int].span, "wrong argument type"@, body@);
            }
        }
        proof {
            assert(diagnostics_view(diags@) == before + sofar + a + b + c);
            lemma_joined(before, sofar, a);
            lemma_joined(before, sofar + a, b);
            lemma_joined(before, sofar + a + b, c);
        }
        let ghost old_args = args@;
        args.push(value);
        i += 1;
        assert(values_view(args@) =~= values_view(old_args).push(value@));
    }
    if ok {
        Some(args)
    } else {
        None
    }
}

/// Lowers a call statement.
pub fn parse_call(call: &CallNode, scope: &Scope, diags: &mut Vec<Diagnostic>) -> (e: Expr)
    requires
        values_wf(call.args@),
    ensures
        e@ == call_expr(*call, scope@),
        diagnostics_view(final(diags)@) =~= diagnostics_view(old(diags)@) + lower_call(
            *call,
            scope@,
        ).1,
{
    match parse_call_args(call, scope, diags) {
        Some(args) => Expr::Call { name: call.name.to_string(), args },
        None => Expr::Error,
    }
}

} // verus!
