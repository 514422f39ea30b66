//! The typed tree: types, values and expressions, each with its mathematical view.

use std::ops::Range;
use vstd::prelude::*;
use vstd::string::*;

verus! {

/// A type of the language. Types are ordered by variant, in the order written
/// here, and then by what they hold.
#[derive(Debug, Eq, PartialOrd, Ord)]
pub enum Type {
    Int,
    Num,
    Bool,
    Char,
    Str,
    Tuple(Vec<Type>),
    Struct(Vec<(String, Type)>),
    List(Box<Type>),
    Dict(Box<(Type, Type)>),
    Void,
    Custom(String),
    Error,
}

/// The mathematical value of a [`Type`].
pub enum TypeView {
    Int,
    Num,
    Bool,
    Char,
    Str,
    Tuple(Seq<TypeView>),
    Struct(Seq<(Seq<char>, TypeView)>),
    List(Box<TypeView>),
    Dict(Box<TypeView>, Box<TypeView>),
    Void,
    Custom(Seq<char>),
    Error,
}

/// The mathematical value of a type: its parts in order, names as sequences of characters.
pub open spec fn type_view(t: Type) -> TypeView
    decreases t,
{
    match t {
        Type::Int => TypeView::Int,
        Type::Num => TypeView::Num,
        Type::Bool => TypeView::Bool,
        Type::Char => TypeView::Char,
        Type::Str => TypeView::Str,
        Type::Tuple(items) => TypeView::Tuple(
            Seq::new(
                items@.len(),
                |i: int|
                    if 0 <= i < items@.len() {
                        type_view(items@[i])
                    } else {
                        TypeView::Error
                    },
            ),
        ),
        Type::Struct(members) => TypeView::Struct(
            Seq::new(
                members@.len(),
                |i: int|
                    if 0 <= i < members@.len() {
                        (members@[i].0@, type_view(members@[i].1))
                    } else {
                        (Seq::empty(), TypeView::Error)
                    },
            ),
        ),
        Type::List(item) => TypeView::List(Box::new(type_view(*item))),
        Type::Dict(pair) => TypeView::Dict(Box::new(type_view(pair.0)), Box::new(type_view(pair.1))),
        Type::Void => TypeView::Void,
        Type::Custom(name) => TypeView::Custom(name@),
        Type::Error => TypeView::Error,
    }
}

impl View for Type {
    type V = TypeView;

    open spec fn view(&self) -> TypeView {
        type_view(*self)
    }
}

/// The views of a sequence of types, element by element.
pub open spec fn types_view(items: Seq<Type>) -> Seq<TypeView> {
    Seq::new(items.len(), |i: int| items[i]@)
}

/// The views of a sequence of named types, element by element.
pub open spec fn members_view(members: Seq<(String, Type)>) -> Seq<(Seq<char>, TypeView)> {
    Seq::new(members.len(), |i: int| (members[i].0@, members[i].1@))
}

/// The view of a tuple type holds the views of its element types.
pub proof fn lemma_tuple_view(items: Vec<Type>)
    ensures
        Type::Tuple(items)@ == TypeView::Tuple(types_view(items@)),
{
    assert(Type::Tuple(items)@->Tuple_0 =~= types_view(items@));
}

/// The view of a struct type holds its member names with the views of their types.
pub proof fn lemma_struct_view(members: Vec<(String, Type)>)
    ensures
        Type::Struct(members)@ == TypeView::Struct(members_view(members@)),
{
    assert(Type::Struct(members)@->Struct_0 =~= members_view(members@));
}

/// Copies a list of types.
pub fn clone_types(items: &Vec<Type>) -> (out: Vec<Type>)
    ensures
        types_view(out@) == types_view(items@),
    decreases items,
{
    let mut out: Vec<Type> = Vec::new();
    let mut i: usize = 0;
    while i < items.len()
        invariant
            i <= items.len(),
            out@.len() == i,
            forall|k: int| 0 <= k < i ==> out@[k]@ == items@[k]@,
        decreases items.len() - i,
    {
        out.push(items[i].clone());
        i += 1;
    }
    assert(types_view(out@) =~= types_view(items@));
    out
}

/// Copies a list of named types.
pub fn clone_members(members: &Vec<(String, Type)>) -> (out: Vec<(String, Type)>)
    ensures
        members_view(out@) == members_view(members@),
    decreases members,
{
    let mut out: Vec<(String, Type)> = Vec::new();
    let mut i: usize = 0;
    while i < members.len()
        invariant
            i <= members.len(),
            out@.len() == i,
            forall|k: int| 0 <= k < i ==> out@[k].0@ == members@[k].0@ && out@[k].1@ == members@[k].1@,
        decreases members.len() - i,
    {
        out.push((members[i].0.clone(), members[i].1.clone()));
        i += 1;
    }
    assert(members_view(out@) =~= members_view(members@));
    out
}

/// A copy of a type has the same view.
impl Clone for Type {
    fn clone(&self) -> (r: Type)
        ensures
            r@ == self@,
        decreases self,
    {
        match self {
            Type::Int => Type::Int,
            Type::Num => Type::Num,
            Type::Bool => Type::Bool,
            Type::Char => Type::Char,
            Type::Str => Type::Str,
            Type::Tuple(items) => {
                let out = clone_types(items);
                proof {
                    lemma_tuple_view(out);
                    lemma_tuple_view(*items);
                }
                Type::Tuple(out)
            },
            Type::Struct(members) => {
                let out = clone_members(members);
                proof {
                    lemma_struct_view(out);
                    lemma_struct_view(*members);
                }
                Type::Struct(out)
            },
            Type::List(item) => Type::List(Box::new((**item).clone())),
            Type::Dict(pair) => Type::Dict(Box::new((pair.0.clone(), pair.1.clone()))),
            Type::Void => Type::Void,
            Type::Custom(name) => Type::Custom(name.clone()),
            Type::Error => Type::Error,
        }
    }
}

/// The smaller of two lengths.
pub open spec fn shorter(a: nat, b: nat) -> nat {
    if a <= b {
        a
    } else {
        b
    }
}

/// Whether two types are interchangeable: equal shape by shape, an integer for
/// a number, or a struct for the tuple of its field types (compared over the
/// positions that both have).
pub open spec fn type_equiv(a: TypeView, b: TypeView) -> bool
    decreases a,
{
    match a {
        TypeView::Int | TypeView::Num => b is Int || b is Num,
        TypeView::Bool => b is Bool,
        TypeView::Char => b is Char,
        TypeView::Str => b is Str,
        TypeView::Void => b is Void,
        TypeView::Error => b is Error,
        TypeView::Custom(x) => b is Custom && b->Custom_0 == x,
        TypeView::List(x) => b is List && type_equiv(*x, *b->List_0),
        TypeView::Dict(xk, xv) => b is Dict && type_equiv(*xk, *b->Dict_0) && type_equiv(
            *xv,
            *b->Dict_1,
        ),
        TypeView::Tuple(x) => match b {
            TypeView::Tuple(y) => x.len() == y.len() && forall|i: int|
                0 <= i < x.len() ==> type_equiv(#[trigger] x[i], y[i]),
            TypeView::Struct(y) => forall|i: int|
                0 <= i < shorter(x.len(), y.len()) ==> type_equiv(#[trigger] x[i], y[i].1),
            _ => false,
        },
        TypeView::Struct(x) => match b {
            TypeView::Struct(y) => x.len() == y.len() && forall|i: int|
                0 <= i < x.len() ==> (#[trigger] x[i]).0 == y[i].0 && type_equiv(x[i].1, y[i].1),
            TypeView::Tuple(y) => forall|i: int|
                0 <= i < shorter(x.len(), y.len()) ==> type_equiv((#[trigger] x[i]).1, y[i]),
            _ => false,
        },
    }
}

/// Decides [`type_equiv`].
pub fn equivalent(a: &Type, b: &Type) -> (r: bool)
    ensures
        r == type_equiv(a@, b@),
    decreases a,
{
    match a {
        Type::Int | Type::Num => matches!(b, Type::Int | Type::Num),
        Type::Bool => matches!(b, Type::Bool),
        Type::Char => matches!(b, Type::Char),
        Type::Str => matches!(b, Type::Str),
        Type::Void => matches!(b, Type::Void),
        Type::Error => matches!(b, Type::Error),
        Type::Custom(x) => match b {
            Type::Custom(y) => *x == *y,
            _ => false,
        },
        Type::List(x) => match b {
            Type::List(y) => equivalent(&**x, &**y),
            _ => false,
        },
        Type::Dict(x) => match b {
            Type::Dict(y) => equivalent(&x.0, &y.0) && equivalent(&x.1, &y.1),
            _ => false,
        },
        Type::Tuple(x) => match b {
            Type::Tuple(y) => {
                let ghost xs = types_view(x@);
                let ghost ys = types_view(y@);
                proof {
                    lemma_tuple_view(*x);
                    lemma_tuple_view(*y);
                }
                if x.len() != y.len() {
                    return false;
                }
                let mut i: usize = 0;
                while i < x.len()
                    invariant
                        i <= x.len(),
                        x.len() == y.len(),
                        a is Tuple,
                        *x == a->Tuple_0,
                        xs == types_view(x@),
                        ys == types_view(y@),
                        a@ == TypeView::Tuple(xs),
                        b@ == TypeView::Tuple(ys),
                        forall|k: int| 0 <= k < i ==> type_equiv(#[trigger] xs[k], ys[k]),
                    decreases x.len() - i,
                {
                    if !equivalent(&x[i], &y[i]) {
                        assert(!type_equiv(xs[i as int], ys[i as int]));
                        return false;
                    }
                    i += 1;
                }
                true
            },
            Type::Struct(y) => {
                let ghost xs = types_view(x@);
                let ghost ys = members_view(y@);
                proof {
                    lemma_tuple_view(*x);
                    lemma_struct_view(*y);
                }
                let mut i: usize = 0;
                while i < x.len() && i < y.len()
                    invariant
                        a is Tuple,
                        *x == a->Tuple_0,
                        xs == types_view(x@),
                        ys == members_view(y@),
                        a@ == TypeView::Tuple(xs),
                        b@ == TypeView::Struct(ys),
                        forall|k: int| 0 <= k < i ==> type_equiv(#[trigger] xs[k], ys[k].1),
                    decreases x.len() - i,
                {
                    if !equivalent(&x[i], &y[i].1) {
                        assert(a@->Tuple_0 == xs);
                        assert(!type_equiv(xs[i as int], ys[i as int].1));
                        return false;
                    }
                    i += 1;
                }
                true
            },
            _ => false,
        },
        Type::Struct(x) => match b {
            Type::Struct(y) => {
                let ghost xs = members_view(x@);
                let ghost ys = members_view(y@);
                proof {
                    lemma_struct_view(*x);
                    lemma_struct_view(*y);
                }
                if x.len() != y.len() {
                    return false;
                }
                let mut i: usize = 0;
                while i < x.len()
                    invariant
                        i <= x.len(),
                        x.len() == y.len(),
                        a is Struct,
                        *x == a->Struct_0,
                        xs == members_view(x@),
                        ys == members_view(y@),
                        a@ == TypeView::Struct(xs),
                        b@ == TypeView::Struct(ys),
                        forall|k: int|
                            0 <= k < i ==> (#[trigger] xs[k]).0 == ys[k].0 && type_equiv(
                                xs[k].1,
                                ys[k].1,
                            ),
                    decreases x.len() - i,
                {
                    if !(x[i].0 == y[i].0) || !equivalent(&x[i].1, &y[i].1) {
                        assert(!(xs[i as int].0 == ys[i as int].0 && type_equiv(
                            xs[i as int].1,
                            ys[i as int].1,
                        )));
                        return false;
                    }
                    i += 1;
                }
                true
            },
            Type::Tuple(y) => {
                let ghost xs = members_view(x@);
                let ghost ys = types_view(y@);
                proof {
                    lemma_struct_view(*x);
                    lemma_tuple_view(*y);
                }
                let mut i: usize = 0;
                while i < x.len() && i < y.len()
                    invariant
                        a is Struct,
                        *x == a->Struct_0,
                        xs == members_view(x@),
                        ys == types_view(y@),
                        a@ == TypeView::Struct(xs),
                        b@ == TypeView::Tuple(ys),
                        forall|k: int| 0 <= k < i ==> type_equiv((#[trigger] xs[k]).1, ys[k]),
                    decreases x.len() - i,
                {
                    if !equivalent(&x[i].1, &y[i]) {
                        assert(a@->Struct_0 == xs);
                        assert(!type_equiv(xs[i as int].1, ys[i as int]));
                        return false;
                    }
                    i += 1;
                }
                true
            },
            _ => false,
        },
    }
}

/// How a type is written: `int`, `(int, str)`, `(x: int, y: int)`, `[int]`,
/// `[str -> int]`, a custom name as it is, `error` for the error type.
pub open spec fn type_text(t: TypeView) -> Seq<char>
    decreases t, 0nat,
{
    match t {
        TypeView::Int => "int"@,
        TypeView::Num => "num"@,
        TypeView::Bool => "bool"@,
        TypeView::Char => "char"@,
        TypeView::Str => "str"@,
        TypeView::Void => "void"@,
        TypeView::Error => "error"@,
        TypeView::Custom(name) => name,
        TypeView::List(item) => "["@ + type_text(*item) + "]"@,
        TypeView::Dict(key, value) => "["@ + type_text(*key) + " -> "@ + type_text(*value) + "]"@,
        TypeView::Tuple(items) => "("@ + items_text(items, items.len()) + ")"@,
        TypeView::Struct(members) => "("@ + members_text(members, members.len()) + ")"@,
    }
}

/// The first `n` element types of a tuple, separated by `, `.
pub open spec fn items_text(items: Seq<TypeView>, n: nat) -> Seq<char>
    decreases items, n,
{
    if n == 0 || n > items.len() {
        Seq::empty()
    } else if n == 1 {
        type_text(items[0])
    } else {
        items_text(items, (n - 1) as nat) + ", "@ + type_text(items[n - 1])
    }
}

/// The first `n` members of a struct, each as `name: type`, separated by `, `.
pub open spec fn members_text(members: Seq<(Seq<char>, TypeView)>, n: nat) -> Seq<char>
    decreases members, n,
{
    if n == 0 || n > members.len() {
        Seq::empty()
    } else if n == 1 {
        members[0].0 + ": "@ + type_text(members[0].1)
    } else {
        members_text(members, (n - 1) as nat) + ", "@ + members[n - 1].0 + ": "@ + type_text(
            members[n - 1].1,
        )
    }
}

impl Type {
    /// Writes the type as text. An empty tuple or struct is written `()`.
    pub fn to_string(&self) -> (s: String)
        ensures
            s@ == type_text(self@),
        decreases self,
    {
        match self {
            Type::Int => String::from_str("int"),
            Type::Num => String::from_str("num"),
            Type::Bool => String::from_str("bool"),
            Type::Char => String::from_str("char"),
            Type::Str => String::from_str("str"),
            Type::Void => String::from_str("void"),
            Type::Error => String::from_str("error"),
            Type::Custom(name) => name.clone(),
            Type::List(item) => {
                let mut s = String::from_str("[");
                let inner = item.to_string();
                s.append(inner.as_str());
                s.append("]");
                s
            },
            Type::Dict(pair) => {
                let mut s = String::from_str("[");
                let key = pair.0.to_string();
                s.append(key.as_str());
                s.append(" -> ");
                let value = pair.1.to_string();
                s.append(value.as_str());
                s.append("]");
                s
            },
            Type::Tuple(items) => {
                let ghost xs = types_view(items@);
                proof {
                    lemma_tuple_view(*items);
                }
                let mut s = String::from_str("(");
                let mut i: usize = 0;
                while i < items.len()
                    invariant
                        i <= items.len(),
                        self is Tuple,
                        *items == self->Tuple_0,
                        xs == types_view(items@),
                        s@ == "("@ + items_text(xs, i as nat),
                    decreases items.len() - i,
                {
                    if i > 0 {
                        s.append(", ");
                    }
                    let piece = items[i].to_string();
                    s.append(piece.as_str());
                    i += 1;
                    assert(s@ =~= "("@ + items_text(xs, i as nat));
                }
                s.append(")");
                s
            },
            Type::Struct(members) => {
                let ghost xs = members_view(members@);
                proof {
                    lemma_struct_view(*members);
                }
                let mut s = String::from_str("(");
                let mut i: usize = 0;
                while i < members.len()
                    invariant
                        i <= members.len(),
                        self is Struct,
                        *members == self->Struct_0,
                        xs == members_view(members@),
                        s@ == "("@ + members_text(xs, i as nat),
                    decreases members.len() - i,
                {
                    if i > 0 {
                        s.append(", ");
                    }
                    s.append(members[i].0.as_str());
                    s.append(": ");
                    let piece = members[i].1.to_string();
                    s.append(piece.as_str());
                    i += 1;
                    assert(s@ =~= "("@ + members_text(xs, i as nat));
                }
                s.append(")");
                s
            },
        }
    }
}

/// `==` on types is interchangeability, not identity: see [`type_equiv`].
impl PartialEq for Type {
    fn eq(&self, other: &Self) -> (r: bool) {
        equivalent(self, other)
    }
}

impl vstd::std_specs::cmp::PartialEqSpecImpl for Type {
    open spec fn obeys_eq_spec() -> bool {
        true
    }

    open spec fn eq_spec(&self, other: &Self) -> bool {
        type_equiv(self@, other@)
    }
}

/// An arithmetic operator.
#[derive(Debug, Clone, Copy, PartialEq, Eq, Structural)]
pub enum Operator {
    Add,
    Sub,
    Mul,
    Div,
    Mod,
    Pow,
}

/// A comparison between two values.
#[derive(Debug, Clone, Copy, PartialEq, Eq, Structural)]
pub enum Relation {
    Less,
    Greater,
    LessEq,
    GreatEq,
    Equal,
    NotEq,
}

/// A logical connective.
#[derive(Debug, Clone, Copy, PartialEq, Eq, Structural)]
pub enum Connective {
    Or,
    And,
}

/// A checked value.
#[derive(Debug, PartialEq)]
#[allow(inconsistent_fields)]
pub enum Value {
    Int(i64),
    /// A number, kept as its numeral.
    Num(String),
    Bool(Bool),
    Char(char),
    Str(String),
    Tuple(Vec<Value>),
    Struct(Vec<(String, Value)>),
    TupleAccess {
        name: String,
        access_mode: TupleAccessMode,
        name_range: Range<usize>,
        access_range: Range<usize>,
    },
    List(Vec<Value>),
    ListAccess {
        name: String,
        access_mode: ListAccessMode,
        access_type: Type,
        name_range: Range<usize>,
        access_range: Range<usize>,
    },
    Dict(Vec<(Value, Value)>),
    Var { name: String, range: Range<usize> },
    Op { op: Op, range: Range<usize> },
    Cmp { cmp: Cmp, range: Range<usize> },
    Parenthesis(Box<Value>),
    Call { name: String, args: Vec<Value> },
    Error,
}

/// A boolean value: a literal or a comparison.
#[derive(Debug, PartialEq)]
pub enum Bool {
    Primitive(bool),
    Cmp(Cmp),
}

/// How a tuple or struct is accessed.
#[derive(Debug, PartialEq)]
pub enum TupleAccessMode {
    Member(String),
    Index(usize),
}

/// How a list or dictionary is accessed.
#[derive(Debug, PartialEq)]
pub enum ListAccessMode {
    List(usize),
    Dict(Box<Value>),
}

/// An operation on values.
#[derive(Debug, PartialEq)]
pub enum Op {
    Add(Box<(Value, Value)>),
    Sub(Box<(Value, Value)>),
    ListRemoveAll(Box<(String, Value)>),
    Mul(Box<(Value, Value)>),
    Div(Box<(Value, Value)>),
    Mod(Box<(Value, Value)>),
    Pow(Box<(Value, Value)>),
}

/// A comparison, a negation or a logical connective.
#[derive(Debug, PartialEq)]
pub enum Cmp {
    Less(Box<(Value, Value)>),
    Greater(Box<(Value, Value)>),
    LessEq(Box<(Value, Value)>),
    GreatEq(Box<(Value, Value)>),
    Equal(Box<(Value, Value)>),
    NotEq(Box<(Value, Value)>),
    Not(Box<Value>),
    Or(Box<(Value, Value)>),
    And(Box<(Value, Value)>),
    Error,
}

/// The mathematical value of a [`Value`].
#[allow(inconsistent_fields)]
pub enum ValueView {
    Int(i64),
    Num(Seq<char>),
    Bool(BoolView),
    Char(char),
    Str(Seq<char>),
    Tuple(Seq<ValueView>),
    Struct(Seq<(Seq<char>, ValueView)>),
    TupleAccess {
        name: Seq<char>,
        access_mode: TupleAccessModeView,
        name_range: Range<usize>,
        access_range: Range<usize>,
    },
    List(Seq<ValueView>),
    ListAccess {
        name: Seq<char>,
        access_mode: ListAccessModeView,
        access_type: TypeView,
        name_range: Range<usize>,
        access_range: Range<usize>,
    },
    Dict(Seq<(ValueView, ValueView)>),
    Var { name: Seq<char>, range: Range<usize> },
    Op { op: OpView, range: Range<usize> },
    Cmp { cmp: CmpView, range: Range<usize> },
    Parenthesis(Box<ValueView>),
    Call { name: Seq<char>, args: Seq<ValueView> },
    Error,
}

/// The mathematical value of a [`Bool`].
pub enum BoolView {
    Primitive(bool),
    Cmp(CmpView),
}

/// The mathematical value of a [`TupleAccessMode`].
pub enum TupleAccessModeView {
    Member(Seq<char>),
    Index(usize),
}

/// The mathematical value of a [`ListAccessMode`].
pub enum ListAccessModeView {
    List(usize),
    Dict(Box<ValueView>),
}

/// The mathematical value of an [`Op`].
pub enum OpView {
    Binary(Operator, Box<ValueView>, Box<ValueView>),
    ListRemoveAll(Seq<char>, Box<ValueView>),
}

/// The mathematical value of a [`Cmp`].
pub enum CmpView {
    Relation(Relation, Box<ValueView>, Box<ValueView>),
    Logic(Connective, Box<ValueView>, Box<ValueView>),
    Not(Box<ValueView>),
    Error,
}

/// The mathematical value of a value. The six arithmetic operations and the
/// six comparisons are each one form with its operator or relation.
pub open spec fn value_view(v: Value) -> ValueView
    decreases v,
{
    match v {
        Value::Int(n) => ValueView::Int(n),
        Value::Num(text) => ValueView::Num(text@),
        Value::Bool(b) => ValueView::Bool(bool_view(b)),
        Value::Char(c) => ValueView::Char(c),
        Value::Str(text) => ValueView::Str(text@),
        Value::Tuple(items) => ValueView::Tuple(
            Seq::new(
                items@.len(),
                |i: int|
                    if 0 <= i < items@.len() {
                        value_view(items@[i])
                    } else {
                        ValueView::Error
                    },
            ),
        ),
        Value::Struct(members) => ValueView::Struct(
            Seq::new(
                members@.len(),
                |i: int|
                    if 0 <= i < members@.len() {
                        (members@[i].0@, value_view(members@[i].1))
                    } else {
                        (Seq::empty(), ValueView::Error)
                    },
            ),
        ),
        Value::TupleAccess { name, access_mode, name_range, access_range } => ValueView::TupleAccess {
            name: name@,
            access_mode: access_mode@,
            name_range,
            access_range,
        },
        Value::List(items) => ValueView::List(
            Seq::new(
                items@.len(),
                |i: int|
                    if 0 <= i < items@.len() {
                        value_view(items@[i])
                    } else {
                        ValueView::Error
                    },
            ),
        ),
        Value::ListAccess { name, access_mode, access_type, name_range, access_range } => ValueView::ListAccess {
            name: name@,
            access_mode: list_access_mode_view(access_mode),
            access_type: access_type@,
            name_range,
            access_range,
        },
        Value::Dict(pairs) => ValueView::Dict(
            Seq::new(
                pairs@.len(),
                |i: int|
                    if 0 <= i < pairs@.len() {
                        (value_view(pairs@[i].0), value_view(pairs@[i].1))
                    } else {
                        (ValueView::Error, ValueView::Error)
                    },
            ),
        ),
        Value::Var { name, range } => ValueView::Var { name: name@, range },
        Value::Op { op, range } => ValueView::Op { op: op_view(op), range },
        Value::Cmp { cmp, range } => ValueView::Cmp { cmp: cmp_view(cmp), range },
        Value::Parenthesis(inner) => ValueView::Parenthesis(Box::new(value_view(*inner))),
        Value::Call { name, args } => ValueView::Call {
            name: name@,
            args: Seq::new(
                args@.len(),
                |i: int|
                    if 0 <= i < args@.len() {
                        value_view(args@[i])
                    } else {
                        ValueView::Error
                    },
            ),
        },
        Value::Error => ValueView::Error,
    }
}

/// The mathematical value of a boolean value.
pub open spec fn bool_view(b: Bool) -> BoolView
    decreases b,
{
    match b {
        Bool::Primitive(p) => BoolView::Primitive(p),
        Bool::Cmp(c) => BoolView::Cmp(cmp_view(c)),
    }
}

/// The mathematical value of a list access mode.
pub open spec fn list_access_mode_view(m: ListAccessMode) -> ListAccessModeView
    decreases m,
{
    match m {
        ListAccessMode::List(index) => ListAccessModeView::List(index),
        ListAccessMode::Dict(key) => ListAccessModeView::Dict(Box::new(value_view(*key))),
    }
}

/// The mathematical value of an operation.
pub open spec fn op_view(op: Op) -> OpView
    decreases op,
{
    match op {
        Op::Add(p) => OpView::Binary(
            Operator::Add,
            Box::new(value_view(p.0)),
            Box::new(value_view(p.1)),
        ),
        Op::Sub(p) => OpView::Binary(
            Operator::Sub,
            Box::new(value_view(p.0)),
            Box::new(value_view(p.1)),
        ),
        Op::Mul(p) => OpView::Binary(
            Operator::Mul,
            Box::new(value_view(p.0)),
            Box::new(value_view(p.1)),
        ),
        Op::Div(p) => OpView::Binary(
            Operator::Div,
            Box::new(value_view(p.0)),
            Box::new(value_view(p.1)),
        ),
        Op::Mod(p) => OpView::Binary(
            Operator::Mod,
            Box::new(value_view(p.0)),
            Box::new(value_view(p.1)),
        ),
        Op::Pow(p) => OpView::Binary(
            Operator::Pow,
            Box::new(value_view(p.0)),
            Box::new(value_view(p.1)),
        ),
        Op::ListRemoveAll(p) => OpView::ListRemoveAll(p.0@, Box::new(value_view(p.1))),
    }
}

/// The mathematical value of a comparison.
pub open spec fn cmp_view(c: Cmp) -> CmpView
    decreases c,
{
    match c {
        Cmp::Less(p) => CmpView::Relation(
            Relation::Less,
            Box::new(value_view(p.0)),
            Box::new(value_view(p.1)),
        ),
        Cmp::Greater(p) => CmpView::Relation(
            Relation::Greater,
            Box::new(value_view(p.0)),
            Box::new(value_view(p.1)),
        ),
        Cmp::LessEq(p) => CmpView::Relation(
            Relation::LessEq,
            Box::new(value_view(p.0)),
            Box::new(value_view(p.1)),
        ),
        Cmp::GreatEq(p) => CmpView::Relation(
            Relation::GreatEq,
            Box::new(value_view(p.0)),
            Box::new(value_view(p.1)),
        ),
        Cmp::Equal(p) => CmpView::Relation(
            Relation::Equal,
            Box::new(value_view(p.0)),
            Box::new(value_view(p.1)),
        ),
        Cmp::NotEq(p) => CmpView::Relation(
            Relation::NotEq,
            Box::new(value_view(p.0)),
            Box::new(value_view(p.1)),
        ),
        Cmp::Or(p) => CmpView::Logic(
            Connective::Or,
            Box::new(value_view(p.0)),
            Box::new(value_view(p.1)),
        ),
        Cmp::And(p) => CmpView::Logic(
            Connective::And,
            Box::new(value_view(p.0)),
            Box::new(value_view(p.1)),
        ),
        Cmp::Not(inner) => CmpView::Not(Box::new(value_view(*inner))),
        Cmp::Error => CmpView::Error,
    }
}

impl View for Value {
    type V = ValueView;

    open spec fn view(&self) -> ValueView {
        value_view(*self)
    }
}

impl View for Bool {
    type V = BoolView;

    open spec fn view(&self) -> BoolView {
        bool_view(*self)
    }
}

impl View for TupleAccessMode {
    type V = TupleAccessModeView;

    open spec fn view(&self) -> TupleAccessModeView {
        match self {
            TupleAccessMode::Member(name) => TupleAccessModeView::Member(name@),
            TupleAccessMode::Index(index) => TupleAccessModeView::Index(*index),
        }
    }
}

impl View for ListAccessMode {
    type V = ListAccessModeView;

    open spec fn view(&self) -> ListAccessModeView {
        list_access_mode_view(*self)
    }
}

impl View for Op {
    type V = OpView;

    open spec fn view(&self) -> OpView {
        op_view(*self)
    }
}

impl View for Cmp {
    type V = CmpView;

    open spec fn view(&self) -> CmpView {
        cmp_view(*self)
    }
}

/// The views of a sequence of values, element by element.
pub open spec fn values_view(items: Seq<Value>) -> Seq<ValueView> {
    Seq::new(items.len(), |i: int| items[i]@)
}

/// The views of a sequence of named values, element by element.
pub open spec fn named_values_view(members: Seq<(String, Value)>) -> Seq<(Seq<char>, ValueView)> {
    Seq::new(members.len(), |i: int| (members[i].0@, members[i].1@))
}

/// The views of a sequence of key and value pairs, element by element.
pub open spec fn pairs_view(pairs: Seq<(Value, Value)>) -> Seq<(ValueView, ValueView)> {
    Seq::new(pairs.len(), |i: int| (pairs[i].0@, pairs[i].1@))
}

/// The view of a tuple value holds the views of its elements.
pub proof fn lemma_tuple_value_view(items: Vec<Value>)
    ensures
        Value::Tuple(items)@ == ValueView::Tuple(values_view(items@)),
{
    assert(Value::Tuple(items)@->Tuple_0 =~= values_view(items@));
}

/// The view of a list value holds the views of its elements.
pub proof fn lemma_list_value_view(items: Vec<Value>)
    ensures
        Value::List(items)@ == ValueView::List(values_view(items@)),
{
    assert(Value::List(items)@->List_0 =~= values_view(items@));
}

/// The view of a call holds its name and the views of its arguments.
pub proof fn lemma_call_value_view(name: String, args: Vec<Value>)
    ensures
        (Value::Call { name, args })@ == (ValueView::Call { name: name@, args: values_view(args@) }),
{
    assert((Value::Call { name, args })@->Call_args =~= values_view(args@));
}

/// The view of a struct value holds its member names with the views of their values.
pub proof fn lemma_struct_value_view(members: Vec<(String, Value)>)
    ensures
        Value::Struct(members)@ == ValueView::Struct(named_values_view(members@)),
{
    assert(Value::Struct(members)@->Struct_0 =~= named_values_view(members@));
}

/// The view of a dictionary value holds the views of its keys and values.
pub proof fn lemma_dict_value_view(pairs: Vec<(Value, Value)>)
    ensures
        Value::Dict(pairs)@ == ValueView::Dict(pairs_view(pairs@)),
{
    assert(Value::Dict(pairs)@->Dict_0 =~= pairs_view(pairs@));
}

/// The value that stands for a bare comparison with its range.
pub open spec fn comparison_value(c: CmpView, range: Range<usize>) -> ValueView {
    ValueView::Cmp { cmp: c, range }
}

/// Builds the value that stands for a bare comparison with its range.
pub fn make_comparison_value(c: Cmp, range: Range<usize>) -> (v: Value)
    ensures
        v@ == comparison_value(c@, range),
{
    Value::Cmp { cmp: c, range }
}

/// Builds an arithmetic operation from its operator and operands.
pub fn make_op(operator: Operator, lhs: Value, rhs: Value) -> (op: Op)
    ensures
        op@ == OpView::Binary(operator, Box::new(lhs@), Box::new(rhs@)),
{
    match operator {
        Operator::Add => Op::Add(Box::new((lhs, rhs))),
        Operator::Sub => Op::Sub(Box::new((lhs, rhs))),
        Operator::Mul => Op::Mul(Box::new((lhs, rhs))),
        Operator::Div => Op::Div(Box::new((lhs, rhs))),
        Operator::Mod => Op::Mod(Box::new((lhs, rhs))),
        Operator::Pow => Op::Pow(Box::new((lhs, rhs))),
    }
}

/// Builds a comparison from its relation and operands.
pub fn make_relation(relation: Relation, lhs: Value, rhs: Value) -> (c: Cmp)
    ensures
        c@ == CmpView::Relation(relation, Box::new(lhs@), Box::new(rhs@)),
{
    match relation {
        Relation::Less => Cmp::Less(Box::new((lhs, rhs))),
        Relation::Greater => Cmp::Greater(Box::new((lhs, rhs))),
        Relation::LessEq => Cmp::LessEq(Box::new((lhs, rhs))),
        Relation::GreatEq => Cmp::GreatEq(Box::new((lhs, rhs))),
        Relation::Equal => Cmp::Equal(Box::new((lhs, rhs))),
        Relation::NotEq => Cmp::NotEq(Box::new((lhs, rhs))),
    }
}

/// Builds a conjunction or disjunction from its connective and operands.
pub fn make_logic(connective: Connective, lhs: Value, rhs: Value) -> (c: Cmp)
    ensures
        c@ == CmpView::Logic(connective, Box::new(lhs@), Box::new(rhs@)),
{
    match connective {
        Connective::Or => Cmp::Or(Box::new((lhs, rhs))),
        Connective::And => Cmp::And(Box::new((lhs, rhs))),
    }
}

/// The operator of an arithmetic operation.
pub open spec fn operator_of(op: OpView) -> Operator {
    match op {
        OpView::Binary(operator, _, _) => operator,
        OpView::ListRemoveAll(_, _) => Operator::Sub,
    }
}

impl Op {
    /// The same arithmetic operation on other operands.
    pub fn set_value(self, lhs: Value, rhs: Value) -> (op: Op)
        requires
            self@ is Binary,
        ensures
            op@ == OpView::Binary(operator_of(self@), Box::new(lhs@), Box::new(rhs@)),
    {
        match self {
            Op::Add(_) => Op::Add(Box::new((lhs, rhs))),
            Op::Sub(_) => Op::Sub(Box::new((lhs, rhs))),
            Op::Mul(_) => Op::Mul(Box::new((lhs, rhs))),
            Op::Div(_) => Op::Div(Box::new((lhs, rhs))),
            Op::Mod(_) => Op::Mod(Box::new((lhs, rhs))),
            Op::Pow(_) => Op::Pow(Box::new((lhs, rhs))),
            Op::ListRemoveAll(_) => {
                proof {
                    assert(false);
                }
                Op::Sub(Box::new((lhs, rhs)))
            },
        }
    }
}

/// A checked statement.
#[derive(Debug, PartialEq)]
#[allow(inconsistent_fields)]
pub enum Expr {
    Init { name: String, ty: Type, value: Value, context: String },
    Decl { name: String, ty: Type, context: String },
    Assig { name: String, value: Value, context: String },
    Typedef { name: String, ty: Type },
    Fn { name: String, ty: Type, args: Vec<(String, Type)>, exprs: Vec<Expr>, context: String },
    Call { name: String, args: Vec<Value> },
    Error,
}

/// The mathematical value of an [`Expr`].
#[allow(inconsistent_fields)]
pub enum ExprView {
    Init { name: Seq<char>, ty: TypeView, value: ValueView, context: Seq<char> },
    Decl { name: Seq<char>, ty: TypeView, context: Seq<char> },
    Assig { name: Seq<char>, value: ValueView, context: Seq<char> },
    Typedef { name: Seq<char>, ty: TypeView },
    Fn {
        name: Seq<char>,
        ty: TypeView,
        args: Seq<(Seq<char>, TypeView)>,
        exprs: Seq<ExprView>,
        context: Seq<char>,
    },
    Call { name: Seq<char>, args: Seq<ValueView> },
    Error,
}

/// The mathematical value of a statement.
pub open spec fn expr_view(e: Expr) -> ExprView
    decreases e,
{
    match e {
        Expr::Init { name, ty, value, context } => ExprView::Init {
            name: name@,
            ty: ty@,
            value: value@,
            context: context@,
        },
        Expr::Decl { name, ty, context } => ExprView::Decl { name: name@, ty: ty@, context: context@ },
        Expr::Assig { name, value, context } => ExprView::Assig {
            name: name@,
            value: value@,
            context: context@,
        },
        Expr::Typedef { name, ty } => ExprView::Typedef { name: name@, ty: ty@ },
        Expr::Fn { name, ty, args, exprs, context } => ExprView::Fn {
            name: name@,
            ty: ty@,
            args: members_view(args@),
            exprs: Seq::new(
                exprs@.len(),
                |i: int|
                    if 0 <= i < exprs@.len() {
                        expr_view(exprs@[i])
                    } else {
                        ExprView::Error
                    },
            ),
            context: context@,
        },
        Expr::Call { name, args } => ExprView::Call { name: name@, args: values_view(args@) },
        Expr::Error => ExprView::Error,
    }
}

impl View for Expr {
    type V = ExprView;

    open spec fn view(&self) -> ExprView {
        expr_view(*self)
    }
}

/// The views of a sequence of statements, element by element.
pub open spec fn exprs_view(exprs: Seq<Expr>) -> Seq<ExprView> {
    Seq::new(exprs.len(), |i: int| exprs[i]@)
}

/// The view of a function holds the views of its parameters and of its body.
pub proof fn lemma_fn_expr_view(
    name: String,
    ty: Type,
    args: Vec<(String, Type)>,
    exprs: Vec<Expr>,
    context: String,
)
    ensures
        (Expr::Fn { name, ty, args, exprs, context })@ == (ExprView::Fn {
            name: name@,
            ty: ty@,
            args: members_view(args@),
            exprs: exprs_view(exprs@),
            context: context@,
        }),
{
    assert((Expr::Fn { name, ty, args, exprs, context })@->Fn_exprs =~= exprs_view(exprs@));
}

/// A checked program: its statements in source order.
#[derive(Debug, PartialEq)]
pub struct Main(pub Vec<Expr>);

impl View for Main {
    type V = Seq<ExprView>;

    open spec fn view(&self) -> Seq<ExprView> {
        exprs_view(self.0@)
    }
}

impl Main {
    /// The program of the given statements.
    pub fn new(exprs: Vec<Expr>) -> (m: Main)
        ensures
            m.0 == exprs,
    {
        Main(exprs)
    }
}

/// A call by name, with its arguments as written.
#[derive(Debug, PartialEq)]
pub struct Call {
    pub name: String,
    pub args: Vec<String>,
}

impl Call {
    /// The call of the given name with the given arguments.
    pub fn new(name: String, args: Vec<String>) -> (c: Call)
        ensures
            c.name == name,
            c.args == args,
    {
        Call { name, args }
    }
}

/// The signature of a function: its return type and its parameter types.
#[derive(Debug)]
pub struct Fn {
    pub ty: Type,
    pub args: Vec<Type>,
}

/// A copy of a signature has the same view.
impl Clone for Fn {
    fn clone(&self) -> (r: Fn)
        ensures
            r@ == self@,
    {
        Fn { ty: self.ty.clone(), args: clone_types(&self.args) }
    }
}

/// The mathematical value of a [`Fn`].
pub struct FnView {
    pub ty: TypeView,
    pub args: Seq<TypeView>,
}

impl View for Fn {
    type V = FnView;

    open spec fn view(&self) -> FnView {
        FnView { ty: self.ty@, args: types_view(self.args@) }
    }
}

} // verus!
