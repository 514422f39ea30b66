//! The parse tree that the analysis reads: for each node its byte range,
//! its text where the analysis needs it, and its children by role.

use crate::text::{check_quoted, i64_of, is_quoted, parse_i64, parse_usize, usize_of};
use crate::tree::{Connective, Operator, Relation};
use std::ops::Range;
use vstd::prelude::*;

verus! {

/// A leaf of the parse tree: a name or a numeral, with where it stands.
#[derive(Debug)]
pub struct Token {
    pub text: String,
    pub span: Range<usize>,
}

/// A type as written in the source.
#[derive(Debug)]
pub enum TypeNode {
    Int,
    Num,
    Bool,
    Char,
    Str,
    Void,
    Tuple(Vec<TypeNode>),
    Struct(Vec<(Token, TypeNode)>),
    List(Box<TypeNode>),
    Dict(Box<(TypeNode, TypeNode)>),
    Custom(Token),
}

/// A value as written in the source.
#[derive(Debug)]
pub struct ValueNode {
    pub span: Range<usize>,
    pub kind: ValueKind,
}

/// The forms of a value. A literal holds its text.
#[derive(Debug)]
#[allow(inconsistent_fields)]
pub enum ValueKind {
    Int(String),
    Num(String),
    Bool(String),
    Char(String),
    Str(String),
    Name(String),
    Tuple(Vec<ValueNode>),
    Struct(Vec<(Token, ValueNode)>),
    List(Vec<ValueNode>),
    Dict(Vec<(ValueNode, ValueNode)>),
    TupleAccess { name: Token, access: AccessNode },
    ListAccess { name: Token, key: Box<ValueNode> },
    Op { operator: Operator, lhs: Box<ValueNode>, rhs: Box<ValueNode> },
    Cmp(Box<CmpNode>),
    Logic { connective: Connective, lhs: Box<LogicOperand>, rhs: Box<ValueNode> },
    Parenthesis(Box<ValueNode>),
    Call(CallNode),
    ModuleAccess,
    TypeConversion,
}

/// What follows the dot of a tuple or struct access. The token's range is
/// that of the member name or index, without the dot.
#[derive(Debug)]
pub enum AccessNode {
    Member(Token),
    Index(Token),
}

/// The left side of a logical connective: a value or a bare comparison.
#[derive(Debug)]
pub enum LogicOperand {
    Value(ValueNode),
    Cmp(CmpNode),
}

/// A comparison or a negation as written in the source.
#[derive(Debug)]
pub struct CmpNode {
    pub span: Range<usize>,
    pub kind: CmpKind,
}

/// The forms of a comparison node.
#[derive(Debug)]
pub enum CmpKind {
    Relation { relation: Relation, lhs: Box<ValueNode>, rhs: Box<ValueNode> },
    Not(Box<ValueNode>),
}

/// A call as written in the source.
#[derive(Debug)]
pub struct CallNode {
    pub name: Token,
    pub args: Vec<ValueNode>,
}

/// A statement as written in the source, with its verbatim text.
#[derive(Debug)]
pub struct ExprNode {
    pub span: Range<usize>,
    pub text: String,
    pub kind: ExprKind,
}

/// The forms of a statement.
#[derive(Debug)]
#[allow(inconsistent_fields)]
pub enum ExprKind {
    Init { name: Token, ty: Option<TypeNode>, value: ValueNode },
    Decl { name: Token, ty: TypeNode },
    Assig { name: Token, value: ValueNode },
    ListRemAssig { name: Token, value: ValueNode },
    OpAssig { operator: Operator, name: Token, value: ValueNode },
    Typedef { name: Token, ty: TypeNode },
    Fn { name: Token, ty: Option<TypeNode>, params: Vec<(Token, TypeNode)>, body: Vec<ExprNode> },
    Call(CallNode),
    Use,
    ModuleAccess,
    If,
}

/// A range made wider by one byte on each side: that of a key with its brackets.
pub open spec fn widened(span: Range<usize>) -> Range<usize> {
    Range { start: (span.start - 1) as usize, end: (span.end + 1) as usize }
}

/// A range made wider by one byte at its start: that of an access with its dot.
pub open spec fn with_dot(span: Range<usize>) -> Range<usize> {
    Range { start: (span.start - 1) as usize, end: span.end }
}

/// The byte range that a node stands for in diagnostics.
pub trait GetRange {
    /// Whether the node has such a range.
    spec fn has_range(&self) -> bool;

    /// The range.
    spec fn range_of(&self) -> Range<usize>;

    fn range(&self) -> (r: Range<usize>)
        requires
            self.has_range(),
        ensures
            r == self.range_of(),
    ;
}

impl GetRange for Token {
    open spec fn has_range(&self) -> bool {
        true
    }

    open spec fn range_of(&self) -> Range<usize> {
        self.span
    }

    fn range(&self) -> (r: Range<usize>) {
        self.span.start..self.span.end
    }
}

impl GetRange for ValueNode {
    open spec fn has_range(&self) -> bool {
        true
    }

    open spec fn range_of(&self) -> Range<usize> {
        self.span
    }

    fn range(&self) -> (r: Range<usize>) {
        self.span.start..self.span.end
    }
}

impl GetRange for CmpNode {
    open spec fn has_range(&self) -> bool {
        true
    }

    open spec fn range_of(&self) -> Range<usize> {
        self.span
    }

    fn range(&self) -> (r: Range<usize>) {
        self.span.start..self.span.end
    }
}

impl GetRange for ExprNode {
    open spec fn has_range(&self) -> bool {
        true
    }

    open spec fn range_of(&self) -> Range<usize> {
        self.span
    }

    fn range(&self) -> (r: Range<usize>) {
        self.span.start..self.span.end
    }
}

/// An access stands for its range with the dot before it.
impl GetRange for AccessNode {
    open spec fn has_range(&self) -> bool {
        match self {
            AccessNode::Member(token) => token.span.start >= 1,
            AccessNode::Index(token) => token.span.start >= 1,
        }
    }

    open spec fn range_of(&self) -> Range<usize> {
        match self {
            AccessNode::Member(token) => with_dot(token.span),
            AccessNode::Index(token) => with_dot(token.span),
        }
    }

    fn range(&self) -> (r: Range<usize>) {
        match self {
            AccessNode::Member(token) => token.span.start - 1..token.span.end,
            AccessNode::Index(token) => token.span.start - 1..token.span.end,
        }
    }
}

/// The name that a name node holds.
pub trait NameNodeUtils {
    /// The name, as a sequence of characters.
    spec fn name_of(&self) -> Seq<char>;

    fn to_string(&self) -> (s: String)
        ensures
            s@ == self.name_of(),
    ;
}

impl NameNodeUtils for Token {
    open spec fn name_of(&self) -> Seq<char> {
        self.text@
    }

    fn to_string(&self) -> (s: String) {
        self.text.clone()
    }
}

/// Whether a value node is one that a parser of the language can give:
/// an integer literal fits 64 bits, a character literal is not empty, a
/// string literal stands in quotes, a list or dictionary literal is not
/// empty, a tuple index is an index, and there is room before an access for
/// its dot or bracket and after a key for its bracket.
pub open spec fn value_node_wf(n: ValueNode) -> bool
    decreases n,
{
    match n.kind {
        ValueKind::Int(text) => i64_of(text@) is Some,
        ValueKind::Num(_) => true,
        ValueKind::Bool(_) => true,
        ValueKind::Name(_) => true,
        ValueKind::Char(text) => text@.len() > 0,
        ValueKind::Str(text) => is_quoted(text@),
        ValueKind::Tuple(items) => values_wf(items@),
        ValueKind::Struct(members) => forall|i: int|
            0 <= i < members@.len() ==> value_node_wf((#[trigger] members@[i]).1),
        ValueKind::List(items) => items@.len() > 0 && values_wf(items@),
        ValueKind::Dict(pairs) => pairs@.len() > 0 && forall|i: int|
            0 <= i < pairs@.len() ==> value_node_wf((#[trigger] pairs@[i]).0) && value_node_wf(
                pairs@[i].1,
            ),
        ValueKind::TupleAccess { name, access } => access_wf(access),
        ValueKind::ListAccess { name, key } => key.span.start >= 1 && key.span.end < usize::MAX
            && value_node_wf(*key),
        ValueKind::Op { operator, lhs, rhs } => value_node_wf(*lhs) && value_node_wf(*rhs),
        ValueKind::Cmp(c) => comparison_wf(*c),
        ValueKind::Logic { connective, lhs, rhs } => (match *lhs {
            LogicOperand::Value(v) => value_node_wf(v),
            LogicOperand::Cmp(c) => comparison_wf(c),
        }) && value_node_wf(*rhs),
        ValueKind::Parenthesis(inner) => value_node_wf(*inner),
        ValueKind::Call(call) => values_wf(call.args@),
        ValueKind::ModuleAccess => true,
        ValueKind::TypeConversion => true,
    }
}

/// [`value_node_wf`] of every node of a list.
pub open spec fn values_wf(items: Seq<ValueNode>) -> bool
    decreases items,
{
    forall|i: int| 0 <= i < items.len() ==> value_node_wf(#[trigger] items[i])
}

/// Whether a comparison node is one that a parser of the language can give.
pub open spec fn comparison_wf(c: CmpNode) -> bool
    decreases c,
{
    match c.kind {
        CmpKind::Relation { relation, lhs, rhs } => value_node_wf(*lhs) && value_node_wf(*rhs),
        CmpKind::Not(inner) => value_node_wf(*inner),
    }
}

/// Whether an access is one that a parser of the language can give: there is
/// room for the dot before it, and an index is an index.
pub open spec fn access_wf(access: AccessNode) -> bool {
    match access {
        AccessNode::Member(token) => token.span.start >= 1,
        AccessNode::Index(token) => token.span.start >= 1 && usize_of(token.text@) is Some,
    }
}

/// Whether a statement node is one that a parser of the language can give.
pub open spec fn expr_node_wf(e: ExprNode) -> bool
    decreases e,
{
    match e.kind {
        ExprKind::Init { name, ty, value } => value_node_wf(value),
        ExprKind::Assig { name, value } => value_node_wf(value),
        ExprKind::ListRemAssig { name, value } => value_node_wf(value),
        ExprKind::OpAssig { operator, name, value } => value_node_wf(value),
        ExprKind::Fn { name, ty, params, body } => exprs_wf(body@),
        ExprKind::Call(call) => values_wf(call.args@),
        _ => true,
    }
}

/// [`expr_node_wf`] of every node of a list.
pub open spec fn exprs_wf(nodes: Seq<ExprNode>) -> bool
    decreases nodes,
{
    forall|i: int| 0 <= i < nodes.len() ==> expr_node_wf(#[trigger] nodes[i])
}

/// Decides [`access_wf`].
pub fn check_access(access: &AccessNode) -> (ok: bool)
    ensures
        ok == access_wf(*access),
{
    match access {
        AccessNode::Member(token) => token.span.start >= 1,
        AccessNode::Index(token) => token.span.start >= 1 && parse_usize(
            token.text.as_str(),
        ).is_some(),
    }
}

/// Decides [`values_wf`].
pub fn check_values(items: &Vec<ValueNode>) -> (ok: bool)
    ensures
        ok == values_wf(items@),
    decreases items,
{
    let mut i: usize = 0;
    while i < items.len()
        invariant
            i <= items.len(),
            forall|k: int| 0 <= k < i ==> value_node_wf(#[trigger] items@[k]),
        decreases items.len() - i,
    {
        if !check_value(&items[i]) {
            return false;
        }
        i += 1;
    }
    true
}

/// Decides [`value_node_wf`].
pub fn check_value(n: &ValueNode) -> (ok: bool)
    ensures
        ok == value_node_wf(*n),
    decreases n,
{
    match &n.kind {
        ValueKind::Int(text) => parse_i64(text.as_str()).is_some(),
        ValueKind::Num(_) => true,
        ValueKind::Bool(_) => true,
        ValueKind::Name(_) => true,
        ValueKind::Char(text) => text.as_str().unicode_len() > 0,
        ValueKind::Str(text) => check_quoted(text.as_str()),
        ValueKind::Tuple(items) => check_values(items),
        ValueKind::Struct(members) => {
            let mut i: usize = 0;
            while i < members.len()
                invariant
                    i <= members.len(),
                    n.kind is Struct,
                    *members == n.kind->Struct_0,
                    forall|k: int| 0 <= k < i ==> value_node_wf((#[trigger] members@[k]).1),
                decreases members.len() - i,
            {
                if !check_value(&members[i].1) {
                    return false;
                }
                i += 1;
            }
            true
        },
        ValueKind::List(items) => items.len() > 0 && check_values(items),
        ValueKind::Dict(pairs) => {
            if pairs.len() == 0 {
                return false;
            }
            let mut i: usize = 0;
            while i < pairs.len()
                invariant
                    i <= pairs.len(),
                    pairs.len() > 0,
                    n.kind is Dict,
                    *pairs == n.kind->Dict_0,
                    forall|k: int|
                        0 <= k < i ==> value_node_wf((#[trigger] pairs@[k]).0) && value_node_wf(
                            pairs@[k].1,
                        ),
                decreases pairs.len() - i,
            {
                if !check_value(&pairs[i].0) || !check_value(&pairs[i].1) {
                    return false;
                }
                i += 1;
            }
            true
        },
        ValueKind::TupleAccess { name, access } => check_access(access),
        ValueKind::ListAccess { name, key } => key.span.start >= 1 && key.span.end < usize::MAX
            && check_value(key),
        ValueKind::Op { operator, lhs, rhs } => check_value(lhs) && check_value(rhs),
        ValueKind::Cmp(c) => check_comparison(c),
        ValueKind::Logic { connective, lhs, rhs } => {
            let left = match &**lhs {
                LogicOperand::Value(v) => check_value(v),
                LogicOperand::Cmp(c) => check_comparison(c),
            };
            left && check_value(rhs)
        },
        ValueKind::Parenthesis(inner) => check_value(inner),
        ValueKind::Call(call) => check_values(&call.args),
        ValueKind::ModuleAccess => true,
        ValueKind::TypeConversion => true,
    }
}

/// Decides [`comparison_wf`].
pub fn check_comparison(c: &CmpNode) -> (ok: bool)
    ensures
        ok == comparison_wf(*c),
    decreases c,
{
    match &c.kind {
        CmpKind::Relation { relation, lhs, rhs } => check_value(lhs) && check_value(rhs),
        CmpKind::Not(inner) => check_value(inner),
    }
}

/// Decides [`exprs_wf`].
pub fn check_exprs(nodes: &Vec<ExprNode>) -> (ok: bool)
    ensures
        ok == exprs_wf(nodes@),
    decreases nodes,
{
    let mut i: usize = 0;
    while i < nodes.len()
        invariant
            i <= nodes.len(),
            forall|k: int| 0 <= k < i ==> expr_node_wf(#[trigger] nodes@[k]),
        decreases nodes.len() - i,
    {
        if !check_expr(&nodes[i]) {
            return false;
        }
        i += 1;
    }
    true
}

/// Decides [`expr_node_wf`].
pub fn check_expr(e: &ExprNode) -> (ok: bool)
    ensures
        ok == expr_node_wf(*e),
    decreases e,
{
    match &e.kind {
        ExprKind::Init { name, ty, value } => check_value(value),
        ExprKind::Assig { name, value } => check_value(value),
        ExprKind::ListRemAssig { name, value } => check_value(value),
        ExprKind::OpAssig { operator, name, value } => check_value(value),
        ExprKind::Fn { name, ty, params, body } => check_exprs(body),
        ExprKind::Call(call) => check_values(&call.args),
        _ => true,
    }
}

} // verus!
