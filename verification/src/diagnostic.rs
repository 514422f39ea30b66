//! Diagnostics: what the analysis reports, as data for a renderer to show.

use crate::text::{decimal, decimal_text};
use crate::tree::{Cmp, Expr, Type, Value};
use std::ops::Range;
use vstd::prelude::*;
use vstd::string::*;

verus! {

/// One report: the byte range of the source it points at, a header and a body.
#[derive(Debug, PartialEq, Eq)]
pub struct Diagnostic {
    pub range: Range<usize>,
    pub header: String,
    pub body: String,
}

/// The mathematical value of a [`Diagnostic`].
pub struct DiagnosticView {
    pub range: Range<usize>,
    pub header: Seq<char>,
    pub body: Seq<char>,
}

impl View for Diagnostic {
    type V = DiagnosticView;

    open spec fn view(&self) -> DiagnosticView {
        DiagnosticView { range: self.range, header: self.header@, body: self.body@ }
    }
}

/// The views of a sequence of reports, element by element.
pub open spec fn diagnostics_view(diags: Seq<Diagnostic>) -> Seq<DiagnosticView> {
    Seq::new(diags.len(), |i: int| diags[i]@)
}

/// The list that holds exactly one report.
pub open spec fn one(range: Range<usize>, header: Seq<char>, body: Seq<char>) -> Seq<
    DiagnosticView,
> {
    seq![DiagnosticView { range, header, body }]
}

/// The list of no reports.
pub open spec fn none() -> Seq<DiagnosticView> {
    Seq::empty()
}

/// Lists of reports are joined in order, however the joins are grouped.
pub proof fn lemma_joined(a: Seq<DiagnosticView>, b: Seq<DiagnosticView>, c: Seq<DiagnosticView>)
    ensures
        (a + b) + c == a + (b + c),
{
    assert((a + b) + c =~= a + (b + c));
}

/// The witness that a diagnostic was reported. Each of its methods gives the
/// error value of one kind of result.
#[derive(Debug)]
pub struct ParseErr;

impl ParseErr {
    /// The error type.
    pub fn type_err(self) -> (t: Type)
        ensures
            t == Type::Error,
    {
        Type::Error
    }

    /// The error value.
    pub fn value_err(self) -> (v: Value)
        ensures
            v == Value::Error,
    {
        Value::Error
    }

    /// The error statement.
    pub fn expr_err(self) -> (e: Expr)
        ensures
            e == Expr::Error,
    {
        Expr::Error
    }

    /// The error comparison.
    pub fn cmp_err(self) -> (c: Cmp)
        ensures
            c == Cmp::Error,
    {
        Cmp::Error
    }

    /// `false`, for a check that failed.
    pub fn _false(self) -> (b: bool)
        ensures
            !b,
    {
        false
    }

    /// `true`, for a check that goes on in spite of the report.
    pub fn _true(self) -> (b: bool)
        ensures
            b,
    {
        true
    }
}

/// Records one report at the end of the list.
pub fn emit(range: &Range<usize>, header: &str, body: &str, diags: &mut Vec<Diagnostic>) -> (e:
    ParseErr)
    ensures
        diagnostics_view(final(diags)@) == diagnostics_view(old(diags)@) + one(
            *range,
            header@,
            body@,
        ),
{
    let d = Diagnostic {
        range: range.start..range.end,
        header: String::from_str(header),
        body: String::from_str(body),
    };
    diags.push(d);
    assert(diagnostics_view(diags@) =~= diagnostics_view(old(diags)@) + one(
        *range,
        header@,
        body@,
    ));
    ParseErr
}

/// `expected 'T', found 'U'`
pub open spec fn text_expected_found(expected: Seq<char>, found: Seq<char>) -> Seq<char> {
    "expected '"@ + expected + "', found '"@ + found + "'"@
}

/// Writes [`text_expected_found`].
pub fn expected_found(expected: &str, found: &str) -> (s: String)
    ensures
        s@ == text_expected_found(expected@, found@),
{
    let mut s = String::from_str("expected '");
    s.append(expected);
    s.append("', found '");
    s.append(found);
    s.append("'");
    s
}

/// `expected T found U`
pub open spec fn text_access_expected(expected: Seq<char>, found: Seq<char>) -> Seq<char> {
    "expected "@ + expected + " found "@ + found
}

/// Writes [`text_access_expected`].
pub fn access_expected(expected: &str, found: &str) -> (s: String)
    ensures
        s@ == text_access_expected(expected@, found@),
{
    let mut s = String::from_str("expected ");
    s.append(expected);
    s.append(" found ");
    s.append(found);
    s
}

/// A text between two fixed texts.
pub open spec fn text_wrapped(before: Seq<char>, middle: Seq<char>, after: Seq<char>) -> Seq<
    char,
> {
    before + middle + after
}

/// Writes [`text_wrapped`].
pub fn wrapped(before: &str, middle: &str, after: &str) -> (s: String)
    ensures
        s@ == text_wrapped(before@, middle@, after@),
{
    let mut s = String::from_str(before);
    s.append(middle);
    s.append(after);
    s
}

/// `member 'NAME.MEMBER' does not exist`
pub open spec fn text_member_missing(name: Seq<char>, member: Seq<char>) -> Seq<char> {
    "member '"@ + name + "."@ + member + "' does not exist"@
}

/// Writes [`text_member_missing`].
pub fn member_missing(name: &str, member: &str) -> (s: String)
    ensures
        s@ == text_member_missing(name@, member@),
{
    let mut s = String::from_str("member '");
    s.append(name);
    s.append(".");
    s.append(member);
    s.append("' does not exist");
    s
}

/// `tuple has N elements, trying to access element number I`, where I counts from one.
pub open spec fn text_out_of_bounds(len: nat, index: nat) -> Seq<char> {
    "tuple has "@ + (if len > 1 {
        decimal_text(len) + " elements"@
    } else {
        "1 element"@
    }) + ", trying to access element number "@ + decimal_text(index + 1)
}

/// Writes [`text_out_of_bounds`].
pub fn out_of_bounds(len: usize, index: usize) -> (s: String)
    ensures
        s@ == text_out_of_bounds(len as nat, index as nat),
{
    let mut s = String::from_str("tuple has ");
    if len > 1 {
        let n = decimal(len as u128);
        s.append(n.as_str());
        s.append(" elements");
    } else {
        s.append("1 element");
    }
    s.append(", trying to access element number ");
    let position = decimal(index as u128 + 1);
    s.append(position.as_str());
    assert(s@ =~= text_out_of_bounds(len as nat, index as nat));
    s
}

/// `expected N, found M`, for the number of arguments of a call.
pub open spec fn text_arity(expected: nat, found: nat) -> Seq<char> {
    "expected "@ + decimal_text(expected) + ", found "@ + decimal_text(found)
}

/// Writes [`text_arity`].
pub fn arity(expected: usize, found: usize) -> (s: String)
    ensures
        s@ == text_arity(expected as nat, found as nat),
{
    let mut s = String::from_str("expected ");
    let e = decimal(expected as u128);
    s.append(e.as_str());
    s.append(", found ");
    let f = decimal(found as u128);
    s.append(f.as_str());
    s
}

} // verus!
