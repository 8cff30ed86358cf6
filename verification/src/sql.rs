//! Statements for the store, as text with the values to bind.

use vstd::prelude::*;
use vstd::string::*;
use crate::model::Timestamp;
use crate::text::{decimal, decimal_text, join, joined, text_views};

verus! {

/// A value bound to a placeholder of a statement.
#[derive(Debug, PartialEq, Eq)]
pub enum SqlValue {
    Text(String),
    /// An amount in hundredths of the currency unit.
    Amount(i64),
    Instant(Timestamp),
    Null,
}

/// A bound value, as a plain value.
pub enum SqlValueView {
    Text(Seq<char>),
    Amount(int),
    Instant(Timestamp),
    Null,
}

impl View for SqlValue {
    type V = SqlValueView;

    open spec fn view(&self) -> SqlValueView {
        match self {
            SqlValue::Text(s) => SqlValueView::Text(s@),
            SqlValue::Amount(a) => SqlValueView::Amount(*a as int),
            SqlValue::Instant(t) => SqlValueView::Instant(*t),
            SqlValue::Null => SqlValueView::Null,
        }
    }
}

/// One statement: its text, and the values for its placeholders `$1`, `$2`
/// and so on, in that order.
#[derive(Debug, PartialEq, Eq)]
pub struct Statement {
    pub sql: String,
    pub values: Vec<SqlValue>,
}

/// What a statement holds, as plain values.
pub struct StatementView {
    pub sql: Seq<char>,
    pub values: Seq<SqlValueView>,
}

/// The plain values of a list of bound values, in order.
pub open spec fn value_views(values: Seq<SqlValue>) -> Seq<SqlValueView> {
    Seq::new(values.len(), |i: int| values[i]@)
}

impl View for Statement {
    type V = StatementView;

    open spec fn view(&self) -> StatementView {
        StatementView { sql: self.sql@, values: value_views(self.values@) }
    }
}

/// The plain values of a list of statements, in order.
pub open spec fn statement_views(list: Seq<Statement>) -> Seq<StatementView> {
    Seq::new(list.len(), |i: int| list[i]@)
}

/// The placeholder for the value at a position, counted from one.
pub open spec fn placeholder(n: nat) -> Seq<char> {
    "$"@ + decimal_text(n)
}

/// The placeholders for the positions one to `n`, in order.
pub open spec fn placeholders(n: nat) -> Seq<Seq<char>> {
    Seq::new(n, |i: int| placeholder((i + 1) as nat))
}

/// The text of the placeholder for a position, counted from one.
pub fn placeholder_text(n: usize) -> (r: String)
    ensures
        r@ == placeholder(n as nat),
{
    let digits = decimal(n);
    let mut out = String::from_str("$");
    out.append(digits.as_str());
    out
}

/// The placeholders for the positions one to `n`, separated by a comma and
/// a space, as they stand in an `IN` list.
pub fn placeholder_list(n: usize) -> (r: String)
    ensures
        r@ == joined(placeholders(n as nat), ", "@),
{
    let mut parts: Vec<String> = Vec::new();
    let mut i: usize = 0;
    while i < n
        invariant
            i <= n,
            parts.len() == i,
            text_views(parts@) == placeholders(i as nat),
        decreases n - i,
    {
        let p = placeholder_text(i + 1);
        let ghost before = parts@;
        parts.push(p);
        assert forall|j: int| 0 <= j < i + 1 implies text_views(parts@)[j] == placeholders(
            (i + 1) as nat,
        )[j] by {
            if j < i {
                assert(text_views(before)[j] == placeholders(i as nat)[j]);
            }
        }
        assert(text_views(parts@) =~= placeholders((i + 1) as nat));
        i += 1;
    }
    join(&parts, ", ")
}

} // verus!
