//! The rows that the joined payment query returns, as plain values, and how
//! one row is decoded.

use vstd::prelude::*;
use crate::error::StoreFailure;
use crate::model::{Installment, InstallmentView, Payment, PaymentMethod, PaymentStatus, PaymentView, Timestamp};
use crate::text::uppercase_text;
use crate::time::{parse_datetime, stored_instant};

verus! {

/// The installment side of a joined row.
#[derive(Debug, PartialEq, Eq)]
pub struct InstallmentRow {
    pub id: String,
    pub payment_id: String,
    /// In hundredths of the currency unit.
    pub amount: i64,
    pub payment_date: String,
}

/// One row of the payments relation joined to the installments relation.
/// The installment side is absent where the payment has no installment.
#[derive(Debug, PartialEq, Eq)]
pub struct JoinedRow {
    pub id: String,
    pub transaction_id: String,
    /// In hundredths of the currency unit.
    pub amount: i64,
    pub method: String,
    pub status: String,
    pub payment_date: String,
    pub due_date: Option<String>,
    pub installment: Option<InstallmentRow>,
}

/// What the installment side of a row holds, as plain values.
pub struct InstallmentRowView {
    pub id: Seq<char>,
    pub payment_id: Seq<char>,
    pub amount: int,
    pub payment_date: Seq<char>,
}

/// What a joined row holds, as plain values.
pub struct JoinedRowView {
    pub id: Seq<char>,
    pub transaction_id: Seq<char>,
    pub amount: int,
    pub method: Seq<char>,
    pub status: Seq<char>,
    pub payment_date: Seq<char>,
    pub due_date: Option<Seq<char>>,
    pub installment: Option<InstallmentRowView>,
}

impl View for InstallmentRow {
    type V = InstallmentRowView;

    open spec fn view(&self) -> InstallmentRowView {
        InstallmentRowView {
            id: self.id@,
            payment_id: self.payment_id@,
            amount: self.amount as int,
            payment_date: self.payment_date@,
        }
    }
}

impl View for JoinedRow {
    type V = JoinedRowView;

    open spec fn view(&self) -> JoinedRowView {
        JoinedRowView {
            id: self.id@,
            transaction_id: self.transaction_id@,
            amount: self.amount as int,
            method: self.method@,
            status: self.status@,
            payment_date: self.payment_date@,
            due_date: match self.due_date {
                Some(d) => Some(d@),
                None => None,
            },
            installment: match self.installment {
                Some(i) => Some(i@),
                None => None,
            },
        }
    }
}

/// The plain values of a list of rows, in order.
pub open spec fn row_views(rows: Seq<JoinedRow>) -> Seq<JoinedRowView> {
    Seq::new(rows.len(), |i: int| rows[i]@)
}

/// The instant that a stored date text stands for, if it can be read.
pub open spec fn instant_of(text: Seq<char>) -> Option<Timestamp> {
    match stored_instant(text) {
        Some((secs, nanos)) => Some(Timestamp { secs, nanos }),
        None => None,
    }
}

/// Whether the optional due date of a row can be read.
pub open spec fn due_date_readable(due: Option<Seq<char>>) -> bool {
    match due {
        Some(text) => instant_of(text) is Some,
        None => true,
    }
}

/// The due date that a row gives, where it is readable.
pub open spec fn due_date_of(due: Option<Seq<char>>) -> Option<Timestamp> {
    match due {
        Some(text) => instant_of(text),
        None => None,
    }
}

/// Whether the payment side of a row decodes: its method is one of the four
/// codes, its status one of the two, and its dates can be read.
pub open spec fn base_decodes(row: JoinedRowView) -> bool {
    &&& PaymentMethod::of_code(row.method) is Some
    &&& PaymentStatus::of_code(uppercase_text(row.status)) is Some
    &&& instant_of(row.payment_date) is Some
    &&& due_date_readable(row.due_date)
}

/// The payment that the payment side of a row describes, without any
/// installment.
pub open spec fn base_of(row: JoinedRowView) -> PaymentView {
    PaymentView {
        id: row.id,
        transaction_id: row.transaction_id,
        amount: row.amount,
        method: PaymentMethod::of_code(row.method).unwrap(),
        status: PaymentStatus::of_code(uppercase_text(row.status)).unwrap(),
        payment_date: instant_of(row.payment_date).unwrap(),
        installments: Seq::empty(),
        due_date: due_date_of(row.due_date),
    }
}

/// Whether the installment side of a row decodes: it is absent, or its date
/// can be read.
pub open spec fn installment_decodes(row: JoinedRowView) -> bool {
    match row.installment {
        Some(i) => installment_row_decodes(i),
        None => true,
    }
}

/// The installment that a row carries, if it carries one.
pub open spec fn installment_of(row: JoinedRowView) -> Option<InstallmentView> {
    match row.installment {
        Some(i) => Some(installment_row_of(i)),
        None => None,
    }
}

/// Reads a stored method code; an unknown code counts as an absent row.
pub fn parse_payment_method(code: &str) -> (r: Result<PaymentMethod, StoreFailure>)
    ensures
        match PaymentMethod::of_code(code@) {
            Some(m) => r == Ok::<PaymentMethod, StoreFailure>(m),
            None => r == Err::<PaymentMethod, StoreFailure>(StoreFailure::RowNotFound),
        },
{
    match PaymentMethod::from_code(code) {
        Some(m) => Ok(m),
        None => Err(StoreFailure::RowNotFound),
    }
}

/// Reads a stored date text into an instant.
pub fn parse_instant(text: &str) -> (r: Result<Timestamp, StoreFailure>)
    ensures
        match instant_of(text@) {
            Some(t) => r == Ok::<Timestamp, StoreFailure>(t),
            None => r == Err::<Timestamp, StoreFailure>(StoreFailure::RowNotFound),
        },
{
    parse_datetime(text)
}

/// Decodes the payment side of a row into a payment without installments.
/// Any column that does not decode makes the whole row count as absent.
pub fn parse_row_to_payment_base(row: &JoinedRow) -> (r: Result<Payment, StoreFailure>)
    ensures
        base_decodes(row@) ==> r is Ok && r->Ok_0@ == base_of(row@),
        !base_decodes(row@) ==> r == Err::<Payment, StoreFailure>(StoreFailure::RowNotFound),
{
    let method = parse_payment_method(row.method.as_str())?;
    let status = match PaymentStatus::from_string(row.status.as_str()) {
        Some(s) => s,
        None => { return Err(StoreFailure::RowNotFound); },
    };
    let payment_date = parse_instant(row.payment_date.as_str())?;
    let due_date = match &row.due_date {
        Some(text) => Some(parse_instant(text.as_str())?),
        None => None,
    };
    let p = Payment {
        id: row.id.clone(),
        transaction_id: row.transaction_id.clone(),
        amount: row.amount,
        method,
        status,
        payment_date,
        installments: Vec::new(),
        due_date,
    };
    assert(p@.installments =~= Seq::empty());
    Ok(p)
}

/// Whether an installment row decodes: its date can be read.
pub open spec fn installment_row_decodes(row: InstallmentRowView) -> bool {
    instant_of(row.payment_date) is Some
}

/// The installment that an installment row describes.
pub open spec fn installment_row_of(row: InstallmentRowView) -> InstallmentView {
    InstallmentView {
        id: row.id,
        payment_id: row.payment_id,
        amount: row.amount,
        payment_date: instant_of(row.payment_date).unwrap(),
    }
}

/// Decodes a row of the installments relation. A date that cannot be read
/// makes the row count as absent.
pub fn parse_row_to_installment(row: &InstallmentRow) -> (r: Result<Installment, StoreFailure>)
    ensures
        installment_row_decodes(row@) ==> r is Ok && r->Ok_0@ == installment_row_of(row@),
        !installment_row_decodes(row@) ==> r == Err::<Installment, StoreFailure>(
            StoreFailure::RowNotFound,
        ),
{
    let payment_date = parse_instant(row.payment_date.as_str())?;
    Ok(
        Installment {
            id: row.id.clone(),
            payment_id: row.payment_id.clone(),
            amount: row.amount,
            payment_date,
        },
    )
}

/// Decodes the installment side of a row: `None` where the row carries no
/// installment, an error where its date cannot be read.
pub fn try_parse_installment_from_joined_row(row: &JoinedRow) -> (r: Result<Option<Installment>, StoreFailure>)
    ensures
        installment_decodes(row@) ==> r is Ok && match r->Ok_0 {
            Some(i) => installment_of(row@) == Some(i@),
            None => installment_of(row@) is None,
        },
        !installment_decodes(row@) ==> r == Err::<Option<Installment>, StoreFailure>(
            StoreFailure::RowNotFound,
        ),
{
    match &row.installment {
        None => Ok(None),
        Some(i) => Ok(Some(parse_row_to_installment(i)?)),
    }
}

} // verus!
