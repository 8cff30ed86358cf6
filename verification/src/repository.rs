//! The payment repository: the statements it sends to the store and the
//! decoding of what comes back.

use vstd::prelude::*;
use vstd::string::*;
use crate::error::StoreFailure;
use crate::model::{Installment, InstallmentView, Payment, PaymentStatus, PaymentView};
use crate::rows::{
    base_decodes, base_of, installment_row_decodes, installment_row_of, parse_row_to_installment,
    parse_row_to_payment_base, InstallmentRow, InstallmentRowView, JoinedRow,
};
use crate::sql::{
    placeholder, placeholder_list, placeholder_text, placeholders, statement_views, SqlValue,
    SqlValueView, Statement, StatementView,
};
use crate::text::{concat_text, join, joined, text_views};
use crate::text_map::TextMap;

verus! {

/// The repository that loads each payment with its installments from one
/// joined query.
pub struct OptimizedPembayaranRepository;

/// The selection of all payments, without their installments.
pub const SELECT_PAYMENTS: &'static str =
    "SELECT id, transaction_id, amount, method, status, payment_date, due_date FROM payments";

/// Inserts the row of a payment.
pub const INSERT_PAYMENT: &'static str =
    "INSERT INTO payments (id, transaction_id, amount, method, status, payment_date, due_date) VALUES ($1, $2, $3, $4, $5, $6, $7)";

/// Inserts the row of an installment.
pub const INSERT_INSTALLMENT: &'static str =
    "INSERT INTO installments (id, payment_id, amount, payment_date) VALUES ($1, $2, $3, $4)";

/// Rewrites the columns of a payment's row.
pub const UPDATE_PAYMENT: &'static str =
    "UPDATE payments SET transaction_id = $1, amount = $2, method = $3, status = $4, payment_date = $5, due_date = $6 WHERE id = $7";

/// Sets the status of a payment.
pub const UPDATE_STATUS: &'static str = "UPDATE payments SET status = $1 WHERE id = $2";

/// Deletes the installments of a payment.
pub const DELETE_INSTALLMENTS: &'static str = "DELETE FROM installments WHERE payment_id = $1";

/// Deletes a payment's row.
pub const DELETE_PAYMENT: &'static str = "DELETE FROM payments WHERE id = $1";

/// The selection of payments joined to their installments: a payment
/// without installments gives one row with an absent installment side.
pub const SELECT_JOINED: &'static str =
    "SELECT p.id, p.transaction_id, p.amount, p.method, p.status, p.payment_date, p.due_date, i.id as inst_id, i.payment_id as inst_payment_id, i.amount as inst_amount, i.payment_date as inst_date FROM payments p LEFT JOIN installments i ON p.id = i.payment_id";

/// Restricts the joined selection to one payment, its installments in
/// ascending order of date.
pub const WHERE_ONE: &'static str = " WHERE p.id = $1 ORDER BY i.payment_date ASC";

/// Opens the restriction of the joined selection to a list of payments.
pub const WHERE_MANY: &'static str = " WHERE p.id IN (";

/// Closes the list of payments and orders the rows by payment, the
/// installments of each in ascending order of date.
pub const ORDER_MANY: &'static str = ") ORDER BY p.id, i.payment_date ASC";

/// The value bound for an optional instant.
pub open spec fn optional_instant(t: Option<crate::model::Timestamp>) -> SqlValueView {
    match t {
        Some(t) => SqlValueView::Instant(t),
        None => SqlValueView::Null,
    }
}

/// The statement that inserts the row of a payment.
pub open spec fn insert_payment(p: PaymentView) -> StatementView {
    StatementView {
        sql: INSERT_PAYMENT@,
        values: seq![
            SqlValueView::Text(p.id),
            SqlValueView::Text(p.transaction_id),
            SqlValueView::Amount(p.amount),
            SqlValueView::Text(p.method.code()),
            SqlValueView::Text(p.status.code()),
            SqlValueView::Instant(p.payment_date),
            optional_instant(p.due_date),
        ],
    }
}

/// The statement that inserts the row of an installment.
pub open spec fn insert_installment(i: InstallmentView) -> StatementView {
    StatementView {
        sql: INSERT_INSTALLMENT@,
        values: seq![
            SqlValueView::Text(i.id),
            SqlValueView::Text(i.payment_id),
            SqlValueView::Amount(i.amount),
            SqlValueView::Instant(i.payment_date),
        ],
    }
}

/// The statement that rewrites the columns of a payment's own row.
pub open spec fn update_payment(p: PaymentView) -> StatementView {
    StatementView {
        sql: UPDATE_PAYMENT@,
        values: seq![
            SqlValueView::Text(p.transaction_id),
            SqlValueView::Amount(p.amount),
            SqlValueView::Text(p.method.code()),
            SqlValueView::Text(p.status.code()),
            SqlValueView::Instant(p.payment_date),
            optional_instant(p.due_date),
            SqlValueView::Text(p.id),
        ],
    }
}

/// The statement that sets the status of a payment.
pub open spec fn update_status(id: Seq<char>, status: PaymentStatus) -> StatementView {
    StatementView {
        sql: UPDATE_STATUS@,
        values: seq![SqlValueView::Text(status.code()), SqlValueView::Text(id)],
    }
}

/// A statement with the payment id as its only value.
pub open spec fn by_id(sql: Seq<char>, id: Seq<char>) -> StatementView {
    StatementView { sql, values: seq![SqlValueView::Text(id)] }
}

/// The statements that create a payment: the payment's own row first, then
/// one row for each of its installments, in their order.
pub open spec fn create_plan(p: PaymentView) -> Seq<StatementView> {
    seq![insert_payment(p)] + Seq::new(p.installments.len(), |i: int| insert_installment(p.installments[i]))
}

/// The statements that set a payment's status and, where an installment
/// comes with the change, insert it.
pub open spec fn status_plan(id: Seq<char>, status: PaymentStatus, added: Option<InstallmentView>) -> Seq<
    StatementView,
> {
    match added {
        Some(i) => seq![update_status(id, status), insert_installment(i)],
        None => seq![update_status(id, status)],
    }
}

/// The statements that delete a payment: its installments first, then its
/// own row.
pub open spec fn delete_plan(id: Seq<char>) -> Seq<StatementView> {
    seq![by_id(DELETE_INSTALLMENTS@, id), by_id(DELETE_PAYMENT@, id)]
}

/// The query that loads the payments with the given ids, each with its
/// installments.
pub open spec fn batch_query(ids: Seq<Seq<char>>) -> StatementView {
    StatementView {
        sql: SELECT_JOINED@ + WHERE_MANY@ + joined(placeholders(ids.len()), ", "@) + ORDER_MANY@,
        values: Seq::new(ids.len(), |i: int| SqlValueView::Text(ids[i])),
    }
}

/// The value that a filter holds under a key, if it holds one.
pub open spec fn filter_value(filters: Option<TextMap<String>>, key: Seq<char>) -> Option<Seq<char>> {
    match filters {
        Some(m) => if m@.contains_key(key) {
            Some(m@[key]@)
        } else {
            None
        },
        None => None,
    }
}

/// A list with the value that is present, or without any.
pub open spec fn present(v: Option<Seq<char>>) -> Seq<Seq<char>> {
    match v {
        Some(x) => seq![x],
        None => Seq::empty(),
    }
}

/// The values that the filtered query binds: those of the filters that are
/// present, in the order status, method, transaction id.
pub open spec fn filter_values(
    status: Option<Seq<char>>,
    method: Option<Seq<char>>,
    transaction_id: Option<Seq<char>>,
) -> Seq<Seq<char>> {
    present(status) + present(method) + present(transaction_id)
}

/// The conditions of the filtered query: one equality for each filter that
/// is present, each with the placeholder of its value.
pub open spec fn filter_clauses(
    status: Option<Seq<char>>,
    method: Option<Seq<char>>,
    transaction_id: Option<Seq<char>>,
) -> Seq<Seq<char>> {
    (if status is Some {
        seq!["status = $1"@]
    } else {
        Seq::empty()
    }) + (if method is Some {
        seq!["method = "@ + placeholder(present(status).len() + 1)]
    } else {
        Seq::empty()
    }) + (if transaction_id is Some {
        seq!["transaction_id = "@ + placeholder(present(status).len() + present(method).len() + 1)]
    } else {
        Seq::empty()
    })
}

/// The text of the filtered query: the plain selection where no filter is
/// present, and otherwise the selection restricted to the rows that meet
/// every condition.
pub open spec fn filtered_query(
    status: Option<Seq<char>>,
    method: Option<Seq<char>>,
    transaction_id: Option<Seq<char>>,
) -> Seq<char> {
    let clauses = filter_clauses(status, method, transaction_id);
    if clauses.len() == 0 {
        SELECT_PAYMENTS@
    } else {
        SELECT_PAYMENTS@ + " WHERE "@ + joined(clauses, " AND "@)
    }
}

/// The value bound for an optional instant.
fn instant_or_null(t: Option<crate::model::Timestamp>) -> (r: SqlValue)
    ensures
        r@ == optional_instant(t),
{
    match t {
        Some(t) => SqlValue::Instant(t),
        None => SqlValue::Null,
    }
}

/// A statement with the payment id as its only value.
fn statement_by_id(sql: &str, id: &str) -> (r: Statement)
    ensures
        r@ == by_id(sql@, id@),
{
    let r = Statement { sql: sql.to_string(), values: vec![SqlValue::Text(id.to_string())] };
    assert(r@.values =~= by_id(sql@, id@).values);
    r
}

/// Builds the statement that inserts the row of an installment.
fn insert_installment_statement(i: &Installment) -> (r: Statement)
    ensures
        r@ == insert_installment(i@),
{
    let r = Statement {
        sql: INSERT_INSTALLMENT.to_string(),
        values: vec![
            SqlValue::Text(i.id.clone()),
            SqlValue::Text(i.payment_id.clone()),
            SqlValue::Amount(i.amount),
            SqlValue::Instant(i.payment_date),
        ],
    };
    assert(r@.values =~= insert_installment(i@).values);
    r
}

impl OptimizedPembayaranRepository {
    /// The statements that create a payment, to be run in one transaction:
    /// the payment's own row, then a row for each installment it comes with.
    pub fn create(payment: &Payment) -> (r: Vec<Statement>)
        ensures
            statement_views(r@) == create_plan(payment@),
    {
        let first = Statement {
            sql: INSERT_PAYMENT.to_string(),
            values: vec![
                SqlValue::Text(payment.id.clone()),
                SqlValue::Text(payment.transaction_id.clone()),
                SqlValue::Amount(payment.amount),
                SqlValue::Text(payment.method.to_string()),
                SqlValue::Text(payment.status.to_string()),
                SqlValue::Instant(payment.payment_date),
                instant_or_null(payment.due_date),
            ],
        };
        assert(first@.values =~= insert_payment(payment@).values);
        let mut out: Vec<Statement> = vec![first];
        let mut i: usize = 0;
        while i < payment.installments.len()
            invariant
                i <= payment.installments.len(),
                out.len() == i + 1,
                out[0]@ == insert_payment(payment@),
                forall|k: int| 0 <= k < i ==> out[k + 1]@ == insert_installment(payment.installments[k]@),
            decreases payment.installments.len() - i,
        {
            out.push(insert_installment_statement(&payment.installments[i]));
            i += 1;
        }
        assert(statement_views(out@) =~= create_plan(payment@));
        out
    }

    /// The query that loads one payment with its installments, the rows in
    /// ascending order of installment date.
    pub fn find_by_id(id: &str) -> (r: Statement)
        ensures
            r@ == by_id(SELECT_JOINED@ + WHERE_ONE@, id@),
    {
        let sql = concat_text(SELECT_JOINED, WHERE_ONE);
        statement_by_id(sql.as_str(), id)
    }

    /// The statement that rewrites a payment's own row. Installments are not
    /// touched.
    pub fn update(payment: &Payment) -> (r: Statement)
        ensures
            r@ == update_payment(payment@),
    {
        let r = Statement {
            sql: UPDATE_PAYMENT.to_string(),
            values: vec![
                SqlValue::Text(payment.transaction_id.clone()),
                SqlValue::Amount(payment.amount),
                SqlValue::Text(payment.method.to_string()),
                SqlValue::Text(payment.status.to_string()),
                SqlValue::Instant(payment.payment_date),
                instant_or_null(payment.due_date),
                SqlValue::Text(payment.id.clone()),
            ],
        };
        assert(r@.values =~= update_payment(payment@).values);
        r
    }

    /// The statements that set a payment's status, to be run in one
    /// transaction; where an installment comes with the change, it is
    /// inserted after the status is set.
    pub fn update_payment_status(payment_id: &str, new_status: PaymentStatus, added: Option<&Installment>) -> (r:
        Vec<Statement>)
        ensures
            statement_views(r@) == status_plan(
                payment_id@,
                new_status,
                match added {
                    Some(i) => Some(i@),
                    None => None,
                },
            ),
    {
        let first = Statement {
            sql: UPDATE_STATUS.to_string(),
            values: vec![SqlValue::Text(new_status.to_string()), SqlValue::Text(payment_id.to_string())],
        };
        assert(first@.values =~= update_status(payment_id@, new_status).values);
        let mut out: Vec<Statement> = vec![first];
        match added {
            Some(i) => {
                out.push(insert_installment_statement(i));
                assert(statement_views(out@) =~= status_plan(payment_id@, new_status, Some(i@)));
            },
            None => {
                assert(statement_views(out@) =~= status_plan(payment_id@, new_status, None));
            },
        }
        out
    }

    /// The statements that delete a payment, to be run in one transaction:
    /// the installments go first, so that no installment is ever left
    /// without its payment.
    pub fn delete(id: &str) -> (r: Vec<Statement>)
        ensures
            statement_views(r@) == delete_plan(id@),
    {
        let out = vec![statement_by_id(DELETE_INSTALLMENTS, id), statement_by_id(DELETE_PAYMENT, id)];
        assert(statement_views(out@) =~= delete_plan(id@));
        out
    }

    /// The statement that inserts one installment.
    pub fn add_installment(installment: &Installment) -> (r: Statement)
        ensures
            r@ == insert_installment(installment@),
    {
        insert_installment_statement(installment)
    }

    /// The query that loads all the payments with the given ids in one go,
    /// or `None` where there is no id to load.
    pub fn batch_load_payments_with_installments(payment_ids: &Vec<String>) -> (r: Option<Statement>)
        ensures
            payment_ids.len() == 0 ==> r is None,
            payment_ids.len() > 0 ==> r is Some && r->Some_0@ == batch_query(text_views(payment_ids@)),
    {
        if payment_ids.len() == 0 {
            return None;
        }
        let mut sql = concat_text(SELECT_JOINED, WHERE_MANY);
        let list = placeholder_list(payment_ids.len());
        sql.append(list.as_str());
        sql.append(ORDER_MANY);
        let mut values: Vec<SqlValue> = Vec::new();
        let mut i: usize = 0;
        while i < payment_ids.len()
            invariant
                i <= payment_ids.len(),
                values.len() == i,
                forall|k: int| 0 <= k < i ==> values[k]@ == SqlValueView::Text(payment_ids[k]@),
            decreases payment_ids.len() - i,
        {
            values.push(SqlValue::Text(payment_ids[i].clone()));
            i += 1;
        }
        let r = Statement { sql, values };
        assert(r@.values =~= batch_query(text_views(payment_ids@)).values);
        Some(r)
    }

    /// Builds the query that selects the payments a filter admits, with the
    /// values to bind. Each of the filters `status`, `method` and
    /// `transaction_id` that is present adds an equality; other keys are
    /// not looked at.
    pub fn build_filtered_query(filters: Option<TextMap<String>>) -> (r: (String, Vec<String>))
        requires
            filters is Some ==> filters->Some_0.wf(),
        ensures
            r.0@ == filtered_query(
                filter_value(filters, "status"@),
                filter_value(filters, "method"@),
                filter_value(filters, "transaction_id"@),
            ),
            text_views(r.1@) == filter_values(
                filter_value(filters, "status"@),
                filter_value(filters, "method"@),
                filter_value(filters, "transaction_id"@),
            ),
    {
        let ghost status = filter_value(filters, "status"@);
        let ghost method = filter_value(filters, "method"@);
        let ghost transaction_id = filter_value(filters, "transaction_id"@);
        let mut query = SELECT_PAYMENTS.to_string();
        let mut clauses: Vec<String> = Vec::new();
        let mut values: Vec<String> = Vec::new();
        assert(text_views(clauses@) =~= Seq::<Seq<char>>::empty());
        assert(text_views(values@) =~= Seq::<Seq<char>>::empty());
        if let Some(map) = &filters {
            if let Some(v) = map.get("status") {
                clauses.push("status = $1".to_string());
                values.push(v.clone());
            }
            assert(text_views(values@) =~= present(status));
            assert(text_views(clauses@) =~= filter_clauses(status, None, None));
            if let Some(v) = map.get("method") {
                let n = values.len() + 1;
                clauses.push(concat_text("method = ", placeholder_text(n).as_str()));
                values.push(v.clone());
            }
            assert(text_views(values@) =~= present(status) + present(method));
            assert(text_views(clauses@) =~= filter_clauses(status, method, None));
            if let Some(v) = map.get("transaction_id") {
                let n = values.len() + 1;
                clauses.push(concat_text("transaction_id = ", placeholder_text(n).as_str()));
                values.push(v.clone());
            }
        }
        assert(text_views(values@) =~= filter_values(status, method, transaction_id));
        assert(text_views(clauses@) =~= filter_clauses(status, method, transaction_id));
        if clauses.len() > 0 {
            query.append(" WHERE ");
            query.append(join(&clauses, " AND ").as_str());
        }
        (query, values)
    }
}

/// The repository that loads a payment and its installments from their
/// two relations, one after the other.
pub struct PembayaranRepository;

/// The plain values of a list of installment rows, in order.
pub open spec fn installment_row_views(rows: Seq<InstallmentRow>) -> Seq<InstallmentRowView> {
    Seq::new(rows.len(), |i: int| rows[i]@)
}

/// The installments that the first `n` rows of a list describe, in order.
pub open spec fn decoded_installments(rows: Seq<InstallmentRowView>, n: nat) -> Seq<InstallmentView> {
    Seq::new(n, |k: int| installment_row_of(rows[k]))
}

impl PembayaranRepository {
    /// Decodes a row of the payments relation into a payment without
    /// installments.
    pub fn parse_row_to_payment(row: &JoinedRow) -> (r: Result<Payment, StoreFailure>)
        ensures
            base_decodes(row@) ==> r is Ok && r->Ok_0@ == base_of(row@),
            !base_decodes(row@) ==> r == Err::<Payment, StoreFailure>(StoreFailure::RowNotFound),
    {
        parse_row_to_payment_base(row)
    }

    /// Decodes a row of the installments relation.
    pub fn parse_row_to_installment(row: &InstallmentRow) -> (r: Result<Installment, StoreFailure>)
        ensures
            installment_row_decodes(row@) ==> r is Ok && r->Ok_0@ == installment_row_of(row@),
            !installment_row_decodes(row@) ==> r == Err::<Installment, StoreFailure>(
                StoreFailure::RowNotFound,
            ),
    {
        parse_row_to_installment(row)
    }

    /// Puts a payment together from its own row and the rows of its
    /// installments, which keep their order. A row that does not decode
    /// makes the payment count as absent.
    pub fn load_payment_with_installments(payment_row: &JoinedRow, installment_rows: &Vec<InstallmentRow>) -> (r:
        Result<Payment, StoreFailure>)
        ensures
            ({
                let rows = installment_row_views(installment_rows@);
                let decodes = base_decodes(payment_row@) && forall|i: int|
                    0 <= i < rows.len() ==> installment_row_decodes(#[trigger] rows[i]);
                &&& decodes ==> r is Ok && r->Ok_0@ == (PaymentView {
                    installments: decoded_installments(rows, rows.len()),
                    ..base_of(payment_row@)
                })
                &&& !decodes ==> r == Err::<Payment, StoreFailure>(StoreFailure::RowNotFound)
            }),
    {
        let ghost rows = installment_row_views(installment_rows@);
        let mut payment = parse_row_to_payment_base(payment_row)?;
        let ghost base = payment@;
        let mut i: usize = 0;
        assert(payment@.installments =~= decoded_installments(rows, 0));
        while i < installment_rows.len()
            invariant
                i <= installment_rows.len(),
                rows == installment_row_views(installment_rows@),
                forall|k: int| 0 <= k < i ==> installment_row_decodes(#[trigger] rows[k]),
                payment@ == (PaymentView { installments: decoded_installments(rows, i as nat), ..base }),
            decreases installment_rows.len() - i,
        {
            assert(rows[i as int] == installment_rows[i as int]@);
            let installment = parse_row_to_installment(&installment_rows[i])?;
            let ghost before = payment@.installments;
            payment.installments.push(installment);
            assert(payment@.installments =~= before.push(installment@));
            assert(payment@.installments =~= decoded_installments(rows, (i + 1) as nat));
            i += 1;
        }
        Ok(payment)
    }
}

} // verus!
