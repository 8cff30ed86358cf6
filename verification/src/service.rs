//! The caching payment service: what it decides before the store is asked
//! and what it makes of the store's answers. The caller performs the store
//! operations in between and hands the answers back.

use vstd::prelude::*;
use vstd::string::*;
use crate::aggregate::payment_views;
use crate::cache::{CachedPaymentView, PaymentCache};
use crate::error::{
    classify, convert_failure, convert_failure_for, converted, converted_for, OptimizedPaymentError,
    OptimizedPaymentErrorView, StoreFailure, StoreFailureView,
};
use crate::grouping::{grouped, rows_decode, single, single_decodes};
use crate::ident::installment_id_from;
use crate::model::{Installment, InstallmentView, Payment, PaymentMethod, PaymentStatus, PaymentView, Timestamp};
use crate::repository::{
    batch_query, create_plan, delete_plan, filter_value, filter_values, filtered_query,
    insert_installment, status_plan, update_payment, OptimizedPembayaranRepository,
};
use crate::rows::{row_views, JoinedRow, JoinedRowView};
use crate::sql::{statement_views, Statement};
use crate::text::{concat_text, text_views, to_uppercase, uppercase_text};
use crate::text_map::TextMap;
use crate::validation::{
    filter_violations, logically_equal, payments_are_equal, valid, validate_filters,
    validate_payment, validation_error, violations,
};

verus! {

/// The number of seconds for which a cached payment stays valid.
pub const CACHE_TTL_SECONDS: i64 = 300;

/// The payment service that validates, caches and reports the store's
/// failures as its own errors.
pub struct OptimizedPaymentService;

/// What an update comes to once the stored payment is known.
pub enum UpdateDecision {
    /// Nothing that the store keeps would change: the stored payment is the
    /// answer, and the store is not written to.
    Unchanged(Payment),
    /// The payment's row is to be rewritten with this statement.
    Write(Statement),
}

/// What listing comes to once the matching ids are known.
pub enum ListStep {
    /// No payment matches: the list is empty, and nothing is loaded.
    Empty,
    /// The matching payments are to be loaded with this query.
    Load(Statement),
}

/// An invalid-input error, as plain values.
pub open spec fn invalid_input(field: Seq<char>, message: Seq<char>) -> OptimizedPaymentErrorView {
    OptimizedPaymentErrorView::InvalidInput { field, message }
}

/// The error for an amount that is not positive, under the name of its
/// field.
pub open spec fn amount_rejected(field: Seq<char>) -> OptimizedPaymentErrorView {
    invalid_input(field, "Amount must be greater than 0"@)
}

/// The error for an installment offered to a payment that is not paid in
/// installments.
pub open spec fn not_installment() -> OptimizedPaymentErrorView {
    invalid_input(
        "payment_status"@,
        "Cannot add installment to a payment that is not in INSTALLMENT status"@,
    )
}

/// The cache entry for a payment cached at an instant.
pub open spec fn snapshot(p: PaymentView, at: Timestamp) -> CachedPaymentView {
    CachedPaymentView { payment: p, cached_at: at, ttl_seconds: CACHE_TTL_SECONDS as int }
}

/// The cache after an answer was cached under a key: the payment read from
/// the store replaces whatever was there; after a failure the cache is as
/// `otherwise` says.
pub open spec fn cache_after(
    before: Map<Seq<char>, CachedPaymentView>,
    key: Seq<char>,
    answer: Result<PaymentView, StoreFailureView>,
    at: Timestamp,
    otherwise: Map<Seq<char>, CachedPaymentView>,
) -> Map<Seq<char>, CachedPaymentView> {
    match answer {
        Ok(p) => before.insert(key, snapshot(p, at)),
        Err(_) => otherwise,
    }
}

/// The rows of a store answer, as plain values.
pub open spec fn answer_rows(loaded: Result<Vec<JoinedRow>, StoreFailure>) -> Result<
    Seq<JoinedRowView>,
    StoreFailureView,
> {
    match loaded {
        Ok(rows) => Ok(row_views(rows@)),
        Err(f) => Err(f@),
    }
}

/// The payment that the answer to a query for one payment holds, or the
/// failure that it amounts to: the store's own, or an absent row where the
/// rows do not decode to a payment.
pub open spec fn loaded_payment(answer: Result<Seq<JoinedRowView>, StoreFailureView>) -> Result<
    PaymentView,
    StoreFailureView,
> {
    match answer {
        Ok(rows) => if single_decodes(rows) {
            Ok(single(rows))
        } else {
            Err(StoreFailureView::RowNotFound)
        },
        Err(f) => Err(f),
    }
}

/// The new installment that a unique part, an owner, an amount and an
/// instant make.
pub open spec fn new_installment_view(
    unique: Seq<char>,
    payment_id: Seq<char>,
    amount: int,
    at: Timestamp,
) -> InstallmentView {
    InstallmentView { id: "INST-"@ + unique, payment_id, amount, payment_date: at }
}

/// Builds a new installment for a payment.
pub fn new_installment(unique: &str, payment_id: &str, amount: i64, at: Timestamp) -> (r: Installment)
    ensures
        r@ == new_installment_view(unique@, payment_id@, amount as int, at),
{
    Installment {
        id: installment_id_from(unique),
        payment_id: payment_id.to_string(),
        amount,
        payment_date: at,
    }
}

/// Builds the error for an amount that is not positive.
fn reject_amount(field: &str) -> (r: OptimizedPaymentError)
    ensures
        r@ == amount_rejected(field@),
{
    OptimizedPaymentError::InvalidInput {
        field: field.to_string(),
        message: "Amount must be greater than 0".to_string(),
    }
}

/// Decodes the answer to a query for one payment.
fn decode_answer(loaded: Result<Vec<JoinedRow>, StoreFailure>) -> (r: Result<Payment, StoreFailure>)
    ensures
        match loaded_payment(answer_rows(loaded)) {
            Ok(p) => r is Ok && r->Ok_0@ == p,
            Err(f) => r is Err && r->Err_0@ == f,
        },
{
    match loaded {
        Ok(rows) => OptimizedPembayaranRepository::parse_joined_rows_to_payment(rows),
        Err(f) => Err(f),
    }
}

impl OptimizedPaymentService {
    /// A service. It holds no state of its own: the cache is handed to the
    /// operations that use it.
    pub fn new() -> (r: OptimizedPaymentService) {
        OptimizedPaymentService
    }

    /// Reads a payment method whatever the case of its letters.
    pub fn parse_payment_method(&self, method: &str) -> (r: Result<PaymentMethod, OptimizedPaymentError>)
        ensures
            match PaymentMethod::of_code(uppercase_text(method@)) {
                Some(m) => r == Ok::<PaymentMethod, OptimizedPaymentError>(m),
                None => r is Err && r->Err_0@ == invalid_input(
                    "payment_method"@,
                    "Invalid payment method: "@ + method@,
                ),
            },
    {
        let upper = to_uppercase(method);
        match PaymentMethod::from_code(upper.as_str()) {
            Some(m) => Ok(m),
            None => Err(
                OptimizedPaymentError::InvalidInput {
                    field: "payment_method".to_string(),
                    message: concat_text("Invalid payment method: ", method),
                },
            ),
        }
    }

    /// Reads a payment status whatever the case of its letters.
    pub fn parse_payment_status(&self, status: &str) -> (r: Result<PaymentStatus, OptimizedPaymentError>)
        ensures
            match PaymentStatus::of_code(uppercase_text(status@)) {
                Some(s) => r == Ok::<PaymentStatus, OptimizedPaymentError>(s),
                None => r is Err && r->Err_0@ == invalid_input(
                    "payment_status"@,
                    "Invalid payment status: "@ + status@,
                ),
            },
    {
        match PaymentStatus::from_string(status) {
            Some(s) => Ok(s),
            None => Err(
                OptimizedPaymentError::InvalidInput {
                    field: "payment_status".to_string(),
                    message: concat_text("Invalid payment status: ", status),
                },
            ),
        }
    }

    /// Turns an error of the store into an error of the service. Which
    /// failure the error amounts to is the error's own matter; whatever it
    /// is, the result is what that failure is converted to, and so a payment
    /// not found, a database error or a connection error.
    pub fn convert_sqlx_error(&self, error: sqlx::Error) -> (r: OptimizedPaymentError)
        ensures
            exists|f: StoreFailureView| r@ == #[trigger] converted(f),
            r@ is NotFound || r@ is DatabaseError || r@ is ConnectionError,
    {
        let failure = classify(error);
        let ghost f = failure@;
        let r = convert_failure(failure);
        assert(r@ == converted(f));
        r
    }

    /// Checks that an amount offered as an installment is positive.
    pub fn check_amount(&self, field: &str, amount: i64) -> (r: Result<(), OptimizedPaymentError>)
        ensures
            amount > 0 ==> r is Ok,
            amount <= 0 ==> r is Err && r->Err_0@ == amount_rejected(field@),
    {
        if amount <= 0 {
            Err(reject_amount(field))
        } else {
            Ok(())
        }
    }

    /// The first step of creating a payment: a payment with any violation
    /// is rejected with all of them and nothing is sent to the store; a
    /// valid one gives the statements to run in one transaction.
    pub fn begin_create(&self, payment: &Payment) -> (r: Result<Vec<Statement>, OptimizedPaymentError>)
        ensures
            valid(payment@) ==> r is Ok && statement_views(r->Ok_0@) == create_plan(payment@),
            !valid(payment@) ==> r is Err && r->Err_0@ == validation_error(violations(payment@)),
    {
        validate_payment(payment)?;
        Ok(OptimizedPembayaranRepository::create(payment))
    }

    /// The last step of creating a payment: the created payment, read back
    /// from the store, is cached under its id and returned. A failure of
    /// the store is returned as the service's error and leaves the cache as
    /// it was.
    pub fn complete_create(
        &self,
        cache: &mut PaymentCache,
        loaded: Result<Vec<JoinedRow>, StoreFailure>,
        at: Timestamp,
    ) -> (r: Result<Payment, OptimizedPaymentError>)
        requires
            old(cache).wf(),
        ensures
            final(cache).wf(),
            match loaded_payment(answer_rows(loaded)) {
                Ok(p) => r is Ok && r->Ok_0@ == p && final(cache)@ == old(cache)@.insert(
                    p.id,
                    snapshot(p, at),
                ),
                Err(f) => r is Err && r->Err_0@ == converted(f) && final(cache)@ == old(cache)@,
            },
    {
        match decode_answer(loaded) {
            Ok(p) => {
                cache.put(p.id.as_str(), p.clone(), CACHE_TTL_SECONDS, at);
                Ok(p)
            },
            Err(f) => Err(convert_failure(f)),
        }
    }

    /// The last step of reading a payment: the payment loaded from the
    /// store is cached under the id that was asked for and returned. Where
    /// the store holds no such payment, the error names the id. After a
    /// failure the cache holds nothing under the id.
    pub fn complete_get(
        &self,
        cache: &mut PaymentCache,
        id: &str,
        loaded: Result<Vec<JoinedRow>, StoreFailure>,
        at: Timestamp,
    ) -> (r: Result<Payment, OptimizedPaymentError>)
        requires
            old(cache).wf(),
        ensures
            final(cache).wf(),
            final(cache)@ == cache_after(
                old(cache)@,
                id@,
                loaded_payment(answer_rows(loaded)),
                at,
                old(cache)@.remove(id@),
            ),
            match loaded_payment(answer_rows(loaded)) {
                Ok(p) => r is Ok && r->Ok_0@ == p,
                Err(f) => r is Err && r->Err_0@ == converted_for(id@, f),
            },
    {
        match decode_answer(loaded) {
            Ok(p) => {
                cache.put(id, p.clone(), CACHE_TTL_SECONDS, at);
                Ok(p)
            },
            Err(f) => {
                cache.invalidate(id);
                Err(convert_failure_for(id, f))
            },
        }
    }

    /// The first step of listing payments: a filter with any violation is
    /// rejected with all of them and nothing is sent to the store; otherwise
    /// the result is the query that selects the matching payments, with the
    /// values to bind.
    pub fn begin_get_all(&self, filters: Option<TextMap<String>>) -> (r: Result<
        (String, Vec<String>),
        OptimizedPaymentError,
    >)
        requires
            filters is Some ==> filters->Some_0.wf(),
        ensures
            ({
                let found = match filters {
                    Some(f) => filter_violations(f.keys(), text_views(f.values()), f.keys().len()),
                    None => Seq::empty(),
                };
                let status = filter_value(filters, "status"@);
                let method = filter_value(filters, "method"@);
                let transaction_id = filter_value(filters, "transaction_id"@);
                &&& found.len() == 0 ==> r is Ok && r->Ok_0.0@ == filtered_query(
                    status,
                    method,
                    transaction_id,
                ) && text_views(r->Ok_0.1@) == filter_values(status, method, transaction_id)
                &&& found.len() > 0 ==> r is Err && r->Err_0@ == validation_error(found)
            }),
    {
        match &filters {
            Some(f) => {
                validate_filters(f)?;
            },
            None => {},
        }
        Ok(OptimizedPembayaranRepository::build_filtered_query(filters))
    }

    /// The second step of listing payments: with no matching id the list is
    /// empty and nothing more is asked; otherwise all the matching payments
    /// are loaded with one query.
    pub fn continue_get_all(&self, selected: Result<Vec<String>, StoreFailure>) -> (r: Result<
        ListStep,
        OptimizedPaymentError,
    >)
        ensures
            match selected {
                Ok(ids) => r is Ok && match r->Ok_0 {
                    ListStep::Empty => ids.len() == 0,
                    ListStep::Load(q) => ids.len() > 0 && q@ == batch_query(text_views(ids@)),
                },
                Err(f) => r is Err && r->Err_0@ == converted(f@),
            },
    {
        match selected {
            Ok(ids) => match OptimizedPembayaranRepository::batch_load_payments_with_installments(&ids) {
                Some(q) => Ok(ListStep::Load(q)),
                None => Ok(ListStep::Empty),
            },
            Err(f) => Err(convert_failure(f)),
        }
    }

    /// The last step of listing payments: the rows are folded into
    /// payments, each with its installments, in the order in which the
    /// payments first appear.
    pub fn complete_get_all(&self, loaded: Result<Vec<JoinedRow>, StoreFailure>) -> (r: Result<
        Vec<Payment>,
        OptimizedPaymentError,
    >)
        ensures
            match answer_rows(loaded) {
                Ok(rows) => if rows_decode(rows) {
                    r is Ok && payment_views(r->Ok_0@) == grouped(rows)
                } else {
                    r is Err && r->Err_0@ == converted(StoreFailureView::RowNotFound)
                },
                Err(f) => r is Err && r->Err_0@ == converted(f),
            },
    {
        match loaded {
            Ok(rows) => match OptimizedPembayaranRepository::parse_grouped_rows_to_payments(rows) {
                Ok(list) => Ok(list),
                Err(f) => Err(convert_failure(f)),
            },
            Err(f) => Err(convert_failure(f)),
        }
    }

    /// The first step of an update: a payment with any violation is
    /// rejected with all of them, before the store or the cache is asked
    /// anything.
    pub fn begin_update(&self, payment: &Payment) -> (r: Result<(), OptimizedPaymentError>)
        ensures
            valid(payment@) ==> r is Ok,
            !valid(payment@) ==> r is Err && r->Err_0@ == validation_error(violations(payment@)),
    {
        validate_payment(payment)
    }

    /// The second step of an update, once the stored payment is known: a
    /// payment with any violation is rejected; an update that would change
    /// nothing the store keeps is answered with the stored payment and
    /// writes nothing; any other gives the statement that rewrites the
    /// payment's row.
    pub fn decide_update(&self, existing: Payment, payment: &Payment) -> (r: Result<
        UpdateDecision,
        OptimizedPaymentError,
    >)
        ensures
            !valid(payment@) ==> r is Err && r->Err_0@ == validation_error(violations(payment@)),
            valid(payment@) ==> r is Ok && match r->Ok_0 {
                UpdateDecision::Unchanged(p) => logically_equal(existing@, payment@) && p@ == existing@,
                UpdateDecision::Write(s) => !logically_equal(existing@, payment@) && s@ == update_payment(
                    payment@,
                ),
            },
    {
        validate_payment(payment)?;
        if payments_are_equal(&existing, payment) {
            Ok(UpdateDecision::Unchanged(existing))
        } else {
            Ok(UpdateDecision::Write(OptimizedPembayaranRepository::update(payment)))
        }
    }

    /// The last step of an update: the payment read back from the store
    /// replaces whatever the cache held under the id and is returned. A
    /// failure of the store is returned as the service's error.
    pub fn complete_update(
        &self,
        cache: &mut PaymentCache,
        id: &str,
        loaded: Result<Vec<JoinedRow>, StoreFailure>,
        at: Timestamp,
    ) -> (r: Result<Payment, OptimizedPaymentError>)
        requires
            old(cache).wf(),
        ensures
            final(cache).wf(),
            final(cache)@ == cache_after(
                old(cache)@,
                id@,
                loaded_payment(answer_rows(loaded)),
                at,
                old(cache)@.remove(id@),
            ),
            match loaded_payment(answer_rows(loaded)) {
                Ok(p) => r is Ok && r->Ok_0@ == p,
                Err(f) => r is Err && r->Err_0@ == converted(f),
            },
    {
        match decode_answer(loaded) {
            Ok(p) => {
                cache.put(id, p.clone(), CACHE_TTL_SECONDS, at);
                Ok(p)
            },
            Err(f) => {
                cache.invalidate(id);
                Err(convert_failure(f))
            },
        }
    }

    /// The first step of a status change, with the unique part and the
    /// instant for the installment that may come with it: an additional
    /// amount that is not positive is rejected and nothing is sent to the
    /// store; otherwise the result is the statements to run in one
    /// transaction.
    pub fn begin_update_status_with(
        &self,
        payment_id: &str,
        new_status: PaymentStatus,
        additional_amount: Option<i64>,
        unique: &str,
        at: Timestamp,
    ) -> (r: Result<Vec<Statement>, OptimizedPaymentError>)
        ensures
            match additional_amount {
                Some(a) => if a <= 0 {
                    r is Err && r->Err_0@ == amount_rejected("additional_amount"@)
                } else {
                    r is Ok && statement_views(r->Ok_0@) == status_plan(
                        payment_id@,
                        new_status,
                        Some(new_installment_view(unique@, payment_id@, a as int, at)),
                    )
                },
                None => r is Ok && statement_views(r->Ok_0@) == status_plan(
                    payment_id@,
                    new_status,
                    None,
                ),
            },
    {
        match additional_amount {
            Some(a) => {
                if a <= 0 {
                    return Err(reject_amount("additional_amount"));
                }
                let installment = new_installment(unique, payment_id, a, at);
                Ok(
                    OptimizedPembayaranRepository::update_payment_status(
                        payment_id,
                        new_status,
                        Some(&installment),
                    ),
                )
            },
            None => Ok(OptimizedPembayaranRepository::update_payment_status(payment_id, new_status, None)),
        }
    }

    /// The last step of a status change: the payment read back from the
    /// store replaces whatever the cache held under its id and is returned.
    /// Where the store holds no such payment, the error names the id and
    /// the cache holds nothing under it.
    pub fn complete_update_status(
        &self,
        cache: &mut PaymentCache,
        payment_id: &str,
        loaded: Result<Vec<JoinedRow>, StoreFailure>,
        at: Timestamp,
    ) -> (r: Result<Payment, OptimizedPaymentError>)
        requires
            old(cache).wf(),
        ensures
            final(cache).wf(),
            match loaded_payment(answer_rows(loaded)) {
                Ok(p) => r is Ok && r->Ok_0@ == p && final(cache)@ == old(cache)@.insert(
                    p.id,
                    snapshot(p, at),
                ),
                Err(f) => r is Err && r->Err_0@ == converted_for(payment_id@, f) && final(cache)@
                    == old(cache)@.remove(payment_id@),
            },
    {
        match decode_answer(loaded) {
            Ok(p) => {
                cache.put(p.id.as_str(), p.clone(), CACHE_TTL_SECONDS, at);
                Ok(p)
            },
            Err(f) => {
                cache.invalidate(payment_id);
                Err(convert_failure_for(payment_id, f))
            },
        }
    }

    /// The statements that delete a payment that the store is known to
    /// hold, to be run in one transaction.
    pub fn begin_delete(&self, existing: &Payment) -> (r: Vec<Statement>)
        ensures
            statement_views(r@) == delete_plan(existing@.id),
    {
        OptimizedPembayaranRepository::delete(existing.id.as_str())
    }

    /// The last step of a write that returns nothing, a deletion or the
    /// insertion of an installment: after a write that succeeded the cache
    /// holds nothing under the id; a failure of the store is returned as
    /// the service's error and leaves the cache as it was.
    pub fn complete_write(&self, cache: &mut PaymentCache, id: &str, written: Result<(), StoreFailure>) -> (r:
        Result<(), OptimizedPaymentError>)
        requires
            old(cache).wf(),
        ensures
            final(cache).wf(),
            match written {
                Ok(_) => r is Ok && final(cache)@ == old(cache)@.remove(id@),
                Err(f) => r is Err && r->Err_0@ == converted(f@) && final(cache)@ == old(cache)@,
            },
    {
        match written {
            Ok(_) => {
                cache.invalidate(id);
                Ok(())
            },
            Err(f) => Err(convert_failure(f)),
        }
    }

    /// Decides whether an installment may be added to a payment, with the
    /// unique part and the instant for it: the amount must be positive and
    /// the payment must be paid in installments, else the request is
    /// rejected and nothing is sent to the store; otherwise the result is
    /// the statement that inserts the installment.
    pub fn plan_add_installment_with(
        &self,
        payment: &Payment,
        payment_id: &str,
        amount: i64,
        unique: &str,
        at: Timestamp,
    ) -> (r: Result<Statement, OptimizedPaymentError>)
        ensures
            amount <= 0 ==> r is Err && r->Err_0@ == amount_rejected("amount"@),
            amount > 0 && payment.status != PaymentStatus::Installment ==> r is Err && r->Err_0@
                == not_installment(),
            amount > 0 && payment.status == PaymentStatus::Installment ==> r is Ok && r->Ok_0@
                == insert_installment(new_installment_view(unique@, payment_id@, amount as int, at)),
    {
        if amount <= 0 {
            return Err(reject_amount("amount"));
        }
        if payment.status != PaymentStatus::Installment {
            return Err(
                OptimizedPaymentError::InvalidInput {
                    field: "payment_status".to_string(),
                    message: "Cannot add installment to a payment that is not in INSTALLMENT status".to_string(),
                },
            );
        }
        let installment = new_installment(unique, payment_id, amount, at);
        Ok(OptimizedPembayaranRepository::add_installment(&installment))
    }
}

} // verus!
