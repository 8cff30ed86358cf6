//! The rules that a payment and a filter must meet before the store is
//! asked anything.

use vstd::prelude::*;
use vstd::string::*;
use crate::error::{OptimizedPaymentError, OptimizedPaymentErrorView};
use crate::model::{Payment, PaymentMethod, PaymentStatus, PaymentView};
use crate::text::{
    blank, concat_text, decimal, decimal_text, is_blank, text_views, to_uppercase, uppercase_text,
};
use crate::text_map::TextMap;

verus! {

/// The message for an installment whose amount is not positive; installments
/// are counted from one.
pub open spec fn amount_message(n: nat) -> Seq<char> {
    "Installment "@ + decimal_text(n) + " amount must be greater than 0"@
}

/// The message for an installment that names another payment; installments
/// are counted from one.
pub open spec fn owner_message(n: nat) -> Seq<char> {
    "Installment "@ + decimal_text(n) + " payment_id does not match payment ID"@
}

/// A list with the message where the condition holds, and empty otherwise.
pub open spec fn when(condition: bool, message: Seq<char>) -> Seq<Seq<char>> {
    if condition {
        seq![message]
    } else {
        Seq::empty()
    }
}

/// The violations of a payment's own fields, in the order in which they are
/// checked.
pub open spec fn field_violations(p: PaymentView) -> Seq<Seq<char>> {
    when(is_blank(p.id), "Payment ID cannot be empty"@) + when(
        is_blank(p.transaction_id),
        "Transaction ID cannot be empty"@,
    ) + when(p.amount <= 0, "Payment amount must be greater than 0"@) + when(
        p.status == PaymentStatus::Installment && p.installments.len() == 0,
        "Payment with INSTALLMENT status must have at least one installment"@,
    )
}

/// The violations of the first `n` installments of a payment: for each, in
/// order, an amount that is not positive, then an owner that is not the
/// payment.
pub open spec fn installment_violations(p: PaymentView, n: nat) -> Seq<Seq<char>>
    decreases n,
{
    if n == 0 {
        Seq::empty()
    } else {
        let i = p.installments[n - 1];
        installment_violations(p, (n - 1) as nat) + when(i.amount <= 0, amount_message(n)) + when(
            i.payment_id != p.id,
            owner_message(n),
        )
    }
}

/// Every violation of a payment, not only the first: those of its own
/// fields, then those of its installments.
pub open spec fn violations(p: PaymentView) -> Seq<Seq<char>> {
    field_violations(p) + installment_violations(p, p.installments.len())
}

/// Whether a payment may be written: it has no violation.
pub open spec fn valid(p: PaymentView) -> bool {
    violations(p).len() == 0
}

/// The violation of one filter entry, if it has one: a status or a method
/// that is none of the known ones, a blank transaction id, or a key that is
/// no filter at all.
pub open spec fn filter_violation(key: Seq<char>, value: Seq<char>) -> Option<Seq<char>> {
    if key == "status"@ {
        if PaymentStatus::of_code(uppercase_text(value)) is None {
            Some("Invalid status filter: "@ + value)
        } else {
            None
        }
    } else if key == "method"@ {
        if PaymentMethod::of_code(uppercase_text(value)) is None {
            Some("Invalid method filter: "@ + value)
        } else {
            None
        }
    } else if key == "transaction_id"@ {
        if is_blank(value) {
            Some("Transaction ID filter cannot be empty"@)
        } else {
            None
        }
    } else {
        Some("Unknown filter key: "@ + key)
    }
}

/// The violations of the first `n` entries of a filter, in order.
pub open spec fn filter_violations(keys: Seq<Seq<char>>, values: Seq<Seq<char>>, n: nat) -> Seq<Seq<char>>
    decreases n,
{
    if n == 0 {
        Seq::empty()
    } else {
        let before = filter_violations(keys, values, (n - 1) as nat);
        match filter_violation(keys[n - 1], values[n - 1]) {
            Some(m) => before.push(m),
            None => before,
        }
    }
}

/// The validation error that carries a list of violations.
pub open spec fn validation_error(errors: Seq<Seq<char>>) -> OptimizedPaymentErrorView {
    OptimizedPaymentErrorView::ValidationError { errors }
}

/// Wraps the violations found, if any, into one validation error.
fn verdict(errors: Vec<String>) -> (r: Result<(), OptimizedPaymentError>)
    ensures
        errors.len() == 0 ==> r is Ok,
        errors.len() > 0 ==> r is Err && r->Err_0@ == validation_error(text_views(errors@)),
{
    if errors.len() > 0 {
        let ghost views = text_views(errors@);
        let e = OptimizedPaymentError::ValidationError { errors };
        assert(e@->ValidationError_errors =~= views);
        Err(e)
    } else {
        Ok(())
    }
}

/// Adds a message to the list where the condition holds.
fn note(errors: &mut Vec<String>, condition: bool, message: String)
    ensures
        text_views(final(errors)@) == text_views(old(errors)@) + when(condition, message@),
{
    let ghost before = text_views(errors@);
    if condition {
        errors.push(message);
        assert(text_views(errors@) =~= before + seq![message@]);
    } else {
        assert(text_views(errors@) =~= before + Seq::<Seq<char>>::empty());
    }
}

/// The message about the installment at a position, counted from one.
fn numbered(n: usize, rest: &str) -> (r: String)
    ensures
        r@ == "Installment "@ + decimal_text(n as nat) + rest@,
{
    let mut m = concat_text("Installment ", decimal(n).as_str());
    m.append(rest);
    m
}

/// The violations of the installments, in order, follow those found so far.
proof fn lemma_installment_step(p: PaymentView, found: Seq<Seq<char>>, n: nat)
    requires
        0 < n <= p.installments.len(),
    ensures
        found + installment_violations(p, (n - 1) as nat) + when(
            p.installments[n - 1].amount <= 0,
            amount_message(n),
        ) + when(p.installments[n - 1].payment_id != p.id, owner_message(n)) == found
            + installment_violations(p, n),
{
    assert(found + installment_violations(p, (n - 1) as nat) + when(
        p.installments[n - 1].amount <= 0,
        amount_message(n),
    ) + when(p.installments[n - 1].payment_id != p.id, owner_message(n)) =~= found
        + installment_violations(p, n));
}

/// Checks a payment against every rule and reports all the violations
/// together: a blank id, a blank transaction id, an amount that is not
/// positive, installment status without an installment, and for each
/// installment an amount that is not positive or an owner that is not the
/// payment.
pub fn validate_payment(payment: &Payment) -> (r: Result<(), OptimizedPaymentError>)
    ensures
        valid(payment@) ==> r is Ok,
        !valid(payment@) ==> r is Err && r->Err_0@ == validation_error(violations(payment@)),
{
    let ghost p = payment@;
    let mut errors: Vec<String> = Vec::new();
    assert(text_views(errors@) =~= Seq::<Seq<char>>::empty());
    note(&mut errors, blank(payment.id.as_str()), "Payment ID cannot be empty".to_string());
    note(
        &mut errors,
        blank(payment.transaction_id.as_str()),
        "Transaction ID cannot be empty".to_string(),
    );
    note(&mut errors, payment.amount <= 0, "Payment amount must be greater than 0".to_string());
    note(
        &mut errors,
        payment.status == PaymentStatus::Installment && payment.installments.len() == 0,
        "Payment with INSTALLMENT status must have at least one installment".to_string(),
    );
    assert(text_views(errors@) =~= field_violations(p));
    let mut i: usize = 0;
    assert(text_views(errors@) =~= field_violations(p) + installment_violations(p, 0));
    while i < payment.installments.len()
        invariant
            p == payment@,
            i <= payment.installments.len(),
            text_views(errors@) == field_violations(p) + installment_violations(p, i as nat),
        decreases payment.installments.len() - i,
    {
        let installment = &payment.installments[i];
        assert(p.installments[i as int] == installment@);
        note(&mut errors, installment.amount <= 0, numbered(i + 1, " amount must be greater than 0"));
        note(
            &mut errors,
            !installment.payment_id.as_str().eq(payment.id.as_str()),
            numbered(i + 1, " payment_id does not match payment ID"),
        );
        proof {
            lemma_installment_step(p, field_violations(p), (i + 1) as nat);
        }
        i += 1;
    }
    verdict(errors)
}

/// Checks the entries of a filter, in their order, and reports all the
/// violations together. Only the keys `status`, `method` and
/// `transaction_id` are filters; any other key is a violation.
pub fn validate_filters(filters: &TextMap<String>) -> (r: Result<(), OptimizedPaymentError>)
    requires
        filters.wf(),
    ensures
        ({
            let found = filter_violations(
                filters.keys(),
                text_views(filters.values()),
                filters.keys().len(),
            );
            &&& found.len() == 0 ==> r is Ok
            &&& found.len() > 0 ==> r is Err && r->Err_0@ == validation_error(found)
        }),
{
    let ghost keys = filters.keys();
    let ghost values = text_views(filters.values());
    let mut errors: Vec<String> = Vec::new();
    let n = filters.len();
    let mut i: usize = 0;
    assert(text_views(errors@) =~= filter_violations(keys, values, 0));
    while i < n
        invariant
            filters.wf(),
            keys == filters.keys(),
            values == text_views(filters.values()),
            n == keys.len(),
            i <= n,
            text_views(errors@) == filter_violations(keys, values, i as nat),
        decreases n - i,
    {
        let key = filters.key_at(i);
        let value = filters.value_at(i);
        proof {
            filters.lemma_shape();
        }
        assert(values[i as int] == value@);
        let ghost before = text_views(errors@);
        if key.as_str().eq("status") {
            if PaymentStatus::from_string(value.as_str()).is_none() {
                errors.push(concat_text("Invalid status filter: ", value.as_str()));
                assert(text_views(errors@) =~= before.push("Invalid status filter: "@ + value@));
            }
        } else if key.as_str().eq("method") {
            let upper = to_uppercase(value.as_str());
            if PaymentMethod::from_code(upper.as_str()).is_none() {
                errors.push(concat_text("Invalid method filter: ", value.as_str()));
                assert(text_views(errors@) =~= before.push("Invalid method filter: "@ + value@));
            }
        } else if key.as_str().eq("transaction_id") {
            if blank(value.as_str()) {
                errors.push("Transaction ID filter cannot be empty".to_string());
                assert(text_views(errors@) =~= before.push("Transaction ID filter cannot be empty"@));
            }
        } else {
            errors.push(concat_text("Unknown filter key: ", key.as_str()));
            assert(text_views(errors@) =~= before.push("Unknown filter key: "@ + key@));
        }
        i += 1;
    }
    verdict(errors)
}

/// Whether two payments are the same for the purpose of an update: same id,
/// transaction id, amount, method, status and number of installments.
pub open spec fn logically_equal(a: PaymentView, b: PaymentView) -> bool {
    &&& a.id == b.id
    &&& a.transaction_id == b.transaction_id
    &&& a.amount == b.amount
    &&& a.method == b.method
    &&& a.status == b.status
    &&& a.installments.len() == b.installments.len()
}

/// Tests whether an update from one payment to the other would change
/// anything that the store keeps.
pub fn payments_are_equal(a: &Payment, b: &Payment) -> (r: bool)
    ensures
        r == logically_equal(a@, b@),
{
    a.id.as_str().eq(b.id.as_str()) && a.transaction_id.as_str().eq(b.transaction_id.as_str())
        && a.amount == b.amount && a.method == b.method && a.status == b.status
        && a.installments.len() == b.installments.len()
}

} // verus!
