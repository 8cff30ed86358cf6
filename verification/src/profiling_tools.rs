//! Sample payments of a fixed shape, for trying the store and the services
//! on lists of any size.

use vstd::prelude::*;
use vstd::string::*;
use crate::ident::fresh_uuid;
use crate::model::{Installment, InstallmentView, Payment, PaymentMethod, PaymentStatus, PaymentView, Timestamp};
use crate::text::{concat_text, decimal, decimal_text};
use crate::time::now;

verus! {

/// The largest number of sample payments whose amounts still fit.
pub const MAX_SAMPLES: usize = 1_000_000_000;

/// The id of the sample payment at a position.
pub open spec fn sample_id(i: nat) -> Seq<char> {
    "PMT-TEST-"@ + decimal_text(i)
}

/// The method of the sample payment at a position: the four methods in
/// turn.
pub open spec fn sample_method(i: nat) -> PaymentMethod {
    if i % 4 == 0 {
        PaymentMethod::Cash
    } else if i % 4 == 1 {
        PaymentMethod::CreditCard
    } else if i % 4 == 2 {
        PaymentMethod::BankTransfer
    } else {
        PaymentMethod::EWallet
    }
}

/// One of the two installments of a sample payment.
pub open spec fn sample_installment(
    i: nat,
    unique: Seq<char>,
    which: Seq<char>,
    amount: int,
    at: Timestamp,
) -> InstallmentView {
    InstallmentView { id: "INST-"@ + unique + which, payment_id: sample_id(i), amount, payment_date: at }
}

/// The sample payment at a position. Every third payment, starting with
/// the first, is paid in two installments of 250 and 350; the others are
/// paid. The amount is 1000 and grows by 100 with each position. Every
/// second payment has a due date.
pub open spec fn sample_payment(i: nat, first: Seq<char>, second: Seq<char>, at: Timestamp) -> PaymentView {
    PaymentView {
        id: sample_id(i),
        transaction_id: "TXN-TEST-"@ + decimal_text(i),
        amount: 100_000 + (i as int) * 10_000,
        method: sample_method(i),
        status: if i % 3 == 0 {
            PaymentStatus::Installment
        } else {
            PaymentStatus::Paid
        },
        payment_date: at,
        installments: if i % 3 == 0 {
            seq![
                sample_installment(i, first, "-1"@, 25_000, at),
                sample_installment(i, second, "-2"@, 35_000, at),
            ]
        } else {
            Seq::empty()
        },
        due_date: if i % 2 == 0 {
            Some(at)
        } else {
            None
        },
    }
}

/// Whether a payment is the sample payment at a position, with some unique
/// parts of 36 characters in its installment ids and some instant for its
/// dates.
pub open spec fn is_sample(p: PaymentView, i: nat) -> bool {
    exists|first: Seq<char>, second: Seq<char>, at: Timestamp|
        first.len() == 36 && second.len() == 36 && p == #[trigger] sample_payment(i, first, second, at)
}

/// Builds one installment of a sample payment.
fn build_installment(i: usize, unique: &str, which: &str, amount: i64, at: Timestamp) -> (r: Installment)
    ensures
        r@ == sample_installment(i as nat, unique@, which@, amount as int, at),
{
    let mut id = concat_text("INST-", unique);
    id.append(which);
    Installment { id, payment_id: concat_text("PMT-TEST-", decimal(i).as_str()), amount, payment_date: at }
}

/// Builds the sample payment at a position from the unique parts of its
/// installment ids and the instant of its dates.
pub fn build_sample(i: usize, first: &str, second: &str, at: Timestamp) -> (r: Payment)
    requires
        i <= MAX_SAMPLES,
    ensures
        r@ == sample_payment(i as nat, first@, second@, at),
{
    let installments = if i % 3 == 0 {
        vec![build_installment(i, first, "-1", 25_000, at), build_installment(i, second, "-2", 35_000, at)]
    } else {
        Vec::new()
    };
    let method = match i % 4 {
        0 => PaymentMethod::Cash,
        1 => PaymentMethod::CreditCard,
        2 => PaymentMethod::BankTransfer,
        _ => PaymentMethod::EWallet,
    };
    let amount: i64 = 100_000 + (i as i64) * 10_000;
    let r = Payment {
        id: concat_text("PMT-TEST-", decimal(i).as_str()),
        transaction_id: concat_text("TXN-TEST-", decimal(i).as_str()),
        amount,
        method,
        status: if i % 3 == 0 {
            PaymentStatus::Installment
        } else {
            PaymentStatus::Paid
        },
        payment_date: at,
        installments,
        due_date: if i % 2 == 0 {
            Some(at)
        } else {
            None
        },
    };
    assert(r@.installments =~= sample_payment(i as nat, first@, second@, at).installments);
    r
}

/// Makes sample payments.
pub struct PaymentTestDataGenerator;

impl PaymentTestDataGenerator {
    /// The first `count` sample payments. Installment ids get fresh unique
    /// parts and all dates the current instant. The count is limited to
    /// what keeps every amount within range.
    pub fn generate_test_payments(count: usize) -> (r: Vec<Payment>)
        requires
            count <= MAX_SAMPLES,
        ensures
            r.len() == count,
            forall|i: int|
                0 <= i < r.len() ==> is_sample((#[trigger] r[i])@, i as nat),
    {
        let n = count;
        let mut out: Vec<Payment> = Vec::new();
        let mut i: usize = 0;
        while i < n
            invariant
                i <= n <= MAX_SAMPLES,
                out.len() == i,
                forall|k: int|
                    0 <= k < i ==> is_sample((#[trigger] out[k])@, k as nat),
            decreases n - i,
        {
            let first = fresh_uuid();
            let second = fresh_uuid();
            let at = now();
            let p = build_sample(i, first.as_str(), second.as_str(), at);
            out.push(p);
            i += 1;
        }
        out
    }

    /// A large list of sample payments.
    pub fn generate_large_dataset(size: usize) -> (r: Vec<Payment>)
        requires
            size <= MAX_SAMPLES,
        ensures
            r.len() == size,
            forall|i: int|
                0 <= i < r.len() ==> is_sample((#[trigger] r[i])@, i as nat),
    {
        Self::generate_test_payments(size)
    }
}

} // verus!
