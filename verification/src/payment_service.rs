//! The plain payment service: parsing of methods and statuses, payment
//! ids, and its free-form errors.

use vstd::prelude::*;
use vstd::string::*;
use crate::error::{PaymentError, PaymentErrorView};
use crate::ident::new_payment_id;
use crate::model::{Payment, PaymentMethod, PaymentStatus};
use crate::text::{concat_text, to_uppercase, uppercase_text};

verus! {

/// The payment service without a cache.
pub struct PaymentService {}

/// The message for a payment that the store does not hold.
pub open spec fn not_found_message(id: Seq<char>) -> Seq<char> {
    "Payment with id "@ + id + " not found"@
}

impl PaymentService {
    /// A service. It holds no state.
    pub fn new() -> (r: PaymentService)
        ensures
            r == (PaymentService {  }),
    {
        PaymentService {  }
    }

    /// A new payment id: `PMT-` followed by a fresh unique part, 40
    /// characters in all.
    pub fn generate_payment_id(&self) -> (r: String)
        ensures
            r@.len() == 40,
            r@.subrange(0, 4) == "PMT-"@,
    {
        new_payment_id()
    }

    /// Reads a payment method whatever the case of its letters.
    pub fn parse_payment_method(&self, method_str: &str) -> (r: Result<PaymentMethod, PaymentError>)
        ensures
            match PaymentMethod::of_code(uppercase_text(method_str@)) {
                Some(m) => r == Ok::<PaymentMethod, PaymentError>(m),
                None => r is Err && r->Err_0@ == PaymentErrorView::InvalidInput(
                    "Invalid payment method: "@ + method_str@,
                ),
            },
    {
        let upper = to_uppercase(method_str);
        match PaymentMethod::from_code(upper.as_str()) {
            Some(m) => Ok(m),
            None => Err(PaymentError::InvalidInput(concat_text("Invalid payment method: ", method_str))),
        }
    }

    /// Reads a payment status whatever the case of its letters.
    pub fn parse_payment_status(&self, status_str: &str) -> (r: Result<PaymentStatus, PaymentError>)
        ensures
            match PaymentStatus::of_code(uppercase_text(status_str@)) {
                Some(s) => r == Ok::<PaymentStatus, PaymentError>(s),
                None => r is Err && r->Err_0@ == PaymentErrorView::InvalidInput(
                    "Invalid payment status: "@ + status_str@,
                ),
            },
    {
        match PaymentStatus::from_string(status_str) {
            Some(s) => Ok(s),
            None => Err(PaymentError::InvalidInput(concat_text("Invalid payment status: ", status_str))),
        }
    }

    /// The error for a payment that the store does not hold.
    pub fn not_found(&self, id: &str) -> (r: PaymentError)
        ensures
            r@ == PaymentErrorView::NotFound(not_found_message(id@)),
    {
        let mut m = concat_text("Payment with id ", id);
        m.append(" not found");
        PaymentError::NotFound(m)
    }

    /// Only a payment that is paid in installments may receive one.
    pub fn check_installment_status(&self, payment: &Payment) -> (r: Result<(), PaymentError>)
        ensures
            payment.status == PaymentStatus::Installment ==> r is Ok,
            payment.status != PaymentStatus::Installment ==> r is Err && r->Err_0@
                == PaymentErrorView::InvalidInput(
                "Cannot add installment to a payment that is not in INSTALLMENT status"@,
            ),
    {
        if payment.status != PaymentStatus::Installment {
            Err(
                PaymentError::InvalidInput(
                    "Cannot add installment to a payment that is not in INSTALLMENT status".to_string(),
                ),
            )
        } else {
            Ok(())
        }
    }
}

impl Default for PaymentService {
    fn default() -> (r: PaymentService)
        ensures
            r == (PaymentService {  }),
    {
        PaymentService::new()
    }
}

} // verus!
