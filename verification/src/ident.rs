//! Identifiers for payments and installments.

use vstd::prelude::*;
use vstd::string::*;
use crate::text::concat_text;

verus! {

/// Calls `uuid::Uuid::new_v4` and prints the identifier in its hyphenated
/// form. Chance decides the result; the contract claims only the length of
/// that form.
#[verifier::external_body]
pub(crate) fn fresh_uuid() -> (r: String)
    ensures
        r@.len() == 36,
{
    uuid::Uuid::new_v4().to_string()
}

/// The payment id made from a unique part.
pub fn payment_id_from(unique: &str) -> (r: String)
    ensures
        r@ == "PMT-"@ + unique@,
{
    concat_text("PMT-", unique)
}

/// The installment id made from a unique part.
pub fn installment_id_from(unique: &str) -> (r: String)
    ensures
        r@ == "INST-"@ + unique@,
{
    concat_text("INST-", unique)
}

/// A new payment id: `PMT-` followed by a fresh unique part of 36
/// characters.
pub fn new_payment_id() -> (r: String)
    ensures
        r@.len() == 40,
        r@.subrange(0, 4) == "PMT-"@,
{
    let unique = fresh_uuid();
    let r = payment_id_from(unique.as_str());
    proof {
        reveal_strlit("PMT-");
        assert(r@.subrange(0, 4) =~= "PMT-"@);
    }
    r
}

/// A new installment id: `INST-` followed by a fresh unique part of 36
/// characters.
pub fn new_installment_id() -> (r: String)
    ensures
        r@.len() == 41,
        r@.subrange(0, 5) == "INST-"@,
{
    let unique = fresh_uuid();
    let r = installment_id_from(unique.as_str());
    proof {
        reveal_strlit("INST-");
        assert(r@.subrange(0, 5) =~= "INST-"@);
    }
    r
}

} // verus!
