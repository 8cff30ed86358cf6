//! Decoding the rows of the joined query into payments.

use vstd::prelude::*;
use crate::error::StoreFailure;
use crate::grouping::{
    all_installments, grouped, known, lemma_no_rows, lemma_rows_decode_prefix,
    lemma_rows_decode_push, lemma_slot, lemma_step, rows_decode, single, single_decodes,
    with_installment,
};
use crate::model::{Installment, Payment, PaymentView};
use crate::repository::OptimizedPembayaranRepository;
use crate::rows::{
    base_decodes, base_of, installment_decodes, parse_row_to_payment_base, row_views,
    try_parse_installment_from_joined_row, JoinedRow, JoinedRowView,
};

verus! {

/// The plain values of a list of payments, in order.
pub open spec fn payment_views(list: Seq<Payment>) -> Seq<PaymentView> {
    Seq::new(list.len(), |i: int| list[i]@)
}

/// Finds the payment with an id in a list.
fn position_of(list: &Vec<Payment>, id: &str) -> (r: Option<usize>)
    ensures
        match r {
            Some(k) => k < list.len() && list[k as int].id@ == id@,
            None => forall|j: int| 0 <= j < list.len() ==> list[j].id@ != id@,
        },
{
    let mut k: usize = 0;
    while k < list.len()
        invariant
            k <= list.len(),
            forall|j: int| 0 <= j < k ==> list[j].id@ != id@,
        decreases list.len() - k,
    {
        if list[k].id.as_str().eq(id) {
            return Some(k);
        }
        k += 1;
    }
    None
}

/// Finds the payment that a row belongs to, adding it from the row's
/// payment side where the row is the first of its payment.
fn slot_for(payments: &mut Vec<Payment>, row: &JoinedRow) -> (r: Result<usize, StoreFailure>)
    ensures
        r is Ok ==> r->Ok_0 < final(payments).len(),
        known(payment_views(old(payments)@), row@.id) ==> r is Ok && r->Ok_0 < old(payments).len()
            && payment_views(final(payments)@) == payment_views(old(payments)@) && payment_views(
            old(payments)@,
        )[r->Ok_0 as int].id == row@.id,
        !known(payment_views(old(payments)@), row@.id) && base_decodes(row@) ==> r is Ok && r->Ok_0
            == old(payments).len() && payment_views(final(payments)@) == payment_views(
            old(payments)@,
        ).push(base_of(row@)),
        !known(payment_views(old(payments)@), row@.id) && !base_decodes(row@) ==> r == Err::<
            usize,
            StoreFailure,
        >(StoreFailure::RowNotFound),
{
    let ghost before = payment_views(payments@);
    match position_of(payments, row.id.as_str()) {
        Some(k) => {
            assert(before[k as int] == payments[k as int]@);
            Ok(k)
        },
        None => {
            assert(!known(before, row@.id)) by {
                if known(before, row@.id) {
                    let j = choose|j: int| 0 <= j < before.len() && (#[trigger] before[j]).id == row@.id;
                    assert(before[j] == payments[j]@);
                }
            }
            let base = parse_row_to_payment_base(row)?;
            payments.push(base);
            assert(payment_views(payments@) =~= before.push(base_of(row@)));
            Ok(payments.len() - 1)
        },
    }
}

/// Appends an installment, if there is one, to the payment at a position.
fn attach(payments: &mut Vec<Payment>, k: usize, installment: Option<Installment>)
    requires
        k < old(payments).len(),
    ensures
        payment_views(final(payments)@) == payment_views(old(payments)@).update(
            k as int,
            with_installment(
                payment_views(old(payments)@)[k as int],
                match installment {
                    Some(i) => Some(i@),
                    None => None,
                },
            ),
        ),
{
    let ghost before = payment_views(payments@);
    match installment {
        Some(i) => {
            payments[k].installments.push(i);
            assert(payments[k as int]@.installments =~= before[k as int].installments.push(i@));
            assert(payment_views(payments@) =~= before.update(
                k as int,
                with_installment(before[k as int], Some(i@)),
            ));
        },
        None => {
            assert(payment_views(payments@) =~= before.update(k as int, before[k as int]));
        },
    }
}

impl OptimizedPembayaranRepository {
    /// Decodes the rows of a query for one payment: the payment side of the
    /// first row, and the installments of all rows in row order. No row at
    /// all, or a column that does not decode, counts as an absent row.
    pub fn parse_joined_rows_to_payment(rows: Vec<JoinedRow>) -> (r: Result<Payment, StoreFailure>)
        ensures
            single_decodes(row_views(rows@)) ==> r is Ok && r->Ok_0@ == single(row_views(rows@)),
            !single_decodes(row_views(rows@)) ==> r == Err::<Payment, StoreFailure>(
                StoreFailure::RowNotFound,
            ),
    {
        let ghost views = row_views(rows@);
        if rows.len() == 0 {
            return Err(StoreFailure::RowNotFound);
        }
        assert(views[0] == rows[0]@);
        let mut payment = parse_row_to_payment_base(&rows[0])?;
        let ghost base = payment@;
        let mut i: usize = 0;
        while i < rows.len()
            invariant
                i <= rows.len(),
                views == row_views(rows@),
                forall|j: int| 0 <= j < i ==> installment_decodes(#[trigger] views[j]),
                payment@ == (PaymentView { installments: all_installments(views.take(i as int)), ..base }),
            decreases rows.len() - i,
        {
            assert(views[i as int] == rows[i as int]@);
            assert(views.take(i + 1).drop_last() =~= views.take(i as int));
            match try_parse_installment_from_joined_row(&rows[i]) {
                Err(e) => {
                    return Err(e);
                },
                Ok(Some(installment)) => {
                    payment.installments.push(installment);
                    assert(payment@.installments =~= all_installments(views.take(i + 1)));
                },
                Ok(None) => {},
            }
            i += 1;
        }
        assert(views.take(rows.len() as int) =~= views);
        Ok(payment)
    }

    /// Decodes the rows of a query for many payments. Each payment appears
    /// once, in the order in which its id first appears among the rows, with
    /// the payment side of its first row and the installments of all its
    /// rows in row order. A column that does not decode counts as an absent
    /// row.
    pub fn parse_grouped_rows_to_payments(rows: Vec<JoinedRow>) -> (r: Result<Vec<Payment>, StoreFailure>)
        ensures
            rows_decode(row_views(rows@)) ==> r is Ok && payment_views(r->Ok_0@) == grouped(
                row_views(rows@),
            ),
            !rows_decode(row_views(rows@)) ==> r == Err::<Vec<Payment>, StoreFailure>(
                StoreFailure::RowNotFound,
            ),
    {
        let ghost views = row_views(rows@);
        let mut payments: Vec<Payment> = Vec::new();
        let mut i: usize = 0;
        proof {
            lemma_no_rows();
            assert(views.take(0) =~= Seq::<JoinedRowView>::empty());
            assert(payment_views(payments@) =~= Seq::<PaymentView>::empty());
        }
        while i < rows.len()
            invariant
                i <= rows.len(),
                views == row_views(rows@),
                rows_decode(views.take(i as int)),
                payment_views(payments@) == grouped(views.take(i as int)),
            decreases rows.len() - i,
        {
            let ghost head = views.take(i as int);
            let ghost row = views[i as int];
            assert(row == rows[i as int]@);
            assert(views.take(i + 1) =~= head.push(row));
            let ghost before = payment_views(payments@);
            let k = match slot_for(&mut payments, &rows[i]) {
                Ok(k) => k,
                Err(e) => {
                    proof {
                        lemma_slot(head, row, before);
                        lemma_rows_decode_push(head, row);
                        lemma_rows_decode_prefix(views, i + 1);
                    }
                    return Err(e);
                },
            };
            let ghost middle = payment_views(payments@);
            match try_parse_installment_from_joined_row(&rows[i]) {
                Err(e) => {
                    proof {
                        lemma_rows_decode_push(head, row);
                        lemma_rows_decode_prefix(views, i + 1);
                    }
                    return Err(e);
                },
                Ok(found) => {
                    attach(&mut payments, k, found);
                },
            }
            proof {
                lemma_rows_decode_push(head, row);
                lemma_slot(head, row, before);
                lemma_step(head, row, before, middle, payment_views(payments@), k as int);
            }
            i += 1;
        }
        assert(views.take(rows.len() as int) =~= views);
        Ok(payments)
    }
}

} // verus!
