//! Folding the rows of a joined query into payments that carry their
//! installments: what the result is, and the facts about it that the
//! repository's proofs rest on.

use vstd::prelude::*;
use crate::model::{InstallmentView, PaymentView};
use crate::rows::{base_decodes, base_of, installment_decodes, installment_of, JoinedRowView};

verus! {

/// Whether some row belongs to the payment with this id.
pub open spec fn seen(rows: Seq<JoinedRowView>, id: Seq<char>) -> bool {
    exists|i: int| 0 <= i < rows.len() && (#[trigger] rows[i]).id == id
}

/// Whether row `i` is the first row of its payment.
pub open spec fn is_first_row(rows: Seq<JoinedRowView>, i: int) -> bool {
    forall|j: int| 0 <= j < i ==> (#[trigger] rows[j]).id != rows[i].id
}

/// The index of the first row of a payment, or -1 where it has none.
pub open spec fn first_index(rows: Seq<JoinedRowView>, id: Seq<char>) -> int
    decreases rows.len(),
{
    if rows.len() == 0 {
        -1
    } else {
        let before = first_index(rows.drop_last(), id);
        if before >= 0 {
            before
        } else if rows.last().id == id {
            rows.len() - 1
        } else {
            -1
        }
    }
}

/// The payment ids of the rows, each once, in the order in which they first
/// appear.
pub open spec fn first_seen_ids(rows: Seq<JoinedRowView>) -> Seq<Seq<char>>
    decreases rows.len(),
{
    if rows.len() == 0 {
        Seq::empty()
    } else {
        let before = first_seen_ids(rows.drop_last());
        if seen(rows.drop_last(), rows.last().id) {
            before
        } else {
            before.push(rows.last().id)
        }
    }
}

/// The installments that the rows of one payment carry, in row order.
pub open spec fn installments_for(rows: Seq<JoinedRowView>, id: Seq<char>) -> Seq<InstallmentView>
    decreases rows.len(),
{
    if rows.len() == 0 {
        Seq::empty()
    } else {
        let before = installments_for(rows.drop_last(), id);
        if rows.last().id == id && installment_of(rows.last()) is Some {
            before.push(installment_of(rows.last()).unwrap())
        } else {
            before
        }
    }
}

/// The installments that all the rows carry, in row order.
pub open spec fn all_installments(rows: Seq<JoinedRowView>) -> Seq<InstallmentView>
    decreases rows.len(),
{
    if rows.len() == 0 {
        Seq::empty()
    } else {
        let before = all_installments(rows.drop_last());
        if installment_of(rows.last()) is Some {
            before.push(installment_of(rows.last()).unwrap())
        } else {
            before
        }
    }
}

/// A payment with the installment of one more row appended, if the row
/// carries one.
pub open spec fn with_installment(p: PaymentView, i: Option<InstallmentView>) -> PaymentView {
    match i {
        Some(i) => PaymentView { installments: p.installments.push(i), ..p },
        None => p,
    }
}

/// The payment that the rows describe under an id: the payment side of its
/// first row, with the installments of all its rows.
pub open spec fn payment_for(rows: Seq<JoinedRowView>, id: Seq<char>) -> PaymentView {
    PaymentView { installments: installments_for(rows, id), ..base_of(rows[first_index(rows, id)]) }
}

/// Whether every row decodes as far as it is read: the installment side of
/// each row, and the payment side of the first row of each payment.
#[verifier::opaque]
pub open spec fn rows_decode(rows: Seq<JoinedRowView>) -> bool {
    forall|i: int|
        0 <= i < rows.len() ==> installment_decodes(#[trigger] rows[i]) && (is_first_row(rows, i)
            ==> base_decodes(rows[i]))
}

/// The payments that the rows describe, in the order in which their ids
/// first appear.
#[verifier::opaque]
pub open spec fn grouped(rows: Seq<JoinedRowView>) -> Seq<PaymentView> {
    Seq::new(first_seen_ids(rows).len(), |k: int| payment_for(rows, first_seen_ids(rows)[k]))
}

/// Whether the rows decode as the rows of a single payment: there is a row,
/// its payment side decodes, and so does every installment side.
pub open spec fn single_decodes(rows: Seq<JoinedRowView>) -> bool {
    &&& rows.len() > 0
    &&& base_decodes(rows[0])
    &&& forall|i: int| 0 <= i < rows.len() ==> installment_decodes(#[trigger] rows[i])
}

/// The payment that the rows of a single payment describe.
pub open spec fn single(rows: Seq<JoinedRowView>) -> PaymentView {
    PaymentView { installments: all_installments(rows), ..base_of(rows[0]) }
}

/// The rows that belong to one payment, in order.
pub open spec fn rows_of(rows: Seq<JoinedRowView>, id: Seq<char>) -> Seq<JoinedRowView>
    decreases rows.len(),
{
    if rows.len() == 0 {
        Seq::empty()
    } else {
        let before = rows_of(rows.drop_last(), id);
        if rows.last().id == id {
            before.push(rows.last())
        } else {
            before
        }
    }
}

/// Where a payment has a row, `first_index` names its first row.
pub proof fn lemma_first_index(rows: Seq<JoinedRowView>, id: Seq<char>)
    ensures
        seen(rows, id) <==> first_index(rows, id) >= 0,
        first_index(rows, id) >= -1,
        first_index(rows, id) < rows.len(),
        first_index(rows, id) >= 0 ==> rows[first_index(rows, id)].id == id && is_first_row(
            rows,
            first_index(rows, id),
        ),
    decreases rows.len(),
{
    if rows.len() > 0 {
        let head = rows.drop_last();
        lemma_first_index(head, id);
        let before = first_index(head, id);
        if before >= 0 {
            assert(rows[before] == head[before]);
            assert(is_first_row(rows, before)) by {
                assert forall|j: int| 0 <= j < before implies (#[trigger] rows[j]).id
                    != rows[before].id by {
                    assert(rows[j] == head[j]);
                }
            }
        } else if rows.last().id == id {
            assert(rows[rows.len() - 1].id == id);
            assert(is_first_row(rows, rows.len() - 1)) by {
                assert forall|j: int| 0 <= j < rows.len() - 1 implies (#[trigger] rows[j]).id
                    != rows[rows.len() - 1].id by {
                    assert(rows[j] == head[j]);
                }
            }
        } else {
            if seen(rows, id) {
                let i = choose|i: int| 0 <= i < rows.len() && (#[trigger] rows[i]).id == id;
                assert(i < rows.len() - 1);
                assert(head[i] == rows[i]);
                assert(seen(head, id));
            }
        }
        if seen(head, id) {
            let i = choose|i: int| 0 <= i < head.len() && (#[trigger] head[i]).id == id;
            assert(rows[i] == head[i]);
        }
    }
}

/// The first-seen ids are exactly the ids that have a row, each once.
pub proof fn lemma_first_seen_ids(rows: Seq<JoinedRowView>)
    ensures
        forall|id: Seq<char>| first_seen_ids(rows).contains(id) <==> seen(rows, id),
        forall|a: int, b: int|
            0 <= a < b < first_seen_ids(rows).len() ==> first_seen_ids(rows)[a] != first_seen_ids(
                rows,
            )[b],
    decreases rows.len(),
{
    if rows.len() > 0 {
        let head = rows.drop_last();
        let last = rows.last();
        lemma_first_seen_ids(head);
        let before = first_seen_ids(head);
        let now = first_seen_ids(rows);
        assert forall|id: Seq<char>| now.contains(id) <==> seen(rows, id) by {
            if seen(rows, id) {
                let i = choose|i: int| 0 <= i < rows.len() && (#[trigger] rows[i]).id == id;
                if i < rows.len() - 1 {
                    assert(head[i] == rows[i]);
                    assert(seen(head, id));
                    assert(before.contains(id));
                    let k = choose|k: int| 0 <= k < before.len() && before[k] == id;
                    assert(now[k] == id);
                } else {
                    assert(id == last.id);
                    if seen(head, last.id) {
                        assert(before.contains(id));
                    } else {
                        assert(now[now.len() - 1] == id);
                    }
                }
            }
            if now.contains(id) {
                let k = choose|k: int| 0 <= k < now.len() && now[k] == id;
                if k < before.len() {
                    assert(before[k] == id);
                    assert(before.contains(id));
                    assert(seen(head, id));
                    let i = choose|i: int| 0 <= i < head.len() && (#[trigger] head[i]).id == id;
                    assert(rows[i] == head[i]);
                } else {
                    assert(id == last.id);
                    assert(rows[rows.len() - 1].id == id);
                }
            }
        }
        assert forall|a: int, b: int| 0 <= a < b < now.len() implies now[a] != now[b] by {
            if b >= before.len() {
                assert(before[a] == now[a]);
                assert(before.contains(now[a]));
            } else {
                assert(before[a] == now[a]);
                assert(before[b] == now[b]);
            }
        }
    } else {
        assert forall|id: Seq<char>| first_seen_ids(rows).contains(id) <==> seen(rows, id) by {}
    }
}

/// A payment that has no row has no installment.
pub proof fn lemma_unseen_has_no_installments(rows: Seq<JoinedRowView>, id: Seq<char>)
    requires
        !seen(rows, id),
    ensures
        installments_for(rows, id) == Seq::<InstallmentView>::empty(),
    decreases rows.len(),
{
    if rows.len() > 0 {
        let head = rows.drop_last();
        assert(rows[rows.len() - 1].id != id);
        if seen(head, id) {
            let i = choose|i: int| 0 <= i < head.len() && (#[trigger] head[i]).id == id;
            assert(rows[i] == head[i]);
        }
        lemma_unseen_has_no_installments(head, id);
    }
}

/// The payment described under an id that has a row carries that id.
pub proof fn lemma_payment_id(rows: Seq<JoinedRowView>, id: Seq<char>)
    requires
        seen(rows, id),
    ensures
        payment_for(rows, id).id == id,
{
    lemma_first_index(rows, id);
}

/// What one more row does to the payments described: a row of a payment
/// already met adds its installment to that payment and leaves the others as
/// they are; a row of a new payment adds that payment at the end.
pub proof fn lemma_grouped_push(rows: Seq<JoinedRowView>, row: JoinedRowView)
    ensures
        seen(rows, row.id) ==> {
            &&& grouped(rows.push(row)).len() == grouped(rows).len()
            &&& forall|k: int|
                0 <= k < grouped(rows).len() ==> #[trigger] grouped(rows.push(row))[k] == (if grouped(
                    rows,
                )[k].id == row.id {
                    with_installment(grouped(rows)[k], installment_of(row))
                } else {
                    grouped(rows)[k]
                })
        },
        !seen(rows, row.id) ==> grouped(rows.push(row)) == grouped(rows).push(
            with_installment(base_of(row), installment_of(row)),
        ),
        forall|k: int| 0 <= k < grouped(rows).len() ==> (#[trigger] grouped(rows)[k]).id == first_seen_ids(rows)[k],
{
    reveal(grouped);
    let more = rows.push(row);
    assert(more.drop_last() =~= rows);
    assert(more.last() == row);
    lemma_first_seen_ids(rows);
    let ids = first_seen_ids(rows);
    assert forall|k: int| 0 <= k < ids.len() implies (#[trigger] grouped(rows)[k]).id == ids[k] by {
        assert(ids.contains(ids[k]));
        lemma_payment_id(rows, ids[k]);
    }
    assert forall|k: int| 0 <= k < ids.len() implies payment_for(more, #[trigger] ids[k]) == (if ids[k]
        == row.id {
        with_installment(payment_for(rows, ids[k]), installment_of(row))
    } else {
        payment_for(rows, ids[k])
    }) by {
        let id = ids[k];
        assert(ids.contains(id));
        lemma_first_index(rows, id);
        assert(first_index(more, id) == first_index(rows, id));
        assert(more[first_index(rows, id)] == rows[first_index(rows, id)]);
    }
    if seen(rows, row.id) {
        assert(first_seen_ids(more) == ids);
        assert forall|k: int| 0 <= k < grouped(rows).len() implies #[trigger] grouped(more)[k] == (if grouped(
            rows,
        )[k].id == row.id {
            with_installment(grouped(rows)[k], installment_of(row))
        } else {
            grouped(rows)[k]
        }) by {
            assert(grouped(rows)[k].id == ids[k]);
            assert(payment_for(more, ids[k]) == (if ids[k] == row.id {
                with_installment(payment_for(rows, ids[k]), installment_of(row))
            } else {
                payment_for(rows, ids[k])
            }));
        }
    } else {
        lemma_first_index(rows, row.id);
        lemma_unseen_has_no_installments(rows, row.id);
        assert(first_seen_ids(more) == ids.push(row.id));
        assert(first_index(more, row.id) == rows.len());
        assert(more[rows.len() as int] == row);
        let added = with_installment(base_of(row), installment_of(row));
        assert(payment_for(more, row.id).installments =~= added.installments);
        assert(payment_for(more, row.id) == added);
        assert(grouped(more) =~= grouped(rows).push(added)) by {
            assert forall|k: int| 0 <= k < grouped(more).len() implies grouped(more)[k] == grouped(rows).push(
                added,
            )[k] by {
                if k < ids.len() {
                    assert(ids.contains(ids[k]));
                    assert(ids[k] != row.id);
                    assert(payment_for(more, ids[k]) == payment_for(rows, ids[k]));
                }
            }
        }
    }
}

/// Rows that decode still decode with one row fewer, and one more row keeps
/// them decoding exactly when it decodes as far as it is read.
pub proof fn lemma_rows_decode_push(rows: Seq<JoinedRowView>, row: JoinedRowView)
    ensures
        rows_decode(rows.push(row)) <==> rows_decode(rows) && installment_decodes(row) && (!seen(
            rows,
            row.id,
        ) ==> base_decodes(row)),
{
    reveal(rows_decode);
    let more = rows.push(row);
    let n = rows.len() as int;
    assert(more[n] == row);
    assert forall|i: int| 0 <= i < n implies (is_first_row(more, i) <==> is_first_row(rows, i)) by {
        assert(more[i] == rows[i]);
        if is_first_row(more, i) {
            assert forall|j: int| 0 <= j < i implies (#[trigger] rows[j]).id != rows[i].id by {
                assert(more[j] == rows[j]);
            }
        }
        if is_first_row(rows, i) {
            assert forall|j: int| 0 <= j < i implies (#[trigger] more[j]).id != more[i].id by {
                assert(more[j] == rows[j]);
            }
        }
    }
    assert(is_first_row(more, n) <==> !seen(rows, row.id)) by {
        if seen(rows, row.id) {
            let i = choose|i: int| 0 <= i < rows.len() && (#[trigger] rows[i]).id == row.id;
            assert(more[i] == rows[i]);
        }
        if !is_first_row(more, n) {
            let j = choose|j: int| 0 <= j < n && (#[trigger] more[j]).id == more[n].id;
            assert(more[j] == rows[j]);
        }
    }
    if rows_decode(more) {
        assert forall|i: int| 0 <= i < rows.len() implies installment_decodes(#[trigger] rows[i]) && (
        is_first_row(rows, i) ==> base_decodes(rows[i])) by {
            assert(more[i] == rows[i]);
        }
    }
    if rows_decode(rows) && installment_decodes(row) && (!seen(rows, row.id) ==> base_decodes(row)) {
        assert forall|i: int| 0 <= i < more.len() implies installment_decodes(#[trigger] more[i]) && (
        is_first_row(more, i) ==> base_decodes(more[i])) by {
            if i < n {
                assert(more[i] == rows[i]);
            }
        }
    }
}

/// Rows that do not decode do not start decoding when more rows follow.
pub proof fn lemma_rows_decode_prefix(rows: Seq<JoinedRowView>, n: int)
    requires
        0 <= n <= rows.len(),
        !rows_decode(rows.take(n)),
    ensures
        !rows_decode(rows),
    decreases rows.len() - n,
{
    if n < rows.len() {
        assert(rows.take(n + 1) =~= rows.take(n).push(rows[n]));
        lemma_rows_decode_push(rows.take(n), rows[n]);
        lemma_rows_decode_prefix(rows, n + 1);
    } else {
        assert(rows.take(n) =~= rows);
    }
}

/// What the rows of one payment are within a larger set of rows: they all
/// carry its id, they start with its first row, each of them is one of the
/// larger set, and they carry its installments.
pub proof fn lemma_rows_of(rows: Seq<JoinedRowView>, id: Seq<char>)
    ensures
        forall|i: int| 0 <= i < rows_of(rows, id).len() ==> (#[trigger] rows_of(rows, id)[i]).id == id,
        forall|i: int|
            0 <= i < rows_of(rows, id).len() ==> exists|j: int|
                0 <= j < rows.len() && rows[j] == #[trigger] rows_of(rows, id)[i],
        seen(rows, id) <==> rows_of(rows, id).len() > 0,
        seen(rows, id) ==> rows_of(rows, id)[0] == rows[first_index(rows, id)],
        all_installments(rows_of(rows, id)) == installments_for(rows, id),
    decreases rows.len(),
{
    if rows.len() > 0 {
        let head = rows.drop_last();
        let last = rows.last();
        lemma_rows_of(head, id);
        lemma_first_index(head, id);
        lemma_first_index(rows, id);
        let part = rows_of(head, id);
        let whole = rows_of(rows, id);
        assert forall|i: int| 0 <= i < whole.len() implies exists|j: int|
            0 <= j < rows.len() && rows[j] == #[trigger] whole[i] by {
            if i < part.len() {
                assert(whole[i] == part[i]);
                let j = choose|j: int| 0 <= j < head.len() && head[j] == part[i];
                assert(rows[j] == head[j]);
            } else {
                assert(rows[rows.len() - 1] == whole[i]);
            }
        }
        if seen(head, id) {
            let i = choose|i: int| 0 <= i < head.len() && (#[trigger] head[i]).id == id;
            assert(rows[i] == head[i]);
            assert(seen(rows, id));
            assert(whole[0] == part[0]);
            assert(rows[first_index(head, id)] == head[first_index(head, id)]);
        } else if last.id == id {
            assert(rows[rows.len() - 1].id == id);
            assert(part.len() == 0);
            assert(whole[0] == last);
        } else {
            if seen(rows, id) {
                let i = choose|i: int| 0 <= i < rows.len() && (#[trigger] rows[i]).id == id;
                assert(head[i] == rows[i]);
            }
        }
        if last.id == id {
            assert(whole.drop_last() =~= part);
        }
    }
}

/// A set of rows read as many payments and the rows of each of its payments
/// read alone give the same payment: every id that has a row appears once
/// in the grouped result, and the payment under it is the one that its own
/// rows describe.
pub proof fn lemma_batch_equivalence(rows: Seq<JoinedRowView>, id: Seq<char>)
    requires
        rows_decode(rows),
        seen(rows, id),
    ensures
        single_decodes(rows_of(rows, id)),
        exists|k: int|
            0 <= k < grouped(rows).len() && #[trigger] grouped(rows)[k] == single(rows_of(rows, id)),
        forall|k: int|
            0 <= k < grouped(rows).len() && (#[trigger] grouped(rows)[k]).id == id ==> grouped(rows)[k]
                == single(rows_of(rows, id)),
        forall|a: int, b: int|
            0 <= a < b < grouped(rows).len() ==> (#[trigger] grouped(rows)[a]).id != (#[trigger] grouped(
                rows,
            )[b]).id,
{
    reveal(grouped);
    reveal(rows_decode);
    lemma_rows_of(rows, id);
    lemma_first_index(rows, id);
    lemma_first_seen_ids(rows);
    let own = rows_of(rows, id);
    let ids = first_seen_ids(rows);
    assert forall|i: int| 0 <= i < own.len() implies installment_decodes(#[trigger] own[i]) by {
        let j = choose|j: int| 0 <= j < rows.len() && rows[j] == own[i];
        assert(installment_decodes(rows[j]));
    }
    assert(base_decodes(rows[first_index(rows, id)]));
    assert(single(own) == payment_for(rows, id));
    assert(ids.contains(id));
    let k = choose|k: int| 0 <= k < ids.len() && ids[k] == id;
    assert(grouped(rows)[k] == single(own));
    assert forall|k: int| 0 <= k < grouped(rows).len() implies (#[trigger] grouped(rows)[k]).id
        == ids[k] by {
        assert(ids.contains(ids[k]));
        lemma_payment_id(rows, ids[k]);
    }
}

/// The payments that rows describe are those that have a row, each once:
/// every payment described carries the id of some row, and no two carry
/// the same id.
pub proof fn lemma_grouped_ids(rows: Seq<JoinedRowView>)
    ensures
        forall|k: int| 0 <= k < grouped(rows).len() ==> seen(rows, (#[trigger] grouped(rows)[k]).id),
        forall|a: int, b: int|
            0 <= a < b < grouped(rows).len() ==> (#[trigger] grouped(rows)[a]).id != (#[trigger] grouped(
                rows,
            )[b]).id,
{
    reveal(grouped);
    lemma_first_seen_ids(rows);
    let ids = first_seen_ids(rows);
    assert forall|k: int| 0 <= k < grouped(rows).len() implies seen(rows, (#[trigger] grouped(rows)[k]).id)
        && grouped(rows)[k].id == ids[k] by {
        assert(ids.contains(ids[k]));
        lemma_payment_id(rows, ids[k]);
    }
}

/// Whether the rows are what the joined query returns for a stored payment:
/// one row for each installment, in the payment's order, each with the
/// payment's own columns; or a single row without an installment side where
/// the payment has none.
pub open spec fn rows_hold(rows: Seq<JoinedRowView>, p: PaymentView) -> bool {
    &&& rows.len() == (if p.installments.len() == 0 {
        1
    } else {
        p.installments.len()
    })
    &&& forall|i: int|
        0 <= i < rows.len() ==> {
            &&& base_decodes(#[trigger] rows[i])
            &&& installment_decodes(rows[i])
            &&& base_of(rows[i]) == (PaymentView { installments: Seq::empty(), ..p })
            &&& installment_of(rows[i]) == (if p.installments.len() == 0 {
                None
            } else {
                Some(p.installments[i])
            })
        }
}

/// A stored payment that is read back is the payment that was stored: the
/// rows that the joined query returns for it decode, on the path for one
/// payment and on the path for many, to that payment in all its fields,
/// with its installments in the order of the rows.
pub proof fn lemma_round_trip(rows: Seq<JoinedRowView>, p: PaymentView)
    requires
        rows_hold(rows, p),
    ensures
        single_decodes(rows),
        single(rows) == p,
        rows_decode(rows),
        grouped(rows) == seq![p],
{
    reveal(grouped);
    reveal(rows_decode);
    assert(base_of(rows[0]).id == p.id);
    lemma_all_installments_of_held(rows, p, rows.len() as int);
    assert(rows.take(rows.len() as int) =~= rows);
    assert(single(rows).installments =~= p.installments);
    assert(single(rows) == p);
    assert(seen(rows, p.id));
    assert forall|i: int| 0 <= i < rows.len() implies (#[trigger] rows[i]).id == p.id by {
        assert(base_of(rows[i]).id == p.id);
    }
    lemma_own_rows(rows, p.id);
    lemma_first_seen_ids(rows);
    lemma_batch_equivalence(rows, p.id);
    let ids = first_seen_ids(rows);
    assert(ids.contains(p.id));
    assert(ids.len() == 1) by {
        let k = choose|k: int| 0 <= k < ids.len() && ids[k] == p.id;
        if ids.len() > 1 {
            assert(ids.contains(ids[0]));
            assert(seen(rows, ids[0]));
            let a = choose|i: int| 0 <= i < rows.len() && (#[trigger] rows[i]).id == ids[0];
            assert(rows[a].id == p.id);
            assert(ids.contains(ids[1]));
            assert(seen(rows, ids[1]));
            let b = choose|i: int| 0 <= i < rows.len() && (#[trigger] rows[i]).id == ids[1];
            assert(rows[b].id == p.id);
            assert(ids[0] == ids[1]);
        }
    }
    assert(grouped(rows) =~= seq![p]);
}

/// Rows that all belong to one payment are that payment's rows.
proof fn lemma_own_rows(rows: Seq<JoinedRowView>, id: Seq<char>)
    requires
        forall|i: int| 0 <= i < rows.len() ==> (#[trigger] rows[i]).id == id,
    ensures
        rows_of(rows, id) == rows,
    decreases rows.len(),
{
    if rows.len() > 0 {
        let head = rows.drop_last();
        assert forall|i: int| 0 <= i < head.len() implies (#[trigger] head[i]).id == id by {
            assert(head[i] == rows[i]);
        }
        lemma_own_rows(head, id);
        assert(rows[rows.len() - 1].id == id);
        assert(rows_of(rows, id) =~= rows);
    } else {
        assert(rows_of(rows, id) =~= rows);
    }
}

/// The first `n` rows held for a payment carry its first `n` installments.
proof fn lemma_all_installments_of_held(rows: Seq<JoinedRowView>, p: PaymentView, n: int)
    requires
        rows_hold(rows, p),
        0 <= n <= rows.len(),
    ensures
        all_installments(rows.take(n)) == (if p.installments.len() == 0 {
            Seq::<InstallmentView>::empty()
        } else {
            p.installments.take(n)
        }),
    decreases n,
{
    if n > 0 {
        lemma_all_installments_of_held(rows, p, n - 1);
        assert(rows.take(n).drop_last() =~= rows.take(n - 1));
        assert(rows.take(n).last() == rows[n - 1]);
        if p.installments.len() > 0 {
            assert(p.installments.take(n) =~= p.installments.take(n - 1).push(p.installments[n - 1]));
        }
    } else {
        assert(p.installments.take(0) =~= Seq::<InstallmentView>::empty());
    }
}

/// Whether the installments that the rows carry are dated in ascending
/// order, as the joined query sorts them.
pub open spec fn dated_in_order(rows: Seq<JoinedRowView>) -> bool {
    forall|i: int, j: int|
        0 <= i < j < rows.len() && installment_of(#[trigger] rows[i]) is Some && installment_of(
            #[trigger] rows[j],
        ) is Some ==> installment_of(rows[i]).unwrap().payment_date.precedes(
            installment_of(rows[j]).unwrap().payment_date,
        )
}

/// Whether a list of installments is in ascending order of payment date.
pub open spec fn ascending(list: Seq<InstallmentView>) -> bool {
    forall|a: int, b: int|
        0 <= a < b < list.len() ==> (#[trigger] list[a]).payment_date.precedes(
            (#[trigger] list[b]).payment_date,
        )
}

/// Decoding keeps the order of the rows: where the rows come sorted by
/// installment date, every payment's installments are in ascending order of
/// date.
pub proof fn lemma_installments_ascending(rows: Seq<JoinedRowView>, id: Seq<char>)
    requires
        dated_in_order(rows),
    ensures
        ascending(all_installments(rows)),
        ascending(installments_for(rows, id)),
        forall|a: int|
            0 <= a < all_installments(rows).len() ==> exists|j: int|
                0 <= j < rows.len() && installment_of(rows[j]) == Some(#[trigger] all_installments(rows)[a]),
        forall|a: int|
            0 <= a < installments_for(rows, id).len() ==> exists|j: int|
                0 <= j < rows.len() && installment_of(rows[j]) == Some(
                    #[trigger] installments_for(rows, id)[a],
                ),
    decreases rows.len(),
{
    if rows.len() > 0 {
        let head = rows.drop_last();
        let last = rows.last();
        let n = rows.len() - 1;
        assert forall|i: int| 0 <= i < head.len() implies #[trigger] head[i] == rows[i] by {}
        assert(dated_in_order(head)) by {
            assert forall|i: int, j: int|
                0 <= i < j < head.len() && installment_of(#[trigger] head[i]) is Some && installment_of(
                    #[trigger] head[j],
                ) is Some implies installment_of(head[i]).unwrap().payment_date.precedes(
                installment_of(head[j]).unwrap().payment_date,
            ) by {
                assert(head[i] == rows[i]);
                assert(head[j] == rows[j]);
            }
        }
        lemma_installments_ascending(head, id);
        let all_before = all_installments(head);
        let all_now = all_installments(rows);
        let own_before = installments_for(head, id);
        let own_now = installments_for(rows, id);
        assert forall|a: int| 0 <= a < all_now.len() implies exists|j: int|
            0 <= j < rows.len() && installment_of(rows[j]) == Some(#[trigger] all_now[a]) by {
            if a < all_before.len() {
                assert(all_now[a] == all_before[a]);
                let j = choose|j: int|
                    0 <= j < head.len() && installment_of(head[j]) == Some(all_before[a]);
                assert(rows[j] == head[j]);
            } else {
                assert(installment_of(rows[n]) == Some(all_now[a]));
            }
        }
        assert forall|a: int| 0 <= a < own_now.len() implies exists|j: int|
            0 <= j < rows.len() && installment_of(rows[j]) == Some(#[trigger] own_now[a]) by {
            if a < own_before.len() {
                assert(own_now[a] == own_before[a]);
                let j = choose|j: int|
                    0 <= j < head.len() && installment_of(head[j]) == Some(own_before[a]);
                assert(rows[j] == head[j]);
            } else {
                assert(installment_of(rows[n]) == Some(own_now[a]));
            }
        }
        assert forall|a: int, b: int| 0 <= a < b < all_now.len() implies (#[trigger] all_now[a]).payment_date.precedes(
            (#[trigger] all_now[b]).payment_date,
        ) by {
            if b < all_before.len() {
                assert(all_now[a] == all_before[a]);
                assert(all_now[b] == all_before[b]);
            } else {
                assert(all_now[a] == all_before[a]);
                let j = choose|j: int|
                    0 <= j < head.len() && installment_of(head[j]) == Some(all_before[a]);
                assert(rows[j] == head[j]);
                assert(installment_of(rows[n]) == Some(all_now[b]));
            }
        }
        assert forall|a: int, b: int| 0 <= a < b < own_now.len() implies (#[trigger] own_now[a]).payment_date.precedes(
            (#[trigger] own_now[b]).payment_date,
        ) by {
            if b < own_before.len() {
                assert(own_now[a] == own_before[a]);
                assert(own_now[b] == own_before[b]);
            } else {
                assert(own_now[a] == own_before[a]);
                let j = choose|j: int|
                    0 <= j < head.len() && installment_of(head[j]) == Some(own_before[a]);
                assert(rows[j] == head[j]);
                assert(installment_of(rows[n]) == Some(own_now[b]));
            }
        }
    }
}

/// Whether a list of payments holds one with this id.
pub open spec fn known(list: Seq<PaymentView>, id: Seq<char>) -> bool {
    exists|j: int| 0 <= j < list.len() && (#[trigger] list[j]).id == id
}

/// Among the payments that rows describe, one is known under an id exactly
/// when a row carries that id.
pub proof fn lemma_slot(rows: Seq<JoinedRowView>, row: JoinedRowView, list: Seq<PaymentView>)
    requires
        list == grouped(rows),
    ensures
        known(list, row.id) <==> seen(rows, row.id),
{
    reveal(grouped);
    lemma_first_seen_ids(rows);
    lemma_grouped_push(rows, row);
    let ids = first_seen_ids(rows);
    if known(list, row.id) {
        let j = choose|j: int| 0 <= j < list.len() && (#[trigger] list[j]).id == row.id;
        assert(ids[j] == row.id);
        assert(ids.contains(row.id));
    }
    if seen(rows, row.id) {
        assert(ids.contains(row.id));
        let j = choose|j: int| 0 <= j < ids.len() && ids[j] == row.id;
        assert(list[j].id == row.id);
    }
}

/// One step of the fold: from the payments of the rows read so far, through
/// the list with the row's payment found or added at position `k`, to the
/// list with the row's installment appended there.
pub proof fn lemma_step(
    rows: Seq<JoinedRowView>,
    row: JoinedRowView,
    before: Seq<PaymentView>,
    middle: Seq<PaymentView>,
    after: Seq<PaymentView>,
    k: int,
)
    requires
        before == grouped(rows),
        seen(rows, row.id) ==> middle == before && 0 <= k < before.len() && before[k].id == row.id,
        !seen(rows, row.id) ==> middle == before.push(base_of(row)) && k == before.len(),
        after == middle.update(k, with_installment(middle[k], installment_of(row))),
    ensures
        after == grouped(rows.push(row)),
{
    reveal(grouped);
    lemma_grouped_push(rows, row);
    lemma_first_seen_ids(rows);
    let target = grouped(rows.push(row));
    if seen(rows, row.id) {
        assert forall|j: int| 0 <= j < after.len() implies after[j] == target[j] by {
            if j != k {
                assert(before[j].id == first_seen_ids(rows)[j]);
                assert(before[k].id == first_seen_ids(rows)[k]);
            }
        }
        assert(after =~= target);
    } else {
        assert(after =~= target);
    }
}

/// No rows describe no payment, and decode.
pub proof fn lemma_no_rows()
    ensures
        rows_decode(Seq::<JoinedRowView>::empty()),
        grouped(Seq::<JoinedRowView>::empty()) == Seq::<PaymentView>::empty(),
{
    reveal(rows_decode);
    reveal(grouped);
    assert(grouped(Seq::<JoinedRowView>::empty()) =~= Seq::<PaymentView>::empty());
}

} // verus!
