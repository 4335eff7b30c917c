use vstd::prelude::*;

use crate::handlers::write_outcome;
use crate::quote::{stamp_after, QuoteView};
use crate::status::Status;
use crate::store::{
    has_id, id_position, remove_rows, revise_rows, rows_with_id, stamps_ordered, unique_ids,
};

verus! {

/// Storing a quote whose identifier is not taken keeps identifiers unique:
/// repeated creates never yield two rows with one identifier.
pub proof fn lemma_create_keeps_ids_unique(rows: Seq<QuoteView>, q: QuoteView)
    requires
        unique_ids(rows),
        !has_id(rows, q.id),
    ensures
        unique_ids(rows.push(q)),
{
    let after = rows.push(q);
    assert forall|i: int, j: int|
        0 <= i < after.len() && 0 <= j < after.len() && after[i].id == after[j].id implies i
        == j by {
        if i < rows.len() && j == rows.len() {
            assert(rows[i].id == q.id);
        } else if j < rows.len() && i == rows.len() {
            assert(rows[j].id == q.id);
        }
    }
}

/// Once a quote is stored, listing the table shows exactly one row with its
/// identifier, and that row holds what was stored.
pub proof fn lemma_created_is_listed(rows: Seq<QuoteView>, q: QuoteView)
    requires
        unique_ids(rows),
        !has_id(rows, q.id),
    ensures
        has_id(rows.push(q), q.id),
        id_position(rows.push(q), q.id) == rows.len(),
        rows.push(q)[id_position(rows.push(q), q.id)] == q,
        forall|i: int| 0 <= i < rows.len() + 1 && rows.push(q)[i].id == q.id ==> i == rows.len(),
{
    let after = rows.push(q);
    assert(after[rows.len() as int] == q);
    assert forall|i: int| 0 <= i < rows.len() + 1 && after[i].id == q.id implies i
        == rows.len() by {
        if i < rows.len() {
            assert(rows[i] == after[i]);
        }
    }
    assert(has_id(after, q.id));
}

/// Updating or deleting one quote leaves the rows of every other quote as
/// they were.
pub proof fn lemma_other_rows_untouched(
    rows: Seq<QuoteView>,
    id: u128,
    book: Seq<char>,
    quote: Seq<char>,
    now: i64,
    other: u128,
)
    requires
        unique_ids(rows),
        other != id,
    ensures
        forall|i: int|
            0 <= i < rows.len() && rows[i].id == other ==> revise_rows(rows, id, book, quote, now)[i]
                == rows[i],
        has_id(rows, other) ==> has_id(remove_rows(rows, id), other) && remove_rows(rows, id)[id_position(remove_rows(rows, id), other)] == rows[id_position(rows, other)],
{
    if has_id(rows, other) {
        let p = id_position(rows, other);
        let after = remove_rows(rows, id);
        if has_id(rows, id) {
            let d = id_position(rows, id);
            assert(p != d);
            let np = if p < d {
                p
            } else {
                p - 1
            };
            assert(after[np] == rows[p]);
            assert(has_id(after, other));
            let k = id_position(after, other);
            let ok = if k < d {
                k
            } else {
                k + 1
            };
            assert(after[k] == rows[ok]);
            assert(ok == p);
        }
    }
}

/// An update of an existing quote replaces its book and passage, keeps its
/// identifier and creation time, and answers success. Its update time
/// strictly increases, whatever the clock reads, and is the clock reading
/// where the clock has moved past it. Only a row already stamped with the
/// largest representable time cannot move on.
pub proof fn lemma_update_existing(
    rows: Seq<QuoteView>,
    id: u128,
    book: Seq<char>,
    quote: Seq<char>,
    now: i64,
)
    requires
        unique_ids(rows),
        stamps_ordered(rows),
        has_id(rows, id),
        rows[id_position(rows, id)].updated_at < i64::MAX,
    ensures
        ({
            let p = id_position(rows, id);
            let after = revise_rows(rows, id, book, quote, now);
            &&& after.len() == rows.len()
            &&& unique_ids(after)
            &&& stamps_ordered(after)
            &&& after[p].id == id
            &&& after[p].inserted_at == rows[p].inserted_at
            &&& after[p].book == book
            &&& after[p].quote == quote
            &&& after[p].updated_at > rows[p].updated_at
            &&& now > rows[p].updated_at ==> after[p].updated_at == now
            &&& forall|i: int| 0 <= i < after.len() && after[i].id == id ==> i == p
        }),
        write_outcome(Ok(rows_with_id(rows, id))) == Status::Success,
{
    let after = revise_rows(rows, id, book, quote, now);
    lemma_revise_keeps_ids(rows, id, book, quote, now);
    let p = id_position(rows, id);
    assert(after[p].updated_at == stamp_after(rows[p].updated_at, now));
    assert forall|i: int| 0 <= i < after.len() implies after[i].inserted_at
        <= after[i].updated_at by {
        assert(rows[i].inserted_at <= rows[i].updated_at);
    }
}

/// An update keeps every row's identifier and the set of identifiers unique.
pub proof fn lemma_revise_keeps_ids(
    rows: Seq<QuoteView>,
    id: u128,
    book: Seq<char>,
    quote: Seq<char>,
    now: i64,
)
    requires
        unique_ids(rows),
    ensures
        revise_rows(rows, id, book, quote, now).len() == rows.len(),
        forall|i: int|
            0 <= i < rows.len() ==> (#[trigger] revise_rows(rows, id, book, quote, now)[i]).id
                == rows[i].id,
        unique_ids(revise_rows(rows, id, book, quote, now)),
{
    let after = revise_rows(rows, id, book, quote, now);
    assert forall|i: int, j: int|
        0 <= i < after.len() && 0 <= j < after.len() && after[i].id == after[j].id implies i
        == j by {
        assert(after[i].id == rows[i].id);
        assert(after[j].id == rows[j].id);
    }
}

/// An update or a delete of an identifier that no row has answers not found
/// and changes nothing, so repeating it answers not found again.
pub proof fn lemma_missing_id_not_found(
    rows: Seq<QuoteView>,
    id: u128,
    book: Seq<char>,
    quote: Seq<char>,
    now: i64,
)
    requires
        !has_id(rows, id),
    ensures
        revise_rows(rows, id, book, quote, now) == rows,
        remove_rows(rows, id) == rows,
        write_outcome(Ok(rows_with_id(rows, id))) == Status::NotFound,
        write_outcome(Ok(rows_with_id(revise_rows(rows, id, book, quote, now), id)))
            == Status::NotFound,
        write_outcome(Ok(rows_with_id(remove_rows(rows, id), id))) == Status::NotFound,
{
    assert(revise_rows(rows, id, book, quote, now) =~= rows);
}

/// After a delete, no row has the deleted identifier: listing never shows
/// it, and a second delete answers not found.
pub proof fn lemma_deleted_is_gone(rows: Seq<QuoteView>, id: u128)
    requires
        unique_ids(rows),
    ensures
        !has_id(remove_rows(rows, id), id),
        unique_ids(remove_rows(rows, id)),
        write_outcome(Ok(rows_with_id(remove_rows(rows, id), id))) == Status::NotFound,
{
    let after = remove_rows(rows, id);
    if has_id(rows, id) {
        let d = id_position(rows, id);
        assert forall|k: int| 0 <= k < after.len() implies after[k].id != id by {
            let ok = if k < d {
                k
            } else {
                k + 1
            };
            assert(after[k] == rows[ok]);
        }
        assert forall|i: int, j: int|
            0 <= i < after.len() && 0 <= j < after.len() && after[i].id == after[j].id implies i
            == j by {
            let oi = if i < d {
                i
            } else {
                i + 1
            };
            let oj = if j < d {
                j
            } else {
                j + 1
            };
            assert(after[i] == rows[oi]);
            assert(after[j] == rows[oj]);
        }
    }
}

/// One write on the table: a create of a stamped quote, an update of an
/// identifier at a clock reading, or a delete of an identifier.
pub enum TableOp {
    Create(QuoteView),
    Update(u128, Seq<char>, Seq<char>, i64),
    Delete(u128),
}

/// The rows after one write. A create whose identifier is taken fails and
/// changes nothing.
pub open spec fn apply_op(rows: Seq<QuoteView>, op: TableOp) -> Seq<QuoteView> {
    match op {
        TableOp::Create(q) => if has_id(rows, q.id) {
            rows
        } else {
            rows.push(q)
        },
        TableOp::Update(id, book, quote, now) => revise_rows(rows, id, book, quote, now),
        TableOp::Delete(id) => remove_rows(rows, id),
    }
}

/// The rows after a sequence of writes, in order.
pub open spec fn apply_ops(rows: Seq<QuoteView>, ops: Seq<TableOp>) -> Seq<QuoteView>
    decreases ops.len(),
{
    if ops.len() == 0 {
        rows
    } else {
        apply_ops(apply_op(rows, ops[0]), ops.drop_first())
    }
}

/// The write is an update or a delete of identifier `id`.
pub open spec fn targets(op: TableOp, id: u128) -> bool {
    match op {
        TableOp::Create(_) => false,
        TableOp::Update(i, _, _, _) => i == id,
        TableOp::Delete(i) => i == id,
    }
}

/// A row present in the table stays exactly as it is, and the only row with
/// its identifier, through one write that does not target its identifier.
pub proof fn lemma_op_keeps_row(rows: Seq<QuoteView>, op: TableOp, x: QuoteView, p: int)
    requires
        unique_ids(rows),
        0 <= p < rows.len(),
        rows[p] == x,
        !targets(op, x.id),
    ensures
        unique_ids(apply_op(rows, op)),
        exists|k: int| 0 <= k < apply_op(rows, op).len() && apply_op(rows, op)[k] == x,
{
    let after = apply_op(rows, op);
    match op {
        TableOp::Create(q) => {
            if !has_id(rows, q.id) {
                lemma_create_keeps_ids_unique(rows, q);
            }
            assert(after[p] == x);
        },
        TableOp::Update(id, book, quote, now) => {
            lemma_revise_keeps_ids(rows, id, book, quote, now);
            assert(after[p] == x);
        },
        TableOp::Delete(id) => {
            lemma_deleted_is_gone(rows, id);
            assert(has_id(rows, x.id));
            let q = id_position(rows, x.id);
            assert(rows[q].id == rows[p].id);
            lemma_other_rows_untouched(rows, id, Seq::empty(), Seq::empty(), 0, x.id);
            let k = id_position(after, x.id);
            assert(after[k] == x);
        },
    }
}

/// Once a quote is stored, it is listed exactly once and unchanged after any
/// sequence of creates, and of updates and deletes of other identifiers.
pub proof fn lemma_stored_row_survives(rows: Seq<QuoteView>, ops: Seq<TableOp>, x: QuoteView)
    requires
        unique_ids(rows),
        exists|p: int| 0 <= p < rows.len() && rows[p] == x,
        forall|k: int| 0 <= k < ops.len() ==> !targets(#[trigger] ops[k], x.id),
    ensures
        unique_ids(apply_ops(rows, ops)),
        exists|p: int| 0 <= p < apply_ops(rows, ops).len() && apply_ops(rows, ops)[p] == x,
        forall|i: int|
            0 <= i < apply_ops(rows, ops).len() && apply_ops(rows, ops)[i].id == x.id
                ==> apply_ops(rows, ops)[i] == x,
    decreases ops.len(),
{
    let p = choose|p: int| 0 <= p < rows.len() && rows[p] == x;
    if ops.len() == 0 {
        assert forall|i: int| 0 <= i < rows.len() && rows[i].id == x.id implies rows[i] == x by {
            assert(rows[i].id == rows[p].id);
        }
    } else {
        assert(!targets(ops[0], x.id));
        lemma_op_keeps_row(rows, ops[0], x, p);
        let rest = ops.drop_first();
        assert forall|k: int| 0 <= k < rest.len() implies !targets(#[trigger] rest[k], x.id) by {
            assert(rest[k] == ops[k + 1]);
        }
        lemma_stored_row_survives(apply_op(rows, ops[0]), rest, x);
    }
}

} // verus!
