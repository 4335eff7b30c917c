use vstd::prelude::*;

use crate::handlers::{create_quote, delete_quote, read_quotes, update_quote, write_outcome, StoreError};
use crate::quote::{
    current_time, next_stamp, stamp_after, well_formed_id, CreateQuote, Quote, QuoteView,
};
use crate::status::Status;

verus! {

/// Some row of `rows` has identifier `id`.
pub open spec fn has_id(rows: Seq<QuoteView>, id: u128) -> bool {
    exists|i: int| 0 <= i < rows.len() && rows[i].id == id
}

/// No two rows share an identifier.
pub open spec fn unique_ids(rows: Seq<QuoteView>) -> bool {
    forall|i: int, j: int|
        0 <= i < rows.len() && 0 <= j < rows.len() && rows[i].id == rows[j].id ==> i == j
}

/// The position of the row with identifier `id`, where there is one.
pub open spec fn id_position(rows: Seq<QuoteView>, id: u128) -> int {
    choose|i: int| 0 <= i < rows.len() && rows[i].id == id
}

/// No row was updated before it was inserted.
pub open spec fn stamps_ordered(rows: Seq<QuoteView>) -> bool {
    forall|i: int| 0 <= i < rows.len() ==> rows[i].inserted_at <= rows[i].updated_at
}

/// A row with its book and passage replaced and its update time moved on
/// from the clock reading `now`.
pub open spec fn revise(row: QuoteView, book: Seq<char>, quote: Seq<char>, now: i64) -> QuoteView {
    QuoteView { book, quote, updated_at: stamp_after(row.updated_at, now), ..row }
}

/// The rows after an update of the row with identifier `id` at clock
/// reading `now`.
pub open spec fn revise_rows(
    rows: Seq<QuoteView>,
    id: u128,
    book: Seq<char>,
    quote: Seq<char>,
    now: i64,
) -> Seq<QuoteView> {
    rows.map_values(|r: QuoteView| if r.id == id { revise(r, book, quote, now) } else { r })
}

/// The rows after `DELETE ... WHERE id = id`.
pub open spec fn remove_rows(rows: Seq<QuoteView>, id: u128) -> Seq<QuoteView> {
    if has_id(rows, id) {
        rows.remove(id_position(rows, id))
    } else {
        rows
    }
}

/// The number of rows that carry identifier `id` in a table without
/// repeated identifiers: one or none.
pub open spec fn rows_with_id(rows: Seq<QuoteView>, id: u128) -> u64 {
    if has_id(rows, id) {
        1
    } else {
        0
    }
}

/// A table of quotes held in memory, with the semantics that the service
/// expects of the relational `quotes` table: the identifier is the primary
/// key, and rows are listed in the order they were inserted.
pub struct QuoteTable {
    rows: Vec<Quote>,
}

impl View for QuoteTable {
    type V = Seq<QuoteView>;

    closed spec fn view(&self) -> Seq<QuoteView> {
        self.rows@.map_values(|q: Quote| q@)
    }
}

impl QuoteTable {
    /// No two rows share an identifier, and no row was updated before it
    /// was inserted.
    pub open spec fn wf(&self) -> bool {
        unique_ids(self@) && stamps_ordered(self@)
    }

    /// An empty table.
    pub fn new() -> (r: QuoteTable)
        ensures
            r.wf(),
            r@ == Seq::<QuoteView>::empty(),
    {
        let r = QuoteTable { rows: Vec::new() };
        assert(r@ =~= Seq::<QuoteView>::empty());
        r
    }

    /// The number of rows.
    pub fn len(&self) -> (r: usize)
        ensures
            r == self@.len(),
    {
        self.rows.len()
    }

    /// The position of the row with identifier `id`.
    fn find(&self, id: u128) -> (r: Option<usize>)
        ensures
            match r {
                Some(i) => i < self@.len() && self@[i as int].id == id,
                None => !has_id(self@, id),
            },
    {
        let mut i: usize = 0;
        while i < self.rows.len()
            invariant
                i <= self.rows.len(),
                forall|k: int| 0 <= k < i ==> self@[k].id != id,
            decreases self.rows.len() - i,
        {
            if self.rows[i].id == id {
                return Some(i);
            }
            i = i + 1;
        }
        None
    }

    /// `INSERT` of one row: refused, with the table unchanged, when its
    /// identifier is already taken.
    pub fn insert(&mut self, quote: Quote) -> (r: Result<(), StoreError>)
        requires
            old(self).wf(),
            quote.inserted_at <= quote.updated_at,
        ensures
            final(self).wf(),
            has_id(old(self)@, quote.id) ==> r == Err::<(), StoreError>(StoreError::DuplicateId)
                && final(self)@ == old(self)@,
            !has_id(old(self)@, quote.id) ==> r == Ok::<(), StoreError>(()) && final(self)@
                == old(self)@.push(quote@),
    {
        match self.find(quote.id) {
            Some(_) => Err(StoreError::DuplicateId),
            None => {
                let ghost before = self@;
                let ghost q = quote@;
                self.rows.push(quote);
                assert(self@ =~= before.push(q));
                Ok(())
            },
        }
    }

    /// `SELECT *`: a copy of every row, in order.
    pub fn select_all(&self) -> (r: Vec<Quote>)
        ensures
            r@.map_values(|q: Quote| q@) == self@,
    {
        let mut out: Vec<Quote> = Vec::new();
        let mut i: usize = 0;
        while i < self.rows.len()
            invariant
                i <= self.rows.len(),
                out@.len() == i,
                forall|k: int| 0 <= k < i ==> out@[k]@ == self@[k],
            decreases self.rows.len() - i,
        {
            out.push(self.rows[i].duplicate());
            i = i + 1;
        }
        assert(out@.map_values(|q: Quote| q@) =~= self@);
        out
    }

    /// `UPDATE` of the row with identifier `id`: book and passage replaced,
    /// update time moved on from the clock reading `now`. Returns the number
    /// of rows touched.
    pub fn update_row(&mut self, id: u128, book: String, quote: String, now: i64) -> (r: u64)
        requires
            old(self).wf(),
        ensures
            final(self).wf(),
            final(self)@ == revise_rows(old(self)@, id, book@, quote@, now),
            r == rows_with_id(old(self)@, id),
    {
        let ghost before = self@;
        match self.find(id) {
            Some(i) => {
                let ghost nb = book@;
                let ghost nq = quote@;
                let row = Quote {
                    id,
                    book,
                    quote,
                    inserted_at: self.rows[i].inserted_at,
                    updated_at: next_stamp(self.rows[i].updated_at, now),
                };
                self.rows.set(i, row);
                assert(self@ =~= revise_rows(before, id, nb, nq, now)) by {
                    assert forall|k: int| 0 <= k < before.len() && k != i implies before[k].id
                        != id by {
                        assert(before[k].id == before[i as int].id ==> k == i);
                    }
                }
                assert(has_id(before, id));
                1
            },
            None => {
                assert(self@ =~= revise_rows(before, id, book@, quote@, now));
                0
            },
        }
    }

    /// `DELETE` of the row with identifier `id`. Returns the number of rows
    /// removed.
    pub fn delete_row(&mut self, id: u128) -> (r: u64)
        requires
            old(self).wf(),
        ensures
            final(self).wf(),
            final(self)@ == remove_rows(old(self)@, id),
            r == rows_with_id(old(self)@, id),
    {
        let ghost before = self@;
        match self.find(id) {
            Some(i) => {
                self.rows.remove(i);
                assert(has_id(before, id));
                let ghost j = id_position(before, id);
                assert(j == i);
                assert(self@ =~= before.remove(i as int));
                assert forall|k: int| 0 <= k < self@.len() implies self@[k].inserted_at
                    <= self@[k].updated_at by {
                    if k >= i {
                        assert(self@[k] == before[k + 1]);
                    }
                }
                1
            },
            None => 0,
        }
    }

    /// Creates a quote from a request body: a fresh identifier, the current
    /// time, and one insert. Whatever identifier was drawn, a success stores
    /// exactly the returned quote, and a failure leaves the table as it was.
    pub fn create(&mut self, payload: CreateQuote) -> (r: Result<(Status, Quote), Status>)
        requires
            old(self).wf(),
        ensures
            final(self).wf(),
            match r {
                Ok((s, q)) => s == Status::Created && q.book@ == payload.book@ && q.quote@
                    == payload.quote@ && well_formed_id(q.id) && q.inserted_at == q.updated_at
                    && !has_id(old(self)@, q.id) && final(self)@ == old(self)@.push(q@),
                Err(s) => s == Status::InternalServerError && final(self)@ == old(self)@,
            },
            r is Err ==> exists|i: int|
                0 <= i < old(self)@.len() && well_formed_id(#[trigger] old(self)@[i].id),
    {
        let quote = Quote::new(payload.book, payload.quote);
        let ghost id = quote.id;
        let r = self.create_from(quote);
        if r.is_err() {
            let ghost i = id_position(old(self)@, id);
            assert(well_formed_id(old(self)@[i].id));
        }
        r
    }

    /// Stores an already stamped quote and answers as a create does: the
    /// quote with `Created`, or a server error when its identifier is taken.
    pub fn create_from(&mut self, quote: Quote) -> (r: Result<(Status, Quote), Status>)
        requires
            old(self).wf(),
            quote.inserted_at <= quote.updated_at,
        ensures
            final(self).wf(),
            !has_id(old(self)@, quote.id) ==> match r {
                Ok((s, q)) => s == Status::Created && q@ == quote@ && final(self)@ == old(
                    self,
                )@.push(quote@),
                Err(_) => false,
            },
            has_id(old(self)@, quote.id) ==> r == Err::<(Status, Quote), Status>(
                Status::InternalServerError,
            ) && final(self)@ == old(self)@,
    {
        let copy = quote.duplicate();
        let inserted = self.insert(copy);
        create_quote(quote, inserted)
    }

    /// Lists every quote, in the order the table holds them.
    pub fn list(&self) -> (r: Result<Vec<Quote>, Status>)
        ensures
            match r {
                Ok(v) => v@.map_values(|q: Quote| q@) == self@ && (self.wf() ==> unique_ids(
                    v@.map_values(|q: Quote| q@),
                ) && stamps_ordered(v@.map_values(|q: Quote| q@))),
                Err(_) => false,
            },
    {
        read_quotes(Ok(self.select_all()))
    }

    /// Replaces the book and passage of the quote `id`, moving its update
    /// time on from the current time.
    pub fn update(&mut self, id: u128, payload: CreateQuote) -> (r: Status)
        requires
            old(self).wf(),
        ensures
            final(self).wf(),
            r == write_outcome(Ok(rows_with_id(old(self)@, id))),
            exists|now: i64|
                now >= 0 && final(self)@ == revise_rows(
                    old(self)@,
                    id,
                    payload.book@,
                    payload.quote@,
                    now,
                ),
    {
        let now = current_time();
        self.update_at(id, payload, now)
    }

    /// Replaces the book and passage of the quote `id` and moves its update
    /// time on from the clock reading `now`: success when it exists, not
    /// found otherwise.
    pub fn update_at(&mut self, id: u128, payload: CreateQuote, now: i64) -> (r: Status)
        requires
            old(self).wf(),
        ensures
            final(self).wf(),
            final(self)@ == revise_rows(old(self)@, id, payload.book@, payload.quote@, now),
            r == write_outcome(Ok(rows_with_id(old(self)@, id))),
            r == (if has_id(old(self)@, id) {
                Status::Success
            } else {
                Status::NotFound
            }),
    {
        let n = self.update_row(id, payload.book, payload.quote, now);
        update_quote(Ok(n))
    }

    /// Removes the quote `id`: success when it existed, not found otherwise.
    pub fn delete(&mut self, id: u128) -> (r: Status)
        requires
            old(self).wf(),
        ensures
            final(self).wf(),
            final(self)@ == remove_rows(old(self)@, id),
            r == write_outcome(Ok(rows_with_id(old(self)@, id))),
            r == (if has_id(old(self)@, id) {
                Status::Success
            } else {
                Status::NotFound
            }),
    {
        let n = self.delete_row(id);
        delete_quote(Ok(n))
    }
}

} // verus!
