use vstd::prelude::*;

verus! {

/// The mathematical value of a stored quote. Timestamps count microseconds
/// since the Unix epoch, in UTC.
pub struct QuoteView {
    pub id: u128,
    pub book: Seq<char>,
    pub quote: Seq<char>,
    pub inserted_at: i64,
    pub updated_at: i64,
}

/// A random identifier in the RFC 4122 layout: version nibble 4 and the
/// variant bits `10`.
pub open spec fn well_formed_id(id: u128) -> bool {
    (id >> 76u128) & 0xfu128 == 4u128 && (id >> 62u128) & 3u128 == 2u128
}

/// Relies on uuid::Uuid::new_v4 and Uuid::as_u128: a random value whose
/// version and variant bits are fixed to those of a version 4 identifier.
#[verifier::external_body]
fn fresh_id() -> (r: u128)
    ensures
        well_formed_id(r),
{
    uuid::Uuid::new_v4().as_u128()
}

/// Relies on chrono::Utc::now and DateTime::timestamp_micros: the current
/// time in microseconds since the Unix epoch, which is never negative.
#[verifier::external_body]
fn now_micros() -> (r: i64)
    ensures
        r >= 0,
{
    chrono::Utc::now().timestamp_micros()
}

/// The update time given to a row last updated at `prev` when the clock
/// reads `now`: the clock reading where it has moved past `prev`, else one
/// microsecond after `prev`, so that update times never go back and move on
/// with every update (short of the largest representable time).
pub open spec fn stamp_after(prev: i64, now: i64) -> i64 {
    if now > prev {
        now
    } else if prev < i64::MAX {
        (prev + 1) as i64
    } else {
        prev
    }
}

/// Computes `stamp_after(prev, now)`.
pub fn next_stamp(prev: i64, now: i64) -> (r: i64)
    ensures
        r == stamp_after(prev, now),
{
    if now > prev {
        now
    } else if prev < i64::MAX {
        prev + 1
    } else {
        prev
    }
}

/// The current time, as stamped on rows by the service.
pub fn current_time() -> (r: i64)
    ensures
        r >= 0,
{
    now_micros()
}

/// A stored quote.
pub struct Quote {
    pub id: u128,
    pub book: String,
    pub quote: String,
    pub inserted_at: i64,
    pub updated_at: i64,
}

impl View for Quote {
    type V = QuoteView;

    open spec fn view(&self) -> QuoteView {
        QuoteView {
            id: self.id,
            book: self.book@,
            quote: self.quote@,
            inserted_at: self.inserted_at,
            updated_at: self.updated_at,
        }
    }
}

/// The body of a create or update request.
pub struct CreateQuote {
    pub book: String,
    pub quote: String,
}

impl CreateQuote {
    pub fn new(book: String, quote: String) -> (r: CreateQuote)
        ensures
            r.book@ == book@,
            r.quote@ == quote@,
    {
        CreateQuote { book, quote }
    }
}

impl Quote {
    /// A new quote with a fresh random identifier, stamped with the current
    /// time as both its creation and its update time.
    pub fn new(book: String, quote: String) -> (r: Quote)
        ensures
            r.book@ == book@,
            r.quote@ == quote@,
            well_formed_id(r.id),
            r.inserted_at == r.updated_at,
            r.inserted_at >= 0,
    {
        let now = now_micros();
        Quote::stamped(fresh_id(), book, quote, now)
    }

    /// A new quote with the given identifier, created at `now`.
    pub fn stamped(id: u128, book: String, quote: String, now: i64) -> (r: Quote)
        ensures
            r@ == (QuoteView {
                id,
                book: book@,
                quote: quote@,
                inserted_at: now,
                updated_at: now,
            }),
    {
        Quote { id, book, quote, inserted_at: now, updated_at: now }
    }

    /// A copy of this quote.
    pub fn duplicate(&self) -> (r: Quote)
        ensures
            r@ == self@,
    {
        Quote {
            id: self.id,
            book: self.book.clone(),
            quote: self.quote.clone(),
            inserted_at: self.inserted_at,
            updated_at: self.updated_at,
        }
    }
}

} // verus!
