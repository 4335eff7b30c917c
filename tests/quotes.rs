use quotes::handlers::{create_quote, delete_quote, health, read_quotes, update_quote, StoreError};
use quotes::quote::{current_time, next_stamp, CreateQuote, Quote};
use quotes::status::Status;
use quotes::store::QuoteTable;

fn body(book: &str, quote: &str) -> CreateQuote {
    CreateQuote::new(book.to_string(), quote.to_string())
}

fn version_nibble(id: u128) -> u128 {
    (id >> 76) & 0xf
}

fn variant_bits(id: u128) -> u128 {
    (id >> 62) & 3
}

#[test]
fn health_is_ok() {
    assert_eq!(health(), Status::Success);
    assert_eq!(health().code(), 200);
}

#[test]
fn status_codes() {
    assert_eq!(Status::Success.code(), 200);
    assert_eq!(Status::Created.code(), 201);
    assert_eq!(Status::NotFound.code(), 404);
    assert_eq!(Status::InternalServerError.code(), 500);
}

#[test]
fn new_quote_is_stamped_once() {
    let q = Quote::new("Dune".to_string(), "Fear is the mind-killer".to_string());
    assert_eq!(q.book, "Dune");
    assert_eq!(q.quote, "Fear is the mind-killer");
    assert_eq!(q.inserted_at, q.updated_at);
    assert!(q.inserted_at > 0);
    assert_eq!(version_nibble(q.id), 4);
    assert_eq!(variant_bits(q.id), 2);
}

#[test]
fn new_quotes_get_distinct_ids() {
    let a = Quote::new("a".to_string(), "b".to_string());
    let b = Quote::new("a".to_string(), "b".to_string());
    assert_ne!(a.id, b.id);
}

#[test]
fn current_time_is_after_epoch() {
    // 2020-01-01T00:00:00Z in microseconds.
    assert!(current_time() > 1_577_836_800_000_000);
}

#[test]
fn stamped_quote_fields() {
    let q = Quote::stamped(42, "b".to_string(), "q".to_string(), 1000);
    assert_eq!(q.id, 42);
    assert_eq!(q.inserted_at, 1000);
    assert_eq!(q.updated_at, 1000);
    let c = q.duplicate();
    assert_eq!(c.id, 42);
    assert_eq!(c.book, "b");
    assert_eq!(c.quote, "q");
}

#[test]
fn create_response_on_success_and_failure() {
    let q = Quote::stamped(1, "b".to_string(), "q".to_string(), 5);
    match create_quote(q, Ok(())) {
        Ok((s, back)) => {
            assert_eq!(s, Status::Created);
            assert_eq!(back.id, 1);
            assert_eq!(back.book, "b");
        }
        Err(_) => panic!("expected a created quote"),
    }
    let q = Quote::stamped(1, "b".to_string(), "q".to_string(), 5);
    assert!(matches!(create_quote(q, Err(StoreError::Backend)), Err(Status::InternalServerError)));
}

#[test]
fn list_response_on_success_and_failure() {
    let rows = vec![Quote::stamped(3, "b".to_string(), "q".to_string(), 5)];
    let listed = read_quotes(Ok(rows)).ok().unwrap();
    assert_eq!(listed.len(), 1);
    assert_eq!(listed[0].id, 3);
    assert!(read_quotes(Ok(Vec::new())).ok().unwrap().is_empty());
    assert!(matches!(read_quotes(Err(StoreError::Backend)), Err(Status::InternalServerError)));
}

#[test]
fn write_responses_by_rows_affected() {
    assert_eq!(update_quote(Ok(1)), Status::Success);
    assert_eq!(update_quote(Ok(0)), Status::NotFound);
    assert_eq!(update_quote(Err(StoreError::Backend)), Status::InternalServerError);
    assert_eq!(delete_quote(Ok(1)), Status::Success);
    assert_eq!(delete_quote(Ok(0)), Status::NotFound);
    assert_eq!(delete_quote(Err(StoreError::DuplicateId)), Status::InternalServerError);
}

#[test]
fn insert_refuses_taken_id() {
    let mut t = QuoteTable::new();
    assert_eq!(t.insert(Quote::stamped(9, "a".to_string(), "b".to_string(), 1)), Ok(()));
    assert_eq!(
        t.insert(Quote::stamped(9, "c".to_string(), "d".to_string(), 2)),
        Err(StoreError::DuplicateId)
    );
    assert_eq!(t.len(), 1);
    assert_eq!(t.select_all()[0].book, "a");
}

#[test]
fn create_from_taken_id_is_server_error() {
    let mut t = QuoteTable::new();
    let first = t.create_from(Quote::stamped(9, "a".to_string(), "b".to_string(), 1));
    assert!(matches!(first, Ok((Status::Created, _))));
    let again = t.create_from(Quote::stamped(9, "c".to_string(), "d".to_string(), 2));
    assert!(matches!(again, Err(Status::InternalServerError)));
    assert_eq!(t.len(), 1);
}

#[test]
fn created_quote_is_listed_once() {
    let mut t = QuoteTable::new();
    let (_, a) = t.create(body("A", "one")).ok().unwrap();
    let (_, b) = t.create(body("B", "two")).ok().unwrap();
    assert_ne!(a.id, b.id);
    let rows = t.list().ok().unwrap();
    assert_eq!(rows.iter().filter(|r| r.id == a.id).count(), 1);
    let row = rows.iter().find(|r| r.id == a.id).unwrap();
    assert_eq!(row.book, "A");
    assert_eq!(row.quote, "one");
    assert_eq!(row.inserted_at, a.inserted_at);
    assert_eq!(row.updated_at, a.updated_at);
}

#[test]
fn update_keeps_id_and_creation_time() {
    let mut t = QuoteTable::new();
    t.create_from(Quote::stamped(7, "old".to_string(), "text".to_string(), 100)).ok().unwrap();
    assert_eq!(t.update_at(7, body("new", "words"), 250), Status::Success);
    let rows = t.select_all();
    assert_eq!(rows.len(), 1);
    assert_eq!(rows[0].id, 7);
    assert_eq!(rows[0].book, "new");
    assert_eq!(rows[0].quote, "words");
    assert_eq!(rows[0].inserted_at, 100);
    assert_eq!(rows[0].updated_at, 250);
}

#[test]
fn update_leaves_other_rows() {
    let mut t = QuoteTable::new();
    t.create_from(Quote::stamped(1, "a".to_string(), "x".to_string(), 10)).ok().unwrap();
    t.create_from(Quote::stamped(2, "b".to_string(), "y".to_string(), 20)).ok().unwrap();
    assert_eq!(t.update_at(2, body("c", "z"), 30), Status::Success);
    let rows = t.select_all();
    assert_eq!(rows[0].book, "a");
    assert_eq!(rows[0].updated_at, 10);
    assert_eq!(rows[1].book, "c");
    assert_eq!(t.delete(2), Status::Success);
    let rows = t.select_all();
    assert_eq!(rows.len(), 1);
    assert_eq!(rows[0].id, 1);
}

#[test]
fn missing_id_is_not_found_and_repeatable() {
    let mut t = QuoteTable::new();
    t.create_from(Quote::stamped(1, "a".to_string(), "x".to_string(), 10)).ok().unwrap();
    assert_eq!(t.update_at(99, body("b", "y"), 20), Status::NotFound);
    assert_eq!(t.update_at(99, body("b", "y"), 20), Status::NotFound);
    assert_eq!(t.delete(99), Status::NotFound);
    assert_eq!(t.delete(99), Status::NotFound);
    let rows = t.select_all();
    assert_eq!(rows.len(), 1);
    assert_eq!(rows[0].book, "a");
    assert_eq!(rows[0].updated_at, 10);
}

#[test]
fn deleted_quote_is_gone() {
    let mut t = QuoteTable::new();
    let (_, q) = t.create(body("A", "one")).ok().unwrap();
    assert_eq!(t.delete(q.id), Status::Success);
    assert!(t.list().ok().unwrap().iter().all(|r| r.id != q.id));
    assert_eq!(t.delete(q.id), Status::NotFound);
}

#[test]
fn dune_scenario() {
    let mut t = QuoteTable::new();
    let (status, created) = t.create(body("Dune", "Fear is the mind-killer")).ok().unwrap();
    assert_eq!(status.code(), 201);
    assert_eq!(created.book, "Dune");
    assert_eq!(created.quote, "Fear is the mind-killer");

    let listed = t.list().ok().unwrap();
    assert_eq!(listed.len(), 1);
    assert_eq!(listed[0].id, created.id);
    assert_eq!(listed[0].quote, "Fear is the mind-killer");

    let later = created.updated_at + 1;
    assert_eq!(t.update_at(created.id, body("Dune", "I must not fear"), later).code(), 200);
    let listed = t.list().ok().unwrap();
    assert_eq!(listed.len(), 1);
    assert_eq!(listed[0].quote, "I must not fear");
    assert!(listed[0].updated_at > created.updated_at);
    assert_eq!(listed[0].inserted_at, created.inserted_at);

    assert_eq!(t.delete(created.id).code(), 200);
    assert!(t.list().ok().unwrap().is_empty());
    assert_eq!(t.delete(created.id).code(), 404);
}

#[test]
fn update_with_clock_stamps_current_time() {
    let mut t = QuoteTable::new();
    t.create_from(Quote::stamped(5, "a".to_string(), "x".to_string(), 0)).ok().unwrap();
    assert_eq!(t.update(5, body("b", "y")), Status::Success);
    let rows = t.select_all();
    assert_eq!(rows[0].book, "b");
    assert!(rows[0].updated_at > 0);
    assert_eq!(rows[0].inserted_at, 0);
    assert_eq!(t.update(6, body("c", "z")), Status::NotFound);
}

#[test]
fn next_stamp_moves_on() {
    assert_eq!(next_stamp(100, 250), 250);
    assert_eq!(next_stamp(100, 100), 101);
    assert_eq!(next_stamp(100, 40), 101);
    assert_eq!(next_stamp(i64::MAX, 5), i64::MAX);
}

#[test]
fn update_with_lagging_clock_still_moves_on() {
    let mut t = QuoteTable::new();
    t.create_from(Quote::stamped(3, "a".to_string(), "x".to_string(), 500)).ok().unwrap();
    assert_eq!(t.update_at(3, body("b", "y"), 200), Status::Success);
    let rows = t.select_all();
    assert_eq!(rows[0].inserted_at, 500);
    assert_eq!(rows[0].updated_at, 501);
    assert_eq!(t.update_at(3, body("c", "z"), 501), Status::Success);
    assert_eq!(t.select_all()[0].updated_at, 502);
}
