use quotes::handler::{
    create_quote, create_with, delete_quote, error_status, heartbeat, parse_id, read_quotes,
    update_quote, update_with, Operation, StoreError,
};
use quotes::model::{CreateQuote, OptionalQuote};
use quotes::store::QuoteStore;

fn hyphenated(id: u128) -> String {
    uuid::Uuid::from_u128(id).hyphenated().to_string()
}

fn simple(id: u128) -> String {
    uuid::Uuid::from_u128(id).simple().to_string()
}

fn dune_payload() -> CreateQuote {
    CreateQuote {
        book: String::from("Dune"),
        quote: String::from("Fear is the mind-killer"),
    }
}

fn quote_text_update(text: &str) -> OptionalQuote {
    OptionalQuote {
        book: None,
        quote: Some(String::from(text)),
    }
}

#[test]
fn heartbeat_reports_ok() {
    assert_eq!(heartbeat(), 200);
}

#[test]
fn create_returns_created_record() {
    let mut store = QuoteStore::new();
    let (code, q) = create_quote(&mut store, dune_payload()).unwrap();
    assert_eq!(code, 201);
    assert_eq!(q.book, "Dune");
    assert_eq!(q.quote, "Fear is the mind-killer");
    assert_eq!(q.inserted_at, q.updated_at);
}

#[test]
fn list_contains_created_record_exactly_once() {
    let mut store = QuoteStore::new();
    let (_, created) = create_quote(&mut store, dune_payload()).unwrap();
    let (code, all) = read_quotes(&store);
    assert_eq!(code, 200);
    let matching: Vec<_> = all.iter().filter(|q| q.id == created.id).collect();
    assert_eq!(matching.len(), 1);
    assert_eq!(matching[0].book, created.book);
    assert_eq!(matching[0].quote, created.quote);
    assert_eq!(matching[0].inserted_at, created.inserted_at);
    assert_eq!(matching[0].updated_at, created.updated_at);
}

#[test]
fn update_changes_quote_and_advances_timestamp() {
    let mut store = QuoteStore::new();
    let id: u128 = 0x1122_3344_5566_7788_99aa_bbcc_ddee_ff00;
    create_with(&mut store, dune_payload(), id, 1_000).unwrap();
    let (code, updated) = update_with(
        &mut store,
        Some(hyphenated(id)),
        quote_text_update("The spice must flow"),
        2_000,
    )
    .unwrap();
    assert_eq!(code, 200);
    assert_eq!(updated.id, id);
    assert_eq!(updated.book, "Dune");
    assert_eq!(updated.quote, "The spice must flow");
    assert_eq!(updated.inserted_at, 1_000);
    assert_eq!(updated.updated_at, 2_000);
    assert!(updated.updated_at > updated.inserted_at);
}

#[test]
fn update_through_clock_keeps_identity_fields() {
    let mut store = QuoteStore::new();
    let (_, created) = create_quote(&mut store, dune_payload()).unwrap();
    let (code, updated) = update_quote(
        &mut store,
        Some(hyphenated(created.id)),
        quote_text_update("The spice must flow"),
    )
    .unwrap();
    assert_eq!(code, 200);
    assert_eq!(updated.id, created.id);
    assert_eq!(updated.book, created.book);
    assert_eq!(updated.quote, "The spice must flow");
    assert_eq!(updated.inserted_at, created.inserted_at);
}

#[test]
fn delete_returns_last_known_state_then_404() {
    let mut store = QuoteStore::new();
    let id: u128 = 77;
    create_with(&mut store, dune_payload(), id, 1_000).unwrap();
    let (code, deleted) = delete_quote(&mut store, Some(hyphenated(id))).unwrap();
    assert_eq!(code, 200);
    assert_eq!(deleted.id, id);
    assert_eq!(deleted.book, "Dune");
    assert_eq!(deleted.quote, "Fear is the mind-killer");
    assert_eq!(deleted.inserted_at, 1_000);
    assert_eq!(deleted.updated_at, 1_000);
    let (_, all) = read_quotes(&store);
    assert!(all.iter().all(|q| q.id != id));
    let second = delete_quote(&mut store, Some(hyphenated(id)));
    assert_eq!(second.unwrap_err(), 404);
}

#[test]
fn update_and_delete_of_unknown_identifier_are_404() {
    let mut store = QuoteStore::new();
    let unused: u128 = 0xdead_beef;
    let r = update_quote(
        &mut store,
        Some(hyphenated(unused)),
        quote_text_update("anything"),
    );
    assert_eq!(r.unwrap_err(), 404);
    let r = delete_quote(&mut store, Some(hyphenated(unused)));
    assert_eq!(r.unwrap_err(), 404);
}

#[test]
fn malformed_identifier_is_400_and_store_untouched() {
    let mut store = QuoteStore::new();
    create_quote(&mut store, dune_payload()).unwrap();
    let r = update_quote(
        &mut store,
        Some(String::from("not-a-uuid")),
        quote_text_update("anything"),
    );
    assert_eq!(r.unwrap_err(), 400);
    let r = delete_quote(&mut store, Some(String::from("not-a-uuid")));
    assert_eq!(r.unwrap_err(), 400);
    let r = update_quote(&mut store, None, quote_text_update("anything"));
    assert_eq!(r.unwrap_err(), 400);
    let r = delete_quote(&mut store, None);
    assert_eq!(r.unwrap_err(), 400);
    let (_, all) = read_quotes(&store);
    assert_eq!(all.len(), 1);
    assert_eq!(all[0].quote, "Fear is the mind-killer");
}

#[test]
fn update_without_quote_text_is_400() {
    let mut store = QuoteStore::new();
    let (_, created) = create_quote(&mut store, dune_payload()).unwrap();
    let r = update_quote(
        &mut store,
        Some(hyphenated(created.id)),
        OptionalQuote { book: Some(String::from("Dune")), quote: None },
    );
    assert_eq!(r.unwrap_err(), 400);
}

#[test]
fn create_with_duplicate_identifier_is_500() {
    let mut store = QuoteStore::new();
    let id: u128 = 9;
    create_with(&mut store, dune_payload(), id, 1_000).unwrap();
    let second = create_with(&mut store, dune_payload(), id, 2_000);
    assert_eq!(second.unwrap_err(), 500);
    let (_, all) = read_quotes(&store);
    assert_eq!(all.len(), 1);
}

#[test]
fn error_status_maps_each_class() {
    assert_eq!(error_status(&Operation::Create, &StoreError::RowNotFound), 500);
    assert_eq!(error_status(&Operation::Create, &StoreError::Database), 500);
    assert_eq!(error_status(&Operation::Create, &StoreError::Unexpected), 500);
    assert_eq!(error_status(&Operation::List, &StoreError::Database), 500);
    assert_eq!(error_status(&Operation::Update, &StoreError::RowNotFound), 404);
    assert_eq!(error_status(&Operation::Update, &StoreError::Database), 500);
    assert_eq!(error_status(&Operation::Update, &StoreError::Unexpected), 418);
    assert_eq!(error_status(&Operation::Delete, &StoreError::RowNotFound), 404);
    assert_eq!(error_status(&Operation::Delete, &StoreError::Database), 500);
    assert_eq!(error_status(&Operation::Delete, &StoreError::Unexpected), 500);
}

#[test]
fn parse_id_reads_uuid_spellings() {
    assert_eq!(
        parse_id(&Some(String::from("00000000-0000-0000-0000-000000000007"))),
        Ok(7)
    );
    assert_eq!(parse_id(&None), Err(400));
    assert_eq!(parse_id(&Some(String::from(""))), Err(400));
    assert_eq!(parse_id(&Some(String::from("zzzzzzzz-0000-0000-0000-000000000007"))), Err(400));
}

#[test]
fn simple_spelling_reaches_the_same_record() {
    let mut store = QuoteStore::new();
    let id: u128 = 0xabc0_1234_5678_9abc_def0_1234_5678_9abc;
    create_with(&mut store, dune_payload(), id, 1_000).unwrap();
    let (code, deleted) = delete_quote(&mut store, Some(simple(id))).unwrap();
    assert_eq!(code, 200);
    assert_eq!(deleted.id, id);
}

#[test]
fn fresh_identifiers_are_distinct_and_clock_runs() {
    let mut store = QuoteStore::new();
    let (_, first) = create_quote(&mut store, dune_payload()).unwrap();
    let (_, second) = create_quote(&mut store, dune_payload()).unwrap();
    assert_ne!(first.id, second.id);
    assert!(first.inserted_at > 0);
}

#[test]
fn full_scenario() {
    let mut store = QuoteStore::new();
    let (code, created) = create_quote(&mut store, dune_payload()).unwrap();
    assert_eq!(code, 201);
    assert_eq!(created.inserted_at, created.updated_at);

    let (code, all) = read_quotes(&store);
    assert_eq!(code, 200);
    assert!(all.iter().any(|q| q.id == created.id));

    let (code, updated) = update_with(
        &mut store,
        Some(hyphenated(created.id)),
        quote_text_update("The spice must flow"),
        created.updated_at + 1,
    )
    .unwrap();
    assert_eq!(code, 200);
    assert_eq!(updated.quote, "The spice must flow");
    assert!(updated.updated_at > created.updated_at);
    assert_eq!(updated.book, created.book);

    let (code, deleted) = delete_quote(&mut store, Some(hyphenated(created.id))).unwrap();
    assert_eq!(code, 200);
    assert_eq!(deleted.id, updated.id);
    assert_eq!(deleted.book, updated.book);
    assert_eq!(deleted.quote, updated.quote);
    assert_eq!(deleted.inserted_at, updated.inserted_at);
    assert_eq!(deleted.updated_at, updated.updated_at);

    let (code, all) = read_quotes(&store);
    assert_eq!(code, 200);
    assert!(all.iter().all(|q| q.id != created.id));

    let r = update_quote(
        &mut store,
        Some(hyphenated(created.id)),
        quote_text_update("anything"),
    );
    assert_eq!(r.unwrap_err(), 404);
}
