//! The request handlers: one per HTTP verb on the quote resource, plus the
//! liveness probe. Each validates its input, applies one store operation, and
//! maps the outcome to an HTTP status code and response body.
//!
//! The random identifier and the clock instant that create and update stamp
//! come from the outside world, so each handler has a deterministic core
//! (`create_with`, `update_with`) that takes them as arguments and carries
//! the exact contract; the handler itself reads them and states what holds
//! whatever values came back.

use crate::ext::{fresh_id, now_micros, parse_uuid, uuid_of};
use crate::model::{contains_id, index_of_id, models, with_new_text, CreateQuote, OptionalQuote,
    Quote};
use crate::store::QuoteStore;
use vstd::prelude::*;

verus! {

pub const STATUS_OK: u16 = 200;

pub const STATUS_CREATED: u16 = 201;

pub const STATUS_BAD_REQUEST: u16 = 400;

pub const STATUS_NOT_FOUND: u16 = 404;

pub const STATUS_IM_A_TEAPOT: u16 = 418;

pub const STATUS_INTERNAL_SERVER_ERROR: u16 = 500;

/// The liveness probe: always reports success, with no body.
pub fn heartbeat() -> (r: u16)
    ensures
        r == STATUS_OK,
{
    STATUS_OK
}

/// The classes of failure a relational store reports: no row matched, a
/// structured database failure (constraint, connectivity), or a failure of no
/// recognized class.
pub enum StoreError {
    RowNotFound,
    Database,
    Unexpected,
}

/// The operation whose failure is being mapped to a status code.
pub enum Operation {
    Create,
    List,
    Update,
    Delete,
}

/// Maps a store failure to the HTTP status each operation answers with:
/// create and list collapse every failure to 500; update and delete answer
/// 404 when no row matched; update alone distinguishes an unrecognized
/// failure class with 418.
pub fn error_status(op: &Operation, e: &StoreError) -> (r: u16)
    ensures
        match op {
            Operation::Create | Operation::List => r == STATUS_INTERNAL_SERVER_ERROR,
            Operation::Update => match e {
                StoreError::RowNotFound => r == STATUS_NOT_FOUND,
                StoreError::Database => r == STATUS_INTERNAL_SERVER_ERROR,
                StoreError::Unexpected => r == STATUS_IM_A_TEAPOT,
            },
            Operation::Delete => match e {
                StoreError::RowNotFound => r == STATUS_NOT_FOUND,
                _ => r == STATUS_INTERNAL_SERVER_ERROR,
            },
        },
{
    match op {
        Operation::Create | Operation::List => STATUS_INTERNAL_SERVER_ERROR,
        Operation::Update => match e {
            StoreError::RowNotFound => STATUS_NOT_FOUND,
            StoreError::Database => STATUS_INTERNAL_SERVER_ERROR,
            StoreError::Unexpected => STATUS_IM_A_TEAPOT,
        },
        Operation::Delete => match e {
            StoreError::RowNotFound => STATUS_NOT_FOUND,
            StoreError::Database | StoreError::Unexpected => STATUS_INTERNAL_SERVER_ERROR,
        },
    }
}

/// The two-step identifier check shared by update and delete: the parameter
/// must be present, and must parse as a unique identifier; either failure is
/// answered with 400 before the store is touched.
pub fn parse_id(id_param: &Option<String>) -> (r: Result<u128, u16>)
    ensures
        match id_param {
            None => r == Err::<u128, u16>(STATUS_BAD_REQUEST),
            Some(s) => match uuid_of(s@) {
                None => r == Err::<u128, u16>(STATUS_BAD_REQUEST),
                Some(id) => r == Ok::<u128, u16>(id),
            },
        },
{
    match id_param {
        None => Err(STATUS_BAD_REQUEST),
        Some(s) => match parse_uuid(s) {
            None => Err(STATUS_BAD_REQUEST),
            Some(id) => Ok(id),
        },
    }
}

/// The deterministic core of create: inserts a quote built from the payload,
/// the given identifier and the given instant. Succeeds with 201 and the
/// created record exactly when the identifier is not yet in use; a collision
/// is the primary-key violation, answered with 500 and no change.
pub fn create_with(store: &mut QuoteStore, payload: CreateQuote, id: u128, now: i64) -> (r:
    Result<(u16, Quote), u16>)
    requires
        old(store).wf(),
    ensures
        final(store).wf(),
        contains_id(old(store)@, id) ==> r == Err::<(u16, Quote), u16>(
            STATUS_INTERNAL_SERVER_ERROR,
        ) && final(store)@ == old(store)@,
        !contains_id(old(store)@, id) ==> {
            &&& r matches Ok(p)
            &&& p.0 == STATUS_CREATED
            &&& p.1@.id == id
            &&& p.1@.book == payload.book@
            &&& p.1@.quote == payload.quote@
            &&& p.1@.inserted_at == now
            &&& p.1@.updated_at == now
            &&& final(store)@ == old(store)@.push(p.1@)
        },
{
    let q = Quote {
        id,
        book: payload.book,
        quote: payload.quote,
        inserted_at: now,
        updated_at: now,
    };
    let copy = q.clone();
    if store.insert(q) {
        Ok((STATUS_CREATED, copy))
    } else {
        Err(STATUS_INTERNAL_SERVER_ERROR)
    }
}

/// Create: builds a new quote from the payload with a fresh random
/// identifier and one clock read, and inserts it. On success the answer is
/// 201 with the full created record, both timestamps equal; if the generated
/// identifier collides with one in use, the answer is 500 and the store is
/// untouched. A collision is the only failure, so on an empty store the
/// operation succeeds.
pub fn create_quote(store: &mut QuoteStore, payload: CreateQuote) -> (r: Result<(u16, Quote),
    u16>)
    requires
        old(store).wf(),
    ensures
        final(store).wf(),
        r matches Ok(p) ==> {
            &&& p.0 == STATUS_CREATED
            &&& p.1@.book == payload.book@
            &&& p.1@.quote == payload.quote@
            &&& p.1@.inserted_at == p.1@.updated_at
            &&& !contains_id(old(store)@, p.1@.id)
            &&& final(store)@ == old(store)@.push(p.1@)
        },
        r matches Err(code) ==> code == STATUS_INTERNAL_SERVER_ERROR && final(store)@ == old(
            store,
        )@,
        r is Err ==> old(store)@.len() > 0,
{
    let id = fresh_id();
    let now = now_micros();
    create_with(store, payload, id, now)
}

/// List: answers 200 with every stored quote, in table order.
pub fn read_quotes(store: &QuoteStore) -> (r: (u16, Vec<Quote>))
    ensures
        r.0 == STATUS_OK,
        models(r.1@) == store@,
{
    (STATUS_OK, store.snapshot())
}

/// The deterministic core of update: validates the identifier parameter and
/// the payload, then replaces the matched row's quote text and update
/// timestamp with the given instant. Missing or unparsable identifier, or an
/// absent quote text, is answered with 400; an identifier matching no row
/// with 404; otherwise 200 with the row as updated. The store changes only
/// in the 200 case.
pub fn update_with(store: &mut QuoteStore, id_param: Option<String>, payload: OptionalQuote,
    now: i64) -> (r: Result<(u16, Quote), u16>)
    requires
        old(store).wf(),
    ensures
        final(store).wf(),
        r is Err ==> final(store)@ == old(store)@,
        match id_param {
            None => r == Err::<(u16, Quote), u16>(STATUS_BAD_REQUEST),
            Some(s) => match uuid_of(s@) {
                None => r == Err::<(u16, Quote), u16>(STATUS_BAD_REQUEST),
                Some(id) => match payload.quote {
                    None => r == Err::<(u16, Quote), u16>(STATUS_BAD_REQUEST),
                    Some(text) => {
                        if contains_id(old(store)@, id) {
                            let i = index_of_id(old(store)@, id);
                            &&& r matches Ok(p)
                            &&& p.0 == STATUS_OK
                            &&& p.1@ == with_new_text(old(store)@[i], text@, now)
                            &&& final(store)@ == old(store)@.update(i, p.1@)
                        } else {
                            r == Err::<(u16, Quote), u16>(STATUS_NOT_FOUND)
                        }
                    },
                },
            },
        },
{
    let id = match parse_id(&id_param) {
        Ok(id) => id,
        Err(code) => {
            return Err(code);
        },
    };
    let text = match payload.quote {
        Some(text) => text,
        None => {
            return Err(STATUS_BAD_REQUEST);
        },
    };
    match store.update_text(id, text, now) {
        Some(q) => Ok((STATUS_OK, q)),
        None => Err(STATUS_NOT_FOUND),
    }
}

/// Update: validates as `update_with` does, then replaces the matched row's
/// quote text, stamping the update timestamp from one clock read. Identifier,
/// book and creation timestamp of the row are untouched; the store changes
/// only in the 200 case.
pub fn update_quote(store: &mut QuoteStore, id_param: Option<String>, payload: OptionalQuote)
    -> (r: Result<(u16, Quote), u16>)
    requires
        old(store).wf(),
    ensures
        final(store).wf(),
        r is Err ==> final(store)@ == old(store)@,
        match id_param {
            None => r == Err::<(u16, Quote), u16>(STATUS_BAD_REQUEST),
            Some(s) => match uuid_of(s@) {
                None => r == Err::<(u16, Quote), u16>(STATUS_BAD_REQUEST),
                Some(id) => match payload.quote {
                    None => r == Err::<(u16, Quote), u16>(STATUS_BAD_REQUEST),
                    Some(text) => {
                        if contains_id(old(store)@, id) {
                            let i = index_of_id(old(store)@, id);
                            &&& r matches Ok(p)
                            &&& p.0 == STATUS_OK
                            &&& p.1@.id == old(store)@[i].id
                            &&& p.1@.book == old(store)@[i].book
                            &&& p.1@.quote == text@
                            &&& p.1@.inserted_at == old(store)@[i].inserted_at
                            &&& final(store)@ == old(store)@.update(i, p.1@)
                        } else {
                            r == Err::<(u16, Quote), u16>(STATUS_NOT_FOUND)
                        }
                    },
                },
            },
        },
{
    let now = now_micros();
    update_with(store, id_param, payload, now)
}

/// Delete: validates the identifier parameter in the same two steps as
/// update, then removes the matched row. Missing or unparsable identifier is
/// answered with 400; an identifier matching no row with 404; otherwise 200
/// with the removed row's last-known state. The store changes only in the
/// 200 case.
pub fn delete_quote(store: &mut QuoteStore, id_param: Option<String>) -> (r: Result<(u16,
    Quote), u16>)
    requires
        old(store).wf(),
    ensures
        final(store).wf(),
        r is Err ==> final(store)@ == old(store)@,
        match id_param {
            None => r == Err::<(u16, Quote), u16>(STATUS_BAD_REQUEST),
            Some(s) => match uuid_of(s@) {
                None => r == Err::<(u16, Quote), u16>(STATUS_BAD_REQUEST),
                Some(id) => {
                    if contains_id(old(store)@, id) {
                        let i = index_of_id(old(store)@, id);
                        &&& r matches Ok(p)
                        &&& p.0 == STATUS_OK
                        &&& p.1@ == old(store)@[i]
                        &&& final(store)@ == old(store)@.remove(i)
                    } else {
                        r == Err::<(u16, Quote), u16>(STATUS_NOT_FOUND)
                    }
                },
            },
        },
{
    let id = match parse_id(&id_param) {
        Ok(id) => id,
        Err(code) => {
            return Err(code);
        },
    };
    match store.remove_by_id(id) {
        Some(q) => Ok((STATUS_OK, q)),
        None => Err(STATUS_NOT_FOUND),
    }
}

} // verus!
