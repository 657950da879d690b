//! The quote resource and its inbound payload shapes, together with the
//! mathematical model that the contracts speak of.

use crate::ext::{fresh_id, now_micros};
use vstd::prelude::*;

verus! {

/// The mathematical value of a stored quote: its identifier, its two text
/// fields as character sequences, and its two timestamps in microseconds
/// since the Unix epoch.
pub ghost struct QuoteModel {
    pub id: u128,
    pub book: Seq<char>,
    pub quote: Seq<char>,
    pub inserted_at: i64,
    pub updated_at: i64,
}

/// The persisted quote entity: a book attribution plus quoted text with a
/// unique identifier and creation/update timestamps (UTC, microseconds since
/// the Unix epoch).
#[derive(Debug)]
pub struct Quote {
    pub id: u128,
    pub book: String,
    pub quote: String,
    pub inserted_at: i64,
    pub updated_at: i64,
}

impl View for Quote {
    type V = QuoteModel;

    open spec fn view(&self) -> QuoteModel {
        QuoteModel {
            id: self.id,
            book: self.book@,
            quote: self.quote@,
            inserted_at: self.inserted_at,
            updated_at: self.updated_at,
        }
    }
}

impl Clone for Quote {
    fn clone(&self) -> (res: Quote)
        ensures
            res == *self,
    {
        Quote {
            id: self.id,
            book: self.book.clone(),
            quote: self.quote.clone(),
            inserted_at: self.inserted_at,
            updated_at: self.updated_at,
        }
    }
}

impl Quote {
    /// Builds a fresh quote: a newly generated random identifier, the given
    /// texts, and both timestamps stamped to one single clock read.
    pub fn new(book: String, quote: String) -> (q: Quote)
        ensures
            q@.book == book@,
            q@.quote == quote@,
            q@.inserted_at == q@.updated_at,
    {
        let now: i64 = now_micros();
        Quote { id: fresh_id(), book, quote, inserted_at: now, updated_at: now }
    }
}

/// The create payload: both texts are required.
#[derive(Debug)]
pub struct CreateQuote {
    pub book: String,
    pub quote: String,
}

/// The update payload: each text may be absent. Only the quote text is
/// persisted; an absent quote text is rejected rather than bound as null.
#[derive(Debug)]
pub struct OptionalQuote {
    pub book: Option<String>,
    pub quote: Option<String>,
}

/// Whether some quote in `s` carries the identifier `id`.
pub open spec fn contains_id(s: Seq<QuoteModel>, id: u128) -> bool {
    exists|i: int| 0 <= i < s.len() && s[i].id == id
}

/// Whether no two quotes in `s` share an identifier.
pub open spec fn unique_ids(s: Seq<QuoteModel>) -> bool {
    forall|i: int, j: int|
        0 <= i < s.len() && 0 <= j < s.len() && i != j ==> s[i].id != s[j].id
}

/// An index at which `s` carries the identifier `id` (the index, when the
/// identifiers in `s` are unique).
pub open spec fn index_of_id(s: Seq<QuoteModel>, id: u128) -> int {
    choose|i: int| 0 <= i < s.len() && s[i].id == id
}

/// `q` with its quote text replaced and its update timestamp refreshed;
/// identifier, book and creation timestamp are untouched.
pub open spec fn with_new_text(q: QuoteModel, text: Seq<char>, now: i64) -> QuoteModel {
    QuoteModel { quote: text, updated_at: now, ..q }
}

/// The models of a sequence of quotes.
pub open spec fn models(s: Seq<Quote>) -> Seq<QuoteModel> {
    s.map_values(|q: Quote| q@)
}

} // verus!
