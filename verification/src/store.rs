//! The in-memory quote table: the single source of truth between requests,
//! standing for the relational store's one table. It exposes exactly the
//! operations the handlers need: insert, snapshot, update-by-identifier and
//! remove-by-identifier, each a single atomic step.

use crate::model::{contains_id, index_of_id, models, unique_ids, with_new_text, Quote,
    QuoteModel};
use vstd::prelude::*;

verus! {

/// The quote table. Its view is the sequence of stored quote models; its
/// invariant is that identifiers are unique, as the primary key demands.
pub struct QuoteStore {
    quotes: Vec<Quote>,
}

impl View for QuoteStore {
    type V = Seq<QuoteModel>;

    closed spec fn view(&self) -> Seq<QuoteModel> {
        models(self.quotes@)
    }
}

impl QuoteStore {
    /// The table's invariant: no two rows share an identifier.
    pub open spec fn wf(&self) -> bool {
        unique_ids(self@)
    }

    /// An empty table.
    pub fn new() -> (s: QuoteStore)
        ensures
            s@ == Seq::<QuoteModel>::empty(),
            s.wf(),
    {
        let s = QuoteStore { quotes: Vec::new() };
        proof {
            assert(s@ =~= Seq::<QuoteModel>::empty());
        }
        s
    }

    /// The index of the row carrying `id`, if there is one.
    fn position_of(&self, id: u128) -> (r: Option<usize>)
        ensures
            match r {
                Some(i) => i < self@.len() && self@[i as int].id == id,
                None => !contains_id(self@, id),
            },
    {
        let mut i: usize = 0;
        while i < self.quotes.len()
            invariant
                i <= self.quotes.len(),
                forall|j: int| 0 <= j < i ==> self@[j].id != id,
            decreases self.quotes.len() - i,
        {
            if self.quotes[i].id == id {
                assert(self@[i as int].id == id);
                return Some(i);
            }
            i += 1;
        }
        None
    }

    /// Inserts `q` as a new row. Succeeds exactly when no row already carries
    /// `q`'s identifier; on the duplicate it leaves the table untouched, as
    /// the primary-key constraint would.
    pub fn insert(&mut self, q: Quote) -> (r: bool)
        requires
            old(self).wf(),
        ensures
            final(self).wf(),
            r == !contains_id(old(self)@, q@.id),
            r ==> final(self)@ == old(self)@.push(q@),
            !r ==> final(self)@ == old(self)@,
    {
        match self.position_of(q.id) {
            Some(_) => false,
            None => {
                let ghost pre = self@;
                self.quotes.push(q);
                proof {
                    assert(self@ =~= pre.push(q@));
                }
                true
            },
        }
    }

    /// A copy of every row, in table order.
    pub fn snapshot(&self) -> (r: Vec<Quote>)
        ensures
            models(r@) == self@,
    {
        let mut out: Vec<Quote> = Vec::new();
        let mut i: usize = 0;
        while i < self.quotes.len()
            invariant
                i <= self.quotes.len(),
                out@.len() == i as int,
                forall|k: int| 0 <= k < i ==> out@[k]@ == self@[k],
            decreases self.quotes.len() - i,
        {
            out.push(self.quotes[i].clone());
            i += 1;
        }
        proof {
            assert(models(out@) =~= self@);
        }
        out
    }

    /// Replaces the quote text and update timestamp of the row carrying `id`,
    /// returning a copy of the row as updated, or `None` when no row matches.
    pub fn update_text(&mut self, id: u128, text: String, now: i64) -> (r: Option<Quote>)
        requires
            old(self).wf(),
        ensures
            final(self).wf(),
            r is None <==> !contains_id(old(self)@, id),
            r is None ==> final(self)@ == old(self)@,
            r matches Some(q) ==> {
                let i = index_of_id(old(self)@, id);
                &&& 0 <= i < old(self)@.len()
                &&& q@ == with_new_text(old(self)@[i], text@, now)
                &&& final(self)@ == old(self)@.update(i, q@)
            },
    {
        match self.position_of(id) {
            None => None,
            Some(i) => {
                let ghost pre = self@;
                let row = &self.quotes[i];
                let updated = Quote {
                    id: row.id,
                    book: row.book.clone(),
                    quote: text,
                    inserted_at: row.inserted_at,
                    updated_at: now,
                };
                let copy = updated.clone();
                self.quotes.set(i, updated);
                proof {
                    assert(pre[i as int].id == id);
                    assert(index_of_id(pre, id) == i as int);
                    assert(self@ =~= pre.update(i as int, copy@));
                }
                Some(copy)
            },
        }
    }

    /// Removes the row carrying `id`, returning its last-known state, or
    /// `None` when no row matches.
    pub fn remove_by_id(&mut self, id: u128) -> (r: Option<Quote>)
        requires
            old(self).wf(),
        ensures
            final(self).wf(),
            r is None <==> !contains_id(old(self)@, id),
            r is None ==> final(self)@ == old(self)@,
            r matches Some(q) ==> {
                let i = index_of_id(old(self)@, id);
                &&& 0 <= i < old(self)@.len()
                &&& q@ == old(self)@[i]
                &&& final(self)@ == old(self)@.remove(i)
            },
    {
        match self.position_of(id) {
            None => None,
            Some(i) => {
                let ghost pre = self@;
                let removed = self.quotes.remove(i);
                proof {
                    assert(pre[i as int].id == id);
                    assert(index_of_id(pre, id) == i as int);
                    assert(self@ =~= pre.remove(i as int));
                }
                Some(removed)
            },
        }
    }
}

} // verus!
