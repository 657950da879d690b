//! The library's laws: properties that relate the handlers across calls,
//! stated over the same views and spec functions that the handlers' own
//! contracts use. Create ensures the new store view is `old.push(q)`; update
//! ensures it is `old.update(i, with_new_text(..))`; delete ensures it is
//! `old.remove(i)`; list returns the store view itself. The laws below speak
//! of those transitions.

use crate::model::{contains_id, index_of_id, unique_ids, with_new_text, QuoteModel};
use vstd::prelude::*;

verus! {

/// Create then list: after a successful create of `q` into a well-formed
/// store that did not hold `q`'s identifier, the listed sequence holds
/// exactly one quote with that identifier, and that quote is `q` itself —
/// its book and quote text are the created ones, and whatever holds of `q`'s
/// timestamps (for a fresh create, that they are equal) holds of the listed
/// record, byte for byte.
pub proof fn lemma_create_then_list(s: Seq<QuoteModel>, q: QuoteModel)
    requires
        unique_ids(s),
        !contains_id(s, q.id),
    ensures
        unique_ids(s.push(q)),
        contains_id(s.push(q), q.id),
        forall|i: int|
            0 <= i < s.push(q).len() && s.push(q)[i].id == q.id ==> s.push(q)[i] == q,
{
    let s2 = s.push(q);
    assert(s2[s.len() as int] == q);
    assert forall|i: int| 0 <= i < s2.len() && s2[i].id == q.id implies s2[i] == q by {
        if i < s.len() {
            assert(s[i].id == q.id);
            assert(contains_id(s, q.id));
        }
    }
    assert forall|i: int, j: int|
        0 <= i < s2.len() && 0 <= j < s2.len() && i != j implies s2[i].id != s2[j].id by {
        if i < s.len() && j < s.len() {
            assert(s[i].id != s[j].id);
        } else if i < s.len() {
            assert(s2[j] == q);
            if s[i].id == q.id {
                assert(contains_id(s, q.id));
            }
        } else {
            assert(s2[i] == q);
            if j < s.len() && s[j].id == q.id {
                assert(contains_id(s, q.id));
            }
        }
    }
}

/// Round trip: the record that a list after a successful create finds under
/// the created identifier is the created record itself, every field.
pub proof fn lemma_create_roundtrip(s: Seq<QuoteModel>, q: QuoteModel)
    requires
        unique_ids(s),
        !contains_id(s, q.id),
    ensures
        s.push(q)[index_of_id(s.push(q), q.id)] == q,
{
    lemma_create_then_list(s, q);
    let s2 = s.push(q);
    assert(s2[s.len() as int] == q);
    assert(s2[index_of_id(s2, q.id)].id == q.id && 0 <= index_of_id(s2, q.id) < s2.len());
}

/// Update: replacing the quote text of the stored record under `id` with a
/// strictly later instant changes the quote text to the new one and advances
/// the update timestamp strictly, while identifier, book and creation
/// timestamp stay untouched; the store stays well-formed and every other
/// record is untouched.
pub proof fn lemma_update_advances(s: Seq<QuoteModel>, id: u128, text: Seq<char>, now: i64)
    requires
        unique_ids(s),
        contains_id(s, id),
        now > s[index_of_id(s, id)].updated_at,
    ensures
        ({
            let i = index_of_id(s, id);
            let q2 = with_new_text(s[i], text, now);
            &&& 0 <= i < s.len() && s[i].id == id
            &&& q2.id == s[i].id
            &&& q2.book == s[i].book
            &&& q2.inserted_at == s[i].inserted_at
            &&& q2.quote == text
            &&& q2.updated_at > s[i].updated_at
            &&& unique_ids(s.update(i, q2))
            &&& forall|j: int| 0 <= j < s.len() && j != i ==> s.update(i, q2)[j] == s[j]
        }),
{
    let i = index_of_id(s, id);
    assert(0 <= i < s.len() && s[i].id == id);
    let q2 = with_new_text(s[i], text, now);
    let s2 = s.update(i, q2);
    assert forall|a: int, b: int|
        0 <= a < s2.len() && 0 <= b < s2.len() && a != b implies s2[a].id != s2[b].id by {
        assert(s2[a].id == s[a].id);
        assert(s2[b].id == s[b].id);
    }
}

/// Delete is idempotent in effect but not in response: once the record under
/// `id` is removed, no record with that identifier is left, so a second
/// delete of the same identifier finds nothing — by delete's own contract it
/// answers 404, while the first answered 200 with the removed record.
pub proof fn lemma_delete_then_gone(s: Seq<QuoteModel>, id: u128)
    requires
        unique_ids(s),
        contains_id(s, id),
    ensures
        ({
            let i = index_of_id(s, id);
            &&& 0 <= i < s.len() && s[i].id == id
            &&& unique_ids(s.remove(i))
            &&& !contains_id(s.remove(i), id)
        }),
{
    let i = index_of_id(s, id);
    assert(0 <= i < s.len() && s[i].id == id);
    let s2 = s.remove(i);
    assert forall|a: int, b: int|
        0 <= a < s2.len() && 0 <= b < s2.len() && a != b implies s2[a].id != s2[b].id by {
        let a0 = if a < i { a } else { a + 1 };
        let b0 = if b < i { b } else { b + 1 };
        assert(s2[a] == s[a0]);
        assert(s2[b] == s[b0]);
    }
    assert forall|k: int| 0 <= k < s2.len() implies s2[k].id != id by {
        let k0 = if k < i { k } else { k + 1 };
        assert(s2[k] == s[k0]);
        assert(k0 != i);
        assert(s[k0].id != s[i].id);
    }
}

} // verus!
