//! Laws that relate the store's operations to one another.
//!
//! Each proof function below states one property of the catalogue as a
//! whole, over the same model the operations' contracts use, so a
//! reader sees it written down rather than left to follow from the
//! contracts.

use vstd::prelude::*;
use crate::product::{ProductModel, with_id};
use crate::seed::seed_products;
use crate::store::{
    contains_id, first_index, record_with_id, lemma_first_index, lemma_first_index_of,
};

verus! {

/// Immediately after start the catalogue holds exactly the ten seeded
/// records, in their original order, with identifiers one to ten.
pub proof fn lemma_seed_catalogue()
    ensures
        seed_products().len() == 10,
        forall|k: int| 0 <= k < 10 ==> (#[trigger] seed_products()[k]).id == k + 1,
{
    assert forall|k: int| 0 <= k < 10 implies (#[trigger] seed_products()[k]).id == k + 1 by {
        if k == 0 {
            assert(seed_products()[0].id == 1);
        } else if k == 1 {
            assert(seed_products()[1].id == 2);
        } else if k == 2 {
            assert(seed_products()[2].id == 3);
        } else if k == 3 {
            assert(seed_products()[3].id == 4);
        } else if k == 4 {
            assert(seed_products()[4].id == 5);
        } else if k == 5 {
            assert(seed_products()[5].id == 6);
        } else if k == 6 {
            assert(seed_products()[6].id == 7);
        } else if k == 7 {
            assert(seed_products()[7].id == 8);
        } else if k == 8 {
            assert(seed_products()[8].id == 9);
        } else {
            assert(seed_products()[9].id == 10);
        }
    }
}

/// Round trip: create then fetch.  When the identifier the server
/// assigns is not yet in the collection, fetching it right after the
/// create finds exactly the stored record, whose fields other than the
/// identifier are byte-for-byte the submitted ones.  (After deletions
/// the assigned identifier can collide with a stored one — the
/// assignment scheme is the collection length plus two — and the fetch
/// then finds the earlier record instead; such states are excluded
/// here.)
pub proof fn lemma_create_then_get(s: Seq<ProductModel>, p: ProductModel)
    requires
        !contains_id(s, s.len() as int + 2),
    ensures
        ({
            let stored = with_id(p, s.len() as int + 2);
            let after = s.push(stored);
            &&& contains_id(after, stored.id)
            &&& record_with_id(after, stored.id) == stored
        }),
{
    let stored = with_id(p, s.len() as int + 2);
    let after = s.push(stored);
    assert(after[s.len() as int] == stored);
    assert(contains_id(after, stored.id));
    assert forall|k: int| 0 <= k < s.len() implies (#[trigger] after[k]).id != stored.id by {
        assert(after[k] == s[k]);
        assert(s[k].id != stored.id);
    }
    lemma_first_index_of(after, stored.id, s.len() as int);
}

/// Updating an existing identifier replaces the first record that
/// carries it and nothing else: the length is unchanged and every
/// other record keeps its place and its fields.
pub proof fn lemma_update_preserves_others(s: Seq<ProductModel>, p: ProductModel)
    requires
        contains_id(s, p.id),
    ensures
        ({
            let i = first_index(s, p.id);
            let after = s.update(i, p);
            &&& after.len() == s.len()
            &&& after[i] == p
            &&& forall|k: int| 0 <= k < s.len() && k != i ==> after[k] == s[k]
        }),
{
    lemma_first_index(s, p.id);
}

/// Deleting an identifier that exactly one record carries shortens the
/// catalogue by exactly one, and a subsequent fetch of that identifier
/// fails: no record carries it any more.  (A catalogue can come to hold
/// the same identifier twice — a create after deletions can duplicate
/// one — and deleting then removes only the first carrier, so the
/// identifier would still be found; such states are excluded here.)
pub proof fn lemma_delete_then_get(s: Seq<ProductModel>, id: int)
    requires
        contains_id(s, id),
        forall|j: int, k: int|
            #![trigger s[j], s[k]]
            0 <= j < k < s.len() ==> !(s[j].id == id && s[k].id == id),
    ensures
        s.remove(first_index(s, id)).len() == s.len() - 1,
        !contains_id(s.remove(first_index(s, id)), id),
{
    lemma_first_index(s, id);
    let i = first_index(s, id);
    let after = s.remove(i);
    assert forall|k: int| 0 <= k < after.len() implies (#[trigger] after[k]).id != id by {
        if k < i {
            assert(after[k] == s[k]);
        } else {
            assert(after[k] == s[k + 1]);
            assert(!(s[i].id == id && s[k + 1].id == id));
        }
    }
}

} // verus!
