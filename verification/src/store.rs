//! The product store: an ordered in-memory collection of records.
//!
//! Lookups scan for the first record whose identifier matches, so the
//! model below pins down both membership (`contains_id`) and the index
//! the scan stops at (`first_index`).

use vstd::prelude::*;
use crate::product::{Product, ProductModel, with_id};

verus! {

/// Whether some stored record carries the identifier.
pub open spec fn contains_id(s: Seq<ProductModel>, id: int) -> bool {
    exists|k: int| 0 <= k < s.len() && s[k].id == id
}

/// The index of the first record carrying the identifier (meaningful
/// only when one is present).
pub open spec fn first_index(s: Seq<ProductModel>, id: int) -> int
    decreases s.len(),
{
    if s.len() == 0 {
        0
    } else if s[0].id == id {
        0
    } else {
        1 + first_index(s.subrange(1, s.len() as int), id)
    }
}

/// The first record carrying the identifier.
pub open spec fn record_with_id(s: Seq<ProductModel>, id: int) -> ProductModel {
    s[first_index(s, id)]
}

/// When a record with the identifier is present, `first_index` points
/// at the first of them: it is in range, carries the identifier, and no
/// earlier record does.
pub proof fn lemma_first_index(s: Seq<ProductModel>, id: int)
    requires
        contains_id(s, id),
    ensures
        0 <= first_index(s, id) < s.len(),
        s[first_index(s, id)].id == id,
        forall|k: int| 0 <= k < first_index(s, id) ==> s[k].id != id,
    decreases s.len(),
{
    if s.len() == 0 {
    } else if s[0].id == id {
    } else {
        let t = s.subrange(1, s.len() as int);
        let w = choose|k: int| 0 <= k < s.len() && s[k].id == id;
        assert(t[w - 1] == s[w]);
        assert(contains_id(t, id));
        lemma_first_index(t, id);
        let i = first_index(t, id);
        assert(s[1 + i] == t[i]);
        assert forall|k: int| 0 <= k < 1 + i implies s[k].id != id by {
            if k > 0 {
                assert(t[k - 1] == s[k]);
            }
        }
    }
}

/// The scan's characterisation the other way round: if index `i`
/// carries the identifier and no earlier index does, the first index is
/// exactly `i`.
pub proof fn lemma_first_index_of(s: Seq<ProductModel>, id: int, i: int)
    requires
        0 <= i < s.len(),
        s[i].id == id,
        forall|k: int| 0 <= k < i ==> s[k].id != id,
    ensures
        first_index(s, id) == i,
    decreases s.len(),
{
    if i == 0 {
    } else {
        assert(s[0].id != id);
        let t = s.subrange(1, s.len() as int);
        assert(t[i - 1] == s[i]);
        assert forall|k: int| 0 <= k < i - 1 implies t[k].id != id by {
            assert(t[k] == s[k + 1]);
        }
        lemma_first_index_of(t, id, i - 1);
    }
}

/// The shared collection of product records.  Its view is the sequence
/// of record models, in storage order.
pub struct ProductStore {
    products: Vec<Product>,
}

impl View for ProductStore {
    type V = Seq<ProductModel>;

    closed spec fn view(&self) -> Seq<ProductModel> {
        self.products@.map(|i: int, p: Product| p@)
    }
}

impl ProductStore {
    /// An empty store.
    pub fn new() -> (s: ProductStore)
        ensures
            s@ == Seq::<ProductModel>::empty(),
    {
        let s = ProductStore { products: Vec::new() };
        proof {
            assert(s@ =~= Seq::<ProductModel>::empty());
        }
        s
    }

    /// How many records are stored.
    pub fn len(&self) -> (n: usize)
        ensures
            n == self@.len(),
    {
        self.products.len()
    }

    /// The index of the first record with this identifier, if any.
    fn find_index(&self, product_id: i32) -> (r: Option<usize>)
        ensures
            match r {
                Some(i) => contains_id(self@, product_id as int) && i == first_index(
                    self@,
                    product_id as int,
                ),
                None => !contains_id(self@, product_id as int),
            },
    {
        let n = self.products.len();
        let mut j: usize = 0;
        while j < n
            invariant
                n == self@.len(),
                j <= n,
                forall|k: int| 0 <= k < j ==> self@[k].id != product_id as int,
            decreases n - j,
        {
            if self.products[j].id == product_id {
                proof {
                    assert(self@[j as int].id == product_id as int);
                    lemma_first_index_of(self@, product_id as int, j as int);
                }
                return Some(j);
            }
            j = j + 1;
        }
        None
    }

    /// Append a record as it stands, keeping its identifier.  Only the
    /// seed data uses this; every client-driven insertion goes through
    /// `create`, which assigns the identifier itself.
    pub(crate) fn push_record(&mut self, p: Product)
        ensures
            final(self)@ == old(self)@.push(p@),
    {
        self.products.push(p);
        proof {
            assert(self@ =~= old(self)@.push(p@));
        }
    }

    /// Copies of all records, in storage order.
    pub fn list(&self) -> (r: Vec<Product>)
        ensures
            r@.len() == self@.len(),
            forall|k: int| 0 <= k < self@.len() ==> r@[k]@ == self@[k],
    {
        let n = self.products.len();
        let mut out: Vec<Product> = Vec::new();
        let mut j: usize = 0;
        while j < n
            invariant
                n == self@.len(),
                j <= n,
                out@.len() == j,
                forall|k: int| 0 <= k < j ==> out@[k]@ == self@[k],
            decreases n - j,
        {
            out.push(self.products[j].duplicate());
            j = j + 1;
        }
        out
    }

    /// A copy of the first record with this identifier, or `None` when
    /// no record carries it.
    pub fn get(&self, product_id: i32) -> (r: Option<Product>)
        ensures
            match r {
                Some(p) => contains_id(self@, product_id as int) && p@ == record_with_id(
                    self@,
                    product_id as int,
                ),
                None => !contains_id(self@, product_id as int),
            },
    {
        match self.find_index(product_id) {
            Some(i) => {
                proof {
                    lemma_first_index(self@, product_id as int);
                }
                Some(self.products[i].duplicate())
            },
            None => None,
        }
    }

    /// Append a record under a server-assigned identifier: the
    /// collection length at insertion time plus two.  The submitted
    /// identifier is overwritten; every other field is kept.
    pub fn create(&mut self, submitted: Product) -> (stored: Product)
        requires
            old(self)@.len() + 2 <= i32::MAX,
        ensures
            stored@ == with_id(submitted@, old(self)@.len() as int + 2),
            final(self)@ == old(self)@.push(stored@),
    {
        let new_id: i32 = self.products.len() as i32 + 2;
        let mut p = submitted;
        p.id = new_id;
        let stored = p.duplicate();
        self.products.push(p);
        proof {
            assert(self@ =~= old(self)@.push(stored@));
        }
        stored
    }

    /// Replace the first record whose identifier equals the submitted
    /// record's, wholesale, trusting the submitted identifier.  Returns
    /// a copy of what was stored, or `None` when no record carries the
    /// identifier (the store is then untouched).
    pub fn update(&mut self, submitted: Product) -> (r: Option<Product>)
        ensures
            contains_id(old(self)@, submitted@.id) ==> {
                &&& final(self)@ == old(self)@.update(
                    first_index(old(self)@, submitted@.id),
                    submitted@,
                )
                &&& match r {
                    Some(p) => p@ == submitted@,
                    None => false,
                }
            },
            !contains_id(old(self)@, submitted@.id) ==> final(self)@ == old(self)@ && r is None,
    {
        match self.find_index(submitted.id) {
            Some(i) => {
                proof {
                    lemma_first_index(self@, submitted@.id);
                }
                let returned = submitted.duplicate();
                self.products.set(i, submitted);
                proof {
                    assert(self@ =~= old(self)@.update(i as int, returned@));
                }
                Some(returned)
            },
            None => None,
        }
    }

    /// Remove the first record with this identifier; later records
    /// shift down one place.  Returns whether a record was removed;
    /// when none carries the identifier the store is untouched.
    pub fn delete(&mut self, product_id: i32) -> (removed: bool)
        ensures
            contains_id(old(self)@, product_id as int) ==> removed && final(self)@ == old(
                self,
            )@.remove(first_index(old(self)@, product_id as int)),
            !contains_id(old(self)@, product_id as int) ==> !removed && final(self)@ == old(self)@,
    {
        match self.find_index(product_id) {
            Some(i) => {
                proof {
                    lemma_first_index(self@, product_id as int);
                }
                self.products.remove(i);
                proof {
                    assert(self@ =~= old(self)@.remove(i as int));
                }
                true
            },
            None => false,
        }
    }
}

} // verus!
