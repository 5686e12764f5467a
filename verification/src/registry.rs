//! A small verified registry: a vector of records with pairwise-distinct
//! string keys, viewed in specifications as a `Map` from key to record. The
//! sandbox registry, the port allocator and the deployment registry are all
//! instances of it.

use vstd::prelude::*;

verus! {

/// A record stored in a registry, addressed by a string key.
pub trait Keyed {
    spec fn key(&self) -> Seq<char>;

    fn key_matches(&self, k: &str) -> (b: bool)
        ensures
            b == (self.key() == k@),
    ;
}

/// All keys in `s` are pairwise distinct.
pub open spec fn unique_keys<T: Keyed>(s: Seq<T>) -> bool {
    forall|i: int, j: int| 0 <= i < j < s.len() ==> s[i].key() != s[j].key()
}

/// The map from key to record that `s` denotes; later entries shadow earlier
/// ones, which never happens under `unique_keys`.
pub open spec fn map_of<T: Keyed>(s: Seq<T>) -> Map<Seq<char>, T>
    decreases s.len(),
{
    if s.len() == 0 {
        Map::empty()
    } else {
        map_of(s.drop_last()).insert(s.last().key(), s.last())
    }
}

/// A key is in the map exactly when some entry carries it.
pub proof fn lemma_map_of_contains<T: Keyed>(s: Seq<T>, k: Seq<char>)
    ensures
        map_of(s).dom().contains(k) <==> (exists|i: int| 0 <= i < s.len() && s[i].key() == k),
    decreases s.len(),
{
    if s.len() > 0 {
        lemma_map_of_contains(s.drop_last(), k);
        if map_of(s).dom().contains(k) {
            if k == s.last().key() {
                assert(0 <= s.len() - 1 < s.len() && s[s.len() - 1].key() == k);
            } else {
                let i = choose|i: int|
                    0 <= i < s.drop_last().len() && s.drop_last()[i].key() == k;
                assert(s[i].key() == k);
            }
        }
        if exists|i: int| 0 <= i < s.len() && s[i].key() == k {
            let i = choose|i: int| 0 <= i < s.len() && s[i].key() == k;
            if i < s.len() - 1 {
                assert(s.drop_last()[i].key() == k);
            }
        }
    }
}

/// Under unique keys, entry `i` is what the map stores for its key.
pub proof fn lemma_map_of_index<T: Keyed>(s: Seq<T>, i: int)
    requires
        unique_keys(s),
        0 <= i < s.len(),
    ensures
        map_of(s).dom().contains(s[i].key()),
        map_of(s)[s[i].key()] == s[i],
    decreases s.len(),
{
    if i < s.len() - 1 {
        assert(unique_keys(s.drop_last())) by {
            assert(forall|p: int, q: int|
                0 <= p < q < s.drop_last().len() ==> s.drop_last()[p].key()
                    != s.drop_last()[q].key()) by {
                assert(forall|p: int| 0 <= p < s.drop_last().len() ==> s.drop_last()[p]
                    == s[p]);
            }
        }
        lemma_map_of_index(s.drop_last(), i);
        assert(s.last().key() != s[i].key());
    }
}

/// Appending a record updates the map at its key.
pub proof fn lemma_map_of_push<T: Keyed>(s: Seq<T>, v: T)
    ensures
        map_of(s.push(v)) =~= map_of(s).insert(v.key(), v),
{
    assert(s.push(v).drop_last() =~= s);
    assert(s.push(v).last() == v);
}

/// Appending a record with a fresh key keeps keys unique.
pub proof fn lemma_unique_push<T: Keyed>(s: Seq<T>, v: T)
    requires
        unique_keys(s),
        !map_of(s).dom().contains(v.key()),
    ensures
        unique_keys(s.push(v)),
{
    lemma_map_of_contains(s, v.key());
    assert(forall|i: int| 0 <= i < s.len() ==> s.push(v)[i] == s[i]);
}

/// Removing entry `i` removes its key from the map.
pub proof fn lemma_map_of_remove<T: Keyed>(s: Seq<T>, i: int)
    requires
        unique_keys(s),
        0 <= i < s.len(),
    ensures
        unique_keys(s.remove(i)),
        map_of(s.remove(i)) =~= map_of(s).remove(s[i].key()),
    decreases s.len(),
{
    let k = s[i].key();
    assert(unique_keys(s.remove(i))) by {
        assert(forall|p: int| 0 <= p < s.remove(i).len() ==> s.remove(i)[p] == (if p < i {
            s[p]
        } else {
            s[p + 1]
        }));
    }
    assert(unique_keys(s.drop_last())) by {
        assert(forall|p: int| 0 <= p < s.drop_last().len() ==> s.drop_last()[p] == s[p]);
    }
    if i == s.len() - 1 {
        assert(s.remove(i) =~= s.drop_last());
        lemma_map_of_contains(s.drop_last(), k);
        assert(!map_of(s.drop_last()).dom().contains(k));
        assert(map_of(s.drop_last()).remove(k) =~= map_of(s.drop_last()));
    } else {
        let t = s.remove(i);
        assert(t.last() == s.last());
        assert(t.drop_last() =~= s.drop_last().remove(i));
        lemma_map_of_remove(s.drop_last(), i);
        assert(s.drop_last()[i].key() == k);
        assert(s.last().key() != k);
    }
}

/// Replacing entry `i` by a record with the same key updates the map there.
pub proof fn lemma_map_of_update<T: Keyed>(s: Seq<T>, i: int, v: T)
    requires
        unique_keys(s),
        0 <= i < s.len(),
        v.key() == s[i].key(),
    ensures
        unique_keys(s.update(i, v)),
        map_of(s.update(i, v)) =~= map_of(s).insert(v.key(), v),
    decreases s.len(),
{
    let k = v.key();
    assert(unique_keys(s.update(i, v))) by {
        assert(forall|p: int| 0 <= p < s.len() && p != i ==> s.update(i, v)[p] == s[p]);
        assert(s.update(i, v)[i] == v);
    }
    assert(unique_keys(s.drop_last())) by {
        assert(forall|p: int| 0 <= p < s.drop_last().len() ==> s.drop_last()[p] == s[p]);
    }
    if i == s.len() - 1 {
        assert(s.update(i, v).drop_last() =~= s.drop_last());
        assert(s.update(i, v).last() == v);
    } else {
        let t = s.update(i, v);
        assert(t.last() == s.last());
        assert(t.drop_last() =~= s.drop_last().update(i, v));
        lemma_map_of_update(s.drop_last(), i, v);
        assert(s.drop_last()[i].key() == k);
        assert(s.last().key() != k);
    }
}

/// Every stored record sits in the map under its own key.
pub proof fn lemma_map_of_key_consistent<T: Keyed>(s: Seq<T>, k: Seq<char>)
    requires
        unique_keys(s),
        map_of(s).dom().contains(k),
    ensures
        map_of(s)[k].key() == k,
{
    lemma_map_of_contains(s, k);
    let i = choose|i: int| 0 <= i < s.len() && s[i].key() == k;
    lemma_map_of_index(s, i);
}

/// Under unique keys the map is finite and exactly as large as the vector.
pub proof fn lemma_map_of_len<T: Keyed>(s: Seq<T>)
    requires
        unique_keys(s),
    ensures
        map_of(s).dom().finite(),
        map_of(s).len() == s.len(),
    decreases s.len(),
{
    if s.len() > 0 {
        assert(unique_keys(s.drop_last())) by {
            assert(forall|p: int| 0 <= p < s.drop_last().len() ==> s.drop_last()[p] == s[p]);
        }
        lemma_map_of_len(s.drop_last());
        lemma_map_of_contains(s.drop_last(), s.last().key());
        assert(!map_of(s.drop_last()).dom().contains(s.last().key()));
        assert(map_of(s).dom() =~= map_of(s.drop_last()).dom().insert(s.last().key()));
    }
}

/// A registry of records with pairwise-distinct keys.
pub struct Registry<T> {
    items: Vec<T>,
}

impl<T: Keyed> Registry<T> {
    /// The stored records, in insertion order.
    pub closed spec fn elems(&self) -> Seq<T> {
        self.items@
    }

    /// The registry as a map from key to record.
    pub open spec fn to_map(&self) -> Map<Seq<char>, T> {
        map_of(self.elems())
    }

    /// Keys are pairwise distinct.
    pub open spec fn wf(&self) -> bool {
        unique_keys(self.elems())
    }

    pub open spec fn spec_contains(&self, k: Seq<char>) -> bool {
        self.to_map().dom().contains(k)
    }

    pub fn new() -> (r: Self)
        ensures
            r.wf(),
            r.elems() =~= Seq::<T>::empty(),
            r.to_map() =~= Map::<Seq<char>, T>::empty(),
    {
        Registry { items: Vec::new() }
    }

    pub fn len(&self) -> (r: usize)
        ensures
            r == self.elems().len(),
    {
        self.items.len()
    }

    pub fn at(&self, i: usize) -> (r: &T)
        requires
            i < self.elems().len(),
        ensures
            *r == self.elems()[i as int],
    {
        &self.items[i]
    }

    /// The index of the record carrying key `k`, if any.
    pub fn index_of_key(&self, k: &str) -> (r: Option<usize>)
        ensures
            match r {
                Some(i) => 0 <= i < self.elems().len() && self.elems()[i as int].key() == k@
                    && self.spec_contains(k@),
                None => !self.spec_contains(k@),
            },
    {
        let n = self.items.len();
        let mut i: usize = 0;
        while i < n
            invariant
                n == self.elems().len(),
                0 <= i <= n,
                forall|p: int| 0 <= p < i ==> self.elems()[p].key() != k@,
            decreases n - i,
        {
            if self.items[i].key_matches(k) {
                proof {
                    lemma_map_of_contains(self.elems(), k@);
                }
                return Some(i);
            }
            i += 1;
        }
        proof {
            lemma_map_of_contains(self.elems(), k@);
        }
        None
    }

    pub fn contains_key(&self, k: &str) -> (r: bool)
        ensures
            r == self.spec_contains(k@),
    {
        self.index_of_key(k).is_some()
    }

    pub fn get(&self, k: &str) -> (r: Option<&T>)
        requires
            self.wf(),
        ensures
            match r {
                Some(t) => self.spec_contains(k@) && *t == self.to_map()[k@],
                None => !self.spec_contains(k@),
            },
    {
        match self.index_of_key(k) {
            Some(i) => {
                proof {
                    lemma_map_of_index(self.elems(), i as int);
                }
                Some(&self.items[i])
            },
            None => None,
        }
    }

    /// Inserts a record whose key is not yet present.
    pub fn insert_fresh(&mut self, v: T)
        requires
            old(self).wf(),
            !old(self).spec_contains(v.key()),
        ensures
            final(self).wf(),
            final(self).elems() =~= old(self).elems().push(v),
            final(self).to_map() =~= old(self).to_map().insert(v.key(), v),
    {
        proof {
            lemma_unique_push(self.elems(), v);
            lemma_map_of_push(self.elems(), v);
        }
        self.items.push(v);
    }

    /// Removes the record under `k`; without one, leaves the registry as it
    /// was. Either way the final map is the old one with `k` removed.
    pub fn remove_key(&mut self, k: &str) -> (r: Option<T>)
        requires
            old(self).wf(),
        ensures
            final(self).wf(),
            final(self).to_map() =~= old(self).to_map().remove(k@),
            match r {
                Some(t) => old(self).spec_contains(k@) && t == old(self).to_map()[k@],
                None => !old(self).spec_contains(k@) && *final(self) == *old(self),
            },
    {
        match self.index_of_key(k) {
            Some(i) => {
                proof {
                    lemma_map_of_index(self.elems(), i as int);
                    lemma_map_of_remove(self.elems(), i as int);
                }
                Some(self.items.remove(i))
            },
            None => {
                proof {
                    assert(!self.to_map().dom().contains(k@));
                    assert(self.to_map().remove(k@) =~= self.to_map());
                }
                None
            },
        }
    }

    /// Replaces entry `i` by a record carrying the same key.
    pub fn replace_at(&mut self, i: usize, v: T)
        requires
            old(self).wf(),
            i < old(self).elems().len(),
            v.key() == old(self).elems()[i as int].key(),
        ensures
            final(self).wf(),
            final(self).elems() =~= old(self).elems().update(i as int, v),
            final(self).to_map() =~= old(self).to_map().insert(v.key(), v),
    {
        proof {
            lemma_map_of_update(self.elems(), i as int, v);
        }
        self.items.set(i, v);
    }

    /// The stored records, in insertion order.
    pub fn as_vec(&self) -> (r: &Vec<T>)
        ensures
            r@ == self.elems(),
    {
        &self.items
    }

    /// Removes every record. The backends' teardown runs outside, record by
    /// record; the registry sweep itself is total.
    pub fn clear_all(&mut self)
        ensures
            final(self).wf(),
            final(self).elems() =~= Seq::<T>::empty(),
            final(self).to_map() =~= Map::<Seq<char>, T>::empty(),
    {
        self.items.clear();
    }
}

} // verus!
