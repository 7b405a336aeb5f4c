//! A counted collection of line contents.

use vstd::hash_map::StringHashMap;
use vstd::multiset::Multiset;
use vstd::prelude::*;

verus! {

/// A multiset of texts, kept as a map from each text to the number of times it
/// occurs. Only texts that occur at least once have an entry, so that a text
/// is present exactly when it has a count.
pub struct MultiSet {
    counts: StringHashMap<usize>,
    model: Ghost<Multiset<Seq<char>>>,
}

impl View for MultiSet {
    type V = Multiset<Seq<char>>;

    closed spec fn view(&self) -> Multiset<Seq<char>> {
        self.model@
    }
}

impl MultiSet {
    /// The stored counts are those of the multiset, and a text has an entry
    /// only while it occurs.
    pub closed spec fn wf(&self) -> bool {
        forall|k: Seq<char>|
            #![trigger self.counts@.contains_key(k)]
            #![trigger self.model@.count(k)]
            {
                &&& self.counts@.contains_key(k) <==> self.model@.count(k) > 0
                &&& self.counts@.contains_key(k) ==> self.counts@[k] == self.model@.count(k)
            }
    }

    /// The empty multiset.
    pub fn new() -> (s: Self)
        ensures
            s.wf(),
            s@ == Multiset::<Seq<char>>::empty(),
    {
        broadcast use vstd::multiset::group_multiset_axioms;

        MultiSet { counts: StringHashMap::new(), model: Ghost(Multiset::empty()) }
    }

    /// Adds one occurrence of `k`.
    pub fn insert(&mut self, k: String)
        requires
            old(self).wf(),
            old(self)@.count(k@) < usize::MAX,
        ensures
            final(self).wf(),
            final(self)@ == old(self)@.insert(k@),
    {
        broadcast use vstd::multiset::group_multiset_axioms;

        let count: usize = match self.counts.get(k.as_str()) {
            Some(n) => *n + 1,
            None => 1,
        };
        self.counts.insert(k, count);
        proof {
            self.model@ = self.model@.insert(k@);
        }
    }

    /// Takes one occurrence of `k` away, if there is one, and says whether
    /// there was. The entry of a text whose last occurrence leaves is dropped.
    pub fn remove(&mut self, k: &str) -> (found: bool)
        requires
            old(self).wf(),
        ensures
            final(self).wf(),
            found == (old(self)@.count(k@) > 0),
            final(self)@ == old(self)@.remove(k@),
    {
        broadcast use vstd::multiset::group_multiset_axioms;

        let count: usize = match self.counts.get(k) {
            Some(n) => *n,
            None => 0,
        };
        if count == 0 {
            assert(self.model@.remove(k@) =~= self.model@);
            false
        } else {
            if count == 1 {
                self.counts.remove(k);
            } else {
                self.counts.insert(k.to_owned(), count - 1);
            }
            proof {
                self.model@ = self.model@.remove(k@);
            }
            true
        }
    }
}

} // verus!
