//! A cache of account ids and the names that belong to them. Entries never
//! expire; the cache grows with every new account.
use vstd::prelude::*;
use crate::text::same_text;

verus! {

/// Account ids (keys) and their names.
///
/// The pairs are kept in a `Vec` with no id twice. vstd specifies the
/// lookups of `HashMap` only for key types that obey its key model, which it
/// grants to integer keys and not to `String`: with a `HashMap` here none of
/// the contracts below could be proved.
pub struct IdCache {
    entries: Vec<(String, String)>,
}

impl View for IdCache {
    type V = Map<Seq<char>, Seq<char>>;

    closed spec fn view(&self) -> Map<Seq<char>, Seq<char>> {
        Map::new(
            |k: Seq<char>| exists|i: int| 0 <= i < self.entries@.len() && self.entries@[i].0@ == k,
            |k: Seq<char>|
                self.entries@[choose|i: int| 0 <= i < self.entries@.len() && self.entries@[i].0@ == k].1@,
        )
    }
}

impl IdCache {
    /// No id is held twice.
    pub closed spec fn wf(&self) -> bool {
        forall|i: int, j: int|
            0 <= i < j < self.entries@.len() ==> #[trigger] self.entries@[i].0@ != #[trigger] self.entries@[j].0@
    }

    proof fn lemma_entry(&self, i: int)
        requires
            self.wf(),
            0 <= i < self.entries@.len(),
        ensures
            self@.contains_key(self.entries@[i].0@),
            self@[self.entries@[i].0@] == self.entries@[i].1@,
    {
        let k = self.entries@[i].0@;
        assert(0 <= i < self.entries@.len() && self.entries@[i].0@ == k);
        let j = choose|j: int| 0 <= j < self.entries@.len() && self.entries@[j].0@ == k;
        if j < i {
            assert(self.entries@[j].0@ != self.entries@[i].0@);
        } else if i < j {
            assert(self.entries@[i].0@ != self.entries@[j].0@);
        }
    }

    /// An empty cache.
    pub fn new() -> (r: IdCache)
        ensures
            r.wf(),
            r@ == Map::<Seq<char>, Seq<char>>::empty(),
    {
        let r = IdCache { entries: Vec::new() };
        assert(r@ =~= Map::<Seq<char>, Seq<char>>::empty());
        r
    }

    fn find(&self, uuid: &str) -> (r: Option<usize>)
        requires
            self.wf(),
        ensures
            r matches Some(i) ==> i < self.entries@.len() && self.entries@[i as int].0@ == uuid@,
            r is None ==> !self@.contains_key(uuid@),
    {
        let mut i: usize = 0;
        while i < self.entries.len()
            invariant
                0 <= i <= self.entries@.len(),
                forall|j: int| 0 <= j < i ==> self.entries@[j].0@ != uuid@,
            decreases self.entries@.len() - i,
        {
            if same_text(self.entries[i].0.as_str(), uuid) {
                return Some(i);
            }
            i += 1;
        }
        None
    }

    /// The name cached for account `uuid`.
    pub fn username_of(&self, uuid: &str) -> (r: Option<String>)
        requires
            self.wf(),
        ensures
            r is Some <==> self@.contains_key(uuid@),
            r matches Some(n) ==> n@ == self@[uuid@],
    {
        match self.find(uuid) {
            Some(i) => {
                proof {
                    self.lemma_entry(i as int);
                }
                Some(self.entries[i].1.clone())
            },
            None => None,
        }
    }

    /// An account cached with the name `username`.
    pub fn uuid_of(&self, username: &str) -> (r: Option<String>)
        requires
            self.wf(),
        ensures
            r matches Some(u) ==> self@.contains_key(u@) && self@[u@] == username@,
            r is None ==> forall|k: Seq<char>| #[trigger] self@.contains_key(k) ==> self@[k] != username@,
    {
        let mut i: usize = 0;
        while i < self.entries.len()
            invariant
                self.wf(),
                0 <= i <= self.entries@.len(),
                forall|j: int| 0 <= j < i ==> self.entries@[j].1@ != username@,
            decreases self.entries@.len() - i,
        {
            if same_text(self.entries[i].1.as_str(), username) {
                proof {
                    self.lemma_entry(i as int);
                }
                return Some(self.entries[i].0.clone());
            }
            i += 1;
        }
        assert forall|k: Seq<char>| #[trigger] self@.contains_key(k) implies self@[k] != username@ by {
            let j = choose|j: int| 0 <= j < self.entries@.len() && self.entries@[j].0@ == k;
            self.lemma_entry(j);
        }
        None
    }

    /// Caches `name` for account `uuid`, in place of what was cached for it.
    pub fn insert(&mut self, uuid: String, name: String)
        requires
            old(self).wf(),
        ensures
            final(self).wf(),
            final(self)@ == old(self)@.insert(uuid@, name@),
    {
        let ghost old_cache = *self;
        let ghost key = uuid@;
        let ghost value = name@;
        match self.find(uuid.as_str()) {
            Some(i) => {
                self.entries.set(i, (uuid, name));
                proof {
                    assert(self.wf());
                    assert forall|k: Seq<char>| #[trigger] self@.contains_key(k) <==> old_cache@.insert(key, value).contains_key(k) by {
                        if k != key && old_cache@.contains_key(k) {
                            let j = choose|j: int| 0 <= j < old_cache.entries@.len() && old_cache.entries@[j].0@ == k;
                            assert(self.entries@[j].0@ == k);
                        }
                        if self@.contains_key(k) && k != key {
                            let j = choose|j: int| 0 <= j < self.entries@.len() && self.entries@[j].0@ == k;
                            assert(old_cache.entries@[j].0@ == k);
                        }
                        if k == key {
                            assert(self.entries@[i as int].0@ == k);
                        }
                    }
                    assert forall|k: Seq<char>| #[trigger] self@.contains_key(k) implies self@[k] == old_cache@.insert(key, value)[k] by {
                        let j = choose|j: int| 0 <= j < self.entries@.len() && self.entries@[j].0@ == k;
                        self.lemma_entry(j);
                        if k != key {
                            old_cache.lemma_entry(j);
                        } else {
                            self.lemma_entry(i as int);
                        }
                    }
                    assert(self@ =~= old_cache@.insert(key, value));
                }
            },
            None => {
                self.entries.push((uuid, name));
                proof {
                    let n = old_cache.entries@.len() as int;
                    assert(self.wf()) by {
                        assert forall|i: int, j: int| 0 <= i < j < self.entries@.len() implies #[trigger] self.entries@[i].0@ != #[trigger] self.entries@[j].0@ by {
                            if j == n {
                                old_cache.lemma_entry(i);
                            } else {
                                assert(old_cache.entries@[i] == self.entries@[i]);
                                assert(old_cache.entries@[j] == self.entries@[j]);
                            }
                        }
                    }
                    assert forall|k: Seq<char>| #[trigger] self@.contains_key(k) <==> old_cache@.insert(key, value).contains_key(k) by {
                        if k != key && old_cache@.contains_key(k) {
                            let j = choose|j: int| 0 <= j < old_cache.entries@.len() && old_cache.entries@[j].0@ == k;
                            assert(self.entries@[j].0@ == k);
                        }
                        if self@.contains_key(k) && k != key {
                            let j = choose|j: int| 0 <= j < self.entries@.len() && self.entries@[j].0@ == k;
                            assert(old_cache.entries@[j].0@ == k);
                        }
                        if k == key {
                            assert(self.entries@[n].0@ == k);
                        }
                    }
                    assert forall|k: Seq<char>| #[trigger] self@.contains_key(k) implies self@[k] == old_cache@.insert(key, value)[k] by {
                        let j = choose|j: int| 0 <= j < self.entries@.len() && self.entries@[j].0@ == k;
                        self.lemma_entry(j);
                        if j < n {
                            old_cache.lemma_entry(j);
                        }
                    }
                    assert(self@ =~= old_cache@.insert(key, value));
                }
            },
        }
    }
}

} // verus!
