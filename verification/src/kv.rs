//! An association list from `String` keys to values with unique keys,
//! viewed as a `Map<Seq<char>, T>`. It backs the task map, the connection
//! registry and the in-memory mirror of the durable store.

use vstd::prelude::*;
use vstd::string::StrSliceExecFns;

verus! {

/// Equality of two string slices by their character sequences.
pub fn str_eq(a: &str, b: &str) -> (r: bool)
    ensures
        r == (a@ == b@),
{
    let la = a.unicode_len();
    let lb = b.unicode_len();
    if la != lb {
        return false;
    }
    let mut i: usize = 0;
    while i < la
        invariant
            la == a@.len(),
            lb == b@.len(),
            la == lb,
            i <= la,
            forall|j: int| 0 <= j < i ==> a@[j] == b@[j],
        decreases la - i,
    {
        if a.get_char(i) != b.get_char(i) {
            return false;
        }
        i += 1;
    }
    proof {
        assert(a@ =~= b@);
    }
    true
}

/// The map denoted by an association sequence; a later entry for the same
/// key would win, but the `KvVec` invariant keeps keys unique.
pub open spec fn assoc_map<T>(s: Seq<(String, T)>) -> Map<Seq<char>, T>
    decreases s.len(),
{
    if s.len() == 0 {
        Map::empty()
    } else {
        assoc_map(s.drop_last()).insert(s.last().0@, s.last().1)
    }
}

pub open spec fn keys_unique<T>(s: Seq<(String, T)>) -> bool {
    forall|i: int, j: int| 0 <= i < j < s.len() ==> s[i].0@ != s[j].0@
}

proof fn lemma_assoc_map_absent<T>(s: Seq<(String, T)>, k: Seq<char>)
    requires
        forall|i: int| 0 <= i < s.len() ==> s[i].0@ != k,
    ensures
        !assoc_map(s).contains_key(k),
    decreases s.len(),
{
    if s.len() > 0 {
        assert(forall|i: int| 0 <= i < s.drop_last().len() ==> s.drop_last()[i] == s[i]);
        lemma_assoc_map_absent(s.drop_last(), k);
    }
}

proof fn lemma_assoc_map_index<T>(s: Seq<(String, T)>, i: int)
    requires
        keys_unique(s),
        0 <= i < s.len(),
    ensures
        assoc_map(s).contains_key(s[i].0@),
        assoc_map(s)[s[i].0@] == s[i].1,
    decreases s.len(),
{
    if i == s.len() - 1 {
    } else {
        assert(forall|j: int| 0 <= j < s.drop_last().len() ==> s.drop_last()[j] == s[j]);
        lemma_assoc_map_index(s.drop_last(), i);
        assert(s[i].0@ != s.last().0@);
    }
}

proof fn lemma_assoc_map_covered<T>(s: Seq<(String, T)>, k: Seq<char>)
    requires
        assoc_map(s).contains_key(k),
    ensures
        exists|i: int| 0 <= i < s.len() && s[i].0@ == k,
    decreases s.len(),
{
    if s.len() > 0 {
        if s.last().0@ == k {
            assert(s[s.len() - 1].0@ == k);
        } else {
            assert(forall|j: int| 0 <= j < s.drop_last().len() ==> s.drop_last()[j] == s[j]);
            lemma_assoc_map_covered(s.drop_last(), k);
            let i = choose|i: int| 0 <= i < s.drop_last().len() && s.drop_last()[i].0@ == k;
            assert(s[i].0@ == k);
        }
    }
}

proof fn lemma_assoc_map_remove_at<T>(s: Seq<(String, T)>, i: int)
    requires
        keys_unique(s),
        0 <= i < s.len(),
    ensures
        keys_unique(s.remove(i)),
        assoc_map(s.remove(i)) == assoc_map(s).remove(s[i].0@),
    decreases s.len(),
{
    let k = s[i].0@;
    if i == s.len() - 1 {
        assert(s.remove(i) =~= s.drop_last());
        assert(forall|j: int| 0 <= j < s.drop_last().len() ==> s.drop_last()[j] == s[j]);
        lemma_assoc_map_absent(s.drop_last(), k);
        assert(assoc_map(s.drop_last()).insert(k, s.last().1).remove(k) =~= assoc_map(
            s.drop_last(),
        ));
    } else {
        let dl = s.drop_last();
        assert(forall|j: int| 0 <= j < dl.len() ==> dl[j] == s[j]);
        lemma_assoc_map_remove_at(dl, i);
        assert(s.remove(i).drop_last() =~= dl.remove(i));
        assert(s.remove(i).last() == s.last());
        assert(s.remove(i).len() == s.len() - 1);
        let lk = s.last().0@;
        assert(lk != k);
        assert(assoc_map(s.remove(i)) == assoc_map(dl.remove(i)).insert(lk, s.last().1));
        assert(assoc_map(dl).remove(k).insert(lk, s.last().1) =~= assoc_map(dl).insert(
            lk,
            s.last().1,
        ).remove(k));
        assert(forall|a: int, b: int|
            0 <= a < b < s.remove(i).len() ==> s.remove(i)[a].0@ != s.remove(i)[b].0@);
    }
}

/// Key-value store backed by a vector of entries with pairwise distinct keys.
pub struct KvVec<T> {
    entries: Vec<(String, T)>,
}

impl<T> View for KvVec<T> {
    type V = Map<Seq<char>, T>;

    closed spec fn view(&self) -> Map<Seq<char>, T> {
        assoc_map(self.entries@)
    }
}

impl<T> KvVec<T> {
    pub closed spec fn wf(&self) -> bool {
        keys_unique(self.entries@)
    }

    pub closed spec fn spec_len(&self) -> nat {
        self.entries@.len()
    }

    pub closed spec fn key_seq(&self) -> Seq<Seq<char>> {
        self.entries@.map_values(|e: (String, T)| e.0@)
    }

    pub fn new() -> (r: Self)
        ensures
            r.wf(),
            r@ == Map::<Seq<char>, T>::empty(),
            r.spec_len() == 0,
    {
        KvVec { entries: Vec::new() }
    }

    pub fn len(&self) -> (n: usize)
        ensures
            n == self.spec_len(),
    {
        self.entries.len()
    }

    /// Distinct positions hold distinct keys.
    pub proof fn lemma_keys_distinct(&self)
        requires
            self.wf(),
        ensures
            forall|a: int, b: int|
                0 <= a < b < self.spec_len() ==> self.key_seq()[a] != self.key_seq()[b],
    {
        assert forall|a: int, b: int|
            0 <= a < b < self.spec_len() implies self.key_seq()[a] != self.key_seq()[b] by {
            assert(self.key_seq()[a] == self.entries@[a].0@);
            assert(self.key_seq()[b] == self.entries@[b].0@);
        }
    }

    /// Every key of the map occurs at some position.
    pub proof fn lemma_cover(&self, k: Seq<char>)
        requires
            self.wf(),
            self@.contains_key(k),
        ensures
            exists|i: int| 0 <= i < self.spec_len() && self.key_seq()[i] == k,
    {
        lemma_assoc_map_covered(self.entries@, k);
        let i = choose|i: int| 0 <= i < self.entries@.len() && self.entries@[i].0@ == k;
        assert(self.key_seq()[i] == k);
    }

    pub fn key_at(&self, i: usize) -> (k: &String)
        requires
            self.wf(),
            i < self.spec_len(),
        ensures
            k@ == self.key_seq()[i as int],
            self@.contains_key(k@),
    {
        proof {
            lemma_assoc_map_index(self.entries@, i as int);
        }
        &self.entries[i].0
    }

    pub fn value_at(&self, i: usize) -> (v: &T)
        requires
            self.wf(),
            i < self.spec_len(),
        ensures
            self@.contains_key(self.key_seq()[i as int]),
            *v == self@[self.key_seq()[i as int]],
    {
        proof {
            lemma_assoc_map_index(self.entries@, i as int);
        }
        &self.entries[i].1
    }

    fn find_idx(&self, key: &str) -> (r: Option<usize>)
        ensures
            match r {
                Some(i) => i < self.spec_len() && self.key_seq()[i as int] == key@,
                None => forall|j: int| 0 <= j < self.spec_len() ==> self.key_seq()[j] != key@,
            },
    {
        let n = self.entries.len();
        let mut i: usize = 0;
        while i < n
            invariant
                n == self.entries@.len(),
                n == self.spec_len(),
                i <= n,
                forall|j: int| 0 <= j < i ==> self.key_seq()[j] != key@,
            decreases n - i,
        {
            if str_eq(self.entries[i].0.as_str(), key) {
                proof {
                    assert(self.key_seq()[i as int] == key@);
                }
                return Some(i);
            }
            proof {
                assert(self.key_seq()[i as int] == self.entries@[i as int].0@);
            }
            i += 1;
        }
        None
    }

    pub fn get(&self, key: &str) -> (r: Option<&T>)
        requires
            self.wf(),
        ensures
            match r {
                Some(v) => self@.contains_key(key@) && *v == self@[key@],
                None => !self@.contains_key(key@),
            },
    {
        match self.find_idx(key) {
            Some(i) => {
                proof {
                    lemma_assoc_map_index(self.entries@, i as int);
                }
                Some(&self.entries[i].1)
            },
            None => {
                proof {
                    assert forall|j: int|
                        0 <= j < self.entries@.len() implies #[trigger] self.entries@[j].0@
                        != key@ by {
                        assert(self.key_seq()[j] == self.entries@[j].0@);
                    }
                    lemma_assoc_map_absent(self.entries@, key@);
                }
                None
            },
        }
    }

    /// Inserts the binding, silently superseding any previous one.
    pub fn insert(&mut self, key: String, value: T)
        requires
            old(self).wf(),
        ensures
            final(self).wf(),
            final(self)@ == old(self)@.insert(key@, value),
            final(self).spec_len() <= old(self).spec_len() + 1,
    {
        let ghost pre = self.entries@;
        match self.find_idx(key.as_str()) {
            Some(i) => {
                proof {
                    lemma_assoc_map_remove_at(self.entries@, i as int);
                    lemma_assoc_map_index(self.entries@, i as int);
                }
                self.entries.remove(i);
                let ghost mid = self.entries@;
                self.entries.push((key, value));
                proof {
                    assert(self.entries@.drop_last() =~= mid);
                    assert(self.entries@.last() == (key, value));
                    assert(assoc_map(self.entries@) == assoc_map(mid).insert(key@, value));
                    assert(assoc_map(mid) == assoc_map(pre).remove(pre[i as int].0@));
                    assert(assoc_map(mid).insert(key@, value) =~= assoc_map(pre).insert(
                        key@,
                        value,
                    ));
                    assert(forall|j: int| 0 <= j < mid.len() ==> mid[j].0@ != key@) by {
                        assert(forall|j: int| 0 <= j < mid.len() ==> mid[j] == pre.remove(
                            i as int,
                        )[j]);
                    }
                    assert(keys_unique(self.entries@));
                }
            },
            None => {
                proof {
                    assert forall|j: int| 0 <= j < pre.len() implies #[trigger] pre[j].0@
                        != key@ by {
                        assert(self.key_seq()[j] == pre[j].0@);
                    }
                }
                self.entries.push((key, value));
                proof {
                    assert(self.entries@.drop_last() =~= pre);
                    assert(self.entries@.last() == (key, value));
                    assert(keys_unique(self.entries@));
                }
            },
        }
    }

    /// Removes the binding for the key, if any.
    pub fn remove(&mut self, key: &str)
        requires
            old(self).wf(),
        ensures
            final(self).wf(),
            final(self)@ == old(self)@.remove(key@),
    {
        match self.find_idx(key) {
            Some(i) => {
                proof {
                    lemma_assoc_map_remove_at(self.entries@, i as int);
                }
                self.entries.remove(i);
            },
            None => {
                proof {
                    assert forall|j: int|
                        0 <= j < self.entries@.len() implies #[trigger] self.entries@[j].0@
                        != key@ by {
                        assert(self.key_seq()[j] == self.entries@[j].0@);
                    }
                    lemma_assoc_map_absent(self.entries@, key@);
                    assert(assoc_map(self.entries@).remove(key@) =~= assoc_map(self.entries@));
                }
            },
        }
    }
}

} // verus!
