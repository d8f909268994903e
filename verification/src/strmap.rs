//! Maps keyed by strings, with their meaning stated as a `Map`.
use vstd::prelude::*;

use crate::text::str_eq;

verus! {

/// Keys bound in order; a later binding of a key replaces an earlier one.
pub open spec fn assoc_map<V: View>(s: Seq<(String, V)>) -> Map<Seq<char>, V::V>
    decreases s.len(),
{
    if s.len() == 0 {
        Map::empty()
    } else {
        assoc_map(s.drop_last()).insert(s.last().0@, s.last().1@)
    }
}

proof fn lemma_assoc_last<V: View>(s: Seq<(String, V)>, k: Seq<char>, j: int)
    requires
        -1 <= j < s.len(),
        forall|m: int| j < m < s.len() ==> s[m].0@ != k,
        j >= 0 ==> s[j].0@ == k,
    ensures
        j >= 0 ==> assoc_map(s).contains_key(k) && assoc_map(s)[k] == s[j].1@,
        j == -1 ==> !assoc_map(s).contains_key(k),
    decreases s.len(),
{
    if s.len() > 0 && j < s.len() - 1 {
        assert forall|m: int| j < m < s.drop_last().len() implies s.drop_last()[m].0@ != k by {
            assert(s.drop_last()[m] == s[m]);
        }
        if j >= 0 {
            assert(s.drop_last()[j] == s[j]);
        }
        lemma_assoc_last(s.drop_last(), k, j);
    }
}

/// A map keyed by strings, kept as bindings in insertion order.
#[derive(Clone, Debug)]
pub struct KeyedMap<V> {
    entries: Vec<(String, V)>,
}

/// A map from strings to strings.
pub type StrMap = KeyedMap<String>;

impl<V: View> View for KeyedMap<V> {
    type V = Map<Seq<char>, V::V>;

    closed spec fn view(&self) -> Map<Seq<char>, V::V> {
        assoc_map(self.entries@)
    }
}

impl<V: View> KeyedMap<V> {
    pub fn new() -> (r: Self)
        ensures
            r@ == Map::<Seq<char>, V::V>::empty(),
    {
        KeyedMap { entries: Vec::new() }
    }

    /// Binds `key` to `value`, replacing any earlier binding.
    pub fn insert(&mut self, key: String, value: V)
        ensures
            final(self)@ == old(self)@.insert(key@, value@),
    {
        let ghost before = self.entries@;
        self.entries.push((key, value));
        assert(self.entries@.drop_last() =~= before);
    }

    pub fn get(&self, key: &str) -> (r: Option<&V>)
        ensures
            match r {
                Some(v) => self@.contains_key(key@) && self@[key@] == v@,
                None => !self@.contains_key(key@),
            },
    {
        let mut j: usize = self.entries.len();
        while j > 0
            invariant
                j <= self.entries@.len(),
                forall|m: int| j <= m < self.entries@.len() ==> self.entries@[m].0@ != key@,
            decreases j,
        {
            if str_eq(self.entries[j - 1].0.as_str(), key) {
                proof {
                    lemma_assoc_last(self.entries@, key@, j - 1);
                }
                return Some(&self.entries[j - 1].1);
            }
            j = j - 1;
        }
        proof {
            lemma_assoc_last(self.entries@, key@, -1);
        }
        None
    }

    /// The bindings in insertion order; a later binding of a key wins.
    pub fn entries(&self) -> (r: &Vec<(String, V)>)
        ensures
            assoc_map(r@) == self@,
    {
        &self.entries
    }

    pub fn is_empty(&self) -> (r: bool)
        ensures
            r == (self@ == Map::<Seq<char>, V::V>::empty()),
    {
        if self.entries.len() == 0 {
            true
        } else {
            assert(self@.contains_key(self.entries@.last().0@));
            false
        }
    }
}

impl KeyedMap<String> {
    /// An independent copy with the same bindings.
    pub fn copy(&self) -> (r: Self)
        ensures
            r@ == self@,
    {
        let mut entries: Vec<(String, String)> = Vec::new();
        let mut i: usize = 0;
        while i < self.entries.len()
            invariant
                i <= self.entries@.len(),
                entries@.len() == i,
                forall|k: int| 0 <= k < i ==> #[trigger] entries@[k].0@ == self.entries@[k].0@ && entries@[k].1@
                    == self.entries@[k].1@,
            decreases self.entries@.len() - i,
        {
            let (k, v) = &self.entries[i];
            let ghost before = entries@;
            let kc = k.clone();
            let vc = v.clone();
            assert(kc@ == self.entries@[i as int].0@ && vc@ == self.entries@[i as int].1@);
            entries.push((kc, vc));
            assert(entries@[i as int].0@ == self.entries@[i as int].0@);
            assert forall|m: int| 0 <= m < i + 1 implies #[trigger] entries@[m].0@ == self.entries@[m].0@
                && entries@[m].1@ == self.entries@[m].1@ by {
                if m < i {
                    assert(entries@[m] == before[m]);
                }
            }
            i = i + 1;
        }
        proof {
            lemma_assoc_same(entries@, self.entries@);
        }
        KeyedMap { entries }
    }
}

proof fn lemma_assoc_same<V: View>(a: Seq<(String, V)>, b: Seq<(String, V)>)
    requires
        a.len() == b.len(),
        forall|k: int| 0 <= k < a.len() ==> #[trigger] a[k].0@ == b[k].0@ && a[k].1@ == b[k].1@,
    ensures
        assoc_map(a) == assoc_map(b),
    decreases a.len(),
{
    if a.len() > 0 {
        assert forall|k: int| 0 <= k < a.len() - 1 implies #[trigger] a.drop_last()[k].0@
            == b.drop_last()[k].0@ && a.drop_last()[k].1@ == b.drop_last()[k].1@ by {
            assert(a.drop_last()[k] == a[k]);
            assert(b.drop_last()[k] == b[k]);
        }
        lemma_assoc_same(a.drop_last(), b.drop_last());
    }
}

} // verus!
