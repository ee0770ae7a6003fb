//! A map from text to text that keeps its entries in key order.

use vstd::prelude::*;
use crate::strings::{
    key_lt, key_order, lemma_key_lt_irreflexive, lemma_key_lt_transitive, lemma_order_excludes,
    same_text, KeyOrder,
};

verus! {

/// An entry as a pair of texts.
pub type Pair = (Seq<char>, Seq<char>);

/// Each key comes before the one after it.
pub open spec fn keys_increase(s: Seq<Pair>) -> bool {
    forall|i: int, j: int| 0 <= i < j < s.len() ==> key_lt(#[trigger] s[i].0, #[trigger] s[j].0)
}

/// The map that a list of entries stands for; a later entry replaces an
/// earlier one with the same key.
pub open spec fn pairs_to_map(s: Seq<Pair>) -> Map<Seq<char>, Seq<char>>
    decreases s.len(),
{
    if s.len() == 0 {
        Map::empty()
    } else {
        pairs_to_map(s.drop_last()).insert(s.last().0, s.last().1)
    }
}

/// The merge rule for maps: every key of either side is kept, and where both
/// have a key the value of `over` wins.
pub open spec fn merged_map(
    base: Map<Seq<char>, Seq<char>>,
    over: Map<Seq<char>, Seq<char>>,
) -> Map<Seq<char>, Seq<char>> {
    base.union_prefer_right(over)
}

/// One more entry at the end of a list is one more insertion into the map.
pub proof fn lemma_pairs_push(s: Seq<Pair>, p: Pair)
    ensures
        pairs_to_map(s.push(p)) == pairs_to_map(s).insert(p.0, p.1),
{
    assert(s.push(p).drop_last() =~= s);
}

/// The keys of the map are the keys of the entries.
pub proof fn lemma_pairs_keys(s: Seq<Pair>, k: Seq<char>)
    ensures
        pairs_to_map(s).contains_key(k) <==> exists|i: int| 0 <= i < s.len() && #[trigger] s[i].0 == k,
    decreases s.len(),
{
    if s.len() > 0 {
        let t = s.drop_last();
        lemma_pairs_keys(t, k);
        if pairs_to_map(s).contains_key(k) {
            if s.last().0 == k {
                assert(s[s.len() - 1].0 == k);
            } else {
                let i = choose|i: int| 0 <= i < t.len() && #[trigger] t[i].0 == k;
                assert(s[i].0 == k);
            }
        }
        if exists|i: int| 0 <= i < s.len() && #[trigger] s[i].0 == k {
            let i = choose|i: int| 0 <= i < s.len() && #[trigger] s[i].0 == k;
            if i < s.len() - 1 {
                assert(t[i].0 == k);
            }
        }
    }
}

/// In a list with increasing keys, the map gives each key its own entry's value.
pub proof fn lemma_pairs_value(s: Seq<Pair>, i: int)
    requires
        keys_increase(s),
        0 <= i < s.len(),
    ensures
        pairs_to_map(s).contains_key(s[i].0),
        pairs_to_map(s)[s[i].0] == s[i].1,
    decreases s.len(),
{
    let t = s.drop_last();
    if i < s.len() - 1 {
        assert(keys_increase(t)) by {
            assert forall|a: int, b: int| 0 <= a < b < t.len() implies key_lt(
                #[trigger] t[a].0,
                #[trigger] t[b].0,
            ) by {
                assert(key_lt(s[a].0, s[b].0));
            }
        }
        lemma_pairs_value(t, i);
        assert(key_lt(s[i].0, s[s.len() - 1].0));
        lemma_order_excludes(s[i].0, s.last().0);
    }
}

/// Two key-ordered lists that stand for the same map are the same list.
pub proof fn lemma_pairs_unique(s: Seq<Pair>, t: Seq<Pair>)
    requires
        keys_increase(s),
        keys_increase(t),
        pairs_to_map(s) == pairs_to_map(t),
    ensures
        s == t,
    decreases s.len(),
{
    if s.len() == 0 {
        if t.len() > 0 {
            lemma_pairs_value(t, 0);
        }
        assert(s =~= t);
    } else if t.len() == 0 {
        lemma_pairs_value(s, 0);
    } else {
        let ls = s.last();
        let lt = t.last();
        lemma_pairs_value(s, s.len() - 1);
        lemma_pairs_value(t, t.len() - 1);
        lemma_pairs_keys(s, lt.0);
        lemma_pairs_keys(t, ls.0);
        let i = choose|i: int| 0 <= i < s.len() && #[trigger] s[i].0 == lt.0;
        let j = choose|j: int| 0 <= j < t.len() && #[trigger] t[j].0 == ls.0;
        if i < s.len() - 1 {
            assert(key_lt(s[i].0, s[s.len() - 1].0));
            if j < t.len() - 1 {
                assert(key_lt(t[j].0, t[t.len() - 1].0));
                lemma_order_excludes(lt.0, ls.0);
            }
            lemma_key_lt_irreflexive(ls.0);
        }
        assert(ls.0 == lt.0);
        assert(ls.1 == lt.1);
        let s0 = s.drop_last();
        let t0 = t.drop_last();
        lemma_drop_last_increase(s);
        lemma_drop_last_increase(t);
        lemma_drop_last_map(s);
        lemma_drop_last_map(t);
        assert(pairs_to_map(s0) =~= pairs_to_map(t0));
        lemma_pairs_unique(s0, t0);
        assert(s =~= s0.push(ls));
        assert(t =~= t0.push(lt));
    }
}

/// A key-ordered list without its last entry is key-ordered.
pub proof fn lemma_drop_last_increase(s: Seq<Pair>)
    requires
        keys_increase(s),
        s.len() > 0,
    ensures
        keys_increase(s.drop_last()),
{
    let t = s.drop_last();
    assert forall|a: int, b: int| 0 <= a < b < t.len() implies key_lt(
        #[trigger] t[a].0,
        #[trigger] t[b].0,
    ) by {
        assert(key_lt(s[a].0, s[b].0));
    }
}

/// Dropping the last entry of a key-ordered list removes its key from the map.
pub proof fn lemma_drop_last_map(s: Seq<Pair>)
    requires
        keys_increase(s),
        s.len() > 0,
    ensures
        pairs_to_map(s.drop_last()) == pairs_to_map(s).remove(s.last().0),
{
    let t = s.drop_last();
    lemma_pairs_keys(t, s.last().0);
    if pairs_to_map(t).contains_key(s.last().0) {
        let i = choose|i: int| 0 <= i < t.len() && #[trigger] t[i].0 == s.last().0;
        assert(key_lt(s[i].0, s[s.len() - 1].0));
        lemma_key_lt_irreflexive(s.last().0);
    }
    assert(pairs_to_map(t) =~= pairs_to_map(s).remove(s.last().0));
}

/// The number of keys is the number of entries.
pub proof fn lemma_pairs_len(s: Seq<Pair>)
    requires
        keys_increase(s),
    ensures
        pairs_to_map(s).dom().finite(),
        pairs_to_map(s).len() == s.len(),
    decreases s.len(),
{
    if s.len() > 0 {
        lemma_drop_last_increase(s);
        lemma_pairs_len(s.drop_last());
        lemma_drop_last_map(s);
        lemma_pairs_value(s, s.len() - 1);
    }
}

/// A map from text to text. Its entries are held in key order, each key once.
#[derive(Debug, PartialEq, Eq)]
pub struct StringMap {
    entries: Vec<(String, String)>,
}

impl View for StringMap {
    type V = Map<Seq<char>, Seq<char>>;

    closed spec fn view(&self) -> Map<Seq<char>, Seq<char>> {
        pairs_to_map(self.entries.deep_view())
    }
}

impl DeepView for StringMap {
    type V = Map<Seq<char>, Seq<char>>;

    open spec fn deep_view(&self) -> Map<Seq<char>, Seq<char>> {
        self@
    }
}

impl StringMap {
    #[verifier::type_invariant]
    spec fn ordered(&self) -> bool {
        keys_increase(self.entries.deep_view())
    }

    /// The entries in key order.
    pub closed spec fn pairs(&self) -> Seq<Pair> {
        self.entries.deep_view()
    }

    /// What `pairs` and the view have to do with each other.
    pub proof fn lemma_pairs(&self)
        ensures
            self@ == pairs_to_map(self.pairs()),
    {
    }

    /// The empty map.
    pub fn new() -> (m: StringMap)
        ensures
            m@ == Map::<Seq<char>, Seq<char>>::empty(),
            m.pairs() == Seq::<Pair>::empty(),
    {
        let entries: Vec<(String, String)> = Vec::new();
        assert(entries.deep_view() =~= Seq::<Pair>::empty());
        StringMap { entries }
    }

    /// The number of entries.
    pub fn len(&self) -> (n: usize)
        ensures
            self@.dom().finite(),
            n == self@.len(),
            n == self.pairs().len(),
    {
        proof {
            use_type_invariant(self);
            lemma_pairs_len(self.entries.deep_view());
        }
        self.entries.len()
    }

    /// Whether the map has no entry.
    pub fn is_empty(&self) -> (empty: bool)
        ensures
            empty == (self@ == Map::<Seq<char>, Seq<char>>::empty()),
    {
        proof {
            use_type_invariant(self);
            let s = self.entries.deep_view();
            if s.len() > 0 {
                lemma_pairs_value(s, 0);
            } else {
                assert(pairs_to_map(s) =~= Map::<Seq<char>, Seq<char>>::empty());
            }
        }
        self.entries.len() == 0
    }

    /// The value held for `key`, if any.
    pub fn get(&self, key: &str) -> (value: Option<String>)
        ensures
            match value {
                Some(v) => self@.contains_key(key@) && v@ == self@[key@],
                None => !self@.contains_key(key@),
            },
    {
        proof {
            use_type_invariant(self);
        }
        let ghost s = self.entries.deep_view();
        let mut i: usize = 0;
        while i < self.entries.len()
            invariant
                i <= self.entries.len(),
                s == self.entries.deep_view(),
                keys_increase(s),
                forall|j: int| 0 <= j < i ==> s[j].0 != key@,
            decreases self.entries.len() - i,
        {
            if same_text(self.entries[i].0.as_str(), key) {
                proof {
                    lemma_pairs_value(s, i as int);
                }
                return Some(self.entries[i].1.clone());
            }
            i = i + 1;
        }
        proof {
            lemma_pairs_keys(s, key@);
        }
        None
    }

    /// Whether `key` has an entry.
    pub fn contains_key(&self, key: &str) -> (found: bool)
        ensures
            found == self@.contains_key(key@),
    {
        self.get(key).is_some()
    }

    /// Sets the value of `key`, replacing any value it had.
    pub fn insert(&mut self, key: String, value: String)
        ensures
            final(self)@ == old(self)@.insert(key@, value@),
    {
        let mut single: Vec<(String, String)> = Vec::new();
        single.push((key, value));
        assert(single.deep_view() =~= Seq::<Pair>::empty().push((key@, value@)));
        proof {
            lemma_pairs_push(Seq::<Pair>::empty(), (key@, value@));
        }
        let one = StringMap { entries: single };
        let merged = self.merge(&one);
        assert(merged@ =~= self@.insert(key@, value@));
        *self = merged;
    }

    /// Whether two maps hold the same entries.
    pub fn same_as(&self, other: &StringMap) -> (same: bool)
        ensures
            same == (self@ == other@),
    {
        proof {
            use_type_invariant(self);
            use_type_invariant(other);
        }
        let ghost a = self.entries.deep_view();
        let ghost b = other.entries.deep_view();
        if self.entries.len() != other.entries.len() {
            proof {
                if self@ == other@ {
                    lemma_pairs_unique(a, b);
                }
            }
            return false;
        }
        let mut i: usize = 0;
        while i < self.entries.len()
            invariant
                i <= self.entries.len(),
                self.entries.len() == other.entries.len(),
                a == self.entries.deep_view(),
                b == other.entries.deep_view(),
                keys_increase(a),
                keys_increase(b),
                self@ == pairs_to_map(a),
                other@ == pairs_to_map(b),
                forall|j: int| 0 <= j < i ==> a[j] == b[j],
            decreases self.entries.len() - i,
        {
            let same_key = same_text(self.entries[i].0.as_str(), other.entries[i].0.as_str());
            let same_value = same_text(self.entries[i].1.as_str(), other.entries[i].1.as_str());
            if !same_key || !same_value {
                proof {
                    assert(a[i as int] == (self.entries@[i as int].0@, self.entries@[i as int].1@));
                    assert(b[i as int] == (other.entries@[i as int].0@, other.entries@[i as int].1@));
                    if self@ == other@ {
                        lemma_pairs_unique(a, b);
                    }
                }
                return false;
            }
            i = i + 1;
        }
        assert(a =~= b);
        true
    }

    /// A copy of the entries, in key order.
    pub fn entries(&self) -> (list: Vec<(String, String)>)
        ensures
            list.deep_view() == self.pairs(),
            keys_increase(list.deep_view()),
            pairs_to_map(list.deep_view()) == self@,
    {
        proof {
            use_type_invariant(self);
        }
        let mut list: Vec<(String, String)> = Vec::new();
        let mut i: usize = 0;
        while i < self.entries.len()
            invariant
                i <= self.entries.len(),
                list.deep_view() =~= self.entries.deep_view().take(i as int),
            decreases self.entries.len() - i,
        {
            let ghost before = list.deep_view();
            let k = self.entries[i].0.clone();
            let v = self.entries[i].1.clone();
            list.push((k, v));
            assert(list.deep_view() =~= before.push(self.entries.deep_view()[i as int]));
            i = i + 1;
        }
        assert(self.entries.deep_view().take(i as int) =~= self.entries.deep_view());
        list
    }

    /// A copy of the map.
    pub fn duplicate(&self) -> (copy: StringMap)
        ensures
            copy@ == self@,
            copy.pairs() == self.pairs(),
    {
        StringMap { entries: self.entries() }
    }

    /// The map built from a list of entries; a later entry replaces an
    /// earlier one with the same key.
    pub fn from_entries(list: &Vec<(String, String)>) -> (m: StringMap)
        ensures
            m@ == pairs_to_map(list.deep_view()),
    {
        let mut m = StringMap::new();
        let mut i: usize = 0;
        while i < list.len()
            invariant
                i <= list.len(),
                m@ == pairs_to_map(list.deep_view().take(i as int)),
            decreases list.len() - i,
        {
            proof {
                let s = list.deep_view();
                assert(s.take(i + 1) =~= s.take(i as int).push(s[i as int]));
                lemma_pairs_push(s.take(i as int), s[i as int]);
            }
            m.insert(list[i].0.clone(), list[i].1.clone());
            i = i + 1;
        }
        assert(list.deep_view().take(i as int) =~= list.deep_view());
        m
    }

    /// Merges `over` onto this map: all keys of both are kept, and where both
    /// have a key the value of `over` wins.
    pub fn merge(&self, over: &StringMap) -> (merged: StringMap)
        ensures
            merged@ == merged_map(self@, over@),
    {
        proof {
            use_type_invariant(self);
            use_type_invariant(over);
        }
        let ghost a = self.entries.deep_view();
        let ghost b = over.entries.deep_view();
        let mut out: Vec<(String, String)> = Vec::new();
        let mut i: usize = 0;
        let mut j: usize = 0;
        assert(out.deep_view() =~= Seq::<Pair>::empty());
        assert(a.take(0) =~= Seq::<Pair>::empty());
        assert(b.take(0) =~= Seq::<Pair>::empty());
        assert(Map::<Seq<char>, Seq<char>>::empty().union_prefer_right(
            Map::<Seq<char>, Seq<char>>::empty(),
        ) =~= Map::<Seq<char>, Seq<char>>::empty());
        while i < self.entries.len() || j < over.entries.len()
            invariant
                a == self.entries.deep_view(),
                b == over.entries.deep_view(),
                keys_increase(a),
                keys_increase(b),
                i <= self.entries.len(),
                j <= over.entries.len(),
                keys_increase(out.deep_view()),
                forall|x: int| #![trigger out.deep_view()[x]]
                    0 <= x < out.deep_view().len() && i < a.len() ==> key_lt(
                        out.deep_view()[x].0,
                        a[i as int].0,
                    ),
                forall|x: int| #![trigger out.deep_view()[x]]
                    0 <= x < out.deep_view().len() && j < b.len() ==> key_lt(
                        out.deep_view()[x].0,
                        b[j as int].0,
                    ),
                pairs_to_map(out.deep_view()) == pairs_to_map(a.take(i as int)).union_prefer_right(
                    pairs_to_map(b.take(j as int)),
                ),
            decreases (self.entries.len() - i) + (over.entries.len() - j),
        {
            let ghost before = out.deep_view();
            let ghost ma = pairs_to_map(a.take(i as int));
            let ghost mb = pairs_to_map(b.take(j as int));
            let take_base = if i >= self.entries.len() {
                KeyOrder::After
            } else if j >= over.entries.len() {
                KeyOrder::Before
            } else {
                key_order(self.entries[i].0.as_str(), over.entries[j].0.as_str())
            };
            match take_base {
                KeyOrder::Before => {
                    let k = self.entries[i].0.clone();
                    let v = self.entries[i].1.clone();
                    proof {
                        let p = a[i as int];
                        assert(a.take(i + 1) =~= a.take(i as int).push(p));
                        lemma_pairs_push(a.take(i as int), p);
                        lemma_pairs_push(before, p);
                        lemma_pairs_keys(before, p.0);
                        if pairs_to_map(before).contains_key(p.0) {
                            let x = choose|x: int| 0 <= x < before.len() && #[trigger] before[x].0 == p.0;
                            lemma_key_lt_irreflexive(p.0);
                        }
                        assert(ma.insert(p.0, p.1).union_prefer_right(mb) =~= ma.union_prefer_right(
                            mb,
                        ).insert(p.0, p.1));
                        assert forall|x: int| 0 <= x < before.len() && i + 1 < a.len() implies key_lt(
                            before[x].0,
                            a[i + 1].0,
                        ) by {
                            lemma_key_lt_transitive(before[x].0, a[i as int].0, a[i + 1].0);
                        }
                    }
                    out.push((k, v));
                    assert(out.deep_view() =~= before.push(a[i as int]));
                    i = i + 1;
                },
                KeyOrder::After => {
                    let k = over.entries[j].0.clone();
                    let v = over.entries[j].1.clone();
                    proof {
                        let p = b[j as int];
                        assert(b.take(j + 1) =~= b.take(j as int).push(p));
                        lemma_pairs_push(b.take(j as int), p);
                        lemma_pairs_push(before, p);
                        assert(ma.union_prefer_right(mb.insert(p.0, p.1)) =~= ma.union_prefer_right(
                            mb,
                        ).insert(p.0, p.1));
                        assert forall|x: int| 0 <= x < before.len() && j + 1 < b.len() implies key_lt(
                            before[x].0,
                            b[j + 1].0,
                        ) by {
                            lemma_key_lt_transitive(before[x].0, b[j as int].0, b[j + 1].0);
                        }
                    }
                    out.push((k, v));
                    assert(out.deep_view() =~= before.push(b[j as int]));
                    j = j + 1;
                },
                KeyOrder::Same => {
                    let k = over.entries[j].0.clone();
                    let v = over.entries[j].1.clone();
                    proof {
                        let p = b[j as int];
                        let q = a[i as int];
                        assert(a.take(i + 1) =~= a.take(i as int).push(q));
                        assert(b.take(j + 1) =~= b.take(j as int).push(p));
                        lemma_pairs_push(a.take(i as int), q);
                        lemma_pairs_push(b.take(j as int), p);
                        lemma_pairs_push(before, p);
                        assert(ma.insert(q.0, q.1).union_prefer_right(mb.insert(p.0, p.1))
                            =~= ma.union_prefer_right(mb).insert(p.0, p.1));
                        assert forall|x: int| 0 <= x < before.len() && i + 1 < a.len() implies key_lt(
                            before[x].0,
                            a[i + 1].0,
                        ) by {
                            lemma_key_lt_transitive(before[x].0, a[i as int].0, a[i + 1].0);
                        }
                        assert forall|x: int| 0 <= x < before.len() && j + 1 < b.len() implies key_lt(
                            before[x].0,
                            b[j + 1].0,
                        ) by {
                            lemma_key_lt_transitive(before[x].0, b[j as int].0, b[j + 1].0);
                        }
                    }
                    out.push((k, v));
                    assert(out.deep_view() =~= before.push(b[j as int]));
                    i = i + 1;
                    j = j + 1;
                },
            }
        }
        assert(a.take(i as int) =~= a);
        assert(b.take(j as int) =~= b);
        StringMap { entries: out }
    }
}

} // verus!
