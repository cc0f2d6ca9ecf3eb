//! A map from names to values that remembers the order in which names were
//! first inserted.
//!
//! The model of a [`NameMap`] is a sequence of `(name, value)` pairs in which no
//! name occurs twice; its view is the map that those pairs describe.

use vstd::prelude::*;
use crate::text::str_eq;

verus! {

/// Whether some pair of `pairs` is named `key`.
pub open spec fn has_name<T>(pairs: Seq<(Seq<char>, T)>, key: Seq<char>) -> bool {
    exists|i: int| 0 <= i < pairs.len() && (#[trigger] pairs[i]).0 == key
}

/// An index at which `pairs` holds a pair named `key` (the only one where names
/// are distinct); arbitrary where there is none.
pub open spec fn index_of<T>(pairs: Seq<(Seq<char>, T)>, key: Seq<char>) -> int {
    choose|i: int| 0 <= i < pairs.len() && (#[trigger] pairs[i]).0 == key
}

/// No name occurs twice in `pairs`.
pub open spec fn distinct_names<T>(pairs: Seq<(Seq<char>, T)>) -> bool {
    forall|i: int, j: int|
        0 <= i < j < pairs.len() ==> (#[trigger] pairs[i]).0 != (#[trigger] pairs[j]).0
}

/// The map that `pairs` describes.
pub open spec fn pairs_to_map<T>(pairs: Seq<(Seq<char>, T)>) -> Map<Seq<char>, T> {
    Map::new(|k: Seq<char>| has_name(pairs, k), |k: Seq<char>| pairs[index_of(pairs, k)].1)
}

/// `pairs` after `key` is bound to `value`: the pair named `key` is replaced
/// where it stands, or a new pair is added at the end.
pub open spec fn put<T>(pairs: Seq<(Seq<char>, T)>, key: Seq<char>, value: T) -> Seq<
    (Seq<char>, T),
> {
    if has_name(pairs, key) {
        pairs.update(index_of(pairs, key), (key, value))
    } else {
        pairs.push((key, value))
    }
}

/// `pairs` after every pair of `more` is bound in turn, first to last.
pub open spec fn put_all<T>(pairs: Seq<(Seq<char>, T)>, more: Seq<(Seq<char>, T)>) -> Seq<
    (Seq<char>, T),
>
    decreases more.len(),
{
    if more.len() == 0 {
        pairs
    } else {
        put_all(put(pairs, more[0].0, more[0].1), more.drop_first())
    }
}

/// Where names are distinct, the index of a name is the index it is found at.
pub proof fn lemma_index_of_unique<T>(pairs: Seq<(Seq<char>, T)>, i: int)
    requires
        distinct_names(pairs),
        0 <= i < pairs.len(),
    ensures
        has_name(pairs, pairs[i].0),
        index_of(pairs, pairs[i].0) == i,
{
    let key = pairs[i].0;
    let j = index_of(pairs, key);
    assert(0 <= j < pairs.len() && pairs[j].0 == key);
    if j < i {
        assert(pairs[j].0 != pairs[i].0);
    } else if i < j {
        assert(pairs[i].0 != pairs[j].0);
    }
}

/// Binding a name keeps names distinct and acts on the described map as
/// `Map::insert` does.
pub proof fn lemma_put<T>(pairs: Seq<(Seq<char>, T)>, key: Seq<char>, value: T)
    requires
        distinct_names(pairs),
    ensures
        distinct_names(put(pairs, key, value)),
        pairs_to_map(put(pairs, key, value)) == pairs_to_map(pairs).insert(key, value),
        has_name(put(pairs, key, value), key),
{
    let after = put(pairs, key, value);
    if has_name(pairs, key) {
        let at = index_of(pairs, key);
        assert(0 <= at < pairs.len() && pairs[at].0 == key);
        assert forall|i: int, j: int| 0 <= i < j < after.len() implies (#[trigger] after[i]).0 != (
        #[trigger] after[j]).0 by {
            assert(after[i].0 == pairs[i].0);
            assert(after[j].0 == pairs[j].0);
        }
        assert(after[at].0 == key);
    } else {
        assert forall|i: int, j: int| 0 <= i < j < after.len() implies (#[trigger] after[i]).0 != (
        #[trigger] after[j]).0 by {
            if j == pairs.len() {
                assert(pairs[i].0 != key);
            } else {
                assert(after[i].0 == pairs[i].0);
                assert(after[j].0 == pairs[j].0);
            }
        }
        assert(after[pairs.len() as int].0 == key);
    }
    assert(has_name(after, key));
    let left = pairs_to_map(after);
    let right = pairs_to_map(pairs).insert(key, value);
    assert forall|k: Seq<char>| left.dom().contains(k) <==> right.dom().contains(k) by {
        if has_name(after, k) {
            let i = index_of(after, k);
            assert(0 <= i < after.len() && after[i].0 == k);
            if k != key {
                assert(i < pairs.len());
                assert(pairs[i].0 == k);
            }
        }
        if has_name(pairs, k) {
            let i = index_of(pairs, k);
            assert(0 <= i < pairs.len() && pairs[i].0 == k);
            assert(after[i].0 == k);
        }
    }
    assert forall|k: Seq<char>| left.dom().contains(k) implies left[k] == right[k] by {
        let i = index_of(after, k);
        assert(0 <= i < after.len() && after[i].0 == k);
        lemma_index_of_unique(after, i);
        if k == key {
            if has_name(pairs, key) {
                let at = index_of(pairs, key);
                assert(0 <= at < pairs.len() && pairs[at].0 == key);
                assert(after[at].0 == key);
                lemma_index_of_unique(after, at);
            } else {
                assert(after[pairs.len() as int].0 == key);
                lemma_index_of_unique(after, pairs.len() as int);
            }
        } else {
            assert(i < pairs.len());
            assert(pairs[i].0 == k);
            lemma_index_of_unique(pairs, i);
            assert(after[i] == pairs[i]);
        }
    }
    assert(left =~= right);
}

/// Binding a sequence of pairs keeps names distinct and acts on the described
/// map as a union in which the later binding wins.
pub proof fn lemma_put_all<T>(pairs: Seq<(Seq<char>, T)>, more: Seq<(Seq<char>, T)>)
    requires
        distinct_names(pairs),
        distinct_names(more),
    ensures
        distinct_names(put_all(pairs, more)),
        pairs_to_map(put_all(pairs, more)) == pairs_to_map(pairs).union_prefer_right(
            pairs_to_map(more),
        ),
    decreases more.len(),
{
    if more.len() == 0 {
        assert(pairs_to_map(more) =~= Map::empty());
        assert(pairs_to_map(pairs).union_prefer_right(pairs_to_map(more)) =~= pairs_to_map(pairs));
    } else {
        let rest = more.drop_first();
        let next = put(pairs, more[0].0, more[0].1);
        lemma_put(pairs, more[0].0, more[0].1);
        assert forall|i: int, j: int| 0 <= i < j < rest.len() implies (#[trigger] rest[i]).0 != (
        #[trigger] rest[j]).0 by {
            assert(rest[i] == more[i + 1]);
            assert(rest[j] == more[j + 1]);
        }
        lemma_put_all(next, rest);
        let left = pairs_to_map(next).union_prefer_right(pairs_to_map(rest));
        let right = pairs_to_map(pairs).union_prefer_right(pairs_to_map(more));
        lemma_index_of_unique(more, 0);
        assert forall|k: Seq<char>| has_name(rest, k) implies has_name(more, k) && pairs_to_map(
            more,
        )[k] == pairs_to_map(rest)[k] && k != more[0].0 by {
            let i = index_of(rest, k);
            assert(0 <= i < rest.len() && rest[i].0 == k);
            assert(more[i + 1] == rest[i]);
            lemma_index_of_unique(rest, i);
            lemma_index_of_unique(more, i + 1);
            assert(more[0].0 != more[i + 1].0);
        }
        assert forall|k: Seq<char>| has_name(more, k) && k != more[0].0 implies has_name(
            rest,
            k,
        ) by {
            let i = index_of(more, k);
            assert(0 <= i < more.len() && more[i].0 == k);
            assert(rest[i - 1] == more[i]);
        }
        assert(left =~= right);
    }
}

/// A map from names to values, kept in the order in which names were first
/// bound. No name is bound twice.
#[derive(Debug)]
pub struct NameMap<V: View> {
    entries: Vec<(String, V)>,
}

impl<V: View> NameMap<V> {
    /// The bindings as pairs of name and value views, in insertion order.
    pub closed spec fn pairs(&self) -> Seq<(Seq<char>, V::V)> {
        Seq::new(self.entries@.len(), |i: int| (self.entries@[i].0@, self.entries@[i].1@))
    }

    #[verifier::type_invariant]
    spec fn names_are_distinct(&self) -> bool {
        distinct_names(self.pairs())
    }

    /// An empty map.
    pub fn new() -> (map: Self)
        ensures
            map.pairs() == Seq::<(Seq<char>, V::V)>::empty(),
            map@ == Map::<Seq<char>, V::V>::empty(),
    {
        let map = NameMap { entries: Vec::new() };
        assert(map.pairs() =~= Seq::<(Seq<char>, V::V)>::empty());
        assert(map@ =~= Map::<Seq<char>, V::V>::empty());
        map
    }

    /// The number of bindings.
    pub fn len(&self) -> (n: usize)
        ensures
            n == self.pairs().len(),
            distinct_names(self.pairs()),
    {
        proof {
            use_type_invariant(self);
        }
        self.entries.len()
    }

    /// Whether the map binds no name.
    pub fn is_empty(&self) -> (empty: bool)
        ensures
            empty == (self.pairs().len() == 0),
            empty == (self@ == Map::<Seq<char>, V::V>::empty()),
    {
        proof {
            if self.pairs().len() == 0 {
                assert(self@ =~= Map::<Seq<char>, V::V>::empty());
            } else {
                assert(has_name(self.pairs(), self.pairs()[0].0));
                assert(self@.dom().contains(self.pairs()[0].0));
            }
        }
        self.entries.len() == 0
    }

    /// The position of `key` among the bindings, if it is bound.
    fn find(&self, key: &str) -> (found: Option<usize>)
        ensures
            distinct_names(self.pairs()),
            match found {
                Some(i) => i < self.pairs().len() && self.pairs()[i as int].0 == key@
                    && has_name(self.pairs(), key@) && index_of(self.pairs(), key@) == i,
                None => !has_name(self.pairs(), key@),
            },
    {
        proof {
            use_type_invariant(self);
        }
        let mut i: usize = 0;
        while i < self.entries.len()
            invariant
                i <= self.entries.len(),
                self.entries.len() == self.pairs().len(),
                distinct_names(self.pairs()),
                forall|j: int| 0 <= j < i ==> (#[trigger] self.pairs()[j]).0 != key@,
            decreases self.entries.len() - i,
        {
            if str_eq(self.entries[i].0.as_str(), key) {
                proof {
                    lemma_index_of_unique(self.pairs(), i as int);
                }
                return Some(i);
            }
            i = i + 1;
        }
        None
    }

    /// Whether `key` is bound.
    pub fn contains_key(&self, key: &str) -> (bound: bool)
        ensures
            bound == self@.contains_key(key@),
            bound == has_name(self.pairs(), key@),
    {
        self.find(key).is_some()
    }

    /// The value bound to `key`, if any.
    pub fn get(&self, key: &str) -> (value: Option<&V>)
        ensures
            match value {
                Some(v) => self@.contains_key(key@) && v@ == self@[key@],
                None => !self@.contains_key(key@),
            },
    {
        match self.find(key) {
            Some(i) => Some(&self.entries[i].1),
            None => None,
        }
    }

    /// The name of the binding at `index`, counting in insertion order.
    pub fn name_at(&self, index: usize) -> (name: &str)
        requires
            index < self.pairs().len(),
        ensures
            name@ == self.pairs()[index as int].0,
    {
        self.entries[index].0.as_str()
    }

    /// The value of the binding at `index`, counting in insertion order.
    pub fn value_at(&self, index: usize) -> (value: &V)
        requires
            index < self.pairs().len(),
        ensures
            value@ == self.pairs()[index as int].1,
    {
        &self.entries[index].1
    }

    /// Binds `key` to `value`. A name already bound keeps its place and gets the
    /// new value; the value it had is returned.
    pub fn insert(&mut self, key: String, value: V) -> (previous: Option<V>)
        ensures
            final(self).pairs() == put(old(self).pairs(), key@, value@),
            final(self)@ == old(self)@.insert(key@, value@),
            match previous {
                Some(v) => old(self)@.contains_key(key@) && v@ == old(self)@[key@],
                None => !old(self)@.contains_key(key@),
            },
    {
        let ghost before = self.pairs();
        proof {
            use_type_invariant(&*self);
            lemma_put(before, key@, value@);
        }
        match self.find(key.as_str()) {
            Some(i) => {
                let mut entries: Vec<(String, V)> = Vec::new();
                std::mem::swap(&mut entries, &mut self.entries);
                let gone = entries.remove(i);
                entries.insert(i, (key, value));
                let ghost after = Seq::new(
                    entries@.len(),
                    |j: int| (entries@[j].0@, entries@[j].1@),
                );
                assert(after =~= put(before, key@, value@));
                self.entries = entries;
                Some(gone.1)
            },
            None => {
                let mut entries: Vec<(String, V)> = Vec::new();
                std::mem::swap(&mut entries, &mut self.entries);
                entries.push((key, value));
                let ghost after = Seq::new(
                    entries@.len(),
                    |j: int| (entries@[j].0@, entries@[j].1@),
                );
                assert(after =~= put(before, key@, value@));
                self.entries = entries;
                None
            },
        }
    }
}

impl<V: View> NameMap<V> {
    /// Binds every pair of `other` in turn, first to last; where a name is
    /// bound in both, the value of `other` stays.
    pub fn extend(&mut self, other: NameMap<V>)
        ensures
            final(self).pairs() == put_all(old(self).pairs(), other.pairs()),
            final(self)@ == old(self)@.union_prefer_right(other@),
    {
        let ghost before = self.pairs();
        let ghost more = other.pairs();
        proof {
            use_type_invariant(&*self);
            use_type_invariant(&other);
            lemma_put_all(before, more);
        }
        let entries = other.entries;
        assert(more.skip(0) =~= more);
        for pair in it: entries.into_iter()
            invariant
                it.seq() == entries@,
                more.len() == entries@.len(),
                forall|j: int|
                    0 <= j < entries@.len() ==> (#[trigger] more[j]) == (
                        entries@[j].0@,
                        entries@[j].1@,
                    ),
                put_all(self.pairs(), more.skip(it.index())) == put_all(before, more),
        {
            let ghost now = self.pairs();
            let ghost rest = more.skip(it.index());
            assert(rest.len() > 0);
            assert(rest[0] == more[it.index()]);
            assert(rest.drop_first() =~= more.skip(it.index() + 1));
            let (key, value) = pair;
            self.insert(key, value);
        }
        assert(more.skip(more.len() as int) =~= Seq::<(Seq<char>, V::V)>::empty());
    }
}

/// Values that can be copied with their view kept.
pub trait ViewClone: View + Sized {
    /// A copy with the same view.
    fn view_clone(&self) -> (copy: Self)
        ensures
            copy@ == self@,
    ;
}

impl ViewClone for String {
    fn view_clone(&self) -> (copy: Self) {
        self.clone()
    }
}

impl<V: ViewClone> NameMap<V> {
    /// A map with the same bindings in the same order.
    pub fn duplicate(&self) -> (copy: Self)
        ensures
            copy.pairs() == self.pairs(),
            copy@ == self@,
    {
        let mut entries: Vec<(String, V)> = Vec::new();
        let mut i: usize = 0;
        while i < self.entries.len()
            invariant
                i <= self.entries.len(),
                entries.len() == i,
                forall|j: int|
                    0 <= j < i ==> (#[trigger] entries@[j]).0@ == self.entries@[j].0@
                        && entries@[j].1@ == self.entries@[j].1@,
            decreases self.entries.len() - i,
        {
            let name = self.entries[i].0.clone();
            let value = self.entries[i].1.view_clone();
            entries.push((name, value));
            i = i + 1;
        }
        proof {
            use_type_invariant(self);
            let copied = Seq::new(entries@.len(), |j: int| (entries@[j].0@, entries@[j].1@));
            assert(copied =~= self.pairs());
        }
        NameMap { entries }
    }
}

impl<V: ViewClone> Clone for NameMap<V> {
    fn clone(&self) -> (copy: Self)
        ensures
            copy.pairs() == self.pairs(),
            copy@ == self@,
    {
        self.duplicate()
    }
}

impl<V: View> View for NameMap<V> {
    type V = Map<Seq<char>, V::V>;

    open spec fn view(&self) -> Map<Seq<char>, V::V> {
        pairs_to_map(self.pairs())
    }
}

} // verus!
