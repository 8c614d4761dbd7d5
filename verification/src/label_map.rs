//! A map from labels to values that remembers the order in which the
//! labels came.

use vstd::prelude::*;

verus! {

/// The map that a list of labelled values denotes: a later value
/// replaces an earlier one with the same label.
pub open spec fn map_of<T>(entries: Seq<(Seq<char>, T)>) -> Map<Seq<char>, T>
    decreases entries.len(),
{
    if entries.len() == 0 {
        Map::empty()
    } else {
        map_of(entries.drop_last()).insert(entries.last().0, entries.last().1)
    }
}

/// No label occurs twice.
pub open spec fn distinct_labels<T>(entries: Seq<(Seq<char>, T)>) -> bool {
    forall|i: int, j: int|
        0 <= i < j < entries.len() ==> (#[trigger] entries[i]).0 != (#[trigger] entries[j]).0
}

/// The map holds exactly the labels of the list.
pub proof fn lemma_map_of_domain<T>(entries: Seq<(Seq<char>, T)>, label: Seq<char>)
    ensures
        map_of(entries).contains_key(label) <==> exists|i: int|
            0 <= i < entries.len() && (#[trigger] entries[i]).0 == label,
    decreases entries.len(),
{
    if entries.len() > 0 {
        let rest = entries.drop_last();
        lemma_map_of_domain(rest, label);
        if map_of(entries).contains_key(label) {
            if entries.last().0 == label {
                assert(entries[entries.len() - 1].0 == label);
            } else {
                let i = choose|i: int| 0 <= i < rest.len() && (#[trigger] rest[i]).0 == label;
                assert(entries[i] == rest[i]);
            }
        }
        if exists|i: int| 0 <= i < entries.len() && (#[trigger] entries[i]).0 == label {
            let i = choose|i: int| 0 <= i < entries.len() && (#[trigger] entries[i]).0 == label;
            if i < rest.len() {
                assert(rest[i] == entries[i]);
            }
        }
    }
}

/// Where no label occurs twice, the map holds each entry's value under
/// its label.
pub proof fn lemma_map_of_value<T>(entries: Seq<(Seq<char>, T)>, i: int)
    requires
        distinct_labels(entries),
        0 <= i < entries.len(),
    ensures
        map_of(entries).contains_key(entries[i].0),
        map_of(entries)[entries[i].0] == entries[i].1,
    decreases entries.len(),
{
    let rest = entries.drop_last();
    if i < entries.len() - 1 {
        assert forall|a: int, b: int| 0 <= a < b < rest.len() implies (#[trigger] rest[a]).0 != (
        #[trigger] rest[b]).0 by {
            assert(rest[a] == entries[a]);
            assert(rest[b] == entries[b]);
        }
        lemma_map_of_value(rest, i);
        assert(rest[i] == entries[i]);
        assert(entries[i].0 != entries[entries.len() - 1].0);
    }
}

/// Replacing the value of an entry replaces the value under its label.
pub proof fn lemma_map_of_update<T>(entries: Seq<(Seq<char>, T)>, i: int, value: T)
    requires
        distinct_labels(entries),
        0 <= i < entries.len(),
    ensures
        map_of(entries.update(i, (entries[i].0, value))) == map_of(entries).insert(
            entries[i].0,
            value,
        ),
        distinct_labels(entries.update(i, (entries[i].0, value))),
    decreases entries.len(),
{
    let after = entries.update(i, (entries[i].0, value));
    let rest = entries.drop_last();
    assert forall|a: int, b: int| 0 <= a < b < after.len() implies (#[trigger] after[a]).0 != (
    #[trigger] after[b]).0 by {
        assert(after[a].0 == entries[a].0);
        assert(after[b].0 == entries[b].0);
    }
    if i == entries.len() - 1 {
        assert(after.drop_last() =~= rest);
        assert(map_of(after) =~= map_of(entries).insert(entries[i].0, value));
    } else {
        assert forall|a: int, b: int| 0 <= a < b < rest.len() implies (#[trigger] rest[a]).0 != (
        #[trigger] rest[b]).0 by {
            assert(rest[a] == entries[a]);
            assert(rest[b] == entries[b]);
        }
        lemma_map_of_update(rest, i, value);
        assert(rest[i] == entries[i]);
        assert(after.drop_last() =~= rest.update(i, (entries[i].0, value)));
        assert(after.last() == entries.last());
        assert(entries[i].0 != entries[entries.len() - 1].0);
        assert(map_of(after) =~= map_of(entries).insert(entries[i].0, value));
    }
}

/// A map from labels to values. No label occurs twice, and the labels
/// keep the order in which they were first inserted.
#[derive(Debug, PartialEq, Eq)]
pub struct LabelMap<V> {
    entries: Vec<(String, V)>,
}

impl<V> LabelMap<V> {
    #[verifier::type_invariant]
    spec fn no_label_twice(&self) -> bool {
        forall|i: int, j: int|
            0 <= i < j < self.entries@.len() ==> (#[trigger] self.entries@[i]).0@ != (
            #[trigger] self.entries@[j]).0@
    }
}

/// The labels of the entries and the views of their values, in order.
pub open spec fn listing_of<V: View>(entries: Seq<(String, V)>) -> Seq<(Seq<char>, V::V)> {
    Seq::new(entries.len(), |i: int| (entries[i].0@, entries[i].1@))
}

impl<V: View> LabelMap<V> {
    /// The labels and the views of their values, in order.
    pub closed spec fn listing(&self) -> Seq<(Seq<char>, V::V)> {
        listing_of(self.entries@)
    }

    /// An empty map.
    pub fn new() -> (r: Self)
        ensures
            r@ == Map::<Seq<char>, V::V>::empty(),
            r.listing() == Seq::<(Seq<char>, V::V)>::empty(),
    {
        LabelMap { entries: Vec::new() }
    }

    /// The number of labels.
    pub fn len(&self) -> (n: usize)
        ensures
            n == self.listing().len(),
    {
        self.entries.len()
    }

    /// The label at a position.
    pub fn label_at(&self, i: usize) -> (r: &String)
        requires
            i < self.listing().len(),
        ensures
            r@ == self.listing()[i as int].0,
    {
        &self.entries[i].0
    }

    /// The value at a position.
    pub fn value_at(&self, i: usize) -> (r: &V)
        requires
            i < self.listing().len(),
        ensures
            r@ == self.listing()[i as int].1,
    {
        &self.entries[i].1
    }

    /// The map is the one that the listing denotes.
    pub proof fn lemma_listing(&self)
        ensures
            self@ == map_of(self.listing()),
    {
    }

    fn position(&self, label: &str) -> (r: Option<usize>)
        ensures
            match r {
                Some(i) => i < self.listing().len() && self.listing()[i as int].0 == label@,
                None => forall|j: int|
                    0 <= j < self.listing().len() ==> (#[trigger] self.listing()[j]).0 != label@,
            },
    {
        let wanted = label.to_owned();
        let mut i: usize = 0;
        while i < self.entries.len()
            invariant
                i <= self.entries.len(),
                wanted@ == label@,
                forall|j: int| 0 <= j < i ==> (#[trigger] self.listing()[j]).0 != label@,
            decreases self.entries.len() - i,
        {
            if self.entries[i].0 == wanted {
                return Some(i);
            }
            i = i + 1;
        }
        None
    }

    /// The value stored under a label.
    pub fn get(&self, label: &str) -> (r: Option<&V>)
        ensures
            match r {
                Some(v) => self@.contains_key(label@) && self@[label@] == v@,
                None => !self@.contains_key(label@),
            },
    {
        proof {
            use_type_invariant(self);
            lemma_map_of_domain(self.listing(), label@);
        }
        match self.position(label) {
            Some(i) => {
                proof {
                    lemma_map_of_value(self.listing(), i as int);
                }
                Some(&self.entries[i].1)
            },
            None => None,
        }
    }

    /// Stores a value under a label, in place of the value that is there.
    pub fn insert(&mut self, label: String, value: V)
        ensures
            final(self)@ == old(self)@.insert(label@, value@),
    {
        proof {
            use_type_invariant(&*self);
        }
        let ghost before = self.listing();
        let found = self.position(label.as_str());
        let mut entries: Vec<(String, V)> = Vec::new();
        std::mem::swap(&mut entries, &mut self.entries);
        match found {
            Some(i) => {
                proof {
                    lemma_map_of_update(before, i as int, value@);
                }
                entries.set(i, (label, value));
                proof {
                    assert(listing_of(entries@) =~= before.update(
                        i as int,
                        (before[i as int].0, value@),
                    ));
                }
            },
            None => {
                entries.push((label, value));
                proof {
                    assert(listing_of(entries@) =~= before.push((label@, value@)));
                    assert(listing_of(entries@).drop_last() =~= before);
                }
            },
        }
        proof {
            let after = listing_of(entries@);
            assert(distinct_labels(after));
            assert forall|i: int, j: int| 0 <= i < j < entries@.len() implies (
            #[trigger] entries@[i]).0@ != (#[trigger] entries@[j]).0@ by {
                assert(after[i].0 == entries@[i].0@);
                assert(after[j].0 == entries@[j].0@);
            }
        }
        self.entries = entries;
    }
}

impl<V: View> View for LabelMap<V> {
    type V = Map<Seq<char>, V::V>;

    closed spec fn view(&self) -> Map<Seq<char>, V::V> {
        map_of(self.listing())
    }
}

} // verus!
