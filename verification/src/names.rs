//! An ordered map from names to values: entries keep the order in which
//! their names first arrived, and no name occurs twice.

use vstd::prelude::*;
use crate::text::same_text;

verus! {

/// The index of the entry named `key`, if there is one.
pub open spec fn position_of<T>(entries: Seq<(Seq<char>, T)>, key: Seq<char>) -> Option<int> {
    if exists|i: int| 0 <= i < entries.len() && (#[trigger] entries[i]).0 == key {
        Some(choose|i: int| 0 <= i < entries.len() && (#[trigger] entries[i]).0 == key)
    } else {
        None
    }
}

/// No two entries share a name.
pub open spec fn distinct_names<T>(entries: Seq<(Seq<char>, T)>) -> bool {
    forall|i: int, j: int|
        0 <= i < j < entries.len() ==> (#[trigger] entries[i]).0 != (#[trigger] entries[j]).0
}

/// The entries after `key` is set to `value`: an entry of that name is
/// replaced where it stands, a new name goes to the end.
pub open spec fn with_entry<T>(entries: Seq<(Seq<char>, T)>, key: Seq<char>, value: T) -> Seq<
    (Seq<char>, T),
> {
    match position_of(entries, key) {
        Some(i) => entries.update(i, (key, value)),
        None => entries.push((key, value)),
    }
}

/// The names of the entries, in order.
pub open spec fn names_of<T>(entries: Seq<(Seq<char>, T)>) -> Seq<Seq<char>> {
    Seq::new(entries.len(), |i: int| entries[i].0)
}

/// Setting a name keeps the names distinct.
pub proof fn lemma_with_entry_distinct<T>(entries: Seq<(Seq<char>, T)>, key: Seq<char>, value: T)
    requires
        distinct_names(entries),
    ensures
        distinct_names(with_entry(entries, key, value)),
        position_of(with_entry(entries, key, value), key) is Some,
{
    let after = with_entry(entries, key, value);
    match position_of(entries, key) {
        Some(i) => {
            assert(after[i].0 == key);
        },
        None => {
            assert(after[entries.len() as int].0 == key);
            assert forall|i: int, j: int| 0 <= i < j < after.len() implies (#[trigger] after[i]).0
                != (#[trigger] after[j]).0 by {
                if j == entries.len() {
                    assert(entries[i].0 != key);
                }
            }
        },
    }
}

/// Setting a name keeps every other entry: each entry afterwards is the
/// one set or was there before, and each name that was there stays.
pub proof fn lemma_with_entry_keeps_others<T>(
    entries: Seq<(Seq<char>, T)>,
    key: Seq<char>,
    value: T,
)
    ensures
        forall|i: int|
            0 <= i < with_entry(entries, key, value).len() ==> (#[trigger] with_entry(
                entries,
                key,
                value,
            )[i]) == (key, value) || entries.contains(with_entry(entries, key, value)[i]),
        forall|name: Seq<char>| #[trigger]
            position_of(entries, name) is Some ==> position_of(
                with_entry(entries, key, value),
                name,
            ) is Some,
        position_of(with_entry(entries, key, value), key) is Some,
{
    let after = with_entry(entries, key, value);
    match position_of(entries, key) {
        Some(at) => {
            assert(after[at].0 == key);
            assert forall|i: int| 0 <= i < after.len() implies (#[trigger] after[i]) == (key, value)
                || entries.contains(after[i]) by {
                if i != at {
                    assert(entries[i] == after[i]);
                }
            }
            assert forall|name: Seq<char>| #[trigger]
                position_of(entries, name) is Some implies position_of(after, name) is Some by {
                let found = position_of(entries, name)->0;
                assert(after[found].0 == name);
            }
        },
        None => {
            assert(after[entries.len() as int].0 == key);
            assert forall|i: int| 0 <= i < after.len() implies (#[trigger] after[i]) == (key, value)
                || entries.contains(after[i]) by {
                if i < entries.len() {
                    assert(entries[i] == after[i]);
                }
            }
            assert forall|name: Seq<char>| #[trigger]
                position_of(entries, name) is Some implies position_of(after, name) is Some by {
                let found = position_of(entries, name)->0;
                assert(after[found].0 == name);
            }
        },
    }
}

/// The mathematical form of stored entries.
pub open spec fn entries_view<V: View>(entries: Seq<(String, V)>) -> Seq<(Seq<char>, V::V)> {
    Seq::new(entries.len(), |i: int| (entries[i].0@, entries[i].1@))
}

/// An ordered map from names to values.
#[derive(Debug, PartialEq, Eq)]
pub struct NameMap<V: View> {
    entries: Vec<(String, V)>,
}

impl<V: View> View for NameMap<V> {
    type V = Seq<(Seq<char>, V::V)>;

    closed spec fn view(&self) -> Seq<(Seq<char>, V::V)> {
        entries_view(self.entries@)
    }
}

impl<V: View> NameMap<V> {
    #[verifier::type_invariant]
    spec fn names_are_distinct(self) -> bool {
        distinct_names(self@)
    }

    /// A map without entries.
    pub fn new() -> (m: Self)
        ensures
            m@ == Seq::<(Seq<char>, V::V)>::empty(),
    {
        let m = NameMap { entries: Vec::new() };
        assert(m@ =~= Seq::<(Seq<char>, V::V)>::empty());
        m
    }

    /// The number of entries.
    pub fn len(&self) -> (n: usize)
        ensures
            n == self@.len(),
            distinct_names(self@),
    {
        proof {
            use_type_invariant(self);
        }
        self.entries.len()
    }

    /// Whether the map has no entry.
    pub fn is_empty(&self) -> (b: bool)
        ensures
            b == (self@.len() == 0),
    {
        self.entries.len() == 0
    }

    /// The name of the entry at `index`.
    pub fn name_at(&self, index: usize) -> (name: &String)
        requires
            index < self@.len(),
        ensures
            name@ == self@[index as int].0,
    {
        &self.entries[index].0
    }

    /// The value of the entry at `index`.
    pub fn value_at(&self, index: usize) -> (value: &V)
        requires
            index < self@.len(),
        ensures
            value@ == self@[index as int].1,
    {
        &self.entries[index].1
    }

    /// The index of the entry named `key`.
    pub fn position(&self, key: &str) -> (found: Option<usize>)
        ensures
            match found {
                Some(i) => position_of(self@, key@) == Some(i as int) && i < self@.len()
                    && self@[i as int].0 == key@,
                None => position_of(self@, key@) is None,
            },
    {
        proof {
            use_type_invariant(self);
        }
        let mut i: usize = 0;
        while i < self.entries.len()
            invariant
                i <= self.entries.len(),
                distinct_names(self@),
                forall|j: int| 0 <= j < i ==> (#[trigger] self@[j]).0 != key@,
            decreases self.entries.len() - i,
        {
            if same_text(self.entries[i].0.as_str(), key) {
                assert(self@[i as int].0 == key@);
                let ghost chosen = position_of(self@, key@)->0;
                assert(self@[chosen].0 == key@);
                assert(chosen == i);
                return Some(i);
            }
            i += 1;
        }
        None
    }

    /// The value stored under `key`.
    pub fn get(&self, key: &str) -> (found: Option<&V>)
        ensures
            match found {
                Some(value) => position_of(self@, key@) matches Some(i) && value@ == self@[i].1,
                None => position_of(self@, key@) is None,
            },
    {
        match self.position(key) {
            Some(i) => Some(&self.entries[i].1),
            None => None,
        }
    }

    /// Sets `key` to `value`: an entry of that name is replaced where it
    /// stands, a new name goes to the end.
    pub fn insert(&mut self, key: String, value: V)
        ensures
            final(self)@ == with_entry(old(self)@, key@, value@),
            distinct_names(final(self)@),
    {
        proof {
            use_type_invariant(&*self);
            lemma_with_entry_distinct(self@, key@, value@);
        }
        let ghost before = self@;
        // The list is taken out while it changes: the map itself never
        // holds a list in which a name occurs twice.
        match self.position(key.as_str()) {
            Some(i) => {
                let mut entries: Vec<(String, V)> = Vec::new();
                std::mem::swap(&mut entries, &mut self.entries);
                entries.set(i, (key, value));
                assert(entries_view(entries@) =~= with_entry(before, key@, value@));
                self.entries = entries;
            },
            None => {
                let mut entries: Vec<(String, V)> = Vec::new();
                std::mem::swap(&mut entries, &mut self.entries);
                entries.push((key, value));
                assert(entries_view(entries@) =~= with_entry(before, key@, value@));
                self.entries = entries;
            },
        }
    }
}

} // verus!
