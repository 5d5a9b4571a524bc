//! An associative container keyed by [`QualifiedName`].
//!
//! Entries are kept in insertion order; a later insertion of the same key
//! shadows an earlier one, so lookup scans from the newest entry backwards.
//! Its model is the sequence of (key view, value view) pairs, read through
//! [`assoc_get`].

use vstd::prelude::*;

use crate::names::{QualifiedName, QualifiedNameView};

verus! {

/// The value an association sequence holds for a key: the value of the
/// newest entry with that key, or `None`.
pub open spec fn assoc_get<T>(s: Seq<(QualifiedNameView, T)>, key: QualifiedNameView) -> Option<T>
    decreases s.len(),
{
    if s.len() == 0 {
        None
    } else if s.last().0 == key {
        Some(s.last().1)
    } else {
        assoc_get(s.drop_last(), key)
    }
}

/// Whether an association sequence holds any entry for a key.
pub open spec fn assoc_contains<T>(
    s: Seq<(QualifiedNameView, T)>,
    key: QualifiedNameView,
) -> bool {
    assoc_get(s, key) is Some
}

/// A table from qualified names to values, in insertion order.
#[derive(Debug, Clone, PartialEq, Eq)]
pub struct QualifiedMap<V> {
    pub entries: Vec<(QualifiedName, V)>,
}

impl<V: DeepView> DeepView for QualifiedMap<V> {
    type V = Seq<(QualifiedNameView, <V as DeepView>::V)>;

    open spec fn deep_view(&self) -> Seq<(QualifiedNameView, <V as DeepView>::V)> {
        self.entries.deep_view()
    }
}

impl<V: DeepView> QualifiedMap<V> {
    /// The empty table.
    pub fn new() -> (r: QualifiedMap<V>)
        ensures
            r.deep_view() == Seq::<(QualifiedNameView, <V as DeepView>::V)>::empty(),
    {
        let r = QualifiedMap { entries: Vec::new() };
        proof {
            assert(r.deep_view() =~= Seq::<(QualifiedNameView, <V as DeepView>::V)>::empty());
        }
        r
    }

    /// Add an entry; it shadows any earlier entry with the same key.
    pub fn insert(&mut self, key: QualifiedName, value: V)
        ensures
            final(self).deep_view() == old(self).deep_view().push((key@, value.deep_view())),
    {
        let ghost before = self.entries.deep_view();
        self.entries.push((key, value));
        proof {
            assert(self.entries.deep_view() =~= before.push(
                (key@, value.deep_view()),
            ));
        }
    }

    /// The number of entries.
    pub fn len(&self) -> (r: usize)
        ensures
            r == self.deep_view().len(),
    {
        self.entries.len()
    }

    /// The entry at an index, oldest first.
    pub fn entry_at(&self, i: usize) -> (r: &(QualifiedName, V))
        requires
            i < self.deep_view().len(),
        ensures
            r.deep_view() == self.deep_view()[i as int],
    {
        &self.entries[i]
    }

    /// Look the key up, newest entry first.
    pub fn get(&self, key: &QualifiedName) -> (r: Option<&V>)
        ensures
            match r {
                Some(v) => assoc_get(self.deep_view(), key@) == Some(v.deep_view()),
                None => assoc_get(self.deep_view(), key@) is None,
            },
    {
        let ghost s = self.deep_view();
        let mut i: usize = self.entries.len();
        proof {
            assert(s.take(i as int) =~= s);
        }
        while i > 0
            invariant
                i <= self.entries.len(),
                s == self.deep_view(),
                s.len() == self.entries.len(),
                assoc_get(s, key@) == assoc_get(s.take(i as int), key@),
            decreases i,
        {
            i = i - 1;
            let hit = self.entries[i].0 == *key;
            proof {
                assert(s.take(i + 1).drop_last() =~= s.take(i as int));
                assert(s.take(i + 1).last() == s[i as int]);
                assert(s[i as int].0 == self.entries[i as int].0@);
            }
            if hit {
                return Some(&self.entries[i].1);
            }
        }
        proof {
            assert(s.take(0) =~= Seq::<(QualifiedNameView, <V as DeepView>::V)>::empty());
        }
        None
    }

    /// Whether the table holds any entry for the key.
    pub fn contains_key(&self, key: &QualifiedName) -> (r: bool)
        ensures
            r == assoc_contains(self.deep_view(), key@),
    {
        self.get(key).is_some()
    }
}

} // verus!
