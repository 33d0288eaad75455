//! A map from strings to values, seen in contracts through the values' views.

use crate::text::views;
use vstd::hash_map::StringHashMap;
use vstd::prelude::*;

verus! {

/// A hash map keyed by `String` that can list its keys. Its view maps each
/// key, as a sequence of characters, to the view of the value stored under
/// it.
#[verifier::reject_recursive_types(T)]
pub struct Table<T> {
    entries: StringHashMap<T>,
    order: Vec<String>,
}

impl<T: View> View for Table<T> {
    type V = Map<Seq<char>, T::V>;

    closed spec fn view(&self) -> Map<Seq<char>, T::V> {
        self.entries@.map_values(|value: T| value@)
    }
}

impl<T> Table<T> {
    /// The listed keys are the keys of the map, each once.
    #[verifier::type_invariant]
    spec fn well_formed(self) -> bool {
        &&& views(self.order@).no_duplicates()
        &&& forall|key: Seq<char>|
            views(self.order@).contains(key) <==> self.entries@.contains_key(key)
    }
}

impl<T: View> Table<T> {
    /// An empty table.
    pub fn new() -> (table: Self)
        ensures
            table@ == Map::<Seq<char>, T::V>::empty(),
    {
        let table = Table { entries: StringHashMap::new(), order: Vec::new() };
        assert(table@ =~= Map::<Seq<char>, T::V>::empty());
        table
    }

    /// Stores `value` under `key`, in place of what was stored there.
    pub fn insert(&mut self, key: String, value: T)
        ensures
            final(self)@ == old(self)@.insert(key@, value@),
    {
        let mut taken = Table::new();
        std::mem::swap(self, &mut taken);
        proof {
            use_type_invariant(&taken);
        }
        let Table { mut entries, mut order } = taken;
        let ghost before = views(order@);
        let ghost domain = entries@.dom();
        if !entries.contains_key(key.as_str()) {
            order.push(key.clone());
            assert(views(order@) =~= before.push(key@));
        }
        entries.insert(key, value);
        proof {
            let after = views(order@);
            assert(after.no_duplicates()) by {
                if !domain.contains(key@) {
                    assert forall|i: int, j: int|
                        0 <= i < after.len() && 0 <= j < after.len() && i != j implies after[i]
                        != after[j] by {
                        assert(!before.contains(key@));
                        if i < before.len() {
                            assert(before[i] == after[i] && before.contains(before[i]));
                        }
                        if j < before.len() {
                            assert(before[j] == after[j] && before.contains(before[j]));
                        }
                    }
                }
            }
            assert forall|other: Seq<char>|
                after.contains(other) <==> entries@.contains_key(other) by {
                if before.contains(other) {
                    let i = choose|i: int| 0 <= i < before.len() && before[i] == other;
                    assert(after[i] == other);
                }
                if after.contains(other) && other != key@ {
                    let i = choose|i: int| 0 <= i < after.len() && after[i] == other;
                    assert(before[i] == other);
                }
                if !domain.contains(key@) {
                    assert(after[before.len() as int] == key@);
                }
            }
        }
        *self = Table { entries, order };
        assert(self@ =~= old(self)@.insert(key@, value@));
    }

    /// The value stored under `key`, if there is one.
    pub fn get(&self, key: &str) -> (found: Option<&T>)
        ensures
            found.is_some() == self@.contains_key(key@),
            found matches Some(value) ==> value@ == self@[key@],
    {
        self.entries.get(key)
    }

    /// Whether a value is stored under `key`.
    pub fn contains_key(&self, key: &str) -> (present: bool)
        ensures
            present == self@.contains_key(key@),
    {
        self.entries.contains_key(key)
    }

    /// The number of keys.
    pub fn len(&self) -> (count: usize)
        ensures
            count == self@.len(),
    {
        assert(self@.dom() =~= self.entries@.dom());
        self.entries.len()
    }

    /// The keys, each once.
    pub fn keys(&self) -> (keys: &Vec<String>)
        ensures
            views(keys@).no_duplicates(),
            forall|key: Seq<char>| views(keys@).contains(key) <==> self@.contains_key(key),
    {
        proof {
            use_type_invariant(self);
        }
        &self.order
    }
}

} // verus!
