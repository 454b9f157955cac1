//! A dictionary with text keys, held as the list of its entries.

use vstd::prelude::*;
use vstd::string::*;

verus! {

/// One entry of a dictionary.
#[derive(Debug, PartialEq, Eq)]
pub struct Entry<V> {
    pub key: String,
    pub value: V,
}

/// A dictionary from text keys to values, held as its entries in some
/// order. Where a key occurs more than once, its first entry counts.
#[derive(Debug, PartialEq, Eq)]
pub struct Dict<V> {
    pub entries: Vec<Entry<V>>,
}

/// The place of the first entry from `from` on that has the key.
pub open spec fn entry_from<V>(entries: Seq<Entry<V>>, key: Seq<char>, from: int) -> Option<int>
    decreases entries.len() - from,
{
    if from >= entries.len() {
        None
    } else if entries[from].key@ == key {
        Some(from)
    } else {
        entry_from(entries, key, from + 1)
    }
}

/// The place of the entry that counts for a key.
pub open spec fn entry_of<V>(entries: Seq<Entry<V>>, key: Seq<char>) -> Option<int> {
    entry_from(entries, key, 0)
}

impl<V> View for Dict<V> {
    type V = Map<Seq<char>, V>;

    /// The dictionary as a map from the keys that it holds to the value of
    /// the entry that counts for each.
    open spec fn view(&self) -> Map<Seq<char>, V> {
        Map::new(
            |key: Seq<char>| entry_of(self.entries@, key) is Some,
            |key: Seq<char>| self.entries@[entry_of(self.entries@, key)->0].value,
        )
    }
}

impl<V> Dict<V> {
    /// Whether the dictionary holds nothing.
    pub fn is_empty(&self) -> (empty: bool)
        ensures
            empty == self@.is_empty(),
    {
        let empty = self.entries.len() == 0;
        proof {
            if !empty {
                assert(entry_of(self.entries@, self.entries@[0].key@) == Some(0int));
                assert(self@.dom().contains(self.entries@[0].key@));
            }
        }
        empty
    }

    /// Looks a key up.
    pub fn get(&self, key: &str) -> (found: Option<&V>)
        ensures
            match found {
                Some(value) => self@.contains_key(key@) && self@[key@] == *value,
                None => !self@.contains_key(key@),
            },
    {
        let wanted = String::from_str(key);
        let mut at: usize = 0;
        while at < self.entries.len()
            invariant
                at <= self.entries.len(),
                wanted@ == key@,
                entry_of(self.entries@, key@) == entry_from(self.entries@, key@, at as int),
            decreases self.entries.len() - at,
        {
            if self.entries[at].key == wanted {
                return Some(&self.entries[at].value);
            }
            at += 1;
        }
        None
    }

    /// Whether the dictionary has an entry for a key.
    pub fn contains_key(&self, key: &str) -> (found: bool)
        ensures
            found == self@.contains_key(key@),
    {
        self.get(key).is_some()
    }
}

} // verus!
