//! Headers kept under their keys, in the order in which the keys came.

use vstd::prelude::*;
use crate::request::{Entry, EntryView};
use crate::text::str_eq;

verus! {

/// Whether some entry of the list has the key, letter for letter.
pub open spec fn has_key(entries: Seq<EntryView>, key: Seq<char>) -> bool {
    exists|i: int| 0 <= i < entries.len() && (#[trigger] entries[i]).key == key
}

/// Whether no key occurs twice in the list.
pub open spec fn keys_distinct(entries: Seq<EntryView>) -> bool {
    forall|i: int, j: int|
        0 <= i < j < entries.len() ==> (#[trigger] entries[i]).key != (#[trigger] entries[j]).key
}

/// The list after an entry was put under its key: where the key is there
/// already the entry takes the old one's place, else it comes last.
pub open spec fn inserted(entries: Seq<EntryView>, entry: EntryView) -> Seq<EntryView> {
    if has_key(entries, entry.key) {
        Seq::new(
            entries.len(),
            |i: int|
                if entries[i].key == entry.key {
                    entry
                } else {
                    entries[i]
                },
        )
    } else {
        entries.push(entry)
    }
}

/// A map from header keys to headers that keeps the order of insertion. Keys
/// are compared letter for letter, so `Accept` and `accept` are two keys.
#[derive(Debug, PartialEq, Eq)]
pub struct HeaderMap {
    entries: Vec<Entry>,
}

impl View for HeaderMap {
    type V = Seq<EntryView>;

    closed spec fn view(&self) -> Seq<EntryView> {
        self.entries.deep_view()
    }
}

impl HeaderMap {
    /// No key occurs twice.
    pub open spec fn wf(&self) -> bool {
        keys_distinct(self@)
    }

    /// An empty map.
    pub fn new() -> (r: HeaderMap)
        ensures
            r.wf(),
            r@ == Seq::<EntryView>::empty(),
    {
        let r = HeaderMap { entries: Vec::new() };
        assert(r@ =~= Seq::<EntryView>::empty());
        r
    }

    /// Where the key stands in the map, if it is there.
    fn position(&self, key: &str) -> (r: Option<usize>)
        ensures
            match r {
                Some(i) => i < self@.len() && self@[i as int].key == key@,
                None => !has_key(self@, key@),
            },
    {
        let mut i: usize = 0;
        while i < self.entries.len()
            invariant
                i <= self.entries.len(),
                forall|j: int| 0 <= j < i ==> (#[trigger] self@[j]).key != key@,
            decreases self.entries.len() - i,
        {
            if str_eq(self.entries[i].key.as_str(), key) {
                return Some(i);
            }
            i = i + 1;
        }
        None
    }

    /// Whether the map holds a header under the key.
    pub fn contains_key(&self, key: &str) -> (r: bool)
        ensures
            r == has_key(self@, key@),
    {
        self.position(key).is_some()
    }

    /// Puts a header under its key. A header that was there under the same key
    /// is replaced and keeps its place; a new key comes last.
    pub fn insert(&mut self, entry: Entry)
        requires
            old(self).wf(),
        ensures
            final(self).wf(),
            final(self)@ == inserted(old(self)@, entry@),
    {
        match self.position(entry.key.as_str()) {
            Some(i) => {
                self.entries.set(i, entry);
                assert(self@ =~= inserted(old(self)@, entry@));
            },
            None => {
                self.entries.push(entry);
                assert(self@ =~= inserted(old(self)@, entry@));
            },
        }
    }

    /// The headers in the order in which their keys came.
    pub fn into_values(self) -> (r: Vec<Entry>)
        ensures
            r.deep_view() == self@,
    {
        self.entries
    }
}

} // verus!
