//! The options dictionary and its ownership bridge.
//!
//! An options dictionary is an ordered list of string key/value pairs
//! handed to a native open call, which may consume or rewrite entries.
//! Ownership crosses the native boundary for exactly one call:
//! `disown` surrenders the entries, and `own` rebuilds a dictionary
//! from whatever the native layer left behind. `own` is total — every
//! post-call entry list yields a usable dictionary — so no exit path
//! of an open call can strand the caller without one.

use vstd::prelude::*;

verus! {

/// The entries of a raw entry list, as sequences of characters.
pub open spec fn entries_view(entries: Seq<(String, String)>) -> Seq<(Seq<char>, Seq<char>)> {
    entries.map_values(|p: (String, String)| (p.0@, p.1@))
}

/// An ordered mapping of string option keys to string values.
#[derive(Debug)]
pub struct Dictionary {
    entries: Vec<(String, String)>,
}

impl View for Dictionary {
    type V = Seq<(Seq<char>, Seq<char>)>;

    closed spec fn view(&self) -> Seq<(Seq<char>, Seq<char>)> {
        entries_view(self.entries@)
    }
}

impl Dictionary {
    /// An empty dictionary.
    pub fn new() -> (d: Self)
        ensures
            d@ =~= Seq::<(Seq<char>, Seq<char>)>::empty(),
    {
        Dictionary { entries: Vec::new() }
    }

    /// How many entries the dictionary holds.
    pub fn len(&self) -> (n: usize)
        ensures
            n == self@.len(),
    {
        self.entries.len()
    }

    /// Append one key/value entry at the end.
    pub fn push(&mut self, key: String, value: String)
        ensures
            final(self)@ =~= old(self)@.push((key@, value@)),
    {
        self.entries.push((key, value));
    }

    /// The key of the entry at position `i`.
    pub fn key_at(&self, i: usize) -> (r: &String)
        requires
            i < self@.len(),
        ensures
            r@ == self@[i as int].0,
    {
        &self.entries[i].0
    }

    /// The value of the entry at position `i`.
    pub fn value_at(&self, i: usize) -> (r: &String)
        requires
            i < self@.len(),
        ensures
            r@ == self@[i as int].1,
    {
        &self.entries[i].1
    }

    /// Surrender the entries so they can cross the native boundary for
    /// one call. Until `own` is called on what comes back, the caller
    /// holds no dictionary.
    pub fn disown(self) -> (r: Vec<(String, String)>)
        ensures
            entries_view(r@) == self@,
    {
        self.entries
    }

    /// Reclaim a dictionary from whatever entry list the native call
    /// left behind. Total: every post-call state, mutated or not,
    /// yields a usable dictionary again.
    pub fn own(entries: Vec<(String, String)>) -> (d: Self)
        ensures
            d@ == entries_view(entries@),
    {
        Dictionary { entries }
    }
}

} // verus!
