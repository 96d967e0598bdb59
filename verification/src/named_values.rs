//! Name-value pairs with map semantics.
use vstd::prelude::*;

use crate::text::str_eq;

verus! {

/// Name-value pairs (form fields, environment variables): a later value for
/// a name replaces an earlier one.
#[derive(Debug, Clone)]
pub struct NamedValues {
    entries: Vec<(String, String)>,
}

/// The map that a list of entries describes (later entries win).
pub open spec fn entries_map(e: Seq<(String, String)>) -> Map<Seq<char>, Seq<char>>
    decreases e.len(),
{
    if e.len() == 0 {
        Map::empty()
    } else {
        entries_map(e.drop_last()).insert(e.last().0@, e.last().1@)
    }
}

impl View for NamedValues {
    type V = Map<Seq<char>, Seq<char>>;

    closed spec fn view(&self) -> Map<Seq<char>, Seq<char>> {
        entries_map(self.entries@)
    }
}

impl NamedValues {
    /// No fields.
    pub fn new() -> (t: Self)
        ensures
            t@ == Map::<Seq<char>, Seq<char>>::empty(),
    {
        NamedValues { entries: Vec::new() }
    }

    /// Sets `name` to `value`, replacing an earlier value.
    pub fn insert(&mut self, name: String, value: String)
        ensures
            final(self)@ == old(self)@.insert(name@, value@),
    {
        self.entries.push((name, value));
        assert(self.entries@.drop_last() =~= old(self).entries@);
    }

    /// The value of `name`, if the form had it.
    pub fn get(&self, name: &str) -> (r: Option<String>)
        ensures
            match r {
                Some(v) => self@.contains_key(name@) && self@[name@] == v@,
                None => !self@.contains_key(name@),
            },
    {
        let mut n = self.entries.len();
        assert(self.entries@.take(n as int) =~= self.entries@);
        while n > 0
            invariant
                n <= self.entries@.len(),
                entries_map(self.entries@).contains_key(name@) <==> entries_map(self.entries@.take(n as int)).contains_key(name@),
                entries_map(self.entries@).contains_key(name@) ==> entries_map(self.entries@)[name@] == entries_map(self.entries@.take(n as int))[name@],
            decreases n,
        {
            assert(self.entries@.take(n as int).drop_last() =~= self.entries@.take(n - 1));
            if str_eq(self.entries[n - 1].0.as_str(), name) {
                return Some(self.entries[n - 1].1.clone());
            }
            n -= 1;
        }
        None
    }

    /// The stored `(name, value)` pairs, oldest first.
    pub fn entries(&self) -> (r: &Vec<(String, String)>)
        ensures
            entries_map(r@) == self@,
    {
        &self.entries
    }
}

} // verus!
