//! The aliases of a statement: which table each alias stands for.
//!
//! The bindings are kept in the order in which they were made. An alias that
//! is bound again stands for the later table.

use crate::text::string_equal;
use vstd::prelude::*;

verus! {

/// What a list of bindings says, read from first to last: a later binding of
/// an alias replaces an earlier one.
pub open spec fn bindings(entries: Seq<(String, String)>) -> Map<Seq<char>, Seq<char>>
    decreases entries.len(),
{
    if entries.len() == 0 {
        Map::empty()
    } else {
        bindings(entries.drop_last()).insert(entries.last().0@, entries.last().1@)
    }
}

/// A lookup table from alias to table name.
pub struct AliasMap {
    entries: Vec<(String, String)>,
}

impl View for AliasMap {
    type V = Map<Seq<char>, Seq<char>>;

    closed spec fn view(&self) -> Map<Seq<char>, Seq<char>> {
        bindings(self.entries@)
    }
}

impl AliasMap {
    /// The table without aliases.
    pub fn new() -> (r: Self)
        ensures
            r@ == Map::<Seq<char>, Seq<char>>::empty(),
    {
        AliasMap { entries: Vec::new() }
    }

    /// Lets `alias` stand for `table`, whatever it stood for before.
    pub fn insert(&mut self, alias: String, table: String)
        ensures
            final(self)@ == old(self)@.insert(alias@, table@),
    {
        let ghost before = self.entries@;
        self.entries.push((alias, table));
        assert(self.entries@.drop_last() =~= before);
    }

    /// The table that `alias` stands for, if it is an alias.
    pub fn get(&self, alias: &str) -> (r: Option<&String>)
        ensures
            match r {
                Some(table) => self@.contains_key(alias@) && self@[alias@] == table@,
                None => !self@.contains_key(alias@),
            },
    {
        let mut found: Option<&String> = None;
        let mut i: usize = 0;
        while i < self.entries.len()
            invariant
                i <= self.entries.len(),
                match found {
                    Some(table) => bindings(self.entries@.take(i as int)).contains_key(alias@)
                        && bindings(self.entries@.take(i as int))[alias@] == table@,
                    None => !bindings(self.entries@.take(i as int)).contains_key(alias@),
                },
            decreases self.entries.len() - i,
        {
            proof {
                let next = self.entries@.take(i + 1);
                assert(next.drop_last() =~= self.entries@.take(i as int));
            }
            if string_equal(self.entries[i].0.as_str(), alias) {
                found = Some(&self.entries[i].1);
            }
            i = i + 1;
        }
        assert(self.entries@.take(i as int) =~= self.entries@);
        found
    }
}

} // verus!
