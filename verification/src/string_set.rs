//! Finite sets of strings.
//!
//! A set keeps its strings in strictly ascending order, so none stands in it
//! twice, and hands them out in that order.

use crate::text::{
    lemma_precedes_irreflexive, lemma_precedes_total, lemma_precedes_transitive, precedes,
    precedes_or_equal, string_precedes,
};
use vstd::prelude::*;
use vstd::relations::total_ordering;
use vstd::seq_lib::lemma_sorted_unique;

verus! {

/// The texts of a list of strings, in the list's order.
pub open spec fn texts(v: Seq<String>) -> Seq<Seq<char>> {
    v.map_values(|s: String| s@)
}

/// Each element stands before every later one in the order of strings.
pub open spec fn strictly_ascending(q: Seq<Seq<char>>) -> bool {
    forall|i: int, j: int| 0 <= i < j < q.len() ==> precedes(#[trigger] q[i], #[trigger] q[j])
}

/// The order of strings as a relation, equal strings included.
pub open spec fn string_order() -> spec_fn(Seq<char>, Seq<char>) -> bool {
    |a: Seq<char>, b: Seq<char>| precedes_or_equal(a, b)
}

/// The elements of a finite set of strings in ascending order.
pub open spec fn ascending(s: Set<Seq<char>>) -> Seq<Seq<char>> {
    s.to_sorted_seq(string_order())
}

/// The order of strings is a total order.
pub proof fn lemma_string_order_total()
    ensures
        total_ordering(string_order()),
{
    let r = string_order();
    assert forall|x: Seq<char>, y: Seq<char>| #[trigger] r(x, y) && #[trigger] r(y, x) implies x
        == y by {
        lemma_precedes_total(x, y);
    }
    assert forall|x: Seq<char>, y: Seq<char>, z: Seq<char>| #[trigger] r(x, y) && #[trigger] r(
        y,
        z,
    ) implies r(x, z) by {
        if x != y && y != z {
            lemma_precedes_transitive(x, y, z);
        }
    }
    assert forall|x: Seq<char>, y: Seq<char>| #[trigger] r(x, y) || #[trigger] r(y, x) by {
        lemma_precedes_total(x, y);
    }
}

/// A strictly ascending sequence holds no element twice.
pub proof fn lemma_ascending_no_duplicates(q: Seq<Seq<char>>)
    requires
        strictly_ascending(q),
    ensures
        q.no_duplicates(),
{
    assert forall|i: int, j: int| 0 <= i < q.len() && 0 <= j < q.len() && i != j implies q[i]
        != q[j] by {
        lemma_precedes_irreflexive(q[i]);
    }
}

/// The elements of a finite set, listed in some order, are listed once each.
proof fn lemma_to_seq_no_duplicates(s: Set<Seq<char>>)
    requires
        s.finite(),
    ensures
        s.to_seq().no_duplicates(),
        s.to_seq().to_set() =~= s,
    decreases s.len(),
{
    s.lemma_to_seq_to_set_id();
    if s.len() != 0 {
        let x = s.choose();
        let rest = s.remove(x);
        lemma_to_seq_no_duplicates(rest);
    }
}

/// Two sequences without repetition that hold the same elements hold each
/// element as often as the other.
proof fn lemma_same_elements_same_multiset(p: Seq<Seq<char>>, q: Seq<Seq<char>>)
    requires
        p.no_duplicates(),
        q.no_duplicates(),
        p.to_set() =~= q.to_set(),
    ensures
        p.to_multiset() =~= q.to_multiset(),
{
    broadcast use vstd::seq_lib::group_to_multiset_ensures;

    p.lemma_multiset_has_no_duplicates();
    q.lemma_multiset_has_no_duplicates();
    assert forall|x: Seq<char>| p.to_multiset().count(x) == q.to_multiset().count(x) by {
        assert(p.contains(x) <==> p.to_set().contains(x));
    }
}

/// The ascending listing of a finite set is strictly ascending and holds the
/// set's elements and no others.
pub proof fn lemma_ascending(s: Set<Seq<char>>)
    requires
        s.finite(),
    ensures
        strictly_ascending(ascending(s)),
        ascending(s).no_duplicates(),
        ascending(s).to_set() =~= s,
{
    broadcast use vstd::seq_lib::group_to_multiset_ensures;

    let p = s.to_seq();
    let q = ascending(s);
    lemma_string_order_total();
    lemma_to_seq_no_duplicates(s);
    p.lemma_sort_by_ensures(string_order());
    p.lemma_multiset_has_no_duplicates();
    q.lemma_multiset_has_no_duplicates_conv();
    assert forall|i: int, j: int| 0 <= i < j < q.len() implies precedes(
        #[trigger] q[i],
        #[trigger] q[j],
    ) by {
        assert(string_order()(q[i], q[j]));
    }
    assert forall|x: Seq<char>| q.to_set().contains(x) <==> s.contains(x) by {
        assert(q.contains(x) <==> q.to_multiset().count(x) > 0);
    }
}

/// A strictly ascending sequence is the ascending listing of its elements:
/// the order of the output is fixed by what it holds.
pub proof fn lemma_ascending_unique(q: Seq<Seq<char>>, s: Set<Seq<char>>)
    requires
        strictly_ascending(q),
        q.to_set() =~= s,
    ensures
        q == ascending(s),
{
    vstd::seq_lib::seq_to_set_is_finite(q);
    lemma_string_order_total();
    lemma_ascending(s);
    lemma_ascending_no_duplicates(q);
    lemma_same_elements_same_multiset(q, ascending(s));
    lemma_sorted_unique(q, ascending(s), string_order());
}

/// A finite set of strings.
pub struct StringSet {
    items: Vec<String>,
}

impl View for StringSet {
    type V = Set<Seq<char>>;

    closed spec fn view(&self) -> Set<Seq<char>> {
        texts(self.items@).to_set()
    }
}

impl StringSet {
    /// The strings are held in strictly ascending order.
    pub closed spec fn wf(&self) -> bool {
        strictly_ascending(texts(self.items@))
    }

    /// The empty set.
    pub fn new() -> (r: Self)
        ensures
            r.wf(),
            r@ == Set::<Seq<char>>::empty(),
    {
        StringSet { items: Vec::new() }
    }

    /// Adds `s` to the set; a string that the set holds already changes nothing.
    pub fn insert(&mut self, s: String)
        requires
            old(self).wf(),
        ensures
            final(self).wf(),
            final(self)@ == old(self)@.insert(s@),
    {
        let ghost before = texts(self.items@);
        let mut i: usize = 0;
        while i < self.items.len() && string_precedes(self.items[i].as_str(), s.as_str())
            invariant
                i <= self.items.len(),
                texts(self.items@) == before,
                forall|j: int| 0 <= j < i ==> precedes(#[trigger] before[j], s@),
            decreases self.items.len() - i,
        {
            i = i + 1;
        }
        if i < self.items.len() && self.items[i] == s {
            assert(before[i as int] == s@);
        } else {
            proof {
                if i < before.len() {
                    lemma_precedes_total(before[i as int], s@);
                }
            }
            self.items.insert(i, s);
            proof {
                let after = texts(self.items@);
                assert(after =~= before.insert(i as int, s@));
                assert forall|a: int, b: int| 0 <= a < b < after.len() implies precedes(
                    #[trigger] after[a],
                    #[trigger] after[b],
                ) by {
                    if a == i && b > i + 1 {
                        lemma_precedes_transitive(s@, before[i as int], before[b - 1]);
                    }
                }
                assert forall|x: Seq<char>| after.to_set().contains(x) <==> before.to_set().insert(
                    s@,
                ).contains(x) by {
                    if before.to_set().contains(x) {
                        let k = choose|k: int| 0 <= k < before.len() && before[k] == x;
                        if k < i {
                            assert(after[k] == x);
                        } else {
                            assert(after[k + 1] == x);
                        }
                    }
                    if x == s@ {
                        assert(after[i as int] == x);
                    }
                }
            }
        }
    }

    /// The elements in ascending order.
    pub fn as_vec(&self) -> (r: &Vec<String>)
        requires
            self.wf(),
        ensures
            texts(r@) == ascending(self@),
            texts(r@).to_set() == self@,
    {
        proof {
            lemma_ascending_unique(texts(self.items@), self@);
        }
        &self.items
    }

    /// The elements, handed over in ascending order.
    pub fn into_vec(self) -> (r: Vec<String>)
        requires
            self.wf(),
        ensures
            texts(r@) == ascending(self@),
            texts(r@).to_set() == self@,
    {
        proof {
            lemma_ascending_unique(texts(self.items@), self@);
        }
        self.items
    }
}

} // verus!
