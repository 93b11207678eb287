//! Strings as sequences of characters: their order, and names joined by dots.

use vstd::prelude::*;
use vstd::std_specs::iter::IteratorSpec;
use vstd::string::*;

verus! {

/// The strict order of strings: character by character, by code point, a proper
/// prefix before the longer string.
pub open spec fn precedes(a: Seq<char>, b: Seq<char>) -> bool
    decreases a.len(),
{
    if b.len() == 0 {
        false
    } else if a.len() == 0 {
        true
    } else if a[0] != b[0] {
        (a[0] as u32) < (b[0] as u32)
    } else {
        precedes(a.drop_first(), b.drop_first())
    }
}

/// `a` stands before `b` or is `b`.
pub open spec fn precedes_or_equal(a: Seq<char>, b: Seq<char>) -> bool {
    a == b || precedes(a, b)
}

/// Two characters with one code point are one character.
pub proof fn lemma_code_point_injective(c: char, d: char)
    ensures
        (c as u32) == (d as u32) ==> c == d,
{
}

/// No string stands before itself.
pub proof fn lemma_precedes_irreflexive(a: Seq<char>)
    ensures
        !precedes(a, a),
    decreases a.len(),
{
    if a.len() > 0 {
        lemma_precedes_irreflexive(a.drop_first());
    }
}

/// Of two different strings exactly one stands before the other.
pub proof fn lemma_precedes_total(a: Seq<char>, b: Seq<char>)
    ensures
        a != b ==> (precedes(a, b) <==> !precedes(b, a)),
        a == b ==> !precedes(a, b) && !precedes(b, a),
    decreases a.len(),
{
    if a == b {
        lemma_precedes_irreflexive(a);
    } else if a.len() == 0 || b.len() == 0 {
        assert(a.len() != b.len()) by {
            if a.len() == b.len() {
                assert(a =~= b);
            }
        }
    } else if a[0] != b[0] {
        lemma_code_point_injective(a[0], b[0]);
    } else {
        assert(a.drop_first() != b.drop_first()) by {
            if a.drop_first() == b.drop_first() {
                assert(a =~= seq![a[0]] + a.drop_first());
                assert(b =~= seq![b[0]] + b.drop_first());
            }
        }
        lemma_precedes_total(a.drop_first(), b.drop_first());
    }
}

/// The order is transitive.
pub proof fn lemma_precedes_transitive(a: Seq<char>, b: Seq<char>, c: Seq<char>)
    requires
        precedes(a, b),
        precedes(b, c),
    ensures
        precedes(a, c),
    decreases a.len(),
{
    if a.len() > 0 {
        if a[0] == b[0] && b[0] == c[0] {
            lemma_precedes_transitive(a.drop_first(), b.drop_first(), c.drop_first());
        }
    }
}

/// Two strings that agree on their first `k` characters are ordered as what
/// follows those characters.
pub proof fn lemma_precedes_after_common_prefix(a: Seq<char>, b: Seq<char>, k: int)
    requires
        0 <= k <= a.len(),
        k <= b.len(),
        a.take(k) == b.take(k),
    ensures
        precedes(a, b) == precedes(a.skip(k), b.skip(k)),
    decreases k,
{
    if k == 0 {
        assert(a.skip(0) =~= a);
        assert(b.skip(0) =~= b);
    } else {
        assert(a[0] == a.take(k)[0]);
        assert(a.drop_first().take(k - 1) =~= a.take(k).drop_first());
        assert(b.drop_first().take(k - 1) =~= b.take(k).drop_first());
        lemma_precedes_after_common_prefix(a.drop_first(), b.drop_first(), k - 1);
        assert(a.drop_first().skip(k - 1) =~= a.skip(k));
        assert(b.drop_first().skip(k - 1) =~= b.skip(k));
    }
}

/// Whether `a` and `b` agree on their first `k` characters and `a` is the
/// lesser at the next: `a` ends there and `b` goes on, or `a` has the
/// character of the lower code point.
pub open spec fn lesser_at(a: Seq<char>, b: Seq<char>, k: int) -> bool {
    &&& 0 <= k <= a.len()
    &&& k < b.len()
    &&& a.take(k) == b.take(k)
    &&& (k == a.len() || (a[k] as u32) < (b[k] as u32))
}

/// The order of strings is the lexicographic order: `a` stands before `b`
/// where the two differ and `a` is the lesser at the first difference.
pub proof fn lemma_precedes_is_lexicographic(a: Seq<char>, b: Seq<char>)
    ensures
        precedes(a, b) <==> exists|k: int| lesser_at(a, b, k),
    decreases a.len(),
{
    if precedes(a, b) {
        if a.len() == 0 {
            assert(a.take(0) =~= b.take(0));
            assert(lesser_at(a, b, 0));
        } else if a[0] != b[0] {
            assert(a.take(0) =~= b.take(0));
            assert(lesser_at(a, b, 0));
        } else {
            lemma_precedes_is_lexicographic(a.drop_first(), b.drop_first());
            let k = choose|k: int| lesser_at(a.drop_first(), b.drop_first(), k);
            assert(a.take(k + 1) =~= seq![a[0]] + a.drop_first().take(k));
            assert(b.take(k + 1) =~= seq![b[0]] + b.drop_first().take(k));
            assert(lesser_at(a, b, k + 1));
        }
    }
    if exists|k: int| lesser_at(a, b, k) {
        let k = choose|k: int| lesser_at(a, b, k);
        lemma_precedes_after_common_prefix(a, b, k);
        if k < a.len() {
            lemma_code_point_injective(a[k], b[k]);
        }
    }
}

/// Whether `a` stands before `b` in the order of strings.
pub fn string_precedes(a: &str, b: &str) -> (r: bool)
    ensures
        r == precedes(a@, b@),
{
    let mut left = a.chars();
    let mut right = b.chars();
    let ghost mut k: int = 0;
    loop
        invariant
            0 <= k <= a@.len(),
            k <= b@.len(),
            a@.take(k) == b@.take(k),
            left.remaining() == a@.skip(k),
            right.remaining() == b@.skip(k),
            left.obeys_prophetic_iter_laws(),
            right.obeys_prophetic_iter_laws(),
        decreases a@.len() - k,
    {
        proof {
            lemma_precedes_after_common_prefix(a@, b@, k);
        }
        let x = left.next();
        let y = right.next();
        match (x, y) {
            (_, None) => {
                return false;
            },
            (None, Some(_)) => {
                return true;
            },
            (Some(c), Some(d)) => {
                if c != d {
                    return (c as u32) < (d as u32);
                }
                proof {
                    k = k + 1;
                }
            },
        }
    }
}

/// Whether `a` and `b` are the same string.
pub fn string_equal(a: &str, b: &str) -> (r: bool)
    ensures
        r == (a@ == b@),
{
    let mut left = a.chars();
    let mut right = b.chars();
    let ghost mut k: int = 0;
    loop
        invariant
            0 <= k <= a@.len(),
            k <= b@.len(),
            a@.take(k) == b@.take(k),
            left.remaining() == a@.skip(k),
            right.remaining() == b@.skip(k),
            left.obeys_prophetic_iter_laws(),
            right.obeys_prophetic_iter_laws(),
        decreases a@.len() - k,
    {
        let x = left.next();
        let y = right.next();
        match (x, y) {
            (None, None) => {
                proof {
                    assert(a@.take(k) =~= a@);
                    assert(b@.take(k) =~= b@);
                }
                return true;
            },
            (Some(c), Some(d)) => {
                if c != d {
                    return false;
                }
                proof {
                    k = k + 1;
                }
            },
            _ => {
                return false;
            },
        }
    }
}

/// The name `name` qualified by `owner`: the two joined by a dot.
pub open spec fn qualified(owner: Seq<char>, name: Seq<char>) -> Seq<char> {
    owner + seq!['.'] + name
}

/// The parts of a name in their order, with a dot between neighbours.
pub open spec fn dot_join(parts: Seq<Seq<char>>) -> Seq<char>
    decreases parts.len(),
{
    if parts.len() == 0 {
        Seq::empty()
    } else if parts.len() == 1 {
        parts[0]
    } else {
        qualified(dot_join(parts.drop_last()), parts.last())
    }
}

/// The position of the first dot of `s`, or the length of `s` where it has none.
pub open spec fn first_dot(s: Seq<char>) -> int
    decreases s.len(),
{
    if s.len() == 0 || s[0] == '.' {
        0
    } else {
        1 + first_dot(s.drop_first())
    }
}

/// The position of the last dot of `s`, or -1 where it has none.
pub open spec fn last_dot(s: Seq<char>) -> int
    decreases s.len(),
{
    if s.len() == 0 {
        -1
    } else if s.last() == '.' {
        s.len() - 1
    } else {
        last_dot(s.drop_last())
    }
}

/// Whether `s` holds a dot.
pub open spec fn has_dot(s: Seq<char>) -> bool {
    s.contains('.')
}

/// What stands before the first dot of `s`; all of `s` where it has none.
pub open spec fn before_first_dot(s: Seq<char>) -> Seq<char> {
    s.take(first_dot(s))
}

/// What stands after the last dot of `s`; all of `s` where it has none.
pub open spec fn after_last_dot(s: Seq<char>) -> Seq<char> {
    s.skip(last_dot(s) + 1)
}

/// `first_dot` is the least position of a dot.
pub proof fn lemma_first_dot(s: Seq<char>)
    ensures
        0 <= first_dot(s) <= s.len(),
        first_dot(s) < s.len() ==> s[first_dot(s)] == '.',
        forall|i: int| 0 <= i < first_dot(s) ==> s[i] != '.',
        has_dot(s) <==> first_dot(s) < s.len(),
    decreases s.len(),
{
    if s.len() > 0 && s[0] != '.' {
        let t = s.drop_first();
        lemma_first_dot(t);
        assert forall|i: int| 0 <= i < first_dot(s) implies s[i] != '.' by {
            if i > 0 {
                assert(s[i] == t[i - 1]);
            }
        }
    }
}

/// `last_dot` is the greatest position of a dot.
pub proof fn lemma_last_dot(s: Seq<char>)
    ensures
        -1 <= last_dot(s) < s.len(),
        last_dot(s) >= 0 ==> s[last_dot(s)] == '.',
        forall|i: int| last_dot(s) < i < s.len() ==> s[i] != '.',
        has_dot(s) <==> last_dot(s) >= 0,
    decreases s.len(),
{
    if s.len() > 0 && s.last() != '.' {
        let t = s.drop_last();
        lemma_last_dot(t);
        assert forall|i: int| last_dot(s) < i < s.len() implies s[i] != '.' by {
            if i < s.len() - 1 {
                assert(s[i] == t[i]);
            }
        }
    }
}

/// What stands after the last dot holds no dot.
pub proof fn lemma_after_last_dot_has_no_dot(s: Seq<char>)
    ensures
        !has_dot(after_last_dot(s)),
{
    lemma_last_dot(s);
}

/// A name without a dot, qualified: the result has a dot, begins as the
/// owner begins, and ends in the name.
pub proof fn lemma_qualified_dots(owner: Seq<char>, name: Seq<char>)
    requires
        !has_dot(name),
    ensures
        has_dot(qualified(owner, name)),
        before_first_dot(qualified(owner, name)) == before_first_dot(owner),
        after_last_dot(qualified(owner, name)) == name,
{
    let q = qualified(owner, name);
    let n = owner.len() as int;
    let d = first_dot(owner);
    lemma_first_dot(q);
    lemma_last_dot(q);
    lemma_first_dot(owner);
    assert(q[n] == '.');
    assert(last_dot(q) == n);
    if d < n {
        assert(q[d] == owner[d]);
    }
    assert(first_dot(q) == d);
}

/// `owner` and `name` joined by a dot.
pub fn qualify(owner: &str, name: &str) -> (r: String)
    ensures
        r@ == qualified(owner@, name@),
{
    let mut r = String::from_str(owner);
    r.append(".");
    r.append(name);
    proof {
        reveal_strlit(".");
    }
    r
}

/// A qualified name taken apart: what stands before its first dot and what
/// stands after its last. `None` where the name holds no dot.
pub fn split_qualified(s: &str) -> (r: Option<(String, String)>)
    ensures
        match r {
            Some((owner, name)) => has_dot(s@) && owner@ == before_first_dot(s@) && name@
                == after_last_dot(s@),
            None => !has_dot(s@),
        },
{
    let n = s.unicode_len();
    let mut rest = s.chars();
    let mut first: Option<usize> = None;
    let mut last: usize = 0;
    let mut k: usize = 0;
    loop
        invariant
            n == s@.len(),
            k <= n,
            rest.remaining() == s@.skip(k as int),
            rest.obeys_prophetic_iter_laws(),
            match first {
                Some(f) => f <= last < k && s@[f as int] == '.' && s@[last as int] == '.' && (
                forall|i: int| 0 <= i < f ==> s@[i] != '.') && (forall|i: int|
                    last < i < k ==> s@[i] != '.'),
                None => forall|i: int| 0 <= i < k ==> s@[i] != '.',
            },
        ensures
            k == n,
        decreases n - k,
    {
        match rest.next() {
            None => {
                break ;
            },
            Some(c) => {
                if c == '.' {
                    if first.is_none() {
                        first = Some(k);
                    }
                    last = k;
                }
                k = k + 1;
            },
        }
    }
    proof {
        lemma_first_dot(s@);
        lemma_last_dot(s@);
    }
    match first {
        None => None,
        Some(f) => {
            let owner = s.substring_char(0, f);
            let name = s.substring_char(last + 1, k);
            Some((String::from_str(owner), String::from_str(name)))
        },
    }
}

} // verus!
