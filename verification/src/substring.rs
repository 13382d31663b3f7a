//! The mathematics of substring containment: occurrences, borders, and the
//! failure table that the search engine's scan relies on.

use vstd::prelude::*;

verus! {

/// `p` occurs in `t` starting at position `i`.
pub open spec fn contains_at(t: Seq<char>, p: Seq<char>, i: int) -> bool {
    &&& 0 <= i
    &&& i + p.len() <= t.len()
    &&& forall|j: int| 0 <= j < p.len() ==> t[i + j] == #[trigger] p[j]
}

/// `p` is a contiguous substring of `t`.  The empty pattern is a substring of
/// every text.
pub open spec fn is_substring(p: Seq<char>, t: Seq<char>) -> bool {
    exists|i: int| contains_at(t, p, i)
}

/// The empty pattern matches every text.
pub proof fn lemma_empty_pattern_matches(t: Seq<char>)
    ensures
        is_substring(Seq::<char>::empty(), t),
{
    assert(contains_at(t, Seq::<char>::empty(), 0));
}

/// Containment is antitone in the pattern: a prefix of `p` occurs wherever `p`
/// does.  This is what justifies re-testing only the candidates still marked
/// as matching when the query grows.
pub proof fn lemma_substring_of_prefix(p: Seq<char>, t: Seq<char>, n: int)
    requires
        0 <= n <= p.len(),
        is_substring(p, t),
    ensures
        is_substring(p.take(n), t),
{
    let i = choose|i: int| contains_at(t, p, i);
    assert(contains_at(t, p.take(n), i));
}

/// The first `k` characters of `s` equal its last `k` characters.
/// (`k == s.len()` is allowed; a *proper* border also has `k < s.len()`.)
pub open spec fn is_border(s: Seq<char>, k: int) -> bool {
    &&& 0 <= k <= s.len()
    &&& forall|j: int| 0 <= j < k ==> #[trigger] s[j] == s[s.len() - k + j]
}

/// `k` is the longest proper border of `s`.
pub open spec fn is_max_border(s: Seq<char>, k: int) -> bool {
    &&& 0 <= k < s.len()
    &&& is_border(s, k)
    &&& forall|l: int| k < l < s.len() ==> !is_border(s, l)
}

/// `table` is the Knuth-Morris-Pratt failure table for `p`: it has one entry
/// per prefix of `p` (the empty prefix included), and entry `i` is the length
/// of the longest proper prefix of `p[0..i]` that is also a suffix of it.
pub open spec fn is_failure_table(p: Seq<char>, table: Seq<usize>) -> bool {
    &&& table.len() == p.len() + 1
    &&& table[0] == 0
    &&& forall|i: int| 1 <= i <= p.len() ==> is_max_border(#[trigger] p.take(i), table[i] as int)
}

/// A border of a border is a border: borders of the length-`b` prefix of `s`
/// transfer to `s` itself whenever `b` is a border of `s`.
pub proof fn lemma_border_of_border(s: Seq<char>, a: int, b: int)
    requires
        is_border(s, b),
        is_border(s.take(b), a),
    ensures
        is_border(s, a),
{
    assert forall|j: int| 0 <= j < a implies #[trigger] s[j] == s[s.len() - a + j] by {
        assert(s.take(b)[j] == s.take(b)[b - a + j]);
        assert(s[b - a + j] == s[s.len() - b + (b - a + j)]);
    }
}

/// Of two borders of `s`, the shorter is a border of the longer (viewed as a
/// prefix of `s`).  Together with `lemma_border_of_border` this makes the
/// chain `table[k], table[table[k]], ...` enumerate every border of `s`.
pub proof fn lemma_border_within(s: Seq<char>, a: int, b: int)
    requires
        a <= b,
        is_border(s, a),
        is_border(s, b),
    ensures
        is_border(s.take(b), a),
{
    assert forall|j: int| 0 <= j < a implies #[trigger] s.take(b)[j] == s.take(b)[b - a + j] by {
        assert(s[b - a + j] == s[s.len() - b + (b - a + j)]);
        assert(s[j] == s[s.len() - a + j]);
    }
}

/// A nonempty border of `s` is a border of `s` without its last character,
/// extended by one matching character, and conversely.
pub proof fn lemma_border_extend(s: Seq<char>, l: int)
    requires
        1 <= l < s.len(),
    ensures
        is_border(s, l) <==> (is_border(s.drop_last(), l - 1) && s[l - 1] == s[s.len() - 1]),
{
    let t = s.drop_last();
    if is_border(s, l) {
        assert(s[l - 1] == s[s.len() - l + (l - 1)]);
        assert forall|j: int| 0 <= j < l - 1 implies #[trigger] t[j] == t[t.len() - (l - 1) + j] by {
            assert(s[j] == s[s.len() - l + j]);
        }
    }
    if is_border(t, l - 1) && s[l - 1] == s[s.len() - 1] {
        assert forall|j: int| 0 <= j < l implies #[trigger] s[j] == s[s.len() - l + j] by {
            if j < l - 1 {
                assert(t[j] == t[t.len() - (l - 1) + j]);
            }
        }
    }
}

} // verus!
