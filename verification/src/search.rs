//! The incremental substring-search engine: Knuth-Morris-Pratt preprocessing
//! and scan, and the live filter over a candidate list maintained as the
//! query is edited.

use vstd::prelude::*;

use crate::chars::str_to_chars;
use crate::substring::{
    contains_at, is_border, is_failure_table, is_max_border, is_substring,
    lemma_border_extend, lemma_border_of_border, lemma_border_within,
    lemma_empty_pattern_matches, lemma_substring_of_prefix,
};

verus! {

/// The Knuth-Morris-Pratt scan over character vectors.  Walks the text once;
/// on a mismatch after `ss` matched characters it falls back to the longest
/// border of the matched prefix instead of rescanning.
fn kmp_chars(p: &Vec<char>, t: &Vec<char>, table: &Vec<usize>) -> (r: bool)
    requires
        is_failure_table(p@, table@),
    ensures
        r == is_substring(p@, t@),
{
    let m = p.len();
    let n = t.len();
    if m == 0 {
        proof {
            lemma_empty_pattern_matches(t@);
            assert(p@ =~= Seq::<char>::empty());
        }
        return true;
    }
    let mut ss: usize = 0;
    let mut txt: usize = 0;
    while txt < n && ss < m
        invariant
            m == p@.len(),
            n == t@.len(),
            1 <= m,
            ss < m,
            ss <= txt <= n,
            is_failure_table(p@, table@),
            forall|j: int| 0 <= j < ss ==> #[trigger] p@[j] == t@[txt - ss + j],
            forall|j: int| 0 <= j < txt - ss ==> !contains_at(t@, p@, j),
        decreases 2 * (n - txt) + ss,
    {
        if p[ss] == t[txt] {
            ss = ss + 1;
            txt = txt + 1;
            if ss >= m {
                proof {
                    assert(contains_at(t@, p@, txt - m));
                }
                return true;
            }
        } else if ss == 0 {
            txt = txt + 1;
            proof {
                assert forall|j: int| 0 <= j < txt - ss implies !contains_at(t@, p@, j) by {
                    if j == txt - 1 {
                        assert(contains_at(t@, p@, j) ==> t@[j] == p@[0]);
                    }
                }
            }
        } else {
            let k = table[ss];
            proof {
                let ssi = ss as int;
                let ki = k as int;
                assert(is_max_border(p@.take(ssi), ki));
                // The matched prefix stays matched after the fallback.
                assert forall|j: int| 0 <= j < ki implies #[trigger] p@[j] == t@[txt - ki + j] by {
                    assert(p@.take(ssi)[j] == p@.take(ssi)[ssi - ki + j]);
                }
                // No occurrence can start in the skipped-over window.
                assert forall|j: int| 0 <= j < txt - ki implies !contains_at(t@, p@, j) by {
                    if txt - ssi <= j && contains_at(t@, p@, j) {
                        let l = txt - j;
                        assert forall|j2: int| 0 <= j2 < l implies #[trigger] p@.take(ssi)[j2]
                            == p@.take(ssi)[ssi - l + j2] by {
                            assert(t@[j + j2] == p@[j2]);
                            assert(p@[ssi - l + j2] == t@[txt - ssi + (ssi - l + j2)]);
                        }
                        assert(is_border(p@.take(ssi), l));
                        if l == ssi {
                            assert(t@[j + ssi] == p@[ssi]);
                            assert(false);
                        } else {
                            assert(false);
                        }
                    }
                }
            }
            ss = k;
        }
    }
    proof {
        assert(txt == n);
        assert forall|j: int| !contains_at(t@, p@, j) by {
            if j >= n - ss {
                assert(contains_at(t@, p@, j) ==> j + m <= n);
            }
        }
    }
    false
}

/// One fallback step of the table construction: when the longest candidate
/// border `oki` fails to extend, its own longest border `ki` becomes the
/// candidate, and no border in between can extend either.
proof fn lemma_fallback_step(p: Seq<char>, ii: int, oki: int, ki: int)
    requires
        1 <= oki < ii < p.len(),
        is_border(p.take(ii), oki),
        is_max_border(p.take(oki), ki),
        forall|l: int| oki < l < ii ==> !(is_border(#[trigger] p.take(ii), l) && p[l] == p[ii]),
        p[oki] != p[ii],
    ensures
        0 <= ki < oki,
        is_border(p.take(ii), ki),
        forall|l: int| ki < l < ii ==> !(is_border(#[trigger] p.take(ii), l) && p[l] == p[ii]),
{
    assert(p.take(ii).take(oki) =~= p.take(oki));
    lemma_border_of_border(p.take(ii), ki, oki);
    assert forall|l: int| ki < l < ii implies !(is_border(#[trigger] p.take(ii), l)
        && p[l] == p[ii]) by {
        if is_border(p.take(ii), l) && p[l] == p[ii] {
            if l < oki {
                // A border shorter than `oki` is a border of the
                // `oki`-prefix, hence at most `ki`.
                lemma_border_within(p.take(ii), l, oki);
                assert(is_border(p.take(oki), l));
                assert(false);
            } else if l == oki {
                assert(false);
            } else {
                assert(false);
            }
        }
    }
}

/// The new table entry: extending the candidate border by one matching
/// character (or falling to zero when even the first character differs)
/// yields the longest proper border of the next prefix.
proof fn lemma_new_entry(p: Seq<char>, ii: int, g: int, ki: int)
    requires
        1 <= ii < p.len(),
        0 <= g < ii,
        is_border(p.take(ii), g),
        forall|l: int| g < l < ii ==> !(is_border(#[trigger] p.take(ii), l) && p[l] == p[ii]),
        (ki == g + 1 && p[g] == p[ii]) || (ki == 0 && g == 0 && p[0] != p[ii]),
    ensures
        is_max_border(p.take(ii + 1), ki),
{
    let s = p.take(ii + 1);
    assert(s.drop_last() =~= p.take(ii));
    if ki > 0 {
        assert(s[ki - 1] == p[g] && s[s.len() - 1] == p[ii]);
        lemma_border_extend(s, ki);
        assert(is_border(s, ki));
    } else {
        assert(is_border(s, 0));
    }
    assert forall|l: int| ki < l < ii + 1 implies !is_border(s, l) by {
        if is_border(s, l) {
            lemma_border_extend(s, l);
            assert(is_border(p.take(ii), l - 1));
            assert(s[l - 1] == p[l - 1] && s[s.len() - 1] == p[ii]);
            if l - 1 > g {
                // No border above `g` extends.
                assert(!(is_border(p.take(ii), l - 1) && p[l - 1] == p[ii]));
                assert(false);
            } else {
                // Then `l - 1 == g` and `ki == 0`, yet this border extends.
                assert(l - 1 == g && ki == 0 && g == 0);
                assert(false);
            }
        }
    }
}

/// Builds the failure table for `p`: entry `i` is the length of the longest
/// proper border of `p[0..i]`.
fn build_table(p: &Vec<char>) -> (table: Vec<usize>)
    ensures
        is_failure_table(p@, table@),
{
    let m = p.len();
    let mut table: Vec<usize> = Vec::new();
    table.push(0);
    let mut z: usize = 0;
    while z < m
        invariant
            z <= m,
            table@.len() == z + 1,
            forall|j: int| 0 <= j <= z ==> table@[j] == 0,
        decreases m - z,
    {
        table.push(0);
        z = z + 1;
    }
    proof {
        if m >= 1 {
            assert(is_max_border(p@.take(1), 0));
        }
    }
    if m <= 1 {
        return table;
    }
    let mut k: usize = 0;
    let mut i: usize = 1;
    while i < m
        invariant
            m == p@.len(),
            2 <= m,
            1 <= i <= m,
            table@.len() == m + 1,
            table@[0] == 0,
            forall|j: int| 1 <= j <= i ==> is_max_border(#[trigger] p@.take(j), table@[j] as int),
            k == table@[i as int],
        decreases m - i,
    {
        proof {
            let ii = i as int;
            assert(is_max_border(p@.take(ii), k as int));
            assert forall|l: int| k < l < ii implies !(is_border(#[trigger] p@.take(ii), l)
                && p@[l] == p@[ii]) by {
                assert(!is_border(p@.take(ii), l));
            }
        }
        while k > 0 && p[i] != p[k]
            invariant
                m == p@.len(),
                1 <= i < m,
                k < i,
                table@.len() == m + 1,
                forall|j: int| 1 <= j <= i ==> is_max_border(
                    #[trigger] p@.take(j),
                    table@[j] as int,
                ),
                is_border(p@.take(i as int), k as int),
                forall|l: int| k < l < i ==> !(is_border(#[trigger] p@.take(i as int), l)
                    && p@[l] == p@[i as int]),
            decreases k,
        {
            let old_k = k;
            k = table[old_k];
            proof {
                assert(is_max_border(p@.take(old_k as int), k as int));
                lemma_fallback_step(p@, i as int, old_k as int, k as int);
            }
        }
        let ghost g = k as int;
        if p[i] == p[k] {
            k = k + 1;
        }
        table[i + 1] = k;
        proof {
            let ii = i as int;
            lemma_new_entry(p@, ii, g, k as int);
        }
        i = i + 1;
    }
    table
}

/// The views of a vector of strings.
pub open spec fn string_views(v: Seq<String>) -> Seq<Seq<char>> {
    v.map_values(|s: String| s@)
}

/// The candidates among `names` that contain `p`, in their original order.
pub open spec fn filter_matching(p: Seq<char>, names: Seq<Seq<char>>) -> Seq<Seq<char>>
    decreases names.len(),
{
    if names.len() == 0 {
        Seq::<Seq<char>>::empty()
    } else {
        let rest = filter_matching(p, names.drop_last());
        if is_substring(p, names.last()) {
            rest.push(names.last())
        } else {
            rest
        }
    }
}

/// Live substring filter over a fixed candidate list: holds the query, the
/// failure table built for it, and one match flag per candidate.
#[derive(Debug, Clone)]
pub struct Searcher {
    pub search_string: String,
    pub text: Vec<String>,
    pub table: Vec<usize>,
    pub valid_strings: Vec<bool>,
}

impl Searcher {
    /// The current query.
    pub open spec fn pattern(self) -> Seq<char> {
        self.search_string@
    }

    /// The candidate list, one character sequence per candidate.
    pub open spec fn candidates(self) -> Seq<Seq<char>> {
        string_views(self.text@)
    }

    /// Every match flag agrees with containment of the current query.
    pub open spec fn flags_exact(self) -> bool {
        &&& self.valid_strings@.len() == self.text@.len()
        &&& forall|i: int| 0 <= i < self.text@.len()
            ==> #[trigger] self.valid_strings@[i] == is_substring(self.pattern(), self.text@[i]@)
    }

    /// The engine's invariant: the table belongs to the current query and the
    /// flags are exact.
    pub open spec fn wf(self) -> bool {
        &&& is_failure_table(self.pattern(), self.table@)
        &&& self.flags_exact()
    }

    /// A fresh engine over `text` with the empty query, which matches every
    /// candidate.
    pub fn new(text: Vec<&str>) -> (r: Searcher)
        ensures
            r.wf(),
            r.pattern() == Seq::<char>::empty(),
            r.candidates() =~= text@.map_values(|s: &str| s@),
    {
        let mut owned: Vec<String> = Vec::new();
        let mut i: usize = 0;
        while i < text.len()
            invariant
                i <= text@.len(),
                owned@.len() == i,
                forall|j: int| 0 <= j < i ==> #[trigger] owned@[j]@ == text@[j]@,
            decreases text@.len() - i,
        {
            owned.push(text[i].to_owned());
            i = i + 1;
        }
        let mut searcher = Searcher {
            search_string: String::new(),
            text: owned,
            table: Vec::new(),
            valid_strings: Vec::new(),
        };
        searcher.build();
        proof {
            assert(searcher.candidates() =~= text@.map_values(|s: &str| s@));
        }
        searcher
    }

    /// The current query, as an owned string.
    pub fn get_search_string(&self) -> (r: String)
        ensures
            r@ == self.pattern(),
    {
        self.search_string.clone()
    }

    /// Replaces the query outright and refilters every candidate.
    pub fn set_search_string(&mut self, search_string: &str)
        ensures
            final(self).wf(),
            final(self).pattern() == search_string@,
            final(self).text == old(self).text,
    {
        self.search_string = search_string.to_owned();
        self.build_index();
        self.reset_flags();
        self.search();
    }

    /// Appends one character to the query and refilters.  Only candidates
    /// still marked as matching are rescanned: containment of the longer
    /// query implies containment of the shorter one, so a cleared flag stays
    /// correct.
    pub fn push_and_search(&mut self, character: char)
        requires
            old(self).wf(),
        ensures
            final(self).wf(),
            final(self).pattern() == old(self).pattern().push(character),
            final(self).text == old(self).text,
    {
        crate::chars::string_push(&mut self.search_string, character);
        self.build_index();
        proof {
            let p_old = old(self).pattern();
            let p_new = self.pattern();
            assert forall|i: int| 0 <= i < self.text@.len()
                && !(#[trigger] self.valid_strings@[i]) implies !is_substring(
                p_new,
                self.text@[i]@,
            ) by {
                if is_substring(p_new, self.text@[i]@) {
                    lemma_substring_of_prefix(p_new, self.text@[i]@, p_old.len() as int);
                    assert(p_new.take(p_old.len() as int) =~= p_old);
                }
            }
        }
        self.search();
    }

    /// Removes the last character of the query (no-op on an empty query) and
    /// refilters.  The match set can only grow, so every flag is reset and
    /// every candidate rescanned against the rebuilt table.
    pub fn pop_and_search(&mut self)
        ensures
            final(self).wf(),
            final(self).pattern() == (if old(self).pattern().len() == 0 {
                old(self).pattern()
            } else {
                old(self).pattern().drop_last()
            }),
            final(self).text == old(self).text,
    {
        let _ = crate::chars::string_pop(&mut self.search_string);
        self.build_index();
        self.reset_flags();
        self.search();
    }

    /// Rebuilds the failure table for the current query.
    pub fn build_index(&mut self)
        ensures
            is_failure_table(final(self).pattern(), final(self).table@),
            final(self).search_string == old(self).search_string,
            final(self).text == old(self).text,
            final(self).valid_strings == old(self).valid_strings,
    {
        let chars = str_to_chars(self.search_string.as_str());
        self.table = build_table(&chars);
    }

    /// Rebuilds the failure table and recomputes every match flag.
    pub fn build(&mut self)
        ensures
            final(self).wf(),
            final(self).search_string == old(self).search_string,
            final(self).text == old(self).text,
    {
        self.build_index();
        self.reset_flags();
        self.search();
    }

    /// Marks every candidate as matching again.
    fn reset_flags(&mut self)
        ensures
            final(self).valid_strings@.len() == final(self).text@.len(),
            forall|i: int| 0 <= i < final(self).text@.len()
                ==> final(self).valid_strings@[i],
            final(self).search_string == old(self).search_string,
            final(self).text == old(self).text,
            final(self).table == old(self).table,
    {
        let mut flags: Vec<bool> = Vec::new();
        let n = self.text.len();
        let mut i: usize = 0;
        while i < n
            invariant
                i <= n,
                flags@.len() == i,
                forall|j: int| 0 <= j < i ==> flags@[j],
            decreases n - i,
        {
            flags.push(true);
            i = i + 1;
        }
        self.valid_strings = flags;
    }

    /// The candidates currently matching the query, in their original order.
    pub fn get_text(&self) -> (r: Vec<String>)
        requires
            self.wf(),
        ensures
            string_views(r@) == filter_matching(self.pattern(), self.candidates()),
    {
        let mut r: Vec<String> = Vec::new();
        let n = self.text.len();
        let mut i: usize = 0;
        while i < n
            invariant
                self.wf(),
                i <= n,
                n == self.text@.len(),
                string_views(r@) =~= filter_matching(
                    self.pattern(),
                    self.candidates().take(i as int),
                ),
            decreases n - i,
        {
            let ghost prev = r@;
            if self.valid_strings[i] {
                r.push(self.text[i].clone());
            }
            i = i + 1;
            proof {
                let ci = self.candidates().take(i as int);
                assert(ci.drop_last() =~= self.candidates().take(i - 1));
                assert(ci.last() == self.text@[i - 1]@);
                if self.valid_strings@[i - 1] {
                    assert(string_views(r@) =~= string_views(prev).push(self.text@[i - 1]@));
                }
                assert(string_views(r@) =~= filter_matching(self.pattern(), ci));
            }
        }
        proof {
            assert(self.candidates().take(n as int) =~= self.candidates());
        }
        r
    }

    /// The failure table, as an owned vector.
    pub fn get_index_table(&self) -> (r: Vec<usize>)
        ensures
            r@ == self.table@,
    {
        let mut r: Vec<usize> = Vec::new();
        let mut i: usize = 0;
        while i < self.table.len()
            invariant
                i <= self.table@.len(),
                r@ == self.table@.take(i as int),
            decreases self.table@.len() - i,
        {
            r.push(self.table[i]);
            i = i + 1;
            proof {
                assert(r@ =~= self.table@.take(i as int));
            }
        }
        proof {
            assert(self.table@.take(self.table@.len() as int) =~= self.table@);
        }
        r
    }

    /// Rescans the candidates still marked as matching; a candidate already
    /// ruled out stays ruled out.
    pub fn search(&mut self)
        requires
            is_failure_table(old(self).pattern(), old(self).table@),
            old(self).valid_strings@.len() == old(self).text@.len(),
        ensures
            final(self).valid_strings@.len() == final(self).text@.len(),
            forall|i: int| 0 <= i < final(self).text@.len()
                ==> #[trigger] final(self).valid_strings@[i] == (old(self).valid_strings@[i]
                && is_substring(final(self).pattern(), final(self).text@[i]@)),
            final(self).search_string == old(self).search_string,
            final(self).text == old(self).text,
            final(self).table == old(self).table,
    {
        let ghost orig = *self;
        let n = self.text.len();
        let mut i: usize = 0;
        while i < n
            invariant
                n == orig.text@.len(),
                i <= n,
                is_failure_table(orig.pattern(), orig.table@),
                orig.valid_strings@.len() == orig.text@.len(),
                self.valid_strings@.len() == orig.text@.len(),
                self.search_string == orig.search_string,
                self.text == orig.text,
                self.table == orig.table,
                forall|j: int| i <= j < n
                    ==> #[trigger] self.valid_strings@[j] == orig.valid_strings@[j],
                forall|j: int| 0 <= j < i
                    ==> #[trigger] self.valid_strings@[j] == (orig.valid_strings@[j]
                    && is_substring(orig.pattern(), orig.text@[j]@)),
            decreases n - i,
        {
            if self.valid_strings[i] {
                let matched = Searcher::kmp(
                    self.search_string.as_str(),
                    self.text[i].as_str(),
                    &self.table,
                );
                self.valid_strings[i] = matched;
            }
            i = i + 1;
        }
    }

    /// Whether `search_string` occurs in `text`, given the failure table
    /// built for `search_string`.
    pub fn kmp(search_string: &str, text: &str, index_table: &Vec<usize>) -> (r: bool)
        requires
            is_failure_table(search_string@, index_table@),
        ensures
            r == is_substring(search_string@, text@),
    {
        let p = str_to_chars(search_string);
        let t = str_to_chars(text);
        kmp_chars(&p, &t, index_table)
    }
}

/// The empty query keeps every candidate, in order: clearing the query
/// restores the unfiltered list.
pub proof fn lemma_filter_empty_pattern(names: Seq<Seq<char>>)
    ensures
        filter_matching(Seq::<char>::empty(), names) == names,
    decreases names.len(),
{
    if names.len() == 0 {
        assert(filter_matching(Seq::<char>::empty(), names) =~= names);
    } else {
        lemma_filter_empty_pattern(names.drop_last());
        lemma_empty_pattern_matches(names.last());
        assert(filter_matching(Seq::<char>::empty(), names) =~= names);
    }
}

/// However a query was reached - by appends, removals, or outright
/// replacement - the filtered output depends only on the query and the
/// candidate list: it equals what a freshly built engine produces.
pub proof fn lemma_incremental_equivalence(a: Searcher, b: Searcher)
    requires
        a.wf(),
        b.wf(),
        a.pattern() == b.pattern(),
        a.candidates() == b.candidates(),
    ensures
        filter_matching(a.pattern(), a.candidates()) == filter_matching(
            b.pattern(),
            b.candidates(),
        ),
{
}

} // verus!
