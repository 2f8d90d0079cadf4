//! The fuzzy filter: scores and orders candidate strings against a query.

use vstd::prelude::*;

use fuzzy_matcher::FuzzyMatcher;

verus! {

/// The score that fuzzy_matcher's `SkimMatcherV2` (in its default
/// configuration) assigns to a candidate for a needle; `None` when the
/// candidate does not match. The score depends on the two texts alone.
pub uninterp spec fn fuzzy_score(choice: Seq<char>, needle: Seq<char>) -> Option<i64>;

/// An ASCII upper-case letter.
pub open spec fn is_ascii_upper(c: char) -> bool {
    'A' <= c && c <= 'Z'
}

/// Character equality ignoring ASCII case: equal outright, or one is the
/// ASCII upper-case form of the other.
pub open spec fn chars_equal_insensitive(a: char, b: char) -> bool {
    ||| a == b
    ||| (is_ascii_upper(a) && b as int == a as int + 32)
    ||| (is_ascii_upper(b) && a as int == b as int + 32)
}

pub open spec fn chars_equal(a: char, b: char, case_sensitive: bool) -> bool {
    if case_sensitive {
        a == b
    } else {
        chars_equal_insensitive(a, b)
    }
}

pub open spec fn has_ascii_upper(s: Seq<char>) -> bool {
    exists|i: int| 0 <= i < s.len() && is_ascii_upper(s[i])
}

/// The needle's characters occur in order (not necessarily contiguously) in
/// the choice, compared character by character under the given case rule.
pub open spec fn subsequence_matches(
    needle: Seq<char>,
    choice: Seq<char>,
    case_sensitive: bool,
) -> bool
    decreases choice.len(),
{
    if needle.len() == 0 {
        true
    } else if choice.len() == 0 {
        false
    } else if chars_equal(choice.first(), needle.first(), case_sensitive) {
        subsequence_matches(needle.drop_first(), choice.drop_first(), case_sensitive)
    } else {
        subsequence_matches(needle, choice.drop_first(), case_sensitive)
    }
}

/// A candidate matches the needle under the matcher's smart-case rule:
/// comparison is case-sensitive exactly when the needle holds an ASCII
/// upper-case letter.
pub open spec fn is_fuzzy_match(needle: Seq<char>, choice: Seq<char>) -> bool {
    subsequence_matches(needle, choice, has_ascii_upper(needle))
}

/// Relies on fuzzy_matcher's `SkimMatcherV2::fuzzy_match` in its default
/// configuration: the score is a function of the candidate and needle text
/// alone, and a score exists exactly when the needle's characters occur in
/// order in the candidate, compared ASCII-case-insensitively unless the
/// needle holds an ASCII upper-case letter.
#[verifier::external_body]
fn fuzzy_match_score(choice: &str, needle: &str) -> (r: Option<i64>)
    ensures
        r == fuzzy_score(choice@, needle@),
        r is Some <==> is_fuzzy_match(needle@, choice@),
{
    fuzzy_matcher::skim::SkimMatcherV2::default().fuzzy_match(choice, needle)
}

/// The candidates that match the needle, each paired with its score, in
/// haystack order.
pub open spec fn scored(needle: Seq<char>, haystack: Seq<Seq<char>>) -> Seq<(Seq<char>, i64)>
    decreases haystack.len(),
{
    if haystack.len() == 0 {
        Seq::empty()
    } else {
        let rest = scored(needle, haystack.drop_last());
        match fuzzy_score(haystack.last(), needle) {
            Option::Some(s) => rest.push((haystack.last(), s)),
            Option::None => rest,
        }
    }
}

/// Insert a pair into a sequence sorted by descending score, after every pair
/// whose score is at least as large.
pub open spec fn insert_desc(s: Seq<(Seq<char>, i64)>, x: (Seq<char>, i64)) -> Seq<
    (Seq<char>, i64),
>
    decreases s.len(),
{
    if s.len() == 0 {
        seq![x]
    } else if s.first().1 >= x.1 {
        seq![s.first()] + insert_desc(s.drop_first(), x)
    } else {
        seq![x] + s
    }
}

/// Stable insertion sort by descending score.
pub open spec fn sort_desc(s: Seq<(Seq<char>, i64)>) -> Seq<(Seq<char>, i64)>
    decreases s.len(),
{
    if s.len() == 0 {
        Seq::empty()
    } else {
        insert_desc(sort_desc(s.drop_last()), s.last())
    }
}

/// What `filter` returns: the matching candidates, ordered by descending
/// score; ties keep their haystack order.
pub open spec fn spec_filter(needle: Seq<char>, haystack: Seq<Seq<char>>) -> Seq<Seq<char>> {
    sort_desc(scored(needle, haystack)).map_values(|p: (Seq<char>, i64)| p.0)
}

pub open spec fn sorted_desc(s: Seq<(Seq<char>, i64)>) -> bool {
    forall|i: int, j: int| 0 <= i <= j < s.len() ==> s[i].1 >= s[j].1
}

proof fn lemma_insert_desc_props(s: Seq<(Seq<char>, i64)>, x: (Seq<char>, i64))
    ensures
        insert_desc(s, x).len() == s.len() + 1,
        forall|y: (Seq<char>, i64)|
            #[trigger] insert_desc(s, x).contains(y) <==> (s.contains(y) || y == x),
        sorted_desc(s) ==> sorted_desc(insert_desc(s, x)),
    decreases s.len(),
{
    broadcast use vstd::seq_lib::lemma_seq_concat_contains_all_elements;

    if s.len() == 0 {
        assert(insert_desc(s, x) =~= seq![x]);
        assert forall|y: (Seq<char>, i64)|
            insert_desc(s, x).contains(y) <==> (s.contains(y) || y == x) by {
            if y == x {
                assert(insert_desc(s, x)[0] == x);
            }
        }
    } else if s.first().1 >= x.1 {
        lemma_insert_desc_props(s.drop_first(), x);
        let r = seq![s.first()] + insert_desc(s.drop_first(), x);
        assert(insert_desc(s, x) == r);
        assert forall|y: (Seq<char>, i64)| r.contains(y) <==> (s.contains(y) || y == x) by {
            if s.contains(y) {
                let i = choose|i: int| 0 <= i < s.len() && s[i] == y;
                if i == 0 {
                    assert((seq![s.first()] + insert_desc(s.drop_first(), x))[0] == y);
                } else {
                    assert(s.drop_first()[i - 1] == y);
                    assert(s.drop_first().contains(y));
                }
            }
            if r.contains(y) {
                if seq![s.first()].contains(y) {
                    assert(s[0] == y);
                } else if s.drop_first().contains(y) {
                    let i = choose|i: int| 0 <= i < s.drop_first().len() && s.drop_first()[i] == y;
                    assert(s[i + 1] == y);
                }
            }
        }
        if sorted_desc(s) {
            let t = insert_desc(s.drop_first(), x);
            assert(sorted_desc(s.drop_first())) by {
                assert forall|i: int, j: int|
                    0 <= i <= j < s.drop_first().len() implies s.drop_first()[i].1
                    >= s.drop_first()[j].1 by {
                    assert(s[i + 1].1 >= s[j + 1].1);
                }
            }
            assert forall|i: int, j: int| 0 <= i <= j < r.len() implies r[i].1 >= r[j].1 by {
                if i == 0 && j > 0 {
                    // the head is at least every element of the inserted tail
                    assert(r[j] == t[j - 1]);
                    assert(t.contains(t[j - 1]));
                    if t[j - 1] == x {
                    } else {
                        assert(s.drop_first().contains(t[j - 1]));
                        let k = choose|k: int|
                            0 <= k < s.drop_first().len() && #[trigger] s.drop_first()[k] == t[j
                                - 1];
                        assert(s[k + 1] == t[j - 1]);
                    }
                } else if i > 0 {
                    assert(r[i] == t[i - 1] && r[j] == t[j - 1]);
                }
            }
        }
    } else {
        assert(insert_desc(s, x) == seq![x] + s);
        assert forall|y: (Seq<char>, i64)|
            (seq![x] + s).contains(y) <==> (s.contains(y) || y == x) by {
            if y == x {
                assert((seq![x] + s)[0] == x);
            }
            if s.contains(y) {
                let i = choose|i: int| 0 <= i < s.len() && s[i] == y;
                assert((seq![x] + s)[i + 1] == y);
            }
            if (seq![x] + s).contains(y) && y != x {
                let i = choose|i: int| 0 <= i < (seq![x] + s).len() && (seq![x] + s)[i] == y;
                assert(s[i - 1] == y);
            }
        }
    }
}

proof fn lemma_sort_desc_props(s: Seq<(Seq<char>, i64)>)
    ensures
        sort_desc(s).len() == s.len(),
        forall|y: (Seq<char>, i64)| #[trigger] sort_desc(s).contains(y) <==> s.contains(y),
        sorted_desc(sort_desc(s)),
    decreases s.len(),
{
    if s.len() == 0 {
    } else {
        lemma_sort_desc_props(s.drop_last());
        lemma_insert_desc_props(sort_desc(s.drop_last()), s.last());
        assert(sort_desc(s) == insert_desc(sort_desc(s.drop_last()), s.last()));
        assert forall|y: (Seq<char>, i64)| #[trigger] sort_desc(s).contains(y) <==> s.contains(y) by {
            if s.contains(y) {
                let i = choose|i: int| 0 <= i < s.len() && s[i] == y;
                if i < s.len() - 1 {
                    assert(s.drop_last()[i] == y);
                    assert(s.drop_last().contains(y));
                    assert(sort_desc(s.drop_last()).contains(y));
                } else {
                    assert(y == s.last());
                }
                assert(insert_desc(sort_desc(s.drop_last()), s.last()).contains(y));
            }
            if sort_desc(s).contains(y) {
                assert(insert_desc(sort_desc(s.drop_last()), s.last()).contains(y));
                if sort_desc(s.drop_last()).contains(y) {
                    assert(s.drop_last().contains(y));
                    let i = choose|i: int| 0 <= i < s.drop_last().len() && #[trigger] s.drop_last()[i] == y;
                    assert(s[i] == y);
                } else {
                    assert(y == s.last());
                    assert(s[s.len() - 1] == s.last());
                }
            }
        }
    }
}

proof fn lemma_scored_elems(needle: Seq<char>, haystack: Seq<Seq<char>>)
    ensures
        forall|p: (Seq<char>, i64)|
            #[trigger] scored(needle, haystack).contains(p) ==> haystack.contains(p.0) && fuzzy_score(
                p.0,
                needle,
            ) == Option::Some(p.1),
    decreases haystack.len(),
{
    broadcast use vstd::seq_lib::lemma_seq_contains_after_push;

    if haystack.len() == 0 {
    } else {
        lemma_scored_elems(needle, haystack.drop_last());
        assert forall|p: (Seq<char>, i64)| scored(needle, haystack).contains(p) implies haystack
            .contains(p.0) && fuzzy_score(p.0, needle) == Option::Some(p.1) by {
            if scored(needle, haystack.drop_last()).contains(p) {
                let i = choose|i: int|
                    0 <= i < haystack.drop_last().len() && haystack.drop_last()[i] == p.0;
                assert(haystack[i] == p.0);
            } else {
                assert(haystack[haystack.len() - 1] == haystack.last());
            }
        }
    }
}

/// Fuzzy-filter the haystack: every candidate that matches the needle
/// survives, ordered by descending match score. The result is a function of
/// the needle and haystack alone, so repeating a query repeats its answer
/// exactly; every surviving element is an element of the haystack that holds
/// the needle as an ordered (possibly non-contiguous) subsequence under the
/// matcher's case rule.
pub fn filter(needle: &str, haystack: &[String]) -> (r: Option<Vec<String>>)
    ensures
        r is Some,
        r->Some_0.deep_view() == spec_filter(needle@, haystack.deep_view()),
        forall|i: int|
            0 <= i < r->Some_0.len() ==> haystack.deep_view().contains(
                #[trigger] r->Some_0.deep_view()[i],
            ) && is_fuzzy_match(needle@, r->Some_0.deep_view()[i]),
{
    let ghost hs = haystack.deep_view();
    let mut scored_vec: Vec<(String, i64)> = Vec::new();
    let n = haystack.len();
    let mut i: usize = 0;
    while i < n
        invariant
            n == haystack.len(),
            hs == haystack.deep_view(),
            i <= n,
            scored_vec.deep_view() == scored(needle@, hs.take(i as int)),
            forall|c: Seq<char>|
                hs.take(i as int).contains(c) ==> (fuzzy_score(c, needle@) is Some
                    <==> is_fuzzy_match(needle@, c)),
        decreases n - i,
    {
        let score = fuzzy_match_score(haystack[i].as_str(), needle);
        proof {
            assert(hs.take(i + 1).drop_last() =~= hs.take(i as int));
            assert(hs.take(i + 1).last() == hs[i as int]);
            assert(haystack[i as int]@ == hs[i as int]);
            assert forall|c: Seq<char>| hs.take(i + 1).contains(c) implies (fuzzy_score(c, needle@)
                is Some <==> is_fuzzy_match(needle@, c)) by {
                let k = choose|k: int| 0 <= k < i + 1 && #[trigger] hs.take(i + 1)[k] == c;
                if k < i {
                    assert(hs.take(i as int)[k] == c);
                    assert(hs.take(i as int).contains(c));
                }
            }
        }
        match score {
            Option::Some(s) => {
                scored_vec.push((haystack[i].clone(), s));
                proof {
                    assert(scored_vec.deep_view() =~= scored(needle@, hs.take(i + 1)));
                }
            },
            Option::None => {
                proof {
                    assert(scored_vec.deep_view() =~= scored(needle@, hs.take(i + 1)));
                }
            },
        }
        i += 1;
    }
    proof {
        assert(hs.take(n as int) =~= hs);
        assert(forall|c: Seq<char>|
            hs.contains(c) ==> (fuzzy_score(c, needle@) is Some <==> is_fuzzy_match(needle@, c)));
    }
    // sort by descending score, stably
    let ghost sv = scored_vec.deep_view();
    let mut sorted: Vec<(String, i64)> = Vec::new();
    let m = scored_vec.len();
    let mut i: usize = 0;
    while i < m
        invariant
            m == scored_vec.len(),
            sv == scored_vec.deep_view(),
            i <= m,
            sorted.deep_view() == sort_desc(sv.take(i as int)),
            sorted_desc(sorted.deep_view()),
        decreases m - i,
    {
        proof {
            lemma_sort_desc_props(sv.take(i as int));
        }
        let x = (scored_vec[i].0.clone(), scored_vec[i].1);
        let mut j: usize = 0;
        while j < sorted.len() && sorted[j].1 >= x.1
            invariant
                j <= sorted.len(),
                forall|k: int| 0 <= k < j ==> sorted.deep_view()[k].1 >= x.1,
            decreases sorted.len() - j,
        {
            j += 1;
        }
        proof {
            lemma_insert_desc_at(sorted.deep_view(), (x.0@, x.1), j as int);
        }
        sorted.insert(j, x);
        proof {
            assert(sv.take(i + 1).drop_last() =~= sv.take(i as int));
            assert(sv.take(i + 1).last() == sv[i as int]);
            assert(scored_vec[i as int].deep_view() == sv[i as int]);
            assert(sorted.deep_view() =~= sort_desc(sv.take(i as int)).take(j as int) + seq![
                sv[i as int],
            ] + sort_desc(sv.take(i as int)).skip(j as int));
            lemma_insert_desc_props(sort_desc(sv.take(i as int)), sv[i as int]);
        }
        i += 1;
    }
    proof {
        assert(sv.take(m as int) =~= sv);
    }
    // hand the ordered candidates back without their scores
    let mut res: Vec<String> = Vec::new();
    let ghost target = spec_filter(needle@, hs);
    let sl = sorted.len();
    let mut k: usize = 0;
    while k < sl
        invariant
            sl == sorted.len(),
            k <= sl,
            sorted.deep_view() == sort_desc(scored(needle@, hs)),
            target == spec_filter(needle@, hs),
            res@.len() == k,
            forall|l: int| 0 <= l < k ==> #[trigger] res@[l]@ == target[l],
        decreases sl - k,
    {
        res.push(sorted[k].0.clone());
        proof {
            assert(sorted.deep_view()[k as int] == (sorted@[k as int].0@, sorted@[k as int].1));
            assert(target[k as int] == sorted.deep_view()[k as int].0);
            assert(res@[k as int]@ == target[k as int]);
        }
        k += 1;
    }
    proof {
        assert(target.len() == sort_desc(scored(needle@, hs)).len());
        assert(sorted.deep_view().len() == sl);
        assert forall|l: int| 0 <= l < sl implies res.deep_view()[l] == target[l] by {
            assert(res.deep_view()[l] == res@[l]@);
        }
        assert(res.deep_view() =~= target);
    }
    proof {
        assert(target.take(sl as int) =~= target);
        lemma_sort_desc_props(scored(needle@, hs));
        lemma_scored_elems(needle@, hs);
        assert forall|i2: int| 0 <= i2 < target.len() implies hs.contains(#[trigger] target[i2])
            && is_fuzzy_match(needle@, target[i2]) by {
            let p = sort_desc(scored(needle@, hs))[i2];
            assert(target[i2] == p.0);
            assert(sort_desc(scored(needle@, hs)).contains(p));
            assert(scored(needle@, hs).contains(p));
            assert(hs.contains(p.0));
            assert(fuzzy_score(p.0, needle@) is Some);
        }
    }
    Some(res)
}

/// `insert_desc` places the new pair exactly at the first position whose
/// score is smaller.
proof fn lemma_insert_desc_at(s: Seq<(Seq<char>, i64)>, x: (Seq<char>, i64), j: int)
    requires
        0 <= j <= s.len(),
        forall|k: int| 0 <= k < j ==> s[k].1 >= x.1,
        j == s.len() || s[j].1 < x.1,
    ensures
        insert_desc(s, x) == s.take(j) + seq![x] + s.skip(j),
    decreases j,
{
    if j == 0 {
        if s.len() == 0 {
            assert(insert_desc(s, x) =~= s.take(0) + seq![x] + s.skip(0));
        } else {
            assert(s.first().1 < x.1);
            assert(insert_desc(s, x) =~= s.take(0) + seq![x] + s.skip(0));
        }
    } else {
        assert(s[0].1 >= x.1);
        lemma_insert_desc_at(s.drop_first(), x, j - 1);
        assert(insert_desc(s, x) == seq![s.first()] + insert_desc(s.drop_first(), x));
        assert(s.drop_first().take(j - 1) =~= s.take(j).drop_first());
        assert(s.drop_first().skip(j - 1) =~= s.skip(j));
        assert(seq![s.first()] + (s.drop_first().take(j - 1) + seq![x] + s.drop_first().skip(j - 1))
            =~= s.take(j) + seq![x] + s.skip(j));
    }
}

/// The filter's output is ordered by descending score: every surviving
/// candidate has a score, and no candidate stands before one with a larger
/// score.
pub proof fn lemma_filter_sorted_by_score(needle: Seq<char>, haystack: Seq<Seq<char>>)
    ensures
        forall|i: int, j: int|
            0 <= i <= j < spec_filter(needle, haystack).len() ==> {
                let earlier = #[trigger] spec_filter(needle, haystack)[i];
                let later = #[trigger] spec_filter(needle, haystack)[j];
                &&& fuzzy_score(earlier, needle) is Some
                &&& fuzzy_score(later, needle) is Some
                &&& fuzzy_score(earlier, needle)->Some_0 >= fuzzy_score(later, needle)->Some_0
            },
{
    let s = sort_desc(scored(needle, haystack));
    lemma_sort_desc_props(scored(needle, haystack));
    lemma_scored_elems(needle, haystack);
    assert forall|i: int, j: int| 0 <= i <= j < spec_filter(needle, haystack).len() implies {
        let earlier = #[trigger] spec_filter(needle, haystack)[i];
        let later = #[trigger] spec_filter(needle, haystack)[j];
        &&& fuzzy_score(earlier, needle) is Some
        &&& fuzzy_score(later, needle) is Some
        &&& fuzzy_score(earlier, needle)->Some_0 >= fuzzy_score(later, needle)->Some_0
    } by {
        assert(s.contains(s[i]));
        assert(s.contains(s[j]));
        assert(scored(needle, haystack).contains(s[i]));
        assert(scored(needle, haystack).contains(s[j]));
        assert(spec_filter(needle, haystack)[i] == s[i].0);
        assert(spec_filter(needle, haystack)[j] == s[j].0);
        assert(s[i].1 >= s[j].1);
    }
}

} // verus!
