//! Fuzzy selection of one option (such as a component name) by a user-typed pattern.
//!
//! The search tries, in order: an exact match, a unique option that contains the
//! pattern, then the skim fuzzy matcher, whose matches are ranked by descending score.

use crate::text::{chars_contain, chars_equal, chars_of, push_char, seq_contains_sub, string_of};
use colored::Colorize;
use fuzzy_matcher::skim::SkimMatcherV2;
use fuzzy_matcher::FuzzyMatcher;
use vstd::prelude::*;

verus! {

/// The score and the matched character positions that the skim fuzzy matcher
/// (with its default configuration) gives for `pattern` against `choice`.
pub uninterp spec fn skim_fuzzy_indices(choice: Seq<char>, pattern: Seq<char>) -> Option<
    (i64, Seq<usize>),
>;

/// Calls `SkimMatcherV2::default().fuzzy_indices(choice, pattern)` of the `fuzzy_matcher`
/// crate. The contract ties the result to the arguments through `skim_fuzzy_indices`,
/// and states the one fact the source shows plainly: an empty pattern matches every
/// choice with score 0 and no positions.
#[verifier::external_body]
fn skim_fuzzy_indices_exec(choice: &str, pattern: &str) -> (res: Option<(i64, Vec<usize>)>)
    ensures
        res is None <==> skim_fuzzy_indices(choice@, pattern@) is None,
        res is Some ==> skim_fuzzy_indices(choice@, pattern@) == Some(
            (res.unwrap().0, res.unwrap().1@),
        ),
        pattern@.len() == 0 ==> res is Some && res.unwrap().0 == 0 && res.unwrap().1@.len() == 0,
{
    SkimMatcherV2::default().fuzzy_indices(choice, pattern)
}

/// The escape sequence that starts green, underlined text.
pub open spec fn green_underline_start() -> Seq<char> {
    seq!['\x1b', '[', '4', ';', '3', '2', 'm']
}

/// The escape sequence that resets text attributes.
pub open spec fn reset_attributes() -> Seq<char> {
    seq!['\x1b', '[', '0', 'm']
}

/// `r` renders the character `c` green and underlined, or plain where the
/// terminal gets no colors.
pub open spec fn highlighted_char(r: Seq<char>, c: char) -> bool {
    r == seq![c] || r == green_underline_start() + seq![c] + reset_attributes()
}

/// Calls `c.to_string().green().underline()` of the `colored` crate and renders it.
/// Whether colors are written depends on the environment and the terminal, so the
/// contract states only the two renderings that the crate's `Display` produces.
#[verifier::external_body]
fn highlight_char(c: char) -> (res: String)
    ensures
        highlighted_char(res@, c),
{
    c.to_string().green().underline().to_string()
}

/// Concatenation of pieces, in order.
pub open spec fn concat_pieces(pieces: Seq<Seq<char>>) -> Seq<char>
    decreases pieces.len(),
{
    if pieces.len() == 0 {
        Seq::empty()
    } else {
        concat_pieces(pieces.drop_last()) + pieces.last()
    }
}

/// `r` renders `option` with the characters at `indices` highlighted.
pub open spec fn highlighting_of(r: Seq<char>, option: Seq<char>, indices: Seq<usize>) -> bool {
    exists|pieces: Seq<Seq<char>>|
        {
            &&& pieces.len() == option.len()
            &&& forall|i: int|
                0 <= i < option.len() ==> if indices.contains(i as usize) {
                    highlighted_char(#[trigger] pieces[i], option[i])
                } else {
                    pieces[i] == seq![option[i]]
                }
            &&& r == concat_pieces(pieces)
        }
}

/// The options without repetitions, each kept at its first occurrence.
pub open spec fn distinct_options(options: Seq<Seq<char>>) -> Seq<Seq<char>>
    decreases options.len(),
{
    if options.len() == 0 {
        Seq::empty()
    } else {
        let d = distinct_options(options.drop_last());
        if d.contains(options.last()) {
            d
        } else {
            d.push(options.last())
        }
    }
}

/// The options that contain `pattern`, in order.
pub open spec fn containing(options: Seq<Seq<char>>, pattern: Seq<char>) -> Seq<Seq<char>>
    decreases options.len(),
{
    if options.len() == 0 {
        Seq::empty()
    } else {
        let r = containing(options.drop_last(), pattern);
        if seq_contains_sub(options.last(), pattern) {
            r.push(options.last())
        } else {
            r
        }
    }
}

/// The options that the fuzzy matcher accepts, each with its score and matched
/// positions, in option order.
pub open spec fn fuzzy_scored(options: Seq<Seq<char>>, pattern: Seq<char>) -> Seq<
    (i64, Seq<usize>, Seq<char>),
>
    decreases options.len(),
{
    if options.len() == 0 {
        Seq::empty()
    } else {
        let r = fuzzy_scored(options.drop_last(), pattern);
        match skim_fuzzy_indices(options.last(), pattern) {
            Some((score, indices)) => r.push((score, indices, options.last())),
            None => r,
        }
    }
}

/// Inserts `x` before the first element that scores lower than it.
pub open spec fn insert_by_score(
    s: Seq<(i64, Seq<usize>, Seq<char>)>,
    x: (i64, Seq<usize>, Seq<char>),
) -> Seq<(i64, Seq<usize>, Seq<char>)>
    decreases s.len(),
{
    if s.len() == 0 {
        seq![x]
    } else if s[0].0 < x.0 {
        seq![x] + s
    } else {
        seq![s[0]] + insert_by_score(s.drop_first(), x)
    }
}

/// Stable sort by descending score.
pub open spec fn sort_by_score(s: Seq<(i64, Seq<usize>, Seq<char>)>) -> Seq<
    (i64, Seq<usize>, Seq<char>),
>
    decreases s.len(),
{
    if s.len() == 0 {
        Seq::empty()
    } else {
        insert_by_score(sort_by_score(s.drop_last()), s.last())
    }
}

/// The fuzzy matches of `pattern`, best first; equal scores keep the option order.
pub open spec fn ranked_matches(options: Seq<Seq<char>>, pattern: Seq<char>) -> Seq<
    (i64, Seq<usize>, Seq<char>),
> {
    sort_by_score(fuzzy_scored(options, pattern))
}

/// The outcome of a search.
pub enum FuzzyMatchResult {
    /// One option was selected; `exact_match` tells whether it equals the pattern.
    Found { option: String, exact_match: bool },
    /// Several options match; each is rendered with its matched characters highlighted,
    /// best match first.
    Ambiguous { highlighted_options: Vec<String> },
    /// No option matches.
    NotFound,
}

/// What `find` answers for `pattern` over the (distinct) `options`.
pub open spec fn find_result_spec(
    options: Seq<Seq<char>>,
    pattern: Seq<char>,
    res: FuzzyMatchResult,
) -> bool {
    let contains = containing(options, pattern);
    let ranked = ranked_matches(options, pattern);
    if options.contains(pattern) {
        res matches FuzzyMatchResult::Found { option, exact_match } && option@ == pattern
            && exact_match
    } else if contains.len() == 1 {
        res matches FuzzyMatchResult::Found { option, exact_match } && option@ == contains[0]
            && !exact_match
    } else if ranked.len() == 0 {
        res is NotFound
    } else if ranked.len() == 1 {
        res matches FuzzyMatchResult::Found { option, exact_match } && option@ == ranked[0].2
            && !exact_match
    } else {
        res matches FuzzyMatchResult::Ambiguous { highlighted_options } && highlighted_options.len()
            == ranked.len() && forall|k: int|
            0 <= k < ranked.len() ==> highlighting_of(
                #[trigger] highlighted_options@[k]@,
                ranked[k].2,
                ranked[k].1,
            )
    }
}

/// The option that `find` selects for `pattern`, if it selects one.
pub open spec fn selected_option(options: Seq<Seq<char>>, pattern: Seq<char>) -> Option<Seq<char>> {
    let contains = containing(options, pattern);
    let ranked = ranked_matches(options, pattern);
    if options.contains(pattern) {
        Some(pattern)
    } else if contains.len() == 1 {
        Some(contains[0])
    } else if ranked.len() == 1 {
        Some(ranked[0].2)
    } else {
        None
    }
}

/// Whether `find` answers that `pattern` is ambiguous.
pub open spec fn is_ambiguous(options: Seq<Seq<char>>, pattern: Seq<char>) -> bool {
    &&& !options.contains(pattern)
    &&& containing(options, pattern).len() != 1
    &&& ranked_matches(options, pattern).len() >= 2
}

/// The three outcomes of `find` in terms of `selected_option` and `is_ambiguous`.
pub proof fn lemma_find_outcomes(options: Seq<Seq<char>>, pattern: Seq<char>, res: FuzzyMatchResult)
    requires
        find_result_spec(options, pattern, res),
    ensures
        res is Found <==> selected_option(options, pattern) is Some,
        res is Found ==> res->option@ == selected_option(options, pattern)->0,
        res is Found ==> (res->exact_match <==> options.contains(pattern)),
        res is Ambiguous <==> is_ambiguous(options, pattern),
        res is Ambiguous ==> res->highlighted_options.len() == ranked_matches(options, pattern).len(),
        res is NotFound <==> (selected_option(options, pattern) is None && !is_ambiguous(
            options,
            pattern,
        )),
{
}

/// Each option that contains the pattern is one of the options.
proof fn lemma_containing_are_options(options: Seq<Seq<char>>, pattern: Seq<char>, x: Seq<char>)
    requires
        containing(options, pattern).contains(x),
    ensures
        options.contains(x),
    decreases options.len(),
{
    if options.len() > 0 {
        let r = containing(options.drop_last(), pattern);
        if r.contains(x) {
            lemma_containing_are_options(options.drop_last(), pattern, x);
            let k = choose|k: int| 0 <= k < options.drop_last().len() && options.drop_last()[k] == x;
            assert(options[k] == x);
        } else {
            crate::text::lemma_push_contains(r, options.last());
            assert(options[options.len() - 1] == x);
        }
    }
}

/// Each fuzzy match is of one of the options.
proof fn lemma_scored_are_options(options: Seq<Seq<char>>, pattern: Seq<char>, k: int)
    requires
        0 <= k < fuzzy_scored(options, pattern).len(),
    ensures
        options.contains(fuzzy_scored(options, pattern)[k].2),
    decreases options.len(),
{
    if options.len() > 0 {
        let r = fuzzy_scored(options.drop_last(), pattern);
        if k < r.len() {
            lemma_scored_are_options(options.drop_last(), pattern, k);
            let x = r[k].2;
            let j = choose|j: int| 0 <= j < options.drop_last().len() && options.drop_last()[j] == x;
            assert(options[j] == x);
        } else {
            assert(options[options.len() - 1] == fuzzy_scored(options, pattern)[k].2);
        }
    }
}

/// Inserting by score adds exactly the inserted element.
proof fn lemma_insert_by_score_contains(
    s: Seq<(i64, Seq<usize>, Seq<char>)>,
    x: (i64, Seq<usize>, Seq<char>),
    y: (i64, Seq<usize>, Seq<char>),
)
    ensures
        insert_by_score(s, x).contains(y) <==> (s.contains(y) || y == x),
    decreases s.len(),
{
    if s.len() == 0 {
        assert(insert_by_score(s, x) =~= seq![x]);
        if insert_by_score(s, x).contains(y) {
            let k = choose|k: int| 0 <= k < 1 && insert_by_score(s, x)[k] == y;
        }
        if y == x {
            assert(insert_by_score(s, x)[0] == y);
        }
    } else if s[0].0 < x.0 {
        let r = seq![x] + s;
        if r.contains(y) {
            let k = choose|k: int| 0 <= k < r.len() && r[k] == y;
            if k > 0 {
                assert(s[k - 1] == y);
            }
        }
        if s.contains(y) {
            let k = choose|k: int| 0 <= k < s.len() && s[k] == y;
            assert(r[k + 1] == y);
        }
        if y == x {
            assert(r[0] == y);
        }
    } else {
        let t = insert_by_score(s.drop_first(), x);
        lemma_insert_by_score_contains(s.drop_first(), x, y);
        let r = seq![s[0]] + t;
        assert(insert_by_score(s, x) == r);
        if r.contains(y) {
            let k = choose|k: int| 0 <= k < r.len() && r[k] == y;
            if k == 0 {
                assert(s[0] == y);
            } else {
                assert(t[k - 1] == y);
                if s.drop_first().contains(y) {
                    let j = choose|j: int| 0 <= j < s.drop_first().len() && s.drop_first()[j] == y;
                    assert(s[j + 1] == y);
                }
            }
        }
        if s.contains(y) {
            let k = choose|k: int| 0 <= k < s.len() && s[k] == y;
            if k == 0 {
                assert(r[0] == y);
            } else {
                assert(s.drop_first()[k - 1] == y);
                let j = choose|j: int| 0 <= j < t.len() && t[j] == y;
                assert(r[j + 1] == y);
            }
        }
        if y == x {
            let j = choose|j: int| 0 <= j < t.len() && t[j] == y;
            assert(r[j + 1] == y);
        }
    }
}

/// Sorting by score keeps exactly the elements.
proof fn lemma_sort_by_score_contains(
    s: Seq<(i64, Seq<usize>, Seq<char>)>,
    y: (i64, Seq<usize>, Seq<char>),
)
    ensures
        sort_by_score(s).contains(y) <==> s.contains(y),
    decreases s.len(),
{
    if s.len() > 0 {
        lemma_sort_by_score_contains(s.drop_last(), y);
        lemma_insert_by_score_contains(sort_by_score(s.drop_last()), s.last(), y);
        crate::text::lemma_push_contains(s.drop_last(), s.last());
        assert(s.drop_last().push(s.last()) =~= s);
    }
}

/// The distinct options are exactly the options.
pub proof fn lemma_distinct_options_contains(options: Seq<Seq<char>>, x: Seq<char>)
    ensures
        distinct_options(options).contains(x) <==> options.contains(x),
    decreases options.len(),
{
    if options.len() > 0 {
        lemma_distinct_options_contains(options.drop_last(), x);
        let d = distinct_options(options.drop_last());
        crate::text::lemma_push_contains(d, options.last());
        crate::text::lemma_push_contains(options.drop_last(), options.last());
        assert(options.drop_last().push(options.last()) =~= options);
    }
}

/// No option occurs twice in the distinct options.
proof fn lemma_distinct_options_no_duplicates(options: Seq<Seq<char>>)
    ensures
        distinct_options(options).no_duplicates(),
    decreases options.len(),
{
    if options.len() > 0 {
        lemma_distinct_options_no_duplicates(options.drop_last());
        let d = distinct_options(options.drop_last());
        if !d.contains(options.last()) {
            let r = d.push(options.last());
            assert forall|i: int, j: int| 0 <= i < r.len() && 0 <= j < r.len() && i != j implies r[i]
                != r[j] by {
                if i == d.len() as int {
                    assert(d[j] == r[j]);
                } else if j == d.len() as int {
                    assert(d[i] == r[i]);
                }
            }
        }
    }
}

/// No option occurs twice among the scored ones.
pub open spec fn scored_distinct(s: Seq<(i64, Seq<usize>, Seq<char>)>) -> bool {
    forall|i: int, j: int| 0 <= i < j < s.len() ==> #[trigger] s[i].2 != #[trigger] s[j].2
}

/// Fuzzy matches of options without repetitions repeat no option.
proof fn lemma_scored_distinct(options: Seq<Seq<char>>, pattern: Seq<char>)
    requires
        options.no_duplicates(),
    ensures
        scored_distinct(fuzzy_scored(options, pattern)),
    decreases options.len(),
{
    if options.len() > 0 {
        let rest = options.drop_last();
        assert(rest.no_duplicates());
        lemma_scored_distinct(rest, pattern);
        let r = fuzzy_scored(rest, pattern);
        match skim_fuzzy_indices(options.last(), pattern) {
            Some((score, indices)) => {
                let t = r.push((score, indices, options.last()));
                assert forall|i: int, j: int| 0 <= i < j < t.len() implies #[trigger] t[i].2
                    != #[trigger] t[j].2 by {
                    if j == r.len() as int {
                        lemma_scored_are_options(rest, pattern, i);
                        let k = choose|k: int| 0 <= k < rest.len() && rest[k] == r[i].2;
                        assert(options[k] == rest[k]);
                        assert(options[options.len() - 1] == options.last());
                    } else {
                        assert(t[i] == r[i] && t[j] == r[j]);
                    }
                }
            },
            None => {},
        }
    }
}

/// Inserting an element whose option is not there yet repeats no option.
proof fn lemma_insert_by_score_distinct(
    s: Seq<(i64, Seq<usize>, Seq<char>)>,
    x: (i64, Seq<usize>, Seq<char>),
)
    requires
        scored_distinct(s),
        forall|k: int| 0 <= k < s.len() ==> #[trigger] s[k].2 != x.2,
    ensures
        scored_distinct(insert_by_score(s, x)),
    decreases s.len(),
{
    if s.len() == 0 {
        assert(insert_by_score(s, x) =~= seq![x]);
    } else if s[0].0 < x.0 {
        let r = seq![x] + s;
        assert forall|i: int, j: int| 0 <= i < j < r.len() implies #[trigger] r[i].2
            != #[trigger] r[j].2 by {
            assert(r[j] == s[j - 1]);
            if i > 0 {
                assert(r[i] == s[i - 1]);
            }
        }
    } else {
        let rest = s.drop_first();
        assert forall|k: int| 0 <= k < rest.len() implies #[trigger] rest[k].2 != x.2 by {
            assert(rest[k] == s[k + 1]);
        }
        assert(scored_distinct(rest)) by {
            assert forall|i: int, j: int| 0 <= i < j < rest.len() implies #[trigger] rest[i].2
                != #[trigger] rest[j].2 by {
                assert(rest[i] == s[i + 1] && rest[j] == s[j + 1]);
            }
        }
        lemma_insert_by_score_distinct(rest, x);
        let t = insert_by_score(rest, x);
        let r = seq![s[0]] + t;
        assert(insert_by_score(s, x) == r);
        assert forall|i: int, j: int| 0 <= i < j < r.len() implies #[trigger] r[i].2
            != #[trigger] r[j].2 by {
            assert(r[j] == t[j - 1]);
            if i == 0 {
                lemma_insert_by_score_contains(rest, x, t[j - 1]);
                assert(t.contains(t[j - 1]));
                if rest.contains(t[j - 1]) {
                    let k = choose|k: int| 0 <= k < rest.len() && rest[k] == t[j - 1];
                    assert(s[k + 1] == rest[k]);
                }
            } else {
                assert(r[i] == t[i - 1]);
            }
        }
    }
}

/// Sorting by score repeats no option where the unsorted matches repeat none.
proof fn lemma_sort_by_score_distinct(s: Seq<(i64, Seq<usize>, Seq<char>)>)
    requires
        scored_distinct(s),
    ensures
        scored_distinct(sort_by_score(s)),
    decreases s.len(),
{
    if s.len() > 0 {
        let rest = s.drop_last();
        assert(scored_distinct(rest)) by {
            assert forall|i: int, j: int| 0 <= i < j < rest.len() implies #[trigger] rest[i].2
                != #[trigger] rest[j].2 by {
                assert(rest[i] == s[i] && rest[j] == s[j]);
            }
        }
        lemma_sort_by_score_distinct(rest);
        let sorted = sort_by_score(rest);
        assert forall|k: int| 0 <= k < sorted.len() implies #[trigger] sorted[k].2 != s.last().2 by {
            lemma_sort_by_score_contains(rest, sorted[k]);
            assert(sorted.contains(sorted[k]));
            let m = choose|m: int| 0 <= m < rest.len() && rest[m] == sorted[k];
            assert(s[m] == rest[m]);
            assert(s[s.len() - 1] == s.last());
        }
        lemma_insert_by_score_distinct(sorted, s.last());
    }
}

/// An ambiguous answer lists each option at most once: the fuzzy matches of a search, best
/// first, are of pairwise different options.
pub proof fn lemma_ranked_matches_are_distinct(options: Seq<Seq<char>>, pattern: Seq<char>)
    ensures
        scored_distinct(ranked_matches(distinct_options(options), pattern)),
{
    lemma_distinct_options_no_duplicates(options);
    lemma_scored_distinct(distinct_options(options), pattern);
    lemma_sort_by_score_distinct(fuzzy_scored(distinct_options(options), pattern));
}

/// What a search selects is always one of the options searched: the pattern itself where
/// it is an option, else an option that contains it or fuzzily matches it.
pub proof fn lemma_found_option_is_an_option(
    options: Seq<Seq<char>>,
    pattern: Seq<char>,
    res: FuzzyMatchResult,
)
    requires
        find_result_spec(distinct_options(options), pattern, res),
        res is Found,
    ensures
        options.contains(res->option@),
{
    let d = distinct_options(options);
    let contains = containing(d, pattern);
    let ranked = ranked_matches(d, pattern);
    if d.contains(pattern) {
    } else if contains.len() == 1 {
        assert(contains.contains(contains[0]));
        lemma_containing_are_options(d, pattern, contains[0]);
    } else {
        assert(ranked.contains(ranked[0]));
        lemma_sort_by_score_contains(fuzzy_scored(d, pattern), ranked[0]);
        let k = choose|k: int|
            0 <= k < fuzzy_scored(d, pattern).len() && fuzzy_scored(d, pattern)[k] == ranked[0];
        lemma_scored_are_options(d, pattern, k);
    }
    lemma_distinct_options_contains(options, res->option@);
}

/// A set of options to search in: each option once, kept in the order first given. (The
/// hash set specifications of vstd hold only for key types that obey its key model, which
/// vstd establishes for integers but not for strings; in this order, the ranking of equally
/// scored fuzzy matches is fixed, where a hash set walks them in an order that varies.)
pub struct FuzzySearch {
    options: Vec<String>,
}

impl View for FuzzySearch {
    type V = Seq<Seq<char>>;

    closed spec fn view(&self) -> Seq<Seq<char>> {
        self.options@.map_values(|o: String| o@)
    }
}

/// A fuzzy match under ranking.
struct RankedOption {
    score: i64,
    indices: Vec<usize>,
    option: String,
}

impl RankedOption {
    spec fn view(&self) -> (i64, Seq<usize>, Seq<char>) {
        (self.score, self.indices@, self.option@)
    }
}

spec fn ranked_view(v: Seq<RankedOption>) -> Seq<(i64, Seq<usize>, Seq<char>)> {
    v.map_values(|r: RankedOption| r.view())
}

proof fn lemma_insert_at_first_lower(
    s: Seq<(i64, Seq<usize>, Seq<char>)>,
    x: (i64, Seq<usize>, Seq<char>),
    k: int,
)
    requires
        0 <= k <= s.len(),
        forall|j: int| 0 <= j < k ==> s[j].0 >= x.0,
        k == s.len() || s[k].0 < x.0,
    ensures
        insert_by_score(s, x) == s.insert(k, x),
    decreases k,
{
    if s.len() == 0 {
        assert(s.insert(k, x) =~= seq![x]);
    } else if k == 0 {
        assert(s.insert(k, x) =~= seq![x] + s);
    } else {
        let t = s.drop_first();
        assert forall|j: int| 0 <= j < k - 1 implies t[j].0 >= x.0 by {
            assert(t[j] == s[j + 1]);
        }
        lemma_insert_at_first_lower(t, x, k - 1);
        assert(s.insert(k, x) =~= seq![s[0]] + t.insert(k - 1, x));
    }
}

/// Whether `v` holds `x`.
fn holds_index(v: &Vec<usize>, x: usize) -> (res: bool)
    ensures
        res == v@.contains(x),
{
    let mut i: usize = 0;
    while i < v.len()
        invariant
            i <= v.len(),
            forall|k: int| 0 <= k < i ==> v@[k] != x,
        decreases v.len() - i,
    {
        if v[i] == x {
            return true;
        }
        i = i + 1;
    }
    false
}

/// Renders `option` with the characters at `indices` highlighted.
fn highlight_option(option: &Vec<char>, indices: &Vec<usize>) -> (res: String)
    ensures
        highlighting_of(res@, option@, indices@),
{
    let mut res = String::new();
    let ghost mut pieces: Seq<Seq<char>> = Seq::empty();
    let mut i: usize = 0;
    while i < option.len()
        invariant
            i <= option.len(),
            pieces.len() == i,
            forall|j: int|
                0 <= j < i ==> if indices@.contains(j as usize) {
                    highlighted_char(#[trigger] pieces[j], option@[j])
                } else {
                    pieces[j] == seq![option@[j]]
                },
            res@ == concat_pieces(pieces),
        decreases option.len() - i,
    {
        let c = option[i];
        let ghost old_pieces = pieces;
        if holds_index(indices, i) {
            let h = highlight_char(c);
            res.append(h.as_str());
            proof {
                pieces = pieces.push(h@);
            }
        } else {
            push_char(&mut res, c);
            proof {
                pieces = pieces.push(seq![c]);
            }
        }
        assert(pieces.drop_last() =~= old_pieces);
        i = i + 1;
    }
    res
}

impl FuzzySearch {
    /// A search over `options`; repeated options are kept once.
    pub fn new(options: &[&str]) -> (res: Self)
        ensures
            res@ == distinct_options(options@.map_values(|o: &str| o@)),
    {
        let ghost input = options@.map_values(|o: &str| o@);
        let mut kept: Vec<String> = Vec::new();
        let mut kept_chars: Vec<Vec<char>> = Vec::new();
        let mut i: usize = 0;
        while i < options.len()
            invariant
                i <= options.len(),
                input == options@.map_values(|o: &str| o@),
                kept@.map_values(|o: String| o@) == distinct_options(input.take(i as int)),
                kept_chars@.map_values(|e: Vec<char>| e@) == kept@.map_values(|o: String| o@),
            decreases options.len() - i,
        {
            let cs = chars_of(options[i]);
            assert(input.take(i + 1).drop_last() =~= input.take(i as int));
            assert(input.take(i + 1).last() == cs@);
            if !crate::text::holds_chars(&kept_chars, &cs) {
                let s = string_of(&cs);
                kept.push(s);
                kept_chars.push(cs);
                assert(kept@.map_values(|o: String| o@) =~= distinct_options(
                    input.take(i as int),
                ).push(cs@));
                assert(kept_chars@.map_values(|e: Vec<char>| e@) =~= kept@.map_values(
                    |o: String| o@,
                ));
            }
            i = i + 1;
        }
        assert(input.take(options.len() as int) =~= input);
        FuzzySearch { options: kept }
    }

    /// Selects the option meant by `pattern`: the option equal to it; else the only
    /// option that contains it; else the only fuzzy match, or all fuzzy matches ranked
    /// by score, or none.
    pub fn find(&self, pattern: &str) -> (res: FuzzyMatchResult)
        ensures
            find_result_spec(self@, pattern@, res),
    {
        let p = chars_of(pattern);
        let n = self.options.len();
        let ghost opts = self@;

        // Exact match
        let mut i: usize = 0;
        while i < n
            invariant
                n == self.options.len(),
                opts == self@,
                p@ == pattern@,
                i <= n,
                forall|k: int| 0 <= k < i ==> opts[k] != p@,
            decreases n - i,
        {
            let o = chars_of(self.options[i].as_str());
            if chars_equal(&o, &p) {
                assert(opts[i as int] == p@);
                return FuzzyMatchResult::Found { option: string_of(&p), exact_match: true };
            }
            i = i + 1;
        }
        assert(!opts.contains(p@));

        // Options that contain the pattern
        let mut contains: Vec<String> = Vec::new();
        let mut i: usize = 0;
        while i < n
            invariant
                n == self.options.len(),
                opts == self@,
                p@ == pattern@,
                i <= n,
                contains@.map_values(|o: String| o@) == containing(opts.take(i as int), p@),
            decreases n - i,
        {
            let o = chars_of(self.options[i].as_str());
            assert(opts.take(i + 1).drop_last() =~= opts.take(i as int));
            assert(opts.take(i + 1).last() == o@);
            if chars_contain(&o, &p) {
                contains.push(string_of(&o));
                assert(contains@.map_values(|o: String| o@) =~= containing(
                    opts.take(i as int),
                    p@,
                ).push(o@));
            }
            i = i + 1;
        }
        assert(opts.take(n as int) =~= opts);
        if contains.len() == 1 {
            let option = string_of(&chars_of(contains[0].as_str()));
            assert(contains@.map_values(|o: String| o@)[0] == contains@[0]@);
            return FuzzyMatchResult::Found { option, exact_match: false };
        }

        // Fuzzy matches, ranked by descending score
        let mut ranked: Vec<RankedOption> = Vec::new();
        let mut i: usize = 0;
        while i < n
            invariant
                n == self.options.len(),
                opts == self@,
                p@ == pattern@,
                i <= n,
                ranked_view(ranked@) == sort_by_score(fuzzy_scored(opts.take(i as int), p@)),
            decreases n - i,
        {
            let option = self.options[i].as_str();
            assert(opts.take(i + 1).drop_last() =~= opts.take(i as int));
            assert(opts.take(i + 1).last() == option@);
            let ghost prev = fuzzy_scored(opts.take(i as int), p@);
            match skim_fuzzy_indices_exec(option, pattern) {
                Some((score, indices)) => {
                    let ghost before = ranked_view(ranked@);
                    let ghost x = (score, indices@, option@);
                    assert(fuzzy_scored(opts.take(i + 1), p@) == prev.push(x));
                    assert(prev.push(x).drop_last() =~= prev);
                    assert(sort_by_score(prev.push(x)) == insert_by_score(sort_by_score(prev), x));
                    let mut k: usize = 0;
                    while k < ranked.len() && ranked[k].score >= score
                        invariant
                            k <= ranked.len(),
                            before == ranked_view(ranked@),
                            forall|j: int| 0 <= j < k ==> before[j].0 >= score,
                        decreases ranked.len() - k,
                    {
                        k = k + 1;
                    }
                    let entry = RankedOption {
                        score,
                        indices,
                        option: string_of(&chars_of(option)),
                    };
                    assert(entry.view() == x);
                    proof {
                        lemma_insert_at_first_lower(before, x, k as int);
                    }
                    ranked.insert(k, entry);
                    assert(ranked_view(ranked@) =~= before.insert(k as int, x));
                },
                None => {
                    assert(fuzzy_scored(opts.take(i + 1), p@) == prev);
                },
            }
            i = i + 1;
        }
        assert(opts.take(n as int) =~= opts);

        if ranked.len() == 0 {
            return FuzzyMatchResult::NotFound;
        }
        if ranked.len() == 1 {
            let option = string_of(&chars_of(ranked[0].option.as_str()));
            assert(ranked_view(ranked@)[0] == ranked@[0].view());
            return FuzzyMatchResult::Found { option, exact_match: false };
        }
        let mut highlighted_options: Vec<String> = Vec::new();
        let mut k: usize = 0;
        while k < ranked.len()
            invariant
                k <= ranked.len(),
                highlighted_options.len() == k,
                forall|j: int|
                    0 <= j < k ==> highlighting_of(
                        #[trigger] highlighted_options@[j]@,
                        ranked_view(ranked@)[j].2,
                        ranked_view(ranked@)[j].1,
                    ),
            decreases ranked.len() - k,
        {
            let cs = chars_of(ranked[k].option.as_str());
            let h = highlight_option(&cs, &ranked[k].indices);
            assert(ranked_view(ranked@)[k as int] == ranked@[k as int].view());
            highlighted_options.push(h);
            k = k + 1;
        }
        FuzzyMatchResult::Ambiguous { highlighted_options }
    }
}

} // verus!
