//! Character-level helpers for strings.

use vstd::prelude::*;

verus! {

/// `needle` occurs in `hay` as a contiguous run of characters.
pub open spec fn seq_contains_sub(hay: Seq<char>, needle: Seq<char>) -> bool {
    exists|i: int|
        0 <= i && i + needle.len() <= hay.len() && #[trigger] hay.subrange(i, i + needle.len())
            == needle
}

/// Appends one character to a string (std `String::push`).
#[verifier::external_body]
pub(crate) fn push_char(s: &mut String, c: char)
    ensures
        final(s)@ == old(s)@.push(c),
{
    s.push(c);
}

/// The characters of a string, in order.
pub fn chars_of(s: &str) -> (res: Vec<char>)
    ensures
        res@ == s@,
{
    let mut res: Vec<char> = Vec::new();
    for c in it: s.chars()
        invariant
            res@ == it.seq().take(it.index() as int),
    {
        res.push(c);
    }
    res
}

/// A string made of the given characters.
pub fn string_of(cs: &Vec<char>) -> (res: String)
    ensures
        res@ == cs@,
{
    let mut res = String::new();
    let mut i: usize = 0;
    while i < cs.len()
        invariant
            i <= cs.len(),
            res@ == cs@.take(i as int),
        decreases cs.len() - i,
    {
        push_char(&mut res, cs[i]);
        assert(cs@.take(i as int).push(cs@[i as int]) =~= cs@.take(i + 1));
        i = i + 1;
    }
    assert(cs@.take(cs.len() as int) =~= cs@);
    res
}

/// Whether two character sequences are equal.
pub fn chars_equal(a: &Vec<char>, b: &Vec<char>) -> (res: bool)
    ensures
        res == (a@ == b@),
{
    if a.len() != b.len() {
        return false;
    }
    let mut i: usize = 0;
    while i < a.len()
        invariant
            a.len() == b.len(),
            i <= a.len(),
            forall|j: int| 0 <= j < i ==> a@[j] == b@[j],
        decreases a.len() - i,
    {
        if a[i] != b[i] {
            return false;
        }
        i = i + 1;
    }
    assert(a@ =~= b@);
    true
}

/// Whether `needle` matches `hay` at position `start`.
fn chars_match_at(hay: &Vec<char>, needle: &Vec<char>, start: usize) -> (res: bool)
    requires
        start + needle.len() <= hay.len(),
    ensures
        res == (hay@.subrange(start as int, start + needle.len()) == needle@),
{
    let mut j: usize = 0;
    while j < needle.len()
        invariant
            start + needle.len() <= hay.len(),
            j <= needle.len(),
            forall|k: int| 0 <= k < j ==> hay@[start + k] == needle@[k],
        decreases needle.len() - j,
    {
        if hay[start + j] != needle[j] {
            assert(hay@.subrange(start as int, start + needle.len())[j as int] != needle@[j as int]);
            return false;
        }
        j = j + 1;
    }
    assert(hay@.subrange(start as int, start + needle.len()) =~= needle@);
    true
}

/// Whether `needle` occurs in `hay` (std `str::contains` on character sequences).
pub fn chars_contain(hay: &Vec<char>, needle: &Vec<char>) -> (res: bool)
    ensures
        res == seq_contains_sub(hay@, needle@),
{
    if needle.len() > hay.len() {
        return false;
    }
    let last = hay.len() - needle.len();
    let mut i: usize = 0;
    while i <= last
        invariant
            last + needle.len() == hay.len(),
            i <= last + 1,
            forall|k: int|
                0 <= k < i ==> #[trigger] hay@.subrange(k, k + needle.len()) != needle@,
        decreases last + 1 - i,
    {
        if chars_match_at(hay, needle, i) {
            return true;
        }
        if i == last {
            return false;
        }
        i = i + 1;
    }
    false
}

/// Whether a sequence of character sequences holds `x`.
pub fn holds_chars(v: &Vec<Vec<char>>, x: &Vec<char>) -> (res: bool)
    ensures
        res == v@.map_values(|e: Vec<char>| e@).contains(x@),
{
    let ghost vs = v@.map_values(|e: Vec<char>| e@);
    let mut i: usize = 0;
    while i < v.len()
        invariant
            i <= v.len(),
            vs == v@.map_values(|e: Vec<char>| e@),
            forall|k: int| 0 <= k < i ==> vs[k] != x@,
        decreases v.len() - i,
    {
        if chars_equal(&v[i], x) {
            assert(vs[i as int] == x@);
            return true;
        }
        i = i + 1;
    }
    false
}

/// The parts joined with `sep` between consecutive ones.
pub open spec fn joined(parts: Seq<Seq<char>>, sep: Seq<char>) -> Seq<char>
    decreases parts.len(),
{
    if parts.len() == 0 {
        Seq::empty()
    } else if parts.len() == 1 {
        parts[0]
    } else {
        joined(parts.drop_last(), sep) + sep + parts.last()
    }
}

/// The views of a list of strings.
pub open spec fn strings_view(v: Seq<String>) -> Seq<Seq<char>> {
    v.map_values(|s: String| s@)
}

/// Joins `parts` with `sep` between consecutive ones (itertools `join`, std `[String]::join`).
pub fn join(parts: &Vec<String>, sep: &str) -> (res: String)
    ensures
        res@ == joined(strings_view(parts@), sep@),
{
    let mut res = String::new();
    let mut i: usize = 0;
    while i < parts.len()
        invariant
            i <= parts.len(),
            res@ == joined(strings_view(parts@.take(i as int)), sep@),
        decreases parts.len() - i,
    {
        let ghost before = strings_view(parts@.take(i as int));
        assert(strings_view(parts@.take(i + 1)) =~= before.push(parts@[i as int]@));
        assert(before.push(parts@[i as int]@).drop_last() =~= before);
        if i > 0 {
            res.append(sep);
        }
        res.append(parts[i].as_str());
        i = i + 1;
    }
    assert(parts@.take(parts.len() as int) =~= parts@);
    res
}

/// What a sequence contains after a push.
pub proof fn lemma_push_contains<A>(s: Seq<A>, a: A)
    ensures
        forall|x: A| #[trigger] s.push(a).contains(x) <==> (s.contains(x) || x == a),
{
    assert forall|x: A| #[trigger] s.push(a).contains(x) <==> (s.contains(x) || x == a) by {
        if x == a {
            assert(s.push(a)[s.len() as int] == x);
        } else if s.contains(x) {
            let k = choose|k: int| 0 <= k < s.len() && s[k] == x;
            assert(s.push(a)[k] == x);
        } else if s.push(a).contains(x) {
            let k = choose|k: int| 0 <= k < s.len() + 1 && s.push(a)[k] == x;
            if k < s.len() {
                assert(s[k] == x);
            }
        }
    }
}

/// `a` comes before `b` in the order of strings: by the first differing character, a
/// proper prefix first.
pub open spec fn chars_lt(a: Seq<char>, b: Seq<char>) -> bool
    decreases a.len(),
{
    if a.len() == 0 {
        b.len() > 0
    } else if b.len() == 0 {
        false
    } else if a[0] == b[0] {
        chars_lt(a.drop_first(), b.drop_first())
    } else {
        a[0] < b[0]
    }
}

/// The order of strings is transitive.
pub proof fn lemma_chars_lt_transitive(a: Seq<char>, b: Seq<char>, c: Seq<char>)
    requires
        chars_lt(a, b),
        chars_lt(b, c),
    ensures
        chars_lt(a, c),
    decreases a.len(),
{
    if a.len() > 0 && b.len() > 0 && c.len() > 0 {
        if a[0] == b[0] && b[0] == c[0] {
            lemma_chars_lt_transitive(a.drop_first(), b.drop_first(), c.drop_first());
        }
    }
}

/// Two different strings are ordered one way or the other.
pub proof fn lemma_chars_lt_total(a: Seq<char>, b: Seq<char>)
    requires
        a != b,
    ensures
        chars_lt(a, b) || chars_lt(b, a),
    decreases a.len(),
{
    if a.len() > 0 && b.len() > 0 && a[0] == b[0] {
        if a.drop_first() == b.drop_first() {
            assert(a =~= seq![a[0]] + a.drop_first());
            assert(b =~= seq![b[0]] + b.drop_first());
        }
        lemma_chars_lt_total(a.drop_first(), b.drop_first());
    } else if a.len() > 0 && b.len() > 0 {
        assert(a[0] != b[0]);
    } else if a.len() == 0 && b.len() == 0 {
        assert(a =~= b);
    }
}

/// Whether `a` comes before `b` in the order of strings.
pub fn chars_less(a: &Vec<char>, b: &Vec<char>) -> (res: bool)
    ensures
        res == chars_lt(a@, b@),
{
    let mut i: usize = 0;
    assert(a@.skip(0) =~= a@);
    assert(b@.skip(0) =~= b@);
    while i < a.len() && i < b.len()
        invariant
            i <= a.len(),
            i <= b.len(),
            chars_lt(a@, b@) == chars_lt(a@.skip(i as int), b@.skip(i as int)),
        decreases a.len() - i,
    {
        let ghost sa = a@.skip(i as int);
        let ghost sb = b@.skip(i as int);
        assert(sa[0] == a@[i as int]);
        assert(sb[0] == b@[i as int]);
        if a[i] != b[i] {
            return a[i] < b[i];
        }
        assert(sa.drop_first() =~= a@.skip(i + 1));
        assert(sb.drop_first() =~= b@.skip(i + 1));
        i = i + 1;
    }
    if i == a.len() {
        assert(a@.skip(i as int).len() == 0);
        i < b.len()
    } else {
        assert(b@.skip(i as int).len() == 0);
        false
    }
}

/// The strings are in strictly increasing order.
pub open spec fn strictly_sorted(s: Seq<Seq<char>>) -> bool {
    forall|i: int, j: int| 0 <= i < j < s.len() ==> chars_lt(#[trigger] s[i], #[trigger] s[j])
}

/// Inserts `name` into strictly sorted names, where it is not there yet (a `BTreeSet` of
/// strings).
pub fn insert_sorted(names: &mut Vec<String>, name: &String)
    requires
        strictly_sorted(strings_view(old(names)@)),
    ensures
        strictly_sorted(strings_view(final(names)@)),
        forall|x: Seq<char>|
            #[trigger] strings_view(final(names)@).contains(x) <==> (strings_view(
                old(names)@,
            ).contains(x) || x == name@),
{
    let ghost before = strings_view(names@);
    let key = chars_of(name.as_str());
    let mut i: usize = 0;
    while i < names.len()
        invariant
            i <= names.len(),
            key@ == name@,
            before == strings_view(names@),
            strictly_sorted(before),
            forall|k: int| 0 <= k < i ==> chars_lt(#[trigger] before[k], name@),
        ensures
            i <= names.len(),
            before == strings_view(names@),
            forall|k: int| 0 <= k < i ==> chars_lt(#[trigger] before[k], name@),
            i < names.len() ==> chars_lt(name@, before[i as int]),
        decreases names.len() - i,
    {
        let cur = chars_of(names[i].as_str());
        assert(cur@ == before[i as int]);
        if chars_equal(&cur, &key) {
            assert(before.contains(name@));
            return;
        }
        if chars_less(&key, &cur) {
            break;
        }
        proof {
            lemma_chars_lt_total(before[i as int], name@);
        }
        i = i + 1;
    }
    let n = name.clone();
    names.insert(i, n);
    proof {
        let after = strings_view(names@);
        assert(after =~= before.insert(i as int, name@));
        assert forall|a: int, b: int| 0 <= a < b < after.len() implies chars_lt(
            #[trigger] after[a],
            #[trigger] after[b],
        ) by {
            if b < i {
            } else if b == i {
                assert(after[a] == before[a]);
            } else if a < i {
                assert(after[a] == before[a]);
                assert(after[b] == before[b - 1]);
            } else if a == i {
                assert(after[b] == before[b - 1]);
                assert(i < before.len());
                assert(chars_lt(name@, before[i as int]));
                if b - 1 > i {
                    lemma_chars_lt_transitive(name@, before[i as int], before[b - 1]);
                }
            } else {
                assert(after[a] == before[a - 1]);
                assert(after[b] == before[b - 1]);
            }
        }
        assert forall|x: Seq<char>| #[trigger] after.contains(x) <==> (before.contains(x) || x
            == name@) by {
            if after.contains(x) {
                let k = choose|k: int| 0 <= k < after.len() && after[k] == x;
                if k < i {
                    assert(before[k] == x);
                } else if k > i {
                    assert(before[k - 1] == x);
                }
            }
            if before.contains(x) {
                let k = choose|k: int| 0 <= k < before.len() && before[k] == x;
                if k < i {
                    assert(after[k] == x);
                } else {
                    assert(after[k + 1] == x);
                }
            }
            if x == name@ {
                assert(after[i as int] == x);
            }
        }
    }
}

} // verus!
