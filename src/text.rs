//! Counting occurrences of a pattern in a character sequence.
use vstd::prelude::*;

verus! {

/// Number of positions of `s` at which `p` starts.
pub open spec fn count_occurrences(s: Seq<char>, p: Seq<char>) -> nat
    decreases s.len(),
{
    if s.len() == 0 {
        0
    } else {
        (if p.len() <= s.len() && s.take(p.len() as int) == p { 1nat } else { 0nat })
            + count_occurrences(s.skip(1), p)
    }
}

/// `s` contains `p` as a contiguous piece.
pub open spec fn contains_piece(s: Seq<char>, p: Seq<char>) -> bool {
    exists|i: int| 0 <= i && i + p.len() <= s.len() && #[trigger] s.subrange(i, i + p.len()) == p
}

/// `s` holds no occurrence of the character `c`.
pub open spec fn lacks(s: Seq<char>, c: char) -> bool
    decreases s.len(),
{
    s.len() == 0 || (s[0] != c && lacks(s.skip(1), c))
}

proof fn lemma_lacks_index(s: Seq<char>, c: char, k: int)
    requires
        lacks(s, c),
        0 <= k < s.len(),
    ensures
        s[k] != c,
    decreases s.len(),
{
    if k > 0 {
        lemma_lacks_index(s.skip(1), c, k - 1);
    }
}

/// `s` holds no position where `a` is directly followed by `b`.
pub open spec fn lacks_pair(s: Seq<char>, a: char, b: char) -> bool
    decreases s.len(),
{
    s.len() < 2 || (!(s[0] == a && s[1] == b) && lacks_pair(s.skip(1), a, b))
}

proof fn lemma_lacks_pair_index(s: Seq<char>, a: char, b: char, k: int)
    requires
        lacks_pair(s, a, b),
        0 <= k,
        k + 1 < s.len(),
    ensures
        !(s[k] == a && s[k + 1] == b),
    decreases s.len(),
{
    if k > 0 {
        lemma_lacks_pair_index(s.skip(1), a, b, k - 1);
    }
}

/// A sequence in which two adjacent characters of the pattern never stand
/// side by side holds no occurrence of it.
pub proof fn lemma_count_missing_pair(s: Seq<char>, p: Seq<char>, j: int)
    requires
        0 <= j,
        j + 1 < p.len(),
        lacks_pair(s, p[j], p[j + 1]),
    ensures
        count_occurrences(s, p) == 0,
    decreases s.len(),
{
    if s.len() > 0 {
        if p.len() <= s.len() && s.take(p.len() as int) == p {
            lemma_lacks_pair_index(s, p[j], p[j + 1], j);
            assert(s.take(p.len() as int)[j] == s[j]);
            assert(s.take(p.len() as int)[j + 1] == s[j + 1]);
        }
        if s.len() >= 2 {
            lemma_count_missing_pair(s.skip(1), p, j);
        } else {
            lemma_count_short(s.skip(1), p);
        }
    }
}

proof fn lemma_count_short(s: Seq<char>, p: Seq<char>)
    requires
        s.len() < p.len(),
    ensures
        count_occurrences(s, p) == 0,
    decreases s.len(),
{
    if s.len() > 0 {
        lemma_count_short(s.skip(1), p);
    }
}

/// Counts add up over a concatenation when the seam cannot lie inside an
/// occurrence: the left part ends, or the right part starts, with a character
/// that the pattern lacks.
pub proof fn lemma_count_concat(a: Seq<char>, b: Seq<char>, p: Seq<char>)
    requires
        p.len() > 0,
        a.len() == 0 || lacks(p, a.last()) || (b.len() > 0 && lacks(p, b[0])),
    ensures
        count_occurrences(a + b, p) == count_occurrences(a, p) + count_occurrences(b, p),
    decreases a.len(),
{
    if a.len() == 0 {
        assert(a + b =~= b);
    } else {
        let ab = a + b;
        assert(ab.skip(1) =~= a.skip(1) + b);
        if a.len() >= 2 {
            assert(a.skip(1).last() == a.last());
        }
        lemma_count_concat(a.skip(1), b, p);
        if p.len() <= a.len() {
            assert(ab.take(p.len() as int) =~= a.take(p.len() as int));
        } else if p.len() <= ab.len() && ab.take(p.len() as int) == p {
            assert(ab.take(p.len() as int)[a.len() - 1] == a.last());
            if lacks(p, a.last()) {
                lemma_lacks_index(p, a.last(), a.len() - 1);
            } else {
                assert(ab.take(p.len() as int)[a.len() as int] == b[0]);
                lemma_lacks_index(p, b[0], a.len() as int);
            }
        }
    }
}

proof fn lemma_count_after_partial(p: Seq<char>, b: Seq<char>, k: int)
    requires
        1 <= k <= p.len(),
        lacks(p.skip(1), p[0]),
    ensures
        count_occurrences(p.skip(k) + b, p) == count_occurrences(b, p),
    decreases p.len() - k,
{
    let s = p.skip(k) + b;
    if k == p.len() {
        assert(s =~= b);
    } else {
        lemma_lacks_index(p.skip(1), p[0], k - 1);
        assert(s[0] == p[k]);
        if p.len() <= s.len() && s.take(p.len() as int) == p {
            assert(s.take(p.len() as int)[0] == s[0]);
        }
        assert(s.skip(1) =~= p.skip(k + 1) + b);
        lemma_count_after_partial(p, b, k + 1);
    }
}

/// A pattern whose first character does not recur in it, placed in front of
/// `b`, adds exactly one occurrence.
pub proof fn lemma_count_leading_pattern(p: Seq<char>, b: Seq<char>)
    requires
        p.len() > 0,
        lacks(p.skip(1), p[0]),
    ensures
        count_occurrences(p + b, p) == 1 + count_occurrences(b, p),
{
    let s = p + b;
    assert(s.take(p.len() as int) =~= p);
    assert(s.skip(1) =~= p.skip(1) + b);
    lemma_count_after_partial(p, b, 1);
}

} // verus!
