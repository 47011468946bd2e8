//! Counting and replacing occurrences of a pattern in a text, as
//! `str::matches(..).count()`, `str::replace` and `str::replacen(.., 1)` do:
//! occurrences are found from left to right and do not overlap; an empty
//! pattern occurs before every character and at the end.
use vstd::prelude::*;

use crate::text::{push_all, slice_chars};

verus! {

/// Whether `p` occurs in `s` at index `i`.
pub open spec fn occurs_at(s: Seq<char>, p: Seq<char>, i: int) -> bool {
    0 <= i && i + p.len() <= s.len() && s.subrange(i, i + p.len()) == p
}

/// The number of occurrences of a non-empty `p` in `s[i..]`.
pub open spec fn count_from(s: Seq<char>, p: Seq<char>, i: int) -> nat
    decreases s.len() - i,
{
    if p.len() == 0 || i < 0 || i + p.len() > s.len() {
        0
    } else if s.subrange(i, i + p.len()) == p {
        1 + count_from(s, p, i + p.len())
    } else {
        count_from(s, p, i + 1)
    }
}

/// `s[i..]` with every occurrence of a non-empty `p` replaced by `r`.
pub open spec fn replace_from(s: Seq<char>, p: Seq<char>, r: Seq<char>, i: int) -> Seq<char>
    decreases s.len() - i,
{
    if p.len() == 0 || i < 0 || i >= s.len() {
        if 0 <= i <= s.len() {
            s.subrange(i, s.len() as int)
        } else {
            Seq::empty()
        }
    } else if i + p.len() <= s.len() && s.subrange(i, i + p.len()) == p {
        r + replace_from(s, p, r, i + p.len())
    } else {
        seq![s[i]] + replace_from(s, p, r, i + 1)
    }
}

/// The index of the first occurrence of a non-empty `p` in `s[i..]`.
pub open spec fn find_from(s: Seq<char>, p: Seq<char>, i: int) -> Option<int>
    decreases s.len() - i,
{
    if p.len() == 0 || i < 0 || i + p.len() > s.len() {
        None
    } else if s.subrange(i, i + p.len()) == p {
        Some(i)
    } else {
        find_from(s, p, i + 1)
    }
}

/// `r` before every character of `s` and at its end.
pub open spec fn interleave(s: Seq<char>, r: Seq<char>) -> Seq<char>
    decreases s.len(),
{
    if s.len() == 0 {
        r
    } else {
        r + seq![s[0]] + interleave(s.drop_first(), r)
    }
}

/// The number of occurrences of `p` in `s`.
pub open spec fn count_matches(s: Seq<char>, p: Seq<char>) -> nat {
    if p.len() == 0 {
        s.len() + 1
    } else {
        count_from(s, p, 0)
    }
}

/// `s` with every occurrence of `p` replaced by `r`.
pub open spec fn replace_all(s: Seq<char>, p: Seq<char>, r: Seq<char>) -> Seq<char> {
    if p.len() == 0 {
        interleave(s, r)
    } else {
        replace_from(s, p, r, 0)
    }
}

/// `s` with the first occurrence of `p` replaced by `r`.
pub open spec fn replace_first(s: Seq<char>, p: Seq<char>, r: Seq<char>) -> Seq<char> {
    if p.len() == 0 {
        r + s
    } else {
        match find_from(s, p, 0) {
            Some(k) => s.subrange(0, k) + r + s.subrange(k + p.len(), s.len() as int),
            None => s,
        }
    }
}

proof fn lemma_count_bound(s: Seq<char>, p: Seq<char>, i: int)
    requires
        0 <= i <= s.len(),
    ensures
        count_from(s, p, i) <= s.len() - i,
    decreases s.len() - i,
{
    if p.len() == 0 || i + p.len() > s.len() {
    } else if s.subrange(i, i + p.len()) == p {
        lemma_count_bound(s, p, i + p.len());
    } else {
        lemma_count_bound(s, p, i + 1);
    }
}

/// Whether `p` occurs in `s` at index `i`.
fn occurs_at_exec(s: &[char], p: &[char], i: usize) -> (b: bool)
    requires
        i <= s@.len(),
    ensures
        b == (i + p@.len() <= s@.len() && s@.subrange(i as int, i + p@.len()) == p@),
{
    if p.len() > s.len() - i {
        return false;
    }
    let n = s.len();
    let mut j: usize = 0;
    while j < p.len()
        invariant
            n == s@.len(),
            j <= p@.len(),
            i + p@.len() <= s@.len(),
            forall|k: int| 0 <= k < j ==> s@[i + k] == p@[k],
        decreases p@.len() - j,
    {
        if s[i + j] != p[j] {
            assert(s@.subrange(i as int, i + p@.len())[j as int] != p@[j as int]);
            return false;
        }
        j = j + 1;
    }
    assert(s@.subrange(i as int, i + p@.len()) =~= p@);
    true
}

/// The number of occurrences of `p` in `s`.
pub fn count_occurrences(s: &[char], p: &[char]) -> (n: usize)
    requires
        s@.len() < usize::MAX,
    ensures
        n == count_matches(s@, p@),
{
    if p.len() == 0 {
        return s.len() + 1;
    }
    let mut n: usize = 0;
    let mut i: usize = 0;
    proof {
        lemma_count_bound(s@, p@, 0);
    }
    while i < s.len()
        invariant
            i <= s@.len(),
            p@.len() > 0,
            count_from(s@, p@, 0) == n + count_from(s@, p@, i as int),
            n <= i,
        decreases s@.len() - i,
    {
        if occurs_at_exec(s, p, i) {
            n = n + 1;
            i = i + p.len();
        } else {
            if p.len() > s.len() - i {
                assert(count_from(s@, p@, i as int) == 0);
                assert(count_from(s@, p@, s@.len() as int) == 0);
                i = s.len();
            } else {
                i = i + 1;
            }
        }
    }
    n
}

/// `s` with every occurrence of `p` replaced by `r`.
pub fn replace_occurrences(s: &[char], p: &[char], r: &[char]) -> (out: Vec<char>)
    ensures
        out@ == replace_all(s@, p@, r@),
{
    let mut out: Vec<char> = Vec::new();
    let mut i: usize = 0;
    if p.len() == 0 {
        assert(s@.subrange(0, s@.len() as int) =~= s@);
        while i < s.len()
            invariant
                i <= s@.len(),
                p@.len() == 0,
                out@ + interleave(s@.subrange(i as int, s@.len() as int), r@) == interleave(s@, r@),
            decreases s@.len() - i,
        {
            let ghost rest = s@.subrange(i as int, s@.len() as int);
            let ghost before = out@;
            assert(rest.drop_first() =~= s@.subrange(i + 1, s@.len() as int));
            assert(rest[0] == s@[i as int]);
            push_all(&mut out, r);
            out.push(s[i]);
            assert(out@ + interleave(rest.drop_first(), r@) =~= before + interleave(rest, r@));
            i = i + 1;
        }
        assert(s@.subrange(i as int, s@.len() as int) =~= Seq::<char>::empty());
        push_all(&mut out, r);
        return out;
    }
    while i < s.len()
        invariant
            i <= s@.len(),
            p@.len() > 0,
            out@ + replace_from(s@, p@, r@, i as int) == replace_from(s@, p@, r@, 0),
        decreases s@.len() - i,
    {
        let ghost before = out@;
        if occurs_at_exec(s, p, i) {
            push_all(&mut out, r);
            assert(out@ + replace_from(s@, p@, r@, i + p@.len()) =~= before + replace_from(s@, p@, r@, i as int));
            i = i + p.len();
        } else {
            out.push(s[i]);
            assert(out@ + replace_from(s@, p@, r@, i + 1) =~= before + replace_from(s@, p@, r@, i as int));
            i = i + 1;
        }
    }
    assert(replace_from(s@, p@, r@, i as int) =~= Seq::<char>::empty());
    assert(out@ =~= out@ + replace_from(s@, p@, r@, i as int));
    out
}

/// `s` with the first occurrence of `p` replaced by `r`.
pub fn replace_first_occurrence(s: &[char], p: &[char], r: &[char]) -> (out: Vec<char>)
    ensures
        out@ == replace_first(s@, p@, r@),
{
    let mut out: Vec<char> = Vec::new();
    if p.len() == 0 {
        push_all(&mut out, r);
        push_all(&mut out, s);
        return out;
    }
    let mut i: usize = 0;
    while i < s.len() && !occurs_at_exec(s, p, i)
        invariant
            i <= s@.len(),
            p@.len() > 0,
            find_from(s@, p@, 0) == find_from(s@, p@, i as int),
        decreases s@.len() - i,
    {
        i = i + 1;
    }
    if i < s.len() {
        let head = slice_chars(s, 0, i);
        let tail = slice_chars(s, i + p.len(), s.len());
        push_all(&mut out, head.as_slice());
        push_all(&mut out, r);
        push_all(&mut out, tail.as_slice());
        out
    } else {
        assert(find_from(s@, p@, i as int) is None);
        push_all(&mut out, s);
        out
    }
}

/// Replacing from a position past a prefix `q` is replacing in the text
/// after the prefix.
proof fn lemma_replace_from_shift(q: Seq<char>, s: Seq<char>, p: Seq<char>, r: Seq<char>, j: int)
    requires
        p.len() > 0,
        0 <= j <= s.len(),
    ensures
        replace_from(q + s, p, r, q.len() + j) == replace_from(s, p, r, j),
    decreases s.len() - j,
{
    let t = q + s;
    let i = q.len() + j;
    if j >= s.len() {
        assert(t.subrange(i, t.len() as int) =~= Seq::<char>::empty());
        assert(s.subrange(j, s.len() as int) =~= Seq::<char>::empty());
    } else {
        assert(t[i] == s[j]);
        if j + p.len() <= s.len() {
            assert(t.subrange(i, i + p.len()) =~= s.subrange(j, j + p.len()));
        }
        if j + p.len() <= s.len() && s.subrange(j, j + p.len()) == p {
            lemma_replace_from_shift(q, s, p, r, j + p.len());
        } else {
            lemma_replace_from_shift(q, s, p, r, j + 1);
        }
    }
}

/// Replacing in nothing gives nothing.
pub proof fn law_replace_in_empty(p: Seq<char>, r: Seq<char>)
    requires
        p.len() > 0,
    ensures
        replace_all(Seq::<char>::empty(), p, r) == Seq::<char>::empty(),
{
}

/// A text that starts with the pattern: its replacement is `r`, then the
/// replacement of the rest, which loses and gains nothing else.
pub proof fn law_replace_leading_match(s: Seq<char>, p: Seq<char>, r: Seq<char>)
    requires
        p.len() > 0,
    ensures
        replace_all(p + s, p, r) == r + replace_all(s, p, r),
{
    let t = p + s;
    assert(t.subrange(0, p.len() as int) =~= p);
    lemma_replace_from_shift(p, s, p, r, 0);
}

/// A text whose first character does not start an occurrence of the
/// pattern: that character is kept, then the rest is replaced.
pub proof fn law_replace_keeps_leading_character(c: char, s: Seq<char>, p: Seq<char>, r: Seq<char>)
    requires
        p.len() > 0,
        !occurs_at(seq![c] + s, p, 0),
    ensures
        replace_all(seq![c] + s, p, r) == seq![c] + replace_all(s, p, r),
{
    let t = seq![c] + s;
    assert(t[0] == c);
    lemma_replace_from_shift(seq![c], s, p, r, 0);
}

/// The replaced text has the length of the text plus, for each occurrence,
/// the difference between the replacement and the pattern.
pub proof fn law_replace_length(s: Seq<char>, p: Seq<char>, r: Seq<char>)
    requires
        p.len() > 0,
    ensures
        replace_all(s, p, r).len() == s.len() + count_matches(s, p) * (r.len() - p.len()),
{
    lemma_replace_length_from(s, p, r, 0);
}

proof fn lemma_replace_length_from(s: Seq<char>, p: Seq<char>, r: Seq<char>, i: int)
    requires
        p.len() > 0,
        0 <= i <= s.len(),
    ensures
        replace_from(s, p, r, i).len() == (s.len() - i) + count_from(s, p, i) * (r.len() - p.len()),
    decreases s.len() - i,
{
    let d: int = r.len() - p.len();
    if i >= s.len() {
        assert(count_from(s, p, i) == 0);
        assert(replace_from(s, p, r, i) =~= Seq::<char>::empty());
    } else if i + p.len() <= s.len() && s.subrange(i, i + p.len()) == p {
        lemma_replace_length_from(s, p, r, i + p.len());
        let c: int = count_from(s, p, i + p.len()) as int;
        assert(count_from(s, p, i) == 1 + c);
        assert((1 + c) * d == d + c * d) by (nonlinear_arith);
        assert(replace_from(s, p, r, i).len() == r.len() + replace_from(s, p, r, i + p.len()).len());
    } else {
        lemma_replace_length_from(s, p, r, i + 1);
        if i + p.len() > s.len() {
            assert(count_from(s, p, i + 1) == 0);
            assert(count_from(s, p, i) == 0);
        } else {
            assert(count_from(s, p, i) == count_from(s, p, i + 1));
        }
        assert(replace_from(s, p, r, i).len() == 1 + replace_from(s, p, r, i + 1).len());
    }
}

proof fn lemma_count_from_shift(q: Seq<char>, s: Seq<char>, p: Seq<char>, j: int)
    requires
        p.len() > 0,
        0 <= j <= s.len(),
    ensures
        count_from(q + s, p, q.len() + j) == count_from(s, p, j),
    decreases s.len() - j,
{
    let t = q + s;
    let i = q.len() + j;
    if j + p.len() <= s.len() {
        assert(t.subrange(i, i + p.len()) =~= s.subrange(j, j + p.len()));
        if s.subrange(j, j + p.len()) == p {
            lemma_count_from_shift(q, s, p, j + p.len());
        } else {
            lemma_count_from_shift(q, s, p, j + 1);
        }
    }
}

/// A text that starts with the pattern has one occurrence more than the
/// rest of it.
pub proof fn law_count_leading_match(s: Seq<char>, p: Seq<char>)
    requires
        p.len() > 0,
    ensures
        count_matches(p + s, p) == 1 + count_matches(s, p),
{
    assert((p + s).subrange(0, p.len() as int) =~= p);
    lemma_count_from_shift(p, s, p, 0);
}

/// A first character that does not start an occurrence adds none.
pub proof fn law_count_skips_leading_character(c: char, s: Seq<char>, p: Seq<char>)
    requires
        p.len() > 0,
        !occurs_at(seq![c] + s, p, 0),
    ensures
        count_matches(seq![c] + s, p) == count_matches(s, p),
{
    lemma_count_from_shift(seq![c], s, p, 0);
}

} // verus!
