//! Character-level helpers shared by the rest of the library: conversions
//! between strings and character vectors, comparison, trimming, splitting
//! and decimal formatting, each with its specification over `Seq<char>`.
use vstd::prelude::*;

verus! {

/// The character sequences of a list of character vectors.
pub open spec fn char_seqs(v: Seq<Vec<char>>) -> Seq<Seq<char>> {
    v.map_values(|x: Vec<char>| x@)
}

/// The character sequences of a list of strings.
pub open spec fn string_views(v: Seq<String>) -> Seq<Seq<char>> {
    v.map_values(|x: String| x@)
}

/// The characters of `s`, in order.
pub fn chars_of(s: &str) -> (v: Vec<char>)
    ensures
        v@ == s@,
{
    let mut v: Vec<char> = Vec::new();
    for c in it: s.chars()
        invariant
            v@ == it.seq().take(it.index() as int),
    {
        v.push(c);
    }
    v
}

/// Builds a `String` whose characters are those of `v`
/// (`String: FromIterator<&char>`; the string holds exactly the given characters).
#[verifier::external_body]
pub(crate) fn string_from_chars(v: &[char]) -> (s: String)
    ensures
        s@ == v@,
{
    v.iter().collect::<String>()
}

/// A `String` holding the characters of `s`.
pub fn to_owned_string(s: &str) -> (r: String)
    ensures
        r@ == s@,
{
    s.to_owned()
}

/// Whether two character sequences are equal.
pub fn chars_eq(a: &[char], b: &[char]) -> (r: bool)
    ensures
        r == (a@ == b@),
{
    if a.len() != b.len() {
        return false;
    }
    let mut i: usize = 0;
    while i < a.len()
        invariant
            a@.len() == b@.len(),
            i <= a@.len(),
            forall|j: int| 0 <= j < i ==> a@[j] == b@[j],
        decreases a@.len() - i,
    {
        if a[i] != b[i] {
            return false;
        }
        i = i + 1;
    }
    assert(a@ =~= b@);
    true
}

/// Whether two strings hold the same characters.
pub fn str_eq(a: &str, b: &str) -> (r: bool)
    ensures
        r == (a@ == b@),
{
    let va = chars_of(a);
    let vb = chars_of(b);
    chars_eq(va.as_slice(), vb.as_slice())
}

/// Whether `prefix` is a prefix of `s`.
pub open spec fn is_prefix(prefix: Seq<char>, s: Seq<char>) -> bool {
    prefix.len() <= s.len() && s.subrange(0, prefix.len() as int) == prefix
}

/// Whether `s` starts with `prefix`.
pub fn chars_start_with(s: &[char], prefix: &[char]) -> (r: bool)
    ensures
        r == is_prefix(prefix@, s@),
{
    if prefix.len() > s.len() {
        return false;
    }
    let mut i: usize = 0;
    while i < prefix.len()
        invariant
            prefix@.len() <= s@.len(),
            i <= prefix@.len(),
            forall|j: int| 0 <= j < i ==> s@[j] == prefix@[j],
        decreases prefix@.len() - i,
    {
        if s[i] != prefix[i] {
            assert(s@.subrange(0, prefix@.len() as int)[i as int] != prefix@[i as int]);
            return false;
        }
        i = i + 1;
    }
    assert(s@.subrange(0, prefix@.len() as int) =~= prefix@);
    true
}

/// The characters of `s` from index `start` (inclusive) to `end` (exclusive).
pub fn slice_chars(s: &[char], start: usize, end: usize) -> (r: Vec<char>)
    requires
        start <= end <= s@.len(),
    ensures
        r@ == s@.subrange(start as int, end as int),
{
    let mut r: Vec<char> = Vec::new();
    let mut i: usize = start;
    while i < end
        invariant
            start <= i <= end <= s@.len(),
            r@ == s@.subrange(start as int, i as int),
        decreases end - i,
    {
        r.push(s[i]);
        i = i + 1;
        assert(r@ =~= s@.subrange(start as int, i as int));
    }
    r
}

/// Appends the characters of `b` to `a`.
pub fn push_all(a: &mut Vec<char>, b: &[char])
    ensures
        final(a)@ == old(a)@ + b@,
{
    let ghost a0 = a@;
    let mut i: usize = 0;
    while i < b.len()
        invariant
            i <= b@.len(),
            a@ == a0 + b@.subrange(0, i as int),
        decreases b@.len() - i,
    {
        a.push(b[i]);
        i = i + 1;
        assert(a@ =~= a0 + b@.subrange(0, i as int));
    }
    assert(b@.subrange(0, b@.len() as int) =~= b@);
}

/// Appends the characters of `s` to `a`.
pub fn push_str(a: &mut Vec<char>, s: &str)
    ensures
        final(a)@ == old(a)@ + s@,
{
    let v = chars_of(s);
    push_all(a, v.as_slice());
}

/// The character sequence of a `String` followed by that of a `&str`.
pub fn concat_str(a: &str, b: &str) -> (r: String)
    ensures
        r@ == a@ + b@,
{
    let mut v = chars_of(a);
    push_str(&mut v, b);
    string_from_chars(v.as_slice())
}

// ---------------------------------------------------------------------------
// Splitting
// ---------------------------------------------------------------------------

/// The pieces of `s` between occurrences of `sep` (`str::split`); there is
/// always at least one piece.
pub open spec fn split_on(s: Seq<char>, sep: char) -> Seq<Seq<char>>
    decreases s.len(),
{
    if s.len() == 0 {
        seq![Seq::<char>::empty()]
    } else {
        let prev = split_on(s.drop_last(), sep);
        if s.last() == sep {
            prev.push(Seq::<char>::empty())
        } else {
            prev.update(prev.len() - 1, prev.last().push(s.last()))
        }
    }
}

pub proof fn lemma_split_on_nonempty(s: Seq<char>, sep: char)
    ensures
        split_on(s, sep).len() >= 1,
    decreases s.len(),
{
    if s.len() > 0 {
        lemma_split_on_nonempty(s.drop_last(), sep);
    }
}

/// The pieces of `p` between occurrences of `sep`.
pub fn split_chars_on(p: &[char], sep: char) -> (r: Vec<Vec<char>>)
    ensures
        char_seqs(r@) == split_on(p@, sep),
{
    let mut done: Vec<Vec<char>> = Vec::new();
    let mut cur: Vec<char> = Vec::new();
    let mut i: usize = 0;
    assert(p@.subrange(0, 0) =~= Seq::<char>::empty());
    assert(char_seqs(done@).push(cur@) =~= seq![Seq::<char>::empty()]);
    while i < p.len()
        invariant
            i <= p@.len(),
            char_seqs(done@).push(cur@) == split_on(p@.subrange(0, i as int), sep),
        decreases p@.len() - i,
    {
        let ghost before = p@.subrange(0, i as int);
        let ghost after = p@.subrange(0, i + 1);
        assert(after.drop_last() =~= before);
        assert(after.last() == p@[i as int]);
        proof {
            lemma_split_on_nonempty(before, sep);
        }
        if p[i] == sep {
            let c = cur;
            done.push(c);
            cur = Vec::new();
            assert(char_seqs(done@).push(cur@) =~= split_on(before, sep).push(Seq::empty()));
        } else {
            cur.push(p[i]);
            assert(char_seqs(done@).push(cur@) =~= split_on(before, sep).update(
                split_on(before, sep).len() - 1,
                split_on(before, sep).last().push(p@[i as int]),
            ));
        }
        i = i + 1;
    }
    done.push(cur);
    assert(p@.subrange(0, p@.len() as int) =~= p@);
    done
}

/// `s` without one trailing carriage return.
pub open spec fn strip_cr(s: Seq<char>) -> Seq<char> {
    if s.len() > 0 && s.last() == '\r' {
        s.drop_last()
    } else {
        s
    }
}

/// `str::lines`: the pieces between newlines; a piece that ends in a newline
/// loses a carriage return before it; a final newline adds no empty line.
pub open spec fn str_lines(s: Seq<char>) -> Seq<Seq<char>> {
    let ps = split_on(s, '\n');
    let done = ps.drop_last().map_values(|p: Seq<char>| strip_cr(p));
    if ps.last().len() == 0 {
        done
    } else {
        done.push(ps.last())
    }
}

/// The lines of `s`.
pub fn lines_of(s: &[char]) -> (r: Vec<Vec<char>>)
    ensures
        char_seqs(r@) == str_lines(s@),
{
    let pieces = split_chars_on(s, '\n');
    proof {
        lemma_split_on_nonempty(s@, '\n');
    }
    let ghost ps = split_on(s@, '\n');
    let n = pieces.len();
    let mut out: Vec<Vec<char>> = Vec::new();
    let mut i: usize = 0;
    while i + 1 < n
        invariant
            n == pieces@.len(),
            n >= 1,
            char_seqs(pieces@) == ps,
            i + 1 <= n,
            char_seqs(out@) == ps.drop_last().map_values(|p: Seq<char>| strip_cr(p)).subrange(0, i as int),
        decreases n - i,
    {
        let p = &pieces[i];
        let ghost before = out@;
        let q = if p.len() > 0 && p[p.len() - 1] == '\r' {
            slice_chars(p.as_slice(), 0, p.len() - 1)
        } else {
            slice_chars(p.as_slice(), 0, p.len())
        };
        assert(q@ =~= strip_cr(ps[i as int]));
        let ghost qv = q@;
        out.push(q);
        assert(char_seqs(out@) =~= char_seqs(before).push(qv));
        assert(ps.drop_last().map_values(|p: Seq<char>| strip_cr(p))[i as int] == strip_cr(ps[i as int]));
        assert(char_seqs(out@) =~= ps.drop_last().map_values(|p: Seq<char>| strip_cr(p)).subrange(0, i + 1));
        i = i + 1;
    }
    assert(ps.drop_last().map_values(|p: Seq<char>| strip_cr(p)).subrange(0, (n - 1) as int) =~= ps.drop_last().map_values(|p: Seq<char>| strip_cr(p)));
    let last = &pieces[n - 1];
    assert(ps.last() == last@);
    if last.len() > 0 {
        let ghost before = out@;
        let c = last.clone();
        out.push(c);
        assert(char_seqs(out@) =~= char_seqs(before).push(last@));
    }
    out
}

/// The pieces of `cs` with `sep` between consecutive ones (`[T]::join`).
pub open spec fn join_on(cs: Seq<Seq<char>>, sep: Seq<char>) -> Seq<char>
    decreases cs.len(),
{
    if cs.len() == 0 {
        Seq::empty()
    } else if cs.len() == 1 {
        cs[0]
    } else {
        join_on(cs.drop_last(), sep) + sep + cs.last()
    }
}

/// The pieces of `cs[start..end]` with `sep` between consecutive ones.
pub fn join_chars(cs: &[Vec<char>], start: usize, end: usize, sep: &[char]) -> (r: Vec<char>)
    requires
        start <= end <= cs@.len(),
    ensures
        r@ == join_on(char_seqs(cs@).subrange(start as int, end as int), sep@),
{
    let mut out: Vec<char> = Vec::new();
    let mut i: usize = start;
    assert(char_seqs(cs@).subrange(start as int, start as int) =~= Seq::<Seq<char>>::empty());
    while i < end
        invariant
            start <= i <= end <= cs@.len(),
            out@ == join_on(char_seqs(cs@).subrange(start as int, i as int), sep@),
        decreases end - i,
    {
        let ghost before = char_seqs(cs@).subrange(start as int, i as int);
        let ghost after = char_seqs(cs@).subrange(start as int, i + 1);
        assert(after.drop_last() =~= before);
        assert(after.last() == cs@[i as int]@);
        if i > start {
            push_all(&mut out, sep);
        } else {
            assert(after =~= seq![cs@[i as int]@]);
        }
        push_all(&mut out, cs[i].as_slice());
        i = i + 1;
    }
    out
}

// ---------------------------------------------------------------------------
// Whitespace and trimming
// ---------------------------------------------------------------------------

/// Unicode `White_Space`, the property that `char::is_whitespace` tests.
pub open spec fn spec_is_whitespace(c: char) -> bool {
    let u = c as u32;
    ||| 0x09 <= u <= 0x0D
    ||| u == 0x20
    ||| u == 0x85
    ||| u == 0xA0
    ||| u == 0x1680
    ||| 0x2000 <= u <= 0x200A
    ||| u == 0x2028
    ||| u == 0x2029
    ||| u == 0x202F
    ||| u == 0x205F
    ||| u == 0x3000
}

/// Whether `c` is a whitespace character.
pub fn is_whitespace(c: char) -> (r: bool)
    ensures
        r == spec_is_whitespace(c),
{
    let u = c as u32;
    (0x09 <= u && u <= 0x0D) || u == 0x20 || u == 0x85 || u == 0xA0 || u == 0x1680 || (0x2000
        <= u && u <= 0x200A) || u == 0x2028 || u == 0x2029 || u == 0x202F || u == 0x205F || u
        == 0x3000
}

/// Index of the first non-whitespace character of `s` (or `s.len()`).
pub open spec fn first_non_ws(s: Seq<char>) -> int
    decreases s.len(),
{
    if s.len() == 0 {
        0
    } else if spec_is_whitespace(s[0]) {
        1 + first_non_ws(s.drop_first())
    } else {
        0
    }
}

/// One past the index of the last non-whitespace character of `s` (or 0).
pub open spec fn last_non_ws_end(s: Seq<char>) -> int
    decreases s.len(),
{
    if s.len() == 0 {
        0
    } else if spec_is_whitespace(s.last()) {
        last_non_ws_end(s.drop_last())
    } else {
        s.len() as int
    }
}

/// `s` with leading whitespace removed (`str::trim_start`).
pub open spec fn trim_start(s: Seq<char>) -> Seq<char> {
    s.subrange(first_non_ws(s), s.len() as int)
}

/// `s` with trailing whitespace removed (`str::trim_end`).
pub open spec fn trim_end(s: Seq<char>) -> Seq<char> {
    s.subrange(0, last_non_ws_end(s))
}

/// `s` with leading and trailing whitespace removed (`str::trim`).
pub open spec fn trim(s: Seq<char>) -> Seq<char> {
    trim_end(trim_start(s))
}

pub proof fn lemma_first_non_ws(s: Seq<char>)
    ensures
        0 <= first_non_ws(s) <= s.len(),
        forall|j: int| 0 <= j < first_non_ws(s) ==> spec_is_whitespace(#[trigger] s[j]),
        first_non_ws(s) < s.len() ==> !spec_is_whitespace(s[first_non_ws(s)]),
    decreases s.len(),
{
    if s.len() > 0 && spec_is_whitespace(s[0]) {
        lemma_first_non_ws(s.drop_first());
        assert forall|j: int| 0 <= j < first_non_ws(s) implies spec_is_whitespace(#[trigger] s[j]) by {
            if j > 0 {
                assert(s[j] == s.drop_first()[j - 1]);
            }
        }
    }
}

pub proof fn lemma_last_non_ws_end(s: Seq<char>)
    ensures
        0 <= last_non_ws_end(s) <= s.len(),
        forall|j: int| last_non_ws_end(s) <= j < s.len() ==> spec_is_whitespace(#[trigger] s[j]),
        last_non_ws_end(s) > 0 ==> !spec_is_whitespace(s[last_non_ws_end(s) - 1]),
    decreases s.len(),
{
    if s.len() > 0 && spec_is_whitespace(s.last()) {
        lemma_last_non_ws_end(s.drop_last());
        assert forall|j: int| last_non_ws_end(s) <= j < s.len() implies spec_is_whitespace(
            #[trigger] s[j],
        ) by {
            if j < s.len() - 1 {
                assert(s[j] == s.drop_last()[j]);
            }
        }
    }
}

/// Index of the first non-whitespace character at or after `from`.
fn skip_ws_from(s: &[char], from: usize) -> (r: usize)
    requires
        from <= s@.len(),
    ensures
        r as int == from + first_non_ws(s@.subrange(from as int, s@.len() as int)),
{
    let mut i = from;
    while i < s.len() && is_whitespace(s[i])
        invariant
            from <= i <= s@.len(),
            first_non_ws(s@.subrange(from as int, s@.len() as int)) == (i - from) + first_non_ws(
                s@.subrange(i as int, s@.len() as int),
            ),
        decreases s@.len() - i,
    {
        assert(s@.subrange(i as int, s@.len() as int).drop_first() =~= s@.subrange(
            i + 1,
            s@.len() as int,
        ));
        i = i + 1;
    }
    i
}

/// `s` with leading and trailing whitespace removed.
pub fn trim_chars(s: &[char]) -> (r: Vec<char>)
    ensures
        r@ == trim(s@),
{
    let start = skip_ws_from(s, 0);
    assert(s@.subrange(0, s@.len() as int) =~= s@);
    proof {
        lemma_first_non_ws(s@);
    }
    let ghost t = trim_start(s@);
    let mut end = s.len();
    while end > start && is_whitespace(s[end - 1])
        invariant
            start <= end <= s@.len(),
            t == s@.subrange(start as int, s@.len() as int),
            last_non_ws_end(t) == last_non_ws_end(s@.subrange(start as int, end as int)),
        decreases end,
    {
        assert(s@.subrange(start as int, end as int).drop_last() =~= s@.subrange(
            start as int,
            end - 1,
        ));
        end = end - 1;
    }
    proof {
        let u = s@.subrange(start as int, end as int);
        if end > start {
            assert(u.last() == s@[end - 1]);
        }
        assert(last_non_ws_end(u) == u.len());
    }
    let r = slice_chars(s, start, end);
    assert(r@ =~= trim(s@));
    r
}

/// `s` with leading and trailing whitespace removed.
pub fn trim_str(s: &str) -> (r: Vec<char>)
    ensures
        r@ == trim(s@),
{
    let v = chars_of(s);
    trim_chars(v.as_slice())
}

// ---------------------------------------------------------------------------
// Decimal formatting
// ---------------------------------------------------------------------------

/// The decimal digit for `d < 10`.
pub open spec fn digit_char(d: nat) -> char {
    if d == 0 {
        '0'
    } else if d == 1 {
        '1'
    } else if d == 2 {
        '2'
    } else if d == 3 {
        '3'
    } else if d == 4 {
        '4'
    } else if d == 5 {
        '5'
    } else if d == 6 {
        '6'
    } else if d == 7 {
        '7'
    } else if d == 8 {
        '8'
    } else {
        '9'
    }
}

/// The decimal representation of `n`, as `Display` for unsigned integers writes it.
pub open spec fn decimal(n: nat) -> Seq<char>
    decreases n,
{
    if n < 10 {
        seq![digit_char(n)]
    } else {
        decimal(n / 10).push(digit_char(n % 10))
    }
}

/// The decimal representation of a signed integer, with a leading `-` when negative.
pub open spec fn signed_decimal(n: int) -> Seq<char> {
    if n < 0 {
        seq!['-'] + decimal((-n) as nat)
    } else {
        decimal(n as nat)
    }
}

fn digit(d: u64) -> (c: char)
    requires
        d < 10,
    ensures
        c == digit_char(d as nat),
{
    if d == 0 {
        '0'
    } else if d == 1 {
        '1'
    } else if d == 2 {
        '2'
    } else if d == 3 {
        '3'
    } else if d == 4 {
        '4'
    } else if d == 5 {
        '5'
    } else if d == 6 {
        '6'
    } else if d == 7 {
        '7'
    } else if d == 8 {
        '8'
    } else {
        '9'
    }
}

/// The decimal representation of `n`.
pub fn u64_decimal(n: u64) -> (r: Vec<char>)
    ensures
        r@ == decimal(n as nat),
    decreases n,
{
    if n < 10 {
        let mut r: Vec<char> = Vec::new();
        r.push(digit(n));
        assert(r@ =~= seq![digit_char(n as nat)]);
        r
    } else {
        let mut r = u64_decimal(n / 10);
        r.push(digit(n % 10));
        r
    }
}

/// The decimal representation of `n`, with a leading `-` when negative.
/// The decimal digits of `n`.
pub fn u128_decimal(n: u128) -> (r: Vec<char>)
    ensures
        r@ == decimal(n as nat),
    decreases n,
{
    if n < 10 {
        let mut r: Vec<char> = Vec::new();
        r.push(digit(n as u64));
        assert(r@ =~= seq![digit_char(n as nat)]);
        r
    } else {
        let mut r = u128_decimal(n / 10);
        r.push(digit((n % 10) as u64));
        r
    }
}

pub fn i64_decimal(n: i64) -> (r: Vec<char>)
    ensures
        r@ == signed_decimal(n as int),
{
    if n < 0 {
        let m: u64 = if n == i64::MIN {
            9223372036854775808u64
        } else {
            (-n) as u64
        };
        let mut r: Vec<char> = Vec::new();
        r.push('-');
        let d = u64_decimal(m);
        push_all(&mut r, d.as_slice());
        assert(r@ =~= seq!['-'] + decimal(m as nat));
        r
    } else {
        u64_decimal(n as u64)
    }
}

} // verus!
