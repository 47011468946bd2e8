//! Unix path arithmetic on strings: components, joining, parents, file names
//! and component-wise prefixes, following `std::path` on Unix.
use vstd::prelude::*;

use crate::text::{char_seqs, chars_eq, chars_of, lemma_split_on_nonempty, push_all, split_chars_on, split_on, string_from_chars};

verus! {

/// The pieces of `s` between `/` separators (there is always at least one).
pub open spec fn split_segments(s: Seq<char>) -> Seq<Seq<char>> {
    split_on(s, '/')
}

pub proof fn lemma_split_nonempty(s: Seq<char>)
    ensures
        split_segments(s).len() >= 1,
{
    lemma_split_on_nonempty(s, '/');
}

/// Segments that do not name a component: empty ones and `.`.
pub open spec fn is_skipped(seg: Seq<char>) -> bool {
    seg.len() == 0 || seg == seq!['.']
}

/// The segments that name a component, in order.
pub open spec fn keep_named(segs: Seq<Seq<char>>) -> Seq<Seq<char>>
    decreases segs.len(),
{
    if segs.len() == 0 {
        Seq::empty()
    } else {
        let prev = keep_named(segs.drop_last());
        if is_skipped(segs.last()) {
            prev
        } else {
            prev.push(segs.last())
        }
    }
}

/// The root component, written as `/`.
pub open spec fn root_comp() -> Seq<char> {
    seq!['/']
}

/// The current-directory component, written as `.`.
pub open spec fn cur_comp() -> Seq<char> {
    seq!['.']
}

/// Whether `p` is absolute.
pub open spec fn is_absolute(p: Seq<char>) -> bool {
    p.len() > 0 && p[0] == '/'
}

/// The components of `p` as `Path::components` yields them: a leading root,
/// a leading `.` for a relative path that starts with one, then every named
/// segment; empty segments and other `.` segments are dropped.
pub open spec fn components(p: Seq<char>) -> Seq<Seq<char>> {
    let segs = split_segments(p);
    let head = if is_absolute(p) {
        seq![root_comp()]
    } else if segs[0] == cur_comp() {
        seq![cur_comp()]
    } else {
        Seq::empty()
    };
    head + keep_named(segs)
}

/// Components joined by `/`.
pub open spec fn join_with_sep(cs: Seq<Seq<char>>) -> Seq<char>
    decreases cs.len(),
{
    if cs.len() == 0 {
        Seq::empty()
    } else if cs.len() == 1 {
        cs[0]
    } else {
        join_with_sep(cs.drop_last()) + seq!['/'] + cs.last()
    }
}

/// The path that a component list spells.
pub open spec fn render(cs: Seq<Seq<char>>) -> Seq<char> {
    if cs.len() > 0 && cs[0] == root_comp() {
        seq!['/'] + join_with_sep(cs.drop_first())
    } else {
        join_with_sep(cs)
    }
}

/// `Path::starts_with`: the components of `base` are a prefix of those of `p`.
pub open spec fn path_starts_with(p: Seq<char>, base: Seq<char>) -> bool {
    let cp = components(p);
    let cb = components(base);
    cb.len() <= cp.len() && cp.subrange(0, cb.len() as int) == cb
}

/// `Path::join` (`PathBuf::push`): an absolute `p` replaces `base`; otherwise
/// a separator is put between them unless `base` is empty or already ends in one.
pub open spec fn path_join(base: Seq<char>, p: Seq<char>) -> Seq<char> {
    if is_absolute(p) {
        p
    } else if base.len() == 0 || base.last() == '/' {
        base + p
    } else {
        base + seq!['/'] + p
    }
}

/// `Path::parent`: every component but the last, unless the path is empty or
/// ends in the root.
pub open spec fn path_parent(p: Seq<char>) -> Option<Seq<char>> {
    let cs = components(p);
    if cs.len() == 0 || cs.last() == root_comp() {
        None
    } else {
        Some(render(cs.drop_last()))
    }
}

/// `Path::file_name`: the last component when it is a name (not the root,
/// `.` or `..`).
pub open spec fn path_file_name(p: Seq<char>) -> Option<Seq<char>> {
    let cs = components(p);
    if cs.len() == 0 || cs.last() == root_comp() || cs.last() == cur_comp() || cs.last() == seq![
        '.',
        '.',
    ] {
        None
    } else {
        Some(cs.last())
    }
}

fn split_chars(p: &[char]) -> (r: Vec<Vec<char>>)
    ensures
        char_seqs(r@) == split_segments(p@),
{
    split_chars_on(p, '/')
}

fn is_skipped_exec(seg: &[char]) -> (r: bool)
    ensures
        r == is_skipped(seg@),
{
    if seg.len() == 0 {
        true
    } else if seg.len() == 1 && seg[0] == '.' {
        assert(seg@ =~= seq!['.']);
        true
    } else {
        false
    }
}

fn one_char(c: char) -> (r: Vec<char>)
    ensures
        r@ == seq![c],
{
    let mut v: Vec<char> = Vec::new();
    v.push(c);
    assert(v@ =~= seq![c]);
    v
}

/// The components of a path.
pub fn path_components(p: &str) -> (r: Vec<Vec<char>>)
    ensures
        char_seqs(r@) == components(p@),
{
    let pc = chars_of(p);
    let segs = split_chars(pc.as_slice());
    proof {
        lemma_split_nonempty(p@);
    }
    let mut out: Vec<Vec<char>> = Vec::new();
    let absolute = pc.len() > 0 && pc[0] == '/';
    if absolute {
        out.push(one_char('/'));
    } else if segs[0].len() == 1 && segs[0][0] == '.' {
        assert(char_seqs(segs@)[0] == segs[0]@);
        assert(segs[0]@ =~= cur_comp());
        out.push(one_char('.'));
    } else {
        proof {
            assert(char_seqs(segs@)[0] == segs[0]@);
            if segs[0]@ == cur_comp() {
                assert(segs[0]@[0] == '.');
            }
        }
    }
    let ghost head = char_seqs(out@);
    assert(head == (if is_absolute(p@) {
        seq![root_comp()]
    } else if split_segments(p@)[0] == cur_comp() {
        seq![cur_comp()]
    } else {
        Seq::<Seq<char>>::empty()
    })) by {
        assert(char_seqs(segs@)[0] == segs[0]@);
    }
    let mut i: usize = 0;
    assert(char_seqs(segs@).subrange(0, 0) =~= Seq::<Seq<char>>::empty());
    assert(char_seqs(out@) =~= head + keep_named(char_seqs(segs@).subrange(0, 0)));
    while i < segs.len()
        invariant
            i <= segs@.len(),
            char_seqs(out@) == head + keep_named(char_seqs(segs@).subrange(0, i as int)),
        decreases segs@.len() - i,
    {
        let ghost before = char_seqs(segs@).subrange(0, i as int);
        let ghost after = char_seqs(segs@).subrange(0, i + 1);
        assert(after.drop_last() =~= before);
        assert(after.last() == segs[i as int]@);
        if !is_skipped_exec(segs[i].as_slice()) {
            let c = segs[i].clone();
            assert(c@ == segs[i as int]@);
            let ghost prev_out = out@;
            out.push(c);
            assert(char_seqs(out@) =~= char_seqs(prev_out).push(c@));
            assert(keep_named(after) == keep_named(before).push(segs[i as int]@));
            assert(char_seqs(out@) =~= head + keep_named(after));
        } else {
            assert(keep_named(after) == keep_named(before));
        }
        i = i + 1;
    }
    assert(char_seqs(segs@).subrange(0, segs@.len() as int) =~= char_seqs(segs@));
    out
}

fn join_sep_exec(cs: &[Vec<char>], start: usize) -> (r: Vec<char>)
    requires
        start <= cs@.len(),
    ensures
        r@ == join_with_sep(char_seqs(cs@).subrange(start as int, cs@.len() as int)),
{
    let mut out: Vec<char> = Vec::new();
    let mut i: usize = start;
    assert(char_seqs(cs@).subrange(start as int, start as int) =~= Seq::<Seq<char>>::empty());
    while i < cs.len()
        invariant
            start <= i <= cs@.len(),
            out@ == join_with_sep(char_seqs(cs@).subrange(start as int, i as int)),
        decreases cs@.len() - i,
    {
        let ghost before = char_seqs(cs@).subrange(start as int, i as int);
        let ghost after = char_seqs(cs@).subrange(start as int, i + 1);
        assert(after.drop_last() =~= before);
        assert(after.last() == cs[i as int]@);
        if i > start {
            out.push('/');
        } else {
            assert(after =~= seq![cs[i as int]@]);
        }
        push_all(&mut out, cs[i].as_slice());
        i = i + 1;
    }
    out
}

/// The path spelled by a component list.
pub fn render_components(cs: &[Vec<char>]) -> (r: Vec<char>)
    ensures
        r@ == render(char_seqs(cs@)),
{
    if cs.len() > 0 && cs[0].len() == 1 && cs[0][0] == '/' {
        assert(char_seqs(cs@)[0] =~= root_comp());
        let mut out: Vec<char> = Vec::new();
        out.push('/');
        let rest = join_sep_exec(cs, 1);
        push_all(&mut out, rest.as_slice());
        assert(char_seqs(cs@).subrange(1, cs@.len() as int) =~= char_seqs(cs@).drop_first());
        assert(out@ =~= seq!['/'] + join_with_sep(char_seqs(cs@).drop_first()));
        out
    } else {
        proof {
            if cs@.len() > 0 && char_seqs(cs@)[0] == root_comp() {
                assert(cs[0]@ == char_seqs(cs@)[0]);
                assert(cs[0]@.len() == 1);
            }
        }
        let r = join_sep_exec(cs, 0);
        assert(char_seqs(cs@).subrange(0, cs@.len() as int) =~= char_seqs(cs@));
        r
    }
}

fn comps_prefix(cp: &[Vec<char>], cb: &[Vec<char>]) -> (r: bool)
    ensures
        r == (cb@.len() <= cp@.len() && char_seqs(cp@).subrange(0, cb@.len() as int)
            == char_seqs(cb@)),
{
    if cb.len() > cp.len() {
        return false;
    }
    let mut i: usize = 0;
    while i < cb.len()
        invariant
            cb@.len() <= cp@.len(),
            i <= cb@.len(),
            forall|j: int| 0 <= j < i ==> char_seqs(cp@)[j] == char_seqs(cb@)[j],
        decreases cb@.len() - i,
    {
        if !chars_eq(cp[i].as_slice(), cb[i].as_slice()) {
            assert(char_seqs(cp@).subrange(0, cb@.len() as int)[i as int] != char_seqs(cb@)[i as int]);
            return false;
        }
        i = i + 1;
    }
    assert(char_seqs(cp@).subrange(0, cb@.len() as int) =~= char_seqs(cb@));
    true
}

/// Whether the components of `base` are a prefix of those of `p`.
pub fn starts_with(p: &str, base: &str) -> (r: bool)
    ensures
        r == path_starts_with(p@, base@),
{
    let cp = path_components(p);
    let cb = path_components(base);
    comps_prefix(cp.as_slice(), cb.as_slice())
}

/// `base` joined with `p`.
pub fn join(base: &str, p: &str) -> (r: String)
    ensures
        r@ == path_join(base@, p@),
{
    let bc = chars_of(base);
    let pc = chars_of(p);
    if pc.len() > 0 && pc[0] == '/' {
        return string_from_chars(pc.as_slice());
    }
    let mut out = bc;
    if out.len() > 0 && out[out.len() - 1] != '/' {
        out.push('/');
    }
    push_all(&mut out, pc.as_slice());
    string_from_chars(out.as_slice())
}

/// The parent of `p`, if it has one.
pub fn parent(p: &str) -> (r: Option<String>)
    ensures
        match r {
            Some(s) => path_parent(p@) == Some(s@),
            None => path_parent(p@) is None,
        },
{
    let cs = path_components(p);
    if cs.len() == 0 {
        return None;
    }
    let last = cs.len() - 1;
    assert(char_seqs(cs@).last() == cs[last as int]@);
    if cs[last].len() == 1 && cs[last][0] == '/' {
        assert(cs[last as int]@ =~= root_comp());
        return None;
    }
    proof {
        if char_seqs(cs@).last() == root_comp() {
            assert(cs[last as int]@[0] == '/');
        }
    }
    let mut rest = cs;
    rest.pop();
    let r = render_components(rest.as_slice());
    assert(char_seqs(rest@) =~= components(p@).drop_last());
    Some(string_from_chars(r.as_slice()))
}

/// The last component of `p`, when it is a name.
pub fn file_name(p: &str) -> (r: Option<String>)
    ensures
        match r {
            Some(s) => path_file_name(p@) == Some(s@),
            None => path_file_name(p@) is None,
        },
{
    let cs = path_components(p);
    if cs.len() == 0 {
        return None;
    }
    let last = cs.len() - 1;
    let l = &cs[last];
    assert(char_seqs(cs@).last() == l@);
    if (l.len() == 1 && (l[0] == '/' || l[0] == '.')) || (l.len() == 2 && l[0] == '.' && l[1]
        == '.') {
        proof {
            if l@.len() == 1 && l@[0] == '/' {
                assert(l@ =~= root_comp());
            } else if l@.len() == 1 {
                assert(l@ =~= cur_comp());
            } else {
                assert(l@ =~= seq!['.', '.']);
            }
        }
        return None;
    }
    proof {
        if l@ == root_comp() || l@ == cur_comp() {
            assert(l@.len() == 1);
        }
        if l@ == seq!['.', '.'] {
            assert(l@.len() == 2);
        }
    }
    Some(string_from_chars(l.as_slice()))
}

/// `Path::strip_prefix`: the components of `p` after those of `base`, when
/// `base` is a component prefix of `p`.
pub open spec fn path_strip_prefix(p: Seq<char>, base: Seq<char>) -> Option<Seq<char>> {
    if path_starts_with(p, base) {
        Some(render(components(p).subrange(components(base).len() as int, components(p).len() as int)))
    } else {
        None
    }
}

/// `p` relative to `base`, when `base` is a component prefix of `p`.
pub fn strip_prefix(p: &str, base: &str) -> (r: Option<String>)
    ensures
        match r {
            Some(s) => path_strip_prefix(p@, base@) == Some(s@),
            None => path_strip_prefix(p@, base@) is None,
        },
{
    let cp = path_components(p);
    let cb = path_components(base);
    if !comps_prefix(cp.as_slice(), cb.as_slice()) {
        return None;
    }
    let mut rest: Vec<Vec<char>> = Vec::new();
    let mut i: usize = cb.len();
    while i < cp.len()
        invariant
            cb@.len() <= i <= cp@.len(),
            char_seqs(rest@) == char_seqs(cp@).subrange(cb@.len() as int, i as int),
        decreases cp@.len() - i,
    {
        let ghost before = char_seqs(rest@);
        let c = crate::text::slice_chars(cp[i].as_slice(), 0, cp[i].len());
        assert(c@ =~= cp@[i as int]@);
        rest.push(c);
        assert(char_seqs(rest@) =~= before.push(cp@[i as int]@));
        assert(char_seqs(rest@) =~= char_seqs(cp@).subrange(cb@.len() as int, i + 1));
        i = i + 1;
    }
    let r = render_components(rest.as_slice());
    Some(string_from_chars(r.as_slice()))
}

/// Splitting text joined at a separator gives the pieces of both sides.
pub proof fn lemma_split_concat(a: Seq<char>, b: Seq<char>, sep: char)
    ensures
        split_on(a + seq![sep] + b, sep) == split_on(a, sep) + split_on(b, sep),
    decreases b.len(),
{
    let ab = a + seq![sep] + b;
    if b.len() == 0 {
        assert(ab =~= (a + seq![sep]));
        assert((a + seq![sep]).drop_last() =~= a);
        assert(split_on(ab, sep) =~= split_on(a, sep) + split_on(b, sep));
    } else {
        let b1 = b.drop_last();
        lemma_split_concat(a, b1, sep);
        crate::text::lemma_split_on_nonempty(b1, sep);
        assert(ab.drop_last() =~= a + seq![sep] + b1);
        assert(ab.last() == b.last());
        let prev = split_on(a + seq![sep] + b1, sep);
        if b.last() == sep {
            assert(split_on(ab, sep) =~= split_on(a, sep) + split_on(b, sep));
        } else {
            assert(prev.last() == split_on(b1, sep).last());
            assert(split_on(ab, sep) =~= split_on(a, sep) + split_on(b, sep));
        }
    }
}

/// No piece of a split holds the separator.
pub proof fn lemma_split_pieces(s: Seq<char>, sep: char)
    ensures
        forall|i: int, j: int| 0 <= i < split_on(s, sep).len() && 0 <= j < split_on(s, sep)[i].len() ==> split_on(
            s,
            sep,
        )[i][j] != sep,
    decreases s.len(),
{
    if s.len() > 0 {
        lemma_split_pieces(s.drop_last(), sep);
        crate::text::lemma_split_on_nonempty(s.drop_last(), sep);
        let prev = split_on(s.drop_last(), sep);
        if s.last() != sep {
            assert forall|i: int, j: int| 0 <= i < split_on(s, sep).len() && 0 <= j < split_on(s, sep)[i].len() implies split_on(
                s,
                sep,
            )[i][j] != sep by {
                if i == prev.len() - 1 && j == prev.last().len() {
                    assert(split_on(s, sep)[i][j] == s.last());
                } else if i == prev.len() - 1 {
                    assert(split_on(s, sep)[i][j] == prev[i][j]);
                }
            }
        }
    }
}

/// The named segments of two lists of segments, one after the other.
pub proof fn lemma_keep_named_concat(a: Seq<Seq<char>>, b: Seq<Seq<char>>)
    ensures
        keep_named(a + b) == keep_named(a) + keep_named(b),
    decreases b.len(),
{
    if b.len() == 0 {
        assert(a + b =~= a);
        assert(keep_named(a) + keep_named(b) =~= keep_named(a));
    } else {
        lemma_keep_named_concat(a, b.drop_last());
        assert((a + b).drop_last() =~= a + b.drop_last());
        assert((a + b).last() == b.last());
        assert(keep_named(a + b) =~= keep_named(a) + keep_named(b));
    }
}

/// Every named segment is some segment that is not skipped.
pub proof fn lemma_keep_named_members(segs: Seq<Seq<char>>)
    ensures
        forall|i: int| 0 <= i < keep_named(segs).len() ==> exists|j: int| 0 <= j < segs.len() && #[trigger] segs[j] == #[trigger] keep_named(segs)[i]
            && !is_skipped(segs[j]),
    decreases segs.len(),
{
    if segs.len() > 0 {
        lemma_keep_named_members(segs.drop_last());
        let prev = keep_named(segs.drop_last());
        assert forall|i: int| 0 <= i < keep_named(segs).len() implies exists|j: int| 0 <= j < segs.len() && #[trigger] segs[j] == #[trigger] keep_named(segs)[i]
            && !is_skipped(segs[j]) by {
            if i < prev.len() {
                let j = choose|j: int| 0 <= j < segs.drop_last().len() && segs.drop_last()[j] == prev[i] && !is_skipped(segs.drop_last()[j]);
                assert(segs[j] == segs.drop_last()[j]);
            } else {
                assert(segs[segs.len() - 1] == keep_named(segs)[i]);
            }
        }
    }
}

/// A file name: a component that names something, without a separator.
pub open spec fn is_plain_name(name: Seq<char>) -> bool {
    &&& name.len() > 0
    &&& name != cur_comp()
    &&& forall|j: int| 0 <= j < name.len() ==> name[j] != '/'
}

/// The file name of a path is a plain name.
pub proof fn lemma_file_name_plain(p: Seq<char>)
    requires
        path_file_name(p) is Some,
    ensures
        is_plain_name(path_file_name(p)->0),
{
    let segs = split_segments(p);
    let cs = components(p);
    let head = if is_absolute(p) {
        seq![root_comp()]
    } else if segs[0] == cur_comp() {
        seq![cur_comp()]
    } else {
        Seq::<Seq<char>>::empty()
    };
    let named = keep_named(segs);
    assert(cs == head + named);
    let name = cs.last();
    if named.len() == 0 {
        assert(cs =~= head);
        assert(false);
    }
    assert(name == named.last());
    lemma_keep_named_members(segs);
    lemma_split_pieces(p, '/');
    let j = choose|j: int| 0 <= j < segs.len() && segs[j] == named[named.len() - 1] && !is_skipped(segs[j]);
    assert forall|k: int| 0 <= k < name.len() implies name[k] != '/' by {
        assert(split_on(p, '/')[j][k] != '/');
    }
}

/// Joining a plain name to a path adds it as the last component.
proof fn lemma_keep_named_empty_segment()
    ensures
        keep_named(seq![Seq::<char>::empty()]) == Seq::<Seq<char>>::empty(),
{
    let segs = seq![Seq::<char>::empty()];
    assert(segs.drop_last() =~= Seq::<Seq<char>>::empty());
    assert(segs.last() == Seq::<char>::empty());
    assert(is_skipped(segs.last()));
    assert(keep_named(segs.drop_last()) == Seq::<Seq<char>>::empty());
}

pub proof fn lemma_join_name_components(base: Seq<char>, name: Seq<char>)
    requires
        is_plain_name(name),
    ensures
        components(path_join(base, name)) == components(base).push(name),
{
    let j = path_join(base, name);
    crate::text::lemma_split_on_nonempty(base, '/');
    assert(split_on(name, '/') =~= seq![name]) by {
        lemma_split_name(name);
    }
    assert(!is_skipped(name)) by {
        if name == seq!['.'] {
            assert(name == cur_comp());
        }
    }
    assert(keep_named(seq![name]) =~= seq![name]) by {
        assert(seq![name].drop_last() =~= Seq::<Seq<char>>::empty());
        assert(keep_named(Seq::<Seq<char>>::empty()) =~= Seq::<Seq<char>>::empty());
        assert(seq![name].last() == name);
    }
    assert(!is_absolute(name));
    if base.len() == 0 {
        assert(j == name);
        assert(split_on(base, '/') =~= seq![Seq::<char>::empty()]);
        assert(keep_named(split_on(base, '/')) =~= Seq::<Seq<char>>::empty()) by {
            lemma_keep_named_empty_segment();
        }
        assert(split_segments(base)[0] != cur_comp());
        assert(components(base) =~= Seq::<Seq<char>>::empty());
        assert(components(j) =~= seq![name]);
    } else if base.last() == '/' {
        let b1 = base.drop_last();
        assert(base =~= b1 + seq!['/'] + Seq::<char>::empty());
        assert(j =~= b1 + seq!['/'] + name);
        lemma_split_concat(b1, Seq::<char>::empty(), '/');
        lemma_split_concat(b1, name, '/');
        crate::text::lemma_split_on_nonempty(b1, '/');
        let sb = split_on(b1, '/');
        assert(split_on(Seq::<char>::empty(), '/') =~= seq![Seq::<char>::empty()]);
        lemma_keep_named_concat(sb, seq![Seq::<char>::empty()]);
        lemma_keep_named_concat(sb, seq![name]);
        assert(keep_named(seq![Seq::<char>::empty()]) =~= Seq::<Seq<char>>::empty()) by {
            lemma_keep_named_empty_segment();
        }
        assert(split_segments(j)[0] == sb[0]);
        assert(split_segments(base)[0] == sb[0]);
        assert(is_absolute(j) == is_absolute(base));
        assert(components(j) =~= components(base).push(name));
    } else {
        assert(j =~= base + seq!['/'] + name);
        lemma_split_concat(base, name, '/');
        let sb = split_on(base, '/');
        lemma_keep_named_concat(sb, seq![name]);
        assert(split_segments(j)[0] == sb[0]);
        assert(is_absolute(j) == is_absolute(base));
        assert(components(j) =~= components(base).push(name));
    }
}

proof fn lemma_split_name(name: Seq<char>)
    requires
        forall|j: int| 0 <= j < name.len() ==> name[j] != '/',
    ensures
        split_on(name, '/') == seq![name],
    decreases name.len(),
{
    if name.len() > 0 {
        lemma_split_name(name.drop_last());
        assert(name.drop_last().push(name.last()) =~= name);
        assert(name.last() != '/');
        assert(split_on(name.drop_last(), '/') == seq![name.drop_last()]);
        assert(split_on(name, '/') =~= seq![name]);
    } else {
        assert(name =~= Seq::<char>::empty());
        assert(split_on(name, '/') =~= seq![name]);
    }
}

/// A component-wise prefix of `base` stays one after a plain name is joined.
pub proof fn lemma_join_keeps_prefix(base: Seq<char>, name: Seq<char>, root: Seq<char>)
    requires
        is_plain_name(name),
        path_starts_with(base, root),
    ensures
        path_starts_with(path_join(base, name), root),
{
    lemma_join_name_components(base, name);
    let cr = components(root);
    assert(components(path_join(base, name)).subrange(0, cr.len() as int) =~= components(base).subrange(0, cr.len() as int));
}

} // verus!
