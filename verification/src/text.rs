//! Character-level text operations used to build and inspect the strings that
//! travel between this service and Kratos: URLs, cookies and redirect targets.
use vstd::prelude::*;

verus! {

/// `pat` occurs in `s` at index `i`.
pub open spec fn occurs_at(s: Seq<char>, pat: Seq<char>, i: int) -> bool {
    &&& 0 <= i
    &&& i + pat.len() <= s.len()
    &&& s.subrange(i, i + pat.len()) == pat
}

/// `pat` occurs somewhere in `s`.
pub open spec fn seq_contains(s: Seq<char>, pat: Seq<char>) -> bool {
    exists|i: int| occurs_at(s, pat, i)
}

/// `s` begins with `pat`.
pub open spec fn seq_starts_with(s: Seq<char>, pat: Seq<char>) -> bool {
    occurs_at(s, pat, 0)
}

/// Replaces every occurrence of the non-empty pattern `from` in `s` by `to`,
/// scanning from the left and never letting two replaced occurrences overlap.
pub open spec fn replace_all(s: Seq<char>, from: Seq<char>, to: Seq<char>) -> Seq<char>
    decreases s.len(),
{
    if from.len() == 0 || s.len() < from.len() {
        s
    } else if s.take(from.len() as int) == from {
        to + replace_all(s.skip(from.len() as int), from, to)
    } else {
        seq![s[0]] + replace_all(s.skip(1), from, to)
    }
}

/// The parts joined with `sep` between each neighbouring pair.
pub open spec fn join_seqs(parts: Seq<Seq<char>>, sep: Seq<char>) -> Seq<char>
    decreases parts.len(),
{
    if parts.len() == 0 {
        Seq::empty()
    } else if parts.len() == 1 {
        parts[0]
    } else {
        join_seqs(parts.drop_last(), sep) + sep + parts.last()
    }
}

/// No character of `to` appears in `from`.
pub open spec fn disjoint_chars(from: Seq<char>, to: Seq<char>) -> bool {
    forall|k: int| 0 <= k < to.len() ==> !from.contains(#[trigger] to[k])
}

/// The characters of `s`, in order.
pub fn to_chars(s: &str) -> (v: Vec<char>)
    ensures
        v@ == s@,
{
    let mut v: Vec<char> = Vec::new();
    for c in it: s.chars()
        invariant
            v@ == it.seq().take(it.index() as int),
            it.seq() == s@,
    {
        v.push(c);
    }
    v
}

/// `pat` occurs in `s` at index `i`.
pub fn occurs_at_exec(s: &Vec<char>, pat: &Vec<char>, i: usize) -> (b: bool)
    requires
        i <= s.len(),
    ensures
        b == occurs_at(s@, pat@, i as int),
{
    if pat.len() > s.len() - i {
        return false;
    }
    let mut k: usize = 0;
    while k < pat.len()
        invariant
            k <= pat.len(),
            i + pat.len() <= s.len(),
            forall|q: int| 0 <= q < k ==> s@[i + q] == pat@[q],
        decreases pat.len() - k,
    {
        if s[i + k] != pat[k] {
            assert(s@.subrange(i as int, i + pat.len())[k as int] != pat@[k as int]);
            return false;
        }
        k = k + 1;
    }
    assert(s@.subrange(i as int, i + pat.len()) =~= pat@);
    true
}

/// `pat` occurs in `s`.
pub fn contains_str(s: &str, pat: &str) -> (b: bool)
    ensures
        b == seq_contains(s@, pat@),
{
    let cs = to_chars(s);
    let ps = to_chars(pat);
    let mut i: usize = 0;
    loop
        invariant
            cs@ == s@,
            ps@ == pat@,
            i <= cs.len(),
            forall|j: int| 0 <= j < i ==> !occurs_at(s@, pat@, j),
        decreases cs.len() - i,
    {
        if occurs_at_exec(&cs, &ps, i) {
            return true;
        }
        if i == cs.len() {
            assert forall|j: int| !occurs_at(s@, pat@, j) by {
                if 0 <= j && j + pat@.len() <= s@.len() && j != i {
                    assert(j < i);
                }
            }
            return false;
        }
        i = i + 1;
    }
}

/// `s` begins with `pat`.
pub fn starts_with_str(s: &str, pat: &str) -> (b: bool)
    ensures
        b == seq_starts_with(s@, pat@),
{
    let cs = to_chars(s);
    let ps = to_chars(pat);
    occurs_at_exec(&cs, &ps, 0)
}

/// `a` and `b` hold the same characters.
pub fn str_eq(a: &str, b: &str) -> (r: bool)
    ensures
        r == (a@ == b@),
{
    let x = String::from_str(a);
    let y = String::from_str(b);
    x == y
}

/// A fresh `String` holding the characters of `s`.
pub fn owned(s: &str) -> (r: String)
    ensures
        r@ == s@,
{
    String::from_str(s)
}

proof fn lemma_replace_step_match(s: Seq<char>, from: Seq<char>, to: Seq<char>, i: int)
    requires
        from.len() > 0,
        0 <= i,
        i + from.len() <= s.len(),
        s.subrange(i, i + from.len()) == from,
    ensures
        replace_all(s.skip(i), from, to) == to + replace_all(s.skip(i + from.len()), from, to),
{
    assert(s.skip(i).take(from.len() as int) =~= s.subrange(i, i + from.len()));
    assert(s.skip(i).skip(from.len() as int) =~= s.skip(i + from.len()));
}

proof fn lemma_replace_step_skip(s: Seq<char>, from: Seq<char>, to: Seq<char>, i: int)
    requires
        from.len() > 0,
        0 <= i,
        i + from.len() <= s.len(),
        s.subrange(i, i + from.len()) != from,
    ensures
        replace_all(s.skip(i), from, to) == seq![s[i]] + replace_all(s.skip(i + 1), from, to),
{
    assert(s.skip(i).take(from.len() as int) =~= s.subrange(i, i + from.len()));
    assert(s.skip(i).skip(1) =~= s.skip(i + 1));
}

/// `s` with every occurrence of the non-empty `from` replaced by `to`,
/// leftmost occurrences first and without overlaps.
pub fn replace_all_str(s: &str, from: &str, to: &str) -> (r: String)
    requires
        from@.len() > 0,
    ensures
        r@ == replace_all(s@, from@, to@),
{
    let cs = to_chars(s);
    let ps = to_chars(from);
    let n = cs.len();
    let m = ps.len();
    let mut out = String::new();
    let mut last: usize = 0;
    let mut i: usize = 0;
    assert(s@.skip(0) =~= s@);
    assert(s@.subrange(0, 0) =~= Seq::<char>::empty());
    while m <= n - i
        invariant
            cs@ == s@,
            ps@ == from@,
            n == s@.len(),
            m == from@.len(),
            m > 0,
            last <= i <= n,
            replace_all(s@, from@, to@) == out@ + s@.subrange(last as int, i as int)
                + replace_all(s@.skip(i as int), from@, to@),
        decreases n - i,
    {
        if occurs_at_exec(&cs, &ps, i) {
            proof {
                lemma_replace_step_match(s@, from@, to@, i as int);
            }
            let piece = s.substring_char(last, i);
            out.append(piece);
            out.append(to);
            i = i + m;
            last = i;
            assert(s@.subrange(last as int, i as int) =~= Seq::<char>::empty());
        } else {
            proof {
                lemma_replace_step_skip(s@, from@, to@, i as int);
                assert(s@.subrange(last as int, i as int) + seq![s@[i as int]] =~= s@.subrange(
                    last as int,
                    i + 1,
                ));
            }
            i = i + 1;
        }
    }
    let tail = s.substring_char(last, n);
    out.append(tail);
    assert(s@.subrange(last as int, i as int) + s@.skip(i as int) =~= s@.subrange(
        last as int,
        n as int,
    ));
    out
}

proof fn lemma_replace_prefix_untouched(s: Seq<char>, from: Seq<char>, to: Seq<char>, j: int)
    requires
        from.len() > 0,
        to.len() > 0,
        disjoint_chars(from, to),
        0 <= j <= replace_all(s, from, to).len(),
        forall|q: int| 0 <= q < j ==> from.contains(#[trigger] replace_all(s, from, to)[q]),
    ensures
        j <= s.len(),
        replace_all(s, from, to).take(j) == s.take(j),
    decreases s.len(),
{
    let r = replace_all(s, from, to);
    if s.len() < from.len() {
    } else if s.take(from.len() as int) == from {
        if j > 0 {
            assert(r[0] == to[0]);
            assert(from.contains(r[0]));
            assert(!from.contains(to[0]));
        }
        assert(r.take(j) =~= s.take(j));
    } else {
        if j > 0 {
            let s1 = s.skip(1);
            let r1 = replace_all(s1, from, to);
            assert(r =~= seq![s[0]] + r1);
            assert forall|q: int| 0 <= q < j - 1 implies from.contains(#[trigger] r1[q]) by {
                assert(r[q + 1] == r1[q]);
            }
            lemma_replace_prefix_untouched(s1, from, to, j - 1);
            assert(r.take(j) =~= seq![s[0]] + r1.take(j - 1));
            assert(s.take(j) =~= seq![s[0]] + s1.take(j - 1));
        } else {
            assert(r.take(j) =~= s.take(j));
        }
    }
}

/// When no character of a non-empty replacement `to` appears in `from`, the
/// result of replacing `from` by `to` holds no occurrence of `from` at all.
pub proof fn lemma_replace_leaves_no_occurrence(s: Seq<char>, from: Seq<char>, to: Seq<char>)
    requires
        from.len() > 0,
        to.len() > 0,
        disjoint_chars(from, to),
    ensures
        !seq_contains(replace_all(s, from, to), from),
    decreases s.len(),
{
    let r = replace_all(s, from, to);
    let m = from.len() as int;
    if s.len() < from.len() {
    } else if s.take(m) == from {
        let s2 = s.skip(m);
        let r2 = replace_all(s2, from, to);
        lemma_replace_leaves_no_occurrence(s2, from, to);
        assert forall|p: int| !occurs_at(r, from, p) by {
            if occurs_at(r, from, p) {
                if p < to.len() {
                    assert(r.subrange(p, p + m)[0] == from[0]);
                    assert(r[p] == to[p]);
                    assert(from.contains(to[p]));
                } else {
                    assert(r2.subrange(p - to.len(), p - to.len() + m) =~= r.subrange(p, p + m));
                    assert(occurs_at(r2, from, p - to.len()));
                }
            }
        }
    } else {
        let s1 = s.skip(1);
        let r1 = replace_all(s1, from, to);
        lemma_replace_leaves_no_occurrence(s1, from, to);
        assert forall|p: int| !occurs_at(r, from, p) by {
            if occurs_at(r, from, p) {
                if p >= 1 {
                    assert(r1.subrange(p - 1, p - 1 + m) =~= r.subrange(p, p + m));
                    assert(occurs_at(r1, from, p - 1));
                } else {
                    assert forall|q: int| 0 <= q < m implies from.contains(#[trigger] r[q]) by {
                        assert(r.subrange(0, m)[q] == r[q]);
                        assert(from[q] == r[q]);
                    }
                    lemma_replace_prefix_untouched(s, from, to, m);
                    assert(r.take(m) =~= r.subrange(0, m));
                }
            }
        }
    }
}

/// Replacing a pattern that does not occur changes nothing.
pub proof fn lemma_replace_absent_is_identity(s: Seq<char>, from: Seq<char>, to: Seq<char>)
    requires
        from.len() > 0,
        !seq_contains(s, from),
    ensures
        replace_all(s, from, to) == s,
    decreases s.len(),
{
    if s.len() >= from.len() {
        assert(s.take(from.len() as int) =~= s.subrange(0, from.len() as int));
        assert(!occurs_at(s, from, 0));
        let s1 = s.skip(1);
        assert forall|p: int| !occurs_at(s1, from, p) by {
            if occurs_at(s1, from, p) {
                assert(s.subrange(p + 1, p + 1 + from.len()) =~= s1.subrange(p, p + from.len()));
                assert(occurs_at(s, from, p + 1));
            }
        }
        lemma_replace_absent_is_identity(s1, from, to);
        assert(seq![s[0]] + s1 =~= s);
    }
}

/// The parts of `parts`, joined by `sep`.
pub fn join_strings(parts: &Vec<String>, sep: &str) -> (r: String)
    ensures
        r@ == join_seqs(parts.deep_view(), sep@),
{
    let ghost dv = parts.deep_view();
    let mut out = String::new();
    let mut i: usize = 0;
    while i < parts.len()
        invariant
            dv == parts.deep_view(),
            dv.len() == parts.len(),
            i <= parts.len(),
            out@ == join_seqs(dv.take(i as int), sep@),
        decreases parts.len() - i,
    {
        assert(dv.take(i + 1).drop_last() =~= dv.take(i as int));
        assert(dv[i as int] == parts[i as int]@);
        if i > 0 {
            out.append(sep);
        } else {
            assert(out@ =~= Seq::<char>::empty());
        }
        out.append(parts[i].as_str());
        i = i + 1;
    }
    assert(dv.take(parts.len() as int) =~= dv);
    out
}

} // verus!
