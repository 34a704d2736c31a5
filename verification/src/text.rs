//! Character-level string operations: equality, substring and suffix
//! tests, and replacement of every occurrence of a pattern.
use vstd::prelude::*;
use vstd::string::*;

verus! {

/// Whether `needle` occurs in `hay` starting at index `i`.
pub open spec fn occurs_at(hay: Seq<char>, needle: Seq<char>, i: int) -> bool {
    0 <= i && i + needle.len() <= hay.len() && hay.subrange(i, i + needle.len()) == needle
}

/// Whether `needle` occurs somewhere in `hay` (the empty sequence occurs everywhere).
pub open spec fn contains_seq(hay: Seq<char>, needle: Seq<char>) -> bool {
    exists|i: int| #[trigger] occurs_at(hay, needle, i)
}

/// Whether `hay` ends with `suffix`.
pub open spec fn ends_with_seq(hay: Seq<char>, suffix: Seq<char>) -> bool {
    suffix.len() <= hay.len() && hay.subrange(hay.len() - suffix.len(), hay.len() as int) == suffix
}

/// `s` with every occurrence of the non-empty `from` replaced by `to`,
/// occurrences taken from left to right without overlap.
pub open spec fn replaced(s: Seq<char>, from: Seq<char>, to: Seq<char>) -> Seq<char>
    recommends
        from.len() > 0,
    decreases s.len(),
{
    if from.len() == 0 || s.len() < from.len() {
        s
    } else if s.take(from.len() as int) == from {
        to + replaced(s.skip(from.len() as int), from, to)
    } else {
        seq![s[0]] + replaced(s.skip(1), from, to)
    }
}

/// The characters of `s`, in order.
pub fn chars_of(s: &str) -> (r: Vec<char>)
    ensures
        r@ == s@,
{
    broadcast use vstd::string::axiom_spec_iter;

    let mut r: Vec<char> = Vec::new();
    for c in it: s.chars()
        invariant
            r@.len() == it.index(),
            it.seq() == s@,
            forall|j: int| 0 <= j < r@.len() ==> r@[j] == it.seq()[j],
    {
        r.push(c);
    }
    assert(r@ =~= s@);
    r
}

/// Whether `needle` occurs in `hay` at index `i`.
fn occurs_at_vec(hay: &Vec<char>, needle: &Vec<char>, i: usize) -> (r: bool)
    ensures
        r == occurs_at(hay@, needle@, i as int),
{
    if i > hay.len() || needle.len() > hay.len() - i {
        return false;
    }
    let m = needle.len();
    for k in 0..m
        invariant
            m == needle@.len(),
            i + m <= hay.len(),
            forall|j: int| 0 <= j < k ==> hay@[i + j] == needle@[j],
    {
        if hay[i + k] != needle[k] {
            assert(hay@.subrange(i as int, i + m)[k as int] != needle@[k as int]);
            return false;
        }
    }
    assert(hay@.subrange(i as int, i + m) =~= needle@);
    true
}

/// Whether the two strings hold the same characters.
pub fn str_equal(a: &str, b: &str) -> (r: bool)
    ensures
        r == (a@ == b@),
{
    let ca = chars_of(a);
    let cb = chars_of(b);
    if ca.len() != cb.len() {
        return false;
    }
    let r = occurs_at_vec(&ca, &cb, 0);
    proof {
        assert(ca@.subrange(0, ca@.len() as int) =~= ca@);
    }
    r
}

/// Whether `needle` occurs in `hay`.
pub fn str_contains(hay: &str, needle: &str) -> (r: bool)
    ensures
        r == contains_seq(hay@, needle@),
{
    let ch = chars_of(hay);
    let cn = chars_of(needle);
    if cn.len() > ch.len() {
        proof {
            assert forall|j: int| !#[trigger] occurs_at(hay@, needle@, j) by {}
        }
        return false;
    }
    let last = ch.len() - cn.len();
    for i in 0..last
        invariant
            last == hay@.len() - needle@.len(),
            ch@ == hay@,
            cn@ == needle@,
            forall|j: int| 0 <= j < i ==> !#[trigger] occurs_at(hay@, needle@, j),
    {
        if occurs_at_vec(&ch, &cn, i) {
            return true;
        }
    }
    let r = occurs_at_vec(&ch, &cn, last);
    proof {
        if !r {
            assert forall|j: int| !#[trigger] occurs_at(hay@, needle@, j) by {
                if j > last {
                    assert(!occurs_at(hay@, needle@, j));
                }
            }
        }
    }
    r
}

/// Whether `hay` ends with `suffix`.
pub fn str_ends_with(hay: &str, suffix: &str) -> (r: bool)
    ensures
        r == ends_with_seq(hay@, suffix@),
{
    let ch = chars_of(hay);
    let cs = chars_of(suffix);
    if cs.len() > ch.len() {
        return false;
    }
    occurs_at_vec(&ch, &cs, ch.len() - cs.len())
}

/// Unfolding `replaced` at index `i` when `from` does not occur there.
proof fn lemma_replaced_step(s: Seq<char>, from: Seq<char>, to: Seq<char>, i: int)
    requires
        from.len() > 0,
        0 <= i < s.len(),
        !occurs_at(s, from, i),
    ensures
        replaced(s.skip(i), from, to) == seq![s[i]] + replaced(s.skip(i + 1), from, to),
{
    let t = s.skip(i);
    assert(t.skip(1) =~= s.skip(i + 1));
    if t.len() < from.len() {
        assert(replaced(t.skip(1), from, to) == t.skip(1));
        assert(t =~= seq![s[i]] + t.skip(1));
    } else {
        assert(t.take(from.len() as int) =~= s.subrange(i, i + from.len()));
    }
}

/// Law: a text in which `from` does not occur is left as it is.
pub proof fn lemma_replaced_without_occurrence(s: Seq<char>, from: Seq<char>, to: Seq<char>)
    requires
        from.len() > 0,
        forall|j: int| !#[trigger] occurs_at(s, from, j),
    ensures
        replaced(s, from, to) == s,
    decreases s.len(),
{
    if s.len() >= from.len() {
        assert(!occurs_at(s, from, 0));
        assert(s.subrange(0, from.len() as int) =~= s.take(from.len() as int));
        let t = s.skip(1);
        assert forall|j: int| !#[trigger] occurs_at(t, from, j) by {
            if occurs_at(t, from, j) {
                assert(s.subrange(j + 1, j + 1 + from.len()) =~= t.subrange(j, j + from.len()));
                assert(occurs_at(s, from, j + 1));
            }
        }
        lemma_replaced_without_occurrence(t, from, to);
        assert(s =~= seq![s[0]] + t);
    }
}

/// Law: the leftmost occurrence of `from` is replaced by `to`, and the
/// replacing goes on in the rest of the text: when `from` occurs nowhere
/// in `a + from + b` before the end of `a`, the result is `a`, then `to`,
/// then the result for `b`.
pub proof fn lemma_replaced_leftmost_then_rest(
    a: Seq<char>,
    b: Seq<char>,
    from: Seq<char>,
    to: Seq<char>,
)
    requires
        from.len() > 0,
        forall|j: int| 0 <= j < a.len() ==> !#[trigger] occurs_at(a + from + b, from, j),
    ensures
        replaced(a + from + b, from, to) == a + to + replaced(b, from, to),
    decreases a.len(),
{
    let s = a + from + b;
    if a.len() == 0 {
        assert(s =~= from + b);
        assert(s.take(from.len() as int) =~= from);
        assert(s.skip(from.len() as int) =~= b);
        assert(a + to =~= to);
    } else {
        assert(!occurs_at(s, from, 0));
        assert(s.subrange(0, from.len() as int) =~= s.take(from.len() as int));
        let a1 = a.skip(1);
        assert(s.skip(1) =~= a1 + from + b);
        assert forall|j: int| 0 <= j < a1.len() implies !#[trigger] occurs_at(a1 + from + b, from, j) by {
            let t = a1 + from + b;
            if occurs_at(t, from, j) {
                assert(s.subrange(j + 1, j + 1 + from.len()) =~= t.subrange(j, j + from.len()));
                assert(occurs_at(s, from, j + 1));
            }
        }
        lemma_replaced_leftmost_then_rest(a1, b, from, to);
        assert(a =~= seq![a[0]] + a1);
        assert(s[0] == a[0]);
        assert(seq![s[0]] + (a1 + to + replaced(b, from, to)) =~= a + to + replaced(b, from, to));
    }
}

/// `s` with every occurrence of `from` replaced by `to`.
pub fn replace_all(s: &str, from: &str, to: &str) -> (r: String)
    requires
        from@.len() > 0,
    ensures
        r@ == replaced(s@, from@, to@),
{
    let cs = chars_of(s);
    let cf = chars_of(from);
    let n = cs.len();
    let flen = cf.len();
    let mut out = String::new();
    let mut seg_start: usize = 0;
    let mut i: usize = 0;
    proof {
        assert(s@.skip(0) =~= s@);
    }
    while i < n
        invariant
            n == s@.len(),
            cs@ == s@,
            cf@ == from@,
            flen == from@.len(),
            flen > 0,
            seg_start <= i <= n,
            out@ + s@.subrange(seg_start as int, i as int) + replaced(s@.skip(i as int), from@, to@)
                == replaced(s@, from@, to@),
        decreases n - i,
    {
        let ghost before = out@ + s@.subrange(seg_start as int, i as int);
        if occurs_at_vec(&cs, &cf, i) {
            proof {
                let t = s@.skip(i as int);
                assert(t.take(flen as int) =~= s@.subrange(i as int, i + flen));
                assert(t.skip(flen as int) =~= s@.skip(i + flen));
            }
            out.append(s.substring_char(seg_start, i));
            out.append(to);
            i = i + flen;
            seg_start = i;
            proof {
                assert(s@.subrange(seg_start as int, i as int) =~= Seq::<char>::empty());
                assert(out@ + s@.subrange(seg_start as int, i as int) =~= before + to@);
            }
        } else {
            proof {
                lemma_replaced_step(s@, from@, to@, i as int);
                assert(s@.subrange(seg_start as int, i + 1) =~= s@.subrange(seg_start as int, i as int)
                    + seq![s@[i as int]]);
            }
            i = i + 1;
        }
    }
    proof {
        assert(s@.skip(n as int) =~= Seq::<char>::empty());
    }
    out.append(s.substring_char(seg_start, n));
    out
}

} // verus!
