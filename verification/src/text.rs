//! Character-level work on strings: reading their characters, comparing
//! them, and removing every occurrence of a pattern.

use vstd::prelude::*;

verus! {

/// The characters of `s`, one per element.
pub(crate) fn chars_of(s: &str) -> (v: Vec<char>)
    ensures
        v@ == s@,
{
    let n = s.unicode_len();
    let mut v: Vec<char> = Vec::new();
    for i in 0..n
        invariant
            n == s@.len(),
            v@ == s@.subrange(0, i as int),
    {
        let c = s.get_char(i);
        v.push(c);
        assert(s@.subrange(0, i + 1) == s@.subrange(0, i as int).push(c));
    }
    assert(s@.subrange(0, n as int) == s@);
    v
}

/// Whether `a` and `b` hold the same characters.
pub(crate) fn same_text(a: &str, b: &str) -> (r: bool)
    ensures
        r == (a@ == b@),
{
    let x = chars_of(a);
    let y = chars_of(b);
    if x.len() != y.len() {
        return false;
    }
    let n = x.len();
    for i in 0..n
        invariant
            n == x@.len(),
            n == y@.len(),
            x@ == a@,
            y@ == b@,
            forall|k: int| 0 <= k < i ==> x@[k] == y@[k],
    {
        if x[i] != y[i] {
            assert(a@[i as int] != b@[i as int]);
            return false;
        }
    }
    assert(x@ =~= y@);
    true
}

/// Whether `s` begins with the characters of `prefix`.
pub(crate) fn starts_with_text(s: &str, prefix: &str) -> (r: bool)
    ensures
        r == (prefix@.len() <= s@.len() && s@.subrange(0, prefix@.len() as int) == prefix@),
{
    let x = chars_of(s);
    let p = chars_of(prefix);
    if p.len() > x.len() {
        return false;
    }
    let n = p.len();
    for i in 0..n
        invariant
            n == p@.len(),
            n <= x@.len(),
            x@ == s@,
            p@ == prefix@,
            forall|k: int| 0 <= k < i ==> x@[k] == p@[k],
    {
        if x[i] != p[i] {
            assert(x@.subrange(0, n as int)[i as int] != p@[i as int]);
            return false;
        }
    }
    assert(x@.subrange(0, n as int) =~= p@);
    true
}

/// `s` with every occurrence of `pat` removed, taking the occurrences from
/// left to right without overlap, as `str::replace(s, pat, "")` does.
pub open spec fn remove_all(s: Seq<char>, pat: Seq<char>) -> Seq<char>
    decreases s.len(),
{
    if s.len() == 0 {
        s
    } else if 0 < pat.len() <= s.len() && s.subrange(0, pat.len() as int) == pat {
        remove_all(s.skip(pat.len() as int), pat)
    } else {
        seq![s[0]] + remove_all(s.skip(1), pat)
    }
}

/// Whether `pat` occurs in `s` at position `at`.
fn occurs_at(s: &Vec<char>, at: usize, pat: &Vec<char>) -> (r: bool)
    requires
        at + pat@.len() <= s@.len(),
    ensures
        r == (s@.subrange(at as int, at + pat@.len()) == pat@),
{
    let p = pat.len();
    for k in 0..p
        invariant
            p == pat@.len(),
            at + p <= s.len(),
            forall|j: int| 0 <= j < k ==> s@[at + j] == pat@[j],
    {
        if s[at + k] != pat[k] {
            assert(s@.subrange(at as int, at + p)[k as int] != pat@[k as int]);
            return false;
        }
    }
    assert(s@.subrange(at as int, at + p) =~= pat@);
    true
}

/// `s` with every occurrence of `pat` removed (see `remove_all`).
pub(crate) fn remove_occurrences(s: &str, pat: &str) -> (r: String)
    ensures
        r@ == remove_all(s@, pat@),
{
    let sc = chars_of(s);
    let pc = chars_of(pat);
    let n = sc.len();
    let p = pc.len();
    let mut out = String::new();
    let mut i: usize = 0;
    assert(sc@.skip(0) == sc@);
    while i < n
        invariant
            n == sc@.len(),
            p == pc@.len(),
            sc@ == s@,
            pc@ == pat@,
            i <= n,
            out@ + remove_all(sc@.skip(i as int), pc@) == remove_all(sc@, pc@),
        decreases n - i,
    {
        let ghost rest = sc@.skip(i as int);
        if p > 0 && p <= n - i && occurs_at(&sc, i, &pc) {
            assert(rest.subrange(0, p as int) == sc@.subrange(i as int, i + p));
            assert(rest.skip(p as int) == sc@.skip(i + p));
            i = i + p;
        } else {
            assert(!(0 < pc@.len() <= rest.len() && rest.subrange(0, p as int) == pc@)) by {
                if 0 < pc@.len() <= rest.len() {
                    assert(rest.subrange(0, p as int) == sc@.subrange(i as int, i + p));
                }
            }
            let one = s.substring_char(i, i + 1);
            assert(one@ == seq![rest[0]]);
            let ghost before = out@;
            out.append(one);
            assert(rest.skip(1) == sc@.skip(i + 1));
            assert(out@ + remove_all(sc@.skip(i + 1), pc@) == before + remove_all(rest, pc@));
            i = i + 1;
        }
    }
    assert(sc@.skip(n as int) == Seq::<char>::empty());
    assert(out@ + Seq::<char>::empty() == out@);
    out
}

} // verus!
