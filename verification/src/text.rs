//! Character sequences: trimming, prefix stripping, and removing a character.

use vstd::prelude::*;
use vstd::string::*;

verus! {

/// Whether `c` carries the Unicode property `White_Space`.
pub open spec fn is_space(c: char) -> bool {
    let n = c as u32;
    ||| 0x09 <= n <= 0x0d
    ||| n == 0x20
    ||| n == 0x85
    ||| n == 0xa0
    ||| n == 0x1680
    ||| 0x2000 <= n <= 0x200a
    ||| n == 0x2028
    ||| n == 0x2029
    ||| n == 0x202f
    ||| n == 0x205f
    ||| n == 0x3000
}

/// The first index at or after `i` that holds no white space, or the length.
pub open spec fn first_kept(s: Seq<char>, i: int) -> int
    decreases s.len() - i,
{
    if 0 <= i < s.len() && is_space(s[i]) {
        first_kept(s, i + 1)
    } else {
        i
    }
}

/// The end of the last run of characters that are no white space, not
/// below `lo`, looking back from `j`.
pub open spec fn last_kept(s: Seq<char>, lo: int, j: int) -> int
    decreases j,
{
    if 0 <= lo < j <= s.len() && is_space(s[j - 1]) {
        last_kept(s, lo, j - 1)
    } else {
        j
    }
}

/// `s` without its leading and trailing white space.
pub open spec fn trimmed(s: Seq<char>) -> Seq<char> {
    let a = first_kept(s, 0);
    s.subrange(a, last_kept(s, a, s.len() as int))
}

/// `s` after `p` has been taken off its front as often as it stands there.
/// An empty `p` takes nothing off.
pub open spec fn strip_all(s: Seq<char>, p: Seq<char>) -> Seq<char>
    decreases s.len(),
{
    if p.len() > 0 && p.is_prefix_of(s) {
        strip_all(s.skip(p.len() as int), p)
    } else {
        s
    }
}

/// `s` with every occurrence of `c` left out.
pub open spec fn without(s: Seq<char>, c: char) -> Seq<char>
    decreases s.len(),
{
    if s.len() == 0 {
        s
    } else if s.last() == c {
        without(s.drop_last(), c)
    } else {
        without(s.drop_last(), c).push(s.last())
    }
}

/// A token names one directory entry: it is not empty and holds no `/`.
pub open spec fn is_token(s: Seq<char>) -> bool {
    s.len() > 0 && !s.contains('/')
}

pub proof fn lemma_first_kept_bounds(s: Seq<char>, i: int)
    requires
        0 <= i <= s.len(),
    ensures
        i <= first_kept(s, i) <= s.len(),
        forall|k: int| i <= k < first_kept(s, i) ==> is_space(s[k]),
        first_kept(s, i) < s.len() ==> !is_space(s[first_kept(s, i)]),
    decreases s.len() - i,
{
    if i < s.len() && is_space(s[i]) {
        lemma_first_kept_bounds(s, i + 1);
    }
}

pub proof fn lemma_last_kept_bounds(s: Seq<char>, lo: int, j: int)
    requires
        0 <= lo <= j <= s.len(),
    ensures
        lo <= last_kept(s, lo, j) <= j,
        forall|k: int| last_kept(s, lo, j) <= k < j ==> is_space(s[k]),
        lo < last_kept(s, lo, j) ==> !is_space(s[last_kept(s, lo, j) - 1]),
    decreases j,
{
    if lo < j && is_space(s[j - 1]) {
        lemma_last_kept_bounds(s, lo, j - 1);
    }
}

/// A string without white space at either end is its own trimmed form.
pub proof fn lemma_trimmed_fixed(s: Seq<char>)
    requires
        s.len() == 0 || (!is_space(s[0]) && !is_space(s.last())),
    ensures
        trimmed(s) == s,
{
    assert(s.subrange(0, s.len() as int) =~= s);
}

/// What is left after trimming has no white space at either end.
pub proof fn law_trimmed_is_bare(s: Seq<char>)
    ensures
        trimmed(s).len() == 0 || (!is_space(trimmed(s)[0]) && !is_space(trimmed(s).last())),
{
    lemma_first_kept_bounds(s, 0);
    lemma_last_kept_bounds(s, first_kept(s, 0), s.len() as int);
}

/// Trimming twice is trimming once.
pub proof fn law_trim_idempotent(s: Seq<char>)
    ensures
        trimmed(trimmed(s)) == trimmed(s),
{
    law_trimmed_is_bare(s);
    lemma_trimmed_fixed(trimmed(s));
}

/// A prefix that ends in `/` comes off a token once and leaves the token.
pub proof fn lemma_strip_all_token(p: Seq<char>, t: Seq<char>)
    requires
        p.len() > 0,
        p.last() == '/',
        !t.contains('/'),
    ensures
        strip_all(p + t, p) == t,
{
    assert(p.is_prefix_of(p + t));
    assert((p + t).skip(p.len() as int) =~= t);
    if p.is_prefix_of(t) {
        assert(t[p.len() - 1] == p.last());
        assert(t.contains('/'));
    }
    assert(strip_all(t, p) == t);
    assert(strip_all(p + t, p) == strip_all(t, p));
}

pub fn space(c: char) -> (b: bool)
    ensures
        b == is_space(c),
{
    let n: u32 = c as u32;
    (0x09 <= n && n <= 0x0d) || n == 0x20 || n == 0x85 || n == 0xa0 || n == 0x1680 || (0x2000 <= n
        && n <= 0x200a) || n == 0x2028 || n == 0x2029 || n == 0x202f || n == 0x205f || n == 0x3000
}

/// The characters of `s` from `from` up to `to`, as an owned string.
pub fn slice(s: &str, from: usize, to: usize) -> (out: String)
    requires
        from <= to <= s@.len(),
    ensures
        out@ == s@.subrange(from as int, to as int),
{
    String::from_str(s.substring_char(from, to))
}

/// `a` followed by `b`.
pub fn catenate(a: &str, b: &str) -> (out: String)
    ensures
        out@ == a@ + b@,
{
    let mut out = String::from_str(a);
    out.append(b);
    out
}

/// Whether two strings hold the same characters.
pub fn same(a: &str, b: &str) -> (eq: bool)
    ensures
        eq == (a@ == b@),
{
    let n = a.unicode_len();
    if b.unicode_len() != n {
        return false;
    }
    let mut i: usize = 0;
    while i < n
        invariant
            i <= n,
            n == a@.len(),
            n == b@.len(),
            forall|k: int| 0 <= k < i ==> a@[k] == b@[k],
        decreases n - i,
    {
        if a.get_char(i) != b.get_char(i) {
            return false;
        }
        i += 1;
    }
    assert(a@ =~= b@);
    true
}

/// Whether `p` stands in `s` at position `at`.
pub fn stands_at(s: &str, at: usize, p: &str) -> (yes: bool)
    requires
        at <= s@.len(),
    ensures
        yes == p@.is_prefix_of(s@.skip(at as int)),
{
    let n = s.unicode_len();
    let m = p.unicode_len();
    if m > n - at {
        return false;
    }
    let mut k: usize = 0;
    while k < m
        invariant
            k <= m,
            m == p@.len(),
            n == s@.len(),
            at + m <= n,
            forall|j: int| 0 <= j < k ==> s@[at + j] == p@[j],
        decreases m - k,
    {
        if s.get_char(at + k) != p.get_char(k) {
            assert(s@.skip(at as int)[k as int] == s@[at + k]);
            return false;
        }
        k += 1;
    }
    assert(s@.skip(at as int).subrange(0, m as int) =~= p@);
    true
}

/// Takes white space off both ends of `s`.
pub fn trim(s: &str) -> (out: String)
    ensures
        out@ == trimmed(s@),
{
    let n = s.unicode_len();
    let mut a: usize = 0;
    while a < n && space(s.get_char(a))
        invariant
            a <= n,
            n == s@.len(),
            first_kept(s@, 0) == first_kept(s@, a as int),
        decreases n - a,
    {
        a += 1;
    }
    let mut b: usize = n;
    while a < b && space(s.get_char(b - 1))
        invariant
            a <= b <= n,
            n == s@.len(),
            last_kept(s@, a as int, n as int) == last_kept(s@, a as int, b as int),
        decreases b,
    {
        b -= 1;
    }
    slice(s, a, b)
}

/// Takes `p` off the front of `s` as often as it stands there.
pub fn strip_leading(s: &str, p: &str) -> (out: String)
    ensures
        out@ == strip_all(s@, p@),
{
    let n = s.unicode_len();
    let m = p.unicode_len();
    let mut at: usize = 0;
    assert(s@.skip(0) =~= s@);
    if m > 0 {
        while stands_at(s, at, p)
            invariant
                at <= n,
                n == s@.len(),
                m == p@.len(),
                m > 0,
                strip_all(s@, p@) == strip_all(s@.skip(at as int), p@),
            decreases n - at,
        {
            assert(s@.skip(at as int).skip(m as int) =~= s@.skip(at + m));
            at += m;
        }
    }
    proof {
        assert(s@.subrange(at as int, n as int) =~= s@.skip(at as int));
    }
    slice(s, at, n)
}

/// Leaves every `c` out of `s`.
pub fn remove_char(s: &str, c: char) -> (out: String)
    ensures
        out@ == without(s@, c),
{
    let n = s.unicode_len();
    let mut out = String::new();
    let mut i: usize = 0;
    while i < n
        invariant
            i <= n,
            n == s@.len(),
            out@ == without(s@.take(i as int), c),
        decreases n - i,
    {
        proof {
            assert(s@.take(i + 1).drop_last() =~= s@.take(i as int));
            assert(s@.take(i + 1).last() == s@[i as int]);
        }
        if s.get_char(i) != c {
            out.append(s.substring_char(i, i + 1));
            assert(s@.subrange(i as int, i + 1) =~= seq![s@[i as int]]);
            assert(out@ =~= without(s@.take(i as int), c).push(s@[i as int]));
        }
        i += 1;
    }
    assert(s@.take(n as int) =~= s@);
    out
}

/// Whether `s` is not empty and holds no `/`.
pub fn token(s: &str) -> (ok: bool)
    ensures
        ok == is_token(s@),
{
    let n = s.unicode_len();
    let mut i: usize = 0;
    while i < n
        invariant
            i <= n,
            n == s@.len(),
            forall|k: int| 0 <= k < i ==> s@[k] != '/',
        decreases n - i,
    {
        if s.get_char(i) == '/' {
            return false;
        }
        i += 1;
    }
    n > 0
}

} // verus!
