use vstd::prelude::*;

verus! {

/// ASCII lower-case of one byte; other bytes are left as they are.
pub open spec fn lower(c: u8) -> u8 {
    if 65 <= c && c <= 90 {
        (c + 32) as u8
    } else {
        c
    }
}

/// `s` begins with `p`, ignoring ASCII case.
pub open spec fn starts_with_ci(s: Seq<u8>, p: Seq<u8>) -> bool {
    p.len() <= s.len() && forall|i: int| 0 <= i < p.len() ==> lower(#[trigger] s[i]) == lower(p[i])
}

pub fn lower_byte(c: u8) -> (r: u8)
    ensures
        r == lower(c),
{
    if 65 <= c && c <= 90 {
        c + 32
    } else {
        c
    }
}

pub fn starts_with_ignore_case(s: &[u8], p: &[u8]) -> (r: bool)
    ensures
        r == starts_with_ci(s@, p@),
{
    if p.len() > s.len() {
        return false;
    }
    let mut i: usize = 0;
    while i < p.len()
        invariant
            p@.len() <= s@.len(),
            i <= p@.len(),
            forall|j: int| 0 <= j < i ==> lower(#[trigger] s@[j]) == lower(p@[j]),
        decreases p@.len() - i,
    {
        if lower_byte(s[i]) != lower_byte(p[i]) {
            return false;
        }
        i = i + 1;
    }
    true
}

/// The contents of each vector of a sequence.
pub open spec fn views(r: Seq<Vec<u8>>) -> Seq<Seq<u8>> {
    r.map_values(|v: Vec<u8>| v@)
}

pub const LF: u8 = 10;

pub const CR: u8 = 13;

pub const TAB: u8 = 9;

pub const SPACE: u8 = 32;

/// Index of the first `c` in `s` at or after `i`; `s.len()` where there is none.
pub open spec fn find_byte(s: Seq<u8>, c: u8, i: int) -> int
    decreases s.len() - i,
{
    if i >= s.len() {
        s.len() as int
    } else if s[i] == c {
        i
    } else {
        find_byte(s, c, i + 1)
    }
}

/// A line without the carriage return that ended it, if any.
pub open spec fn strip_cr(l: Seq<u8>) -> Seq<u8> {
    if l.len() > 0 && l.last() == CR {
        l.drop_last()
    } else {
        l
    }
}

/// The lines of a text: split at each line feed, a carriage return before the
/// line feed dropped; a final line feed ends the last line and opens none.
pub open spec fn lines_of(t: Seq<u8>) -> Seq<Seq<u8>>
    decreases t.len(),
{
    if t.len() == 0 {
        Seq::empty()
    } else {
        let k = find_byte(t, LF, 0);
        // `k < 0` never holds; the test only bounds the recursion
        if k < 0 || k >= t.len() {
            seq![t]
        } else {
            seq![strip_cr(t.subrange(0, k))] + lines_of(t.subrange(k + 1, t.len() as int))
        }
    }
}

pub open spec fn is_blank(c: u8) -> bool {
    c == SPACE || c == TAB || c == CR || c == LF
}

/// Index of the first blank of `s` at or after `i`; `s.len()` where there is none.
pub open spec fn find_blank(s: Seq<u8>, i: int) -> int
    decreases s.len() - i,
{
    if i >= s.len() {
        s.len() as int
    } else if is_blank(s[i]) {
        i
    } else {
        find_blank(s, i + 1)
    }
}

/// The words of a text: the maximal runs of bytes that are not blanks.
pub open spec fn words_of(t: Seq<u8>) -> Seq<Seq<u8>>
    decreases t.len(),
{
    if t.len() == 0 {
        Seq::empty()
    } else if is_blank(t[0]) {
        words_of(t.subrange(1, t.len() as int))
    } else {
        let k = find_blank(t, 0);
        // never holds, as `t[0]` is no blank; the test only bounds the recursion
        if k <= 0 || k > t.len() {
            Seq::empty()
        } else {
            seq![t.subrange(0, k)] + words_of(t.subrange(k, t.len() as int))
        }
    }
}

proof fn lemma_find_byte(s: Seq<u8>, c: u8, i: int, m: int)
    requires
        0 <= i <= m <= s.len(),
        forall|j: int| i <= j < m ==> s[j] != c,
        m == s.len() || s[m] == c,
    ensures
        find_byte(s, c, i) == m,
    decreases m - i,
{
    if i < m {
        lemma_find_byte(s, c, i + 1, m);
    }
}

proof fn lemma_find_blank(s: Seq<u8>, i: int, m: int)
    requires
        0 <= i <= m <= s.len(),
        forall|j: int| i <= j < m ==> !is_blank(#[trigger] s[j]),
        m == s.len() || is_blank(s[m]),
    ensures
        find_blank(s, i) == m,
    decreases m - i,
{
    if i < m {
        lemma_find_blank(s, i + 1, m);
    }
}

/// A copy of `t[a..b]`.
pub fn copy_range(t: &[u8], a: usize, b: usize) -> (r: Vec<u8>)
    requires
        a <= b <= t@.len(),
    ensures
        r@ == t@.subrange(a as int, b as int),
{
    let mut r: Vec<u8> = Vec::new();
    let mut i: usize = a;
    while i < b
        invariant
            a <= i <= b <= t@.len(),
            r@ == t@.subrange(a as int, i as int),
        decreases b - i,
    {
        r.push(t[i]);
        i = i + 1;
        assert(r@ =~= t@.subrange(a as int, i as int));
    }
    r
}

/// Appends `s` to `v`.
pub fn push_all(v: &mut Vec<u8>, s: &[u8])
    ensures
        final(v)@ == old(v)@ + s@,
{
    let mut i: usize = 0;
    while i < s.len()
        invariant
            i <= s@.len(),
            v@ == old(v)@ + s@.subrange(0, i as int),
        decreases s@.len() - i,
    {
        v.push(s[i]);
        i = i + 1;
        assert(v@ =~= old(v)@ + s@.subrange(0, i as int));
    }
    assert(s@.subrange(0, s@.len() as int) =~= s@);
}

/// Splits a text into its lines.
pub fn split_lines(t: &[u8]) -> (r: Vec<Vec<u8>>)
    ensures
        views(r@) == lines_of(t@),
{
    let mut r: Vec<Vec<u8>> = Vec::new();
    let mut start: usize = 0;
    let n = t.len();
    assert(t@.subrange(0, n as int) =~= t@);
    while start < n
        invariant
            n == t@.len(),
            start <= n,
            views(r@) + lines_of(t@.subrange(start as int, n as int)) == lines_of(t@),
        decreases n - start,
    {
        let ghost u = t@.subrange(start as int, n as int);
        let mut k: usize = start;
        while k < n && t[k] != LF
            invariant
                start <= k <= n,
                n == t@.len(),
                forall|j: int| start <= j < k ==> t@[j] != LF,
            decreases n - k,
        {
            k = k + 1;
        }
        proof {
            lemma_find_byte(u, LF, 0, k - start);
        }
        let ghost before = views(r@);
        if k == n {
            let line = copy_range(t, start, n);
            r.push(line);
            proof {
                assert(lines_of(u) == seq![u]);
                assert(lines_of(t@.subrange(n as int, n as int)) =~= Seq::<Seq<u8>>::empty());
                assert(views(r@) =~= before.push(u));
                assert(before + lines_of(u) =~= before.push(u));
            }
            start = n;
        } else {
            let mut e: usize = k;
            if e > start && t[e - 1] == CR {
                e = e - 1;
            }
            let line = copy_range(t, start, e);
            r.push(line);
            proof {
                let l = u.subrange(0, k - start);
                assert(strip_cr(l) =~= t@.subrange(start as int, e as int));
                assert(u.subrange(k - start + 1, u.len() as int) =~= t@.subrange(k + 1, n as int));
                assert(lines_of(u) == seq![strip_cr(l)] + lines_of(t@.subrange(k + 1, n as int)));
                assert(views(r@) =~= before.push(strip_cr(l)));
                assert(before + lines_of(u) =~= views(r@) + lines_of(t@.subrange(k + 1, n as int)));
            }
            start = k + 1;
        }
    }
    assert(lines_of(t@.subrange(n as int, n as int)) =~= Seq::<Seq<u8>>::empty());
    assert(views(r@) + Seq::<Seq<u8>>::empty() =~= views(r@));
    r
}

/// Splits a text into its words.
pub fn split_words(t: &[u8]) -> (r: Vec<Vec<u8>>)
    ensures
        views(r@) == words_of(t@),
{
    let mut r: Vec<Vec<u8>> = Vec::new();
    let mut start: usize = 0;
    let n = t.len();
    assert(t@.subrange(0, n as int) =~= t@);
    while start < n
        invariant
            n == t@.len(),
            start <= n,
            views(r@) + words_of(t@.subrange(start as int, n as int)) == words_of(t@),
        decreases n - start,
    {
        let ghost u = t@.subrange(start as int, n as int);
        let c = t[start];
        if c == SPACE || c == TAB || c == CR || c == LF {
            proof {
                assert(u.subrange(1, u.len() as int) =~= t@.subrange(start + 1, n as int));
            }
            start = start + 1;
        } else {
            let mut k: usize = start + 1;
            while k < n && !(t[k] == SPACE || t[k] == TAB || t[k] == CR || t[k] == LF)
                invariant
                    start < k <= n,
                    n == t@.len(),
                    u == t@.subrange(start as int, n as int),
                    forall|j: int| 0 <= j < k - start ==> !is_blank(#[trigger] u[j]),
                decreases n - k,
            {
                assert(u[k - start] == t@[k as int]);
                k = k + 1;
            }
            proof {
                lemma_find_blank(u, 0, k - start);
            }
            let ghost before = views(r@);
            let word = copy_range(t, start, k);
            r.push(word);
            proof {
                assert(u.subrange(0, k - start) =~= t@.subrange(start as int, k as int));
                assert(u.subrange(k - start, u.len() as int) =~= t@.subrange(k as int, n as int));
                assert(views(r@) =~= before.push(u.subrange(0, k - start)));
                assert(before + words_of(u) =~= views(r@) + words_of(t@.subrange(k as int, n as int)));
            }
            start = k;
        }
    }
    assert(words_of(t@.subrange(n as int, n as int)) =~= Seq::<Seq<u8>>::empty());
    assert(views(r@) + Seq::<Seq<u8>>::empty() =~= views(r@));
    r
}

} // verus!
