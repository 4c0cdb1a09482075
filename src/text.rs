//! Character-level string helpers used by the parsers of this crate.
use vstd::prelude::*;

verus! {

/// Index of the first occurrence of `c` in `s`, or `s.len()` if there is none.
pub open spec fn first_index_of(s: Seq<char>, c: char) -> int
    decreases s.len(),
{
    if s.len() == 0 {
        0
    } else if s[0] == c {
        0
    } else {
        1 + first_index_of(s.drop_first(), c)
    }
}

/// The pieces of `s` between occurrences of `sep` (as `str::split` yields them).
pub open spec fn split_spec(s: Seq<char>, sep: char) -> Seq<Seq<char>>
    decreases s.len(),
{
    let i = first_index_of(s, sep);
    if i < 0 || i >= s.len() {
        seq![s]
    } else {
        seq![s.subrange(0, i)].add(split_spec(s.subrange(i + 1, s.len() as int), sep))
    }
}

pub proof fn lemma_first_index_bounds(s: Seq<char>, c: char)
    ensures
        0 <= first_index_of(s, c) <= s.len(),
        forall|k: int| 0 <= k < first_index_of(s, c) ==> s[k] != c,
        first_index_of(s, c) < s.len() ==> s[first_index_of(s, c)] == c,
    decreases s.len(),
{
    if s.len() > 0 && s[0] != c {
        lemma_first_index_bounds(s.drop_first(), c);
        assert forall|k: int| 0 <= k < first_index_of(s, c) implies s[k] != c by {
            if k > 0 {
                assert(s[k] == s.drop_first()[k - 1]);
            }
        }
    }
}

pub proof fn lemma_first_index_unique(s: Seq<char>, c: char, j: int)
    requires
        0 <= j <= s.len(),
        forall|k: int| 0 <= k < j ==> s[k] != c,
        j < s.len() ==> s[j] == c,
    ensures
        first_index_of(s, c) == j,
    decreases s.len(),
{
    if s.len() > 0 && s[0] != c {
        assert forall|k: int| 0 <= k < j - 1 implies s.drop_first()[k] != c by {
            assert(s.drop_first()[k] == s[k + 1]);
        }
        lemma_first_index_unique(s.drop_first(), c, j - 1);
    }
}

/// `a` and `b` hold the same characters.
pub fn str_eq(a: &str, b: &str) -> (r: bool)
    ensures
        r == (a@ == b@),
{
    let n = a.unicode_len();
    if n != b.unicode_len() {
        return false;
    }
    let mut i: usize = 0;
    while i < n
        invariant
            n == a@.len(),
            n == b@.len(),
            0 <= i <= n,
            forall|k: int| 0 <= k < i ==> a@[k] == b@[k],
        decreases n - i,
    {
        if a.get_char(i) != b.get_char(i) {
            return false;
        }
        i = i + 1;
    }
    assert(a@ =~= b@);
    true
}

/// `s` begins with `p`.
pub fn starts_with(s: &str, p: &str) -> (r: bool)
    ensures
        r == (p@.len() <= s@.len() && s@.subrange(0, p@.len() as int) == p@),
{
    let n = p.unicode_len();
    if n > s.unicode_len() {
        return false;
    }
    let mut i: usize = 0;
    while i < n
        invariant
            n == p@.len(),
            n <= s@.len(),
            0 <= i <= n,
            forall|k: int| 0 <= k < i ==> s@[k] == p@[k],
        decreases n - i,
    {
        if s.get_char(i) != p.get_char(i) {
            assert(s@.subrange(0, n as int)[i as int] != p@[i as int]);
            return false;
        }
        i = i + 1;
    }
    assert(s@.subrange(0, n as int) =~= p@);
    true
}

/// Position of the first `c` in `s`, or its length.
pub fn find_char(s: &str, c: char) -> (r: usize)
    ensures
        r == first_index_of(s@, c),
{
    proof { lemma_first_index_bounds(s@, c); }
    let n = s.unicode_len();
    let mut i: usize = 0;
    while i < n
        invariant
            n == s@.len(),
            0 <= i <= n,
            forall|k: int| 0 <= k < i ==> s@[k] != c,
        decreases n - i,
    {
        if s.get_char(i) == c {
            proof { lemma_first_index_unique(s@, c, i as int); }
            return i;
        }
        i = i + 1;
    }
    proof { lemma_first_index_unique(s@, c, n as int); }
    n
}

/// Splits `s` at the first `sep`: the part before it and the part after it.
pub fn split_once<'a>(s: &'a str, sep: char) -> (r: Option<(&'a str, &'a str)>)
    ensures
        first_index_of(s@, sep) >= s@.len() <==> r is None,
        r matches Some((a, b)) ==> a@ == s@.subrange(0, first_index_of(s@, sep))
            && b@ == s@.subrange(first_index_of(s@, sep) + 1, s@.len() as int),
{
    proof { lemma_first_index_bounds(s@, sep); }
    let i = find_char(s, sep);
    let n = s.unicode_len();
    if i >= n {
        None
    } else {
        Some((s.substring_char(0, i), s.substring_char(i + 1, n)))
    }
}

/// The pieces of `s` between occurrences of `sep`.
pub fn split<'a>(s: &'a str, sep: char) -> (r: Vec<&'a str>)
    ensures
        r@.len() == split_spec(s@, sep).len(),
        forall|k: int| 0 <= k < r@.len() ==> #[trigger] r@[k]@ == split_spec(s@, sep)[k],
{
    let n = s.unicode_len();
    let mut out: Vec<&'a str> = Vec::new();
    let mut start: usize = 0;
    let ghost done: Seq<Seq<char>> = seq![];
    assert(s@.subrange(0, n as int) =~= s@);
    assert(done + split_spec(s@, sep) =~= split_spec(s@, sep));
    loop
        invariant
            n == s@.len(),
            0 <= start <= n,
            out@.len() == done.len(),
            forall|k: int| 0 <= k < out@.len() ==> #[trigger] out@[k]@ == done[k],
            done + split_spec(s@.subrange(start as int, n as int), sep) == split_spec(s@, sep),
        decreases n - start,
    {
        let rest = s.substring_char(start, n);
        let i = find_char(rest, sep);
        proof { lemma_first_index_bounds(rest@, sep); }
        let m = rest.unicode_len();
        if i >= m {
            out.push(rest);
            proof {
                assert(split_spec(rest@, sep) == seq![rest@]);
                done = done.push(rest@);
                assert(done =~= split_spec(s@, sep));
            }
            return out;
        }
        let piece = rest.substring_char(0, i);
        out.push(piece);
        proof {
            let tail = rest@.subrange(i + 1, m as int);
            assert(tail =~= s@.subrange(start + i + 1, n as int));
            assert(split_spec(rest@, sep) == seq![piece@].add(split_spec(tail, sep)));
            assert(seq![piece@].add(split_spec(tail, sep)) =~= seq![piece@] + split_spec(tail, sep));
            assert((done.push(piece@)) + split_spec(tail, sep) =~= done + (seq![piece@] + split_spec(tail, sep)));
            done = done.push(piece@);
        }
        start = start + i + 1;
    }
}

/// `s` without leading and trailing ASCII spaces and tabs.
pub fn trim_blanks<'a>(s: &'a str) -> (r: &'a str)
    ensures
        r@ == trim_spec(s@),
{
    let n = s.unicode_len();
    let mut lo: usize = 0;
    assert(s@.subrange(0, n as int) =~= s@);
    while lo < n && is_blank(s.get_char(lo))
        invariant
            n == s@.len(),
            0 <= lo <= n,
            trim_start_spec(s@) == trim_start_spec(s@.subrange(lo as int, n as int)),
        decreases n - lo,
    {
        proof {
            let t = s@.subrange(lo as int, n as int);
            assert(t.drop_first() =~= s@.subrange(lo + 1, n as int));
        }
        lo = lo + 1;
    }
    let ghost mid = s@.subrange(lo as int, n as int);
    assert(trim_start_spec(mid) == mid);
    let mut hi: usize = n;
    while hi > lo && is_blank(s.get_char(hi - 1))
        invariant
            n == s@.len(),
            0 <= lo <= hi <= n,
            mid == s@.subrange(lo as int, n as int),
            trim_end_spec(mid) == trim_end_spec(s@.subrange(lo as int, hi as int)),
        decreases hi - lo,
    {
        proof {
            let t = s@.subrange(lo as int, hi as int);
            assert(t.drop_last() =~= s@.subrange(lo as int, hi - 1));
        }
        hi = hi - 1;
    }
    s.substring_char(lo, hi)
}

pub open spec fn is_blank_spec(c: char) -> bool {
    c == ' ' || c == '\t'
}

fn is_blank(c: char) -> (r: bool)
    ensures
        r == is_blank_spec(c),
{
    c == ' ' || c == '\t'
}

pub open spec fn trim_start_spec(s: Seq<char>) -> Seq<char>
    decreases s.len(),
{
    if s.len() > 0 && is_blank_spec(s[0]) {
        trim_start_spec(s.drop_first())
    } else {
        s
    }
}

pub open spec fn trim_end_spec(s: Seq<char>) -> Seq<char>
    decreases s.len(),
{
    if s.len() > 0 && is_blank_spec(s.last()) {
        trim_end_spec(s.drop_last())
    } else {
        s
    }
}

/// `s` with blanks removed from both ends.
pub open spec fn trim_spec(s: Seq<char>) -> Seq<char> {
    trim_end_spec(trim_start_spec(s))
}

} // verus!
