use vstd::prelude::*;

verus! {

/// Whether two strings hold the same characters.
pub fn same_text(a: &str, b: &str) -> (r: bool)
    ensures
        r == (a@ == b@),
{
    let n = a.unicode_len();
    if n != b.unicode_len() {
        return false;
    }
    let mut i: usize = 0;
    while i < n
        invariant
            n == a@.len() == b@.len(),
            i <= n,
            a@.subrange(0, i as int) == b@.subrange(0, i as int),
        decreases n - i,
    {
        if a.get_char(i) != b.get_char(i) {
            return false;
        }
        assert(a@.subrange(0, i + 1) == a@.subrange(0, i as int).push(a@[i as int]));
        assert(b@.subrange(0, i + 1) == b@.subrange(0, i as int).push(b@[i as int]));
        i = i + 1;
    }
    assert(a@ == a@.subrange(0, n as int));
    assert(b@ == b@.subrange(0, n as int));
    true
}

/// Index of the first `c` in `p` at or after `from`, or the length of `p`.
pub open spec fn char_from(p: Seq<char>, c: char, from: int) -> int
    decreases p.len() - from,
{
    if from < 0 || from >= p.len() {
        p.len() as int
    } else if p[from] == c {
        from
    } else {
        char_from(p, c, from + 1)
    }
}

/// Piece `k` of `p` from index `start` on, where the pieces are what lies
/// between the characters `sep`.
pub open spec fn piece_from(p: Seq<char>, sep: char, start: int, k: nat) -> Option<Seq<char>>
    decreases k,
{
    if start < 0 || start > p.len() {
        None
    } else if k == 0 {
        Some(p.subrange(start, char_from(p, sep, start)))
    } else {
        let e = char_from(p, sep, start);
        if e >= p.len() {
            None
        } else {
            piece_from(p, sep, e + 1, (k - 1) as nat)
        }
    }
}

/// Finds the first `c` in `s` at or after `from`.
pub fn find_char(s: &str, c: char, from: usize) -> (r: usize)
    requires
        from <= s@.len(),
    ensures
        r == char_from(s@, c, from as int),
        from <= r <= s@.len(),
{
    let n = s.unicode_len();
    let mut i = from;
    while i < n && s.get_char(i) != c
        invariant
            n == s@.len(),
            from <= i <= n,
            char_from(s@, c, from as int) == char_from(s@, c, i as int),
        decreases n - i,
    {
        i = i + 1;
    }
    i
}

/// Whether `pat` occurs in `p` at index `i`.
pub open spec fn occurs_at(p: Seq<char>, pat: Seq<char>, i: int) -> bool {
    0 <= i && i + pat.len() <= p.len() && p.subrange(i, i + pat.len()) == pat
}

/// Index of the first occurrence of `pat` in `p` at or after `from`.
pub open spec fn first_occurrence(p: Seq<char>, pat: Seq<char>, from: int) -> Option<int>
    decreases p.len() + 1 - from,
{
    if from < 0 || from + pat.len() > p.len() {
        None
    } else if occurs_at(p, pat, from) {
        Some(from)
    } else {
        first_occurrence(p, pat, from + 1)
    }
}

/// Finds the first occurrence of `pat` in `s`.
pub fn find_text(s: &str, pat: &str) -> (r: Option<usize>)
    ensures
        r matches Some(i) ==> first_occurrence(s@, pat@, 0) == Some(i as int),
        r is None ==> first_occurrence(s@, pat@, 0) is None,
{
    let n = s.unicode_len();
    let m = pat.unicode_len();
    if m > n {
        return None;
    }
    if m == 0 {
        assert(s@.subrange(0, 0) == pat@);
        return Some(0);
    }
    let mut i: usize = 0;
    while i <= n - m
        invariant
            n == s@.len(),
            m == pat@.len(),
            0 < m <= n,
            i <= n - m + 1,
            first_occurrence(s@, pat@, 0) == first_occurrence(s@, pat@, i as int),
        decreases n - i,
    {
        if same_text(s.substring_char(i, i + m), pat) {
            return Some(i);
        }
        i = i + 1;
    }
    None
}

} // verus!
