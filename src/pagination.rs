use vstd::prelude::*;
use crate::text::{char_from, find_char, find_text, first_occurrence, piece_from};

verus! {

pub open spec fn is_digit(c: char) -> bool {
    '0' <= c && c <= '9'
}

pub open spec fn all_digits(d: Seq<char>) -> bool {
    forall|i: int| 0 <= i < d.len() ==> is_digit(#[trigger] d[i])
}

/// The number that a string of decimal digits writes.
pub open spec fn digits_value(d: Seq<char>) -> int
    decreases d.len(),
{
    if d.len() == 0 {
        0
    } else {
        digits_value(d.drop_last()) * 10 + (d.last() as u32 - '0' as u32)
    }
}

/// What `str::parse::<u32>` accepts: an optional `+`, then one or more
/// decimal digits that write a number no larger than `u32::MAX`.
pub open spec fn parse_u32_spec(s: Seq<char>) -> Option<u32> {
    let d = if s.len() > 0 && s[0] == '+' {
        s.drop_first()
    } else {
        s
    };
    if d.len() > 0 && all_digits(d) && digits_value(d) <= u32::MAX {
        Some(digits_value(d) as u32)
    } else {
        None
    }
}

proof fn lemma_digits_value_prefix(d: Seq<char>, k: int)
    requires
        all_digits(d),
        0 <= k <= d.len(),
    ensures
        0 <= digits_value(d.subrange(0, k)) <= digits_value(d),
    decreases d.len(),
{
    if d.len() > 0 {
        if k == d.len() {
            assert(d.subrange(0, k) == d);
        } else {
            assert(d.drop_last().subrange(0, k) == d.subrange(0, k));
            assert(all_digits(d.drop_last()));
            lemma_digits_value_prefix(d.drop_last(), k);
        }
        lemma_digits_value_prefix(d.drop_last(), d.len() - 1);
        assert(d.drop_last().subrange(0, d.len() - 1) == d.drop_last());
        assert(is_digit(d[d.len() - 1]));
    } else {
        assert(d.subrange(0, k) =~= d);
    }
}

/// Reads a decimal number as `str::parse::<u32>` does.
pub fn parse_u32(s: &str) -> (r: Option<u32>)
    ensures
        r == parse_u32_spec(s@),
{
    let n = s.unicode_len();
    let start: usize = if n > 0 && s.get_char(0) == '+' {
        1
    } else {
        0
    };
    let ghost d = if s@.len() > 0 && s@[0] == '+' {
        s@.drop_first()
    } else {
        s@
    };
    assert(d == s@.subrange(start as int, n as int));
    assert(parse_u32_spec(s@) == if d.len() > 0 && all_digits(d) && digits_value(d) <= u32::MAX {
        Some(digits_value(d) as u32)
    } else {
        None
    });
    if start >= n {
        return None;
    }
    let mut acc: u64 = 0;
    let mut i: usize = start;
    while i < n
        invariant
            n == s@.len(),
            start <= i <= n,
            d == s@.subrange(start as int, n as int),
            parse_u32_spec(s@) == if d.len() > 0 && all_digits(d) && digits_value(d) <= u32::MAX {
                Some(digits_value(d) as u32)
            } else {
                None
            },
            all_digits(d.subrange(0, i - start)),
            acc == digits_value(d.subrange(0, i - start)),
            acc <= u32::MAX,
        decreases n - i,
    {
        let c = s.get_char(i);
        assert(d[i - start] == c);
        if c < '0' || c > '9' {
            proof {
                if all_digits(d) {
                    assert(is_digit(d[(i - start) as int]));
                }
            }
            assert(!all_digits(d));
            return None;
        }
        let next: u64 = acc * 10 + (c as u32 - '0' as u32) as u64;
        let ghost pre = d.subrange(0, i - start);
        let ghost ext = d.subrange(0, i + 1 - start);
        assert(ext.drop_last() == pre);
        assert(ext.last() == c);
        assert(next == digits_value(ext));
        assert(all_digits(ext)) by {
            assert forall|j: int| 0 <= j < ext.len() implies is_digit(#[trigger] ext[j]) by {
                if j < pre.len() {
                    assert(ext[j] == pre[j]);
                }
            }
        }
        if next > u32::MAX as u64 {
            proof {
                if all_digits(d) {
                    lemma_digits_value_prefix(d, i + 1 - start);
                    assert(digits_value(d) > u32::MAX);
                }
            }
            assert(parse_u32_spec(s@) is None);
            return None;
        }
        acc = next;
        i = i + 1;
    }
    assert(d.subrange(0, n - start) == d);
    Some(acc as u32)
}

/// The page count that a pagination `link` header announces: its second
/// comma-separated entry holds the last page's URL, whose `&page=` value
/// runs up to the closing `>`.
pub open spec fn page_count_spec(link: Seq<char>) -> Option<u32> {
    match piece_from(link, ',', 0, 1) {
        None => None,
        Some(entry) => match first_occurrence(entry, "&page="@, 0) {
            None => None,
            Some(i) => {
                let j = char_from(entry, '>', 0);
                if j >= entry.len() || i + "&page="@.len() > j {
                    None
                } else {
                    parse_u32_spec(entry.subrange(i + "&page="@.len(), j))
                }
            },
        },
    }
}

/// Reads the page count from a pagination `link` header.
pub fn page_count_from_link(link: &str) -> (r: Option<u32>)
    ensures
        r == page_count_spec(link@),
{
    let n = link.unicode_len();
    let e0 = find_char(link, ',', 0);
    if e0 >= n {
        return None;
    }
    let e1 = find_char(link, ',', e0 + 1);
    assert(piece_from(link@, ',', 0, 1) == piece_from(link@, ',', e0 + 1, 0));
    let entry = link.substring_char(e0 + 1, e1);
    let marker = "&page=";
    let at = match find_text(entry, marker) {
        Some(i) => i,
        None => {
            return None;
        },
    };
    let close = find_char(entry, '>', 0);
    let m = marker.unicode_len();
    if close >= entry.unicode_len() || at > close || m > close - at {
        return None;
    }
    parse_u32(entry.substring_char(at + m, close))
}

/// The page count of a listing whose response has no pagination `link`
/// header: everything fits on one page, which is empty or not.
pub fn pages_without_link(listing_len: usize) -> (r: u32)
    ensures
        r == if listing_len > 0 {
            1u32
        } else {
            0u32
        },
{
    if listing_len > 0 {
        1
    } else {
        0
    }
}

} // verus!
