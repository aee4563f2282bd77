use vstd::prelude::*;

use crate::decimal::{decimal_value, is_u64_decimal, parse_u64_decimal};

verus! {

/// An ASCII whitespace byte: space, tab, line feed, vertical tab, form feed or
/// carriage return.
pub open spec fn is_space(b: u8) -> bool {
    b == 0x20 || b == 0x09 || b == 0x0a || b == 0x0b || b == 0x0c || b == 0x0d
}

/// The first index at or after `i` that holds no whitespace, or the length.
pub open spec fn skip_space(s: Seq<u8>, i: nat) -> nat
    decreases s.len() - i,
{
    if i < s.len() && is_space(s[i as int]) {
        skip_space(s, i + 1)
    } else {
        i
    }
}

/// The first index at or after `i` that holds whitespace, or the length.
pub open spec fn token_end(s: Seq<u8>, i: nat) -> nat
    decreases s.len() - i,
{
    if i < s.len() && !is_space(s[i as int]) {
        token_end(s, i + 1)
    } else {
        i
    }
}

/// Where the whitespace-separated field number `k` (from zero) starts; the
/// length of `s` when `s` has no such field.
pub open spec fn field_start(s: Seq<u8>, k: nat) -> nat
    decreases k,
{
    if k == 0 {
        skip_space(s, 0)
    } else {
        skip_space(s, token_end(s, field_start(s, (k - 1) as nat)))
    }
}

/// The whitespace-separated field number `k` of `s`, if there is one.
pub open spec fn field(s: Seq<u8>, k: nat) -> Option<Seq<u8>> {
    let start = field_start(s, k);
    if start < s.len() {
        Some(s.subrange(start as int, token_end(s, start) as int))
    } else {
        None
    }
}

/// The read and write operation counts of a block-device stat record: its
/// first and fifth fields, as decimal numbers.
pub open spec fn device_stats(s: Seq<u8>) -> Option<(u64, u64)> {
    match (field(s, 0), field(s, 4)) {
        (Some(r), Some(w)) => if is_u64_decimal(r) && is_u64_decimal(w) {
            Some((decimal_value(r) as u64, decimal_value(w) as u64))
        } else {
            None
        },
        _ => None,
    }
}

fn skip_space_from(s: &[u8], i: usize) -> (r: usize)
    requires
        i <= s@.len(),
    ensures
        r == skip_space(s@, i as nat),
        i <= r <= s@.len(),
{
    let mut j = i;
    while j < s.len() && (s[j] == 0x20 || s[j] == 0x09 || s[j] == 0x0a || s[j] == 0x0b || s[j]
        == 0x0c || s[j] == 0x0d)
        invariant
            i <= j <= s@.len(),
            skip_space(s@, i as nat) == skip_space(s@, j as nat),
        decreases s@.len() - j,
    {
        j = j + 1;
    }
    j
}

fn token_end_from(s: &[u8], i: usize) -> (r: usize)
    requires
        i <= s@.len(),
    ensures
        r == token_end(s@, i as nat),
        i <= r <= s@.len(),
{
    let mut j = i;
    while j < s.len() && !(s[j] == 0x20 || s[j] == 0x09 || s[j] == 0x0a || s[j] == 0x0b || s[j]
        == 0x0c || s[j] == 0x0d)
        invariant
            i <= j <= s@.len(),
            token_end(s@, i as nat) == token_end(s@, j as nat),
        decreases s@.len() - j,
    {
        j = j + 1;
    }
    j
}

/// Locates the whitespace-separated field number `k` of `s`: `Some((start, end))`
/// exactly when it exists.
pub fn find_field(s: &[u8], k: usize) -> (r: Option<(usize, usize)>)
    ensures
        match field(s@, k as nat) {
            Some(f) => r matches Some(p) && p.0 <= p.1 <= s@.len() && s@.subrange(
                p.0 as int,
                p.1 as int,
            ) == f,
            None => r is None,
        },
{
    let mut start = skip_space_from(s, 0);
    let mut n: usize = 0;
    while n < k
        invariant
            n <= k,
            start == field_start(s@, n as nat),
            start <= s@.len(),
        decreases k - n,
    {
        let end = token_end_from(s, start);
        start = skip_space_from(s, end);
        n = n + 1;
    }
    if start < s.len() {
        let end = token_end_from(s, start);
        Some((start, end))
    } else {
        None
    }
}

/// Parses a block-device stat record into its read and write operation counts.
pub fn parse_device_stats(content: &[u8]) -> (r: Option<(u64, u64)>)
    ensures
        r == device_stats(content@),
{
    let reads = match find_field(content, 0) {
        Some(p) => p,
        None => return None,
    };
    let writes = match find_field(content, 4) {
        Some(p) => p,
        None => return None,
    };
    let r = parse_u64_decimal(content, reads.0, reads.1);
    let w = parse_u64_decimal(content, writes.0, writes.1);
    match (r, w) {
        (Some(r), Some(w)) => Some((r, w)),
        _ => None,
    }
}

} // verus!
