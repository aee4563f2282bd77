use vstd::prelude::*;

verus! {

pub open spec fn is_digit(b: u8) -> bool {
    0x30 <= b <= 0x39
}

/// The number that a string of decimal digits spells.
pub open spec fn decimal_value(d: Seq<u8>) -> int
    decreases d.len(),
{
    if d.len() == 0 {
        0
    } else {
        decimal_value(d.drop_last()) * 10 + (d.last() - 0x30)
    }
}

/// `d` is a non-empty string of decimal digits whose value fits in a `u64`.
pub open spec fn is_u64_decimal(d: Seq<u8>) -> bool {
    &&& d.len() > 0
    &&& forall|i: int| 0 <= i < d.len() ==> is_digit(#[trigger] d[i])
    &&& decimal_value(d) <= u64::MAX
}

/// Reads the decimal number spelled by `s[start..end]`: `Some` exactly when
/// those bytes are a non-empty run of digits whose value fits in a `u64`.
pub fn parse_u64_decimal(s: &[u8], start: usize, end: usize) -> (r: Option<u64>)
    requires
        start <= end <= s@.len(),
    ensures
        is_u64_decimal(s@.subrange(start as int, end as int)) ==> r == Some(
            decimal_value(s@.subrange(start as int, end as int)) as u64,
        ),
        !is_u64_decimal(s@.subrange(start as int, end as int)) ==> r is None,
        r matches Some(v) ==> v as int == decimal_value(s@.subrange(start as int, end as int)),
{
    if start == end {
        return None;
    }
    let ghost d = s@.subrange(start as int, end as int);
    let mut acc: u64 = 0;
    let mut j = start;
    while j < end
        invariant
            start <= j <= end <= s@.len(),
            d == s@.subrange(start as int, end as int),
            forall|i: int| start <= i < j ==> is_digit(#[trigger] s@[i]),
            acc as int == decimal_value(s@.subrange(start as int, j as int)),
        decreases end - j,
    {
        let b = s[j];
        proof {
            let p = s@.subrange(start as int, j as int + 1);
            assert(p.drop_last() =~= s@.subrange(start as int, j as int));
            assert(p.last() == b);
        }
        if b < 0x30 || b > 0x39 {
            proof {
                assert(!is_digit(d[j - start]));
            }
            return None;
        }
        let digit = (b - 0x30) as u64;
        proof {
            let p = s@.subrange(start as int, j as int + 1);
            assert(d.subrange(0, j - start + 1) =~= p);
            assert(decimal_value(p) == acc * 10 + digit);
        }
        match acc.checked_mul(10) {
            Some(m) => match m.checked_add(digit) {
                Some(v) => {
                    acc = v;
                },
                None => {
                    proof {
                        lemma_overflow_not_u64(d, (j - start + 1) as nat);
                    }
                    return None;
                },
            },
            None => {
                proof {
                    lemma_overflow_not_u64(d, (j - start + 1) as nat);
                }
                return None;
            },
        }
        j = j + 1;
    }
    proof {
        assert(d =~= s@.subrange(start as int, j as int));
        assert forall|i: int| 0 <= i < d.len() implies is_digit(#[trigger] d[i]) by {
            assert(d[i] == s@[start + i]);
        }
    }
    Some(acc)
}

/// Digits whose prefix of length `n` is already worth more than `u64::MAX`
/// spell no `u64`.
proof fn lemma_overflow_not_u64(d: Seq<u8>, n: nat)
    requires
        0 < n <= d.len(),
        decimal_value(d.subrange(0, n as int)) > u64::MAX,
    ensures
        !is_u64_decimal(d),
{
    if forall|i: int| 0 <= i < d.len() ==> is_digit(#[trigger] d[i]) {
        lemma_prefix_bounds_value(d, n);
    }
}

/// A string of digits is worth at least what any prefix of it is worth.
proof fn lemma_prefix_bounds_value(d: Seq<u8>, n: nat)
    requires
        n <= d.len(),
        forall|i: int| 0 <= i < d.len() ==> is_digit(#[trigger] d[i]),
    ensures
        decimal_value(d.subrange(0, n as int)) <= decimal_value(d),
    decreases d.len(),
{
    if n < d.len() {
        let e = d.drop_last();
        assert forall|i: int| 0 <= i < e.len() implies is_digit(#[trigger] e[i]) by {
            assert(e[i] == d[i]);
        }
        lemma_prefix_bounds_value(e, n);
        assert(e.subrange(0, n as int) =~= d.subrange(0, n as int));
        assert(decimal_value(e) >= 0) by {
            lemma_value_nonnegative(e);
        }
    } else {
        assert(d.subrange(0, n as int) =~= d);
    }
}

proof fn lemma_value_nonnegative(d: Seq<u8>)
    requires
        forall|i: int| 0 <= i < d.len() ==> is_digit(#[trigger] d[i]),
    ensures
        decimal_value(d) >= 0,
    decreases d.len(),
{
    if d.len() > 0 {
        let e = d.drop_last();
        assert forall|i: int| 0 <= i < e.len() implies is_digit(#[trigger] e[i]) by {
            assert(e[i] == d[i]);
        }
        lemma_value_nonnegative(e);
        assert(is_digit(d[d.len() - 1]));
    }
}

} // verus!
