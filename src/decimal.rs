//! ASCII decimal numbers, as they appear in headers and replies.

use vstd::prelude::*;

verus! {

pub open spec fn is_digit(b: u8) -> bool {
    0x30 <= b <= 0x39
}

pub open spec fn all_digits(s: Seq<u8>) -> bool {
    forall|i: int| 0 <= i < s.len() ==> is_digit(#[trigger] s[i])
}

/// The value of a string of decimal digits.
pub open spec fn decimal_value(s: Seq<u8>) -> nat
    decreases s.len(),
{
    if s.len() == 0 {
        0
    } else {
        decimal_value(s.drop_last()) * 10 + (s.last() - 0x30) as nat
    }
}

/// The digits of `s` once an optional leading `+` is dropped.
pub open spec fn unsigned_digits(s: Seq<u8>) -> Seq<u8> {
    if s.len() > 0 && s[0] == 0x2B {
        s.drop_first()
    } else {
        s
    }
}

/// What reading `s` as an unsigned decimal below `limit` gives: an optional `+`,
/// then at least one digit and nothing else.
pub open spec fn parse_unsigned(s: Seq<u8>, limit: nat) -> Option<nat> {
    let d = unsigned_digits(s);
    if d.len() > 0 && all_digits(d) && decimal_value(d) < limit {
        Some(decimal_value(d))
    } else {
        None
    }
}

/// The shortest decimal representation of `n`.
pub open spec fn decimal_digits(n: nat) -> Seq<u8>
    decreases n,
{
    if n < 10 {
        seq![(0x30 + n) as u8]
    } else {
        decimal_digits(n / 10).push((0x30 + n % 10) as u8)
    }
}

/// The digits of `n` are digits, start with no `+`, and read back as `n`.
pub proof fn lemma_decimal_digits(n: nat)
    ensures
        decimal_digits(n).len() > 0,
        all_digits(decimal_digits(n)),
        decimal_value(decimal_digits(n)) == n,
        unsigned_digits(decimal_digits(n)) == decimal_digits(n),
    decreases n,
{
    let d = decimal_digits(n);
    if n >= 10 {
        lemma_decimal_digits(n / 10);
        assert(d.drop_last() =~= decimal_digits(n / 10));
        assert forall|i: int| 0 <= i < d.len() implies is_digit(#[trigger] d[i]) by {
            if i < d.len() - 1 {
                assert(d[i] == decimal_digits(n / 10)[i]);
            }
        }
        assert(d[0] == decimal_digits(n / 10)[0]);
        assert(d.last() == (0x30 + n % 10) as u8);
        assert((d.last() - 0x30) as nat == n % 10);
        assert(n == (n / 10) * 10 + n % 10);
    } else {
        assert(d.drop_last() =~= Seq::<u8>::empty());
        assert(decimal_value(d.drop_last()) == 0);
        assert(d.last() == (0x30 + n) as u8);
    }
}

/// Reads `s[start..end]` as an unsigned decimal that fits in a `u64`.
pub fn parse_u64(s: &[u8], start: usize, end: usize) -> (r: Option<u64>)
    requires
        start <= end <= s@.len(),
    ensures
        r matches Some(v) ==> parse_unsigned(s@.subrange(start as int, end as int), 0x1_0000_0000_0000_0000) == Some(v as nat),
        r is None ==> parse_unsigned(s@.subrange(start as int, end as int), 0x1_0000_0000_0000_0000) is None,
{
    let ghost t = s@.subrange(start as int, end as int);
    let mut i: usize = start;
    if i < end && s[i] == 0x2B {
        i = i + 1;
    }
    let ghost d = s@.subrange(i as int, end as int);
    assert(unsigned_digits(t) =~= d);
    if i == end {
        return None;
    }
    let first = i;
    let mut v: u64 = 0;
    let mut overflow = false;
    while i < end
        invariant
            first <= i <= end <= s@.len(),
            d == s@.subrange(first as int, end as int),
            t == s@.subrange(start as int, end as int),
            unsigned_digits(t) == d,
            all_digits(s@.subrange(first as int, i as int)),
            !overflow ==> v as nat == decimal_value(s@.subrange(first as int, i as int)),
            overflow ==> decimal_value(s@.subrange(first as int, i as int)) >= 0x1_0000_0000_0000_0000,
        decreases end - i,
    {
        let ghost prev = s@.subrange(first as int, i as int);
        let ghost next = s@.subrange(first as int, i + 1);
        assert(next.drop_last() =~= prev);
        let b = s[i];
        if b < 0x30 || b > 0x39 {
            assert(d[(i - first) as int] == s@[i as int]);
            assert(!is_digit(d[(i - first) as int]));
            return None;
        }
        let digit = (b - 0x30) as u64;
        if !overflow {
            if v > 1844674407370955161 || (v == 1844674407370955161 && digit > 5) {
                overflow = true;
                assert(decimal_value(next) >= 0x1_0000_0000_0000_0000) by (nonlinear_arith)
                    requires
                        decimal_value(next) == v as nat * 10 + digit,
                        v > 1844674407370955161 || (v == 1844674407370955161 && digit > 5),
                ;
            } else {
                assert(v * 10 + digit < 0x1_0000_0000_0000_0000) by (nonlinear_arith)
                    requires
                        v <= 1844674407370955161,
                        v == 1844674407370955161 ==> digit <= 5,
                        digit <= 9,
                ;
                v = v * 10 + digit;
            }
        } else {
            assert(decimal_value(next) >= decimal_value(prev)) by (nonlinear_arith)
                requires
                    decimal_value(next) == decimal_value(prev) * 10 + digit,
            ;
        }
        i = i + 1;
        assert(all_digits(s@.subrange(first as int, i as int)));
    }
    if overflow {
        None
    } else {
        Some(v)
    }
}

/// Appends the decimal digits of `n` to `out`.
pub fn push_decimal(out: &mut Vec<u8>, n: u64)
    ensures
        final(out)@ == old(out)@ + decimal_digits(n as nat),
    decreases n,
{
    if n >= 10 {
        push_decimal(out, n / 10);
    }
    out.push(0x30 + (n % 10) as u8);
    assert(final(out)@ =~= old(out)@ + decimal_digits(n as nat));
}

} // verus!
