use vstd::prelude::*;

verus! {

/// ASCII code of `'0'`.
pub const DIGIT_ZERO: u8 = 48;

pub open spec fn is_digit(b: u8) -> bool {
    DIGIT_ZERO <= b <= DIGIT_ZERO + 9
}

pub open spec fn all_digits(s: Seq<u8>) -> bool {
    forall|i: int| 0 <= i < s.len() ==> is_digit(#[trigger] s[i])
}

/// The number that a run of ASCII digits spells, most significant first.
pub open spec fn digits_value(s: Seq<u8>) -> nat
    decreases s.len(),
{
    if s.len() == 0 {
        0
    } else {
        digits_value(s.drop_last()) * 10 + (s.last() - DIGIT_ZERO) as nat
    }
}

/// The shortest decimal spelling of `n`.
pub open spec fn decimal(n: nat) -> Seq<u8>
    decreases n,
{
    if n < 10 {
        seq![(n + DIGIT_ZERO) as u8]
    } else {
        decimal(n / 10).push((n % 10 + DIGIT_ZERO) as u8)
    }
}

/// How many ASCII digits `s` starts with.
pub open spec fn digit_run(s: Seq<u8>) -> nat
    decreases s.len(),
{
    if s.len() > 0 && is_digit(s[0]) {
        1 + digit_run(s.drop_first())
    } else {
        0
    }
}

pub proof fn lemma_decimal(n: nat)
    ensures
        decimal(n).len() >= 1,
        all_digits(decimal(n)),
        digits_value(decimal(n)) == n,
    decreases n,
{
    let d = decimal(n);
    if n >= 10 {
        lemma_decimal(n / 10);
        assert(d.drop_last() == decimal(n / 10));
        assert(d.last() == (n % 10 + DIGIT_ZERO) as u8);
        assert((n / 10) * 10 + n % 10 == n);
        assert(digits_value(d) == digits_value(d.drop_last()) * 10 + (n % 10));
    } else {
        assert(d.drop_last() =~= Seq::<u8>::empty());
        assert(digits_value(d.drop_last()) == 0);
        assert(d.last() == (n + DIGIT_ZERO) as u8);
        assert(digits_value(d) == n);
    }
}

pub proof fn lemma_digit_run_of_prefix(d: Seq<u8>, rest: Seq<u8>)
    requires
        all_digits(d),
        rest.len() > 0,
        !is_digit(rest[0]),
    ensures
        digit_run(d + rest) == d.len(),
    decreases d.len(),
{
    if d.len() == 0 {
        assert(d + rest == rest);
    } else {
        assert((d + rest).drop_first() == d.drop_first() + rest);
        lemma_digit_run_of_prefix(d.drop_first(), rest);
    }
}

/// Appends the decimal spelling of `n` to `out`.
pub fn push_decimal(n: u64, out: &mut Vec<u8>)
    ensures
        final(out)@ == old(out)@ + decimal(n as nat),
    decreases n,
{
    if n >= 10 {
        push_decimal(n / 10, out);
    }
    out.push((n % 10) as u8 + DIGIT_ZERO);
    proof {
        assert(old(out)@ + decimal(n as nat) == (old(out)@ + decimal(n as nat).drop_last()).push(
            decimal(n as nat).last(),
        ));
    }
}

/// Reads the digits that `s` starts with. Returns how many there are and,
/// when it fits in a `u64`, the number they spell.
pub fn leading_number(s: &[u8]) -> (r: (usize, Option<u64>))
    ensures
        r.0 == digit_run(s@),
        r.1 == (if digits_value(s@.subrange(0, r.0 as int)) <= u64::MAX {
            Some(digits_value(s@.subrange(0, r.0 as int)) as u64)
        } else {
            None
        }),
{
    let mut i: usize = 0;
    let mut acc: u64 = 0;
    let mut overflow: bool = false;
    assert(s@.subrange(0, s@.len() as int) == s@);
    while i < s.len() && DIGIT_ZERO <= s[i] && s[i] <= DIGIT_ZERO + 9
        invariant
            i <= s@.len(),
            digit_run(s@) == i + digit_run(s@.subrange(i as int, s@.len() as int)),
            !overflow ==> acc == digits_value(s@.subrange(0, i as int)),
            overflow ==> digits_value(s@.subrange(0, i as int)) > u64::MAX,
        decreases s@.len() - i,
    {
        let d: u8 = s[i] - DIGIT_ZERO;
        let ghost prev = digits_value(s@.subrange(0, i as int));
        proof {
            let tail = s@.subrange(i as int, s@.len() as int);
            assert(tail.drop_first() == s@.subrange(i + 1, s@.len() as int));
            assert(s@.subrange(0, i + 1).drop_last() == s@.subrange(0, i as int));
            assert(digits_value(s@.subrange(0, i + 1)) == prev * 10 + d as nat);
        }
        if !overflow {
            if acc > (u64::MAX - d as u64) / 10 {
                overflow = true;
                proof {
                    assert(acc * 10 + d > u64::MAX) by (nonlinear_arith)
                        requires
                            acc > (u64::MAX - d as u64) / 10,
                            d <= 9,
                    ;
                }
            } else {
                proof {
                    assert(acc * 10 + d <= u64::MAX) by (nonlinear_arith)
                        requires
                            acc <= (u64::MAX - d as u64) / 10,
                            d <= 9,
                    ;
                }
                acc = acc * 10 + d as u64;
            }
        } else {
            proof {
                assert(prev * 10 + d as nat >= prev) by (nonlinear_arith);
            }
        }
        i = i + 1;
    }
    proof {
        let tail = s@.subrange(i as int, s@.len() as int);
        if tail.len() > 0 {
            assert(tail[0] == s@[i as int]);
        }
    }
    if overflow {
        (i, None)
    } else {
        (i, Some(acc))
    }
}

} // verus!
