use vstd::prelude::*;

verus! {

/// ASCII digit byte for a value below ten.
pub open spec fn digit_byte(d: nat) -> u8
    recommends
        d < 10,
{
    (48 + d) as u8
}

/// Shortest decimal rendering of `n` as ASCII bytes, most significant digit first.
pub open spec fn decimal_digits(n: nat) -> Seq<u8>
    decreases n,
{
    if n < 10 {
        seq![digit_byte(n)]
    } else {
        decimal_digits(n / 10).push(digit_byte(n % 10))
    }
}

/// Appends the decimal rendering of `n` to `out`.
pub fn push_decimal(out: &mut Vec<u8>, n: u64)
    ensures
        final(out)@ == old(out)@ + decimal_digits(n as nat),
    decreases n,
{
    if n >= 10 {
        push_decimal(out, n / 10);
    }
    out.push(48u8 + (n % 10) as u8);
    assert(final(out)@ =~= old(out)@ + decimal_digits(n as nat));
}

} // verus!

verus! {

/// `10^k`.
pub open spec fn pow10(k: nat) -> nat
    decreases k,
{
    if k == 0 {
        1
    } else {
        10 * pow10((k - 1) as nat)
    }
}

/// A value below `10^k` (with `k >= 1`) renders in at most `k` digits.
pub proof fn lemma_decimal_digits_len(n: nat, k: nat)
    requires
        k >= 1,
        n < pow10(k),
    ensures
        decimal_digits(n).len() <= k,
        decimal_digits(n).len() >= 1,
    decreases n,
{
    if n >= 10 {
        assert(k >= 2) by {
            if k == 1 {
                assert(pow10(1) == 10) by {
                    reveal_with_fuel(pow10, 2);
                }
            }
        }
        assert(n / 10 < pow10((k - 1) as nat)) by (nonlinear_arith)
            requires
                n < pow10(k),
                pow10(k) == 10 * pow10((k - 1) as nat),
        ;
        lemma_decimal_digits_len(n / 10, (k - 1) as nat);
    }
}

/// A `u32` renders in at most ten digits.
pub proof fn lemma_u32_digits_len(n: u32)
    ensures
        1 <= decimal_digits(n as nat).len() <= 10,
{
    assert(pow10(10) == 10000000000nat) by {
        reveal_with_fuel(pow10, 11);
    }
    lemma_decimal_digits_len(n as nat, 10);
}

/// A `u8` renders in at most three digits.
pub proof fn lemma_u8_digits_len(n: u8)
    ensures
        1 <= decimal_digits(n as nat).len() <= 3,
{
    assert(pow10(3) == 1000nat) by {
        reveal_with_fuel(pow10, 4);
    }
    lemma_decimal_digits_len(n as nat, 3);
}

} // verus!
