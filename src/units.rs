use vstd::prelude::*;

verus! {

/// Ten to the power `n`.
pub open spec fn pow10(n: nat) -> nat
    decreases n,
{
    if n == 0 {
        1
    } else {
        10 * pow10((n - 1) as nat)
    }
}

/// A token quantity given in whole tokens, expressed in base units of a mint
/// with `decimals` digits of precision; `None` when either `10^decimals` or
/// the product does not fit in 64 bits.
pub open spec fn scaled(amount: u64, decimals: u8) -> Option<u64> {
    if pow10(decimals as nat) <= u64::MAX && amount * pow10(decimals as nat) <= u64::MAX {
        Some((amount * pow10(decimals as nat)) as u64)
    } else {
        None
    }
}

pub proof fn lemma_pow10_positive(n: nat)
    ensures
        pow10(n) >= 1,
    decreases n,
{
    if n > 0 {
        lemma_pow10_positive((n - 1) as nat);
    }
}

pub proof fn lemma_pow10_monotonic(m: nat, n: nat)
    requires
        m <= n,
    ensures
        pow10(m) <= pow10(n),
    decreases n - m,
{
    if m < n {
        lemma_pow10_monotonic(m, (n - 1) as nat);
        lemma_pow10_positive((n - 1) as nat);
    }
}

/// `10^decimals`, or `None` when it does not fit in 64 bits.
pub fn decimal_factor(decimals: u8) -> (r: Option<u64>)
    ensures
        r == (if pow10(decimals as nat) <= u64::MAX {
            Some(pow10(decimals as nat) as u64)
        } else {
            None
        }),
{
    let mut factor: u64 = 1;
    let mut i: u8 = 0;
    while i < decimals
        invariant
            i <= decimals,
            factor as nat == pow10(i as nat),
        decreases decimals - i,
    {
        match factor.checked_mul(10) {
            Some(f) => {
                factor = f;
                i = i + 1;
            },
            None => {
                proof {
                    lemma_pow10_monotonic((i + 1) as nat, decimals as nat);
                }
                return None;
            },
        }
    }
    Some(factor)
}

/// Converts a quantity of whole tokens into base units of a mint with
/// `decimals` digits of precision, failing on overflow.
pub fn scale_to_base_units(amount: u64, decimals: u8) -> (r: Option<u64>)
    ensures
        r == scaled(amount, decimals),
{
    match decimal_factor(decimals) {
        Some(factor) => amount.checked_mul(factor),
        None => None,
    }
}

} // verus!
