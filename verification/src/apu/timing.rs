use vstd::prelude::*;

verus! {

/// How many times a countdown timer that stands at `timer` (after the elapsed
/// cycles were taken off) expires when each expiry reloads it by `period`.
pub open spec fn expirations(timer: int, period: int) -> int
    recommends
        period > 0,
{
    if timer > 0 { 0 } else { (-timer) / period + 1 }
}

/// A countdown that was reloaded `n` times and ended above zero, having been
/// at or below zero before the last reload, was reloaded exactly
/// `expirations` times.
pub proof fn lemma_expirations(timer: int, period: int, n: int)
    requires
        period > 0,
        n >= 0,
        timer + n * period > 0,
        n == 0 ==> timer > 0,
        n > 0 ==> timer + (n - 1) * period <= 0,
    ensures
        n == expirations(timer, period),
{
    if n > 0 {
        let x = -timer;
        assert(x / period == n - 1) by (nonlinear_arith)
            requires
                x >= (n - 1) * period,
                x < n * period,
                period > 0,
                n > 0,
        {
            assert((n - 1) * period <= x);
            vstd::arithmetic::div_mod::lemma_fundamental_div_mod(x, period);
        }
    }
}

} // verus!
