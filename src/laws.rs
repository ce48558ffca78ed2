use vstd::prelude::*;

use crate::minting::{accepts, mint_amount, ten_pow};

verus! {

/// The stored cumulative minutes after each of `reports` is submitted in
/// turn, starting from `stored`: an accepted report replaces the total, a
/// refused one leaves it as it was (as `subscribe_minutes` and `add_minutes`
/// do).
pub open spec fn after_reports(stored: u64, reports: Seq<u64>) -> u64
    decreases reports.len(),
{
    if reports.len() == 0 {
        stored
    } else {
        let prev = after_reports(stored, reports.drop_last());
        if accepts(prev, reports.last()) {
            reports.last()
        } else {
            prev
        }
    }
}

/// A user's lifetime minutes never go down: over any sequence of reports,
/// the stored total after a prefix is at most the total after any longer
/// prefix.
pub proof fn lifetime_minutes_never_decrease(stored: u64, reports: Seq<u64>, i: int, j: int)
    requires
        0 <= i <= j <= reports.len(),
    ensures
        after_reports(stored, reports.take(i)) <= after_reports(stored, reports.take(j)),
    decreases j - i,
{
    if i < j {
        lifetime_minutes_never_decrease(stored, reports, i, j - 1);
        assert(reports.take(j).drop_last() =~= reports.take(j - 1));
    }
}

/// The amount minted for `delta` new minutes is `delta * 10^decimals` when
/// that fits in a `u64`, and `u64::MAX` when it does not.
pub proof fn minted_amount_is_scaled_delta(delta: u64, decimals: u8)
    ensures
        delta * ten_pow(decimals as nat) <= u64::MAX ==> mint_amount(delta, decimals) == delta
            * ten_pow(decimals as nat),
        delta * ten_pow(decimals as nat) > u64::MAX ==> mint_amount(delta, decimals) == u64::MAX,
{
}

} // verus!
