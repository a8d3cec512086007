use vstd::prelude::*;

verus! {

/// Weights of an index fund's assets are given in hundredths of a percent: the whole fund is
/// this many.
pub const TOTAL_WEIGHT: u16 = 10000;

/// The weight of each asset when `num_assets` assets share the fund equally, in hundredths of a
/// percent and rounded down.
pub fn equal_weight(num_assets: u16) -> (r: u16)
    requires
        num_assets > 0,
    ensures
        r == TOTAL_WEIGHT / num_assets,
        r * num_assets <= TOTAL_WEIGHT < (r + 1) * num_assets,
{
    let r = TOTAL_WEIGHT / num_assets;
    proof {
        let n = num_assets as int;
        let t = TOTAL_WEIGHT as int;
        assert(r * n <= t < (r + 1) * n) by (nonlinear_arith)
            requires r == t / n, n > 0, t >= 0;
    }
    r
}

} // verus!
