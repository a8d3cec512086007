use vstd::prelude::*;

verus! {

/// The lowest tick index of a pool.
pub const MIN_TICK_INDEX: i32 = -443636;
/// The highest tick index of a pool.
pub const MAX_TICK_INDEX: i32 = 443636;
/// From this tick spacing on, a pool only takes full range positions.
pub const FULL_RANGE_ONLY_TICK_SPACING_THRESHOLD: u16 = 32768;

pub open spec fn spec_is_usable_tick(tick_index: i32, tick_spacing: u16) -> bool {
    &&& MIN_TICK_INDEX <= tick_index <= MAX_TICK_INDEX
    &&& tick_spacing != 0
    &&& tick_index as int % tick_spacing as int == 0
}

/// A tick can bound a position when it is within the pool's range and a multiple of the spacing.
pub fn check_is_usable_tick(tick_index: i32, tick_spacing: u16) -> (r: bool)
    ensures
        r == spec_is_usable_tick(tick_index, tick_spacing),
{
    if tick_index < MIN_TICK_INDEX || tick_index > MAX_TICK_INDEX || tick_spacing == 0 {
        return false;
    }
    let a: u32 = if tick_index < 0 { (-tick_index) as u32 } else { tick_index as u32 };
    let rem = a % (tick_spacing as u32);
    proof {
        lemma_negation_keeps_divisibility(tick_index as int, tick_spacing as int);
    }
    rem == 0
}

proof fn lemma_negation_keeps_divisibility(x: int, d: int)
    requires
        d > 0,
    ensures
        (x % d == 0) == ((-x) % d == 0),
{
    vstd::arithmetic::div_mod::lemma_fundamental_div_mod(x, d);
    vstd::arithmetic::div_mod::lemma_fundamental_div_mod(-x, d);
    if x % d == 0 {
        assert(-x == (-(x / d)) * d) by (nonlinear_arith) requires x == d * (x / d) + x % d, x % d == 0;
        vstd::arithmetic::div_mod::lemma_mod_multiples_basic(-(x / d), d);
    }
    if (-x) % d == 0 {
        assert(x == (-((-x) / d)) * d) by (nonlinear_arith) requires -x == d * ((-x) / d) + (-x) % d, (-x) % d == 0;
        vstd::arithmetic::div_mod::lemma_mod_multiples_basic(-((-x) / d), d);
    }
}

/// The lowest and highest ticks that are multiples of the spacing: the full range.
pub open spec fn spec_full_range_indexes(tick_spacing: u16) -> (int, int) {
    (-((443636int / tick_spacing as int) * tick_spacing), (443636int / tick_spacing as int) * tick_spacing)
}

pub fn full_range_indexes(tick_spacing: u16) -> (r: (i32, i32))
    requires
        tick_spacing > 0,
    ensures
        r.0 == spec_full_range_indexes(tick_spacing).0,
        r.1 == spec_full_range_indexes(tick_spacing).1,
{
    let spacing = tick_spacing as i32;
    let steps_down: i32 = (-MIN_TICK_INDEX) / spacing;
    let steps_up: i32 = MAX_TICK_INDEX / spacing;
    proof {
        assert(steps_down * spacing <= 443636) by (nonlinear_arith)
            requires steps_down == 443636i32 / spacing, spacing > 0;
        assert(steps_up * spacing <= 443636) by (nonlinear_arith)
            requires steps_up == 443636i32 / spacing, spacing > 0;
        assert(steps_down >= 0 && steps_up >= 0) by (nonlinear_arith)
            requires steps_down == 443636i32 / spacing, steps_up == 443636i32 / spacing, spacing > 0;
        assert(steps_down * spacing >= 0) by (nonlinear_arith)
            requires steps_down >= 0, spacing > 0;
    }
    (-(steps_down * spacing), steps_up * spacing)
}

} // verus!
