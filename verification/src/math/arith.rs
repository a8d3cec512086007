use vstd::prelude::*;

verus! {

/// Absolute value of a mathematical integer.
pub open spec fn abs_int(x: int) -> int {
    if x < 0 { -x } else { x }
}

/// Division rounding toward zero, as machine division does.
pub open spec fn tdiv(x: int, d: int) -> int {
    if (x >= 0) == (d > 0) || x == 0 {
        abs_int(x) / abs_int(d)
    } else {
        -(abs_int(x) / abs_int(d))
    }
}

/// Division rounding toward negative infinity.
pub open spec fn fdiv(x: int, d: int) -> int {
    x / d
}

/// Division rounding up, for non-negative operands.
pub open spec fn cdiv(x: int, d: int) -> int {
    if x % d == 0 { x / d } else { x / d + 1 }
}

pub open spec fn min_int(a: int, b: int) -> int {
    if a <= b { a } else { b }
}

pub open spec fn max_int(a: int, b: int) -> int {
    if a >= b { a } else { b }
}

/// `-1`, `0` or `1` after the sign of `x`.
pub open spec fn signum(x: int) -> int {
    if x > 0 { 1 } else if x < 0 { -1 } else { 0 }
}

pub open spec fn is_u64(x: int) -> bool {
    0 <= x <= u64::MAX
}

pub open spec fn is_i64(x: int) -> bool {
    i64::MIN <= x <= i64::MAX
}

pub open spec fn is_u128(x: int) -> bool {
    0 <= x <= u128::MAX
}

pub open spec fn is_i128(x: int) -> bool {
    i128::MIN <= x <= i128::MAX
}

pub open spec fn is_u32(x: int) -> bool {
    0 <= x <= u32::MAX
}

pub open spec fn pow10(n: nat) -> int
    decreases n,
{
    if n == 0 { 1 } else { 10 * pow10((n - 1) as nat) }
}

pub proof fn lemma_pow10_positive(n: nat)
    ensures pow10(n) >= 1,
    decreases n,
{
    if n > 0 {
        lemma_pow10_positive((n - 1) as nat);
    }
}

pub proof fn lemma_pow10_monotone(a: nat, b: nat)
    requires a <= b,
    ensures pow10(a) <= pow10(b),
    decreases b,
{
    lemma_pow10_positive(b);
    if a < b {
        lemma_pow10_monotone(a, (b - 1) as nat);
    }
}

pub proof fn lemma_pow10_38()
    ensures pow10(38) == 100_000_000_000_000_000_000_000_000_000_000_000_000,
{
    reveal_with_fuel(pow10, 39);
}

/// `10^n` for `n <= 38`, which fits in a `u128`.
pub fn pow10_u128(n: u32) -> (r: u128)
    requires n <= 38,
    ensures r == pow10(n as nat),
{
    let mut r: u128 = 1;
    let mut i: u32 = 0;
    while i < n
        invariant
            i <= n <= 38,
            r == pow10(i as nat),
        decreases n - i,
    {
        proof {
            lemma_pow10_monotone((i + 1) as nat, 38);
            lemma_pow10_38();
        }
        r = r * 10;
        i = i + 1;
    }
    r
}

} // verus!

verus! {

/// `|x|` as an unsigned integer; never overflows.
pub fn unsigned_abs_i64(x: i64) -> (r: u64)
    ensures
        r == abs_int(x as int),
{
    if x < 0 {
        ((-(x as i128)) as u64)
    } else {
        x as u64
    }
}

/// `|x|` as an unsigned integer; never overflows.
pub fn unsigned_abs_i128(x: i128) -> (r: u128)
    ensures
        r == abs_int(x as int),
{
    if x < 0 {
        ((-(x + 1)) as u128) + 1
    } else {
        x as u128
    }
}

} // verus!
