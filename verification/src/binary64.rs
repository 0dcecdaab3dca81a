//! Quotients as 64-bit floating point numbers give them, worked out on whole numbers. A number is a
//! fraction: numerator and denominator.

use vstd::prelude::*;

verus! {

/// Two to the power of 52: the significands of the numbers run from here up to twice as much.
pub const LEAST: u128 = 4_503_599_627_370_496;

/// Two to the power of 53.
pub const LIMIT: u128 = 9_007_199_254_740_992;

/// `n / d` to the nearest whole number; a tie goes to the even one.
pub open spec fn nearest(n: nat, d: nat) -> nat {
    let below = n / d;
    let left = n % d;
    if 2 * left > d || 2 * left == d && below % 2 == 1 {
        below + 1
    } else {
        below
    }
}

/// The floating point number next to `n / d`: the quotient is scaled by two until its whole part has
/// 53 bits, rounded, and scaled back.
pub open spec fn stored(n: nat, d: nat) -> (nat, nat)
    decreases
            if n < d * LEAST {
                d * LEAST - n
            } else if n >= d * LIMIT {
                n - d
            } else {
                0
            },
{
    if n == 0 || d == 0 {
        (0, 1)
    } else if n < d * LEAST {
        let scaled = stored(2 * n, d);
        (scaled.0, 2 * scaled.1)
    } else if n >= d * LIMIT {
        let scaled = stored(n, 2 * d);
        (2 * scaled.0, scaled.1)
    } else {
        (nearest(n, d), 1)
    }
}

/// The floating point number next to a whole number, which is whole too.
pub open spec fn stored_whole(n: nat) -> nat {
    if n < LIMIT {
        n
    } else {
        stored(n, 1).0
    }
}

/// A time in seconds: the whole seconds, and added to them the rest.
pub open spec fn seconds(ms: nat) -> (nat, nat) {
    let whole = stored_whole(ms / 1000);
    let rest = stored(ms % 1000, 1000);
    if ms % 1000 == 0 {
        (whole, 1)
    } else if whole == 0 {
        rest
    } else {
        stored(whole * rest.1 + rest.0, rest.1)
    }
}

/// How many tenths of `count / seconds` there are, as the quotient is written with one decimal.
pub open spec fn tenths_per_second(count: nat, ms: nat) -> nat {
    let time = seconds(ms);
    let rate = stored(stored_whole(count) * time.1, time.0);
    nearest(10 * rate.0, rate.1)
}

fn round(n: u128, d: u128) -> (out: u128)
    requires
        d > 0,
        2 * d <= u128::MAX,
        n < u128::MAX,
    ensures
        out == nearest(n as nat, d as nat),
{
    let below: u128 = n / d;
    let left: u128 = n % d;
    assert(below <= n) by (nonlinear_arith)
        requires
            below == n / d,
            d > 0,
    ;
    if 2 * left > d || (2 * left == d && below % 2 == 1) {
        below + 1
    } else {
        below
    }
}

/// What rounding does to the size of a number.
proof fn nearest_is_close(n: nat, d: nat)
    requires
        d > 0,
    ensures
        2 * n <= 2 * (nearest(n, d) * d) + d,
        2 * (nearest(n, d) * d) <= 2 * n + d,
{
    let below = n / d;
    let left = n % d;
    assert(n == below * d + left) by (nonlinear_arith)
        requires
            d > 0,
            below == n / d,
            left == n % d,
    ;
    assert((below + 1) * d == below * d + d) by (nonlinear_arith);
}

fn store(n: u128, d: u128) -> (out: (u128, u128))
    requires
        n > 0,
        d > 0,
        d * LIMIT <= u128::MAX,
        2 * n <= u128::MAX || n < d * LIMIT,
    ensures
        (out.0 as nat, out.1 as nat) == stored(n as nat, d as nat),
        out.0 >= LEAST,
        out.1 >= 1,
        n < d * LIMIT ==> out.0 <= LIMIT,
        n >= d * LEAST ==> out.1 == 1 && (out.0 * d) * LIMIT <= n * (LIMIT + 1),
        n < d * LEAST ==> out.1 * n < d * LIMIT,
    decreases
            if n < d * LEAST {
                d * LEAST - n
            } else if n >= d * LIMIT {
                n - d
            } else {
                0
            },
{
    if n < d * LEAST {
        let scaled = store(2 * n, d);
        proof {
            let den = scaled.1 as int;
            assert((2 * den) * n == den * (2 * n)) by (nonlinear_arith);
            assert(den * (2 * n) < d * LIMIT);
            assert(2 * den <= (2 * den) * n) by (nonlinear_arith)
                requires
                    n >= 1,
                    den >= 1,
            ;
        }
        (scaled.0, 2 * scaled.1)
    } else if n >= d * LIMIT {
        let scaled = store(n, 2 * d);
        proof {
            let num = scaled.0 as int;
            assert((2 * num) * d == num * (2 * d)) by (nonlinear_arith);
            assert(2 * num <= (2 * num) * d) by (nonlinear_arith)
                requires
                    d >= 1,
                    num >= 0,
            ;
        }
        (2 * scaled.0, scaled.1)
    } else {
        let out: u128 = round(n, d);
        proof {
            nearest_is_close(n as nat, d as nat);
            let up = out as int * d;
            assert(out <= LIMIT && out >= LEAST) by (nonlinear_arith)
                requires
                    up == out as int * d,
                    2 * n <= 2 * up + d,
                    2 * up <= 2 * n + d,
                    d * LEAST <= n < d * LIMIT,
                    d > 0,
            ;
            assert(2 * up * LIMIT <= 2 * n * LIMIT + d * LIMIT) by (nonlinear_arith)
                requires
                    2 * up <= 2 * n + d,
            ;
        }
        (out, 1)
    }
}

fn store_whole(n: u64) -> (out: u128)
    ensures
        out == stored_whole(n as nat),
        n > 0 ==> out > 0,
        out * LIMIT <= n * (LIMIT + 1),
{
    if (n as u128) < LIMIT {
        n as u128
    } else {
        let found = store(n as u128, 1);
        found.0
    }
}

fn to_seconds(ms: u64) -> (time: (u128, u128))
    requires
        ms > 0,
    ensures
        (time.0 as nat, time.1 as nat) == seconds(ms as nat),
        0 < time.0 <= 64 * LIMIT,
        0 < time.1 <= 1000 * LIMIT,
        time.1 == 1 || time.0 >= LEAST,
{
    let full: u64 = ms / 1000;
    let whole: u128 = store_whole(full);
    let part: u64 = ms % 1000;
    assert(whole <= 3 * LIMIT) by (nonlinear_arith)
        requires
            whole * LIMIT <= full * (LIMIT + 1),
            0 <= full <= 18_446_744_073_709_551,
    ;
    if part == 0 {
        return (whole, 1);
    }
    let rest = store(part as u128, 1000);
    proof {
        assert(rest.1 <= 1000 * LIMIT) by (nonlinear_arith)
            requires
                rest.1 * part < 1000 * LIMIT,
                part >= 1,
        ;
    }
    if whole == 0 {
        return rest;
    }
    proof {
        assert(whole * rest.1 <= (3 * LIMIT) * (1000 * LIMIT)) by (nonlinear_arith)
            requires
                0 <= whole <= 3 * LIMIT,
                0 <= rest.1 <= 1000 * LIMIT,
        ;
        assert(whole * rest.1 >= rest.1) by (nonlinear_arith)
            requires
                whole >= 1,
                rest.1 >= 0,
        ;
    }
    let sum: u128 = whole * rest.1 + rest.0;
    let time = store(sum, rest.1);
    proof {
        let den = rest.1 as int;
        if sum < den * LEAST {
            assert(time.1 <= 1000 * LIMIT) by (nonlinear_arith)
                requires
                    time.1 * sum < den * LIMIT,
                    sum >= den,
                    den >= 1,
            ;
        }
        if sum >= den * LIMIT {
            assert(time.0 <= 64 * LIMIT) by (nonlinear_arith)
                requires
                    (time.0 * den) * LIMIT <= sum * (LIMIT + 1),
                    sum == whole * den + rest.0,
                    whole <= 3 * LIMIT,
                    rest.0 <= LIMIT,
                    den >= 1,
            ;
        }
    }
    time
}

/// How many tenths there are in so many events a second, as the rate is written with one decimal; at
/// most as many as fit. `ms` is the time that the events took.
pub fn rate_in_tenths(count: usize, ms: u64) -> (tenths: u64)
    requires
        ms > 0,
    ensures
        tenths == crate::number::capped_u64(tenths_per_second(count as nat, ms as nat) as int),
{
    let time = to_seconds(ms);
    if count == 0 {
        assert(stored_whole(0) * time.1 == 0) by (nonlinear_arith)
            requires
                stored_whole(0) == 0,
        ;
        return 0;
    }
    let whole: u128 = store_whole(count as u64);
    proof {
        assert(0 < whole * time.1 && 2 * (whole * time.1) <= u128::MAX) by (nonlinear_arith)
            requires
                0 < whole <= 18_446_744_073_709_553_664,
                0 < time.1 <= 1000 * LIMIT,
        ;
    }
    let scaled: u128 = whole * time.1;
    let rate = store(scaled, time.0);
    proof {
        let num = rate.0 as int;
        let den = time.0 as int;
        if scaled >= den * LEAST {
            if time.1 == 1 {
                assert(num <= 4 * u64::MAX) by (nonlinear_arith)
                    requires
                        (num * den) * LIMIT <= scaled * (LIMIT + 1),
                        den >= 1,
                        scaled <= 2 * u64::MAX,
                        num >= 0,
                ;
            } else {
                assert(num <= u128::MAX / LEAST) by (nonlinear_arith)
                    requires
                        (num * den) * LIMIT <= scaled * (LIMIT + 1),
                        den >= LEAST,
                        2 * scaled <= u128::MAX,
                        num >= 0,
                ;
            }
        } else {
            assert(rate.1 <= 64 * LIMIT * LIMIT) by (nonlinear_arith)
                requires
                    rate.1 * scaled < den * LIMIT,
                    scaled >= 1,
                    den <= 64 * LIMIT,
            ;
        }
    }
    let tenths: u128 = round(10 * rate.0, rate.1);
    if tenths > u64::MAX as u128 {
        u64::MAX
    } else {
        tenths as u64
    }
}

} // verus!
