//! Price arithmetic: percentage moves, volatility, validity and staleness.

use vstd::prelude::*;

verus! {

/// Maximum age (in seconds) of a stored rate before consumer reads are rejected.
pub const MAX_RATE_AGE_SECONDS: u64 = 300;

/// Basis points in one whole (100.00%).
pub const BPS_SCALE: i128 = 10_000;

/// Whether a value fits in an `i128`.
pub open spec fn fits_i128(x: int) -> bool {
    i128::MIN <= x <= i128::MAX
}

/// Integer division rounding toward zero, as Rust's `/` on signed integers does.
pub open spec fn trunc_div(a: int, b: int) -> int
    recommends
        b != 0,
{
    if a >= 0 && b > 0 {
        a / b
    } else if a < 0 && b > 0 {
        -((-a) / b)
    } else if a >= 0 && b < 0 {
        -(a / (-b))
    } else {
        (-a) / (-b)
    }
}

/// The signed percentage change from `old` to `new`, in basis points, when it
/// is defined and every intermediate value fits in an `i128`.
pub open spec fn percentage_change_bps(old: int, new: int) -> Option<int> {
    if old == 0 {
        None
    } else if !fits_i128(new - old) {
        None
    } else if !fits_i128((new - old) * 10_000) {
        None
    } else if !fits_i128(trunc_div((new - old) * 10_000, old)) {
        None
    } else {
        Some(trunc_div((new - old) * 10_000, old))
    }
}

/// Absolute value over the integers.
pub open spec fn abs(x: int) -> int {
    if x < 0 {
        -x
    } else {
        x
    }
}

/// `a + b` saturated at `u64::MAX`.
pub open spec fn sat_add_u64(a: u64, b: u64) -> u64 {
    if a + b > u64::MAX {
        u64::MAX
    } else {
        (a + b) as u64
    }
}

/// A price entry whose `ttl` has run out since `stored` is stale at `now`.
pub open spec fn stale(now: u64, stored: u64, ttl: u64) -> bool {
    now >= sat_add_u64(stored, ttl)
}

/// A stored rate older than the hard maximum age must not be served.
pub open spec fn exceeds_max_age(now: u64, stored: u64) -> bool {
    now > sat_add_u64(stored, MAX_RATE_AGE_SECONDS)
}

proof fn lemma_div_le(a: int, b: int)
    by (nonlinear_arith)
    requires
        0 <= a,
        1 <= b,
    ensures
        0 <= a / b <= a,
{
}

proof fn lemma_div_one_eq(a: int, b: int)
    by (nonlinear_arith)
    requires
        0 < a,
        1 <= b,
        a / b == a,
    ensures
        b == 1,
{
}

/// The truncated quotient never has a larger magnitude than the dividend.
proof fn lemma_trunc_div_bounded(a: int, b: int)
    requires
        b != 0,
    ensures
        abs(trunc_div(a, b)) <= abs(a),
        abs(trunc_div(a, b)) == abs(a) && a != 0 ==> (b == 1 || b == -1),
{
    if a >= 0 && b > 0 {
        lemma_div_le(a, b);
        if a > 0 && a / b == a {
            lemma_div_one_eq(a, b);
        }
    } else if a < 0 && b > 0 {
        lemma_div_le(-a, b);
        if (-a) / b == -a {
            lemma_div_one_eq(-a, b);
        }
    } else if a >= 0 && b < 0 {
        lemma_div_le(a, -b);
        if a > 0 && a / (-b) == a {
            lemma_div_one_eq(a, -b);
        }
    } else {
        lemma_div_le(-a, -b);
        if (-a) / (-b) == -a {
            lemma_div_one_eq(-a, -b);
        }
    }
}

/// A percentage change is never `i128::MIN`, so its absolute value always fits.
pub proof fn lemma_percentage_change_not_min(old: int, new: int)
    requires
        percentage_change_bps(old, new) is Some,
    ensures
        percentage_change_bps(old, new).unwrap() > i128::MIN,
{
    let s = (new - old) * 10_000;
    lemma_trunc_div_bounded(s, old);
    if trunc_div(s, old) == i128::MIN {
        assert(abs(s) >= abs(trunc_div(s, old)));
        assert(s == i128::MIN);
        assert(false);
    }
}

/// Returns the signed percentage change in basis points.
///
/// Example: 1_000_000 -> 1_200_000 returns 2_000 (20.00%); 1_000_000 -> 800_000
/// returns -2_000. Returns `None` when `old_price` is zero because the change
/// is undefined, or when an intermediate value overflows.
pub fn calculate_percentage_change_bps(old_price: i128, new_price: i128) -> (r: Option<i128>)
    ensures
        r is Some <==> percentage_change_bps(old_price as int, new_price as int) is Some,
        r matches Some(v) ==> percentage_change_bps(old_price as int, new_price as int) == Some(
            v as int,
        ),
{
    if old_price == 0 {
        return None;
    }
    let delta = match new_price.checked_sub(old_price) {
        Some(d) => d,
        None => return None,
    };
    let scaled = match delta.checked_mul(BPS_SCALE) {
        Some(s) => s,
        None => return None,
    };
    scaled.checked_div(old_price)
}

/// Returns the absolute percentage difference in basis points, for direct
/// comparison against a threshold regardless of direction.
pub fn calculate_percentage_difference_bps(old_price: i128, new_price: i128) -> (r: Option<i128>)
    ensures
        r is Some <==> percentage_change_bps(old_price as int, new_price as int) is Some,
        r matches Some(v) ==> v as int == abs(
            percentage_change_bps(old_price as int, new_price as int).unwrap(),
        ),
{
    match calculate_percentage_change_bps(old_price, new_price) {
        Some(v) => {
            proof {
                lemma_percentage_change_not_min(old_price as int, new_price as int);
            }
            if v < 0 {
                Some(-v)
            } else {
                Some(v)
            }
        },
        None => None,
    }
}

/// Returns the absolute difference between two prices, for circuit-breaker
/// logic that compares the raw magnitude of a move against a hard threshold.
///
/// `None` only when `new_price - old_price` does not fit in an `i128`.
/// The difference must not be exactly `i128::MIN`, whose magnitude has no
/// `i128` representation.
pub fn calculate_price_volatility(old_price: i128, new_price: i128) -> (r: Option<i128>)
    requires
        new_price - old_price != i128::MIN,
    ensures
        r is Some <==> fits_i128(new_price - old_price),
        r matches Some(v) ==> v as int == abs(new_price - old_price),
{
    match new_price.checked_sub(old_price) {
        Some(d) => if d < 0 {
            Some(-d)
        } else {
            Some(d)
        },
        None => None,
    }
}

/// A submitted price is valid when it is strictly positive.
pub fn is_valid(price: i128) -> (r: bool)
    ensures
        r == (price > 0),
{
    price > 0
}

/// Whether a price stored at `stored_timestamp` with time-to-live `ttl` has
/// expired at `current_time` (the expiry saturates at `u64::MAX`).
pub fn is_stale(current_time: u64, stored_timestamp: u64, ttl: u64) -> (r: bool)
    ensures
        r == stale(current_time, stored_timestamp, ttl),
{
    current_time >= stored_timestamp.saturating_add(ttl)
}

/// Rejects a rate whose age exceeds `MAX_RATE_AGE_SECONDS`.
pub fn enforce_rate_map_max_age(current_time: u64, stored_timestamp: u64) -> (r: Result<
    (),
    super::Error,
>)
    ensures
        r is Err <==> exceeds_max_age(current_time, stored_timestamp),
        r matches Err(e) ==> e == super::Error::StaleRateData,
{
    if current_time > stored_timestamp.saturating_add(MAX_RATE_AGE_SECONDS) {
        Err(super::Error::StaleRateData)
    } else {
        Ok(())
    }
}

/// A price that is stale at some time stays stale at every later time.
pub proof fn lemma_staleness_is_monotonic(t1: u64, t2: u64, stored: u64, ttl: u64)
    requires
        t1 <= t2,
        stale(t1, stored, ttl),
    ensures
        stale(t2, stored, ttl),
{
}

/// The volatility of a move is the same in both directions.
pub proof fn lemma_volatility_symmetric(a: int, b: int)
    ensures
        abs(b - a) == abs(a - b),
{
}

} // verus!
