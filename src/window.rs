use vstd::prelude::*;

verus! {

/// Length of a window unless another is asked for: five minutes.
pub const DEFAULT_PERIOD_SECONDS: i64 = 300;

/// A query window `[lower, upper)` in seconds since the Unix epoch.
#[derive(Clone, Copy, Debug, PartialEq, Eq, Structural)]
pub struct Window {
    pub lower: i64,
    pub upper: i64,
}

/// The last boundary at or before `now` that is a multiple of `period`.
pub open spec fn aligned_floor(now: int, period: int) -> int {
    now - now % period
}

/// Whether the window for `now` and `period` has both bounds in `i64`.
pub open spec fn window_fits(now: int, period: int) -> bool {
    aligned_floor(now, period) - period >= i64::MIN
}

/// The window that ends at the last aligned boundary at or before `now`.
pub open spec fn window_for(now: int, period: int) -> Window
    recommends
        period > 0,
        window_fits(now, period),
{
    Window {
        lower: (aligned_floor(now, period) - period) as i64,
        upper: aligned_floor(now, period) as i64,
    }
}

/// The most recent complete window of `period_seconds` whose upper bound is
/// a multiple of `period_seconds` since the epoch and not after `now`.
/// `None` exactly when its lower bound would fall below `i64::MIN`.
pub fn latest_complete_period(now: i64, period_seconds: i64) -> (r: Option<Window>)
    requires
        period_seconds > 0,
    ensures
        r is Some <==> window_fits(now as int, period_seconds as int),
        r is Some ==> r == Some(window_for(now as int, period_seconds as int)),
{
    let rem: i64 = now.checked_rem_euclid(period_seconds).unwrap();
    assert(0 <= now % period_seconds < period_seconds);
    match now.checked_sub(rem) {
        Some(upper) => match upper.checked_sub(period_seconds) {
            Some(lower) => Some(Window { lower, upper }),
            None => None,
        },
        None => None,
    }
}

/// The window's upper bound is a multiple of the period, at or before `now`
/// and less than one period before it; the lower bound lies one period
/// before the upper one.
pub proof fn lemma_window_alignment(now: int, period: int)
    requires
        period > 0,
        window_fits(now, period),
        i64::MIN <= now <= i64::MAX,
    ensures
        window_for(now, period).upper as int % period == 0,
        window_for(now, period).upper <= now < window_for(now, period).upper + period,
        window_for(now, period).lower == window_for(now, period).upper - period,
{
    let u = aligned_floor(now, period);
    assert(0 <= now % period < period);
    assert(u % period == 0) by {
        vstd::arithmetic::div_mod::lemma_fundamental_div_mod(now, period);
        vstd::arithmetic::div_mod::lemma_mod_multiples_basic(now / period, period);
    }
}

/// Two instants in the same period-aligned bucket get the same window.
pub proof fn lemma_window_same_bucket(a: int, b: int, period: int)
    requires
        period > 0,
        a / period == b / period,
    ensures
        aligned_floor(a, period) == aligned_floor(b, period),
        window_for(a, period) == window_for(b, period),
{
    vstd::arithmetic::div_mod::lemma_fundamental_div_mod(a, period);
    vstd::arithmetic::div_mod::lemma_fundamental_div_mod(b, period);
}

} // verus!
