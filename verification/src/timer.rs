use vstd::prelude::*;

verus! {

/// Divisor turning the timer frequency (counter steps per second) into the
/// nominal one-millisecond rearm period.
pub const PERIOD_DENOMINATOR: u64 = 1000;

/// Register state of the periodic virtual timer. `freq` mirrors the
/// read-only frequency register, `cval` the write-only compare-value
/// register, `enabled` and `masked` the two control-register flags. The
/// free-running counter is hardware-owned and read-only, so functions take
/// its sampled value as an argument.
pub struct Timer {
    pub freq: u64,
    pub cval: u64,
    pub enabled: bool,
    pub masked: bool,
}

/// A usable timer counts at least once per millisecond, so the
/// one-millisecond period below is a positive number of counter steps.
pub open spec fn timer_wf(t: Timer) -> bool {
    t.freq >= PERIOD_DENOMINATOR
}

/// The compare value a rearm writes when the free-running counter reads
/// `count`: one nominal millisecond past the sample.
pub open spec fn rearm_cval(freq: u64, count: u64) -> int {
    count + freq / PERIOD_DENOMINATOR
}

/// Rearm the timer one period past the sampled counter value `count`:
/// write the compare value and set the control flags to enabled, unmasked.
/// The compare value is strictly greater than the sampled counter, so the
/// next interrupt is not delayed by a full counter wraparound.
pub fn arm_next(t: &mut Timer, count: u64)
    requires
        timer_wf(*old(t)),
        rearm_cval(old(t).freq, count) <= u64::MAX,
    ensures
        final(t).freq == old(t).freq,
        final(t).cval == rearm_cval(old(t).freq, count),
        final(t).cval > count,
        final(t).enabled,
        !final(t).masked,
{
    proof {
        vstd::arithmetic::div_mod::lemma_div_non_zero(t.freq as int, PERIOD_DENOMINATOR as int);
    }
    let period: u64 = t.freq / PERIOD_DENOMINATOR;
    t.cval = count + period;
    t.enabled = true;
    t.masked = false;
}

/// Start the timer with its first one-millisecond period, counted from the
/// sampled counter value `count`.
pub fn timer_start_1ms(t: &mut Timer, count: u64)
    requires
        timer_wf(*old(t)),
        rearm_cval(old(t).freq, count) <= u64::MAX,
    ensures
        final(t).freq == old(t).freq,
        final(t).cval == rearm_cval(old(t).freq, count),
        final(t).cval > count,
        final(t).enabled,
        !final(t).masked,
{
    arm_next(t, count);
}

} // verus!
