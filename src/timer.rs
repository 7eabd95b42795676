//! The physical counter of the AArch64 generic timer, conversions between
//! its ticks and durations, and the decisions of a busy-wait on it.

use vstd::prelude::*;
use crate::duration::{Duration, NANOSEC_PER_SEC};
use crate::registers::physical_count;

verus! {

/// Ticks per second of the counter: fixed at build time rather than read
/// from the frequency register.
pub const FREQUENCY: u64 = 50_000_000;

/// A reading of the free-running counter, or a number of ticks.
#[derive(Clone, Copy, Debug, PartialEq, Eq, Structural)]
pub struct GenericTimerCounterValue(pub u64);

/// Why a duration has no counter value.
#[derive(Clone, Copy, Debug, PartialEq, Eq, Structural)]
pub enum ConversionError {
    /// The duration is longer than the largest counter value lasts.
    DurationTooLarge,
}

/// The duration that `ticks` ticks last: whole seconds, and the remaining
/// ticks in nanoseconds, rounded down.
pub open spec fn duration_of_ticks(ticks: u64) -> Duration {
    Duration {
        secs: (ticks as int / FREQUENCY as int) as u64,
        nanos: ((ticks as int % FREQUENCY as int) * NANOSEC_PER_SEC as int / FREQUENCY as int) as u32,
    }
}

/// The counter value for a duration: zero below one tick, an error above
/// the largest counter value, else the nanoseconds scaled to ticks and
/// rounded down.
pub open spec fn ticks_of_duration(d: Duration) -> Result<GenericTimerCounterValue, ConversionError> {
    if d.total_nanos() < duration_of_ticks(1).total_nanos() {
        Ok(GenericTimerCounterValue(0))
    } else if d.total_nanos() > duration_of_ticks(u64::MAX).total_nanos() {
        Err(ConversionError::DurationTooLarge)
    } else {
        Ok(GenericTimerCounterValue((d.total_nanos() * FREQUENCY as int / NANOSEC_PER_SEC as int) as u64))
    }
}

/// `a + b` modulo 2^64.
pub open spec fn wrapped_sum(a: u64, b: u64) -> u64 {
    if a + b <= u64::MAX {
        (a + b) as u64
    } else {
        (a + b - 0x1_0000_0000_0000_0000) as u64
    }
}

/// One tick lasts a whole number of nanoseconds, so `t` ticks last exactly
/// `t` times as long.
proof fn lemma_ticks_in_nanos(t: u64)
    ensures
        duration_of_ticks(t).wf(),
        duration_of_ticks(t).total_nanos() == t as int * (NANOSEC_PER_SEC as int / FREQUENCY as int),
{
    let q: int = t as int / FREQUENCY as int;
    let r: int = t as int % FREQUENCY as int;
    assert(r * 1_000_000_000 / 50_000_000 == r * 20) by (nonlinear_arith)
        requires
            0 <= r < 50_000_000,
    ;
    assert(t == q * FREQUENCY + r);
    assert(duration_of_ticks(t).secs == q);
    assert(duration_of_ticks(t).nanos == r * 20);
    assert(q * 1_000_000_000 + r * 20 == 20 * (q * 50_000_000 + r));
    assert(NANOSEC_PER_SEC as int / FREQUENCY as int == 20);
}

impl GenericTimerCounterValue {
    /// The largest counter value, the ceiling of a saturated wait.
    pub fn max_value() -> (r: GenericTimerCounterValue)
        ensures
            r.0 == u64::MAX,
    {
        GenericTimerCounterValue(u64::MAX)
    }

    /// Ticks per second of the counter.
    pub fn frequency() -> (r: u64)
        ensures
            r == FREQUENCY,
    {
        FREQUENCY
    }

    /// The sum of two counter values, wrapping at 2^64; it never panics.
    pub fn add(self, other: GenericTimerCounterValue) -> (r: GenericTimerCounterValue)
        ensures
            r.0 == wrapped_sum(self.0, other.0),
    {
        GenericTimerCounterValue(self.0.wrapping_add(other.0))
    }
}

/// The duration that a number of ticks lasts (`duration_of_ticks`).
impl From<GenericTimerCounterValue> for Duration {
    fn from(counter_value: GenericTimerCounterValue) -> (r: Duration) {
        if counter_value.0 == 0 {
            return Duration::zero();
        }
        let frequency: u64 = GenericTimerCounterValue::frequency();
        let secs: u64 = counter_value.0 / frequency;
        // The remainder is below the frequency, so the product stays far
        // below 2^64 and the quotient below one second.
        let sub_second_counter_value: u64 = counter_value.0 % frequency;
        assert(sub_second_counter_value * NANOSEC_PER_SEC < 50_000_000 * 1_000_000_000) by (nonlinear_arith)
            requires
                sub_second_counter_value < 50_000_000,
        ;
        let nanos: u64 = sub_second_counter_value * NANOSEC_PER_SEC / frequency;
        Duration { secs, nanos: nanos as u32 }
    }
}

impl vstd::std_specs::convert::FromSpecImpl<GenericTimerCounterValue> for Duration {
    open spec fn obeys_from_spec() -> bool {
        true
    }

    open spec fn from_spec(v: GenericTimerCounterValue) -> Duration {
        duration_of_ticks(v.0)
    }
}

/// The shortest duration other than zero: one tick.
pub fn resolution() -> (r: Duration)
    ensures
        r == duration_of_ticks(1),
{
    Duration::from(GenericTimerCounterValue(1))
}

/// The longest duration a counter value can stand for.
pub fn max_duration() -> (r: Duration)
    ensures
        r == duration_of_ticks(u64::MAX),
{
    Duration::from(GenericTimerCounterValue::max_value())
}

/// The number of ticks in a duration (`ticks_of_duration`): durations of
/// less than one tick give zero, durations beyond the largest counter value
/// give `DurationTooLarge`. The product of nanoseconds and frequency is
/// formed in 128 bits.
impl TryFrom<Duration> for GenericTimerCounterValue {
    type Error = ConversionError;

    fn try_from(duration: Duration) -> (r: Result<GenericTimerCounterValue, ConversionError>) {
        let nanos: u128 = duration.as_nanos();
        if nanos < resolution().as_nanos() {
            return Ok(GenericTimerCounterValue(0));
        }
        if nanos > max_duration().as_nanos() {
            return Err(ConversionError::DurationTooLarge);
        }
        let frequency: u64 = GenericTimerCounterValue::frequency();
        proof {
            lemma_ticks_in_nanos(u64::MAX);
        }
        // At most 20 * (2^64 - 1) nanoseconds remain here: the product is
        // below 2^100 and the quotient fits in 64 bits.
        assert(nanos * 50_000_000 <= 20 * 0xffff_ffff_ffff_ffff * 50_000_000) by (nonlinear_arith)
            requires
                nanos <= 20 * 0xffff_ffff_ffff_ffff,
        ;
        let ticks: u128 = nanos * (frequency as u128) / (NANOSEC_PER_SEC as u128);
        assert(ticks <= u64::MAX) by (nonlinear_arith)
            requires
                nanos <= 20 * 0xffff_ffff_ffff_ffff,
                ticks == nanos * 50_000_000 / 1_000_000_000,
        ;
        Ok(GenericTimerCounterValue(ticks as u64))
    }
}

impl vstd::std_specs::convert::TryFromSpecImpl<Duration> for GenericTimerCounterValue {
    open spec fn obeys_try_from_spec() -> bool {
        true
    }

    open spec fn try_from_spec(v: Duration) -> Result<GenericTimerCounterValue, ConversionError> {
        ticks_of_duration(v)
    }
}

/// The number of ticks a wait for `d` lasts: the counter value of `d`, or
/// the largest counter value where `d` has none.
pub open spec fn spin_delta(d: Duration) -> u64 {
    match ticks_of_duration(d) {
        Ok(v) => v.0,
        Err(_) => u64::MAX,
    }
}

/// The ticks from a reading `start` to a later reading `now` of a counter
/// that wraps at 2^64.
pub open spec fn elapsed_ticks(start: u64, now: u64) -> int {
    (now as int - start as int) % 0x1_0000_0000_0000_0000
}

/// The number of ticks a wait for `duration` lasts: its counter value, or
/// the largest counter value where the duration has none, so that such a
/// wait lasts as long as the counter can count.
pub fn spin_ticks(duration: Duration) -> (r: GenericTimerCounterValue)
    ensures
        r.0 == spin_delta(duration),
{
    match GenericTimerCounterValue::try_from(duration) {
        Ok(v) => v,
        Err(_) => GenericTimerCounterValue::max_value(),
    }
}

/// Whether a wait of `delta` ticks that started at the reading `start` is
/// over once the counter reads `now`: whether `delta` ticks have passed,
/// counted modulo 2^64 so that a wrap of the counter in between is no end.
pub fn deadline_reached(
    start: GenericTimerCounterValue,
    now: GenericTimerCounterValue,
    delta: GenericTimerCounterValue,
) -> (r: bool)
    ensures
        r == (elapsed_ticks(start.0, now.0) >= delta.0 as int),
{
    let passed: u64 = now.0.wrapping_sub(start.0);
    assert(passed == elapsed_ticks(start.0, now.0)) by {
        if now.0 >= start.0 {
            assert(passed == now.0 - start.0);
        } else {
            assert(passed == now.0 as int - start.0 as int + 0x1_0000_0000_0000_0000);
        }
    }
    passed >= delta.0
}

/// One poll of a wait of `delta` ticks that started at the reading `start`:
/// reads the counter, without a barrier, and tells whether the wait is
/// over. A wait of zero ticks is over at once.
///
/// The counter register exists only on AArch64: on any other architecture
/// the read panics.
pub fn spin_poll(start: GenericTimerCounterValue, delta: GenericTimerCounterValue) -> (r: bool)
    ensures
        delta.0 == 0 ==> r,
{
    let now = GenericTimerCounterValue(physical_count());
    deadline_reached(start, now, delta)
}

/// Zero ticks last exactly zero: no seconds and no nanoseconds.
pub proof fn lemma_zero_ticks_last_nothing()
    ensures
        duration_of_ticks(0) == (Duration { secs: 0, nanos: 0 }),
{
}

/// Converting ticks to a duration and back gives the same ticks. In general
/// the round trip may lose up to one tick to rounding; at this frequency a
/// tick lasts a whole number of nanoseconds and nothing is lost.
pub proof fn lemma_round_trip(t: u64)
    ensures
        ticks_of_duration(duration_of_ticks(t)) == Ok::<GenericTimerCounterValue, ConversionError>(
            GenericTimerCounterValue(t),
        ),
{
    lemma_ticks_in_nanos(t);
    lemma_ticks_in_nanos(1);
    lemma_ticks_in_nanos(u64::MAX);
    let n: int = t as int * 20;
    assert(n * 50_000_000 / 1_000_000_000 == t) by (nonlinear_arith)
        requires
            n == t as int * 20,
    ;
}

/// Every duration shorter than the resolution converts to zero ticks.
pub proof fn lemma_below_resolution_is_zero(d: Duration)
    requires
        d.total_nanos() < duration_of_ticks(1).total_nanos(),
    ensures
        ticks_of_duration(d) == Ok::<GenericTimerCounterValue, ConversionError>(GenericTimerCounterValue(0)),
{
}

/// Every duration longer than the largest counter value lasts has no
/// counter value.
pub proof fn lemma_beyond_max_is_too_large(d: Duration)
    requires
        d.total_nanos() > duration_of_ticks(u64::MAX).total_nanos(),
    ensures
        ticks_of_duration(d) == Err::<GenericTimerCounterValue, ConversionError>(
            ConversionError::DurationTooLarge,
        ),
{
    lemma_ticks_in_nanos(1);
    lemma_ticks_in_nanos(u64::MAX);
}

/// A wait for `d` that starts at the reading `start` is over at the reading
/// taken once the counter has advanced by `k` ticks exactly when `k` is at
/// least the ticks of `d`: it neither ends early, also where the counter
/// wraps past 2^64 meanwhile, nor goes on once they have passed. A duration
/// too long to convert waits for the largest counter value of ticks.
pub proof fn lemma_spin_waits_for_delta(start: u64, d: Duration, k: u64)
    ensures
        (elapsed_ticks(start, wrapped_sum(start, k)) >= spin_delta(d) as int) == (k >= spin_delta(d)),
        ticks_of_duration(d) is Err ==> spin_delta(d) == u64::MAX,
{
}

} // verus!
