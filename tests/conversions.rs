use generic_timer::duration::Duration;
use generic_timer::timer::{max_duration, resolution, ConversionError, GenericTimerCounterValue, FREQUENCY};

fn ticks_to_duration(t: u64) -> Duration {
    Duration::from(GenericTimerCounterValue(t))
}

#[test]
fn frequency_is_fixed() {
    assert_eq!(GenericTimerCounterValue::frequency(), 50_000_000);
    assert_eq!(FREQUENCY, 50_000_000);
}

#[test]
fn one_second_of_ticks() {
    assert_eq!(ticks_to_duration(50_000_000), Duration { secs: 1, nanos: 0 });
}

#[test]
fn half_second_of_ticks() {
    assert_eq!(ticks_to_duration(25_000_000), Duration { secs: 0, nanos: 500_000_000 });
}

#[test]
fn zero_ticks_is_zero_duration() {
    assert_eq!(ticks_to_duration(0), Duration { secs: 0, nanos: 0 });
    assert_eq!(ticks_to_duration(0), Duration::zero());
}

#[test]
fn ticks_with_seconds_and_remainder() {
    assert_eq!(ticks_to_duration(123_456_789), Duration { secs: 2, nanos: 469_135_780 });
    let via_into: Duration = GenericTimerCounterValue(3).into();
    assert_eq!(via_into, Duration { secs: 0, nanos: 60 });
}

#[test]
fn resolution_is_one_tick() {
    assert_eq!(resolution(), ticks_to_duration(1));
    assert_eq!(resolution(), Duration { secs: 0, nanos: 20 });
}

#[test]
fn max_duration_is_largest_counter_value() {
    assert_eq!(max_duration(), ticks_to_duration(u64::MAX));
    assert_eq!(max_duration(), Duration { secs: 368_934_881_474, nanos: 191_032_300 });
}

#[test]
fn below_resolution_is_zero_ticks() {
    assert_eq!(GenericTimerCounterValue::try_from(Duration::new(0, 19)), Ok(GenericTimerCounterValue(0)));
    assert_eq!(GenericTimerCounterValue::try_from(Duration::new(0, 1)), Ok(GenericTimerCounterValue(0)));
    assert_eq!(GenericTimerCounterValue::try_from(Duration::zero()), Ok(GenericTimerCounterValue(0)));
}

#[test]
fn durations_to_ticks_round_down() {
    assert_eq!(GenericTimerCounterValue::try_from(resolution()), Ok(GenericTimerCounterValue(1)));
    assert_eq!(GenericTimerCounterValue::try_from(Duration::new(0, 39)), Ok(GenericTimerCounterValue(1)));
    assert_eq!(GenericTimerCounterValue::try_from(Duration::new(1, 0)), Ok(GenericTimerCounterValue(50_000_000)));
    assert_eq!(
        GenericTimerCounterValue::try_from(Duration::from_millis(500)),
        Ok(GenericTimerCounterValue(25_000_000))
    );
}

#[test]
fn max_duration_converts_to_max_ticks() {
    assert_eq!(GenericTimerCounterValue::try_from(max_duration()), Ok(GenericTimerCounterValue(u64::MAX)));
}

#[test]
fn beyond_max_duration_is_too_large() {
    let just_over = Duration::new(368_934_881_474, 191_032_301);
    assert_eq!(GenericTimerCounterValue::try_from(just_over), Err(ConversionError::DurationTooLarge));
    assert_eq!(
        GenericTimerCounterValue::try_from(Duration::new(u64::MAX, 999_999_999)),
        Err(ConversionError::DurationTooLarge)
    );
}

#[test]
fn round_trip_recovers_ticks() {
    for t in [0u64, 1, 2, 49_999_999, 50_000_000, 50_000_001, 123_456_789_012_345, u64::MAX - 1, u64::MAX] {
        let back = GenericTimerCounterValue::try_from(ticks_to_duration(t)).unwrap();
        assert_eq!(back, GenericTimerCounterValue(t));
    }
}
