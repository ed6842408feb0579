use pokertimer::clock::{ClockState, WireClock};
use pokertimer::text::{decimal_string, signed_decimal_string, two_digit_string};
use pokertimer::time::{clamp_wide, now, DateTime, Duration};

fn at(millis: i64) -> DateTime {
    DateTime::from_timestamp_millis(millis)
}

#[test]
fn duration_units_are_milliseconds() {
    assert_eq!(Duration::zero().num_milliseconds(), 0);
    assert_eq!(Duration::seconds(59).num_milliseconds(), 59_000);
    assert_eq!(Duration::minutes(20).num_milliseconds(), 1_200_000);
    assert_eq!(Duration::weeks(1).num_milliseconds(), 604_800_000);
    assert_eq!(Duration::milliseconds(1_234).num_milliseconds(), 1_234);
}

#[test]
fn duration_rounds_toward_zero() {
    assert_eq!(Duration::milliseconds(1_999).num_seconds(), 1);
    assert_eq!(Duration::milliseconds(-1_999).num_seconds(), -1);
    assert_eq!(Duration::milliseconds(-999).num_seconds(), 0);
    assert_eq!(Duration::milliseconds(119_999).num_minutes(), 1);
    assert_eq!(Duration::milliseconds(-119_999).num_minutes(), -1);
    assert_eq!(Duration::minutes(10).num_minutes(), 10);
}

#[test]
fn duration_arithmetic_stops_at_the_ends() {
    let big = Duration::milliseconds(i64::MAX);
    let small = Duration::milliseconds(i64::MIN);
    assert_eq!(big.saturating_sub(Duration::milliseconds(-1)), big);
    assert_eq!(small.saturating_sub(Duration::milliseconds(1)), small);
    assert_eq!(Duration::minutes(i64::MAX), big);
    assert_eq!(Duration::seconds(i64::MIN), small);
    assert_eq!(
        Duration::minutes(20).saturating_sub(Duration::minutes(5)),
        Duration::minutes(15)
    );
    assert_eq!(clamp_wide(i64::MAX as i128 + 5), i64::MAX);
    assert_eq!(clamp_wide(i64::MIN as i128 - 5), i64::MIN);
    assert_eq!(clamp_wide(-17), -17);
    assert!(Duration::seconds(1).is_shorter_than(Duration::seconds(2)));
    assert!(!Duration::seconds(2).is_shorter_than(Duration::seconds(2)));
}

#[test]
fn instants_subtract_to_durations() {
    assert_eq!(at(5_000).signed_duration_since(at(2_000)), Duration::seconds(3));
    assert_eq!(at(2_000).signed_duration_since(at(5_000)), Duration::seconds(-3));
    assert_eq!(at(i64::MAX).signed_duration_since(at(-1)), Duration::milliseconds(i64::MAX));
    assert_eq!(at(42).timestamp_millis(), 42);
}

#[test]
fn decimal_strings() {
    assert_eq!(decimal_string(0), "0");
    assert_eq!(decimal_string(7), "7");
    assert_eq!(decimal_string(10), "10");
    assert_eq!(decimal_string(20_000), "20000");
    assert_eq!(decimal_string(u64::MAX), "18446744073709551615");
    assert_eq!(signed_decimal_string(-10), "-10");
    assert_eq!(signed_decimal_string(i64::MIN), "-9223372036854775808");
    assert_eq!(signed_decimal_string(15), "15");
    assert_eq!(two_digit_string(0), "00");
    assert_eq!(two_digit_string(9), "09");
    assert_eq!(two_digit_string(10), "10");
    assert_eq!(two_digit_string(123), "123");
}

#[test]
fn paused_clock_keeps_its_time() {
    let clock = ClockState::Paused { remaining: Duration::minutes(20) };
    assert!(clock.is_paused());
    assert_eq!(clock.remaining_at(at(0)), Duration::minutes(20));
    assert_eq!(clock.remaining_at(at(999_999_999)), Duration::minutes(20));
    assert_eq!(clock.remaining(), Duration::minutes(20));
}

#[test]
fn running_clock_loses_the_time_that_passes() {
    let clock = ClockState::Running { remaining: Duration::minutes(20), asof: at(1_000) };
    assert!(!clock.is_paused());
    assert_eq!(clock.remaining_at(at(1_000)), Duration::minutes(20));
    assert_eq!(clock.remaining_at(at(301_000)), Duration::minutes(15));
    assert_eq!(clock.remaining_at(at(1_201_001)), Duration::milliseconds(-1));
    assert_eq!(clock.remaining_at(at(0)), Duration::milliseconds(1_201_000));
}

#[test]
fn running_clock_stops_at_the_ends_of_the_range() {
    let clock = ClockState::Running { remaining: Duration::milliseconds(i64::MIN), asof: at(0) };
    assert_eq!(clock.remaining_at(at(i64::MAX)), Duration::milliseconds(i64::MIN));
    let far = ClockState::Running { remaining: Duration::milliseconds(10), asof: at(i64::MAX) };
    assert_eq!(far.remaining_at(at(i64::MIN)), Duration::milliseconds(i64::MAX));
}

#[test]
fn pause_then_resume_keeps_the_remaining_time() {
    let clock = ClockState::Running { remaining: Duration::minutes(20), asof: at(10_000) };
    let paused = clock.pause_at(at(70_000));
    assert_eq!(paused, ClockState::Paused { remaining: Duration::minutes(19) });
    let resumed = paused.resume_at(at(500_000));
    assert_eq!(resumed, ClockState::Running { remaining: Duration::minutes(19), asof: at(500_000) });
    assert_eq!(resumed.remaining_at(at(500_000)), clock.remaining_at(at(70_000)));
    assert_eq!(resumed.remaining_at(at(560_000)), Duration::minutes(18));
}

#[test]
fn pause_and_resume_do_nothing_in_their_own_state() {
    let paused = ClockState::Paused { remaining: Duration::seconds(90) };
    assert_eq!(paused.pause_at(at(123)), paused);
    let running = ClockState::Running { remaining: Duration::seconds(90), asof: at(5) };
    assert_eq!(running.resume_at(at(999)), running);
}

#[test]
fn reset_keeps_the_clock_stopped_or_running() {
    let paused = ClockState::Paused { remaining: Duration::seconds(3) };
    assert_eq!(
        paused.reset_at(Duration::minutes(10), at(77)),
        ClockState::Paused { remaining: Duration::minutes(10) }
    );
    let running = ClockState::Running { remaining: Duration::seconds(3), asof: at(5) };
    assert_eq!(
        running.reset_at(Duration::minutes(10), at(77)),
        ClockState::Running { remaining: Duration::minutes(10), asof: at(77) }
    );
}

#[test]
fn stretch_adds_the_difference_of_lengths() {
    let running = ClockState::Running { remaining: Duration::minutes(20), asof: at(5) };
    assert_eq!(
        running.stretch(Duration::minutes(20), Duration::minutes(25)),
        ClockState::Running { remaining: Duration::minutes(25), asof: at(5) }
    );
    let paused = ClockState::Paused { remaining: Duration::minutes(3) };
    assert_eq!(
        paused.stretch(Duration::minutes(20), Duration::minutes(10)),
        ClockState::Paused { remaining: Duration::minutes(-7) }
    );
}

#[test]
fn clock_face_shows_minutes_and_seconds() {
    let paused = ClockState::Paused { remaining: Duration::milliseconds(1_199_999) };
    assert_eq!(paused.display_string_at(at(0)), "19:59");
    assert_eq!(paused.to_display_string(), "19:59");
    let short = ClockState::Paused { remaining: Duration::seconds(65) };
    assert_eq!(short.display_string_at(at(0)), "01:05");
    let long = ClockState::Paused { remaining: Duration::seconds(6_005) };
    assert_eq!(long.display_string_at(at(0)), "100:05");
    let zero = ClockState::Paused { remaining: Duration::zero() };
    assert_eq!(zero.display_string_at(at(0)), "00:00");
}

#[test]
fn clock_face_never_shows_negative_time() {
    let running = ClockState::Running { remaining: Duration::seconds(10), asof: at(0) };
    assert_eq!(running.display_string_at(at(4_000)), "00:06");
    assert_eq!(running.display_string_at(at(60_000)), "00:00");
}

#[test]
fn wire_form_of_a_paused_clock() {
    let clock = ClockState::Paused { remaining: Duration::minutes(7) };
    let wire = clock.to_wire_at(at(123_456));
    assert_eq!(wire, WireClock { paused: true, remaining: Duration::minutes(7) });
    assert_eq!(ClockState::from_wire_at(wire, at(999)), clock);
    assert_eq!(clock.to_wire(), wire);
    assert_eq!(ClockState::from_wire(wire), clock);
}

#[test]
fn wire_round_trip_ignores_the_receivers_clock() {
    let clock = ClockState::Running { remaining: Duration::minutes(20), asof: at(1_000_000) };
    let wire = clock.to_wire_at(at(1_030_000));
    assert_eq!(wire, WireClock { paused: false, remaining: Duration::milliseconds(1_170_000) });
    // the receiver's clock is hours off
    let arrival = at(987_654_321);
    let received = ClockState::from_wire_at(wire, arrival);
    assert_eq!(
        received,
        ClockState::Running { remaining: Duration::milliseconds(1_170_000), asof: arrival }
    );
    assert_eq!(received.remaining_at(arrival), Duration::milliseconds(1_170_000));
}

#[test]
fn wire_clock_needs_both_fields() {
    assert_eq!(
        WireClock::from_fields(Some(false), Some(Duration::seconds(5))),
        Some(WireClock { paused: false, remaining: Duration::seconds(5) })
    );
    assert_eq!(WireClock::from_fields(None, Some(Duration::seconds(5))), None);
    assert_eq!(WireClock::from_fields(Some(true), None), None);
    assert_eq!(WireClock::from_fields(None, None), None);
}

#[test]
fn system_clock_is_read() {
    let first = now();
    // later than the first of January 2020
    assert!(first.timestamp_millis() > 1_577_836_800_000);
    let second = now();
    assert!(second.timestamp_millis() >= first.timestamp_millis());
    let started = DateTime::from_timestamp_millis(first.timestamp_millis() - 60_000);
    let clock = ClockState::Running { remaining: Duration::minutes(20), asof: started };
    let left = clock.remaining();
    assert!(left.num_milliseconds() <= 1_140_000);
    assert!(left.num_milliseconds() > 1_080_000);
    let wire = clock.to_wire();
    assert!(!wire.paused);
    assert!(wire.remaining.num_milliseconds() <= 1_140_000);
    let back = ClockState::from_wire(wire);
    match back {
        ClockState::Running { remaining, asof } => {
            assert_eq!(remaining, wire.remaining);
            assert!(asof.timestamp_millis() >= first.timestamp_millis());
        }
        ClockState::Paused { .. } => panic!("a running clock arrived stopped"),
    }
}
