use seventime::clock::{
    countdown_content, wall_clock_content, Clock, ClockMode, CALENDAR_MAX_SECS,
    CALENDAR_MIN_SECS, TICK_SECS,
};
use seventime::time::{Span, Timestamp};

fn at(secs: u64, nanos: u32) -> Timestamp {
    Timestamp::after_epoch(secs, nanos)
}

fn is_clock(clock: &Clock) -> bool {
    matches!(clock.mode, ClockMode::Clock)
}

#[test]
fn one_minute_timer_counts_down_then_clock_resumes() {
    let mut clock = Clock::starting_at(at(0, 0));
    clock.arm_timer(Span::from_minutes(1).unwrap(), at(0, 0));
    assert_eq!(clock.poll(at(0, 0)), Some([0, 1, 0, 0]));
    assert_eq!(clock.poll(at(61, 0)), None);
    assert!(is_clock(&clock));
    assert_eq!(clock.poll(at(61, 0)), Some([0, 0, 0, 1]));
}

#[test]
fn clock_mode_shows_utc_hour_and_minute() {
    let midnight: u64 = 1_431_648_000;
    let now = at(midnight + 14 * 3600 + 7 * 60, 0);
    let mut clock = Clock::starting_at(at(0, 0));
    assert_eq!(clock.poll(now), Some([1, 4, 0, 7]));
    assert_eq!(clock.last_tick.as_unix_nanos(), now.as_unix_nanos());
    assert_eq!(wall_clock_content(&now), Some([1, 4, 0, 7]));
}

#[test]
fn wall_clock_content_is_not_its_argument() {
    assert_eq!(wall_clock_content(&at(23 * 3600 + 59 * 60 + 59, 999_999_999)), Some([2, 3, 5, 9]));
    assert_eq!(wall_clock_content(&at(9 * 3600 + 5 * 60, 0)), Some([0, 9, 0, 5]));
    assert_eq!(wall_clock_content(&at(86_400 + 10 * 3600 + 30 * 60, 0)), Some([1, 0, 3, 0]));
}

#[test]
fn wall_clock_content_before_the_epoch() {
    assert_eq!(wall_clock_content(&Timestamp::before_epoch(0, 1)), Some([2, 3, 5, 9]));
    assert_eq!(wall_clock_content(&Timestamp::before_epoch(60, 0)), Some([2, 3, 5, 9]));
    assert_eq!(wall_clock_content(&Timestamp::before_epoch(60, 1)), Some([2, 3, 5, 8]));
    assert_eq!(wall_clock_content(&Timestamp::before_epoch(10 * 3600, 0)), Some([1, 4, 0, 0]));
}

#[test]
fn wall_clock_content_at_the_ends_of_the_calendar() {
    let first = Timestamp::before_epoch(CALENDAR_MIN_SECS.unsigned_abs(), 0);
    assert_eq!(wall_clock_content(&first), Some([0, 0, 0, 0]));
    let too_early = Timestamp::before_epoch(CALENDAR_MIN_SECS.unsigned_abs(), 1);
    assert_eq!(wall_clock_content(&too_early), None);
    let last = at(CALENDAR_MAX_SECS.unsigned_abs(), 999_999_999);
    assert_eq!(wall_clock_content(&last), Some([2, 3, 5, 9]));
    let too_late = at(CALENDAR_MAX_SECS.unsigned_abs() + 1, 0);
    assert_eq!(wall_clock_content(&too_late), None);
    assert_eq!(wall_clock_content(&at(u64::MAX, u32::MAX)), None);
    assert_eq!(wall_clock_content(&Timestamp::before_epoch(u64::MAX, u32::MAX)), None);
}

#[test]
fn clock_mode_emits_once_per_tick() {
    assert_eq!(TICK_SECS, 1);
    let mut clock = Clock::starting_at(at(100, 0));
    assert_eq!(clock.poll(at(100, 0)), None);
    assert_eq!(clock.poll(at(100, 999_999_999)), None);
    assert_eq!(clock.poll(at(101, 0)), Some([0, 0, 0, 1]));
    assert_eq!(clock.poll(at(101, 0)), None);
    assert_eq!(clock.poll(at(101, 999_999_999)), None);
    assert_eq!(clock.last_tick.as_unix_nanos(), 101_000_000_000);
    assert_eq!(clock.poll(at(102, 0)), Some([0, 0, 0, 1]));
    assert_eq!(clock.last_tick.as_unix_nanos(), 102_000_000_000);
}

#[test]
fn two_polls_in_one_second_emit_at_most_once() {
    let mut clock = Clock::starting_at(at(0, 0));
    let first = clock.poll(at(7200, 250_000_000));
    let second = clock.poll(at(7201, 249_999_999));
    assert_eq!(first, Some([0, 2, 0, 0]));
    assert_eq!(second, None);
}

#[test]
fn clock_mode_ignores_a_clock_that_went_back() {
    let mut clock = Clock::starting_at(at(100, 0));
    assert_eq!(clock.poll(at(50, 0)), None);
    assert_eq!(clock.poll(Timestamp::before_epoch(5, 0)), None);
    assert_eq!(clock.last_tick.as_unix_nanos(), 100_000_000_000);
    assert!(is_clock(&clock));
}

#[test]
fn clock_mode_emits_nothing_beyond_the_calendar() {
    let mut clock = Clock::starting_at(at(0, 0));
    assert_eq!(clock.poll(at(u64::MAX, 0)), None);
    assert_eq!(clock.last_tick.as_unix_nanos(), 0);
    assert!(is_clock(&clock));
}

#[test]
fn arming_then_polling_at_once_shows_the_whole_duration() {
    let mut clock = Clock::starting_at(at(500, 0));
    clock.arm_timer(Span::new(25 * 60 + 13, 0), at(500, 0));
    assert_eq!(clock.poll(at(500, 0)), Some([2, 5, 1, 3]));
    assert!(matches!(clock.mode, ClockMode::Timer(_, _)));
    assert_eq!(clock.last_tick.as_unix_nanos(), 500_000_000_000);
}

#[test]
fn timer_counts_whole_seconds_left() {
    let mut clock = Clock::starting_at(at(1000, 0));
    clock.arm_timer(Span::from_secs(90), at(1000, 0));
    assert_eq!(clock.poll(at(1000, 500_000_000)), Some([0, 1, 2, 9]));
    assert_eq!(clock.poll(at(1000, 500_000_001)), Some([0, 1, 2, 9]));
    assert_eq!(clock.poll(at(1030, 0)), Some([0, 1, 0, 0]));
    assert_eq!(clock.poll(at(1089, 1)), Some([0, 0, 0, 0]));
    assert_eq!(clock.poll(at(1090, 0)), Some([0, 0, 0, 0]));
    assert!(matches!(clock.mode, ClockMode::Timer(_, _)));
    assert_eq!(clock.poll(at(1090, 1)), None);
    assert!(is_clock(&clock));
}

#[test]
fn timer_is_not_throttled() {
    let mut clock = Clock::starting_at(at(0, 0));
    clock.arm_timer(Span::from_secs(10), at(0, 0));
    assert_eq!(clock.poll(at(0, 1)), Some([0, 0, 0, 9]));
    assert_eq!(clock.poll(at(0, 2)), Some([0, 0, 0, 9]));
    assert_eq!(clock.poll(at(0, 2)), Some([0, 0, 0, 9]));
}

#[test]
fn timer_treats_a_clock_that_went_back_as_no_time_passed() {
    let mut clock = Clock::starting_at(at(1000, 0));
    clock.arm_timer(Span::from_secs(60), at(1000, 0));
    assert_eq!(clock.poll(at(900, 0)), Some([0, 1, 0, 0]));
    assert_eq!(clock.poll(Timestamp::before_epoch(u64::MAX, 0)), Some([0, 1, 0, 0]));
    assert!(matches!(clock.mode, ClockMode::Timer(_, _)));
}

#[test]
fn zero_duration_timer_expires_on_the_next_poll() {
    let mut clock = Clock::starting_at(at(0, 0));
    clock.arm_timer(Span::from_secs(0), at(40, 0));
    assert_eq!(clock.poll(at(40, 0)), Some([0, 0, 0, 0]));
    assert_eq!(clock.poll(at(40, 1)), None);
    assert!(is_clock(&clock));
}

#[test]
fn expired_timer_gives_way_to_the_time_of_day() {
    let mut clock = Clock::starting_at(at(0, 0));
    assert_eq!(clock.poll(at(5, 0)), Some([0, 0, 0, 0]));
    clock.arm_timer(Span::from_secs(10), at(5, 200_000_000));
    assert_eq!(clock.poll(at(5, 300_000_000)), Some([0, 0, 0, 9]));
    assert_eq!(clock.last_tick.as_unix_nanos(), 5_000_000_000);
    assert_eq!(clock.poll(at(15, 300_000_000)), None);
    assert!(is_clock(&clock));
    assert_eq!(clock.last_tick.as_unix_nanos(), 5_000_000_000);
    assert_eq!(clock.poll(at(3600 + 15, 400_000_000)), Some([0, 1, 0, 0]));
}

#[test]
fn poll_after_expiry_is_still_throttled() {
    let mut clock = Clock::starting_at(at(0, 0));
    assert_eq!(clock.poll(at(1, 0)), Some([0, 0, 0, 0]));
    clock.arm_timer(Span::from_secs(0), at(1, 100_000_000));
    assert_eq!(clock.poll(at(1, 200_000_000)), None);
    assert!(is_clock(&clock));
    assert_eq!(clock.poll(at(1, 300_000_000)), None);
    assert_eq!(clock.poll(at(2, 0)), Some([0, 0, 0, 0]));
}

#[test]
fn rearming_replaces_the_running_timer() {
    let mut clock = Clock::starting_at(at(0, 0));
    clock.arm_timer(Span::from_minutes(10).unwrap(), at(0, 0));
    assert_eq!(clock.poll(at(30, 0)), Some([0, 9, 3, 0]));
    clock.arm_timer(Span::from_minutes(1).unwrap(), at(30, 0));
    assert_eq!(clock.poll(at(30, 0)), Some([0, 1, 0, 0]));
    assert_eq!(clock.poll(at(90, 0)), Some([0, 0, 0, 0]));
    assert_eq!(clock.poll(at(91, 0)), None);
    assert!(is_clock(&clock));

    let mut fresh = Clock::starting_at(at(0, 0));
    fresh.arm_timer(Span::from_minutes(1).unwrap(), at(30, 0));
    let mut rearmed = Clock::starting_at(at(0, 0));
    rearmed.arm_timer(Span::from_minutes(10).unwrap(), at(0, 0));
    rearmed.arm_timer(Span::from_minutes(1).unwrap(), at(30, 0));
    for secs in [0u64, 30, 45, 90, 91, 600, 601] {
        assert_eq!(fresh.poll(at(secs, 0)), rearmed.poll(at(secs, 0)));
    }
}

#[test]
fn countdown_past_ninety_nine_minutes_is_not_clamped() {
    assert_eq!(countdown_content(&Span::new(99 * 60 + 59, 999_999_999)), [9, 9, 5, 9]);
    assert_eq!(countdown_content(&Span::from_minutes(100).unwrap()), [10, 0, 0, 0]);
    assert_eq!(countdown_content(&Span::new(150 * 60 + 7, 0)), [15, 0, 0, 7]);
    let mut clock = Clock::starting_at(at(0, 0));
    clock.arm_timer(Span::new(u64::MAX, 0), at(0, 0));
    assert_eq!(clock.poll(at(0, 0)), Some([u64::MAX / 600, (u64::MAX / 60) % 10, 1, 5]));
}

#[test]
fn countdown_content_decomposes_minutes_and_seconds() {
    assert_eq!(countdown_content(&Span::from_secs(0)), [0, 0, 0, 0]);
    assert_eq!(countdown_content(&Span::new(0, 999_999_999)), [0, 0, 0, 0]);
    assert_eq!(countdown_content(&Span::from_secs(59)), [0, 0, 5, 9]);
    assert_eq!(countdown_content(&Span::from_secs(60)), [0, 1, 0, 0]);
    assert_eq!(countdown_content(&Span::from_secs(12 * 60 + 34)), [1, 2, 3, 4]);
}

#[test]
fn new_clock_starts_in_clock_mode_at_the_present() {
    let clock = Clock::new();
    assert!(is_clock(&clock));
    assert!(clock.last_tick.as_unix_nanos() > 1_600_000_000_000_000_000);
}

#[test]
fn now_moves_forward_from_a_recent_date() {
    let first = Timestamp::now();
    let second = Timestamp::now();
    assert!(first.as_unix_nanos() > 1_600_000_000_000_000_000);
    assert!(second.as_unix_nanos() >= first.as_unix_nanos());
}

#[test]
fn tick_polls_at_the_present() {
    let mut clock = Clock::starting_at(at(0, 0));
    let shown = clock.tick().unwrap();
    assert!(shown[0] <= 2 && shown[1] <= 9 && shown[2] <= 5 && shown[3] <= 9);
    assert!(shown[0] * 10 + shown[1] <= 23);
    assert!(clock.last_tick.as_unix_nanos() > 1_600_000_000_000_000_000);
    assert!(is_clock(&clock));
}

#[test]
fn set_timer_arms_at_the_present() {
    let mut clock = Clock::starting_at(at(0, 0));
    clock.set_timer(Span::from_minutes(2).unwrap());
    match clock.mode {
        ClockMode::Timer(start, duration) => {
            assert!(start.as_unix_nanos() > 1_600_000_000_000_000_000);
            assert_eq!(duration.as_nanos(), 120_000_000_000);
        }
        ClockMode::Clock => panic!("the timer was not armed"),
    }
    assert_eq!(clock.last_tick.as_unix_nanos(), 0);
    let shown = clock.tick().unwrap();
    assert!(shown == [0, 2, 0, 0] || shown == [0, 1, 5, 9]);
}
