//! The time source: it decides, poll by poll, whether the display shows the time of day or a
//! countdown, and which four digits that is.

use chrono::{DateTime, Timelike, Utc};
use vstd::prelude::*;

use crate::display::DisplayContent;
use crate::time::{Span, Timestamp, NANOS_PER_SEC};

verus! {

/// Shortest time between two emissions of the time of day, in seconds.
pub const TICK_SECS: u64 = 1;

/// First second, counted from the Unix epoch, that the calendar can name: the start of the
/// year -262143.
pub const CALENDAR_MIN_SECS: i64 = -8_334_601_228_800;

/// Last second, counted from the Unix epoch, that the calendar can name: the end of the year
/// 262142.
pub const CALENDAR_MAX_SECS: i64 = 8_210_266_876_799;

/// Whether the calendar can name the second `unix_secs`.
pub open spec fn in_calendar(unix_secs: int) -> bool {
    CALENDAR_MIN_SECS <= unix_secs <= CALENDAR_MAX_SECS
}

/// Hour of the day, in UTC, of the second `unix_secs`.
pub open spec fn hour_of_day(unix_secs: int) -> int {
    (unix_secs / 3600) % 24
}

/// Minute of the hour of the second `unix_secs`.
pub open spec fn minute_of_hour(unix_secs: int) -> int {
    (unix_secs / 60) % 60
}

/// The digits of a time of day: tens and ones of the hour, then tens and ones of the minute.
pub open spec fn wall_digits(unix_secs: int) -> Seq<int> {
    seq![
        hour_of_day(unix_secs) / 10,
        hour_of_day(unix_secs) % 10,
        minute_of_hour(unix_secs) / 10,
        minute_of_hour(unix_secs) % 10,
    ]
}

/// The digits of a countdown with `remaining_secs` left: tens and ones of the minutes, then
/// tens and ones of the seconds. Past 99:59 the first digit is no longer a single digit.
pub open spec fn countdown_digits(remaining_secs: int) -> Seq<int> {
    seq![
        remaining_secs / 60 / 10,
        remaining_secs / 60 % 10,
        remaining_secs % 60 / 10,
        remaining_secs % 60 % 10,
    ]
}

/// The four values of `content` as mathematical integers.
pub open spec fn digits_of(content: DisplayContent) -> Seq<int> {
    seq![content[0] as int, content[1] as int, content[2] as int, content[3] as int]
}

/// Asks chrono (`DateTime::<Utc>::from_timestamp`, then `hour` and `minute` of `Timelike`) for
/// the time of day at `unix_secs` seconds from the Unix epoch. Believed, not proved: chrono
/// answers exactly for the seconds whose year lies in -262143..=262142, and its hour and
/// minute are the second's place in a day of 86400 seconds, leap seconds not counted.
#[verifier::external_body]
fn utc_hour_minute(unix_secs: i64) -> (time: Option<(u32, u32)>)
    ensures
        time is Some <==> in_calendar(unix_secs as int),
        time matches Some((hour, minute)) ==> hour == hour_of_day(unix_secs as int) && minute
            == minute_of_hour(unix_secs as int),
{
    match DateTime::<Utc>::from_timestamp(unix_secs, 0) {
        Some(t) => Some((t.hour(), t.minute())),
        None => None,
    }
}

/// The time of day at `now` as four digits, where the calendar can name that instant.
pub fn wall_clock_content(now: &Timestamp) -> (content: Option<DisplayContent>)
    ensures
        content is Some <==> in_calendar(now.unix_secs()),
        content matches Some(c) ==> digits_of(c) == wall_digits(now.unix_secs()),
{
    let secs: i128 = now.whole_unix_secs();
    if secs < CALENDAR_MIN_SECS as i128 || secs > CALENDAR_MAX_SECS as i128 {
        return None;
    }
    match utc_hour_minute(secs as i64) {
        Some((hour, minute)) => {
            let content: DisplayContent = [
                (hour / 10) as u64,
                (hour % 10) as u64,
                (minute / 10) as u64,
                (minute % 10) as u64,
            ];
            assert(digits_of(content) =~= wall_digits(now.unix_secs()));
            Some(content)
        },
        None => None,
    }
}

/// The time left on a countdown as four digits.
pub fn countdown_content(remaining: &Span) -> (content: DisplayContent)
    ensures
        digits_of(content) == countdown_digits(remaining.secs() as int),
{
    let secs: u128 = remaining.as_secs();
    let content: DisplayContent = [
        (secs / 60 / 10) as u64,
        (secs / 60 % 10) as u64,
        (secs % 60 / 10) as u64,
        (secs % 60 % 10) as u64,
    ];
    assert(digits_of(content) =~= countdown_digits(remaining.secs() as int));
    content
}

/// What the display is showing.
#[derive(Clone, Copy, Debug)]
pub enum ClockMode {
    /// The time of day.
    Clock,
    /// A countdown: the instant it was armed at and the time it runs for.
    Timer(Timestamp, Span),
}

/// The time source. It starts in clock mode and has no final state.
#[derive(Clone, Copy, Debug)]
pub struct Clock {
    /// What the display is showing.
    pub mode: ClockMode,
    /// The instant of the last emission of the time of day.
    pub last_tick: Timestamp,
}

impl Clock {
    /// Whether enough time has passed at `now` since the last emission of the time of day.
    pub open spec fn due(self, now: Timestamp) -> bool {
        now.nanos_since(self.last_tick) >= TICK_SECS * NANOS_PER_SEC
    }

    /// Whether a countdown armed at `start` for `duration` is over at `now`. A clock that has
    /// gone back behind `start` counts as no time passed.
    pub open spec fn expired(start: Timestamp, duration: Span, now: Timestamp) -> bool {
        now.nanos_since(start) > duration.nanos()
    }

    /// Whole seconds left at `now` of a countdown armed at `start` for `duration`.
    pub open spec fn remaining_secs(start: Timestamp, duration: Span, now: Timestamp) -> int {
        (duration.nanos() - now.nanos_since(start)) / (NANOS_PER_SEC as int)
    }

    /// The digits that a poll at `now` emits, if it emits any.
    pub open spec fn poll_digits(self, now: Timestamp) -> Option<Seq<int>> {
        match self.mode {
            ClockMode::Clock => if self.due(now) && in_calendar(now.unix_secs()) {
                Some(wall_digits(now.unix_secs()))
            } else {
                None
            },
            ClockMode::Timer(start, duration) => if Self::expired(start, duration, now) {
                None
            } else {
                Some(countdown_digits(Self::remaining_secs(start, duration, now)))
            },
        }
    }

    /// The state that a poll at `now` leaves behind.
    pub open spec fn after_poll(self, now: Timestamp) -> Clock {
        match self.mode {
            ClockMode::Clock => if self.due(now) && in_calendar(now.unix_secs()) {
                Clock { mode: ClockMode::Clock, last_tick: now }
            } else {
                self
            },
            ClockMode::Timer(start, duration) => if Self::expired(start, duration, now) {
                Clock { mode: ClockMode::Clock, last_tick: self.last_tick }
            } else {
                self
            },
        }
    }

    /// The state after a countdown of `duration` was armed at `now`.
    pub open spec fn after_arm(self, duration: Span, now: Timestamp) -> Clock {
        Clock { mode: ClockMode::Timer(now, duration), last_tick: self.last_tick }
    }

    /// Whether `shown` is what a poll at `now` returns from the state `self`.
    pub open spec fn poll_returns(self, now: Timestamp, shown: Option<DisplayContent>) -> bool {
        match (shown, self.poll_digits(now)) {
            (Some(content), Some(digits)) => digits_of(content) == digits,
            (None, None) => true,
            _ => false,
        }
    }

    /// A time source in clock mode whose last emission counts as made at `now`.
    pub fn starting_at(now: Timestamp) -> (clock: Clock)
        ensures
            clock == (Clock { mode: ClockMode::Clock, last_tick: now }),
    {
        Clock { mode: ClockMode::Clock, last_tick: now }
    }

    /// Decides what to show at `now`.
    ///
    /// In clock mode the time of day is emitted at most once per tick. In timer mode the time
    /// left is emitted on every poll, until the countdown is over: the poll that finds it over
    /// emits nothing and goes back to clock mode.
    pub fn poll(&mut self, now: Timestamp) -> (shown: Option<DisplayContent>)
        ensures
            *final(self) == old(self).after_poll(now),
            old(self).poll_returns(now, shown),
    {
        match self.mode {
            ClockMode::Clock => {
                if now.since(&self.last_tick).reaches(&Span::from_secs(TICK_SECS)) {
                    let shown: Option<DisplayContent> = wall_clock_content(&now);
                    if shown.is_some() {
                        self.last_tick = now;
                    }
                    shown
                } else {
                    None
                }
            },
            ClockMode::Timer(start, duration) => {
                let elapsed: Span = now.since(&start);
                if elapsed.exceeds(&duration) {
                    self.mode = ClockMode::Clock;
                    None
                } else {
                    Some(countdown_content(&duration.minus(&elapsed)))
                }
            },
        }
    }

    /// Arms a countdown of `duration` that starts at `now`. A countdown that is running is
    /// dropped.
    pub fn arm_timer(&mut self, duration: Span, now: Timestamp)
        ensures
            *final(self) == old(self).after_arm(duration, now),
    {
        self.mode = ClockMode::Timer(now, duration);
    }

    /// A time source in clock mode, started at the present instant.
    pub fn new() -> (clock: Clock)
        ensures
            clock.mode is Clock,
    {
        Clock::starting_at(Timestamp::now())
    }

    /// Polls at the present instant.
    pub fn tick(&mut self) -> (shown: Option<DisplayContent>)
        ensures
            exists|now: Timestamp|
                *final(self) == #[trigger] old(self).after_poll(now) && old(self).poll_returns(
                    now,
                    shown,
                ),
    {
        let now: Timestamp = Timestamp::now();
        self.poll(now)
    }

    /// Arms a countdown of `duration` that starts at the present instant.
    pub fn set_timer(&mut self, duration: Span)
        ensures
            final(self).mode matches ClockMode::Timer(now, armed_for) && armed_for == duration
                && *final(self) == old(self).after_arm(duration, now),
    {
        let now: Timestamp = Timestamp::now();
        self.arm_timer(duration, now)
    }
}

/// Every digit of a time of day is a single digit.
pub proof fn lemma_wall_digits_in_range(unix_secs: int)
    ensures
        wall_digits(unix_secs).len() == 4,
        forall|i: int| 0 <= i < 4 ==> 0 <= #[trigger] wall_digits(unix_secs)[i] <= 9,
        0 <= hour_of_day(unix_secs) < 24,
        0 <= minute_of_hour(unix_secs) < 60,
{
}

/// Every digit of a countdown is a single digit as long as less than a hundred minutes are
/// left; the last three are single digits whatever is left.
pub proof fn lemma_countdown_digits_in_range(remaining_secs: int)
    requires
        0 <= remaining_secs,
    ensures
        countdown_digits(remaining_secs).len() == 4,
        forall|i: int| 1 <= i < 4 ==> 0 <= #[trigger] countdown_digits(remaining_secs)[i] <= 9,
        0 <= countdown_digits(remaining_secs)[0],
        remaining_secs < 100 * 60 <==> countdown_digits(remaining_secs)[0] <= 9,
{
}

/// Of two polls in clock mode that are less than a tick apart, at most one emits.
pub proof fn lemma_clock_polls_are_throttled(clock: Clock, first: Timestamp, second: Timestamp)
    requires
        clock.mode is Clock,
        second.unix_nanos() - first.unix_nanos() < TICK_SECS * NANOS_PER_SEC,
    ensures
        !(clock.poll_digits(first) is Some && clock.after_poll(first).poll_digits(second) is Some),
{
}

/// A poll at the very instant at which a countdown was armed shows the whole duration, and
/// the countdown goes on.
pub proof fn lemma_poll_at_arming_shows_duration(clock: Clock, duration: Span, now: Timestamp)
    ensures
        clock.after_arm(duration, now).poll_digits(now) == Some(
            countdown_digits(duration.secs() as int),
        ),
        clock.after_arm(duration, now).after_poll(now) == clock.after_arm(duration, now),
{
}

/// While a countdown runs, a poll never shows a negative time: not when the clock has gone
/// back behind the arming instant either, where it shows the whole duration.
pub proof fn lemma_countdown_never_negative(
    clock: Clock,
    duration: Span,
    armed_at: Timestamp,
    now: Timestamp,
)
    requires
        !Clock::expired(armed_at, duration, now),
    ensures
        0 <= Clock::remaining_secs(armed_at, duration, now) <= duration.secs(),
        now.unix_nanos() <= armed_at.unix_nanos() ==> Clock::remaining_secs(
            armed_at,
            duration,
            now,
        ) == duration.secs(),
        clock.after_arm(duration, armed_at).poll_digits(now) == Some(
            countdown_digits(Clock::remaining_secs(armed_at, duration, now)),
        ),
{
    let left: int = duration.nanos() - now.nanos_since(armed_at);
    assert(0 <= left / 1_000_000_000 <= duration.nanos() as int / 1_000_000_000)
        by (nonlinear_arith)
        requires
            0 <= left <= duration.nanos(),
    ;
}

/// The first poll after a countdown has run out emits nothing and goes back to clock mode,
/// with the throttle where it stood. From there a poll emits nothing but the time of day.
pub proof fn lemma_expired_countdown_returns_to_clock(
    clock: Clock,
    duration: Span,
    armed_at: Timestamp,
    later: Timestamp,
    next: Timestamp,
)
    requires
        later.unix_nanos() > armed_at.unix_nanos() + duration.nanos(),
    ensures
        clock.after_arm(duration, armed_at).poll_digits(later) is None,
        clock.after_arm(duration, armed_at).after_poll(later) == (Clock {
            mode: ClockMode::Clock,
            last_tick: clock.last_tick,
        }),
        clock.after_arm(duration, armed_at).after_poll(later).poll_digits(next) matches Some(digits)
            ==> digits == wall_digits(next.unix_secs()),
{
}

/// Once a countdown has run out and a poll has seen it, the next poll shows the time of day,
/// provided that it is due and that the calendar can name its instant.
pub proof fn lemma_clock_resumes_after_countdown(
    clock: Clock,
    duration: Span,
    armed_at: Timestamp,
    later: Timestamp,
    next: Timestamp,
)
    requires
        later.unix_nanos() > armed_at.unix_nanos() + duration.nanos(),
        next.nanos_since(clock.last_tick) >= TICK_SECS * NANOS_PER_SEC,
        in_calendar(next.unix_secs()),
    ensures
        clock.after_arm(duration, armed_at).after_poll(later).poll_digits(next) == Some(
            wall_digits(next.unix_secs()),
        ),
        clock.after_arm(duration, armed_at).after_poll(later).after_poll(next) == (Clock {
            mode: ClockMode::Clock,
            last_tick: next,
        }),
{
}

/// Arming a countdown while another one runs replaces it: the state is the one that the new
/// countdown alone would have given, so no later poll can tell that there was another.
pub proof fn lemma_rearm_overwrites(
    clock: Clock,
    first_duration: Span,
    first_armed_at: Timestamp,
    duration: Span,
    armed_at: Timestamp,
    later: Timestamp,
)
    ensures
        clock.after_arm(first_duration, first_armed_at).after_arm(duration, armed_at)
            == clock.after_arm(duration, armed_at),
        clock.after_arm(first_duration, first_armed_at).after_arm(duration, armed_at).poll_digits(
            later,
        ) == clock.after_arm(duration, armed_at).poll_digits(later),
        clock.after_arm(first_duration, first_armed_at).after_arm(duration, armed_at).after_poll(
            later,
        ) == clock.after_arm(duration, armed_at).after_poll(later),
{
}

} // verus!
