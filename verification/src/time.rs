//! Points in time and lengths of time, counted in whole nanoseconds.

use std::time::{Duration, SystemTime};
use vstd::prelude::*;

use crate::system::unix_epoch;

verus! {

/// Nanoseconds in one second.
pub const NANOS_PER_SEC: u32 = 1_000_000_000;

/// Seconds in one minute.
pub const SECS_PER_MINUTE: u64 = 60;

/// The longest distance from the Unix epoch that an instant can have, in nanoseconds:
/// `u64::MAX` seconds and `u32::MAX` nanoseconds.
pub const MAX_OFFSET_NANOS: u128 = 18_446_744_073_709_551_615_000_000_000 + 4_294_967_295;

/// The longest span, in nanoseconds: the distance between the two farthest instants.
pub const MAX_SPAN_NANOS: u128 = 2 * MAX_OFFSET_NANOS;

/// The whole seconds in the longest span.
pub const MAX_SPAN_SECS: u128 = 36_893_488_147_419_103_238;

/// A non-negative length of time.
#[derive(Clone, Copy, Debug)]
pub struct Span {
    nanos: u128,
}

impl Span {
    #[verifier::type_invariant]
    spec fn within_limit(self) -> bool {
        self.nanos <= MAX_SPAN_NANOS
    }

    /// The length in nanoseconds.
    pub closed spec fn nanos(self) -> nat {
        self.nanos as nat
    }

    /// The whole seconds in the span, the fraction dropped.
    pub open spec fn secs(self) -> nat {
        self.nanos() / (NANOS_PER_SEC as nat)
    }

    /// The span of `secs` seconds and `nanos` nanoseconds.
    pub fn new(secs: u64, nanos: u32) -> (span: Span)
        ensures
            span.nanos() == secs * NANOS_PER_SEC + nanos,
    {
        assert(secs * NANOS_PER_SEC <= u64::MAX * NANOS_PER_SEC) by (nonlinear_arith)
            requires
                secs <= u64::MAX,
        ;
        let whole: u128 = (secs as u128) * (NANOS_PER_SEC as u128);
        Span { nanos: whole + (nanos as u128) }
    }

    /// The span of `secs` whole seconds.
    pub fn from_secs(secs: u64) -> (span: Span)
        ensures
            span.nanos() == secs * NANOS_PER_SEC,
    {
        Span::new(secs, 0)
    }

    /// The span of `minutes` whole minutes, if its seconds fit in a `u64`.
    pub fn from_minutes(minutes: u64) -> (span: Option<Span>)
        ensures
            span is Some <==> minutes * SECS_PER_MINUTE <= u64::MAX,
            span matches Some(s) ==> s.nanos() == minutes * SECS_PER_MINUTE * NANOS_PER_SEC,
    {
        match minutes.checked_mul(SECS_PER_MINUTE) {
            Some(secs) => Some(Span::from_secs(secs)),
            None => None,
        }
    }

    /// The length in nanoseconds.
    pub fn as_nanos(&self) -> (n: u128)
        ensures
            n == self.nanos(),
            n <= MAX_SPAN_NANOS,
    {
        proof {
            use_type_invariant(self);
        }
        self.nanos
    }

    /// The whole seconds in the span, the fraction dropped.
    pub fn as_secs(&self) -> (s: u128)
        ensures
            s == self.secs(),
            s <= MAX_SPAN_SECS,
    {
        proof {
            use_type_invariant(self);
        }
        self.nanos / (NANOS_PER_SEC as u128)
    }

    /// Whether this span is strictly longer than `other`.
    pub fn exceeds(&self, other: &Span) -> (longer: bool)
        ensures
            longer == (self.nanos() > other.nanos()),
    {
        self.nanos > other.nanos
    }

    /// Whether this span is at least as long as `other`.
    pub fn reaches(&self, other: &Span) -> (reached: bool)
        ensures
            reached == (self.nanos() >= other.nanos()),
    {
        self.nanos >= other.nanos
    }

    /// What is left of this span once `spent` has passed; nothing if `spent` is longer.
    pub fn minus(&self, spent: &Span) -> (left: Span)
        ensures
            left.nanos() == if spent.nanos() >= self.nanos() {
                0
            } else {
                self.nanos() - spent.nanos()
            },
    {
        proof {
            use_type_invariant(self);
        }
        if spent.nanos >= self.nanos {
            Span { nanos: 0 }
        } else {
            Span { nanos: self.nanos - spent.nanos }
        }
    }
}

/// An instant of wall-clock time, placed by its signed distance from the Unix epoch.
#[derive(Clone, Copy, Debug)]
pub struct Timestamp {
    nanos: i128,
}

impl Timestamp {
    #[verifier::type_invariant]
    spec fn within_limit(self) -> bool {
        -(MAX_OFFSET_NANOS as int) <= self.nanos <= MAX_OFFSET_NANOS as int
    }

    /// Nanoseconds from the Unix epoch to this instant; negative before the epoch.
    pub closed spec fn unix_nanos(self) -> int {
        self.nanos as int
    }

    /// Whole seconds from the Unix epoch to this instant, rounded towards the past.
    pub open spec fn unix_secs(self) -> int {
        self.unix_nanos() / (NANOS_PER_SEC as int)
    }

    /// The time that has passed from `earlier` to this instant, in nanoseconds; zero where
    /// `earlier` is not in the past.
    pub open spec fn nanos_since(self, earlier: Timestamp) -> nat {
        if self.unix_nanos() >= earlier.unix_nanos() {
            (self.unix_nanos() - earlier.unix_nanos()) as nat
        } else {
            0
        }
    }

    /// The instant `secs` seconds and `nanos` nanoseconds after the Unix epoch.
    pub fn after_epoch(secs: u64, nanos: u32) -> (t: Timestamp)
        ensures
            t.unix_nanos() == secs * NANOS_PER_SEC + nanos,
    {
        let offset: u128 = Span::new(secs, nanos).as_nanos();
        Timestamp { nanos: offset as i128 }
    }

    /// The instant `secs` seconds and `nanos` nanoseconds before the Unix epoch.
    pub fn before_epoch(secs: u64, nanos: u32) -> (t: Timestamp)
        ensures
            t.unix_nanos() == -(secs * NANOS_PER_SEC + nanos),
    {
        let offset: u128 = Span::new(secs, nanos).as_nanos();
        Timestamp { nanos: -(offset as i128) }
    }

    /// The present instant, as the system clock reads it. The reading may lie on either side of
    /// the epoch; nothing is known of it.
    pub fn now() -> Timestamp {
        let reading: SystemTime = SystemTime::now();
        match reading.duration_since(unix_epoch()) {
            Ok(after) => Timestamp::after_epoch(after.as_secs(), after.subsec_nanos()),
            Err(error) => {
                let before: Duration = error.duration();
                Timestamp::before_epoch(before.as_secs(), before.subsec_nanos())
            },
        }
    }

    /// Nanoseconds from the Unix epoch to this instant; negative before the epoch.
    pub fn as_unix_nanos(&self) -> (n: i128)
        ensures
            n == self.unix_nanos(),
    {
        self.nanos
    }

    /// The time that has passed from `earlier` to this instant; zero where `earlier` is not in
    /// the past.
    pub fn since(&self, earlier: &Timestamp) -> (passed: Span)
        ensures
            passed.nanos() == self.nanos_since(*earlier),
    {
        proof {
            use_type_invariant(self);
            use_type_invariant(earlier);
        }
        if self.nanos >= earlier.nanos {
            Span { nanos: (self.nanos - earlier.nanos) as u128 }
        } else {
            Span { nanos: 0 }
        }
    }

    /// Whole seconds from the Unix epoch to this instant, rounded towards the past.
    pub fn whole_unix_secs(&self) -> (secs: i128)
        ensures
            secs == self.unix_secs(),
    {
        proof {
            use_type_invariant(self);
        }
        if self.nanos >= 0 {
            self.nanos / (NANOS_PER_SEC as i128)
        } else {
            let back: u128 = (-self.nanos) as u128;
            let whole: u128 = (back + (NANOS_PER_SEC as u128 - 1)) / (NANOS_PER_SEC as u128);
            assert(-(whole as int) == (-(back as int)) / (NANOS_PER_SEC as int)) by (nonlinear_arith)
                requires
                    whole == (back + (NANOS_PER_SEC - 1)) / (NANOS_PER_SEC as int),
                    NANOS_PER_SEC == 1_000_000_000,
            ;
            -(whole as i128)
        }
    }
}

} // verus!
