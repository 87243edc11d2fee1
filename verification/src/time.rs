//! Time and duration values.
//!
//! `Duration` is a span of non-negative time held as whole seconds plus a
//! sub-second nanosecond part; `Time` is a point in time counted from the
//! Unix epoch; `ZenobufDuration` is a signed second/nanosecond pair in the
//! shape used by message schemas.

use vstd::prelude::*;

verus! {

/// Number of nanoseconds in one second.
pub const NANOS_PER_SEC: u32 = 1_000_000_000;

/// A span of time: whole seconds plus a sub-second nanosecond part.
///
/// A well-formed duration keeps `nanos` strictly below one second; every
/// constructor of this module returns a well-formed value.
#[derive(Debug, Clone, Copy, PartialEq, Eq, Structural)]
pub struct Duration {
    /// Whole seconds.
    pub secs: u64,
    /// Nanoseconds below one second.
    pub nanos: u32,
}

impl Duration {
    /// The nanosecond part stays below one second.
    pub open spec fn wf(&self) -> bool {
        self.nanos < 1_000_000_000
    }

    /// The whole span in nanoseconds.
    pub open spec fn spec_nanos(&self) -> int {
        self.secs * 1_000_000_000 + self.nanos
    }

    /// Builds a duration from seconds and nanoseconds, carrying whole
    /// seconds out of the nanosecond part.
    pub fn new(secs: u64, nanos: u32) -> (r: Duration)
        requires
            secs + nanos as int / 1_000_000_000 <= u64::MAX,
        ensures
            r.wf(),
            r.spec_nanos() == secs * 1_000_000_000 + nanos,
    {
        if nanos >= NANOS_PER_SEC {
            let carry: u64 = (nanos / NANOS_PER_SEC) as u64;
            Duration { secs: secs + carry, nanos: nanos % NANOS_PER_SEC }
        } else {
            Duration { secs, nanos }
        }
    }

    /// A duration of `secs` whole seconds.
    pub fn from_secs(secs: u64) -> (r: Duration)
        ensures
            r.wf(),
            r.spec_nanos() == secs * 1_000_000_000,
    {
        Duration { secs, nanos: 0 }
    }

    /// A duration of `millis` milliseconds.
    pub fn from_millis(millis: u64) -> (r: Duration)
        ensures
            r.wf(),
            r.spec_nanos() == millis * 1_000_000,
    {
        let r = Duration { secs: millis / 1000, nanos: ((millis % 1000) as u32) * 1_000_000 };
        proof {
            assert(millis == 1000 * (millis / 1000) + millis % 1000);
        }
        r
    }

    /// A duration of `micros` microseconds.
    pub fn from_micros(micros: u64) -> (r: Duration)
        ensures
            r.wf(),
            r.spec_nanos() == micros * 1_000,
    {
        let r = Duration {
            secs: micros / 1_000_000,
            nanos: ((micros % 1_000_000) as u32) * 1_000,
        };
        proof {
            assert(micros == 1_000_000 * (micros / 1_000_000) + micros % 1_000_000);
        }
        r
    }

    /// A duration of `nanos` nanoseconds.
    pub fn from_nanos(nanos: u64) -> (r: Duration)
        ensures
            r.wf(),
            r.spec_nanos() == nanos,
    {
        let r = Duration {
            secs: nanos / 1_000_000_000,
            nanos: (nanos % 1_000_000_000) as u32,
        };
        proof {
            assert(nanos == 1_000_000_000 * (nanos / 1_000_000_000) + nanos % 1_000_000_000);
        }
        r
    }

    /// The whole seconds of the span.
    pub fn as_secs(&self) -> (r: u64)
        ensures
            r == self.secs,
    {
        self.secs
    }

    /// The sub-second part, in nanoseconds.
    pub fn subsec_nanos(&self) -> (r: u32)
        ensures
            r == self.nanos,
    {
        self.nanos
    }

    /// The sub-second part, in whole milliseconds.
    pub fn subsec_millis(&self) -> (r: u32)
        ensures
            r == self.nanos / 1_000_000,
    {
        self.nanos / 1_000_000
    }

    /// The whole span in nanoseconds.
    pub fn as_nanos(&self) -> (r: u128)
        ensures
            r == self.spec_nanos(),
    {
        (self.secs as u128) * 1_000_000_000 + (self.nanos as u128)
    }

    /// The sum of two spans, or `None` when the seconds overflow.
    pub fn checked_add(&self, other: &Duration) -> (r: Option<Duration>)
        requires
            self.wf(),
            other.wf(),
        ensures
            match r {
                Some(d) => d.wf() && d.spec_nanos() == self.spec_nanos() + other.spec_nanos(),
                None => self.spec_nanos() + other.spec_nanos() > u64::MAX * 1_000_000_000 + 999_999_999,
            },
    {
        let nanos: u32 = self.nanos + other.nanos;
        let carry: u64 = if nanos >= NANOS_PER_SEC { 1 } else { 0 };
        let nanos: u32 = if nanos >= NANOS_PER_SEC { nanos - NANOS_PER_SEC } else { nanos };
        match self.secs.checked_add(other.secs) {
            Some(s) => match s.checked_add(carry) {
                Some(secs) => Some(Duration { secs, nanos }),
                None => None,
            },
            None => None,
        }
    }

    /// The difference of two spans, or `None` when `other` is the longer.
    pub fn checked_sub(&self, other: &Duration) -> (r: Option<Duration>)
        requires
            self.wf(),
            other.wf(),
        ensures
            match r {
                Some(d) => d.wf() && d.spec_nanos() == self.spec_nanos() - other.spec_nanos(),
                None => self.spec_nanos() < other.spec_nanos(),
            },
    {
        if self.secs >= other.secs {
            if self.nanos >= other.nanos {
                Some(Duration { secs: self.secs - other.secs, nanos: self.nanos - other.nanos })
            } else if self.secs > other.secs {
                Some(
                    Duration {
                        secs: self.secs - other.secs - 1,
                        nanos: NANOS_PER_SEC - (other.nanos - self.nanos),
                    },
                )
            } else {
                None
            }
        } else {
            None
        }
    }
}

/// A point in time counted from the Unix epoch.
#[derive(Debug, Clone, Copy, PartialEq, Eq, Structural)]
pub struct Time {
    /// Seconds since the Unix epoch.
    pub sec: u64,
    /// Nanoseconds since the last second.
    pub nsec: u32,
}

impl Time {
    /// The nanosecond part stays below one second.
    pub open spec fn wf(&self) -> bool {
        self.nsec < 1_000_000_000
    }

    /// The point in time as nanoseconds since the epoch.
    pub open spec fn spec_nanos(&self) -> int {
        self.sec * 1_000_000_000 + self.nsec
    }

    /// Builds a time from seconds and nanoseconds, carrying whole seconds
    /// out of the nanosecond part.
    pub fn new(sec: u64, nsec: u32) -> (r: Time)
        requires
            sec + nsec as int / 1_000_000_000 <= u64::MAX,
        ensures
            r.wf(),
            r.spec_nanos() == sec * 1_000_000_000 + nsec,
    {
        let mut time = Time { sec, nsec };
        time.normalize();
        time
    }

    /// The current wall-clock time.
    pub fn now() -> (r: Time)
        ensures
            r.wf(),
    {
        let (sec, nsec) = clock_since_epoch();
        Time { sec, nsec }
    }

    /// The time `duration` after the Unix epoch.
    pub fn from_duration(duration: Duration) -> (r: Time)
        requires
            duration.wf(),
        ensures
            r.wf(),
            r.spec_nanos() == duration.spec_nanos(),
    {
        Time { sec: duration.secs, nsec: duration.nanos }
    }

    /// The span from the Unix epoch to this time.
    pub fn to_duration(&self) -> (r: Duration)
        requires
            self.wf(),
        ensures
            r.wf(),
            r.spec_nanos() == self.spec_nanos(),
    {
        Duration { secs: self.sec, nanos: self.nsec }
    }

    /// Carries whole seconds out of the nanosecond part.
    fn normalize(&mut self)
        requires
            old(self).sec + old(self).nsec as int / 1_000_000_000 <= u64::MAX,
        ensures
            final(self).wf(),
            final(self).spec_nanos() == old(self).spec_nanos(),
    {
        if self.nsec >= NANOS_PER_SEC {
            self.sec = self.sec + (self.nsec / NANOS_PER_SEC) as u64;
            self.nsec = self.nsec % NANOS_PER_SEC;
        }
    }

    /// The time `duration` after this one.
    pub fn add(&self, duration: Duration) -> (r: Time)
        requires
            self.wf(),
            duration.wf(),
            self.spec_nanos() + duration.spec_nanos() <= u64::MAX * 1_000_000_000 + 999_999_999,
        ensures
            r.wf(),
            r.spec_nanos() == self.spec_nanos() + duration.spec_nanos(),
    {
        let sum = match self.to_duration().checked_add(&duration) {
            Some(d) => d,
            None => Duration { secs: 0, nanos: 0 },
        };
        Time::from_duration(sum)
    }

    /// The time `duration` before this one, or the epoch when `duration`
    /// reaches further back than this time.
    pub fn sub(&self, duration: Duration) -> (r: Time)
        requires
            self.wf(),
            duration.wf(),
        ensures
            r.wf(),
            self.spec_nanos() >= duration.spec_nanos() ==> r.spec_nanos() == self.spec_nanos()
                - duration.spec_nanos(),
            self.spec_nanos() < duration.spec_nanos() ==> r.spec_nanos() == 0,
    {
        let diff = match self.to_duration().checked_sub(&duration) {
            Some(d) => d,
            None => Duration { secs: 0, nanos: 0 },
        };
        Time::from_duration(diff)
    }
}

impl From<Duration> for Time {
    /// The time `duration` after the Unix epoch.
    fn from(duration: Duration) -> (r: Time) {
        Time { sec: duration.secs, nsec: duration.nanos }
    }
}

impl vstd::std_specs::convert::FromSpecImpl<Duration> for Time {
    open spec fn obeys_from_spec() -> bool {
        true
    }

    open spec fn from_spec(duration: Duration) -> Time {
        Time { sec: duration.secs, nsec: duration.nanos }
    }
}

/// Reads the wall clock: relies on `std::time::SystemTime::now` and
/// `duration_since(UNIX_EPOCH)`, whose sub-second part is below one second.
/// Panics when the clock reads earlier than the Unix epoch.
#[verifier::external_body]
fn clock_since_epoch() -> (r: (u64, u32))
    ensures
        r.1 < 1_000_000_000,
{
    let now = std::time::SystemTime::now()
        .duration_since(std::time::UNIX_EPOCH)
        .expect("System time before Unix epoch");
    (now.as_secs(), now.subsec_nanos())
}

/// A signed second/nanosecond pair in the shape used by message schemas.
#[derive(Debug, Clone, Copy, PartialEq, Eq, Structural)]
pub struct ZenobufDuration {
    /// Seconds.
    pub sec: i32,
    /// Nanoseconds.
    pub nsec: i32,
}

/// What normalizing a signed second/nanosecond pair yields: whole seconds
/// are carried out of a nanosecond part that is one second or more, and a
/// negative nanosecond part borrows enough whole seconds to become
/// non-negative.
pub open spec fn spec_normalize_signed(sec: int, nsec: int) -> (int, int) {
    if nsec >= 1_000_000_000 {
        (sec + nsec / 1_000_000_000, nsec % 1_000_000_000)
    } else if nsec < 0 {
        let adj = (-nsec) / 1_000_000_000 + 1;
        (sec - adj, nsec + adj * 1_000_000_000)
    } else {
        (sec, nsec)
    }
}

impl ZenobufDuration {
    /// Builds a duration from seconds and nanoseconds and normalizes it.
    pub fn new(sec: i32, nsec: i32) -> (r: ZenobufDuration)
        requires
            nsec >= 1_000_000_000 ==> sec + nsec as int / 1_000_000_000 <= i32::MAX,
            nsec < 0 ==> nsec >= -1_999_999_999 && sec as int - ((-nsec) as int / 1_000_000_000
                + 1) >= i32::MIN,
        ensures
            (r.sec as int, r.nsec as int) == spec_normalize_signed(sec as int, nsec as int),
    {
        let mut duration = ZenobufDuration { sec, nsec };
        duration.normalize();
        duration
    }

    /// Builds a duration from an unsigned `Duration`, truncating the
    /// seconds into the signed 32-bit range as a plain integer cast does.
    pub fn from_std(duration: Duration) -> (r: ZenobufDuration)
        requires
            duration.wf(),
        ensures
            r.sec == duration.secs as i32,
            r.nsec == duration.nanos as i32,
    {
        #[verifier::truncate]
        let sec = duration.secs as i32;
        ZenobufDuration::new(sec, duration.nanos as i32)
    }

    /// The same span as an unsigned `Duration`; meaningful for
    /// non-negative durations.
    pub fn to_std(&self) -> (r: Duration)
        requires
            self.sec >= 0,
            0 <= self.nsec < 1_000_000_000,
        ensures
            r.wf(),
            r.spec_nanos() == self.sec * 1_000_000_000 + self.nsec,
    {
        Duration { secs: self.sec as u64, nanos: self.nsec as u32 }
    }

    /// Carries whole seconds out of the nanosecond part and borrows whole
    /// seconds into a negative nanosecond part.
    fn normalize(&mut self)
        requires
            old(self).nsec >= 1_000_000_000 ==> old(self).sec + old(self).nsec as int
                / 1_000_000_000 <= i32::MAX,
            old(self).nsec < 0 ==> old(self).nsec >= -1_999_999_999 && old(self).sec as int - ((-old(
                self,
            ).nsec) as int / 1_000_000_000 + 1) >= i32::MIN,
        ensures
            (final(self).sec as int, final(self).nsec as int) == spec_normalize_signed(
                old(self).sec as int,
                old(self).nsec as int,
            ),
    {
        if self.nsec >= NANOS_PER_SEC as i32 {
            self.sec = self.sec + self.nsec / (NANOS_PER_SEC as i32);
            self.nsec = self.nsec % (NANOS_PER_SEC as i32);
        } else if self.nsec < 0 {
            let sec_adj = (-self.nsec) / (NANOS_PER_SEC as i32) + 1;
            self.sec = self.sec - sec_adj;
            self.nsec = self.nsec + sec_adj * (NANOS_PER_SEC as i32);
        }
    }
}

impl From<Duration> for ZenobufDuration {
    /// The duration truncated into the signed 32-bit shape; meaningful for
    /// spans whose seconds fit in that range.
    fn from(duration: Duration) -> (r: ZenobufDuration) {
        let nanos = if duration.nanos >= NANOS_PER_SEC { duration.nanos % NANOS_PER_SEC } else {
            duration.nanos
        };
        #[verifier::truncate]
        let sec = duration.secs as i32;
        ZenobufDuration { sec, nsec: nanos as i32 }
    }
}

impl vstd::std_specs::convert::FromSpecImpl<Duration> for ZenobufDuration {
    open spec fn obeys_from_spec() -> bool {
        true
    }

    open spec fn from_spec(duration: Duration) -> ZenobufDuration {
        ZenobufDuration {
            sec: duration.secs as i32,
            nsec: (if duration.nanos >= 1_000_000_000 {
                duration.nanos as int % 1_000_000_000
            } else {
                duration.nanos as int
            }) as i32,
        }
    }
}

} // verus!
