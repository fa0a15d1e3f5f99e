//! Instants of wall-clock time, as whole nanoseconds since the Unix epoch.
//!
//! The library keeps time as two integers and turns to `chrono` for the two
//! things that only a calendar library can do: reading the clock and writing
//! an instant as a date.

use vstd::prelude::*;

verus! {

/// 0000-01-01T00:00:00Z, in seconds since the Unix epoch.
pub const MIN_SECONDS: i64 = -62_167_219_200;

/// 9999-12-31T23:59:59Z, in seconds since the Unix epoch.
pub const MAX_SECONDS: i64 = 253_402_300_799;

/// The first number of nanoseconds that is a whole second.
pub const NANOS_PER_SECOND: u32 = 1_000_000_000;

/// The number of nanoseconds in a millisecond.
pub const NANOS_PER_MILLI: u32 = 1_000_000;

/// Whether `nanos`, a number of nanoseconds since the Unix epoch, lies within
/// the years 0000 to 9999.
pub open spec fn in_range(nanos: int) -> bool {
    MIN_SECONDS * NANOS_PER_SECOND <= nanos < (MAX_SECONDS + 1) * NANOS_PER_SECOND
}

/// The whole milliseconds in `nanos` nanoseconds, rounded towards the past.
pub open spec fn millis_of(nanos: int) -> int {
    nanos / (NANOS_PER_MILLI as int)
}

/// The instant that lies `millis` milliseconds after the Unix epoch.
pub open spec fn nanos_of_millis(millis: int) -> int {
    millis * NANOS_PER_MILLI
}

/// What `chrono` writes for the instant `seconds` and `nanos` after the Unix
/// epoch when a `DateTime<Utc>` is formatted with `{:?}`.
pub uninterp spec fn utc_debug_text(seconds: int, nanos: int) -> Seq<char>;

/// An instant between the years 0000 and 9999, with nanosecond precision.
#[derive(Clone, Copy, Debug)]
pub struct Timestamp {
    seconds: i64,
    nanos: u32,
}

impl View for Timestamp {
    type V = int;

    /// The instant in nanoseconds since the Unix epoch.
    closed spec fn view(&self) -> int {
        self.seconds * NANOS_PER_SECOND + self.nanos
    }
}

/// Reads the system clock with `chrono::Utc::now` and returns the seconds and
/// the nanoseconds of that instant. Nothing is claimed of the reading. The
/// call relies on a system clock that is set to an instant which `chrono` can
/// hold and which is not before 1970: elsewhere `Utc::now` does not return.
#[verifier::external_body]
fn clock_reading() -> (r: (i64, u32)) {
    let now = chrono::Utc::now();
    (now.timestamp(), now.timestamp_subsec_nanos())
}

/// Formats the instant with `{:?}` of `chrono::DateTime<Utc>`. The instant is
/// built by `DateTime::from_timestamp`, which accepts every second of the years
/// 0000 to 9999 with less than a second of nanoseconds.
#[verifier::external_body]
fn debug_text(seconds: i64, nanos: u32) -> (r: String)
    requires
        MIN_SECONDS <= seconds <= MAX_SECONDS,
        nanos < NANOS_PER_SECOND,
    ensures
        r@ == utc_debug_text(seconds as int, nanos as int),
{
    format!("{:?}", chrono::DateTime::<chrono::Utc>::from_timestamp(seconds, nanos).unwrap())
}

impl Timestamp {
    /// Whether the instant is one that an executable value can hold. Every
    /// executable `Timestamp` is.
    #[verifier::type_invariant]
    pub closed spec fn wf(self) -> bool {
        MIN_SECONDS <= self.seconds <= MAX_SECONDS && self.nanos < NANOS_PER_SECOND
    }

    /// The instant `seconds` and `nanos` after the Unix epoch, if it lies in
    /// the years 0000 to 9999 and `nanos` is less than a second.
    pub fn new(seconds: i64, nanos: u32) -> (r: Option<Timestamp>)
        ensures
            r.is_some() <==> MIN_SECONDS <= seconds <= MAX_SECONDS && nanos < NANOS_PER_SECOND,
            r matches Some(t) ==> t@ == seconds * NANOS_PER_SECOND + nanos && t.wf(),
    {
        if MIN_SECONDS <= seconds && seconds <= MAX_SECONDS && nanos < NANOS_PER_SECOND {
            Some(Timestamp { seconds, nanos })
        } else {
            None
        }
    }

    /// The instant nearest to `seconds` and `nanos` that a `Timestamp` can
    /// hold: the reading itself where it is in range, else the first or the
    /// last instant of the range. A count of nanoseconds of a second or more
    /// becomes the last nanosecond of that second.
    pub fn clamped(seconds: i64, nanos: u32) -> (t: Timestamp)
        ensures
            t.wf(),
            t@ == clamped_nanos(seconds as int, nanos as int),
    {
        if seconds < MIN_SECONDS {
            Timestamp { seconds: MIN_SECONDS, nanos: 0 }
        } else if seconds > MAX_SECONDS {
            Timestamp { seconds: MAX_SECONDS, nanos: NANOS_PER_SECOND - 1 }
        } else if nanos >= NANOS_PER_SECOND {
            Timestamp { seconds, nanos: NANOS_PER_SECOND - 1 }
        } else {
            Timestamp { seconds, nanos }
        }
    }

    /// The current time of the system clock, clamped into range.
    pub fn now() -> (t: Timestamp)
        ensures
            t.wf(),
            in_range(t@),
    {
        let (seconds, nanos) = clock_reading();
        let t = Timestamp::clamped(seconds, nanos);
        proof {
            t.lemma_range();
        }
        t
    }

    /// The whole seconds since the Unix epoch, rounded towards the past.
    pub fn seconds(&self) -> (r: i64)
        ensures
            r == self@ / (NANOS_PER_SECOND as int),
            MIN_SECONDS <= r <= MAX_SECONDS,
    {
        proof {
            use_type_invariant(self);
        }
        self.seconds
    }

    /// The nanoseconds since the last whole second.
    pub fn subsec_nanos(&self) -> (r: u32)
        ensures
            r == self@ % (NANOS_PER_SECOND as int),
            r < NANOS_PER_SECOND,
    {
        proof {
            use_type_invariant(self);
        }
        self.nanos
    }

    /// The whole milliseconds since the Unix epoch, rounded towards the past.
    pub fn millis(&self) -> (r: i64)
        ensures
            r == millis_of(self@),
    {
        proof {
            use_type_invariant(self);
        }
        self.seconds * 1000 + (self.nanos / NANOS_PER_MILLI) as i64
    }

    /// The instant `millis` milliseconds after the Unix epoch, if it lies in
    /// the years 0000 to 9999.
    pub fn from_millis(millis: i64) -> (r: Option<Timestamp>)
        ensures
            r.is_some() <==> in_range(nanos_of_millis(millis as int)),
            r matches Some(t) ==> t@ == nanos_of_millis(millis as int) && t.wf(),
    {
        if millis < MIN_SECONDS * 1000 || millis > MAX_SECONDS * 1000 + 999 {
            return None;
        }
        let since_min: u64 = (millis - MIN_SECONDS * 1000) as u64;
        let seconds: i64 = MIN_SECONDS + (since_min / 1000) as i64;
        let rest: u32 = (since_min % 1000) as u32;
        Some(Timestamp { seconds, nanos: rest * NANOS_PER_MILLI })
    }

    /// The instant as `chrono` writes a UTC date and time for debugging, such
    /// as `2020-10-17T12:34:56.123456789Z`.
    pub fn to_text(&self) -> (r: String)
        ensures
            r@ == utc_debug_text(
                self@ / (NANOS_PER_SECOND as int),
                self@ % (NANOS_PER_SECOND as int),
            ),
    {
        proof {
            use_type_invariant(self);
        }
        debug_text(self.seconds, self.nanos)
    }

    /// Every well-formed instant lies in the years 0000 to 9999.
    pub proof fn lemma_range(self)
        requires
            self.wf(),
        ensures
            in_range(self@),
    {
    }
}

/// The view of `Timestamp::clamped(seconds, nanos)`.
pub open spec fn clamped_nanos(seconds: int, nanos: int) -> int {
    if seconds < MIN_SECONDS {
        MIN_SECONDS * NANOS_PER_SECOND
    } else if seconds > MAX_SECONDS {
        (MAX_SECONDS + 1) * NANOS_PER_SECOND - 1
    } else if nanos >= NANOS_PER_SECOND {
        seconds * NANOS_PER_SECOND + NANOS_PER_SECOND - 1
    } else {
        seconds * NANOS_PER_SECOND + nanos
    }
}

/// Storing an instant with millisecond precision and reading it back gives an
/// instant that is not later than the one stored and less than one
/// millisecond earlier.
pub proof fn lemma_millis_round_trip(nanos: int)
    requires
        in_range(nanos),
    ensures
        in_range(nanos_of_millis(millis_of(nanos))),
        nanos_of_millis(millis_of(nanos)) <= nanos < nanos_of_millis(millis_of(nanos))
            + NANOS_PER_MILLI,
        i64::MIN <= millis_of(nanos) <= i64::MAX,
{
}

} // verus!
