//! Locations to poll and the observations made of them.

use vstd::prelude::*;
use vstd::string::*;
use crate::decimal::{decimal_text, i32_to_text};
use crate::extract::{
    free_selector, match_count, occupied_selector, read_page, reads_page, PageReadings, Strategy,
};
use crate::timestamp::{in_range, utc_debug_text, Timestamp, NANOS_PER_SECOND};

verus! {

/// A gym to poll: the name that labels its observations and the token that
/// gives access to its status page.
#[derive(Debug)]
pub struct LocationToken {
    pub location: String,
    pub token: String,
}

/// The mathematical value of a `LocationToken`.
pub struct LocationTokenView {
    pub location: Seq<char>,
    pub token: Seq<char>,
}

impl View for LocationToken {
    type V = LocationTokenView;

    open spec fn view(&self) -> LocationTokenView {
        LocationTokenView { location: self.location@, token: self.token@ }
    }
}

/// The mathematical value of a `VisitorCount`: the time in nanoseconds since
/// the Unix epoch, the name of the location and the two counters.
pub struct Observation {
    pub time: int,
    pub location: Seq<char>,
    pub free: int,
    pub occupied: int,
}

/// Whether an executable `VisitorCount` can hold the observation: its time
/// lies in the years 0000 to 9999 and its counters lie between zero and
/// `i32::MAX`.
pub open spec fn valid_observation(o: Observation) -> bool {
    &&& in_range(o.time)
    &&& 0 <= o.free <= i32::MAX
    &&& 0 <= o.occupied <= i32::MAX
}

/// The observation that is made at `time` of `location` from the readings of
/// its page: a counter that was not read counts as zero.
pub open spec fn observation_of(
    location: Seq<char>,
    time: int,
    readings: PageReadings,
) -> Observation {
    Observation {
        time,
        location,
        free: readings.free.count_spec(),
        occupied: readings.occupied.count_spec(),
    }
}

/// The line that reports an observation on the console.
pub open spec fn line_text(o: Observation) -> Seq<char> {
    let seconds = o.time / (NANOS_PER_SECOND as int);
    let nanos = o.time % (NANOS_PER_SECOND as int);
    "(time: "@ + utc_debug_text(seconds, nanos) + ", location: "@ + o.location + ", occupied: "@
        + decimal_text(o.occupied) + ", free: "@ + decimal_text(o.free) + ")"@
}

/// The free and the occupied capacity of one location at one instant.
#[derive(Debug)]
pub struct VisitorCount {
    time: Timestamp,
    location: String,
    free: i32,
    occupied: i32,
}

impl View for VisitorCount {
    type V = Observation;

    closed spec fn view(&self) -> Observation {
        Observation {
            time: self.time@,
            location: self.location@,
            free: self.free as int,
            occupied: self.occupied as int,
        }
    }
}

impl VisitorCount {
    /// Whether the value is one that executable code can hold. Every
    /// executable `VisitorCount` is.
    #[verifier::type_invariant]
    pub closed spec fn wf(self) -> bool {
        self.time.wf() && self.free >= 0 && self.occupied >= 0
    }

    /// The observation with the given parts, unless a counter is negative.
    pub fn new(time: Timestamp, location: &str, free: i32, occupied: i32) -> (r: Option<
        VisitorCount,
    >)
        ensures
            r.is_some() <==> free >= 0 && occupied >= 0,
            r matches Some(v) ==> v.wf() && v@ == (Observation {
                time: time@,
                location: location@,
                free: free as int,
                occupied: occupied as int,
            }),
    {
        proof {
            use_type_invariant(time);
        }
        if free >= 0 && occupied >= 0 {
            Some(VisitorCount { time, location: location.to_owned(), free, occupied })
        } else {
            None
        }
    }

    /// The observation made at `time` of `location` from the readings of its
    /// page. A counter that is absent or unreadable counts as zero.
    pub fn from_readings(location: &str, time: Timestamp, readings: PageReadings) -> (v:
        VisitorCount)
        ensures
            v.wf(),
            v@ == observation_of(location@, time@, readings),
    {
        proof {
            use_type_invariant(time);
        }
        VisitorCount {
            time,
            location: location.to_owned(),
            free: readings.free.count(),
            occupied: readings.occupied.count(),
        }
    }

    /// Extracts the observation of `location` from the markup of its status
    /// page, stamped with the time of the extraction, and returns it with the
    /// reading of each counter.
    ///
    /// The page is read in the given form of markup. A counter without a
    /// matching element is absent, and an absent or unreadable counter is
    /// zero in the observation.
    pub fn from_html(location: &str, body: &str, strategy: Strategy) -> (r: (
        VisitorCount,
        PageReadings,
    ))
        ensures
            r.0.wf(),
            reads_page(body@, strategy, r.1),
            r.0@ == observation_of(location@, r.0@.time, r.1),
            match_count(body@, occupied_selector(strategy)) == 0 ==> r.0@.occupied == 0,
            match_count(body@, free_selector(strategy)) == 0 ==> r.0@.free == 0,
    {
        let readings = read_page(body, strategy);
        let time = Timestamp::now();
        (VisitorCount::from_readings(location, time, readings), readings)
    }

    /// The time of the extraction.
    pub fn time(&self) -> (r: Timestamp)
        ensures
            r@ == self@.time,
            r.wf(),
    {
        proof {
            use_type_invariant(self);
        }
        self.time
    }

    /// The name of the location.
    pub fn location(&self) -> (r: &str)
        ensures
            r@ == self@.location,
    {
        self.location.as_str()
    }

    /// The free capacity.
    pub fn free(&self) -> (r: i32)
        ensures
            r == self@.free,
            r >= 0,
    {
        proof {
            use_type_invariant(self);
        }
        self.free
    }

    /// The occupied capacity.
    pub fn occupied(&self) -> (r: i32)
        ensures
            r == self@.occupied,
            r >= 0,
    {
        proof {
            use_type_invariant(self);
        }
        self.occupied
    }

    /// A second value of the same observation.
    pub fn duplicate(&self) -> (r: VisitorCount)
        ensures
            r@ == self@,
            r.wf(),
    {
        proof {
            use_type_invariant(self);
        }
        VisitorCount {
            time: self.time,
            location: self.location.clone(),
            free: self.free,
            occupied: self.occupied,
        }
    }

    /// The line that reports the observation on the console:
    /// `(time: .., location: .., occupied: .., free: ..)`.
    pub fn to_line(&self) -> (r: String)
        ensures
            r@ == line_text(self@),
    {
        let mut line = String::new();
        line.append("(time: ");
        line.append(self.time.to_text().as_str());
        line.append(", location: ");
        line.append(self.location.as_str());
        line.append(", occupied: ");
        line.append(i32_to_text(self.occupied).as_str());
        line.append(", free: ");
        line.append(i32_to_text(self.free).as_str());
        line.append(")");
        assert(line@ =~= line_text(self@));
        line
    }

    /// Every well-formed value holds a valid observation.
    pub proof fn lemma_valid(self)
        requires
            self.wf(),
        ensures
            valid_observation(self@),
    {
        self.time.lemma_range();
    }
}

} // verus!
