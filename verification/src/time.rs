//! Lengths of time and clock readings.

use vstd::prelude::*;

verus! {

/// Nanoseconds in one second.
pub const NANOS_PER_SEC: u64 = 1_000_000_000;

/// A length of time. Its view is that length in nanoseconds.
#[derive(Clone, Copy, Debug)]
pub struct Duration {
    secs: u64,
    nanos: u32,
}

impl View for Duration {
    type V = nat;

    closed spec fn view(&self) -> nat {
        (self.secs * NANOS_PER_SEC + self.nanos) as nat
    }
}

impl Duration {
    #[verifier::type_invariant]
    spec fn wf(self) -> bool {
        self.nanos < NANOS_PER_SEC
    }

    /// The duration of `secs` seconds and `nanos` nanoseconds. Whole seconds
    /// among the nanoseconds are carried over.
    pub fn new(secs: u64, nanos: u32) -> (res: Duration)
        requires
            secs + nanos / 1_000_000_000 <= u64::MAX,
        ensures
            res@ == secs * NANOS_PER_SEC + nanos,
    {
        let carry: u32 = nanos / 1_000_000_000;
        Duration { secs: secs + carry as u64, nanos: nanos % 1_000_000_000 }
    }

    /// The whole seconds of the duration.
    pub fn as_secs(&self) -> (res: u64)
        ensures
            res == self@ / NANOS_PER_SEC as nat,
    {
        proof {
            use_type_invariant(self);
        }
        self.secs
    }

    /// What is left of the duration beyond its whole seconds, in nanoseconds.
    pub fn subsec_nanos(&self) -> (res: u32)
        ensures
            res == self@ % NANOS_PER_SEC as nat,
    {
        proof {
            use_type_invariant(self);
        }
        self.nanos
    }

    /// Whether the duration is shorter than `other`.
    pub fn shorter_than(&self, other: &Duration) -> (res: bool)
        ensures
            res == (self@ < other@),
    {
        proof {
            use_type_invariant(self);
            use_type_invariant(other);
        }
        self.secs < other.secs || (self.secs == other.secs && self.nanos < other.nanos)
    }
}

impl PartialEq for Duration {
    fn eq(&self, other: &Duration) -> (res: bool) {
        proof {
            use_type_invariant(self);
            use_type_invariant(other);
        }
        self.secs == other.secs && self.nanos == other.nanos
    }
}

impl vstd::std_specs::cmp::PartialEqSpecImpl for Duration {
    open spec fn obeys_eq_spec() -> bool {
        true
    }

    open spec fn eq_spec(&self, other: &Duration) -> bool {
        self@ == other@
    }
}

/// A reading of the pipeline's clock in nanoseconds, or none.
#[derive(Clone, Copy, Debug, PartialEq, Eq, Structural)]
pub struct ClockTime {
    pub nanos: Option<u64>,
}

impl ClockTime {
    /// No reading.
    pub fn none() -> (res: ClockTime)
        ensures
            res.nanos is None,
    {
        ClockTime { nanos: None }
    }

    /// The reading of `nanos` nanoseconds.
    pub fn from_nseconds(nanos: u64) -> (res: ClockTime)
        ensures
            res.nanos == Some(nanos),
    {
        ClockTime { nanos: Some(nanos) }
    }

    /// The reading in nanoseconds.
    pub fn nanoseconds(&self) -> (res: Option<u64>)
        ensures
            res == self.nanos,
    {
        self.nanos
    }

    /// The whole seconds of a reading.
    pub open spec fn spec_seconds(self) -> Option<u64> {
        match self.nanos {
            Some(n) => Some((n / NANOS_PER_SEC) as u64),
            None => None,
        }
    }

    /// The reading in whole seconds.
    pub fn seconds(&self) -> (res: Option<u64>)
        ensures
            res == self.spec_seconds(),
    {
        match self.nanos {
            Some(n) => Some(n / NANOS_PER_SEC),
            None => None,
        }
    }

    /// The length of time a reading stands for, in nanoseconds.
    pub open spec fn length(self) -> Option<nat> {
        match self.nanos {
            Some(n) => Some(n as nat),
            None => None,
        }
    }

    /// The duration that the reading stands for; none where there is no reading.
    pub fn to_duration(&self) -> (res: Option<Duration>)
        ensures
            duration_view(res) == self.length(),
    {
        match (self.seconds(), self.nanoseconds()) {
            (Some(seconds), Some(nanos)) => Some(
                Duration::new(seconds, (nanos % NANOS_PER_SEC) as u32),
            ),
            _ => None,
        }
    }
}

/// The view of a duration that may be unknown.
pub open spec fn duration_view(duration: Option<Duration>) -> Option<nat> {
    match duration {
        Some(d) => Some(d@),
        None => None,
    }
}

} // verus!
