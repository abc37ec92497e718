//! Points in time and spans of time, both counted in nanoseconds.

use vstd::prelude::*;
use crate::table::Stored;

verus! {

pub const NANOS_PER_SEC: u64 = 1_000_000_000;

pub const NANOS_PER_MILLI: u64 = 1_000_000;

/// A span of time in nanoseconds.
#[derive(Clone, Copy, Debug, PartialEq, Eq, Structural)]
pub struct Duration {
    pub nanos: u64,
}

impl Duration {
    /// The span of no time at all.
    pub fn zero() -> (r: Duration)
        ensures
            r.nanos == 0,
    {
        Duration { nanos: 0 }
    }

    pub fn from_nanos(nanos: u64) -> (r: Duration)
        ensures
            r.nanos == nanos,
    {
        Duration { nanos }
    }

    pub fn from_millis(millis: u64) -> (r: Duration)
        requires
            millis * NANOS_PER_MILLI <= u64::MAX,
        ensures
            r.nanos == millis * NANOS_PER_MILLI,
    {
        Duration { nanos: millis * NANOS_PER_MILLI }
    }

    pub fn from_secs(secs: u64) -> (r: Duration)
        requires
            secs * NANOS_PER_SEC <= u64::MAX,
        ensures
            r.nanos == secs * NANOS_PER_SEC,
    {
        Duration { nanos: secs * NANOS_PER_SEC }
    }

    pub fn as_nanos(&self) -> (r: u64)
        ensures
            r == self.nanos,
    {
        self.nanos
    }
}

/// Why arithmetic on a timestamp failed.
#[derive(Clone, Copy, Debug, PartialEq, Eq, Structural)]
pub enum TimestampError {
    /// The sum does not fit the representation.
    Overflow,
    /// The difference would lie before the epoch, or the timestamp is unset.
    Underflow,
}

/// How a timestamp stands to a deadline.
#[derive(Clone, Copy, Debug, PartialEq, Eq, Structural)]
pub enum Expiry {
    Expired,
    NotExpired,
    /// One of the two timestamps is unset.
    InvalidTimestamp,
}

/// A point in time, in nanoseconds since the epoch. Zero stands for "unset":
/// a packet with an unset timeout timestamp never times out by time.
#[derive(Clone, Copy, Debug, PartialEq, Eq, Structural, Hash)]
pub struct Timestamp {
    pub nanos: u64,
}

impl View for Timestamp {
    type V = Timestamp;

    open spec fn view(&self) -> Timestamp {
        *self
    }
}

impl Stored for Timestamp {
    fn duplicate(&self) -> (r: Self) {
        *self
    }
}

impl Timestamp {
    pub open spec fn spec_is_set(self) -> bool {
        self.nanos != 0
    }

    /// `self` lies strictly after `other`, both being set.
    pub open spec fn spec_after(self, other: Timestamp) -> bool {
        self.spec_is_set() && other.spec_is_set() && self.nanos > other.nanos
    }

    /// What `check_expiry` answers.
    pub open spec fn spec_check_expiry(self, other: Timestamp) -> Expiry {
        if !self.spec_is_set() || !other.spec_is_set() {
            Expiry::InvalidTimestamp
        } else if self.nanos > other.nanos {
            Expiry::Expired
        } else {
            Expiry::NotExpired
        }
    }

    pub fn from_nanoseconds(nanos: u64) -> (r: Timestamp)
        ensures
            r.nanos == nanos,
    {
        Timestamp { nanos }
    }

    /// The unset timestamp.
    pub fn none() -> (r: Timestamp)
        ensures
            r.nanos == 0,
    {
        Timestamp { nanos: 0 }
    }

    pub fn nanoseconds(&self) -> (r: u64)
        ensures
            r == self.nanos,
    {
        self.nanos
    }

    pub fn is_set(&self) -> (r: bool)
        ensures
            r == self.spec_is_set(),
    {
        self.nanos != 0
    }

    /// The timestamp `d` later.
    pub fn add(&self, d: Duration) -> (r: Result<Timestamp, TimestampError>)
        ensures
            self.nanos + d.nanos <= u64::MAX ==> r == Ok::<Timestamp, TimestampError>(
                Timestamp { nanos: (self.nanos + d.nanos) as u64 },
            ),
            self.nanos + d.nanos > u64::MAX ==> r == Err::<Timestamp, TimestampError>(
                TimestampError::Overflow,
            ),
    {
        if d.nanos > u64::MAX - self.nanos {
            Err(TimestampError::Overflow)
        } else {
            Ok(Timestamp { nanos: self.nanos + d.nanos })
        }
    }

    /// The timestamp `d` earlier.
    pub fn sub(&self, d: Duration) -> (r: Result<Timestamp, TimestampError>)
        ensures
            d.nanos <= self.nanos ==> r == Ok::<Timestamp, TimestampError>(
                Timestamp { nanos: (self.nanos - d.nanos) as u64 },
            ),
            d.nanos > self.nanos ==> r == Err::<Timestamp, TimestampError>(
                TimestampError::Underflow,
            ),
    {
        if d.nanos > self.nanos {
            Err(TimestampError::Underflow)
        } else {
            Ok(Timestamp { nanos: self.nanos - d.nanos })
        }
    }

    /// The time from `other` up to `self`, where `other` is not later.
    pub fn duration_since(&self, other: &Timestamp) -> (r: Option<Duration>)
        ensures
            self.spec_is_set() && other.spec_is_set() && other.nanos <= self.nanos ==> r == Some(
                Duration { nanos: (self.nanos - other.nanos) as u64 },
            ),
            !(self.spec_is_set() && other.spec_is_set() && other.nanos <= self.nanos) ==> r
                is None,
    {
        if self.nanos != 0 && other.nanos != 0 && other.nanos <= self.nanos {
            Some(Duration { nanos: self.nanos - other.nanos })
        } else {
            None
        }
    }

    /// Whether `self` lies strictly after `other`.
    pub fn after(&self, other: &Timestamp) -> (r: bool)
        ensures
            r == self.spec_after(*other),
    {
        self.nanos != 0 && other.nanos != 0 && self.nanos > other.nanos
    }

    /// Compares `self`, the present, with the deadline `other`.
    pub fn check_expiry(&self, other: &Timestamp) -> (r: Expiry)
        ensures
            r == self.spec_check_expiry(*other),
    {
        if self.nanos == 0 || other.nanos == 0 {
            Expiry::InvalidTimestamp
        } else if self.nanos > other.nanos {
            Expiry::Expired
        } else {
            Expiry::NotExpired
        }
    }

    /// The reading of the system clock, in nanoseconds since the Unix epoch:
    /// zero for a clock that stands before the epoch, and the low 64 bits of
    /// the count where it does not fit. Nothing is known of the reading
    /// beforehand.
    pub fn now() -> (r: Timestamp) {
        let reading = system_time_now();
        match since_epoch(&reading) {
            Some(span) => {
                let nanos: u128 = duration_nanos(&span);
                Timestamp { nanos: #[verifier::truncate] (nanos as u64) }
            },
            None => Timestamp { nanos: 0 },
        }
    }
}

/// A point in time as the system's clock gives it.
#[verifier::external_type_specification]
#[verifier::external_body]
pub struct ExSystemTime(std::time::SystemTime);

/// Calls `std::time::SystemTime::now`. The contract claims nothing of the
/// reading: it differs from call to call.
#[verifier::external_body]
fn system_time_now() -> (t: std::time::SystemTime) {
    std::time::SystemTime::now()
}

/// Calls `std::time::SystemTime::duration_since` with the Unix epoch, and
/// hands the span back; `None` for a time before the epoch. The contract
/// claims nothing of the span.
#[verifier::external_body]
fn since_epoch(t: &std::time::SystemTime) -> (d: Option<std::time::Duration>) {
    match t.duration_since(std::time::UNIX_EPOCH) {
        Ok(d) => Some(d),
        Err(_) => None,
    }
}

/// Calls `std::time::Duration::as_nanos`. The contract claims nothing of the
/// number.
#[verifier::external_body]
fn duration_nanos(d: &std::time::Duration) -> (n: u128) {
    d.as_nanos()
}

} // verus!
