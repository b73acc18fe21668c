//! UTC instants as used by the backbone catalogue: whole seconds since the Unix epoch plus
//! a nanosecond part, within the range the calendar library can represent.

use vstd::prelude::*;

verus! {

/// Earliest representable instant, in seconds since the Unix epoch.
pub const MIN_SECS: i64 = -8334601315200;

/// Latest representable second since the Unix epoch.
pub const MAX_SECS: i64 = 8210266876799;

/// Seconds in a day.
pub const SECS_PER_DAY: i64 = 86400;

/// Largest day count a duration can hold (milliseconds must fit an `i64`).
pub const MAX_DURATION_DAYS: i64 = 106751991167;

/// Largest hour count a duration can hold (milliseconds must fit an `i64`).
pub const MAX_DURATION_HOURS: i64 = 2562047788015;

/// A UTC instant: `secs` since the Unix epoch and `nanos` into that second
/// (`nanos` may reach past one second only to denote a leap second).
#[derive(Debug, Clone, Copy, PartialEq, Eq, Structural)]
pub struct BackboneTimestamp {
    pub secs: i64,
    pub nanos: u32,
}

/// The current UTC time as (seconds since the epoch, nanoseconds), read from the system
/// clock through `chrono::Utc::now`; any in-range instant may come back.
#[verifier::external_body]
fn utc_now() -> (r: (i64, u32))
    ensures
        MIN_SECS <= r.0 <= MAX_SECS,
        r.1 < 2_000_000_000,
{
    let n = chrono::Utc::now();
    (n.timestamp(), n.timestamp_subsec_nanos())
}

/// ISO 8601 / RFC 3339 text of the instant (`DateTime::to_rfc3339`).
pub uninterp spec fn spec_rfc3339(secs: i64, nanos: u32) -> Seq<char>;

/// `chrono::DateTime::<Utc>::to_rfc3339` of the instant with these parts.
#[verifier::external_body]
fn rfc3339_text(secs: i64, nanos: u32) -> (r: String)
    requires
        MIN_SECS <= secs <= MAX_SECS,
        nanos < 2_000_000_000,
    ensures
        r@ == spec_rfc3339(secs, nanos),
{
    match chrono::DateTime::from_timestamp(secs, nanos) {
        Some(d) => d.to_rfc3339(),
        None => String::new(),
    }
}

impl BackboneTimestamp {
    /// The instant is one the calendar library can represent.
    pub open spec fn wf(&self) -> bool {
        MIN_SECS <= self.secs <= MAX_SECS && self.nanos < 2_000_000_000
    }

    /// Chronological order.
    pub open spec fn le(&self, other: &BackboneTimestamp) -> bool {
        self.secs < other.secs || (self.secs == other.secs && self.nanos <= other.nanos)
    }

    /// Strict chronological order.
    pub open spec fn lt(&self, other: &BackboneTimestamp) -> bool {
        self.secs < other.secs || (self.secs == other.secs && self.nanos < other.nanos)
    }

    /// The current instant.
    pub fn now() -> (r: BackboneTimestamp)
        ensures
            r.wf(),
    {
        let (secs, nanos) = utc_now();
        BackboneTimestamp { secs, nanos }
    }

    /// The instant at whole second `timestamp`, when representable.
    pub fn from_timestamp(timestamp: i64) -> (r: Option<BackboneTimestamp>)
        ensures
            (MIN_SECS <= timestamp <= MAX_SECS) ==> r == Some(
                BackboneTimestamp { secs: timestamp, nanos: 0 },
            ),
            !(MIN_SECS <= timestamp <= MAX_SECS) ==> r is None,
    {
        if MIN_SECS <= timestamp && timestamp <= MAX_SECS {
            Some(BackboneTimestamp { secs: timestamp, nanos: 0 })
        } else {
            None
        }
    }

    /// Seconds since the Unix epoch.
    pub fn timestamp(&self) -> (r: i64)
        ensures
            r == self.secs,
    {
        self.secs
    }

    /// ISO 8601 text of the instant.
    pub fn iso8601(&self) -> (r: String)
        requires
            self.wf(),
        ensures
            r@ == spec_rfc3339(self.secs, self.nanos),
    {
        rfc3339_text(self.secs, self.nanos)
    }

    /// Whether the instant is strictly before `other`.
    pub fn is_before(&self, other: &BackboneTimestamp) -> (r: bool)
        ensures
            r == self.lt(other),
    {
        self.secs < other.secs || (self.secs == other.secs && self.nanos < other.nanos)
    }

    /// Whether the instant is at or before `other`.
    pub fn is_at_or_before(&self, other: &BackboneTimestamp) -> (r: bool)
        ensures
            r == self.le(other),
    {
        self.secs < other.secs || (self.secs == other.secs && self.nanos <= other.nanos)
    }

    /// Whether the instant lies after the current time: the comparison with the instant the
    /// clock reads, which is some representable instant.
    pub fn is_future(&self) -> (r: bool)
        ensures
            exists|now: BackboneTimestamp| #[trigger] now.wf() && r == now.lt(self),
    {
        let now = BackboneTimestamp::now();
        let r = now.is_before(self);
        assert(now.wf() && r == now.lt(self));
        r
    }

    /// Whether the instant lies before the current time: the comparison with the instant the
    /// clock reads, which is some representable instant.
    pub fn is_past(&self) -> (r: bool)
        ensures
            exists|now: BackboneTimestamp| #[trigger] now.wf() && r == self.lt(&now),
    {
        let now = BackboneTimestamp::now();
        let r = self.is_before(&now);
        assert(now.wf() && r == self.lt(&now));
        r
    }

    /// Whether shifting by `secs` seconds stays representable.
    pub open spec fn can_shift(&self, secs: int) -> bool {
        MIN_SECS <= self.secs + secs <= MAX_SECS
    }

    /// The instant `days` whole days later (earlier when negative).
    pub fn add_days(&self, days: i64) -> (r: BackboneTimestamp)
        requires
            -MAX_DURATION_DAYS <= days <= MAX_DURATION_DAYS,
            self.can_shift(days * SECS_PER_DAY),
        ensures
            r.secs == self.secs + days * SECS_PER_DAY,
            r.nanos == self.nanos,
    {
        BackboneTimestamp { secs: self.secs + days * SECS_PER_DAY, nanos: self.nanos }
    }

    /// The instant `hours` whole hours later (earlier when negative).
    pub fn add_hours(&self, hours: i64) -> (r: BackboneTimestamp)
        requires
            -MAX_DURATION_HOURS <= hours <= MAX_DURATION_HOURS,
            self.can_shift(hours * 3600),
        ensures
            r.secs == self.secs + hours * 3600,
            r.nanos == self.nanos,
    {
        BackboneTimestamp { secs: self.secs + hours * 3600, nanos: self.nanos }
    }

    /// The instant `days` days later, or `None` when that leaves the representable range.
    pub fn checked_add_days(&self, days: i64) -> (r: Option<BackboneTimestamp>)
        ensures
            (-MAX_DURATION_DAYS <= days <= MAX_DURATION_DAYS && self.can_shift(days * SECS_PER_DAY))
                ==> r is Some && r->0.secs == self.secs + days * SECS_PER_DAY && r->0.nanos
                == self.nanos,
            !(-MAX_DURATION_DAYS <= days <= MAX_DURATION_DAYS && self.can_shift(
                days * SECS_PER_DAY,
            )) ==> r is None,
    {
        if days < -MAX_DURATION_DAYS || days > MAX_DURATION_DAYS {
            return None;
        }
        let delta: i128 = days as i128 * 86400;
        let target: i128 = self.secs as i128 + delta;
        if target < MIN_SECS as i128 || target > MAX_SECS as i128 {
            return None;
        }
        Some(self.add_days(days))
    }
}

} // verus!
