//! An instant in UTC, held as whole seconds since the Unix epoch and the
//! nanoseconds past that second, over the range of instants that chrono's
//! `DateTime<Utc>` can represent.

use vstd::prelude::*;

verus! {

/// The earliest representable instant, -262143-01-01T00:00:00Z, in seconds since the epoch.
pub const MIN_UNIX_SECS: i64 = -8334601228800;

/// The latest representable whole second, +262142-12-31T23:59:59Z, in seconds since the epoch.
pub const MAX_UNIX_SECS: i64 = 8210266876799;

pub const NANOS_PER_SEC: u32 = 1_000_000_000;

pub const SECS_PER_DAY: i64 = 86400;

/// Whether `secs` seconds since the epoch and `nanos` nanoseconds past that
/// second name a representable instant. A nanosecond count of a second or
/// more marks a leap second, which only the last second of a minute may carry.
pub open spec fn valid_parts(secs: int, nanos: int) -> bool {
    &&& MIN_UNIX_SECS <= secs <= MAX_UNIX_SECS
    &&& 0 <= nanos < 2 * NANOS_PER_SEC
    &&& nanos >= NANOS_PER_SEC ==> secs % 60 == 59
}

/// The instant `t` moved forward by `days` fixed days of 86400 seconds, or
/// `None` where that leaves the representable range. A leap second that is
/// moved forward lands on the ordinary second that follows the one it extends.
pub open spec fn shifted_by_days(t: (int, int), days: nat) -> Option<(int, int)> {
    let secs = t.0 + days * SECS_PER_DAY;
    if MIN_UNIX_SECS <= secs <= MAX_UNIX_SECS {
        if days > 0 {
            Some((secs, t.1 % (NANOS_PER_SEC as int)))
        } else {
            Some(t)
        }
    } else {
        None
    }
}

/// Relies on chrono's `DateTime::<Utc>::checked_add_signed` with
/// `TimeDelta::days`: the instant given by `DateTime::from_timestamp(secs, nanos)`
/// moved forward by `days` days, read back through `timestamp` and
/// `timestamp_subsec_nanos`.
#[verifier::external_body]
fn chrono_add_days(secs: i64, nanos: u32, days: u32) -> (r: Option<(i64, u32)>)
    requires
        valid_parts(secs as int, nanos as int),
    ensures
        r matches Some(p) ==> shifted_by_days((secs as int, nanos as int), days as nat)
            == Some((p.0 as int, p.1 as int)),
        r is None ==> shifted_by_days((secs as int, nanos as int), days as nat) is None,
{
    chrono::DateTime::from_timestamp(secs, nanos)
        .and_then(|t| t.checked_add_signed(chrono::TimeDelta::days(days as i64)))
        .map(|t| (t.timestamp(), t.timestamp_subsec_nanos()))
}

/// Relies on chrono's `Utc::now`: the system clock, read through `timestamp`
/// and `timestamp_subsec_nanos`. `Utc::now` builds its value from a
/// `Duration` since the epoch, so the nanoseconds stay under a second.
#[verifier::external_body]
fn chrono_utc_now() -> (r: (i64, u32))
    ensures
        valid_parts(r.0 as int, r.1 as int),
        r.1 < NANOS_PER_SEC,
{
    let t = chrono::Utc::now();
    (t.timestamp(), t.timestamp_subsec_nanos())
}

/// A representable instant in UTC.
#[derive(Clone, Copy, Debug, PartialEq, Eq, Hash)]
pub struct UtcTimestamp {
    secs: i64,
    nanos: u32,
}

impl View for UtcTimestamp {
    /// Seconds since the epoch, and nanoseconds past that second.
    type V = (int, int);

    closed spec fn view(&self) -> (int, int) {
        (self.secs as int, self.nanos as int)
    }
}

impl UtcTimestamp {
    #[verifier::type_invariant]
    spec fn inv(&self) -> bool {
        valid_parts(self.secs as int, self.nanos as int)
    }

    /// The instant `secs` seconds after the epoch and `nanos` nanoseconds past
    /// that second, or `None` where the two name no representable instant.
    pub fn from_timestamp(secs: i64, nanos: u32) -> (r: Option<UtcTimestamp>)
        ensures
            r is Some <==> valid_parts(secs as int, nanos as int),
            r matches Some(t) ==> t@ == (secs as int, nanos as int),
    {
        // The remainder of a negative `secs` is negative: -1 stands for 59.
        let last_of_minute = secs % 60 == 59 || secs % 60 == -1;
        if MIN_UNIX_SECS <= secs && secs <= MAX_UNIX_SECS && (nanos < NANOS_PER_SEC || (nanos < 2
            * NANOS_PER_SEC && last_of_minute)) {
            Some(UtcTimestamp { secs, nanos })
        } else {
            None
        }
    }

    /// Whole seconds since the epoch.
    pub fn timestamp(&self) -> (r: i64)
        ensures
            r as int == self@.0,
    {
        self.secs
    }

    /// Nanoseconds past the whole second; a leap second holds a second or more.
    pub fn timestamp_subsec_nanos(&self) -> (r: u32)
        ensures
            r as int == self@.1,
    {
        self.nanos
    }

    /// The current time of the system clock.
    pub fn now() -> (r: UtcTimestamp)
        ensures
            valid_parts(r@.0, r@.1),
            r@.1 < NANOS_PER_SEC,
    {
        let (secs, nanos) = chrono_utc_now();
        UtcTimestamp { secs, nanos }
    }

    /// This instant moved forward by `days` fixed days of 86400 seconds, or
    /// `None` where the result leaves the representable range.
    pub fn checked_add_days(&self, days: u32) -> (r: Option<UtcTimestamp>)
        ensures
            r matches Some(t) ==> shifted_by_days(self@, days as nat) == Some(t@),
            r is None <==> shifted_by_days(self@, days as nat) is None,
    {
        proof {
            use_type_invariant(self);
        }
        match chrono_add_days(self.secs, self.nanos, days) {
            Some((secs, nanos)) => {
                assert(valid_parts(secs as int, nanos as int)) by {
                    assert(0 <= (self.nanos as int) % (NANOS_PER_SEC as int) < NANOS_PER_SEC);
                }
                Some(UtcTimestamp { secs, nanos })
            },
            None => None,
        }
    }
}

} // verus!
