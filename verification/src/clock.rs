//! Instants on the UTC time line and whole-second distances between them.
use vstd::prelude::*;

verus! {

/// First Unix second that chrono's `DateTime<Utc>` represents
/// (January 1 of year -262143, 00:00:00).
pub const MIN_UNIX_SECS: i64 = -8334601228800i64;

/// Last Unix second that chrono's `DateTime<Utc>` represents
/// (December 31 of year 262142, 23:59:59).
pub const MAX_UNIX_SECS: i64 = 8210266876799i64;

/// Nanoseconds in one second.
pub const NANOS_PER_SEC: u32 = 1_000_000_000u32;

/// Whether `(secs, nanos)` names a non-leap instant that chrono can hold.
pub open spec fn representable(secs: int, nanos: int) -> bool {
    &&& MIN_UNIX_SECS <= secs <= MAX_UNIX_SECS
    &&& 0 <= nanos < NANOS_PER_SEC
}

/// Nanoseconds since the Unix epoch of the instant `(secs, nanos)`.
pub open spec fn instant_nanos(secs: int, nanos: int) -> int {
    secs * 1_000_000_000 + nanos
}

/// Whole seconds from instant `b` to instant `a` (both in nanoseconds),
/// truncated toward zero.
pub open spec fn whole_seconds_between(a: int, b: int) -> int {
    let d = a - b;
    if d >= 0 {
        d / 1_000_000_000
    } else {
        -((-d) / 1_000_000_000)
    }
}

/// An instant on the UTC time line: whole seconds since the Unix epoch plus
/// the nanoseconds within that second. Leap seconds are not represented.
#[derive(Debug, Clone, Copy)]
pub struct Timestamp {
    secs: i64,
    nanos: u32,
}

impl View for Timestamp {
    type V = (int, int);

    closed spec fn view(&self) -> (int, int) {
        (self.secs as int, self.nanos as int)
    }
}

impl Timestamp {
    #[verifier::type_invariant]
    spec fn inv(self) -> bool {
        representable(self.secs as int, self.nanos as int)
    }

    /// Nanoseconds since the Unix epoch.
    pub open spec fn spec_nanos(self) -> int {
        instant_nanos(self@.0, self@.1)
    }

    /// The instant `secs` seconds and `nanos` nanoseconds after the Unix
    /// epoch, or `None` when it is not a representable non-leap instant.
    pub fn from_unix(secs: i64, nanos: u32) -> (t: Option<Timestamp>)
        ensures
            t is Some <==> representable(secs as int, nanos as int),
            t matches Some(t) ==> t@ == (secs as int, nanos as int),
    {
        if MIN_UNIX_SECS <= secs && secs <= MAX_UNIX_SECS && nanos < NANOS_PER_SEC {
            Some(Timestamp { secs, nanos })
        } else {
            None
        }
    }

    /// Whole seconds since the Unix epoch.
    pub fn unix_secs(&self) -> (s: i64)
        ensures
            s as int == self@.0,
    {
        self.secs
    }

    /// Nanoseconds within the second.
    pub fn subsec_nanos(&self) -> (n: u32)
        ensures
            n as int == self@.1,
    {
        self.nanos
    }

    /// Whole seconds from `earlier` to `self`, truncated toward zero
    /// (negative when `earlier` is later), as chrono computes it.
    pub fn whole_seconds_since(&self, earlier: &Timestamp) -> (s: i64)
        ensures
            s as int == whole_seconds_between(self.spec_nanos(), earlier.spec_nanos()),
    {
        proof {
            use_type_invariant(self);
            use_type_invariant(earlier);
        }
        chrono_whole_seconds(self, earlier)
    }
}

/// chrono: `DateTime::<Utc>::from_timestamp` on both instants, then
/// `DateTime::signed_duration_since` and `TimeDelta::num_seconds`.
/// chrono subtracts two non-leap instants exactly and `num_seconds` returns
/// the whole seconds of the difference, truncating toward zero; both
/// instants are representable, so `from_timestamp` returns `Some`.
#[verifier::external_body]
fn chrono_whole_seconds(now: &Timestamp, earlier: &Timestamp) -> (s: i64)
    requires
        representable(now.secs as int, now.nanos as int),
        representable(earlier.secs as int, earlier.nanos as int),
    ensures
        s as int == whole_seconds_between(
            instant_nanos(now.secs as int, now.nanos as int),
            instant_nanos(earlier.secs as int, earlier.nanos as int),
        ),
{
    let now = chrono::DateTime::<chrono::Utc>::from_timestamp(now.secs, now.nanos).expect("representable instant");
    let earlier = chrono::DateTime::<chrono::Utc>::from_timestamp(earlier.secs, earlier.nanos).expect("representable instant");
    now.signed_duration_since(earlier).num_seconds()
}

} // verus!
