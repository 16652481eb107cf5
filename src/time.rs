use vstd::prelude::*;
use vstd::std_specs::convert::FromSpec;

verus! {

/// Seconds in a day.
pub const DAY: i64 = 86400;

/// 2^40 seconds (about 34,800 years): well inside the range of dates that
/// chrono represents.
pub const TEXT_RANGE: i64 = 0x100_0000_0000;

/// A point in time: whole seconds since 1970-01-01T00:00:00 UTC.
#[derive(Debug, Clone, Copy, PartialEq, Eq, Structural)]
pub struct UnixUTC {
    pub secs: i64,
}

impl UnixUTC {
    /// The seconds since the epoch.
    pub open spec fn view(self) -> i64 {
        self.secs
    }

    /// The seconds since the epoch.
    pub fn timestamp(&self) -> (r: i64)
        ensures
            r == self@,
    {
        self.secs
    }

    /// The calendar date and time, as chrono writes it (`2021-03-04T05:06:07Z`);
    /// `None` outside the years that chrono can represent (about 262,000 years
    /// either side of the epoch), always present within `TEXT_RANGE` seconds of it.
    pub fn to_text(&self) -> (r: Option<String>)
        ensures
            r matches Some(t) ==> t@ == utc_text(self@ as int),
            -TEXT_RANGE <= self@ <= TEXT_RANGE ==> r is Some,
    {
        utc_debug_text(self.secs)
    }
}

impl From<i64> for UnixUTC {
    fn from(time: i64) -> (r: Self)
        ensures
            r@ == time,
    {
        UnixUTC { secs: time }
    }
}

impl vstd::std_specs::convert::FromSpecImpl<i64> for UnixUTC {
    open spec fn obeys_from_spec() -> bool {
        true
    }

    open spec fn from_spec(time: i64) -> UnixUTC {
        UnixUTC { secs: time }
    }
}

impl From<UnixUTC> for i64 {
    fn from(t: UnixUTC) -> (r: i64)
        ensures
            r == t@,
    {
        t.secs
    }
}

impl vstd::std_specs::convert::FromSpecImpl<UnixUTC> for i64 {
    open spec fn obeys_from_spec() -> bool {
        true
    }

    open spec fn from_spec(t: UnixUTC) -> i64 {
        t.secs
    }
}

/// Converting an integer timestamp to a `UnixUTC` and back gives the same integer.
pub proof fn timestamp_round_trip(t: i64)
    ensures
        <i64 as FromSpec<UnixUTC>>::from_spec(<UnixUTC as FromSpec<i64>>::from_spec(t)) == t,
{
}

/// The start (00:00:00 UTC) of the day that holds `t`.
pub open spec fn day_start(t: int) -> int {
    t - t % (DAY as int)
}

/// The start (00:00:00 UTC) of the day that holds `t`; `None` where that
/// lies before the earliest `i64` timestamp.
pub fn day_start_of(t: i64) -> (r: Option<i64>)
    ensures
        r matches Some(s) ==> s == day_start(t as int),
        r is None <==> day_start(t as int) < i64::MIN,
{
    let rem: i64 = t % DAY;
    let rem: i64 = if rem < 0 { rem + DAY } else { rem };
    let s: i128 = t as i128 - rem as i128;
    proof {
        assert(rem == (t as int) % (DAY as int));
    }
    if s < i64::MIN as i128 {
        None
    } else {
        Some(s as i64)
    }
}

/// The start of the day before the one that holds `now`; `None` where that
/// lies before the earliest `i64` timestamp.
pub fn yesterday_start(now: i64) -> (r: Option<i64>)
    ensures
        r matches Some(s) ==> s == day_start(now as int) - DAY,
        r is None <==> day_start(now as int) - DAY < i64::MIN,
{
    let rem: i64 = now % DAY;
    let rem: i64 = if rem < 0 { rem + DAY } else { rem };
    let s: i128 = now as i128 - rem as i128 - DAY as i128;
    proof {
        assert(rem == (now as int) % (DAY as int));
    }
    if s < i64::MIN as i128 {
        None
    } else {
        Some(s as i64)
    }
}

/// How chrono writes the UTC date and time `secs` seconds after the epoch.
pub uninterp spec fn utc_text(secs: int) -> Seq<char>;

/// Relies on chrono's `DateTime::from_timestamp`, which is `None` only for
/// days outside years -262142..=262142, and on the `Debug` text of
/// `DateTime<Utc>`, which depends on the instant alone.
#[verifier::external_body]
fn utc_debug_text(secs: i64) -> (r: Option<String>)
    ensures
        r matches Some(t) ==> t@ == utc_text(secs as int),
        -TEXT_RANGE <= secs <= TEXT_RANGE ==> r is Some,
{
    match chrono::DateTime::from_timestamp(secs, 0) {
        Some(d) => Some(format!("{:?}", d)),
        None => None,
    }
}

} // verus!
