//! Conversion between UTC instants and GPS Standard Time.

use vstd::prelude::*;

use crate::leaps::{leaps_monotonic, leaps_through, no_leaps_before_first, num_leaps};
use crate::utc::{is_instant, rfc3339_text, UtcTime};

verus! {

/// The GPS Epoch, 1980-01-06T00:00:00Z, in seconds since the Unix Epoch.
pub const GPS_EPOCH: i64 = 315964800;

/// Seconds in a GPS week.
pub const SECONDS_PER_WEEK: i64 = 604800;

/// A time in GPS Standard Time.
#[derive(Debug, Clone, Copy, PartialEq, Eq, Structural)]
pub struct Gpst {
    /// Seconds since the GPS Epoch.
    pub seconds: i64,
    /// Weeks since the GPS Epoch.
    pub week: i64,
    /// Seconds elapsed in the current week.
    pub week_seconds: i64,
}

/// Why a conversion failed.
#[derive(Debug, PartialEq, Eq)]
pub enum GpstError {
    /// The instant, given in RFC 3339 form, is earlier than the GPS Epoch.
    BeforeGPSEpoch(String),
    /// The result is not an instant that can be represented; the text says why.
    TimestampNano(String),
}

/// Seconds since the GPS Epoch of the instant `unix_seconds` seconds after the
/// Unix Epoch, moved ahead by the leap seconds inserted so far when
/// `leap_seconds` holds.
pub open spec fn gps_delta(unix_seconds: int, leap_seconds: bool) -> int {
    let raw = unix_seconds - GPS_EPOCH;
    if leap_seconds {
        raw + leaps_through(raw)
    } else {
        raw
    }
}

/// What converting the instant `unix_seconds` to GPST returns: its GPST
/// seconds split into weeks and seconds in the week, or, before the GPS Epoch,
/// the error that carries the instant's RFC 3339 text.
pub open spec fn gpst_outcome(
    unix_seconds: int,
    leap_seconds: bool,
    r: Result<Gpst, GpstError>,
) -> bool {
    let d = gps_delta(unix_seconds, leap_seconds);
    match r {
        Ok(g) => d >= 0 && g.seconds == d && g.week == d / (SECONDS_PER_WEEK as int)
            && g.week_seconds == d % (SECONDS_PER_WEEK as int),
        Err(GpstError::BeforeGPSEpoch(text)) => d < 0 && text@ == rfc3339_text(unix_seconds),
        Err(GpstError::TimestampNano(_)) => false,
    }
}

/// Seconds since the Unix Epoch of the UTC instant at `gps_seconds` seconds of
/// GPST, taken back by the leap seconds inserted by then when `leap_seconds`
/// holds.
pub open spec fn utc_of_gps(gps_seconds: int, leap_seconds: bool) -> int {
    let leaps: int = if leap_seconds {
        leaps_through(gps_seconds) as int
    } else {
        0
    };
    gps_seconds - leaps + GPS_EPOCH
}

/// What converting `gps_seconds` seconds of GPST to UTC returns: the instant,
/// or `TimestampNano` where no instant can hold the result.
pub open spec fn utc_outcome(
    gps_seconds: int,
    leap_seconds: bool,
    r: Result<UtcTime, GpstError>,
) -> bool {
    let u = utc_of_gps(gps_seconds, leap_seconds);
    match r {
        Ok(t) => is_instant(u) && t@ == u,
        Err(GpstError::TimestampNano(_)) => !is_instant(u),
        Err(GpstError::BeforeGPSEpoch(_)) => false,
    }
}

/// Seconds of GPST given as a week and seconds in that week.
pub open spec fn week_total(week: int, week_seconds: int) -> int {
    week * SECONDS_PER_WEEK + week_seconds
}

/// What converting a GPST week and week seconds to UTC returns.
pub open spec fn week_outcome(
    week: int,
    week_seconds: int,
    leap_seconds: bool,
    r: Result<UtcTime, GpstError>,
) -> bool {
    let total = week_total(week, week_seconds);
    if i64::MIN <= total <= i64::MAX {
        utc_outcome(total, leap_seconds, r)
    } else {
        r matches Err(GpstError::TimestampNano(_))
    }
}

/// Conversion of a UTC instant to GPS Standard Time.
pub trait GpstLike {
    /// The instant's seconds since the Unix Epoch.
    spec fn unix_seconds_spec(&self) -> int;

    /// Converts to GPST, adjusting for leap seconds when `leap_seconds` holds.
    fn gpst(&self, leap_seconds: bool) -> (r: Result<Gpst, GpstError>)
        ensures
            gpst_outcome(self.unix_seconds_spec(), leap_seconds, r),
    ;
}

impl GpstLike for UtcTime {
    open spec fn unix_seconds_spec(&self) -> int {
        self@
    }

    fn gpst(&self, leap_seconds: bool) -> (r: Result<Gpst, GpstError>) {
        let unix = self.unix_seconds();
        if unix < GPS_EPOCH {
            proof {
                no_leaps_before_first(unix - GPS_EPOCH);
            }
            return Err(GpstError::BeforeGPSEpoch(self.to_rfc3339()));
        }
        let raw = unix - GPS_EPOCH;
        let seconds = if leap_seconds {
            raw + num_leaps(raw)
        } else {
            raw
        };
        Ok(
            Gpst {
                seconds,
                week: seconds / SECONDS_PER_WEEK,
                week_seconds: seconds % SECONDS_PER_WEEK,
            },
        )
    }
}

fn out_of_range() -> (e: GpstError)
    ensures
        e is TimestampNano,
{
    GpstError::TimestampNano("GPST time lies outside the range of UTC instants".to_string())
}

/// Given seconds since the GPS Epoch, the UTC instant. When `leap_seconds`
/// holds, the leap seconds inserted by then are taken off.
pub fn from_gpst_seconds(seconds: i64, leap_seconds: bool) -> (r: Result<UtcTime, GpstError>)
    ensures
        utc_outcome(seconds as int, leap_seconds, r),
{
    let leaps: i64 = if leap_seconds {
        num_leaps(seconds)
    } else {
        0
    };
    let unix: i128 = seconds as i128 - leaps as i128 + GPS_EPOCH as i128;
    if unix < i64::MIN as i128 || unix > i64::MAX as i128 {
        return Err(out_of_range());
    }
    match UtcTime::from_unix_seconds(unix as i64) {
        Some(t) => Ok(t),
        None => Err(out_of_range()),
    }
}

/// Given weeks since the GPS Epoch and seconds in that week, the UTC instant.
/// When `leap_seconds` holds, the leap seconds inserted by then are taken off.
/// The week seconds are not required to lie within one week.
pub fn from_gpst(
    week: i64,
    week_seconds: i64,
    leap_seconds: bool,
) -> (r: Result<UtcTime, GpstError>)
    ensures
        week_outcome(week as int, week_seconds as int, leap_seconds, r),
{
    proof {
        assert(-0x8000_0000_0000_0000 * 604800 <= week * 604800 <= 0x7fff_ffff_ffff_ffff * 604800)
            by (nonlinear_arith)
            requires
                -0x8000_0000_0000_0000 <= week <= 0x7fff_ffff_ffff_ffff,
        ;
    }
    let total: i128 = week as i128 * SECONDS_PER_WEEK as i128 + week_seconds as i128;
    if total < i64::MIN as i128 || total > i64::MAX as i128 {
        return Err(out_of_range());
    }
    from_gpst_seconds(total as i64, leap_seconds)
}

/// Every GPST value that conversion yields is its whole weeks plus its week
/// seconds, with the week seconds inside one week.
pub proof fn gpst_decomposes(unix_seconds: int, leap_seconds: bool, g: Gpst)
    requires
        gpst_outcome(unix_seconds, leap_seconds, Ok(g)),
    ensures
        week_total(g.week as int, g.week_seconds as int) == g.seconds,
        0 <= g.week_seconds < SECONDS_PER_WEEK,
        0 <= g.week,
{
}

/// An instant earlier than the GPS Epoch converts to `BeforeGPSEpoch`, with or
/// without leap seconds: no negative GPST value comes out.
pub proof fn before_epoch_rejected(
    unix_seconds: int,
    leap_seconds: bool,
    r: Result<Gpst, GpstError>,
)
    requires
        unix_seconds < GPS_EPOCH,
        gpst_outcome(unix_seconds, leap_seconds, r),
    ensures
        r matches Err(GpstError::BeforeGPSEpoch(_)),
{
    no_leaps_before_first(unix_seconds - GPS_EPOCH);
}

/// Converting an instant at or after the GPS Epoch to GPST, and its week and
/// week seconds back to UTC with the same leap-second choice, gives the
/// instant back. With leap seconds applied this needs the adjustment not to
/// carry the GPST value past a further table entry.
pub proof fn gpst_round_trip(
    unix_seconds: int,
    leap_seconds: bool,
    first: Result<Gpst, GpstError>,
    back: Result<UtcTime, GpstError>,
)
    requires
        is_instant(unix_seconds),
        unix_seconds >= GPS_EPOCH,
        leap_seconds ==> leaps_through(gps_delta(unix_seconds, true)) == leaps_through(
            unix_seconds - GPS_EPOCH,
        ),
        gpst_outcome(unix_seconds, leap_seconds, first),
        first matches Ok(g) ==> week_outcome(
            g.week as int,
            g.week_seconds as int,
            leap_seconds,
            back,
        ),
    ensures
        first is Ok,
        back matches Ok(t) && t@ == unix_seconds,
{
    leaps_monotonic(unix_seconds - GPS_EPOCH, unix_seconds - GPS_EPOCH);
    if let Ok(g) = first {
        gpst_decomposes(unix_seconds, leap_seconds, g);
    }
}

} // verus!
