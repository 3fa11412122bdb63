//! UTC instants as whole seconds since the Unix Epoch, limited to the range
//! that chrono's `DateTime<Utc>` can represent.

use vstd::prelude::*;

verus! {

/// Whether chrono can represent the instant `unix_seconds` whole seconds after
/// the Unix Epoch as a `DateTime<Utc>`.
pub uninterp spec fn chrono_accepts(unix_seconds: int) -> bool;

/// The RFC 3339 text that chrono renders for the instant `unix_seconds` whole
/// seconds after the Unix Epoch.
pub uninterp spec fn rfc3339_text(unix_seconds: int) -> Seq<char>;

/// Relies on chrono's `DateTime::<Utc>::from_timestamp`, which returns `None`
/// exactly on out-of-range seconds (nanoseconds here are always zero).
#[verifier::external_body]
fn chrono_can_represent(secs: i64) -> (r: bool)
    ensures
        r == chrono_accepts(secs as int),
{
    chrono::DateTime::<chrono::Utc>::from_timestamp(secs, 0).is_some()
}

/// Relies on chrono's `DateTime::to_rfc3339`, applied to the instant `secs`
/// seconds after the Unix Epoch.
#[verifier::external_body]
fn chrono_rfc3339(secs: i64) -> (r: String)
    requires
        chrono_accepts(secs as int),
    ensures
        r@ == rfc3339_text(secs as int),
{
    chrono::DateTime::<chrono::Utc>::from_timestamp(secs, 0).unwrap_or_default().to_rfc3339()
}

/// Whether `unix_seconds` is a UTC instant this library can hold.
pub open spec fn is_instant(unix_seconds: int) -> bool {
    i64::MIN <= unix_seconds <= i64::MAX && chrono_accepts(unix_seconds)
}

/// A UTC instant, in whole seconds since the Unix Epoch (1970-01-01T00:00:00Z).
#[derive(Debug, Clone, Copy, PartialEq, Eq)]
pub struct UtcTime {
    unix_seconds: i64,
}

impl View for UtcTime {
    type V = int;

    /// The instant's seconds since the Unix Epoch.
    closed spec fn view(&self) -> int {
        self.unix_seconds as int
    }
}

impl UtcTime {
    #[verifier::type_invariant]
    spec fn representable(&self) -> bool {
        chrono_accepts(self.unix_seconds as int)
    }

    /// The instant `unix_seconds` whole seconds after the Unix Epoch, or `None`
    /// where chrono cannot represent it.
    pub fn from_unix_seconds(unix_seconds: i64) -> (r: Option<UtcTime>)
        ensures
            r is Some <==> is_instant(unix_seconds as int),
            r matches Some(t) ==> t@ == unix_seconds,
    {
        if chrono_can_represent(unix_seconds) {
            Some(UtcTime { unix_seconds })
        } else {
            None
        }
    }

    /// Seconds since the Unix Epoch.
    pub fn unix_seconds(&self) -> (r: i64)
        ensures
            r == self@,
            is_instant(r as int),
    {
        proof {
            use_type_invariant(self);
        }
        self.unix_seconds
    }

    /// The instant in RFC 3339 form, as chrono renders it.
    pub fn to_rfc3339(&self) -> (r: String)
        ensures
            r@ == rfc3339_text(self@),
    {
        proof {
            use_type_invariant(self);
        }
        chrono_rfc3339(self.unix_seconds)
    }
}

} // verus!
