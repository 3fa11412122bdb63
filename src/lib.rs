//! Conversion between UTC instants and GPS Standard Time (GPST), with or
//! without the leap seconds that UTC has inserted since the GPS Epoch
//! (1980-01-06T00:00:00Z).
//!
//! GPST is counted in seconds since the GPS Epoch, or as whole weeks since
//! then plus the seconds elapsed in the current week. Time is kept in whole
//! seconds throughout.

pub mod gpst;
pub mod leaps;
pub mod utc;

pub use gpst::{
    from_gpst, from_gpst_seconds, Gpst, GpstError, GpstLike, GPS_EPOCH, SECONDS_PER_WEEK,
};
pub use leaps::{num_leaps, LEAP_COUNT, LEAP_SECONDS};
pub use utc::UtcTime;
