//! Calendar fields of instants, kept as microseconds since the Unix epoch (UTC).

use vstd::prelude::*;

use chrono::Datelike;

verus! {

/// Instants that `chrono::DateTime<Utc>` can hold, in microseconds since the epoch
/// (from the first day of year -262143 to the last microsecond of year 262142).
pub open spec fn representable_instant(us: int) -> bool {
    -8_334_601_315_200_000_000 <= us <= 8_210_266_876_799_999_999
}

/// The calendar date (year, month, day) of an instant in UTC, as chrono computes it.
pub uninterp spec fn utc_date(us: i64) -> (i32, u32, u32);

/// The current time in microseconds since the epoch, read from `chrono::Utc::now`.
#[verifier::external_body]
pub(crate) fn now_us() -> (r: i64)
    ensures
        representable_instant(r as int),
{
    chrono::Utc::now().timestamp_micros()
}

/// The UTC calendar date of an instant: `chrono::DateTime::<Utc>::from_timestamp_micros`,
/// then `year()`, `month()` (1 to 12) and `day()` (1 to 31). The contract names the date
/// and states only those ranges; the calendar computation is chrono's.
#[verifier::external_body]
pub(crate) fn date_of(us: i64) -> (r: (i32, u32, u32))
    requires
        representable_instant(us as int),
    ensures
        r == utc_date(us),
        1 <= r.1 <= 12,
        1 <= r.2 <= 31,
{
    let dt = chrono::DateTime::<chrono::Utc>::from_timestamp_micros(us).unwrap();
    (dt.year(), dt.month(), dt.day())
}

/// Seconds since midnight UTC of an instant.
pub open spec fn second_of_day(us: int) -> int {
    (us / 1_000_000) % 86400
}

/// Hour, minute and second (UTC) of an instant.
pub open spec fn time_of_day(us: int) -> (int, int, int) {
    let s = second_of_day(us);
    (s / 3600, (s % 3600) / 60, s % 60)
}

/// Hour, minute and second (UTC) of an instant given in microseconds since the epoch.
pub fn hour_minute_second(us: i64) -> (r: (u64, u64, u64))
    ensures
        r.0 as int == time_of_day(us as int).0,
        r.1 as int == time_of_day(us as int).1,
        r.2 as int == time_of_day(us as int).2,
        r.0 < 24,
        r.1 < 60,
        r.2 < 60,
{
    let u: i128 = us as i128;
    let secs: i128 = if u >= 0 {
        u / 1_000_000
    } else {
        -((-u + 999_999) / 1_000_000)
    };
    proof {
        if u < 0 {
            assert(secs == u / 1_000_000) by (nonlinear_arith)
                requires
                    u < 0,
                    secs == -((-u + 999_999) / 1_000_000),
            ;
        }
    }
    let sod: i128 = if secs >= 0 {
        secs % 86400
    } else {
        let m = (-secs) % 86400;
        if m == 0 {
            0
        } else {
            86400 - m
        }
    };
    proof {
        if secs < 0 {
            assert(sod == secs % 86400) by (nonlinear_arith)
                requires
                    secs < 0,
                    sod == (if (-secs) % 86400 == 0 {
                        0
                    } else {
                        86400 - (-secs) % 86400
                    }),
            ;
        }
    }
    ((sod / 3600) as u64, ((sod % 3600) / 60) as u64, (sod % 60) as u64)
}

} // verus!
