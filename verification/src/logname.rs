//! The name under which the overlay's previous log file is kept: its creation time,
//! in the machine's local time zone.

use vstd::prelude::*;
use crate::text::{
    decimal, signed_decimal, push_decimal, push_signed_decimal, is_numeral, numeral_value, reads_as_integer,
    lemma_decimal_reads_back, lemma_signed_decimal_reads_back,
};

verus! {

/// A calendar date and wall-clock time.
pub struct LocalDateTime {
    pub year: i32,
    pub month: u32,
    pub day: u32,
    pub hour: u32,
    pub minute: u32,
    pub second: u32,
}

impl LocalDateTime {
    /// The fields lie in their calendar ranges.
    pub open spec fn in_calendar_range(self) -> bool {
        &&& 1 <= self.month <= 12
        &&& 1 <= self.day <= 31
        &&& self.hour < 24
        &&& self.minute < 60
        &&& self.second < 60
    }
}

/// The earliest time, in seconds after the Unix epoch, that the calendar library
/// represents: January 1 of the year -262143, 0:00:00 UTC.
pub const MIN_LOG_TIMESTAMP: i64 = -8_334_601_228_800;

/// The latest time, in seconds after the Unix epoch, that the calendar library
/// represents: December 31 of the year 262142, 23:59:59 UTC.
pub const MAX_LOG_TIMESTAMP: i64 = 8_210_266_876_799;

/// The calendar date and wall-clock time `t` seconds after 1970-01-01 0:00:00 in the
/// proleptic Gregorian calendar, without leap seconds.
pub open spec fn civil_from_unix(t: int) -> LocalDateTime {
    let days = t / 86400;
    let secs = t % 86400;
    let z = days + 719468;
    let era = z / 146097;
    let doe = z - era * 146097;
    let yoe = (doe - doe / 1460 + doe / 36524 - doe / 146096) / 365;
    let doy = doe - (365 * yoe + yoe / 4 - yoe / 100);
    let mp = (5 * doy + 2) / 153;
    let day = doy - (153 * mp + 2) / 5 + 1;
    let month = if mp < 10 { mp + 3 } else { mp - 9 };
    let year = yoe + era * 400 + if month <= 2 { 1int } else { 0int };
    LocalDateTime {
        year: year as i32,
        month: month as u32,
        day: day as u32,
        hour: (secs / 3600) as u32,
        minute: (secs % 3600 / 60) as u32,
        second: (secs % 60) as u32,
    }
}

/// `chrono::DateTime::from_timestamp(secs, nanos)` taken into `chrono::Local` and read
/// back by its `Datelike` and `Timelike` getters. Within chrono's range of dates,
/// required here, a time comes back: the calendar time of `secs` shifted by the local
/// offset, which chrono keeps strictly within a day either way, and the getters keep
/// their documented ranges. Which offset applies comes from the machine's time zone,
/// so only its bound is stated.
#[verifier::external_body]
fn local_date_time(secs: i64, nanos: u32) -> (t: Option<LocalDateTime>)
    requires
        MIN_LOG_TIMESTAMP <= secs <= MAX_LOG_TIMESTAMP,
        nanos < 1_000_000_000,
    ensures
        t is Some,
        t is Some ==> t->0.in_calendar_range(),
        t is Some ==> exists|off: int| -86_400 < off < 86_400 && t->0 == #[trigger] civil_from_unix(secs + off),
{
    let local = chrono::DateTime::from_timestamp(secs, nanos)?.with_timezone(&chrono::Local);
    Some(LocalDateTime {
        year: chrono::Datelike::year(&local),
        month: chrono::Datelike::month(&local),
        day: chrono::Datelike::day(&local),
        hour: chrono::Timelike::hour(&local),
        minute: chrono::Timelike::minute(&local),
        second: chrono::Timelike::second(&local),
    })
}

/// `Overlay_{year}-{month}-{day}_{hour}-{minute}-{second}.log`, numbers without
/// padding.
pub open spec fn log_file_name_spec(t: LocalDateTime) -> Seq<char> {
    "Overlay_"@ + signed_decimal(t.year as int) + "-"@ + decimal(t.month as nat) + "-"@ + decimal(t.day as nat)
        + "_"@ + decimal(t.hour as nat) + "-"@ + decimal(t.minute as nat) + "-"@ + decimal(t.second as nat)
        + ".log"@
}

/// The name for a log file created at local time `t`.
pub fn log_file_name(t: &LocalDateTime) -> (name: String)
    ensures
        name@ == log_file_name_spec(*t),
{
    let mut name = String::new();
    name.append("Overlay_");
    push_signed_decimal(&mut name, t.year as i64);
    name.append("-");
    push_decimal(&mut name, t.month as u64);
    name.append("-");
    push_decimal(&mut name, t.day as u64);
    name.append("_");
    push_decimal(&mut name, t.hour as u64);
    name.append("-");
    push_decimal(&mut name, t.minute as u64);
    name.append("-");
    push_decimal(&mut name, t.second as u64);
    name.append(".log");
    assert(name@ =~= log_file_name_spec(*t));
    name
}

/// The name for a log file created `created_secs` seconds and `created_nanos`
/// nanoseconds after the Unix epoch, in the machine's local time. The seconds are
/// taken as a signed count (`created_secs as i64`, wrapping past `i64::MAX`); `None`
/// outside the dates the calendar library represents.
pub fn rotated_log_file_name(created_secs: u64, created_nanos: u32) -> (name: Option<String>)
    requires
        created_nanos < 1_000_000_000,
    ensures
        name is Some <==> MIN_LOG_TIMESTAMP <= created_secs as i64 <= MAX_LOG_TIMESTAMP,
        name matches Some(n) ==> exists|off: int|
            -86_400 < off < 86_400 && n@ == log_file_name_spec(#[trigger] civil_from_unix(created_secs as i64 + off)),
{
    let secs: i64 = created_secs as i64;
    if secs < MIN_LOG_TIMESTAMP || secs > MAX_LOG_TIMESTAMP {
        return None;
    }
    let t: Option<LocalDateTime> = local_date_time(secs, created_nanos);
    match t {
        Some(t) => {
            let n: String = log_file_name(&t);
            Some(n)
        },
        None => None,
    }
}

/// A log file name spells its time field by field, in the order year, month, day,
/// hour, minute, second: `Overlay_`, the year (with a minus sign when negative),
/// `-`, the month, `-`, the day, `_`, the hour, `-`, the minute, `-`, the second and
/// `.log`, each number in decimal digits, for every time.
pub proof fn lemma_log_file_name_fields(t: LocalDateTime)
    ensures
        exists|year: Seq<char>, month: Seq<char>, day: Seq<char>, hour: Seq<char>, minute: Seq<char>, second: Seq<char>|
            log_file_name_spec(t) == "Overlay_"@ + year + "-"@ + month + "-"@ + day + "_"@ + hour + "-"@ + minute
                + "-"@ + second + ".log"@
            && #[trigger] reads_as_integer(year, t.year as int)
            && is_numeral(month) && #[trigger] numeral_value(month) == t.month
            && is_numeral(day) && #[trigger] numeral_value(day) == t.day
            && is_numeral(hour) && #[trigger] numeral_value(hour) == t.hour
            && is_numeral(minute) && #[trigger] numeral_value(minute) == t.minute
            && is_numeral(second) && #[trigger] numeral_value(second) == t.second,
{
    lemma_signed_decimal_reads_back(t.year as int);
    lemma_decimal_reads_back(t.month as nat);
    lemma_decimal_reads_back(t.day as nat);
    lemma_decimal_reads_back(t.hour as nat);
    lemma_decimal_reads_back(t.minute as nat);
    lemma_decimal_reads_back(t.second as nat);
    let year = signed_decimal(t.year as int);
    let month = decimal(t.month as nat);
    let day = decimal(t.day as nat);
    let hour = decimal(t.hour as nat);
    let minute = decimal(t.minute as nat);
    let second = decimal(t.second as nat);
    assert(log_file_name_spec(t) == "Overlay_"@ + year + "-"@ + month + "-"@ + day + "_"@ + hour + "-"@ + minute
        + "-"@ + second + ".log"@);
}

} // verus!
