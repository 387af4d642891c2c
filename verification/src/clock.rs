use vstd::prelude::*;

use crate::text::digit_char;

verus! {

/// The earliest instant that `chrono::DateTime<Utc>` holds, in microseconds after the Unix
/// epoch: the start of January 1 of the year -262143.
pub const MIN_INSTANT: i64 = -8_334_601_228_800_000_000;

/// The last microsecond that `chrono::DateTime<Utc>` holds, in microseconds after the Unix
/// epoch: the end of December 31 of the year 262142.
pub const MAX_INSTANT: i64 = 8_210_266_876_799_999_999;

/// What `chrono::DateTime::to_rfc3339` writes for the UTC instant `micros` microseconds after
/// the Unix epoch; `None` where `chrono::DateTime::from_timestamp_micros` has no such instant.
pub uninterp spec fn rfc3339_text(micros: i64) -> Option<Seq<char>>;

/// The lower-case hexadecimal digit for `d` (0 to 15).
pub open spec fn hex_digit(d: int) -> char {
    if d < 10 {
        digit_char(d)
    } else if d == 10 {
        'a'
    } else if d == 11 {
        'b'
    } else if d == 12 {
        'c'
    } else if d == 13 {
        'd'
    } else if d == 14 {
        'e'
    } else {
        'f'
    }
}

/// The `i`-th of the 32 hexadecimal digits of `bits`, the most significant first.
pub open spec fn uuid_nibble(bits: u128, i: int) -> int {
    ((bits >> ((124 - 4 * i) as u128)) & 15u128) as int
}

/// The hyphenated lower-case form of the UUID whose 128 bits are `bits`: its 32 hexadecimal
/// digits, the most significant first, in groups of 8, 4, 4, 4 and 12 joined by hyphens.
pub open spec fn uuid_text(bits: u128) -> Seq<char> {
    Seq::new(
        36,
        |k: int|
            if k == 8 || k == 13 || k == 18 || k == 23 {
                '-'
            } else {
                let i = if k < 8 {
                    k
                } else if k < 13 {
                    k - 1
                } else if k < 18 {
                    k - 2
                } else if k < 23 {
                    k - 3
                } else {
                    k - 4
                };
                hex_digit(uuid_nibble(bits, i))
            },
    )
}

/// Where the system clock stands against the Unix epoch: this many whole seconds and
/// nanoseconds after it, or before it.
#[derive(Clone, Copy, Debug, PartialEq, Eq)]
pub enum ClockReading {
    After(u64, u32),
    Before(u64, u32),
}

/// Calls `std::time::SystemTime::elapsed` on `UNIX_EPOCH`, which never panics: `Ok` with the
/// time since the epoch, or, where the clock reads earlier, an error carrying the time
/// before it. Trusted: the nanoseconds are below one second, as `Duration::subsec_nanos`
/// documents. Which time the clock reads is not stated: it depends on the clock.
#[verifier::external_body]
fn read_system_clock() -> (r: ClockReading)
    ensures
        match r {
            ClockReading::After(_, n) => n < 1_000_000_000,
            ClockReading::Before(_, n) => n < 1_000_000_000,
        },
{
    match std::time::UNIX_EPOCH.elapsed() {
        Ok(d) => ClockReading::After(d.as_secs(), d.subsec_nanos()),
        Err(e) => ClockReading::Before(e.duration().as_secs(), e.duration().subsec_nanos()),
    }
}

/// The instant of a clock reading in whole microseconds after the Unix epoch, rounded down
/// as `chrono` rounds `timestamp_micros`; `None` where it lies outside `MIN_INSTANT` to
/// `MAX_INSTANT`.
pub open spec fn reading_micros(c: ClockReading) -> Option<i64> {
    let t: int = match c {
        ClockReading::After(s, n) => s * 1_000_000 + n / 1000,
        ClockReading::Before(s, n) => if n == 0 {
            -(s * 1_000_000)
        } else {
            (-s - 1) * 1_000_000 + (1_000_000_000 - n) / 1000
        },
    };
    if MIN_INSTANT <= t <= MAX_INSTANT {
        Some(t as i64)
    } else {
        None
    }
}

/// The instant of `c` in microseconds, as `reading_micros` says.
pub fn micros_of_reading(c: ClockReading) -> (r: Option<i64>)
    requires
        match c {
            ClockReading::After(_, n) => n < 1_000_000_000,
            ClockReading::Before(_, n) => n < 1_000_000_000,
        },
    ensures
        r == reading_micros(c),
{
    let t: i128 = match c {
        ClockReading::After(s, n) => s as i128 * 1_000_000 + (n / 1000) as i128,
        ClockReading::Before(s, n) => if n == 0 {
            -(s as i128 * 1_000_000)
        } else {
            (-(s as i128) - 1) * 1_000_000 + ((1_000_000_000 - n) / 1000) as i128
        },
    };
    if MIN_INSTANT as i128 <= t && t <= MAX_INSTANT as i128 {
        Some(t as i64)
    } else {
        None
    }
}

/// Readings count microseconds, unscaled: the epoch itself is instant 0, a reading one
/// second later than another is one million microseconds later, one a thousand nanoseconds
/// later is one microsecond later, and a reading just before the epoch lies just before 0.
pub proof fn clock_readings_count_microseconds(s: u64, n: u32)
    requires
        n < 999_000_000,
        s < 8_000_000_000_000,
    ensures
        reading_micros(ClockReading::After(0, 0)) == Some(0i64),
        reading_micros(ClockReading::After((s + 1) as u64, n)) matches Some(later) && reading_micros(
            ClockReading::After(s, n),
        ) matches Some(earlier) && later == earlier + 1_000_000,
        reading_micros(ClockReading::After(s, (n + 1000) as u32)) matches Some(later)
            && reading_micros(ClockReading::After(s, n)) matches Some(earlier) && later == earlier + 1,
        reading_micros(ClockReading::Before(0, 1000)) == Some(-1i64),
{
    assert((n + 1000) / 1000 == n / 1000 + 1);
}

/// The time the system clock reads, in microseconds after the Unix epoch; `None` where it
/// reads an instant that dates cannot be given for. Which time it is depends on the clock.
pub fn now_micros() -> (r: Option<i64>)
    ensures
        exists|c: ClockReading| r == #[trigger] reading_micros(c),
        r matches Some(t) ==> MIN_INSTANT <= t <= MAX_INSTANT,
{
    let c = read_system_clock();
    micros_of_reading(c)
}

/// Calls `chrono::DateTime::from_timestamp_micros` and `to_rfc3339`. Trusted: the result is
/// `rfc3339_text(micros)`; and it is present exactly for the instants from `MIN_INSTANT` to
/// `MAX_INSTANT`, the dates that `NaiveDate::from_num_days_from_ce_opt` accepts (years
/// -262143 to 262142), as `to_rfc3339` writes every date.
#[verifier::external_body]
pub fn rfc3339(micros: i64) -> (r: Option<String>)
    ensures
        match r {
            Some(s) => rfc3339_text(micros) == Some(s@),
            None => rfc3339_text(micros) is None,
        },
        r is Some <==> MIN_INSTANT <= micros <= MAX_INSTANT,
{
    chrono::DateTime::from_timestamp_micros(micros).map(|d| d.to_rfc3339())
}

/// Calls `uuid::Uuid::from_u128` and `to_string`. Trusted: the result is `uuid_text(bits)`,
/// the hyphenated lower-case form that `Display` writes.
#[verifier::external_body]
pub fn format_uuid(bits: u128) -> (r: String)
    ensures
        r@ == uuid_text(bits),
{
    uuid::Uuid::from_u128(bits).to_string()
}

} // verus!
