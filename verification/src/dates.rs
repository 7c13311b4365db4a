use vstd::prelude::*;

verus! {

#[verifier::external_type_specification]
#[verifier::external_body]
pub struct ExNaiveDateTime(chrono::NaiveDateTime);

#[verifier::external_type_specification]
#[verifier::external_body]
pub struct ExTimeDelta(chrono::TimeDelta);

/// A calendar date as plain values.
#[derive(Clone, Copy, PartialEq, Eq, Structural, Debug)]
pub struct Date {
    /// The calendar year.
    pub year: i32,
    /// The month number, 1 through 12.
    pub month: u8,
    /// The day of the month, 1 through 31.
    pub day: u8,
}

/// A date is valid when month and day lie in calendar range.
pub open spec fn valid_date(d: Date) -> bool {
    1 <= d.month <= 12 && 1 <= d.day <= 31
}

/// Relies on chrono::Local::now and DateTime::naive_local: the current
/// moment, as local clock time without the zone.
#[verifier::external_body]
fn now_naive_local() -> (r: chrono::NaiveDateTime) {
    chrono::Local::now().naive_local()
}

/// Relies on chrono::Local::now and DateTime::naive_utc: the current
/// moment, as UTC clock time without the zone.
#[verifier::external_body]
fn now_naive_utc() -> (r: chrono::NaiveDateTime) {
    chrono::Local::now().naive_utc()
}

/// Relies on chrono::TimeDelta::try_hours: the span of that many hours,
/// or `None` when it is out of the representable range (never a panic).
#[verifier::external_body]
fn delta_hours(hours: i64) -> (r: Option<chrono::TimeDelta>) {
    chrono::TimeDelta::try_hours(hours)
}

/// Relies on chrono::NaiveDateTime::checked_add_signed: the shifted
/// time, or `None` on overflow (never a panic).
#[verifier::external_body]
fn add_delta(moment: &chrono::NaiveDateTime, delta: chrono::TimeDelta) -> (r: Option<
    chrono::NaiveDateTime,
>) {
    moment.checked_add_signed(delta)
}

/// Relies on chrono::Datelike::year.
#[verifier::external_body]
fn date_year(moment: &chrono::NaiveDateTime) -> (r: i32) {
    chrono::Datelike::year(moment)
}

/// Relies on chrono::Datelike::month, documented to range over 1..=12.
#[verifier::external_body]
fn date_month(moment: &chrono::NaiveDateTime) -> (r: u32)
    ensures
        1 <= r <= 12,
{
    chrono::Datelike::month(moment)
}

/// Relies on chrono::Datelike::day, documented to range over 1..=31.
#[verifier::external_body]
fn date_day(moment: &chrono::NaiveDateTime) -> (r: u32)
    ensures
        1 <= r <= 31,
{
    chrono::Datelike::day(moment)
}

/// Builds a date from raw calendar parts, with the defensive range
/// check: exactly the in-range parts yield a date, and that date carries
/// them unchanged.
pub fn date_from_parts(year: i32, month: u32, day: u32) -> (r: Option<Date>)
    ensures
        r is Some <==> (1 <= month <= 12 && 1 <= day <= 31),
        r matches Some(d) ==> d == (Date { year, month: month as u8, day: day as u8 }),
{
    if 1 <= month && month <= 12 && 1 <= day && day <= 31 {
        Option::Some(Date { year, month: month as u8, day: day as u8 })
    } else {
        Option::None
    }
}

/// The current calendar date.
///
/// With no offset this is the local date; with an offset it is the date
/// reached by adding that many hours to the current UTC time. Absent
/// only when the shift itself is unrepresentable — the defensive range
/// check on month and day never fails for a real clock reading, so a
/// missing offset always yields a date.
pub fn today(offset: Option<i64>) -> (r: Option<Date>)
    ensures
        r matches Some(d) ==> valid_date(d),
        offset is None ==> r is Some,
{
    let naive = match offset {
        Option::None => now_naive_local(),
        Option::Some(hours) => {
            let delta = match delta_hours(hours) {
                Option::Some(d) => d,
                Option::None => {
                    return Option::None;
                },
            };
            let utc_now = now_naive_utc();
            match add_delta(&utc_now, delta) {
                Option::Some(shifted) => shifted,
                Option::None => {
                    return Option::None;
                },
            }
        },
    };
    date_from_parts(date_year(&naive), date_month(&naive), date_day(&naive))
}

} // verus!
