use ritual::dates::{
    fmt_nice_date, get_day_suffix, get_month_name, nice_date, nice_date_at, CivilDate, NiceDate,
};
use ritual::types::DateTime;

const DAY: i64 = 86_400;
// 2024-01-01T00:00:00Z, a Monday
const NEW_YEAR: i64 = 1_704_067_200;

fn at(secs: i64) -> DateTime {
    DateTime { secs, nanos: 0 }
}

#[test]
fn day_suffixes() {
    assert_eq!(get_day_suffix(1), "st");
    assert_eq!(get_day_suffix(2), "nd");
    assert_eq!(get_day_suffix(3), "rd");
    assert_eq!(get_day_suffix(4), "th");
    assert_eq!(get_day_suffix(10), "th");
    assert_eq!(get_day_suffix(11), "th");
    assert_eq!(get_day_suffix(12), "th");
    assert_eq!(get_day_suffix(13), "th");
    assert_eq!(get_day_suffix(21), "st");
    assert_eq!(get_day_suffix(22), "nd");
    assert_eq!(get_day_suffix(23), "rd");
    assert_eq!(get_day_suffix(30), "th");
    assert_eq!(get_day_suffix(31), "st");
    assert_eq!(get_day_suffix(0), "th");
    assert_eq!(get_day_suffix(111), "st");
}

#[test]
fn month_names() {
    let names = [
        "January", "February", "March", "April", "May", "June", "July", "August", "September",
        "October", "November", "December",
    ];
    for (i, n) in names.iter().enumerate() {
        assert_eq!(get_month_name(i as u32 + 1), *n);
    }
    assert_eq!(get_month_name(0), "");
    assert_eq!(get_month_name(13), "");
}

fn civil(year: i32, month: u32, day: u32, weekday: u32, day_number: i32) -> CivilDate {
    CivilDate { year, month, day, weekday, day_number }
}

#[test]
fn wording_of_plain_dates() {
    let today = civil(2024, 1, 10, 2, 738_895);
    assert_eq!(nice_date(today, today), NiceDate::Today);
    assert_eq!(nice_date(civil(2024, 1, 9, 1, 738_894), today), NiceDate::Yesterday);
    // two days back: not the weekday before today's, same month
    assert_eq!(nice_date(civil(2024, 1, 8, 0, 738_893), today), NiceDate::DayOfMonth { day: 8 });
    // six days ahead falls on the weekday before today's
    assert_eq!(nice_date(civil(2024, 1, 16, 1, 738_901), today), NiceDate::Weekday(1));
    // eight days back falls on that weekday too, but is no longer within a week
    assert_eq!(nice_date(civil(2024, 1, 2, 1, 738_887), today), NiceDate::DayOfMonth { day: 2 });
    // another month
    assert_eq!(
        nice_date(civil(2023, 12, 25, 0, 738_879), today),
        NiceDate::Full { day: 25, month: 12, year: 2023 }
    );
    // same month number, another year
    assert_eq!(
        nice_date(civil(2023, 1, 10, 1, 738_530), today),
        NiceDate::Full { day: 10, month: 1, year: 2023 }
    );
    // Sunday comes before Monday
    let monday = civil(2024, 1, 1, 0, 738_886);
    assert_eq!(nice_date(civil(2024, 1, 7, 6, 738_892), monday), NiceDate::Weekday(6));
}

#[test]
fn wording_of_instants() {
    let today = at(NEW_YEAR + 9 * DAY + 3_600);
    assert_eq!(nice_date_at(at(NEW_YEAR + 9 * DAY), today), Some(NiceDate::Today));
    assert_eq!(nice_date_at(at(NEW_YEAR + 9 * DAY - 1), today), Some(NiceDate::Yesterday));
    assert_eq!(nice_date_at(at(NEW_YEAR), today), Some(NiceDate::DayOfMonth { day: 1 }));
    assert_eq!(
        nice_date_at(at(NEW_YEAR - 1), today),
        Some(NiceDate::Full { day: 31, month: 12, year: 2023 })
    );
    assert_eq!(nice_date_at(at(NEW_YEAR + 15 * DAY), today), Some(NiceDate::Weekday(1)));
    assert_eq!(nice_date_at(at(NEW_YEAR + 6 * DAY), at(NEW_YEAR)), Some(NiceDate::Weekday(6)));
    assert_eq!(
        nice_date_at(at(0), today),
        Some(NiceDate::Full { day: 1, month: 1, year: 1970 })
    );
}

#[test]
fn wording_where_the_calendar_ends() {
    let today = at(NEW_YEAR);
    assert_eq!(nice_date_at(at(i64::MAX), today), None);
    assert_eq!(nice_date_at(today, at(i64::MIN)), None);
    assert_eq!(nice_date_at(DateTime { secs: 0, nanos: 2_000_000_000 }, today), None);
}

#[test]
fn wording_as_seen_from_now() {
    let now = chrono::Utc::now().timestamp();
    let r = fmt_nice_date(at(now));
    assert!(r == Some(NiceDate::Today) || r == Some(NiceDate::Yesterday));
    assert_eq!(
        fmt_nice_date(at(0)),
        Some(NiceDate::Full { day: 1, month: 1, year: 1970 })
    );
    assert_eq!(fmt_nice_date(at(i64::MAX)), None);
}
