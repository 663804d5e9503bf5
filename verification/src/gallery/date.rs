//! Dates and durations in words.
use vstd::prelude::*;
use crate::text::{decimal, decimal_text, glue, glue3};

verus! {

/// Whether a year has a 29th of February.
pub open spec fn is_leap(y: int) -> bool {
    y % 4 == 0 && (y % 100 != 0 || y % 400 == 0)
}

/// How many days a month has.
pub open spec fn month_days(y: int, m: int) -> int {
    if m == 2 {
        if is_leap(y) {
            29
        } else {
            28
        }
    } else if m == 4 || m == 6 || m == 9 || m == 11 {
        30
    } else {
        31
    }
}

/// Whether there is such a day.
pub open spec fn is_date(y: int, m: int, d: int) -> bool {
    1 <= m <= 12 && 1 <= d <= month_days(y, m)
}

/// The days of a year before its month.
pub open spec fn days_before_month(y: int, m: int) -> int
    decreases m,
{
    if m <= 1 {
        0
    } else {
        days_before_month(y, m - 1) + month_days(y, m - 1)
    }
}

/// The days before a year, counted from the year 0.
pub open spec fn days_before_year(y: int) -> int {
    365 * y + (y - 1) / 4 - (y - 1) / 100 + (y - 1) / 400
}

/// The number of a day, counted from the first of January 1970.
pub open spec fn day_number(y: int, m: int, d: int) -> int {
    days_before_year(y) - days_before_year(1970) + days_before_month(y, m) + d - 1
}

/// The days of an era before a year of it, where years begin in March.
spec fn era_days(yoe: int) -> int {
    365 * yoe + yoe / 4 - yoe / 100
}

proof fn lemma_year_of_era(doe: int, yoe: int)
    requires
        0 <= doe <= 146_096,
        yoe == (doe - doe / 1460 + doe / 36524 - doe / 146_096) / 365,
    ensures
        0 <= yoe <= 399,
        era_days(yoe) <= doe,
        doe - era_days(yoe) <= 365,
        doe - era_days(yoe) == 365 ==> is_leap(yoe + 1),
{
    let q = doe / 1460;
    let c = doe / 36524;
    let e = doe / 146_096;
    assert(0 <= c <= 4);
    assert(0 <= e <= 1);
    assert(e == 1 <==> doe == 146_096);
    if doe == 146_096 {
        assert(yoe == 399);
    } else {
        assert(c <= 3) by {
            if c == 4 {
                assert(doe >= 4 * 36524);
            }
        }
        let r = doe - 36524 * c;
        assert(0 <= r < 36524);
    }
}

proof fn lemma_months(y: int)
    ensures
        days_before_month(y, 1) == 0,
        days_before_month(y, 2) == 31,
        forall|m: int|
            3 <= m <= 12 ==> #[trigger] days_before_month(y, m) == 59 + (if is_leap(y) {
                1int
            } else {
                0
            }) + (153 * (m - 3) + 2) / 5,
{
    reveal_with_fuel(days_before_month, 13);
    assert forall|m: int| 3 <= m <= 12 implies #[trigger] days_before_month(y, m) == 59 + (
    if is_leap(y) {
        1int
    } else {
        0
    }) + (153 * (m - 3) + 2) / 5 by {
        if m == 3 {
        } else if m == 4 {
        } else if m == 5 {
        } else if m == 6 {
        } else if m == 7 {
        } else if m == 8 {
        } else if m == 9 {
        } else if m == 10 {
        } else if m == 11 {
        } else {
            assert(m == 12);
        }
    }
}

/// A date: year, month and day.
pub struct Civil {
    pub year: int,
    pub month: int,
    pub day: int,
}

/// Whether a date is that of a day's number.
pub open spec fn is_date_of(c: Civil, z: int) -> bool {
    is_date(c.year, c.month, c.day) && day_number(c.year, c.month, c.day) == z
}

/// The month and day of a day of a year that begins in March.
proof fn lemma_month_of_year(doy: int, mp: int, d: int)
    requires
        0 <= doy <= 365,
        mp == (5 * doy + 2) / 153,
        d == doy - (153 * mp + 2) / 5 + 1,
    ensures
        0 <= mp <= 11,
        1 <= d <= 31,
        mp == 1 || mp == 3 || mp == 6 || mp == 8 ==> d <= 30,
        mp == 11 ==> d <= 29,
        mp == 11 && d == 29 ==> doy == 365,
{
    assert(0 <= mp <= 11);
    if mp == 0 {
    } else if mp == 1 {
    } else if mp == 2 {
    } else if mp == 3 {
    } else if mp == 4 {
    } else if mp == 5 {
    } else if mp == 6 {
    } else if mp == 7 {
    } else if mp == 8 {
    } else if mp == 9 {
    } else if mp == 10 {
    } else {
        assert(mp == 11);
    }
}

/// What a year that begins in March has to do with the calendar's.
proof fn lemma_years(yoe: int, era: int)
    requires
        0 <= yoe <= 399,
    ensures
        ({
            let w = yoe + era * 400;
            &&& days_before_year(w) + (if is_leap(w) {
                1int
            } else {
                0
            }) == era_days(yoe) + era * 146_097
            &&& days_before_year(w + 1) == 365 + era_days(yoe) + era * 146_097
            &&& is_leap(w + 1) == is_leap(yoe + 1)
        }),
{
    let w = yoe + era * 400;
    assert(w / 4 == yoe / 4 + 100 * era);
    assert(w / 100 == yoe / 100 + 4 * era);
    assert(w / 400 == era);
    assert((w + 1) % 4 == (yoe + 1) % 4 && (w + 1) % 100 == (yoe + 1) % 100);
    assert((w + 1) % 400 == (yoe + 1) % 400);
    assert(w % 4 == yoe % 4 && w % 100 == yoe % 100 && w % 400 == yoe);
    assert((w - 1) / 4 == w / 4 - (if w % 4 == 0 {
        1int
    } else {
        0
    }));
    assert((w - 1) / 100 == w / 100 - (if w % 100 == 0 {
        1int
    } else {
        0
    }));
    assert((w - 1) / 400 == w / 400 - (if w % 400 == 0 {
        1int
    } else {
        0
    }));
    assert(w % 100 == 0 ==> w % 4 == 0);
    assert(w % 400 == 0 ==> w % 100 == 0);
}

proof fn lemma_civil(z: int, era: int, doe: int, yoe: int, doy: int, mp: int, y: int, m: int, d: int)
    requires
        doe == z + 719_468 - era * 146_097,
        0 <= doe <= 146_096,
        yoe == (doe - doe / 1460 + doe / 36524 - doe / 146_096) / 365,
        doy == doe - era_days(yoe),
        mp == (5 * doy + 2) / 153,
        d == doy - (153 * mp + 2) / 5 + 1,
        m == (if mp < 10 {
            mp + 3
        } else {
            mp - 9
        }),
        y == yoe + era * 400 + (if m <= 2 {
            1int
        } else {
            0
        }),
    ensures
        is_date_of(Civil { year: y, month: m, day: d }, z),
{
    lemma_year_of_era(doe, yoe);
    lemma_month_of_year(doy, mp, d);
    lemma_years(yoe, era);
    lemma_months(y);
    let w = yoe + era * 400;
    assert(days_before_year(1970) == 719_527);
    if m > 2 {
        assert(y == w);
        assert(days_before_month(y, m) == 59 + (if is_leap(y) {
            1int
        } else {
            0
        }) + (153 * mp + 2) / 5);
    } else if m == 1 {
        assert(mp == 10);
        assert((153 * mp + 2) / 5 == 306);
    } else {
        assert(mp == 11);
        assert((153 * mp + 2) / 5 == 337);
    }
}

/// The date of a day's number. The year is the last 32 bits of its number.
pub fn civil_from_days(z: i64) -> (r: (i32, u32, u32))
    requires
        z <= i64::MAX - 719_468,
    ensures
        exists|year: i64| #[trigger]
            (year as i32) == r.0 && is_date_of(
                Civil { year: year as int, month: r.1 as int, day: r.2 as int },
                z as int,
            ),
{
    let s: i64 = z + 719_468;
    let era: i64 = if s >= 0 {
        s / 146_097
    } else {
        -((-s + 146_096) / 146_097)
    };
    assert(era == s as int / 146_097) by {
        if s < 0 {
            let k = (-s + 146_096) as int / 146_097;
            assert(k * 146_097 >= -s && k * 146_097 < -s + 146_097);
        }
    }
    let doe: u64 = (s - era * 146_097) as u64;
    assert(doe <= 146_096);
    let yoe: u64 = (doe - doe / 1460 + doe / 36524 - doe / 146_096) / 365;
    proof {
        lemma_year_of_era(doe as int, yoe as int);
    }
    let y: i64 = yoe as i64 + era * 400;
    let doy: u64 = doe - (365 * yoe + yoe / 4 - yoe / 100);
    let mp: u64 = (5 * doy + 2) / 153;
    let d: u64 = doy - (153 * mp + 2) / 5 + 1;
    let m: u64 = if mp < 10 {
        mp + 3
    } else {
        mp - 9
    };
    let y: i64 = if m <= 2 {
        y + 1
    } else {
        y
    };
    proof {
        lemma_civil(
            z as int,
            era as int,
            doe as int,
            yoe as int,
            doy as int,
            mp as int,
            y as int,
            m as int,
            d as int,
        );
        assert(is_date_of(
            Civil { year: y as int, month: m as int, day: d as int },
            z as int,
        ));
    }
    (y as i32, m as u32, d as u32)
}

proof fn lemma_year_steps(a: int, b: int)
    requires
        a < b,
    ensures
        days_before_year(a) + 365 + (if is_leap(a) {
            1int
        } else {
            0
        }) <= days_before_year(b),
    decreases b - a,
{
    assert((a - 1) / 4 == a / 4 - (if a % 4 == 0 {
        1int
    } else {
        0
    }));
    assert((a - 1) / 100 == a / 100 - (if a % 100 == 0 {
        1int
    } else {
        0
    }));
    assert((a - 1) / 400 == a / 400 - (if a % 400 == 0 {
        1int
    } else {
        0
    }));
    if a + 1 < b {
        lemma_year_steps(a + 1, b);
    }
}

proof fn lemma_within_year(y: int, m: int, d: int)
    requires
        is_date(y, m, d),
    ensures
        0 <= days_before_month(y, m) + d - 1 < 365 + (if is_leap(y) {
            1int
        } else {
            0
        }),
        forall|n: int|
            m < n <= 12 ==> days_before_month(y, m) + d <= #[trigger] days_before_month(y, n),
{
    lemma_months(y);
    assert(days_before_month(y, m) + month_days(y, m) <= 365 + (if is_leap(y) {
        1int
    } else {
        0
    }) && forall|n: int|
        m < n <= 12 ==> days_before_month(y, m) + month_days(y, m) <= #[trigger] days_before_month(
            y,
            n,
        )) by {
        reveal_with_fuel(days_before_month, 13);
        if m == 1 {
        } else if m == 2 {
        } else if m == 3 {
        } else if m == 4 {
        } else if m == 5 {
        } else if m == 6 {
        } else if m == 7 {
        } else if m == 8 {
        } else if m == 9 {
        } else if m == 10 {
        } else if m == 11 {
        } else {
            assert(m == 12);
        }
    }
}

/// Every day has one date: two dates of one day are the same.
pub proof fn law_one_date(a: Civil, b: Civil, z: int)
    requires
        is_date_of(a, z),
        is_date_of(b, z),
    ensures
        a == b,
{
    lemma_within_year(a.year, a.month, a.day);
    lemma_within_year(b.year, b.month, b.day);
    if a.year < b.year {
        lemma_year_steps(a.year, b.year);
    } else if b.year < a.year {
        lemma_year_steps(b.year, a.year);
    }
}

/// The short name of a month.
pub open spec fn month_name(m: int) -> Seq<char> {
    if m == 1 {
        "янв."@
    } else if m == 2 {
        "фев."@
    } else if m == 3 {
        "мар."@
    } else if m == 4 {
        "апр."@
    } else if m == 5 {
        "мая"@
    } else if m == 6 {
        "июн."@
    } else if m == 7 {
        "июл."@
    } else if m == 8 {
        "авг."@
    } else if m == 9 {
        "сен."@
    } else if m == 10 {
        "окт."@
    } else if m == 11 {
        "ноя."@
    } else {
        "дек."@
    }
}

fn month_word(m: u32) -> (r: &'static str)
    requires
        1 <= m <= 12,
    ensures
        r@ == month_name(m as int),
{
    if m == 1 {
        "янв."
    } else if m == 2 {
        "фев."
    } else if m == 3 {
        "мар."
    } else if m == 4 {
        "апр."
    } else if m == 5 {
        "мая"
    } else if m == 6 {
        "июн."
    } else if m == 7 {
        "июл."
    } else if m == 8 {
        "авг."
    } else if m == 9 {
        "сен."
    } else if m == 10 {
        "окт."
    } else if m == 11 {
        "ноя."
    } else {
        "дек."
    }
}

/// A number with its sign.
pub open spec fn signed(n: i32) -> Seq<char> {
    if n < 0 {
        "-"@ + decimal((-n) as nat)
    } else {
        decimal(n as nat)
    }
}

fn signed_text(n: i32) -> (r: String)
    ensures
        r@ == signed(n),
{
    if n < 0 {
        let t = decimal_text((-(n as i64)) as u64);
        glue("-", t.as_str())
    } else {
        decimal_text(n as u64)
    }
}

/// A date in words, with the last 32 bits of its year.
pub open spec fn date_words(year: i64, month: int, day: int) -> Seq<char> {
    decimal(day as nat) + " "@ + month_name(month) + " "@ + signed(year as i32) + " г."@
}

/// Whether a text is the date of a day's number.
pub open spec fn is_date_text(t: Seq<char>, z: int) -> bool {
    exists|year: i64, month: int, day: int| #[trigger]
        date_words(year, month, day) == t && is_date_of(
            Civil { year: year as int, month, day },
            z,
        )
}

fn date_text(z: i64) -> (r: String)
    requires
        0 <= z <= i64::MAX - 719_468,
    ensures
        is_date_text(r@, z as int),
{
    let (y, m, d) = civil_from_days(z);
    let ghost year = choose|year: i64| #[trigger]
        (year as i32) == y && is_date_of(
            Civil { year: year as int, month: m as int, day: d as int },
            z as int,
        );
    let day = decimal_text(d as u64);
    let front = glue3(day.as_str(), " ", month_word(m));
    let yt = signed_text(y);
    let mid = glue3(front.as_str(), " ", yt.as_str());
    let r = glue(mid.as_str(), " г.");
    assert(date_words(year, m as int, d as int) == r@);
    r
}

/// Whole days from one time to another, none where the first is later.
pub open spec fn days_since(secs: u64, now: u64) -> nat {
    if secs >= now {
        0
    } else {
        (now - secs) as nat / 86_400
    }
}

/// When something was, in words: how many days ago, or the date where that is
/// a month or more. Never, where the time is 0.
pub fn format_date(secs: u64, now: u64) -> (r: String)
    ensures
        ({
            let days = days_since(secs, now);
            if secs == 0 {
                r@ == "—"@
            } else if days == 0 {
                r@ == "сегодня"@
            } else if days == 1 {
                r@ == "вчера"@
            } else if days < 30 {
                r@ == decimal(days) + " дн. назад"@
            } else {
                is_date_text(r@, secs as int / 86_400)
            }
        }),
{
    if secs == 0 {
        return "—".to_owned();
    }
    let days: u64 = now.saturating_sub(secs) / 86_400;
    assert(days == days_since(secs, now));
    if days == 0 {
        "сегодня".to_owned()
    } else if days == 1 {
        "вчера".to_owned()
    } else if days < 30 {
        let n = decimal_text(days);
        glue(n.as_str(), " дн. назад")
    } else {
        date_text((secs / 86_400) as i64)
    }
}

/// A duration in the two largest units that it reaches.
pub open spec fn duration_words(secs: u64) -> Seq<char> {
    let h = secs as nat / 3600;
    let m = secs as nat % 3600 / 60;
    let s = secs as nat % 60;
    if h > 0 {
        decimal(h) + " ч "@ + decimal(m) + " мин"@
    } else if m > 0 {
        decimal(m) + " мин "@ + decimal(s) + " с"@
    } else {
        decimal(s) + " с"@
    }
}

/// A duration in words.
pub fn format_duration(secs: u64) -> (r: String)
    ensures
        r@ == duration_words(secs),
{
    let h: u64 = secs / 3600;
    let m: u64 = (secs % 3600) / 60;
    let s: u64 = secs % 60;
    if h > 0 {
        let a = decimal_text(h);
        let b = decimal_text(m);
        let front = glue3(a.as_str(), " ч ", b.as_str());
        glue(front.as_str(), " мин")
    } else if m > 0 {
        let a = decimal_text(m);
        let b = decimal_text(s);
        let front = glue3(a.as_str(), " мин ", b.as_str());
        glue(front.as_str(), " с")
    } else {
        let a = decimal_text(s);
        glue(a.as_str(), " с")
    }
}

} // verus!
