//! Human-readable time labels: the "last opened" column and the
//! timestamp the error log carries.  The clock itself is read by the
//! caller; everything here is a pure function of seconds.

use vstd::prelude::*;

use crate::strutil::push_char;

verus! {

/// Decimal digits of a non-negative number, as characters.
pub open spec fn dec_chars(n: int) -> Seq<char>
    decreases n,
{
    if n < 10 {
        seq![(((48 + (if n >= 0 {
            n % 10
        } else {
            0
        })) as u8) as char)]
    } else {
        dec_chars(n / 10) + seq![(((48 + n % 10) as u8) as char)]
    }
}

/// Append the decimal representation of `n`.
pub fn push_u64_dec(s: &mut String, n: u64)
    ensures
        final(s)@ == old(s)@ + dec_chars(n as int),
    decreases n,
{
    if n >= 10 {
        push_u64_dec(s, n / 10);
    }
    push_char(s, ((48 + (n % 10) as u8)) as char);
}

/// Whether a year has a leap day.
pub open spec fn spec_is_leap(y: int) -> bool {
    y % 4 == 0 && (y % 100 != 0 || y % 400 == 0)
}

/// The length of a year in days.
pub open spec fn year_days(y: int) -> int {
    if spec_is_leap(y) {
        366
    } else {
        365
    }
}

/// Walk whole years off a day count starting at year `y`: the year the
/// count lands in, and the remaining day of that year.
pub open spec fn civil_year(days: int, y: int) -> (int, int)
    decreases days,
{
    if days < year_days(y) || days < 0 {
        (y, days)
    } else {
        civil_year(days - year_days(y), y + 1)
    }
}

/// The length of month `i` (zero-based).
pub open spec fn month_days(i: int, leap: bool) -> int {
    if i == 0 {
        31
    } else if i == 1 {
        if leap {
            29
        } else {
            28
        }
    } else if i == 2 {
        31
    } else if i == 3 {
        30
    } else if i == 4 {
        31
    } else if i == 5 {
        30
    } else if i == 6 {
        31
    } else if i == 7 {
        31
    } else if i == 8 {
        30
    } else if i == 9 {
        31
    } else if i == 10 {
        30
    } else {
        31
    }
}

/// Walk whole months off a day-of-year from month `i` on: the one-based
/// month the day lands in, and the remaining day of that month.
pub open spec fn civil_month(days: int, i: int, leap: bool) -> (int, int)
    decreases 12 - i,
{
    if i < 0 || i >= 12 {
        (0, days)
    } else if days < month_days(i, leap) {
        (i + 1, days)
    } else {
        civil_month(days - month_days(i, leap), i + 1, leap)
    }
}

/// A number padded with zeros to at least two digits.
pub open spec fn pad2(n: int) -> Seq<char> {
    if n < 10 {
        seq!['0'] + dec_chars(n)
    } else {
        dec_chars(n)
    }
}

/// A number padded with zeros to at least four digits.
pub open spec fn pad4(n: int) -> Seq<char> {
    if n < 10 {
        seq!['0', '0', '0'] + dec_chars(n)
    } else if n < 100 {
        seq!['0', '0'] + dec_chars(n)
    } else if n < 1000 {
        seq!['0'] + dec_chars(n)
    } else {
        dec_chars(n)
    }
}

/// The `YYYY-MM-DD HH:MM:SS` stamp of a moment given in seconds since
/// the epoch.
pub open spec fn stamp_chars(secs: int) -> Seq<char> {
    let yc = civil_year(secs / 86400, 1970);
    let mc = civil_month(yc.1, 0, spec_is_leap(yc.0));
    pad4(yc.0) + seq!['-'] + pad2(mc.0) + seq!['-'] + pad2(mc.1 + 1) + seq![' '] + pad2(
        (secs / 3600) % 24,
    ) + seq![':'] + pad2((secs / 60) % 60) + seq![':'] + pad2(secs % 60)
}

/// Append `n` padded to at least two digits.
fn push_pad2(s: &mut String, n: u64)
    ensures
        final(s)@ == old(s)@ + pad2(n as int),
{
    if n < 10 {
        push_char(s, '0');
    }
    push_u64_dec(s, n);
}

/// The calendar timestamp `YYYY-MM-DD HH:MM:SS` of a moment given in
/// seconds since the epoch.
pub fn utc_timestamp(secs: u64) -> (r: String)
    ensures
        r@ == stamp_chars(secs as int),
{
    let s = secs % 60;
    let m = (secs / 60) % 60;
    let h = (secs / 3600) % 24;
    let mut days: u64 = secs / 86400;
    let ghost days0 = days as int;

    let mut year: u64 = 1970;
    loop
        invariant
            year >= 1970,
            year - 1970 <= days0 - days,
            days <= days0,
            days0 <= 0xffffffffffffffffint / 86400,
            civil_year(days0, 1970) == civil_year(days as int, year as int),
        ensures
            civil_year(days0, 1970) == (year as int, days as int),
            days <= 365,
        decreases days,
    {
        let yd: u64 = if year % 4 == 0 && (year % 100 != 0 || year % 400 == 0) {
            366
        } else {
            365
        };
        proof {
            assert(yd as int == year_days(year as int));
        }
        if days < yd {
            break ;
        }
        days = days - yd;
        year = year + 1;
    }

    let leap = year % 4 == 0 && (year % 100 != 0 || year % 400 == 0);
    let ghost yday = days as int;
    let mut month: u64 = 0;
    let mut i: u64 = 0;
    while i < 12
        invariant_except_break
            month == 0,
            i <= 12,
            civil_month(yday, 0, spec_is_leap(year as int)) == civil_month(days as int, i as int,
                spec_is_leap(year as int)),
            leap == spec_is_leap(year as int),
        invariant
            days <= 365,
        ensures
            civil_month(yday, 0, spec_is_leap(year as int)) == (month as int, days as int),
        decreases 12 - i,
    {
        let d: u64 = month_len(i, leap);
        proof {
            assert(d as int == month_days(i as int, spec_is_leap(year as int)));
        }
        if days < d {
            month = i + 1;
            break ;
        }
        days = days - d;
        i = i + 1;
    }

    let mut out = String::new();
    // Year, padded to four digits.
    if year < 10 {
        out.append("000");
        proof {
            reveal_strlit("000");
            assert("000"@ =~= seq!['0', '0', '0']);
        }
    } else if year < 100 {
        out.append("00");
        proof {
            reveal_strlit("00");
            assert("00"@ =~= seq!['0', '0']);
        }
    } else if year < 1000 {
        out.append("0");
        proof {
            reveal_strlit("0");
            assert("0"@ =~= seq!['0']);
        }
    }
    push_u64_dec(&mut out, year);
    push_char(&mut out, '-');
    push_pad2(&mut out, month);
    push_char(&mut out, '-');
    push_pad2(&mut out, days + 1);
    push_char(&mut out, ' ');
    push_pad2(&mut out, h);
    push_char(&mut out, ':');
    push_pad2(&mut out, m);
    push_char(&mut out, ':');
    push_pad2(&mut out, s);
    out
}

/// The length of month `i` (zero-based).
fn month_len(i: u64, leap: bool) -> (d: u64)
    requires
        i < 12,
    ensures
        d as int == month_days(i as int, leap),
        1 <= d <= 31,
{
    if i == 0 {
        31
    } else if i == 1 {
        if leap {
            29
        } else {
            28
        }
    } else if i == 2 {
        31
    } else if i == 3 {
        30
    } else if i == 4 {
        31
    } else if i == 5 {
        30
    } else if i == 6 {
        31
    } else if i == 7 {
        31
    } else if i == 8 {
        30
    } else if i == 9 {
        31
    } else if i == 10 {
        30
    } else {
        31
    }
}

/// The relative-time label for an event `ts` seconds after the epoch,
/// seen from `now`: coarse buckets from "just now" to months.
pub open spec fn rel_label(now: u64, ts: u64) -> Seq<char> {
    let delta = if now >= ts {
        now - ts
    } else {
        0int
    };
    if delta < 60 {
        "just now"@
    } else if delta < 3600 {
        if delta / 60 == 1 {
            "1 min ago"@
        } else {
            dec_chars(delta / 60) + " mins ago"@
        }
    } else if delta < 86400 {
        if delta / 3600 == 1 {
            "1 hour ago"@
        } else {
            dec_chars(delta / 3600) + " hours ago"@
        }
    } else if delta < 86400 * 30 {
        if delta / 86400 == 1 {
            "1 day ago"@
        } else {
            dec_chars(delta / 86400) + " days ago"@
        }
    } else {
        if delta / 86400 / 30 == 1 {
            "1 month ago"@
        } else {
            dec_chars(delta / 86400 / 30) + " months ago"@
        }
    }
}

/// Format how long ago `ts` was, seen from `now` (both in seconds
/// since the epoch).  A `ts` in the future counts as "just now".
pub fn format_relative(now: u64, ts: u64) -> (r: String)
    ensures
        r@ == rel_label(now, ts),
{
    let delta: u64 = if now >= ts {
        now - ts
    } else {
        0
    };
    if delta < 60 {
        String::from_str("just now")
    } else if delta < 3600 {
        let m = delta / 60;
        if m == 1 {
            String::from_str("1 min ago")
        } else {
            let mut s = String::new();
            push_u64_dec(&mut s, m);
            s.append(" mins ago");
            s
        }
    } else if delta < 86400 {
        let h = delta / 3600;
        if h == 1 {
            String::from_str("1 hour ago")
        } else {
            let mut s = String::new();
            push_u64_dec(&mut s, h);
            s.append(" hours ago");
            s
        }
    } else if delta < 86400 * 30 {
        let d = delta / 86400;
        if d == 1 {
            String::from_str("1 day ago")
        } else {
            let mut s = String::new();
            push_u64_dec(&mut s, d);
            s.append(" days ago");
            s
        }
    } else {
        let m = delta / 86400 / 30;
        if m == 1 {
            String::from_str("1 month ago")
        } else {
            let mut s = String::new();
            push_u64_dec(&mut s, m);
            s.append(" months ago");
            s
        }
    }
}

} // verus!
