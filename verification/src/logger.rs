//! The text side of the application log: the UTC calendar date that names a
//! day's log file, the time of day that stamps each line, and the listing of
//! the days that have a log.
//!
//! Reading the clock and touching the files is left to the caller, which hands
//! in the seconds since the Unix epoch and the file names it found.

use crate::text::{
    chars_of, decimal, is_prefix, matches_at, push_decimal_padded, push_str, string_from_chars,
    zero_pad,
};
use vstd::prelude::*;
use vstd::relations::{sorted_by, total_ordering};

verus! {

/// Gregorian leap year rule.
pub open spec fn leap(y: int) -> bool {
    y % 4 == 0 && (y % 100 != 0 || y % 400 == 0)
}

/// Number of days in year `y`.
pub open spec fn year_len(y: int) -> nat {
    if leap(y) {
        366
    } else {
        365
    }
}

/// Days from 1970-01-01 to the first day of year `y` (0 for years up to 1970).
pub open spec fn days_before_year(y: nat) -> nat
    decreases y,
{
    if y <= 1970 {
        0
    } else {
        days_before_year((y - 1) as nat) + year_len(y - 1)
    }
}

/// Number of days in month `m` (1 to 12) of year `y`.
pub open spec fn month_len(y: int, m: int) -> nat {
    if m == 2 {
        if leap(y) {
            29
        } else {
            28
        }
    } else if m == 4 || m == 6 || m == 9 || m == 11 {
        30
    } else {
        31
    }
}

/// Days from the first of January of year `y` to the first day of month `m`.
pub open spec fn days_before_month(y: int, m: int) -> nat
    decreases m,
{
    if m <= 1 {
        0
    } else {
        days_before_month(y, m - 1) + month_len(y, m - 1)
    }
}

/// `(y, m, d)` is the calendar date `days` days after 1970-01-01.
pub open spec fn is_civil_date(days: int, y: int, m: int, d: int) -> bool {
    &&& 1970 <= y
    &&& 1 <= m <= 12
    &&& 1 <= d <= month_len(y, m)
    &&& days_before_year(y as nat) + days_before_month(y, m) + d - 1 == days
}

/// `YYYY-MM-DD`, each part padded with zeros to its width.
pub open spec fn date_text(y: nat, m: nat, d: nat) -> Seq<char> {
    zero_pad(decimal(y), 4) + seq!['-'] + zero_pad(decimal(m), 2) + seq!['-'] + zero_pad(
        decimal(d),
        2,
    )
}

/// `HH:MM:SS` of the UTC time of day `secs` seconds after the epoch.
pub open spec fn clock_text(secs: nat) -> Seq<char> {
    zero_pad(decimal((secs / 3600) % 24), 2) + seq![':'] + zero_pad(decimal((secs / 60) % 60), 2)
        + seq![':'] + zero_pad(decimal(secs % 60), 2)
}

/// Each year adds at least 365 days.
pub proof fn lemma_days_before_year_grows(a: nat, b: nat)
    requires
        1970 <= a <= b,
    ensures
        days_before_year(a) + 365 * (b - a) <= days_before_year(b),
    decreases b - a,
{
    if a < b {
        lemma_days_before_year_grows(a, (b - 1) as nat);
    }
}

/// The months of a year add up to the year.
proof fn lemma_months_fill_year(y: int)
    ensures
        days_before_month(y, 13) == year_len(y),
{
    reveal_with_fuel(days_before_month, 13);
}

/// Later months start later.
proof fn lemma_days_before_month_grows(y: int, a: int, b: int)
    requires
        1 <= a <= b,
    ensures
        days_before_month(y, a) + (b - a) <= days_before_month(y, b),
    decreases b - a,
{
    if a < b {
        lemma_days_before_month_grows(y, a, b - 1);
    }
}

/// The calendar date of a day count is unique.
pub proof fn lemma_civil_date_unique(days: int, y1: int, m1: int, d1: int, y2: int, m2: int, d2: int)
    requires
        is_civil_date(days, y1, m1, d1),
        is_civil_date(days, y2, m2, d2),
    ensures
        y1 == y2 && m1 == m2 && d1 == d2,
{
    assert forall|y: int, m: int, d: int| #[trigger] is_civil_date(days, y, m, d) implies days_before_year(
        y as nat,
    ) <= days < days_before_year((y + 1) as nat) && days_before_month(y, m) <= days
        - days_before_year(y as nat) < days_before_month(y, m + 1) by {
        lemma_days_before_month_grows(y, m + 1, 13);
        lemma_months_fill_year(y);
    }
    if y1 < y2 {
        lemma_days_before_year_grows((y1 + 1) as nat, y2 as nat);
    } else if y2 < y1 {
        lemma_days_before_year_grows((y2 + 1) as nat, y1 as nat);
    }
    assert(y1 == y2);
    if m1 < m2 {
        lemma_days_before_month_grows(y1, m1 + 1, m2);
    } else if m2 < m1 {
        lemma_days_before_month_grows(y1, m2 + 1, m1);
    }
}

/// The day count of `today_date` and the hours, minutes and seconds of
/// `chrono_free` together give back the instant they were taken from.
pub proof fn lemma_date_and_clock_give_instant(secs: nat)
    ensures
        secs == (secs / 86400) * 86400 + ((secs / 3600) % 24) * 3600 + ((secs / 60) % 60) * 60
            + secs % 60,
{
    let d = secs / 86400;
    let h = secs / 3600;
    let m = secs / 60;
    assert(secs == m * 60 + secs % 60) by (nonlinear_arith)
        requires
            m == secs / 60,
    ;
    assert(m == h * 60 + m % 60) by (nonlinear_arith)
        requires
            h == secs / 3600,
            m == secs / 60,
    ;
    assert(h == d * 24 + h % 24) by (nonlinear_arith)
        requires
            d == secs / 86400,
            h == secs / 3600,
    ;
    assert(secs == d * 86400 + (h % 24) * 3600 + (m % 60) * 60 + secs % 60) by (nonlinear_arith)
        requires
            secs == m * 60 + secs % 60,
            m == h * 60 + m % 60,
            h == d * 24 + h % 24,
    ;
}

/// Days of month `m` (1 to 12) of year `y` in the Gregorian calendar:
/// 31, 28 or 29 (years divisible by 4, except centuries not divisible by
/// 400), 31, 30, 31, 30, 31, 31, 30, 31, 30, 31.
pub open spec fn gregorian_month_days(y: int, m: int) -> nat {
    let leap_year = y % 4 == 0 && (y % 100 != 0 || y % 400 == 0);
    seq![31nat, if leap_year { 29nat } else { 28nat }, 31, 30, 31, 30, 31, 31, 30, 31, 30, 31][m - 1]
}

/// The calendar date that follows `(y, m, d)`.
pub open spec fn next_date(y: int, m: int, d: int) -> (int, int, int) {
    if d < gregorian_month_days(y, m) {
        (y, m, d + 1)
    } else if m < 12 {
        (y, m + 1, 1)
    } else {
        (y + 1, 1, 1)
    }
}

proof fn lemma_month_len_gregorian(y: int, m: int)
    requires
        1 <= m <= 12,
    ensures
        month_len(y, m) == gregorian_month_days(y, m),
{
}

/// The calendar of `today_date` is the Gregorian calendar from 1970-01-01:
/// day 0 is 1970-01-01; a date never has more days than its month has in
/// the Gregorian calendar (no September 31st, February 29th only in leap
/// years); and the date of the next day is the day after it (the last day of
/// a month is followed by the first of the next, December 31st by January
/// 1st of the next year).
pub proof fn lemma_calendar_is_gregorian(n: int, y: int, m: int, d: int)
    requires
        is_civil_date(n, y, m, d),
    ensures
        is_civil_date(0, 1970, 1, 1),
        1 <= d <= gregorian_month_days(y, m),
        is_civil_date(n + 1, next_date(y, m, d).0, next_date(y, m, d).1, next_date(y, m, d).2),
{
    lemma_month_len_gregorian(1970, 1);
    lemma_month_len_gregorian(y, m);
    let (y2, m2, d2) = next_date(y, m, d);
    if d < gregorian_month_days(y, m) {
    } else if m < 12 {
        lemma_month_len_gregorian(y, m + 1);
        assert(days_before_month(y, m + 1) == days_before_month(y, m) + month_len(y, m));
    } else {
        lemma_months_fill_year(y);
        lemma_month_len_gregorian(y + 1, 1);
        assert(days_before_month(y, 13) == days_before_month(y, 12) + month_len(y, 12));
        assert(days_before_year((y + 1) as nat) == days_before_year(y as nat) + year_len(y));
    }
}

/// The time of day text: `HH:MM:SS`, each two-digit, with hours below 24,
/// minutes and seconds below 60, adding up to the seconds elapsed since the
/// start of the UTC day.
pub proof fn lemma_clock_text_parts(secs: nat)
    ensures
        exists|h: nat, m: nat, s: nat|
            h < 24 && m < 60 && s < 60 && #[trigger] (h * 3600 + m * 60 + s) == secs % 86400
                && clock_text(secs) == zero_pad(decimal(h), 2) + seq![':'] + zero_pad(decimal(m), 2)
                + seq![':'] + zero_pad(decimal(s), 2),
{
    let h = (secs / 3600) % 24;
    let m = (secs / 60) % 60;
    let s = secs % 60;
    lemma_date_and_clock_give_instant(secs);
    assert(h * 3600 + m * 60 + s == secs % 86400) by (nonlinear_arith)
        requires
            secs == (secs / 86400) * 86400 + h * 3600 + m * 60 + s,
            h < 24,
            m < 60,
            s < 60,
    ;
    assert(h * 3600 + m * 60 + s == secs % 86400);
}

/// Gregorian leap year rule.
pub fn is_leap(year: u32) -> (r: bool)
    ensures
        r == leap(year as int),
{
    year % 4 == 0 && (year % 100 != 0 || year % 400 == 0)
}

/// Days in month `m` (1 to 12) of `year`.
fn days_in_month(year: u32, m: u32) -> (n: u64)
    requires
        1 <= m <= 12,
    ensures
        n == month_len(year as int, m as int),
{
    if m == 2 {
        if is_leap(year) {
            29
        } else {
            28
        }
    } else if m == 4 || m == 6 || m == 9 || m == 11 {
        30
    } else {
        31
    }
}

/// The calendar date `days` days after 1970-01-01, as (year, month, day).
/// Inputs whose year would not fit in a `u32` are left out.
pub fn civil_from_days(days: u64) -> (r: (u32, u32, u32))
    requires
        days < days_before_year(0x1_0000_0000),
    ensures
        is_civil_date(days as int, r.0 as int, r.1 as int, r.2 as int),
{
    let mut year: u64 = 1970;
    let mut remaining: u64 = days;
    loop
        invariant
            1970 <= year,
            days_before_year(year as nat) + remaining == days,
            days < days_before_year(0x1_0000_0000),
        ensures
            1970 <= year < 0x1_0000_0000,
            remaining < year_len(year as int),
            days_before_year(year as nat) + remaining == days,
        decreases remaining,
    {
        if year >= 0x1_0000_0000 {
            proof {
                lemma_days_before_year_grows(0x1_0000_0000, year as nat);
            }
            assert(false);
        }
        let days_in_year: u64 = if is_leap(year as u32) {
            366
        } else {
            365
        };
        if remaining < days_in_year {
            break ;
        }
        remaining = remaining - days_in_year;
        year = year + 1;
    }
    let y = year as u32;
    proof {
        lemma_months_fill_year(y as int);
    }
    let mut month: u32 = 1;
    loop
        invariant
            1 <= month <= 12,
            days_before_year(y as nat) + days_before_month(y as int, month as int) + remaining
                == days,
            days_before_month(y as int, month as int) + remaining < year_len(y as int),
            days_before_month(y as int, 13) == year_len(y as int),
        ensures
            1 <= month <= 12,
            remaining < month_len(y as int, month as int),
            days_before_year(y as nat) + days_before_month(y as int, month as int) + remaining
                == days,
        decreases 12 - month,
    {
        let md = days_in_month(y, month);
        if remaining < md {
            break ;
        }
        if month == 12 {
            proof {
                reveal_with_fuel(days_before_month, 2);
                assert(days_before_month(y as int, 13) == days_before_month(y as int, 12)
                    + month_len(y as int, 12));
            }
            assert(false);
        }
        remaining = remaining - md;
        month = month + 1;
    }
    (y, month, (remaining + 1) as u32)
}

/// The UTC calendar date `secs` seconds after the epoch, as `YYYY-MM-DD`:
/// the name of that day's log.
pub fn today_date(secs: u64) -> (r: String)
    requires
        secs / 86400 < days_before_year(0x1_0000_0000),
    ensures
        exists|y: int, m: int, d: int|
            #[trigger] is_civil_date((secs / 86400) as int, y, m, d) && r@ == date_text(
                y as nat,
                m as nat,
                d as nat,
            ),
{
    let (y, m, d) = civil_from_days(secs / 86400);
    let mut v: Vec<char> = Vec::new();
    push_decimal_padded(&mut v, y as u64, 4);
    v.push('-');
    push_decimal_padded(&mut v, m as u64, 2);
    v.push('-');
    push_decimal_padded(&mut v, d as u64, 2);
    proof {
        assert(v@ =~= date_text(y as nat, m as nat, d as nat));
    }
    crate::text::string_from_chars(&v)
}

/// The UTC time of day `secs` seconds after the epoch, as `HH:MM:SS`.
pub fn chrono_free(secs: u64) -> (r: String)
    ensures
        r@ == clock_text(secs as nat),
{
    let mut v: Vec<char> = Vec::new();
    push_decimal_padded(&mut v, (secs / 3600) % 24, 2);
    v.push(':');
    push_decimal_padded(&mut v, (secs / 60) % 60, 2);
    v.push(':');
    push_decimal_padded(&mut v, secs % 60, 2);
    proof {
        assert(v@ =~= clock_text(secs as nat));
    }
    crate::text::string_from_chars(&v)
}

// ─── Log lines and files ───────────────────────────────────────────

/// A line of the log: `[HH:MM:SS] message`.
pub fn log_line(now_secs: u64, message: &str) -> (r: String)
    ensures
        r@ == seq!['['] + clock_text(now_secs as nat) + seq![']', ' '] + message@,
{
    let mut line = String::new();
    push_str(&mut line, "[");
    let clock = chrono_free(now_secs);
    push_str(&mut line, clock.as_str());
    push_str(&mut line, "] ");
    push_str(&mut line, message);
    proof {
        reveal_strlit("[");
        reveal_strlit("] ");
        assert(line@ =~= seq!['['] + clock_text(now_secs as nat) + seq![']', ' '] + message@);
    }
    line
}

/// The file name of the log of day `date`: `{date}.log`.
pub fn log_file_name(date: &str) -> (r: String)
    ensures
        r@ == date@ + ".log"@,
{
    let mut name = String::new();
    push_str(&mut name, date);
    push_str(&mut name, ".log");
    proof {
        assert(Seq::<char>::empty() + date@ + ".log"@ =~= date@ + ".log"@);
    }
    name
}

/// A file name with the extension `log`: it ends with `.log` and has
/// something before that last dot.
pub open spec fn has_log_extension(name: Seq<char>) -> bool {
    name.len() > 4 && name.skip(name.len() - 4) == ".log"@
}

/// `s` with every occurrence of `p` removed, scanning left to right
/// (`str::replace(p, "")`).
pub open spec fn remove_all(s: Seq<char>, p: Seq<char>) -> Seq<char>
    decreases s.len(),
{
    if s.len() == 0 {
        s
    } else if p.len() > 0 && is_prefix(p, s) {
        remove_all(s.skip(p.len() as int), p)
    } else {
        seq![s[0]] + remove_all(s.skip(1), p)
    }
}

/// The days that have a log, from the names of the files of the log folder.
pub open spec fn log_days(names: Seq<Seq<char>>) -> Seq<Seq<char>> {
    names.filter(|n: Seq<char>| has_log_extension(n)).map_values(
        |n: Seq<char>| remove_all(n, ".log"@),
    )
}

/// `a` is not after `b` in the order of `String`: lexicographic, character
/// by character (UTF-8 byte order and character order agree).
pub open spec fn text_le(a: Seq<char>, b: Seq<char>) -> bool
    decreases a.len(),
{
    if a.len() == 0 {
        true
    } else if b.len() == 0 {
        false
    } else if a[0] != b[0] {
        a[0] < b[0]
    } else {
        text_le(a.skip(1), b.skip(1))
    }
}

/// The log of day `x` is the file `x.log`: that name has the extension
/// `log`, and dropping `.log` from it gives `x` back, for any non-empty `x`
/// that holds no `.log` itself.
pub proof fn lemma_log_file_day(x: Seq<char>)
    requires
        x.len() > 0,
        !crate::text::has_substring(x, ".log"@),
    ensures
        has_log_extension(x + ".log"@),
        remove_all(x + ".log"@, ".log"@) == x,
{
    reveal_strlit(".log");
    let m = ".log"@;
    let s = x + m;
    assert(s.skip(s.len() - 4) =~= m);
    lemma_remove_all_plain(x);
}

proof fn lemma_remove_all_plain(x: Seq<char>)
    requires
        !crate::text::has_substring(x, ".log"@),
    ensures
        remove_all(x + ".log"@, ".log"@) == x,
    decreases x.len(),
{
    reveal_strlit(".log");
    let m = ".log"@;
    let s = x + m;
    if x.len() == 0 {
        assert(s =~= m);
        assert(is_prefix(m, s)) by {
            assert(s.take(4) =~= m);
        }
        assert(s.skip(4) =~= Seq::<char>::empty());
        assert(m.len() == 4);
        assert(remove_all(s, m) == remove_all(s.skip(4), m));
        assert(remove_all(Seq::<char>::empty(), m) == Seq::<char>::empty());
        assert(x =~= Seq::<char>::empty());
    } else {
        assert(!is_prefix(m, s)) by {
            if is_prefix(m, s) {
                if x.len() >= 4 {
                    assert(x.subrange(0, 4) =~= s.take(4));
                    assert(crate::text::occurs_at(x, m, 0));
                } else {
                    assert(s[x.len() as int] == '.');
                    assert(s.take(4)[x.len() as int] == s[x.len() as int]);
                }
            }
        }
        let rest = x.skip(1);
        assert(!crate::text::has_substring(rest, m)) by {
            if crate::text::has_substring(rest, m) {
                let i = choose|i: int| crate::text::occurs_at(rest, m, i);
                assert(x.subrange(i + 1, i + 1 + 4) =~= rest.subrange(i, i + 4));
                assert(crate::text::occurs_at(x, m, i + 1));
            }
        }
        lemma_remove_all_plain(rest);
        assert(s.skip(1) =~= rest + m);
        assert(seq![x[0]] + rest =~= x);
        assert(s.len() > 0 && s[0] == x[0]);
        assert(remove_all(s, m) == seq![s[0]] + remove_all(s.skip(1), m));
    }
}

/// Newest first: the reverse of `text_le`.
pub open spec fn newest_first(a: Seq<char>, b: Seq<char>) -> bool {
    text_le(b, a)
}

proof fn lemma_text_le_reflexive(a: Seq<char>)
    ensures
        text_le(a, a),
    decreases a.len(),
{
    if a.len() > 0 {
        lemma_text_le_reflexive(a.skip(1));
    }
}

proof fn lemma_text_le_antisymmetric(a: Seq<char>, b: Seq<char>)
    requires
        text_le(a, b),
        text_le(b, a),
    ensures
        a == b,
    decreases a.len(),
{
    if a.len() > 0 && b.len() > 0 {
        lemma_text_le_antisymmetric(a.skip(1), b.skip(1));
        assert(a =~= seq![a[0]] + a.skip(1));
        assert(b =~= seq![b[0]] + b.skip(1));
    } else {
        assert(a =~= b);
    }
}

proof fn lemma_text_le_transitive(a: Seq<char>, b: Seq<char>, c: Seq<char>)
    requires
        text_le(a, b),
        text_le(b, c),
    ensures
        text_le(a, c),
    decreases a.len(),
{
    if a.len() > 0 && b.len() > 0 && c.len() > 0 && a[0] == b[0] && b[0] == c[0] {
        lemma_text_le_transitive(a.skip(1), b.skip(1), c.skip(1));
    }
}

proof fn lemma_text_le_total(a: Seq<char>, b: Seq<char>)
    ensures
        text_le(a, b) || text_le(b, a),
    decreases a.len(),
{
    if a.len() > 0 && b.len() > 0 && a[0] == b[0] {
        lemma_text_le_total(a.skip(1), b.skip(1));
    }
}

/// Newest first is a total order, so a listing sorted that way is the only
/// one with its days: the listing is determined by the folder's contents.
pub proof fn lemma_newest_first_total_order()
    ensures
        total_ordering(|a: Seq<char>, b: Seq<char>| newest_first(a, b)),
{
    let r = |a: Seq<char>, b: Seq<char>| newest_first(a, b);
    assert forall|x: Seq<char>| #[trigger] r(x, x) by {
        lemma_text_le_reflexive(x);
    }
    assert forall|x: Seq<char>, y: Seq<char>| #[trigger] r(x, y) && #[trigger] r(y, x) implies x
        == y by {
        lemma_text_le_antisymmetric(x, y);
    }
    assert forall|x: Seq<char>, y: Seq<char>, z: Seq<char>| #[trigger] r(x, y) && #[trigger] r(
        y,
        z,
    ) implies r(x, z) by {
        lemma_text_le_transitive(z, y, x);
    }
    assert forall|x: Seq<char>, y: Seq<char>| #[trigger] r(x, y) || #[trigger] r(y, x) by {
        lemma_text_le_total(x, y);
    }
}

/// Whether `a` is not after `b` in the order of `String`.
fn chars_le(a: &Vec<char>, b: &Vec<char>) -> (r: bool)
    ensures
        r == text_le(a@, b@),
{
    let mut i: usize = 0;
    proof {
        assert(a@.skip(0) =~= a@);
        assert(b@.skip(0) =~= b@);
    }
    while i < a.len() && i < b.len() && a[i] == b[i]
        invariant
            i <= a@.len(),
            i <= b@.len(),
            text_le(a@, b@) == text_le(a@.skip(i as int), b@.skip(i as int)),
        decreases a.len() - i,
    {
        proof {
            assert(a@.skip(i as int).skip(1) =~= a@.skip(i + 1));
            assert(b@.skip(i as int).skip(1) =~= b@.skip(i + 1));
        }
        i = i + 1;
    }
    proof {
        if i < a@.len() {
            assert(a@.skip(i as int)[0] == a@[i as int]);
        }
        if i < b@.len() {
            assert(b@.skip(i as int)[0] == b@[i as int]);
        }
    }
    if i == a.len() {
        true
    } else if i == b.len() {
        false
    } else {
        a[i] < b[i]
    }
}

/// `s` with every `.log` removed.
fn remove_log_marks(s: &Vec<char>) -> (r: Vec<char>)
    ensures
        r@ == remove_all(s@, ".log"@),
{
    let mark = chars_of(".log");
    proof {
        reveal_strlit(".log");
    }
    let mut r: Vec<char> = Vec::new();
    let mut i: usize = 0;
    proof {
        assert(s@.skip(0) =~= s@);
        assert(Seq::<char>::empty() + remove_all(s@, ".log"@) =~= remove_all(s@, ".log"@));
    }
    while i < s.len()
        invariant
            i <= s@.len(),
            mark@ == ".log"@,
            mark@.len() == 4,
            remove_all(s@, ".log"@) == r@ + remove_all(s@.skip(i as int), ".log"@),
        decreases s.len() - i,
    {
        let ghost t = s@.skip(i as int);
        if matches_at(s, &mark, i) {
            proof {
                assert(t.take(4) =~= s@.subrange(i as int, i + 4));
                assert(t.skip(4) =~= s@.skip(i + 4));
            }
            i = i + 4;
        } else {
            proof {
                assert(!is_prefix(".log"@, t)) by {
                    if is_prefix(".log"@, t) {
                        assert(t.take(4) =~= s@.subrange(i as int, i + 4));
                    }
                }
                assert(t.skip(1) =~= s@.skip(i + 1));
                assert(r@.push(s@[i as int]) + remove_all(t.skip(1), ".log"@) =~= r@ + (seq![t[0]]
                    + remove_all(t.skip(1), ".log"@)));
            }
            r.push(s[i]);
            i = i + 1;
        }
    }
    proof {
        assert(s@.skip(i as int) =~= Seq::<char>::empty());
        assert(r@ + Seq::<char>::empty() =~= r@);
    }
    r
}

/// The days that have a log, newest first, from the names of the files of
/// the log folder: the names with the extension `log`, each without its
/// `.log`, sorted in reverse `String` order.
pub fn list_log_files(file_names: Vec<String>) -> (days: Vec<String>)
    ensures
        days@.map_values(|d: String| d@).to_multiset() == log_days(
            file_names@.map_values(|n: String| n@),
        ).to_multiset(),
        sorted_by(
            days@.map_values(|d: String| d@),
            |a: Seq<char>, b: Seq<char>| newest_first(a, b),
        ),
{
    broadcast use vstd::seq_lib::group_to_multiset_ensures;

    let ghost names = file_names@.map_values(|n: String| n@);
    let ghost keep = |n: Seq<char>| has_log_extension(n);
    let ghost strip = |n: Seq<char>| remove_all(n, ".log"@);
    let ghost desc = |a: Seq<char>, b: Seq<char>| newest_first(a, b);
    proof {
        lemma_newest_first_total_order();
    }
    let mut sorted: Vec<Vec<char>> = Vec::new();
    let mut i: usize = 0;
    while i < file_names.len()
        invariant
            i <= file_names@.len(),
            names == file_names@.map_values(|n: String| n@),
            keep == (|n: Seq<char>| has_log_extension(n)),
            strip == (|n: Seq<char>| remove_all(n, ".log"@)),
            desc == (|a: Seq<char>, b: Seq<char>| newest_first(a, b)),
            total_ordering(desc),
            sorted@.map_values(|v: Vec<char>| v@).to_multiset() == names.take(i as int).filter(
                keep,
            ).map_values(strip).to_multiset(),
            sorted_by(sorted@.map_values(|v: Vec<char>| v@), desc),
        decreases file_names.len() - i,
    {
        let name = chars_of(file_names[i].as_str());
        proof {
            reveal_with_fuel(Seq::<_>::filter, 1);
            assert(names.take(i + 1).drop_last() =~= names.take(i as int));
            assert(names.take(i + 1).last() == name@);
        }
        let ghost before = sorted@.map_values(|v: Vec<char>| v@);
        let n = name.len();
        let is_log = n > 4 && name[n - 4] == '.' && name[n - 3] == 'l' && name[n - 2] == 'o'
            && name[n - 1] == 'g';
        proof {
            reveal_strlit(".log");
            if is_log {
                assert(name@.skip(n - 4) =~= ".log"@);
            } else if n > 4 {
                let t = name@.skip(n - 4);
                if t == ".log"@ {
                    assert(t[0] == name@[n - 4] && t[1] == name@[n - 3] && t[2] == name@[n - 2]
                        && t[3] == name@[n - 1]);
                }
            }
            assert(is_log == keep(name@));
        }
        if is_log {
            let day = remove_log_marks(&name);
            let mut pos: usize = 0;
            while pos < sorted.len() && !chars_le(&sorted[pos], &day)
                invariant
                    pos <= sorted@.len(),
                    before == sorted@.map_values(|v: Vec<char>| v@),
                    desc == (|a: Seq<char>, b: Seq<char>| newest_first(a, b)),
                    forall|k: int| 0 <= k < pos ==> !text_le(#[trigger] before[k], day@),
                decreases sorted.len() - pos,
            {
                pos = pos + 1;
            }
            sorted.insert(pos, day);
            proof {
                let after = sorted@.map_values(|v: Vec<char>| v@);
                assert(after =~= before.insert(pos as int, day@));
                vstd::seq_lib::to_multiset_insert(before, pos as int, day@);
                let strip_seq = names.take(i as int).filter(keep).map_values(strip);
                assert(names.take(i + 1).filter(keep).map_values(strip) =~= strip_seq.push(
                    day@,
                ));
                strip_seq.to_multiset_ensures();
                assert(strip_seq.push(day@).to_multiset() =~= strip_seq.to_multiset().insert(
                    day@,
                ));
                assert forall|x: int, y: int| 0 <= x < y < after.len() implies #[trigger] desc(
                    after[x],
                    after[y],
                ) by {
                    if y < pos {
                    } else if x < pos && y == pos {
                        lemma_text_le_total(before[x], day@);
                    } else if x < pos && y > pos {
                        assert(after[y] == before[y - 1]);
                    } else if x == pos {
                        assert(after[y] == before[y - 1]);
                        if pos < before.len() {
                            assert(text_le(before[pos as int], day@));
                            if y - 1 > pos {
                                assert(desc(before[pos as int], before[y - 1]));
                                lemma_text_le_transitive(before[y - 1], before[pos as int], day@);
                            }
                        }
                    } else {
                        assert(after[x] == before[x - 1]);
                        assert(after[y] == before[y - 1]);
                    }
                }
            }
        } else {
            proof {
                assert(names.take(i + 1).filter(keep) =~= names.take(i as int).filter(keep));
            }
        }
        i = i + 1;
    }
    proof {
        assert(names.take(i as int) =~= names);
    }
    let mut days: Vec<String> = Vec::new();
    let mut k: usize = 0;
    while k < sorted.len()
        invariant
            k <= sorted@.len(),
            days@.map_values(|d: String| d@) == sorted@.map_values(|v: Vec<char>| v@).take(k as int),
        decreases sorted.len() - k,
    {
        let ghost before = days@;
        let day = string_from_chars(&sorted[k]);
        days.push(day);
        proof {
            let all = sorted@.map_values(|v: Vec<char>| v@);
            assert(all.take(k + 1) =~= all.take(k as int).push(all[k as int]));
            assert(days@.map_values(|d: String| d@) =~= before.map_values(|d: String| d@).push(
                day@,
            ));
        }
        k = k + 1;
    }
    proof {
        assert(sorted@.map_values(|v: Vec<char>| v@).take(k as int) =~= sorted@.map_values(
            |v: Vec<char>| v@,
        ));
    }
    days
}

} // verus!
