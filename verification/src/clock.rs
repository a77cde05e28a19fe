use vstd::prelude::*;
use chrono::Datelike;
use chrono::Timelike;
use crate::numfmt::format_u32_padded;
use crate::numfmt::lex_lt;
use crate::numfmt::spec_digits;
use crate::numfmt::spec_padded;

verus! {

/// A wall-clock instant broken into plain calendar fields, plus the ISO
/// weekday (1 = Monday .. 7 = Sunday) used for the check-day decision.
#[derive(Debug, Clone, Copy)]
pub struct TimeParts {
    pub year: i32,
    pub month: u32,
    pub day: u32,
    pub hour: u32,
    pub minute: u32,
    pub second: u32,
    pub weekday: u32,
}

impl TimeParts {
    /// The field ranges that any real clock reading satisfies.
    pub open spec fn wf(&self) -> bool {
        &&& 1 <= self.month <= 12
        &&& 1 <= self.day <= 31
        &&& self.hour <= 23
        &&& self.minute <= 59
        &&& self.second <= 59
        &&& 1 <= self.weekday <= 7
    }
}

/// Relies on chrono: `Local::now` for the current instant, the `Datelike`
/// accessors `year`/`month`/`day` (month 1..=12, day 1..=31), the `Timelike`
/// accessors `hour`/`minute`/`second` (0..=23, 0..=59, 0..=59), and
/// `Weekday::number_from_monday` (1..=7). The instant itself depends on the
/// clock, so nothing is promised beyond those documented ranges. Note that
/// `Local::now` itself can panic on a system clock set before the Unix
/// epoch or on unusable time-zone data; the contract speaks only of the
/// calls that return.
#[verifier::external_body]
pub fn now_parts() -> (t: TimeParts)
    ensures
        t.wf(),
{
    let now = chrono::Local::now();
    TimeParts {
        year: now.year(),
        month: now.month(),
        day: now.day(),
        hour: now.hour(),
        minute: now.minute(),
        second: now.second(),
        weekday: now.weekday().number_from_monday(),
    }
}

/// The year, zero-padded to four digits, with a leading `'-'` for years
/// before year zero.
pub open spec fn spec_year(y: int) -> Seq<char> {
    if y >= 0 {
        spec_padded(y as nat, 4)
    } else {
        seq!['-'] + spec_padded((-y) as nat, 4)
    }
}

/// `YYYY-MM-DD` for a clock reading.
pub open spec fn spec_date(t: TimeParts) -> Seq<char> {
    spec_year(t.year as int) + seq!['-'] + spec_padded(t.month as nat, 2) + seq!['-']
        + spec_padded(t.day as nat, 2)
}

/// `HH:MM:SS` for a clock reading.
pub open spec fn spec_clock(t: TimeParts) -> Seq<char> {
    spec_padded(t.hour as nat, 2) + seq![':'] + spec_padded(t.minute as nat, 2) + seq![':']
        + spec_padded(t.second as nat, 2)
}

/// The journal timestamp, `YYYY-MM-DD HH:MM:SS`.
pub open spec fn spec_timestamp(t: TimeParts) -> Seq<char> {
    spec_date(t) + seq![' '] + spec_clock(t)
}

/// The archive-name timestamp, `YYYY-MM-DD-HHMMSS`: lexically sortable by
/// creation time.
pub open spec fn spec_archive_stamp(t: TimeParts) -> Seq<char> {
    spec_date(t) + seq!['-'] + spec_padded(t.hour as nat, 2) + spec_padded(t.minute as nat, 2)
        + spec_padded(t.second as nat, 2)
}

/// The name of a new archive: `{hostname}-{YYYY-MM-DD-HHMMSS}`, uniquely
/// prefixed per host.
pub open spec fn spec_archive_name(hostname: Seq<char>, t: TimeParts) -> Seq<char> {
    hostname + seq!['-'] + spec_archive_stamp(t)
}

/// One journal line: `[timestamp] message` plus a trailing newline.
pub open spec fn spec_log_line(t: TimeParts, message: Seq<char>) -> Seq<char> {
    seq!['['] + spec_timestamp(t) + seq![']'] + seq![' '] + message + seq!['\n']
}

/// Chronological order on clock readings: earlier instant first, compared
/// field by field from year down to second.
pub open spec fn spec_chrono_lt(a: TimeParts, b: TimeParts) -> bool {
    if a.year != b.year {
        a.year < b.year
    } else if a.month != b.month {
        a.month < b.month
    } else if a.day != b.day {
        a.day < b.day
    } else if a.hour != b.hour {
        a.hour < b.hour
    } else if a.minute != b.minute {
        a.minute < b.minute
    } else {
        a.second < b.second
    }
}

proof fn lemma_pad2(x: u32)
    requires
        x <= 99,
    ensures
        spec_digits(x as nat).len() <= 2,
        spec_padded(x as nat, 2).len() == 2,
{
    reveal_with_fuel(crate::numfmt::pow10, 3);
    crate::numfmt::lemma_digits_len(x as nat, 2);
    crate::numfmt::lemma_padded_len(x as nat, 2);
}

proof fn lemma_two_digit_lt(a: u32, b: u32, s: Seq<char>, t: Seq<char>)
    requires
        a < b,
        b <= 99,
    ensures
        lex_lt(spec_padded(a as nat, 2) + s, spec_padded(b as nat, 2) + t),
{
    lemma_pad2(a);
    lemma_pad2(b);
    crate::numfmt::lemma_padded_lt(a as nat, b as nat, 2);
    crate::numfmt::lemma_lex_append(spec_padded(a as nat, 2), spec_padded(b as nat, 2), s, t);
}

/// The time-of-day block `HHMMSS`: an earlier time of day formats
/// lexicographically smaller.
proof fn lemma_time_lt(t1: TimeParts, t2: TimeParts)
    requires
        t1.wf(),
        t2.wf(),
        t1.hour < t2.hour || (t1.hour == t2.hour && (t1.minute < t2.minute || (t1.minute
            == t2.minute && t1.second < t2.second))),
    ensures
        lex_lt(
            spec_padded(t1.hour as nat, 2) + spec_padded(t1.minute as nat, 2) + spec_padded(
                t1.second as nat,
                2,
            ),
            spec_padded(t2.hour as nat, 2) + spec_padded(t2.minute as nat, 2) + spec_padded(
                t2.second as nat,
                2,
            ),
        ),
{
    let h1 = spec_padded(t1.hour as nat, 2);
    let h2 = spec_padded(t2.hour as nat, 2);
    let mi1 = spec_padded(t1.minute as nat, 2);
    let mi2 = spec_padded(t2.minute as nat, 2);
    let s1 = spec_padded(t1.second as nat, 2);
    let s2 = spec_padded(t2.second as nat, 2);
    assert(h1 + mi1 + s1 =~= h1 + (mi1 + s1));
    assert(h2 + mi2 + s2 =~= h2 + (mi2 + s2));
    if t1.hour < t2.hour {
        lemma_two_digit_lt(t1.hour, t2.hour, mi1 + s1, mi2 + s2);
    } else if t1.minute < t2.minute {
        lemma_two_digit_lt(t1.minute, t2.minute, s1, s2);
        crate::numfmt::lemma_lex_prefix(h1, mi1 + s1, mi2 + s2);
    } else {
        lemma_pad2(t1.second);
        lemma_pad2(t2.second);
        crate::numfmt::lemma_padded_lt(t1.second as nat, t2.second as nat, 2);
        crate::numfmt::lemma_lex_prefix(mi1, s1, s2);
        crate::numfmt::lemma_lex_prefix(h1, mi1 + s1, mi1 + s2);
    }
}

/// The `DD-HHMMSS` tail: an earlier day (or same day, earlier time)
/// formats lexicographically smaller.
proof fn lemma_day_tail_lt(t1: TimeParts, t2: TimeParts)
    requires
        t1.wf(),
        t2.wf(),
        t1.day < t2.day || (t1.day == t2.day && (t1.hour < t2.hour || (t1.hour == t2.hour && (
        t1.minute < t2.minute || (t1.minute == t2.minute && t1.second < t2.second))))),
    ensures
        lex_lt(
            spec_padded(t1.day as nat, 2) + (seq!['-'] + (spec_padded(t1.hour as nat, 2)
                + spec_padded(t1.minute as nat, 2) + spec_padded(t1.second as nat, 2))),
            spec_padded(t2.day as nat, 2) + (seq!['-'] + (spec_padded(t2.hour as nat, 2)
                + spec_padded(t2.minute as nat, 2) + spec_padded(t2.second as nat, 2))),
        ),
{
    let sep = seq!['-'];
    let d1 = spec_padded(t1.day as nat, 2);
    let d2 = spec_padded(t2.day as nat, 2);
    let w1 = spec_padded(t1.hour as nat, 2) + spec_padded(t1.minute as nat, 2) + spec_padded(
        t1.second as nat,
        2,
    );
    let w2 = spec_padded(t2.hour as nat, 2) + spec_padded(t2.minute as nat, 2) + spec_padded(
        t2.second as nat,
        2,
    );
    if t1.day < t2.day {
        lemma_two_digit_lt(t1.day, t2.day, sep + w1, sep + w2);
    } else {
        lemma_time_lt(t1, t2);
        crate::numfmt::lemma_lex_prefix(sep, w1, w2);
        crate::numfmt::lemma_lex_prefix(d1, sep + w1, sep + w2);
    }
}

/// The `MM-DD-HHMMSS` tail: an earlier month (or same month, earlier
/// moment) formats lexicographically smaller.
proof fn lemma_month_tail_lt(t1: TimeParts, t2: TimeParts)
    requires
        t1.wf(),
        t2.wf(),
        t1.year == t2.year,
        spec_chrono_lt(t1, t2),
    ensures
        lex_lt(
            spec_padded(t1.month as nat, 2) + (seq!['-'] + (spec_padded(t1.day as nat, 2) + (seq![
                '-',
            ] + (spec_padded(t1.hour as nat, 2) + spec_padded(t1.minute as nat, 2) + spec_padded(
                t1.second as nat,
                2,
            ))))),
            spec_padded(t2.month as nat, 2) + (seq!['-'] + (spec_padded(t2.day as nat, 2) + (seq![
                '-',
            ] + (spec_padded(t2.hour as nat, 2) + spec_padded(t2.minute as nat, 2) + spec_padded(
                t2.second as nat,
                2,
            ))))),
        ),
{
    let sep = seq!['-'];
    let mo1 = spec_padded(t1.month as nat, 2);
    let mo2 = spec_padded(t2.month as nat, 2);
    let v1 = spec_padded(t1.day as nat, 2) + (sep + (spec_padded(t1.hour as nat, 2) + spec_padded(
        t1.minute as nat,
        2,
    ) + spec_padded(t1.second as nat, 2)));
    let v2 = spec_padded(t2.day as nat, 2) + (sep + (spec_padded(t2.hour as nat, 2) + spec_padded(
        t2.minute as nat,
        2,
    ) + spec_padded(t2.second as nat, 2)));
    if t1.month < t2.month {
        lemma_two_digit_lt(t1.month, t2.month, sep + v1, sep + v2);
    } else {
        lemma_day_tail_lt(t1, t2);
        crate::numfmt::lemma_lex_prefix(sep, v1, v2);
        crate::numfmt::lemma_lex_prefix(mo1, sep + v1, sep + v2);
    }
}

/// The archive stamp regrouped for stripping from the left, one component
/// at a time.
proof fn lemma_stamp_shape(t: TimeParts)
    requires
        t.year >= 0,
    ensures
        spec_archive_stamp(t) == spec_padded((t.year as int) as nat, 4) + (seq!['-'] + (
        spec_padded(t.month as nat, 2) + (seq!['-'] + (spec_padded(t.day as nat, 2) + (seq!['-']
            + (spec_padded(t.hour as nat, 2) + spec_padded(t.minute as nat, 2) + spec_padded(
            t.second as nat,
            2,
        ))))))),
{
    let y = spec_padded((t.year as int) as nat, 4);
    let sep = seq!['-'];
    let mo = spec_padded(t.month as nat, 2);
    let d = spec_padded(t.day as nat, 2);
    let h = spec_padded(t.hour as nat, 2);
    let mi = spec_padded(t.minute as nat, 2);
    let s = spec_padded(t.second as nat, 2);
    assert(spec_year(t.year as int) == y);
    lemma_regroup(y, sep, mo, d, h, mi, s);
}

proof fn lemma_regroup(
    y: Seq<char>,
    sep: Seq<char>,
    mo: Seq<char>,
    d: Seq<char>,
    h: Seq<char>,
    mi: Seq<char>,
    s: Seq<char>,
)
    ensures
        y + sep + mo + sep + d + sep + h + mi + s == y + (sep + (mo + (sep + (d + (sep + (h + mi
            + s)))))),
{
    assert(y + sep + mo + sep + d + sep + h + mi + s =~= y + (sep + (mo + (sep + (d + (sep + (h
        + mi + s)))))));
}

/// Archive-name timestamps are lexically sortable by creation time: of two
/// well-formed clock readings in the common era, the chronologically earlier
/// one formats strictly lexicographically smaller.
#[verifier::rlimit(100)]
pub proof fn lemma_archive_stamp_sorts(t1: TimeParts, t2: TimeParts)
    requires
        t1.wf(),
        t2.wf(),
        0 <= t1.year <= 9999,
        0 <= t2.year <= 9999,
        spec_chrono_lt(t1, t2),
    ensures
        lex_lt(spec_archive_stamp(t1), spec_archive_stamp(t2)),
{
    reveal_with_fuel(crate::numfmt::pow10, 5);
    let sep = seq!['-'];
    let y1 = spec_padded((t1.year as int) as nat, 4);
    let y2 = spec_padded((t2.year as int) as nat, 4);
    let r1 = spec_padded(t1.month as nat, 2) + (sep + (spec_padded(t1.day as nat, 2) + (sep + (
    spec_padded(t1.hour as nat, 2) + spec_padded(t1.minute as nat, 2) + spec_padded(
        t1.second as nat,
        2,
    )))));
    let r2 = spec_padded(t2.month as nat, 2) + (sep + (spec_padded(t2.day as nat, 2) + (sep + (
    spec_padded(t2.hour as nat, 2) + spec_padded(t2.minute as nat, 2) + spec_padded(
        t2.second as nat,
        2,
    )))));
    crate::numfmt::lemma_digits_len((t1.year as int) as nat, 4);
    crate::numfmt::lemma_digits_len((t2.year as int) as nat, 4);
    crate::numfmt::lemma_padded_len((t1.year as int) as nat, 4);
    crate::numfmt::lemma_padded_len((t2.year as int) as nat, 4);
    lemma_stamp_shape(t1);
    lemma_stamp_shape(t2);
    if t1.year < t2.year {
        crate::numfmt::lemma_padded_lt((t1.year as int) as nat, (t2.year as int) as nat, 4);
        crate::numfmt::lemma_lex_append(y1, y2, sep + r1, sep + r2);
    } else {
        lemma_month_tail_lt(t1, t2);
        crate::numfmt::lemma_lex_prefix(sep, r1, r2);
        crate::numfmt::lemma_lex_prefix(y1, sep + r1, sep + r2);
    }
}

/// Archive names are lexically sortable by creation time: for one host, the
/// chronologically earlier of two well-formed clock readings in the common
/// era yields the strictly lexicographically smaller archive name.
pub proof fn lemma_archive_names_sort(hostname: Seq<char>, t1: TimeParts, t2: TimeParts)
    requires
        t1.wf(),
        t2.wf(),
        0 <= t1.year <= 9999,
        0 <= t2.year <= 9999,
        spec_chrono_lt(t1, t2),
    ensures
        lex_lt(spec_archive_name(hostname, t1), spec_archive_name(hostname, t2)),
{
    lemma_archive_stamp_sorts(t1, t2);
    crate::numfmt::lemma_lex_prefix(
        hostname + seq!['-'],
        spec_archive_stamp(t1),
        spec_archive_stamp(t2),
    );
    assert(spec_archive_name(hostname, t1) =~= (hostname + seq!['-']) + spec_archive_stamp(t1));
    assert(spec_archive_name(hostname, t2) =~= (hostname + seq!['-']) + spec_archive_stamp(t2));
}

/// Formats the year, zero-padded to four digits.
pub fn format_year(y: i32) -> (r: String)
    ensures
        r@ == spec_year(y as int),
{
    if y >= 0 {
        format_u32_padded(y as u32, 4)
    } else {
        let magnitude: u32 = ((-(y as i64)) as u32);
        let mut s = String::from_str("-");
        proof {
            reveal_strlit("-");
        }
        s.append(format_u32_padded(magnitude, 4).as_str());
        proof {
            assert(s@ =~= spec_year(y as int));
        }
        s
    }
}

/// Formats the journal timestamp `YYYY-MM-DD HH:MM:SS`.
pub fn format_timestamp(t: &TimeParts) -> (r: String)
    ensures
        r@ == spec_timestamp(*t),
{
    proof {
        reveal_strlit("-");
        reveal_strlit(" ");
        reveal_strlit(":");
    }
    let mut s = format_year(t.year);
    s.append("-");
    s.append(format_u32_padded(t.month, 2).as_str());
    s.append("-");
    s.append(format_u32_padded(t.day, 2).as_str());
    s.append(" ");
    s.append(format_u32_padded(t.hour, 2).as_str());
    s.append(":");
    s.append(format_u32_padded(t.minute, 2).as_str());
    s.append(":");
    s.append(format_u32_padded(t.second, 2).as_str());
    proof {
        assert(s@ =~= spec_timestamp(*t));
    }
    s
}

/// Formats the archive name `{hostname}-{YYYY-MM-DD-HHMMSS}`.
pub fn archive_name(hostname: &str, t: &TimeParts) -> (r: String)
    ensures
        r@ == spec_archive_name(hostname@, *t),
{
    proof {
        reveal_strlit("-");
    }
    let mut s = String::from_str(hostname);
    s.append("-");
    s.append(format_year(t.year).as_str());
    s.append("-");
    s.append(format_u32_padded(t.month, 2).as_str());
    s.append("-");
    s.append(format_u32_padded(t.day, 2).as_str());
    s.append("-");
    s.append(format_u32_padded(t.hour, 2).as_str());
    s.append(format_u32_padded(t.minute, 2).as_str());
    s.append(format_u32_padded(t.second, 2).as_str());
    proof {
        assert(s@ =~= spec_archive_name(hostname@, *t));
    }
    s
}

/// Formats one journal line: `[timestamp] message` plus a newline.
pub fn format_log_line(t: &TimeParts, message: &str) -> (r: String)
    ensures
        r@ == spec_log_line(*t, message@),
{
    proof {
        reveal_strlit("[");
        reveal_strlit("] ");
        reveal_strlit("\n");
    }
    let mut s = String::from_str("[");
    s.append(format_timestamp(t).as_str());
    s.append("] ");
    s.append(message);
    s.append("\n");
    proof {
        assert(s@ =~= spec_log_line(*t, message@));
    }
    s
}

} // verus!
