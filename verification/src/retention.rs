//! Which diagnostic files are kept: daily logs for two weeks, and of the
//! native crash reports the five newest from the last two weeks.

use chrono::{Datelike, Timelike};
use vstd::prelude::*;

use crate::text::chars_of;

verus! {

pub const RETAINED_LOG_DAYS: u64 = 14;
pub const RETAINED_CRASH_DAYS: u64 = 14;
pub const MAX_CRASH_REPORTS: usize = 5;

/// The first day, counted from the common era, of a retention window of
/// `retained_days` days that ends today: today is the window's last day.
pub fn oldest_retained_day(today: i32, retained_days: u64) -> (r: i32)
    requires
        1 <= retained_days,
        today - (retained_days - 1) >= i32::MIN,
    ensures
        r == today - (retained_days - 1),
{
    let back = (retained_days - 1) as i64;
    (today as i64 - back) as i32
}

/// How a crash report's name stamps the moment it was written.
pub open spec fn crash_stamp_format() -> Seq<char> {
    "%Y%m%dT%H%M%SZ"@
}

/// How a daily log file's name gives its day.
pub open spec fn log_date_format() -> Seq<char> {
    "%Y-%m-%d"@
}

/// What lies between `prefix` and `suffix` in `name`, if it starts and ends
/// with them.
pub open spec fn between(name: Seq<char>, prefix: Seq<char>, suffix: Seq<char>) -> Option<Seq<char>> {
    if name.len() >= prefix.len() + suffix.len() && name.take(prefix.len() as int) == prefix
        && name.skip(name.len() - suffix.len()) == suffix {
        Some(name.subrange(prefix.len() as int, name.len() - suffix.len()))
    } else {
        None
    }
}

/// What lies between `prefix` and `suffix` in `name` (`strip_prefix`, then
/// `strip_suffix`).
pub fn strip_affixes(name: &str, prefix: &str, suffix: &str) -> (r: Option<String>)
    ensures
        r matches Some(s) ==> between(name@, prefix@, suffix@) == Some(s@),
        r is None ==> between(name@, prefix@, suffix@) is None,
{
    let n = chars_of(name);
    let p = chars_of(prefix);
    let s = chars_of(suffix);
    if n.len() < p.len() || n.len() - p.len() < s.len() {
        return None;
    }
    let start = p.len();
    let end = n.len() - s.len();
    let head = vstd::slice::slice_subrange(n.as_slice(), 0, start);
    let tail = vstd::slice::slice_subrange(n.as_slice(), end, n.len());
    let head_ok = crate::text::chars_eq(head, p.as_slice());
    let tail_ok = crate::text::chars_eq(tail, s.as_slice());
    assert(head@ =~= name@.take(prefix@.len() as int));
    assert(tail@ =~= name@.skip(name@.len() - suffix@.len()));
    if head_ok && tail_ok {
        let middle = crate::text::string_from_chars(vstd::slice::slice_subrange(n.as_slice(), start, end));
        assert(middle@ =~= name@.subrange(prefix@.len() as int, name@.len() - suffix@.len()));
        Some(middle)
    } else {
        None
    }
}

/// The text before the first `-` (all of it when there is none).
pub open spec fn first_field(s: Seq<char>) -> Seq<char>
    decreases s.len(),
{
    if s.len() == 0 {
        s
    } else if s[0] == '-' {
        Seq::empty()
    } else {
        seq![s[0]] + first_field(s.drop_first())
    }
}

/// The text before the first `-` (`split('-').next()`).
pub fn first_field_of(s: &str) -> (r: String)
    ensures
        r@ == first_field(s@),
{
    let cs = chars_of(s);
    let mut i: usize = 0;
    assert(cs@.skip(0) =~= cs@);
    assert(cs@.take(0) + first_field(cs@.skip(0)) =~= first_field(s@));
    while i < cs.len() && cs[i] != '-'
        invariant
            i <= cs@.len(),
            cs@ == s@,
            first_field(s@) == cs@.take(i as int) + first_field(cs@.skip(i as int)),
        decreases cs@.len() - i,
    {
        let ghost rest = cs@.skip(i as int);
        assert(rest.drop_first() =~= cs@.skip(i + 1));
        assert(rest[0] == cs@[i as int]);
        assert(first_field(rest) == seq![cs@[i as int]] + first_field(cs@.skip(i + 1)));
        assert(cs@.take(i + 1) =~= cs@.take(i as int) + seq![cs@[i as int]]);
        assert(cs@.take(i as int) + (seq![cs@[i as int]] + first_field(cs@.skip(i + 1))) =~= cs@.take(
            i + 1,
        ) + first_field(cs@.skip(i + 1)));
        i = i + 1;
    }
    assert(cs@.take(i as int) + first_field(cs@.skip(i as int)) =~= cs@.take(i as int)) by {
        if i < cs@.len() {
            assert(cs@.skip(i as int)[0] == '-');
        } else {
            assert(cs@.skip(i as int) =~= Seq::<char>::empty());
        }
    }
    crate::text::string_from_chars(vstd::slice::slice_subrange(cs.as_slice(), 0, i))
}

/// A name for the moment (day counted from the common era, second of the
/// day) that `text` denotes when read with the chrono `format`.
pub uninterp spec fn stamp_moment(text: Seq<char>, format: Seq<char>) -> Option<(i32, u32)>;

/// `chrono::NaiveDateTime::parse_from_str`: the day counted from the common
/// era and the second of the day of the moment `text` denotes in `format`.
#[verifier::external_body]
fn parse_stamp(text: &str, format: &str) -> (r: Option<(i32, u32)>)
    ensures
        r == stamp_moment(text@, format@),
{
    chrono::NaiveDateTime::parse_from_str(text, format)
        .ok()
        .map(|moment| (moment.date().num_days_from_ce(), moment.time().num_seconds_from_midnight()))
}

/// A name for the day, counted from the common era, that `text` denotes
/// when read with the chrono `format`.
pub uninterp spec fn date_day(text: Seq<char>, format: Seq<char>) -> Option<i32>;

/// `chrono::NaiveDate::parse_from_str`: the day, counted from the common
/// era, that `text` denotes in `format`.
#[verifier::external_body]
fn parse_date(text: &str, format: &str) -> (r: Option<i32>)
    ensures
        r == date_day(text@, format@),
{
    chrono::NaiveDate::parse_from_str(text, format).ok().map(|date| date.num_days_from_ce())
}

/// The moment a crash dump file was written, from its name
/// `crash-<stamp>-<id>.dmp`.
pub open spec fn crash_moment(name: Seq<char>) -> Option<(i32, u32)> {
    match between(name, "crash-"@, ".dmp"@) {
        Some(rest) => stamp_moment(first_field(rest), crash_stamp_format()),
        None => None,
    }
}

pub fn crash_timestamp(name: &str) -> (r: Option<(i32, u32)>)
    ensures
        r == crash_moment(name@),
{
    match strip_affixes(name, "crash-", ".dmp") {
        Some(rest) => {
            let stamp = first_field_of(rest.as_str());
            parse_stamp(stamp.as_str(), "%Y%m%dT%H%M%SZ")
        },
        None => None,
    }
}

/// The name shared by the two files of a crash report written at `stamp`
/// (`%Y%m%dT%H%M%SZ`) for the dump `id`.
pub open spec fn crash_stem(stamp: Seq<char>, id: Seq<char>) -> Seq<char> {
    "crash-"@ + stamp + "-"@ + id
}

/// The names of the dump and of the metadata file of a crash report:
/// `crash-<stamp>-<id>.dmp` and `crash-<stamp>-<id>.json`.
pub fn crash_report_names(stamp: &str, id: &str) -> (r: (String, String))
    ensures
        r.0@ == crash_stem(stamp@, id@) + ".dmp"@,
        r.1@ == crash_stem(stamp@, id@) + ".json"@,
{
    let mut stem = crate::text::concat_str("crash-", stamp);
    crate::text::push_char(&mut stem, '-');
    stem.append(id);
    let dump = crate::text::concat_str(stem.as_str(), ".dmp");
    let metadata = crate::text::concat_str(stem.as_str(), ".json");
    proof {
        reveal_strlit("crash-");
        reveal_strlit("-");
        assert(stem@ =~= crash_stem(stamp@, id@));
    }
    (dump, metadata)
}

/// The metadata file that goes with a crash dump: the dump's name with
/// `.json` in place of `.dmp`.
pub open spec fn crash_metadata(dump: Seq<char>) -> Option<Seq<char>> {
    match between(dump, "crash-"@, ".dmp"@) {
        Some(rest) => Some("crash-"@ + rest + ".json"@),
        None => None,
    }
}

/// The name of the metadata file that goes with a crash dump.
pub fn crash_metadata_name(dump: &str) -> (r: Option<String>)
    ensures
        r is Some <==> crash_metadata(dump@) is Some,
        r matches Some(name) ==> crash_metadata(dump@) == Some(name@),
{
    match strip_affixes(dump, "crash-", ".dmp") {
        Some(rest) => {
            let head = crate::text::concat_str("crash-", rest.as_str());
            Some(crate::text::concat_str(head.as_str(), ".json"))
        },
        None => None,
    }
}

proof fn lemma_first_field_before_dash(stamp: Seq<char>, id: Seq<char>)
    requires
        !stamp.contains('-'),
    ensures
        first_field(stamp + "-"@ + id) == stamp,
    decreases stamp.len(),
{
    reveal_strlit("-");
    if stamp.len() == 0 {
        assert((stamp + "-"@ + id)[0] == '-');
    } else {
        assert(stamp[0] != '-');
        assert((stamp + "-"@ + id).drop_first() =~= stamp.drop_first() + "-"@ + id);
        assert(!stamp.drop_first().contains('-')) by {
            if stamp.drop_first().contains('-') {
                let k = choose|k: int| 0 <= k < stamp.drop_first().len() && stamp.drop_first()[k] == '-';
                assert(stamp[k + 1] == '-');
            }
        }
        lemma_first_field_before_dash(stamp.drop_first(), id);
        assert(seq![stamp[0]] + stamp.drop_first() =~= stamp);
    }
}

/// The files of a crash report are recognized by the cleanup: its dump is
/// dated by the stamp it was written with (a stamp has no `-`), its metadata
/// file is the one that goes with the dump, and the metadata file is never
/// taken for a dump.
pub proof fn lemma_written_reports_are_recognized(stamp: Seq<char>, id: Seq<char>)
    requires
        !stamp.contains('-'),
    ensures
        crash_moment(crash_stem(stamp, id) + ".dmp"@) == stamp_moment(stamp, crash_stamp_format()),
        crash_metadata(crash_stem(stamp, id) + ".dmp"@) == Some(crash_stem(stamp, id) + ".json"@),
        crash_moment(crash_stem(stamp, id) + ".json"@) is None,
{
    reveal_strlit("crash-");
    reveal_strlit(".dmp");
    reveal_strlit(".json");
    reveal_strlit("-");
    let dump = crash_stem(stamp, id) + ".dmp"@;
    let rest = stamp + "-"@ + id;
    assert(dump.take(6) =~= "crash-"@);
    assert(dump.skip(dump.len() - 4) =~= ".dmp"@);
    assert(dump.subrange(6, dump.len() - 4) =~= rest);
    lemma_first_field_before_dash(stamp, id);
    assert("crash-"@ + rest + ".json"@ =~= crash_stem(stamp, id) + ".json"@);
    let meta = crash_stem(stamp, id) + ".json"@;
    assert(meta.skip(meta.len() - 4)[3] == 'n');
    assert(".dmp"@[3] == 'p');
}

/// The day of a daily log file, from its name `yukin.<date>.log`.
pub open spec fn log_day(name: Seq<char>) -> Option<i32> {
    match between(name, "yukin."@, ".log"@) {
        Some(date) => date_day(date, log_date_format()),
        None => None,
    }
}

pub fn log_date(name: &str) -> (r: Option<i32>)
    ensures
        r == log_day(name@),
{
    match strip_affixes(name, "yukin.", ".log") {
        Some(date) => parse_date(date.as_str(), "%Y-%m-%d"),
        None => None,
    }
}

/// Whether a log file is past the retention window that starts on
/// `oldest_retained_day`; files that are not daily logs are kept.
pub fn log_expired(name: &str, oldest_retained_day: i32) -> (r: bool)
    ensures
        r == (log_day(name@) matches Some(day) && day < oldest_retained_day),
{
    match log_date(name) {
        Some(day) => day < oldest_retained_day,
        None => false,
    }
}

/// Whether moment `a` is later than moment `b`.
pub open spec fn later(a: (i32, u32), b: (i32, u32)) -> bool {
    a.0 > b.0 || (a.0 == b.0 && a.1 > b.1)
}

/// Whether report `j` comes before report `i` from newest to oldest, equal
/// moments in the order given.
pub open spec fn ahead(moments: Seq<(i32, u32)>, j: int, i: int) -> bool {
    later(moments[j], moments[i]) || (moments[j] == moments[i] && j < i)
}

/// How many of the first `m` reports come before report `i`.
pub open spec fn count_ahead(moments: Seq<(i32, u32)>, i: int, m: int) -> nat
    decreases m,
{
    if m <= 0 {
        0
    } else {
        count_ahead(moments, i, m - 1) + if ahead(moments, m - 1, i) {
            1nat
        } else {
            0nat
        }
    }
}

proof fn lemma_count_ahead_bound(moments: Seq<(i32, u32)>, i: int, m: int)
    ensures
        count_ahead(moments, i, m) <= if m < 0 { 0 } else { m },
    decreases m,
{
    if m > 0 {
        lemma_count_ahead_bound(moments, i, m - 1);
    }
}

/// Which crash reports go, given their moments: those written before the
/// retention window that starts on `oldest_retained_day`, and all but the
/// five newest.
pub fn crash_reports_to_remove(moments: &[(i32, u32)], oldest_retained_day: i32) -> (r: Vec<bool>)
    ensures
        r@.len() == moments@.len(),
        forall|i: int|
            0 <= i < moments@.len() ==> #[trigger] r@[i] == (count_ahead(
                moments@,
                i,
                moments@.len() as int,
            ) >= MAX_CRASH_REPORTS || moments@[i].0 < oldest_retained_day),
{
    let n = moments.len();
    let mut r: Vec<bool> = Vec::new();
    let mut i: usize = 0;
    while i < n
        invariant
            n == moments@.len(),
            i <= n,
            r@.len() == i,
            forall|k: int|
                0 <= k < i ==> #[trigger] r@[k] == (count_ahead(moments@, k, n as int)
                    >= MAX_CRASH_REPORTS || moments@[k].0 < oldest_retained_day),
        decreases n - i,
    {
        let mut count: usize = 0;
        let mut j: usize = 0;
        while j < n
            invariant
                n == moments@.len(),
                i < n,
                j <= n,
                count == count_ahead(moments@, i as int, j as int),
            decreases n - j,
        {
            proof {
                lemma_count_ahead_bound(moments@, i as int, j as int);
            }
            let (dj, sj) = moments[j];
            let (di, si) = moments[i];
            let is_ahead = dj > di || (dj == di && sj > si) || (dj == di && sj == si && j < i);
            assert(is_ahead == ahead(moments@, j as int, i as int));
            if is_ahead {
                count = count + 1;
            }
            j = j + 1;
        }
        let (day, _) = moments[i];
        r.push(count >= MAX_CRASH_REPORTS || day < oldest_retained_day);
        i = i + 1;
    }
    r
}

} // verus!
