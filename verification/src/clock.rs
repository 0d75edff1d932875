//! Instants of time, the age of a file in whole days, and the date stamp
//! that archive names carry. All of it is reckoned in UTC, in the Gregorian
//! calendar carried on from the year -262143 to the year 262142.

use vstd::arithmetic::div_mod::lemma_div_is_ordered;
use vstd::prelude::*;

verus! {

/// The first second that the calendar covers: the start of the year -262143.
pub const MIN_SECONDS: i64 = -8_334_601_228_800;

/// The last second that the calendar covers: the end of the year 262142.
pub const MAX_SECONDS: i64 = 8_210_266_876_799;

/// How many nanoseconds make a second.
pub const NANOS_PER_SECOND: u32 = 1_000_000_000;

/// How many nanoseconds make a day.
pub const NANOS_PER_DAY: i64 = 86_400_000_000_000;

/// Whether `secs` seconds and `nanos` nanoseconds after the start of 1970
/// name an instant that the calendar covers.
pub open spec fn in_calendar(secs: int, nanos: int) -> bool {
    MIN_SECONDS <= secs <= MAX_SECONDS && 0 <= nanos < NANOS_PER_SECOND
}

/// The whole days in a span of `nanos` nanoseconds: the part of a day that
/// is left over is dropped, for a negative span as for a positive one.
pub open spec fn whole_days(nanos: int) -> int {
    if nanos >= 0 {
        nanos / (NANOS_PER_DAY as int)
    } else {
        -((-nanos) / (NANOS_PER_DAY as int))
    }
}

/// The nanoseconds from the start of 1970 to the instant given by `secs` and
/// `nanos`.
pub open spec fn nanos_since_epoch(secs: int, nanos: int) -> int {
    secs * (NANOS_PER_SECOND as int) + nanos
}

/// The whole days from the instant given by `earlier_secs` and
/// `earlier_nanos` to the one given by `later_secs` and `later_nanos`.
pub open spec fn span_in_days(later_secs: int, later_nanos: int, earlier_secs: int, earlier_nanos: int) -> int {
    whole_days(nanos_since_epoch(later_secs, later_nanos) - nanos_since_epoch(earlier_secs, earlier_nanos))
}

/// The date of the instant given by `secs` and `nanos`, written as year,
/// month and day with `_` between them.
pub uninterp spec fn utc_date_text(secs: int, nanos: int) -> Seq<char>;

/// Whether `c` can stand in a date stamp: a digit, the `_` between the
/// parts, or the sign of a year that four digits do not hold.
pub open spec fn is_date_char(c: char) -> bool {
    ('0' <= c && c <= '9') || c == '_' || c == '+' || c == '-'
}

/// Whether `text` is made of the characters of date stamps alone.
pub open spec fn is_date_text(text: Seq<char>) -> bool {
    forall|i: int| 0 <= i < text.len() ==> is_date_char(#[trigger] text[i])
}

/// An instant of time within the calendar, as seconds and nanoseconds after
/// the start of 1970 in UTC.
#[derive(Debug, Clone, Copy, PartialEq, Eq, Structural)]
pub struct Timestamp {
    secs: i64,
    nanos: u32,
}

impl Timestamp {
    /// Every instant lies within the calendar.
    #[verifier::type_invariant]
    pub closed spec fn wf(self) -> bool {
        in_calendar(self.secs as int, self.nanos as int)
    }

    /// The whole seconds of this instant since the start of 1970.
    pub closed spec fn seconds(self) -> int {
        self.secs as int
    }

    /// The nanoseconds of this instant past its whole second.
    pub closed spec fn nanoseconds(self) -> int {
        self.nanos as int
    }

    /// The nanoseconds from the start of 1970 to this instant.
    pub open spec fn total_nanos(self) -> int {
        nanos_since_epoch(self.seconds(), self.nanoseconds())
    }

    /// The whole days from `earlier` to this instant; negative where
    /// `earlier` is the later of the two by a day or more.
    pub open spec fn days_since(self, earlier: Timestamp) -> int {
        span_in_days(self.seconds(), self.nanoseconds(), earlier.seconds(), earlier.nanoseconds())
    }

    /// The date of this instant as archive names carry it.
    pub open spec fn date_stamp(self) -> Seq<char> {
        utc_date_text(self.seconds(), self.nanoseconds())
    }

    /// The instant `secs` seconds and `nanos` nanoseconds after the start of
    /// 1970, if the calendar covers it.
    pub fn new(secs: i64, nanos: u32) -> (r: Option<Timestamp>)
        ensures
            r is Some <==> in_calendar(secs as int, nanos as int),
            r is Some ==> r.unwrap().wf() && r.unwrap().seconds() == secs && r.unwrap().nanoseconds()
                == nanos,
    {
        if MIN_SECONDS <= secs && secs <= MAX_SECONDS && nanos < NANOS_PER_SECOND {
            Some(Timestamp { secs, nanos })
        } else {
            None
        }
    }

    /// The whole seconds of this instant since the start of 1970.
    pub fn secs(&self) -> (s: i64)
        ensures
            s == self.seconds(),
            MIN_SECONDS <= s <= MAX_SECONDS,
    {
        proof {
            use_type_invariant(self);
        }
        self.secs
    }

    /// The nanoseconds of this instant past its whole second.
    pub fn subsec_nanos(&self) -> (n: u32)
        ensures
            n == self.nanoseconds(),
            n < NANOS_PER_SECOND,
    {
        proof {
            use_type_invariant(self);
        }
        self.nanos
    }
}

/// Calls chrono's `DateTime::from_timestamp` on both instants, then
/// `signed_duration_since` and `TimeDelta::num_days`. The contract says that
/// both instants are accepted exactly when the calendar covers them, and that
/// the result is the span between them in whole days, the rest dropped.
#[verifier::external_body]
fn utc_days_between(later_secs: i64, later_nanos: u32, earlier_secs: i64, earlier_nanos: u32) -> (r: Option<i64>)
    requires
        later_nanos < NANOS_PER_SECOND,
        earlier_nanos < NANOS_PER_SECOND,
    ensures
        r is Some <==> (in_calendar(later_secs as int, later_nanos as int) && in_calendar(earlier_secs as int, earlier_nanos as int)),
        r is Some ==> r.unwrap() == span_in_days(later_secs as int, later_nanos as int, earlier_secs as int, earlier_nanos as int),
{
    let later = chrono::DateTime::from_timestamp(later_secs, later_nanos)?;
    let earlier = chrono::DateTime::from_timestamp(earlier_secs, earlier_nanos)?;
    Some(later.signed_duration_since(earlier).num_days())
}

/// Calls chrono's `DateTime::from_timestamp`, then `DateTime::format` with
/// the pattern `%Y_%m_%d`. The contract says that the instant is accepted
/// exactly when the calendar covers it, names the text that comes back, and
/// says that it holds nothing but digits, `_` and the sign of the year.
#[verifier::external_body]
fn utc_date(secs: i64, nanos: u32) -> (r: Option<String>)
    requires
        nanos < NANOS_PER_SECOND,
    ensures
        r is Some <==> in_calendar(secs as int, nanos as int),
        r is Some ==> r.unwrap()@ == utc_date_text(secs as int, nanos as int),
        r is Some ==> is_date_text(r.unwrap()@),
{
    let instant = chrono::DateTime::from_timestamp(secs, nanos)?;
    Some(instant.format("%Y_%m_%d").to_string())
}

/// The age of a file in whole days: the span from `modified`, the instant of
/// its last change, to `now`. A file changed after `now` has a negative age
/// once the span reaches a day.
pub fn get_file_mtime_diff(modified: &Timestamp, now: &Timestamp) -> (days: i64)
    ensures
        days == now.days_since(*modified),
{
    proof {
        use_type_invariant(modified);
        use_type_invariant(now);
    }
    let days = utc_days_between(now.secs, now.nanos, modified.secs, modified.nanos);
    days.unwrap()
}

/// The date of `now` as archive names carry it.
pub fn get_date(now: &Timestamp) -> (text: String)
    ensures
        text@ == now.date_stamp(),
        is_date_text(text@),
{
    proof {
        use_type_invariant(now);
    }
    let text = utc_date(now.secs, now.nanos);
    text.unwrap()
}

/// The age of a file never falls as time passes: a later instant is at
/// least as many whole days from `modified` as an earlier one.
pub proof fn lemma_age_grows_with_time(modified: Timestamp, earlier: Timestamp, later: Timestamp)
    requires
        earlier.total_nanos() <= later.total_nanos(),
    ensures
        earlier.days_since(modified) <= later.days_since(modified),
{
    let x: int = earlier.total_nanos() - modified.total_nanos();
    let y: int = later.total_nanos() - modified.total_nanos();
    let day: int = NANOS_PER_DAY as int;
    if x >= 0 {
        lemma_div_is_ordered(x, y, day);
    } else if y < 0 {
        lemma_div_is_ordered(-y, -x, day);
    } else {
        lemma_div_is_ordered(0, -x, day);
        lemma_div_is_ordered(0, y, day);
    }
}

/// For a file that was not changed after `now`, the age is the span in days
/// rounded down.
pub proof fn lemma_age_of_past_change_is_floor(modified: Timestamp, now: Timestamp)
    requires
        modified.total_nanos() <= now.total_nanos(),
    ensures
        now.days_since(modified) == (now.total_nanos() - modified.total_nanos()) / (NANOS_PER_DAY as int),
        now.days_since(modified) >= 0,
{
    lemma_div_is_ordered(0, now.total_nanos() - modified.total_nanos(), NANOS_PER_DAY as int);
}

/// Counting from `a` to `b` gives the same number of whole days as counting
/// from `b` to `a`, with the other sign: a part of a day is dropped in both
/// directions.
pub proof fn lemma_age_changes_sign_when_turned(a: Timestamp, b: Timestamp)
    ensures
        a.days_since(b) == -b.days_since(a),
        a.days_since(a) == 0,
{
}

} // verus!
