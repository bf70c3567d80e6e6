//! Instants: reading them from broadcast feeds, comparing them and showing them.
use chrono::{DateTime, Local, Utc};
use vstd::prelude::*;

verus! {

/// A second, in nanoseconds.
pub const NANOS_PER_SECOND: u64 = 1_000_000_000;

/// The first second that the calendar can represent.
pub const FIRST_SECOND: i64 = -8_334_601_228_800;

/// The last second that the calendar can represent.
pub const LAST_SECOND: i64 = 8_210_266_876_799;

/// How a broadcast's time of day is written.
pub const CLOCK_PATTERN: &'static str = "%H:%M %Z";

/// An instant: whole seconds since 1970-01-01T00:00:00Z and the nanoseconds after them. A leap
/// second is counted as the nanoseconds from 1_000_000_000 on of the second before it.
#[derive(Clone, Copy, Debug, PartialEq, Eq, Structural)]
pub struct Timestamp {
    pub secs: i64,
    pub nanos: u32,
}

impl Timestamp {
    /// Whether the calendar has this instant.
    pub open spec fn valid(self) -> bool {
        &&& FIRST_SECOND <= self.secs <= LAST_SECOND
        &&& self.nanos < 2 * NANOS_PER_SECOND
        &&& self.nanos >= NANOS_PER_SECOND ==> self.secs as int % 60 == 59
    }

    /// Whether this instant is `other` or before it.
    pub open spec fn not_after(self, other: Timestamp) -> bool {
        self.secs < other.secs || (self.secs == other.secs && self.nanos <= other.nanos)
    }

    /// The second of its day.
    pub open spec fn second_of_day(self) -> int {
        self.secs as int % 86400
    }

    /// The nanoseconds from `earlier` to this instant: a leap second that one of the two lies in
    /// counts where the other is at a later time of day.
    pub open spec fn nanos_since(self, earlier: Timestamp) -> int {
        let leap: int = if self.second_of_day() > earlier.second_of_day() && earlier.nanos
            >= NANOS_PER_SECOND {
            1
        } else if self.second_of_day() < earlier.second_of_day() && self.nanos
            >= NANOS_PER_SECOND {
            -1
        } else {
            0
        };
        (self.secs - earlier.secs + leap) * NANOS_PER_SECOND + self.nanos - earlier.nanos
    }

    /// Whether this instant is `other` or before it.
    pub fn is_not_after(&self, other: &Timestamp) -> (r: bool)
        ensures
            r == self.not_after(*other),
    {
        self.secs < other.secs || (self.secs == other.secs && self.nanos <= other.nanos)
    }
}

/// The seconds and nanoseconds of the instant that an RFC 3339 text denotes, as
/// `DateTime::parse_from_rfc3339` reads it; none where it rejects the text.
pub uninterp spec fn rfc3339(text: Seq<char>) -> Option<(i64, u32)>;

/// The instant that `text` denotes.
pub open spec fn instant_of(text: Seq<char>) -> Option<Timestamp> {
    match rfc3339(text) {
        Some((secs, nanos)) => Some(Timestamp { secs, nanos }),
        None => None,
    }
}

/// The instant that an optional text denotes.
pub open spec fn opt_instant(text: Option<Seq<char>>) -> Option<Timestamp> {
    match text {
        Some(text) => instant_of(text),
        None => None,
    }
}

/// The decimal digits of a number below 100, two of them.
pub open spec fn two_digits(n: int) -> Seq<char> {
    seq![(48 + n / 10) as char, (48 + n % 10) as char]
}

/// An offset from UTC: its sign, hours and minutes, and its seconds where they are not zero.
pub open spec fn offset_text(offset: int) -> Seq<char> {
    let size = if offset < 0 { -offset } else { offset };
    let sign = if offset < 0 { '-' } else { '+' };
    let minutes = seq![sign] + two_digits(size / 3600) + seq![':'] + two_digits(size / 60 % 60);
    if size % 60 == 0 {
        minutes
    } else {
        minutes + seq![':'] + two_digits(size % 60)
    }
}

/// The time of day at `secs` in a zone that is `offset` seconds ahead of UTC, then that offset.
pub open spec fn clock_text(secs: int, offset: int) -> Seq<char> {
    let local = (secs + offset) % 86400;
    two_digits(local / 3600) + seq![':'] + two_digits(local / 60 % 60) + seq![' '] + offset_text(
        offset,
    )
}

/// Whether `text` shows the instant `t` in some time zone.
pub open spec fn shows_clock(text: Seq<char>, t: Timestamp) -> bool {
    exists|offset: int|
        -86400 < offset < 86400 && text == #[trigger] clock_text(t.secs as int, offset)
}

/// `chrono::DateTime::parse_from_rfc3339`: a function of the text alone. Every instant that it
/// reads is one of the calendar.
#[verifier::external_body]
fn read_rfc3339(text: &str) -> (r: Option<(i64, u32)>)
    ensures
        r == rfc3339(text@),
        r matches Some((secs, nanos)) ==> (Timestamp { secs, nanos }).valid(),
{
    let instant = DateTime::parse_from_rfc3339(text).ok()?;
    Some((instant.timestamp(), instant.timestamp_subsec_nanos()))
}

/// `chrono::Utc::now`: the machine's clock. It never reads before 1970 nor in a leap second.
#[verifier::external_body]
fn read_clock() -> (r: Timestamp)
    ensures
        r.valid(),
        r.secs >= 0,
        r.nanos < NANOS_PER_SECOND,
{
    let now = Utc::now();
    Timestamp { secs: now.timestamp(), nanos: now.timestamp_subsec_nanos() }
}

/// `chrono::DateTime::signed_duration_since` and `TimeDelta::to_std`: the time from `from` to
/// `to`, none where `to` is the earlier one.
#[verifier::external_body]
fn duration_between(from: Timestamp, to: Timestamp) -> (r: Option<u128>)
    requires
        from.valid(),
        to.valid(),
    ensures
        r == (if to.nanos_since(from) < 0 {
            None
        } else {
            Some(to.nanos_since(from) as u128)
        }),
{
    let from = DateTime::<Utc>::from_timestamp(from.secs, from.nanos)?;
    let to = DateTime::<Utc>::from_timestamp(to.secs, to.nanos)?;
    (to - from).to_std().ok().map(|duration| duration.as_nanos())
}

/// `chrono::DateTime::with_timezone` with `chrono::Local`, and `DateTime::format`: the time of
/// day in the machine's zone, and that zone's offset, of an instant that the calendar has. Which
/// zone that is, is left open.
#[verifier::external_body]
fn local_clock(t: Timestamp, pattern: &str) -> (r: Option<String>)
    requires
        t.valid(),
        pattern@ == CLOCK_PATTERN@,
    ensures
        r is Some,
        shows_clock(r->0@, t),
{
    let instant = DateTime::<Utc>::from_timestamp(t.secs, t.nanos)?;
    Some(instant.with_timezone(&Local).format(pattern).to_string())
}

/// Whether the machine's clock has shown `t`: a reading of it gave that instant.
pub closed spec fn clock_showed(t: Timestamp) -> bool {
    call_ensures(read_clock, (), t)
}

/// Whether `text` is how the machine shows the instant `t` in its own zone.
pub closed spec fn local_time(text: Seq<char>, t: Timestamp) -> bool {
    exists|label: String|
        label@ == text && #[trigger] call_ensures(local_clock, (t, CLOCK_PATTERN), Some(label))
}

/// The current instant.
pub fn current_instant() -> (r: Timestamp)
    ensures
        clock_showed(r),
        r.valid(),
        r.secs >= 0,
        r.nanos < NANOS_PER_SECOND,
{
    read_clock()
}

/// The instant that an RFC 3339 text denotes.
pub fn parse_instant(text: &str) -> (r: Option<Timestamp>)
    ensures
        r == instant_of(text@),
        r matches Some(t) ==> t.valid(),
{
    match read_rfc3339(text) {
        Some((secs, nanos)) => Some(Timestamp { secs, nanos }),
        None => None,
    }
}

/// The nanoseconds from `from` to `to`, none where `to` is the earlier one.
pub fn nanos_until(from: Timestamp, to: Timestamp) -> (r: Option<u128>)
    requires
        from.valid(),
        to.valid(),
    ensures
        to.nanos_since(from) < 0 <==> r is None,
        r matches Some(n) ==> n == to.nanos_since(from),
{
    duration_between(from, to)
}

/// A parsed time as it is shown: in the machine's zone, or a dash where there is none.
pub fn clock_label(instant: Option<Timestamp>) -> (r: String)
    requires
        instant matches Some(t) ==> t.valid(),
    ensures
        match instant {
            Some(t) => local_time(r@, t) && shows_clock(r@, t),
            None => r@ == "—"@,
        },
{
    match instant {
        Some(t) => local_clock(t, CLOCK_PATTERN).unwrap(),
        None => "—".to_owned(),
    }
}

/// An instant is read from the text that denotes it and nothing else: its seconds and nanoseconds
/// are those that the text has, and a text that denotes none gives none.
pub proof fn law_an_instant_is_read_as_it_is_written(text: &str, r: Option<Timestamp>)
    requires
        call_ensures(parse_instant, (text,), r),
    ensures
        r is Some <==> rfc3339(text@) is Some,
        r matches Some(t) ==> rfc3339(text@) == Some((t.secs, t.nanos)),
{
}

/// A time is shown in the zone that the machine has: the label is what the machine makes of that
/// very instant.
pub proof fn law_times_are_local(t: Timestamp, r: String)
    requires
        call_ensures(clock_label, (Some(t),), r),
    ensures
        local_time(r@, t),
{
}

/// The number that two digits denote.
pub open spec fn number_of(digits: Seq<char>) -> int {
    10 * (digits[0] as int - 48) + (digits[1] as int - 48)
}

/// Two digits denote the number that they are written for.
proof fn lemma_two_digits(n: int)
    requires
        0 <= n < 100,
    ensures
        number_of(two_digits(n)) == n,
{
}

/// The hours and minutes in some seconds of a day.
proof fn lemma_hours_and_minutes(s: int)
    requires
        0 <= s < 86400,
    ensures
        0 <= s / 3600 < 24,
        0 <= s / 60 % 60 < 60,
        s / 60 == 60 * (s / 3600) + s / 60 % 60,
        0 <= s - 3600 * (s / 3600) - 60 * (s / 60 % 60) < 60,
{
}

/// Where the parts of a time of day stand.
proof fn lemma_places(secs: int, offset: int)
    ensures
        ({
            let text = clock_text(secs, offset);
            let local = (secs + offset) % 86400;
            let size = if offset < 0 {
                -offset
            } else {
                offset
            };
            &&& text.subrange(0, 2) == two_digits(local / 3600)
            &&& text.subrange(3, 5) == two_digits(local / 60 % 60)
            &&& text[6] == (if offset < 0 {
                '-'
            } else {
                '+'
            })
            &&& text.subrange(7, 9) == two_digits(size / 3600)
            &&& text.subrange(10, 12) == two_digits(size / 60 % 60)
        }),
{
    let text = clock_text(secs, offset);
    let local = (secs + offset) % 86400;
    let size = if offset < 0 {
        -offset
    } else {
        offset
    };
    assert(text.subrange(0, 2) =~= two_digits(local / 3600));
    assert(text.subrange(3, 5) =~= two_digits(local / 60 % 60));
    assert(text.subrange(7, 9) =~= two_digits(size / 3600));
    assert(text.subrange(10, 12) =~= two_digits(size / 60 % 60));
}

/// Whether `text` reads as the time of day at `secs` where it is `ahead` seconds later than in UTC:
/// the hours and minutes since midnight there, then the sign, the hours and the minutes of `ahead`.
pub open spec fn reads_as(text: Seq<char>, secs: int, ahead: int) -> bool {
    let since_midnight = 3600 * number_of(text.subrange(0, 2)) + 60 * number_of(
        text.subrange(3, 5),
    );
    let distance = 60 * number_of(text.subrange(7, 9)) + number_of(text.subrange(10, 12));
    &&& 0 <= since_midnight <= (secs + ahead) % 86400 < since_midnight + 60
    &&& text[6] == '-' <==> ahead < 0
    &&& ahead < 0 ==> distance == (-ahead) / 60
    &&& ahead >= 0 ==> distance == ahead / 60
}

/// The text of a time of day reads as that time of day.
proof fn lemma_reads_as(secs: int, ahead: int)
    requires
        -86400 < ahead < 86400,
    ensures
        reads_as(clock_text(secs, ahead), secs, ahead),
{
    let size = if ahead < 0 {
        -ahead
    } else {
        ahead
    };
    let local = (secs + ahead) % 86400;
    lemma_places(secs, ahead);
    lemma_hours_and_minutes(local);
    lemma_hours_and_minutes(size);
    lemma_two_digits(local / 3600);
    lemma_two_digits(local / 60 % 60);
    lemma_two_digits(size / 3600);
    lemma_two_digits(size / 60 % 60);
}

/// A time that the machine shows can be read back: it is the time of day somewhere, with how far
/// the clocks there are ahead of UTC.
pub proof fn law_a_label_can_be_read_back(text: Seq<char>, t: Timestamp)
    requires
        local_time(text, t),
        t.valid(),
    ensures
        exists|ahead: int|
            -86400 < ahead < 86400 && #[trigger] reads_as(text, t.secs as int, ahead),
{
    assert(shows_clock(text, t));
    let ahead = choose|ahead: int|
        -86400 < ahead < 86400 && text == #[trigger] clock_text(t.secs as int, ahead);
    lemma_reads_as(t.secs as int, ahead);
}

/// Which of two instants comes first is told by the time from one to the other, where neither lies
/// in a leap second.
pub proof fn law_the_order_is_that_of_time(a: Timestamp, b: Timestamp)
    requires
        a.nanos < NANOS_PER_SECOND,
        b.nanos < NANOS_PER_SECOND,
    ensures
        a.not_after(b) <==> a.secs * NANOS_PER_SECOND + a.nanos <= b.secs * NANOS_PER_SECOND
            + b.nanos,
        b.nanos_since(a) == (b.secs * NANOS_PER_SECOND + b.nanos) - (a.secs * NANOS_PER_SECOND
            + a.nanos),
{
}

/// What is not after something else is before it or the same.
pub proof fn law_an_instant_is_compared(a: Timestamp, b: Timestamp, r: bool)
    requires
        call_ensures(Timestamp::is_not_after, (&a, &b), r),
    ensures
        r <==> a.secs < b.secs || (a.secs == b.secs && a.nanos <= b.nanos),
{
}

/// The time until something that has not come yet is told; of what is past there is none.
pub proof fn law_the_time_until_an_instant(from: Timestamp, to: Timestamp, r: Option<u128>)
    requires
        call_ensures(nanos_until, (from, to), r),
        from.nanos < NANOS_PER_SECOND,
        to.nanos < NANOS_PER_SECOND,
    ensures
        r is Some <==> from.not_after(to),
        r matches Some(n) ==> from.secs * NANOS_PER_SECOND + from.nanos + n == to.secs
            * NANOS_PER_SECOND + to.nanos,
{
}

/// The current instant is one that the machine's clock showed.
pub proof fn law_the_current_instant_is_the_clocks(r: Timestamp)
    requires
        call_ensures(current_instant, (), r),
    ensures
        clock_showed(r),
{
}

} // verus!
