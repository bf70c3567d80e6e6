//! When the live channels are asked for anew.
use crate::app::{App, AppModel};
use crate::artwork::copy_text;
use crate::catalog::{Channel, ChannelModel};
use crate::clock::{
    clock_showed, current_instant, instant_of, nanos_until, opt_instant, Timestamp,
    NANOS_PER_SECOND,
};
use crate::feed::{borrow_text, parse_opt_instant};
use crate::geometry::{least, most};
use crate::text::opt_view;
use vstd::prelude::*;

verus! {

/// The shortest pause before the live channels are asked for anew, in nanoseconds.
pub const SHORTEST_REFRESH: u64 = 5_000_000_000;

/// The longest such pause.
pub const LONGEST_REFRESH: u64 = 60_000_000_000;

/// The time to the first of the given ends that is not past, in nanoseconds.
pub open spec fn soonest(ends: Seq<Option<Timestamp>>, current_time: Timestamp) -> Option<int>
    decreases ends.len(),
{
    if ends.len() == 0 {
        None
    } else {
        let before = soonest(ends.drop_last(), current_time);
        match ends.last() {
            Some(end) => if end.nanos_since(current_time) < 0 {
                before
            } else {
                match before {
                    Some(other) => Some(least(other, end.nanos_since(current_time))),
                    None => Some(end.nanos_since(current_time)),
                }
            },
            None => before,
        }
    }
}

/// The pause before the live channels are asked for anew: until a second after the next show
/// begins, within the bounds.
pub open spec fn refresh_pause(handover: Option<int>) -> int {
    match handover {
        Some(handover) => least(
            most(handover + NANOS_PER_SECOND, SHORTEST_REFRESH as int),
            LONGEST_REFRESH as int,
        ),
        None => LONGEST_REFRESH as int,
    }
}

impl AppModel {
    /// When the shows on air end.
    pub open spec fn show_ends(self) -> Seq<Option<Timestamp>> {
        self.channels.map_values(|c: ChannelModel| opt_instant(c.ends_at))
    }

    /// The pause before the live channels are asked for anew.
    pub open spec fn refresh_delay(self, current_time: Timestamp) -> int {
        refresh_pause(soonest(self.show_ends(), current_time))
    }
}

/// The time to the first of the given ends that is not past, in nanoseconds.
pub fn soonest_handover(ends: &Vec<Option<Timestamp>>, current_time: Timestamp) -> (r: Option<u128>)
    requires
        current_time.valid(),
        forall|i: int|
            0 <= i < ends@.len() ==> ((#[trigger] ends@[i]) matches Some(t) ==> t.valid()),
    ensures
        match r {
            Some(n) => soonest(ends@, current_time) == Some(n as int),
            None => soonest(ends@, current_time) is None,
        },
{
    let mut r: Option<u128> = None;
    assert(ends@.take(0) =~= Seq::empty());
    for i in 0..ends.len()
        invariant
            current_time.valid(),
            forall|i: int|
                0 <= i < ends@.len() ==> ((#[trigger] ends@[i]) matches Some(t) ==> t.valid()),
            match r {
                Some(n) => soonest(ends@.take(i as int), current_time) == Some(n as int),
                None => soonest(ends@.take(i as int), current_time) is None,
            },
    {
        proof {
            assert(ends@.take(i + 1).drop_last() =~= ends@.take(i as int));
        }
        if let Some(end) = ends[i] {
            if let Some(wait) = nanos_until(current_time, end) {
                r =
                match r {
                    Some(other) if other <= wait => Some(other),
                    _ => Some(wait),
                };
            }
        }
    }
    assert(ends@.take(ends@.len() as int) =~= ends@);
    r
}

/// The pause before the live channels are asked for anew, by the time to the next show.
pub fn pause_before_refresh(handover: Option<u128>) -> (r: u64)
    ensures
        r == refresh_pause(
            match handover {
                Some(n) => Some(n as int),
                None => None,
            },
        ),
{
    match handover {
        Some(wait) => {
            if wait >= (LONGEST_REFRESH - NANOS_PER_SECOND) as u128 {
                LONGEST_REFRESH
            } else if wait <= (SHORTEST_REFRESH - NANOS_PER_SECOND) as u128 {
                SHORTEST_REFRESH
            } else {
                wait as u64 + NANOS_PER_SECOND
            }
        },
        None => LONGEST_REFRESH,
    }
}

impl App {
    /// The pictures that are shown.
    pub fn artwork_urls(&self) -> (r: Vec<Option<String>>)
        ensures
            r@.len() == self.channels@.len(),
            forall|i: int|
                0 <= i < r@.len() ==> (#[trigger] r@[i]) == self.channels@[i].artwork_url,
    {
        let mut r: Vec<Option<String>> = Vec::new();
        for i in 0..self.channels.len()
            invariant
                r@.len() == i,
                forall|j: int|
                    0 <= j < i ==> (#[trigger] r@[j]) == self.channels@[j].artwork_url,
        {
            r.push(copy_text(&self.channels[i].artwork_url));
        }
        r
    }

    /// The pause, in nanoseconds, before the live channels are asked for anew at `current_time`.
    pub fn next_refresh_delay_at(&self, current_time: Timestamp) -> (r: u64)
        requires
            current_time.valid(),
        ensures
            r == self@.refresh_delay(current_time),
            SHORTEST_REFRESH <= r <= LONGEST_REFRESH,
    {
        let mut ends: Vec<Option<Timestamp>> = Vec::new();
        for i in 0..self.channels.len()
            invariant
                ends@ =~= self@.show_ends().take(i as int),
                forall|i: int|
                    0 <= i < ends@.len() ==> ((#[trigger] ends@[i]) matches Some(t) ==> t.valid()),
        {
            ends.push(parse_opt_instant(borrow_text(&self.channels[i].ends_at)));
        }
        assert(ends@ =~= self@.show_ends());
        pause_before_refresh(soonest_handover(&ends, current_time))
    }

    /// The pause, in nanoseconds, before the live channels are asked for anew.
    pub fn next_refresh_delay(&self) -> (r: u64)
        ensures
            exists|current_time: Timestamp|
                current_time.valid() && clock_showed(current_time) && r
                    == #[trigger] self@.refresh_delay(current_time),
            SHORTEST_REFRESH <= r <= LONGEST_REFRESH,
    {
        let current_time = current_instant();
        self.next_refresh_delay_at(current_time)
    }
}

/// `soonest` is no later than any of the ends that are not past.
proof fn lemma_soonest(ends: Seq<Option<Timestamp>>, current_time: Timestamp, i: int)
    requires
        0 <= i < ends.len(),
        ends[i] matches Some(end) && end.nanos_since(current_time) >= 0,
    ensures
        soonest(ends, current_time) matches Some(wait) && 0 <= wait <= ends[i]->0.nanos_since(
            current_time,
        ),
    decreases ends.len(),
{
    lemma_soonest_is_not_past(ends.drop_last(), current_time);
    if i < ends.len() - 1 {
        lemma_soonest(ends.drop_last(), current_time, i);
    }
}

/// `soonest` is not past.
proof fn lemma_soonest_is_not_past(ends: Seq<Option<Timestamp>>, current_time: Timestamp)
    ensures
        soonest(ends, current_time) matches Some(wait) ==> wait >= 0,
    decreases ends.len(),
{
    if ends.len() > 0 {
        lemma_soonest_is_not_past(ends.drop_last(), current_time);
    }
}

/// The live channels are asked for anew within a minute, but not before five seconds have passed;
/// and where a show is about to end, at most a second after its end, or after those five seconds.
pub proof fn law_a_handover_is_followed(m: AppModel, current_time: Timestamp, station: int)
    requires
        0 <= station < m.channels.len(),
    ensures
        SHORTEST_REFRESH <= m.refresh_delay(current_time) <= LONGEST_REFRESH,
        opt_instant(m.channels[station].ends_at) matches Some(end) ==> end.nanos_since(current_time)
            >= 0 ==> m.refresh_delay(current_time) <= most(
            end.nanos_since(current_time) + NANOS_PER_SECOND,
            SHORTEST_REFRESH as int,
        ),
{
    if let Some(end) = opt_instant(m.channels[station].ends_at) {
        if end.nanos_since(current_time) >= 0 {
            assert(m.show_ends()[station] == Some(end));
            lemma_soonest(m.show_ends(), current_time, station);
        }
    }
}

/// `soonest` is the time to one of the ends.
proof fn lemma_soonest_is_an_end(ends: Seq<Option<Timestamp>>, current_time: Timestamp) -> (i: int)
    requires
        soonest(ends, current_time) is Some,
    ensures
        0 <= i < ends.len(),
        ends[i] is Some,
        ends[i]->0.nanos_since(current_time) >= 0,
        soonest(ends, current_time) == Some(ends[i]->0.nanos_since(current_time)),
    decreases ends.len(),
{
    let before = soonest(ends.drop_last(), current_time);
    match ends.last() {
        Some(end) if end.nanos_since(current_time) >= 0 && (before is None || before->0
            > end.nanos_since(current_time)) => ends.len() - 1,
        _ => lemma_soonest_is_an_end(ends.drop_last(), current_time),
    }
}

/// Whether the show that `channel` has on air ends `wait` nanoseconds after `current_time`.
pub open spec fn ends_after(channel: Channel, current_time: Timestamp, wait: int) -> bool {
    match channel.ends_at {
        Some(written) => match instant_of(written@) {
            Some(end) => wait >= 0 && end.nanos_since(current_time) == wait,
            None => false,
        },
        None => false,
    }
}

/// Whether `pause` leads to the next handover: it is never under five seconds nor over sixty; no
/// show that ends later than now is over for more than a second, or those five seconds, before the
/// live channels are asked for again; and they are not asked for before a minute is over unless a
/// show ends.
pub open spec fn follows_the_handover(
    pause: int,
    channels: Seq<Channel>,
    current_time: Timestamp,
) -> bool {
    &&& 5_000_000_000 <= pause <= 60_000_000_000
    &&& forall|i: int, wait: int|
        0 <= i < channels.len() && #[trigger] ends_after(channels[i], current_time, wait) ==> pause
            <= wait + 1_000_000_000 || pause == 5_000_000_000
    &&& pause < 60_000_000_000 ==> exists|i: int, wait: int|
        0 <= i < channels.len() && #[trigger] ends_after(channels[i], current_time, wait) && pause
            >= wait + 1_000_000_000
}

/// The pause of the model leads to the next handover.
pub(crate) proof fn lemma_follows(app: App, current_time: Timestamp)
    ensures
        follows_the_handover(
            app@.refresh_delay(current_time),
            app.channels@,
            current_time,
        ),
{
    let ends = app@.show_ends();
    let channels = app.channels@;
    assert forall|i: int| 0 <= i < channels.len() implies #[trigger] ends[i] == opt_instant(
        opt_view(channels[i].ends_at),
    ) by {}
    assert forall|i: int, wait: int|
        0 <= i < channels.len() && #[trigger] ends_after(
            channels[i],
            current_time,
            wait,
        ) implies app@.refresh_delay(current_time) <= wait + 1_000_000_000 || app@.refresh_delay(
        current_time,
    ) == 5_000_000_000 by {
        assert(ends[i] is Some);
        lemma_soonest(ends, current_time, i);
    }
    if app@.refresh_delay(current_time) < 60_000_000_000 {
        let i = lemma_soonest_is_an_end(ends, current_time);
        let wait = ends[i]->0.nanos_since(current_time);
        assert(ends_after(channels[i], current_time, wait));
    }
}

/// The live channels are asked for again when the first of the shows on air ends.
pub proof fn law_the_pause_leads_to_the_handover(app: App, current_time: Timestamp, r: u64)
    requires
        call_ensures(App::next_refresh_delay_at, (&app, current_time), r),
    ensures
        follows_the_handover(r as int, app.channels@, current_time),
{
    lemma_follows(app, current_time);
}

/// The same by the machine's clock.
pub proof fn law_the_pause_is_counted_from_the_clock(app: App, r: u64)
    requires
        call_ensures(App::next_refresh_delay, (&app,), r),
    ensures
        exists|current_time: Timestamp|
            clock_showed(current_time) && #[trigger] follows_the_handover(
                r as int,
                app.channels@,
                current_time,
            ),
{
    let current_time = choose|current_time: Timestamp|
        current_time.valid() && clock_showed(current_time) && r == #[trigger] app@.refresh_delay(
            current_time,
        );
    lemma_follows(app, current_time);
}

} // verus!
