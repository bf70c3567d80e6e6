//! What the news promise of the broadcasts that the feeds tell.
use crate::app::App;
use crate::catalog::ScheduleEntry;
use crate::clock::{clock_showed, instant_of, local_time, Timestamp};
use crate::feed::{
    active_and_next, active_and_next_at, broadcast_has_ended, broadcast_name, broadcast_time,
    broadcasts_of, ends, first_running, lead_pictures, lemma_present, live_index, live_lead_at,
    live_leads, live_leads_at, live_stations, live_update, live_updates, mixtape_pictures,
    mixtape_update, mixtape_updates, mixtape_urls, offered, present, schedule_entries,
    schedule_entry, schedule_from_broadcasts, schedule_update, schedule_updates, schedule_url,
    still_to_come, upcoming, Broadcast, BroadcastModel, ChannelUpdate, LiveChannel, LiveLead,
    LivePage, MixtapePage, MixtapeResponse, ScheduleDay, ScheduleResponse, ScheduleUpdate,
};
use crate::text::{decimal_text, opt_view, views};
use image::DynamicImage;
use vstd::prelude::*;

verus! {

/// Whether `time` is what is shown for a timestamp of the feed: the instant that it denotes, as the
/// machine shows it in its own zone, or a dash where it denotes none.
pub open spec fn time_of(time: String, timestamp: Option<String>) -> bool {
    match timestamp {
        Some(written) => match instant_of(written@) {
            Some(instant) => local_time(time@, instant),
            None => time@ == "—"@,
        },
        None => time@ == "—"@,
    }
}

/// Whether `title` is what `broadcast` is called: by the name in its details, or where those have
/// none by its own title, or where it has none either by `fallback`.
pub open spec fn title_of(title: String, broadcast: Broadcast, fallback: Seq<char>) -> bool {
    match (broadcast.embeds.details, broadcast.broadcast_title) {
        (Some(details), own) => match (details.name, own) {
            (Some(name), _) => title@ == name@,
            (None, Some(own)) => title@ == own@,
            (None, None) => title@ == fallback,
        },
        (None, Some(own)) => title@ == own@,
        (None, None) => title@ == fallback,
    }
}

/// Whether the end that `broadcast` names has come at `now`. One that names no end goes on.
pub open spec fn past(broadcast: Broadcast, now: Timestamp) -> bool {
    match broadcast.end_timestamp {
        Some(written) => match instant_of(written@) {
            Some(end) => end.secs < now.secs || (end.secs == now.secs && end.nanos <= now.nanos),
            None => false,
        },
        None => false,
    }
}

/// Whether `line` tells of `broadcast` in a schedule: when it starts, and what it is called.
pub open spec fn line_of(line: ScheduleEntry, broadcast: Broadcast) -> bool {
    &&& time_of(line.starts_at, broadcast.start_timestamp)
    &&& title_of(line.title, broadcast, "Live transmission"@)
}

/// The broadcasts that the feed names for a live channel, in their order.
pub open spec fn one_by_one(now: Broadcast, next: Broadcast, next2: Option<Broadcast>) -> Seq<
    Broadcast,
> {
    match next2 {
        Some(next2) => seq![now, next, next2],
        None => seq![now, next],
    }
}

/// The broadcasts that a live channel's result names, in their order.
pub open spec fn named(channel: LiveChannel) -> Seq<Broadcast> {
    one_by_one(channel.now, channel.next, channel.next2)
}

/// Whether, of `list`, the broadcast `now` is on air at `time` and `next` follows: each one before
/// it is over; it is over itself only where all are, and then it is the first; and the one that
/// follows is the next of the list, or itself where it is the last.
pub open spec fn has_on_air(
    list: Seq<Broadcast>,
    now: Broadcast,
    next: Broadcast,
    time: Timestamp,
) -> bool {
    exists|p: int|
        {
            &&& 0 <= p < list.len()
            &&& now@ == (#[trigger] list[p])@
            &&& forall|q: int| 0 <= q < p ==> past(#[trigger] list[q], time)
            &&& past(list[p], time) ==> p == 0 && forall|q: int|
                0 <= q < list.len() ==> past(#[trigger] list[q], time)
            &&& next@ == list[if p + 1 < list.len() {
                p + 1
            } else {
                p
            }]@
        }
}

/// The station of a result of the live feed: 0 for the one called 1, and 1 for the one called 2.
pub open spec fn is_station(channel: LiveChannel, index: int) -> bool {
    ||| channel.channel_name@ == "1"@ && index == 0
    ||| channel.channel_name@ == "2"@ && index == 1
}

/// Whether `found` is what the live channels have on air at `time`: what each result of a station
/// has on air, for that station, in the order of the results.
pub open spec fn tells_what_is_on(
    found: Seq<LiveLead>,
    results: Seq<LiveChannel>,
    time: Timestamp,
) -> bool {
    exists|places: Seq<int>| #[trigger] tells_at(found, results, time, places)
}

/// Whether what is found is what the results at `places` have on air, and those are the results of
/// the stations.
pub open spec fn tells_at(
    found: Seq<LiveLead>,
    results: Seq<LiveChannel>,
    time: Timestamp,
    places: Seq<int>,
) -> bool {
    &&& places.len() == found.len()
    &&& forall|k: int|
        0 <= k < found.len() ==> 0 <= #[trigger] places[k] < results.len() && tells(
            found[k],
            results[places[k]],
            time,
        )
    &&& forall|j: int, k: int|
        0 <= j < k < found.len() ==> #[trigger] places[j] < #[trigger] places[k]
    &&& forall|i: int|
        0 <= i < results.len() && (is_station(#[trigger] results[i], 0) || is_station(
            results[i],
            1,
        )) ==> places.contains(i)
}

/// Whether `lead` is what `channel` has on air at `time`.
pub open spec fn tells(lead: LiveLead, channel: LiveChannel, time: Timestamp) -> bool {
    &&& is_station(channel, lead.index as int)
    &&& has_on_air(named(channel), lead.now, lead.next, time)
}

/// A broadcast's end as its view has it.
proof fn lemma_past(broadcast: Broadcast, time: Timestamp)
    ensures
        broadcast@.ended(time) == past(broadcast, time),
{
}

/// What is on air by the models is on air by the broadcasts.
proof fn lemma_on_air(channel: LiveChannel, now: Broadcast, next: Broadcast, time: Timestamp)
    requires
        ({
            let list = offered(channel.now@, channel.next@, opt_view(channel.next2));
            (now@, next@) == crate::feed::on_air(list, ends(list, time))
        }),
    ensures
        has_on_air(named(channel), now, next, time),
{
    let list = named(channel);
    let models = offered(channel.now@, channel.next@, opt_view(channel.next2));
    crate::feed::law_a_stale_show_gives_way(models, time);
    let p = first_running(ends(models, time));
    assert forall|q: int| 0 <= q < list.len() implies {
        &&& models[q] == (#[trigger] list[q])@
        &&& models[q].ended(time) == past(list[q], time)
    } by {
        lemma_past(list[q], time);
    }
    assert forall|q: int| 0 <= q < p implies past(#[trigger] list[q], time) by {
        assert(models[q].ended(time));
    }
    if past(list[p], time) {
        assert forall|q: int| 0 <= q < list.len() implies past(#[trigger] list[q], time) by {
            assert(models[q].ended(time));
        }
    }
    assert(now@ == list[p]@);
}

/// What the live channels have on air, by the models and by the results.
proof fn lemma_told(found: Seq<LiveLead>, results: Seq<LiveChannel>, time: Timestamp)
    requires
        crate::feed::leads_all(found, results, time),
    ensures
        tells_what_is_on(found, results, time),
{
    let stations = live_stations(results);
    let places = present(stations);
    lemma_present(stations);
    assert forall|k: int| 0 <= k < found.len() implies 0 <= #[trigger] places[k] < results.len()
        && tells(found[k], results[places[k]], time) by {
        let channel = results[places[k]];
        assert(crate::feed::leads(Some(found[k]), channel, time));
        lemma_on_air(channel, found[k].now, found[k].next, time);
    }
    assert forall|i: int|
        0 <= i < results.len() && (is_station(#[trigger] results[i], 0) || is_station(
            results[i],
            1,
        )) implies places.contains(i) by {
        assert(stations[i] is Some);
    }
    assert(tells_at(found, results, time, places));
}

/// Which show is on air is judged by the machine's clock, at an instant that it showed while the
/// results were looked at: a show whose end has come by then is passed over, and the one that
/// follows it in the results is on air, for each station that the results name.
pub proof fn law_what_is_over_by_the_clock_is_passed_over(
    results: Vec<LiveChannel>,
    r: Vec<LiveLead>,
)
    requires
        call_ensures(live_leads, (results,), r),
    ensures
        exists|time: Timestamp|
            clock_showed(time) && #[trigger] tells_what_is_on(r@, results@, time),
{
    let time = choose|time: Timestamp|
        time.valid() && clock_showed(time) && #[trigger] crate::feed::leads_all(
            r@,
            results@,
            time,
        );
    lemma_told(r@, results@, time);
}

/// Which show is on air at a given instant.
pub proof fn law_what_is_over_is_passed_over(
    results: Vec<LiveChannel>,
    time: Timestamp,
    r: Vec<LiveLead>,
)
    requires
        call_ensures(live_leads_at, (results, time), r),
    ensures
        tells_what_is_on(r@, results@, time),
{
    lemma_told(r@, results@, time);
}

/// The same of a single channel's broadcasts, by the machine's clock.
pub proof fn law_the_clock_decides_what_is_on_air(
    now: Broadcast,
    next: Broadcast,
    next2: Option<Broadcast>,
    r: (Broadcast, Broadcast),
)
    requires
        call_ensures(active_and_next, (now, next, next2), r),
    ensures
        exists|time: Timestamp|
            clock_showed(time) && #[trigger] has_on_air(
                one_by_one(now, next, next2),
                r.0,
                r.1,
                time,
            ),
{
    let models = offered(now@, next@, opt_view(next2));
    let time = choose|time: Timestamp|
        time.valid() && clock_showed(time) && (r.0@, r.1@) == crate::feed::on_air(
            models,
            #[trigger] ends(models, time),
        );
    let channel = LiveChannel { channel_name: arbitrary(), now, next, next2 };
    lemma_on_air(channel, r.0, r.1, time);
    assert(has_on_air(named(channel), r.0, r.1, time));
}

/// A broadcast is over once the end that it names has come, whatever else it says.
pub proof fn law_a_broadcast_ends_at_its_end(broadcast: Broadcast, time: Timestamp, r: bool)
    requires
        call_ensures(broadcast_has_ended, (&broadcast, time), r),
    ensures
        r == past(broadcast, time),
{
    lemma_past(broadcast, time);
}

/// A time of the feed is shown as the machine shows that instant.
pub proof fn law_a_timestamp_is_shown_in_local_time(written: &str, r: String)
    requires
        call_ensures(broadcast_time, (Some(written),), r),
    ensures
        instant_of(written@) matches Some(instant) ==> local_time(r@, instant),
        instant_of(written@) is None ==> r@ == "—"@,
{
    assert(opt_view(Some(written)) == Some(written@));
}

/// A show is called by the name in its details first, and by what the feed puts over it next.
pub proof fn law_a_show_has_its_own_name(broadcast: Broadcast, fallback: &str, r: String)
    requires
        call_ensures(broadcast_name, (&broadcast, fallback), r),
    ensures
        title_of(r, broadcast, fallback@),
{
}

/// A line of a schedule tells of a broadcast by its models as by itself.
proof fn lemma_line(line: ScheduleEntry, broadcast: Broadcast)
    requires
        crate::feed::lists(line@, broadcast@),
    ensures
        line_of(line, broadcast),
{
}

/// The line of a broadcast in a schedule shows when it starts, and when it ends plays no part: a
/// broadcast that differs in its end alone has the same line.
pub proof fn law_a_line_shows_when_its_show_starts(
    broadcast: Broadcast,
    end_timestamp: Option<String>,
    r: ScheduleEntry,
)
    requires
        call_ensures(schedule_entry, (&broadcast,), r),
    ensures
        line_of(r, broadcast),
        line_of(r, Broadcast { end_timestamp, ..broadcast }),
        crate::feed::lists(r@, (Broadcast { end_timestamp, ..broadcast })@),
{
    lemma_line(r, broadcast);
}

/// The broadcasts of a schedule, day after day.
pub open spec fn all_broadcasts(response: ScheduleResponse) -> Seq<Broadcast> {
    response.results@.map_values(|day: ScheduleDay| day.broadcasts@).flatten()
}

/// Whether `lines` are the schedule of `response` at `time`: at most six lines, each of a broadcast
/// that is not over, in the order of the response; and where a broadcast that is not over has no
/// line there are six lines before it.
pub open spec fn is_schedule(
    lines: Seq<ScheduleEntry>,
    response: ScheduleResponse,
    time: Timestamp,
) -> bool {
    exists|places: Seq<int>| #[trigger] lines_at(lines, all_broadcasts(response), time, places)
}

/// Whether the lines are those of the broadcasts at `places`.
pub open spec fn lines_at(
    lines: Seq<ScheduleEntry>,
    list: Seq<Broadcast>,
    time: Timestamp,
    places: Seq<int>,
) -> bool {
    &&& lines.len() <= 6
    &&& places.len() == lines.len()
    &&& forall|k: int|
        0 <= k < lines.len() ==> {
            &&& 0 <= #[trigger] places[k] < list.len()
            &&& !past(list[places[k]], time)
            &&& line_of(lines[k], list[places[k]])
        }
    &&& forall|j: int, k: int|
        0 <= j < k < lines.len() ==> #[trigger] places[j] < #[trigger] places[k]
    &&& forall|i: int|
        0 <= i < list.len() && !past(#[trigger] list[i], time) ==> places.contains(i) || (
        lines.len() == 6 && places.last() < i)
}

/// The broadcasts of some days, one day after the other.
proof fn lemma_days(days: Seq<ScheduleDay>)
    ensures
        views(days.map_values(|day: ScheduleDay| day.broadcasts@).flatten()) == broadcasts_of(
            views(days),
        ),
    decreases days.len(),
{
    let lists = days.map_values(|day: ScheduleDay| day.broadcasts@);
    lists.lemma_flatten_and_flatten_alt_are_equivalent();
    if days.len() > 0 {
        let rest = days.drop_last();
        lemma_days(rest);
        let earlier = rest.map_values(|day: ScheduleDay| day.broadcasts@);
        earlier.lemma_flatten_and_flatten_alt_are_equivalent();
        assert(lists.drop_last() =~= earlier);
        assert(views(days).drop_last() =~= views(rest));
        assert(lists.flatten() =~= earlier.flatten() + days.last().broadcasts@);
        assert(views(earlier.flatten() + days.last().broadcasts@) =~= views(earlier.flatten())
            + views(days.last().broadcasts@));
    } else {
        assert(lists.flatten() =~= Seq::empty());
        assert(views(lists.flatten()) =~= broadcasts_of(views(days)));
    }
}

/// Those of `list` that are not over, each at its place.
pub open spec fn coming(list: Seq<BroadcastModel>, time: Timestamp) -> Seq<Option<BroadcastModel>> {
    list.map_values(
        |b: BroadcastModel|
            if b.ended(time) {
                None
            } else {
                Some(b)
            },
    )
}

/// What is still to come stands at the places at which there is something to come.
proof fn lemma_coming(list: Seq<BroadcastModel>, time: Timestamp)
    ensures
        still_to_come(list, time).len() == present(coming(list, time)).len(),
        forall|k: int|
            0 <= k < still_to_come(list, time).len() ==> #[trigger] still_to_come(list, time)[k]
                == list[present(coming(list, time))[k]],
    decreases list.len(),
{
    if list.len() > 0 {
        let rest = list.drop_last();
        lemma_coming(rest, time);
        lemma_present(coming(rest, time));
        assert(coming(list, time).drop_last() =~= coming(rest, time));
    }
}

/// A schedule by its models is the schedule of the response.
proof fn lemma_schedule(lines: Seq<ScheduleEntry>, response: ScheduleResponse, time: Timestamp)
    requires
        crate::feed::lists_all(views(lines), upcoming(views(response.results@), time)),
    ensures
        is_schedule(lines, response, time),
{
    let list = all_broadcasts(response);
    let models = broadcasts_of(views(response.results@));
    lemma_days(response.results@);
    assert(views(list) == models);
    let kept = still_to_come(models, time);
    let all = present(coming(models, time));
    lemma_coming(models, time);
    lemma_present(coming(models, time));
    let shown = upcoming(views(response.results@), time);
    let places = all.take(lines.len() as int);
    assert forall|k: int| 0 <= k < lines.len() implies {
        &&& 0 <= #[trigger] places[k] < list.len()
        &&& !past(list[places[k]], time)
        &&& line_of(lines[k], list[places[k]])
    } by {
        let at = places[k];
        assert(at == all[k]);
        assert(coming(models, time)[at] is Some);
        assert(models[at] == list[at]@);
        lemma_past(list[at], time);
        assert(shown[k] == kept[k]);
        assert(views(lines)[k] == lines[k]@);
        lemma_line(lines[k], list[at]);
    }
    assert forall|i: int| 0 <= i < list.len() && !past(#[trigger] list[i], time) implies
    places.contains(i) || (lines.len() == 6 && places.last() < i) by {
        assert(models[i] == list[i]@);
        lemma_past(list[i], time);
        assert(coming(models, time)[i] is Some);
        let k = choose|k: int| 0 <= k < all.len() && all[k] == i;
        if k < lines.len() {
            assert(places[k] == i);
        } else {
            assert(all[lines.len() - 1] < all[k]);
        }
    }
    assert(lines_at(lines, list, time, places));
}

/// A schedule shows the next six shows that are not over, in their order, each with the time at
/// which it starts and its name.
pub proof fn law_a_schedule_shows_what_comes_next(
    response: ScheduleResponse,
    time: Timestamp,
    r: Vec<ScheduleEntry>,
)
    requires
        call_ensures(schedule_entries, (&response, time), r),
    ensures
        is_schedule(r@, response, time),
{
    lemma_schedule(r@, response, time);
}

/// A schedule goes to the station that it was asked for.
pub proof fn law_a_schedule_goes_to_its_station(
    index: usize,
    response: ScheduleResponse,
    time: Timestamp,
    r: ScheduleUpdate,
)
    requires
        call_ensures(schedule_update, (index, &response, time), r),
    ensures
        r.index == index,
        is_schedule(r.schedule@, response, time),
{
    lemma_schedule(r.schedule@, response, time);
}

/// Every schedule that could be read goes to its own station, and there are no others.
pub proof fn law_every_schedule_goes_to_its_station(
    responses: Vec<Option<ScheduleResponse>>,
    time: Timestamp,
    r: Vec<ScheduleUpdate>,
)
    requires
        call_ensures(schedule_updates, (responses, time), r),
    ensures
        forall|i: int|
            0 <= i < responses@.len() && (#[trigger] responses@[i]) is Some ==> exists|k: int|
                0 <= k < r@.len() && (#[trigger] r@[k]).index == i && is_schedule(
                    r@[k].schedule@,
                    responses@[i]->0,
                    time,
                ),
        forall|k: int|
            0 <= k < r@.len() ==> {
                let i = (#[trigger] r@[k]).index as int;
                &&& i < responses@.len()
                &&& responses@[i] is Some
                &&& is_schedule(r@[k].schedule@, responses@[i]->0, time)
            },
{
    let places = present(responses@);
    let updates = views(r@);
    lemma_present(responses@);
    assert forall|k: int| 0 <= k < r@.len() implies {
        let i = (#[trigger] r@[k]).index as int;
        &&& i == places[k]
        &&& i < responses@.len()
        &&& responses@[i] is Some
        &&& is_schedule(r@[k].schedule@, responses@[i]->0, time)
    } by {
        assert(updates[k] == r@[k]@);
        let i = places[k];
        lemma_schedule(r@[k].schedule@, responses@[i]->0, time);
    }
    assert forall|i: int| 0 <= i < responses@.len() && (#[trigger] responses@[i]) is Some implies
    exists|k: int|
        0 <= k < r@.len() && (#[trigger] r@[k]).index == i && is_schedule(
            r@[k].schedule@,
            responses@[i]->0,
            time,
        ) by {
        let k = choose|k: int| 0 <= k < places.len() && places[k] == i;
        assert(r@[k].index == i);
    }
}

/// Whether `update` tells of a live station with `now` on air and `next` after it.
pub open spec fn is_news_of(
    update: ChannelUpdate,
    index: usize,
    now: Broadcast,
    next: Broadcast,
) -> bool {
    &&& update.index == index
    &&& title_of(update.show, now, "Live transmission"@)
    &&& match now.embeds.details {
        Some(details) => match details.description {
            Some(description) => update.description@ == description@,
            None => update.description@.len() == 0,
        },
        None => update.description@.len() == 0,
    }
    &&& title_of(update.next_show, next, "Coming up soon"@)
    &&& time_of(update.next_starts_at, next.start_timestamp)
    &&& opt_view(update.ends_at) == opt_view(now.end_timestamp)
    &&& update.schedule matches Some(lines) && lines@.len() == 2 && line_of(lines@[0], now)
        && line_of(lines@[1], next)
    &&& update.stream is None
}

/// News by the models are news of the broadcasts.
proof fn lemma_news(update: ChannelUpdate, index: usize, now: Broadcast, next: Broadcast)
    requires
        crate::feed::live_news(update@, index as int, now@, next@),
    ensures
        is_news_of(update, index, now, next),
{
    let lines = update.schedule->0;
    assert(update@.schedule == Some(views(lines@)));
    assert(views(lines@).len() == 2);
    assert(views(lines@)[0] == lines@[0]@);
    assert(views(lines@)[1] == lines@[1]@);
    lemma_line(lines@[0], now);
    lemma_line(lines@[1], next);
}

/// The news of a live station tell what is on air there, until when, and what comes next and when.
pub proof fn law_news_tell_what_is_on_and_what_comes(
    lead: LiveLead,
    artwork_url: Option<String>,
    artwork: Option<DynamicImage>,
    r: ChannelUpdate,
)
    requires
        call_ensures(live_update, (lead, artwork_url, artwork), r),
    ensures
        is_news_of(r, lead.index, lead.now, lead.next),
        opt_view(r.artwork_url) == opt_view(artwork_url),
        r.artwork == artwork,
{
    lemma_news(r, lead.index, lead.now, lead.next);
}

/// The news of the live stations are those of each page, in their order.
pub proof fn law_each_page_has_its_news(pages: Vec<LivePage>, r: Vec<ChannelUpdate>)
    requires
        call_ensures(live_updates, (pages,), r),
    ensures
        r@.len() == pages@.len(),
        forall|k: int|
            0 <= k < r@.len() ==> {
                let lead = pages@[k].lead;
                &&& is_news_of(#[trigger] r@[k], lead.index, lead.now, lead.next)
                &&& opt_view(r@[k].artwork_url) == opt_view(pages@[k].artwork_url)
            },
{
    let updates = views(r@);
    assert(updates.len() == r@.len());
    assert forall|k: int| 0 <= k < r@.len() implies {
        let lead = pages@[k].lead;
        &&& is_news_of(#[trigger] r@[k], lead.index, lead.now, lead.next)
        &&& opt_view(r@[k].artwork_url) == opt_view(pages@[k].artwork_url)
    } by {
        assert(updates[k] == r@[k]@);
        let lead = pages@[k].lead;
        lemma_news(r@[k], lead.index, lead.now, lead.next);
    }
}

/// The feed calls the first live station 1 and the second one 2, and has no other names for them.
pub proof fn law_the_feed_counts_stations_from_one(name: String, r: Option<usize>)
    requires
        call_ensures(live_index, (&name,), r),
    ensures
        r == Some(0usize) <==> name@ == "1"@,
        r == Some(1usize) <==> name@ == "2"@,
        r matches Some(index) ==> index < 2,
{
    reveal_strlit("1");
    reveal_strlit("2");
    assert("1"@[0] != "2"@[0]);
}

/// The picture of a live station is that of the show on air, the larger one first.
pub proof fn law_the_picture_is_of_the_show_on_air(
    lead: LiveLead,
    r: (Option<String>, Option<String>),
)
    requires
        call_ensures(lead_pictures, (&lead,), r),
    ensures
        match lead.now.embeds.details {
            Some(details) => {
                &&& opt_view(r.0) == opt_view(details.media.picture_medium)
                &&& opt_view(r.1) == opt_view(details.media.picture_thumb)
            },
            None => r.0 is None && r.1 is None,
        },
{
}

/// The picture of a mixtape is its own, the larger one first.
pub proof fn law_the_picture_is_of_the_mixtape(
    mixtape: MixtapeResponse,
    r: (Option<String>, Option<String>),
)
    requires
        call_ensures(mixtape_pictures, (&mixtape,), r),
    ensures
        opt_view(r.0) == opt_view(mixtape.media.picture_medium),
        opt_view(r.1) == opt_view(mixtape.media.picture_thumb),
{
}

/// Whether `update` tells of the mixtape that comes `offset` places after the live stations: its
/// title; its subtitle, or where it has none its description; its stream, where it has one; and
/// nothing of a show that ends or follows.
pub open spec fn is_mixtape_news(
    update: ChannelUpdate,
    offset: int,
    mixtape: MixtapeResponse,
) -> bool {
    &&& update.index == offset + 2
    &&& update.show@ == mixtape.title@
    &&& match (mixtape.subtitle, mixtape.description) {
        (Some(subtitle), _) => update.description@ == subtitle@,
        (None, Some(description)) => update.description@ == description@,
        (None, None) => update.description@.len() == 0,
    }
    &&& update.next_show@.len() == 0
    &&& update.next_starts_at@.len() == 0
    &&& update.ends_at is None
    &&& update.schedule is None
    &&& opt_view(update.stream) == opt_view(mixtape.audio_stream_endpoint)
}

/// The news of a mixtape tell what it is called, what it is, and where it streams.
pub proof fn law_news_tell_what_a_mixtape_is(
    offset: usize,
    mixtape: MixtapeResponse,
    artwork_url: Option<String>,
    artwork: Option<DynamicImage>,
    r: ChannelUpdate,
)
    requires
        call_ensures(mixtape_update, (offset, mixtape, artwork_url, artwork), r),
    ensures
        is_mixtape_news(r, offset as int, mixtape),
        opt_view(r.artwork_url) == opt_view(artwork_url),
        r.artwork == artwork,
{
}

/// Every mixtape that could be read goes to its own station, and there are no others.
pub proof fn law_every_mixtape_goes_to_its_station(
    pages: Vec<Option<MixtapePage>>,
    r: Vec<ChannelUpdate>,
)
    requires
        call_ensures(mixtape_updates, (pages,), r),
    ensures
        forall|i: int|
            0 <= i < pages@.len() && (#[trigger] pages@[i]) is Some ==> exists|k: int|
                0 <= k < r@.len() && is_mixtape_news(
                    #[trigger] r@[k],
                    i,
                    pages@[i]->0.mixtape,
                ) && opt_view(r@[k].artwork_url) == opt_view(pages@[i]->0.artwork_url),
        forall|k: int|
            0 <= k < r@.len() ==> {
                let i = (#[trigger] r@[k]).index - 2;
                &&& 0 <= i < pages@.len()
                &&& pages@[i] is Some
                &&& is_mixtape_news(r@[k], i, pages@[i]->0.mixtape)
            },
{
    let places = present(pages@);
    let updates = views(r@);
    lemma_present(pages@);
    assert(updates == crate::feed::all_mixtape_news(pages@));
    assert forall|k: int| 0 <= k < r@.len() implies {
        let i = places[k];
        &&& 0 <= i < pages@.len()
        &&& pages@[i] is Some
        &&& is_mixtape_news(#[trigger] r@[k], i, pages@[i]->0.mixtape)
        &&& opt_view(r@[k].artwork_url) == opt_view(pages@[i]->0.artwork_url)
    } by {
        assert(updates[k] == r@[k]@);
    }
    assert forall|i: int| 0 <= i < pages@.len() && (#[trigger] pages@[i]) is Some implies exists|
        k: int,
    |
        0 <= k < r@.len() && is_mixtape_news(#[trigger] r@[k], i, pages@[i]->0.mixtape) && opt_view(
            r@[k].artwork_url,
        ) == opt_view(pages@[i]->0.artwork_url) by {
        let k = choose|k: int| 0 <= k < places.len() && places[k] == i;
        assert(is_mixtape_news(r@[k], i, pages@[i]->0.mixtape));
    }
}

/// What a single channel has on air at a given instant.
pub proof fn law_the_instant_decides_what_is_on_air(
    now: Broadcast,
    next: Broadcast,
    next2: Option<Broadcast>,
    time: Timestamp,
    r: (Broadcast, Broadcast),
)
    requires
        call_ensures(active_and_next_at, (now, next, next2, time), r),
    ensures
        has_on_air(one_by_one(now, next, next2), r.0, r.1, time),
{
    let channel = LiveChannel { channel_name: arbitrary(), now, next, next2 };
    lemma_on_air(channel, r.0, r.1, time);
}

/// What a live channel has on air at a given instant, where it is a station's.
pub proof fn law_a_channel_has_its_show_on_air(
    channel: LiveChannel,
    time: Timestamp,
    r: Option<LiveLead>,
)
    requires
        call_ensures(live_lead_at, (channel, time), r),
    ensures
        r matches Some(lead) ==> tells(lead, channel, time),
        r is None ==> !is_station(channel, 0) && !is_station(channel, 1),
{
    if let Some(lead) = r {
        lemma_on_air(channel, lead.now, lead.next, time);
    }
}

/// The lines of some broadcasts are those of each, in their order.
pub proof fn law_each_broadcast_has_its_line(broadcasts: &[Broadcast], r: Vec<ScheduleEntry>)
    requires
        call_ensures(schedule_from_broadcasts, (broadcasts,), r),
    ensures
        r@.len() == broadcasts@.len(),
        forall|i: int| 0 <= i < r@.len() ==> line_of(#[trigger] r@[i], broadcasts@[i]),
{
    let lines = views(r@);
    let models = views(broadcasts@);
    assert(lines.len() == r@.len());
    assert forall|i: int| 0 <= i < r@.len() implies line_of(
        #[trigger] r@[i],
        broadcasts@[i],
    ) by {
        assert(lines[i] == r@[i]@);
        assert(models[i] == broadcasts@[i]@);
        lemma_line(r@[i], broadcasts@[i]);
    }
}

/// The schedule of a station is asked for by its number, which is counted from one.
pub proof fn law_a_schedule_is_asked_for_by_number(index: usize, r: String)
    requires
        call_ensures(schedule_url, (index,), r),
    ensures
        r@ == "https://www.nts.live/api/v2/radio/schedule"@ + "/"@ + decimal_text(
            (index + 1) as nat,
        ) + "?past_days=0"@,
{
}

/// The mixtapes are asked for one by one, in the order of the stations.
pub proof fn law_each_mixtape_is_asked_for(r: Vec<String>)
    requires
        call_ensures(mixtape_urls, (), r),
    ensures
        r@.len() == 8,
        forall|i: int|
            0 <= i < 8 ==> (#[trigger] r@[i])@ == "https://www.nts.live/api/v2/mixtapes"@ + "/"@
                + seq![
                "poolside"@,
                "slow-focus"@,
                "100-percent-hip-hop"@,
                "memory-lane"@,
                "4-to-the-floor"@,
                "island-time"@,
                "the-tube"@,
                "sheet-music"@,
            ][i],
{
    let urls = views(r@);
    assert(urls.len() == r@.len());
    assert forall|i: int| 0 <= i < 8 implies (#[trigger] r@[i])@ == urls[i] by {}
}

/// What was asked for is what was read: the pictures that are known are those of the stations.
pub proof fn law_the_known_pictures_are_the_stations(app: App, r: Vec<Option<String>>)
    requires
        call_ensures(App::artwork_urls, (&app,), r),
    ensures
        r@.len() == app.channels@.len(),
        forall|i: int|
            0 <= i < r@.len() ==> opt_view(#[trigger] r@[i]) == opt_view(
                app.channels@[i].artwork_url,
            ),
{
}

} // verus!
