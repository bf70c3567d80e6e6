//! The public feeds: what is on air, what follows, and what the mixtapes are.
use crate::artwork::{copy_text, opt_pixels, Pixel};
use crate::catalog::{EntryModel, ScheduleEntry};
use crate::clock::{
    clock_label, clock_showed, current_instant, local_time, opt_instant, parse_instant,
    shows_clock, Timestamp,
};
use crate::text::{decimal, decimal_text, opt_view, push_item, views};
use image::DynamicImage;
use vstd::prelude::*;
use vstd::string::*;

verus! {

/// Where the live channels' shows are told.
pub const LIVE_API: &'static str = "https://www.nts.live/api/v2/live";

/// Where the live channels' schedules are told.
pub const SCHEDULE_API: &'static str = "https://www.nts.live/api/v2/radio/schedule";

/// Where the mixtapes are told.
pub const MIXTAPE_API: &'static str = "https://www.nts.live/api/v2/mixtapes";

/// How many shows of a channel's schedule are kept.
pub const SCHEDULE_LENGTH: usize = 6;

/// The addresses of a show's picture.
pub struct Media {
    pub picture_medium: Option<String>,
    pub picture_thumb: Option<String>,
}

/// What is told of a show.
pub struct Details {
    pub name: Option<String>,
    pub description: Option<String>,
    pub media: Media,
}

/// What comes along with a broadcast.
pub struct Embeds {
    pub details: Option<Details>,
}

/// A show at a time.
pub struct Broadcast {
    pub broadcast_title: Option<String>,
    pub start_timestamp: Option<String>,
    pub end_timestamp: Option<String>,
    pub embeds: Embeds,
}

/// A live channel's shows.
pub struct LiveChannel {
    pub channel_name: String,
    pub now: Broadcast,
    pub next: Broadcast,
    pub next2: Option<Broadcast>,
}

/// A day of a channel's schedule.
pub struct ScheduleDay {
    pub broadcasts: Vec<Broadcast>,
}

/// A channel's schedule.
pub struct ScheduleResponse {
    pub results: Vec<ScheduleDay>,
}

/// A mixtape.
pub struct MixtapeResponse {
    pub title: String,
    pub subtitle: Option<String>,
    pub description: Option<String>,
    pub audio_stream_endpoint: Option<String>,
    pub media: Media,
}

/// News of a channel.
pub struct ChannelUpdate {
    pub index: usize,
    pub show: String,
    pub description: String,
    pub next_show: String,
    pub next_starts_at: String,
    pub ends_at: Option<String>,
    pub schedule: Option<Vec<ScheduleEntry>>,
    pub artwork_url: Option<String>,
    /// The picture, downloaded and cut to shape.
    pub artwork: Option<DynamicImage>,
    pub stream: Option<String>,
}

/// News of a channel's schedule.
pub struct ScheduleUpdate {
    pub index: usize,
    pub schedule: Vec<ScheduleEntry>,
}

/// The model of `Details`.
#[verifier::ext_equal]
pub struct DetailsModel {
    pub name: Option<Seq<char>>,
    pub description: Option<Seq<char>>,
    pub medium: Option<Seq<char>>,
    pub thumb: Option<Seq<char>>,
}

/// The model of a `Broadcast`.
#[verifier::ext_equal]
pub struct BroadcastModel {
    pub title: Option<Seq<char>>,
    pub start: Option<Seq<char>>,
    pub end: Option<Seq<char>>,
    pub details: Option<DetailsModel>,
}

/// The model of a `MixtapeResponse`.
#[verifier::ext_equal]
pub struct MixtapeModel {
    pub title: Seq<char>,
    pub subtitle: Option<Seq<char>>,
    pub description: Option<Seq<char>>,
    pub stream: Option<Seq<char>>,
    pub medium: Option<Seq<char>>,
    pub thumb: Option<Seq<char>>,
}

/// The model of a `ChannelUpdate`.
#[verifier::ext_equal]
pub struct UpdateModel {
    pub index: int,
    pub show: Seq<char>,
    pub description: Seq<char>,
    pub next_show: Seq<char>,
    pub next_starts_at: Seq<char>,
    pub ends_at: Option<Seq<char>>,
    pub schedule: Option<Seq<EntryModel>>,
    pub artwork_url: Option<Seq<char>>,
    pub artwork: Option<Seq<Seq<Pixel>>>,
    pub stream: Option<Seq<char>>,
}

/// The model of a `ScheduleUpdate`.
#[verifier::ext_equal]
pub struct ScheduleUpdateModel {
    pub index: int,
    pub schedule: Seq<EntryModel>,
}

impl View for Details {
    type V = DetailsModel;

    open spec fn view(&self) -> DetailsModel {
        DetailsModel {
            name: opt_view(self.name),
            description: opt_view(self.description),
            medium: opt_view(self.media.picture_medium),
            thumb: opt_view(self.media.picture_thumb),
        }
    }
}

impl View for Broadcast {
    type V = BroadcastModel;

    open spec fn view(&self) -> BroadcastModel {
        BroadcastModel {
            title: opt_view(self.broadcast_title),
            start: opt_view(self.start_timestamp),
            end: opt_view(self.end_timestamp),
            details: opt_view(self.embeds.details),
        }
    }
}

impl View for ScheduleDay {
    type V = Seq<BroadcastModel>;

    open spec fn view(&self) -> Seq<BroadcastModel> {
        views(self.broadcasts@)
    }
}

impl View for MixtapeResponse {
    type V = MixtapeModel;

    open spec fn view(&self) -> MixtapeModel {
        MixtapeModel {
            title: self.title@,
            subtitle: opt_view(self.subtitle),
            description: opt_view(self.description),
            stream: opt_view(self.audio_stream_endpoint),
            medium: opt_view(self.media.picture_medium),
            thumb: opt_view(self.media.picture_thumb),
        }
    }
}

impl View for ChannelUpdate {
    type V = UpdateModel;

    open spec fn view(&self) -> UpdateModel {
        UpdateModel {
            index: self.index as int,
            show: self.show@,
            description: self.description@,
            next_show: self.next_show@,
            next_starts_at: self.next_starts_at@,
            ends_at: opt_view(self.ends_at),
            schedule: match self.schedule {
                Some(entries) => Some(views(entries@)),
                None => None,
            },
            artwork_url: opt_view(self.artwork_url),
            artwork: opt_pixels(self.artwork),
            stream: opt_view(self.stream),
        }
    }
}

impl View for ScheduleUpdate {
    type V = ScheduleUpdateModel;

    open spec fn view(&self) -> ScheduleUpdateModel {
        ScheduleUpdateModel { index: self.index as int, schedule: views(self.schedule@) }
    }
}

impl Default for Media {
    fn default() -> (r: Self)
        ensures
            r == (Media { picture_medium: None, picture_thumb: None }),
    {
        Media { picture_medium: None, picture_thumb: None }
    }
}

impl Default for Embeds {
    fn default() -> (r: Self)
        ensures
            r == (Embeds { details: None }),
    {
        Embeds { details: None }
    }
}

impl Clone for Media {
    fn clone(&self) -> (r: Self)
        ensures
            r == *self,
    {
        Media {
            picture_medium: copy_text(&self.picture_medium),
            picture_thumb: copy_text(&self.picture_thumb),
        }
    }
}

impl Clone for Details {
    fn clone(&self) -> (r: Self)
        ensures
            r == *self,
    {
        Details {
            name: copy_text(&self.name),
            description: copy_text(&self.description),
            media: self.media.clone(),
        }
    }
}

impl Clone for Broadcast {
    fn clone(&self) -> (r: Self)
        ensures
            r == *self,
    {
        Broadcast {
            broadcast_title: copy_text(&self.broadcast_title),
            start_timestamp: copy_text(&self.start_timestamp),
            end_timestamp: copy_text(&self.end_timestamp),
            embeds: Embeds {
                details: match &self.embeds.details {
                    Some(details) => Some(details.clone()),
                    None => None,
                },
            },
        }
    }
}

/// The first of the two that there is.
pub open spec fn either(a: Option<Seq<char>>, b: Option<Seq<char>>) -> Option<Seq<char>> {
    match a {
        Some(_) => a,
        None => b,
    }
}

/// `a`, or `fallback` where there is none.
pub open spec fn text_or(a: Option<Seq<char>>, fallback: Seq<char>) -> Seq<char> {
    match a {
        Some(a) => a,
        None => fallback,
    }
}

impl BroadcastModel {
    /// The name of the show, where its details give one.
    pub open spec fn name(self) -> Option<Seq<char>> {
        match self.details {
            Some(details) => details.name,
            None => None,
        }
    }

    /// The show's description, where its details give one.
    pub open spec fn description(self) -> Option<Seq<char>> {
        match self.details {
            Some(details) => details.description,
            None => None,
        }
    }

    /// The show's title: its name, else the broadcast's title, else `fallback`.
    pub open spec fn titled(self, fallback: Seq<char>) -> Seq<char> {
        text_or(either(self.name(), self.title), fallback)
    }

    /// Whether the broadcast is over at `current_time`. One without a readable end never is.
    pub open spec fn ended(self, current_time: Timestamp) -> bool {
        over(opt_instant(self.end), current_time)
    }
}

/// Whether something that ends at `end` is over at `current_time`.
pub open spec fn over(end: Option<Timestamp>, current_time: Timestamp) -> bool {
    end matches Some(end) && end.not_after(current_time)
}

/// Whether `text` shows the time that `timestamp` denotes in the machine's zone, or a dash where it
/// denotes none.
pub open spec fn shows_time(text: Seq<char>, timestamp: Option<Seq<char>>) -> bool {
    match opt_instant(timestamp) {
        Some(t) => local_time(text, t) && shows_clock(text, t),
        None => text == "—"@,
    }
}

/// Whether `entry` is the line of `broadcast` in a schedule.
pub open spec fn lists(entry: EntryModel, broadcast: BroadcastModel) -> bool {
    &&& entry.title == broadcast.titled("Live transmission"@)
    &&& shows_time(entry.starts_at, broadcast.start)
}

/// Whether `entries` are the lines of `broadcasts`, in their order.
pub open spec fn lists_all(entries: Seq<EntryModel>, broadcasts: Seq<BroadcastModel>) -> bool {
    &&& entries.len() == broadcasts.len()
    &&& forall|i: int|
        #![trigger entries[i]]
        0 <= i < entries.len() ==> lists(entries[i], broadcasts[i])
}

/// Whether something that ends at `end` is over at `current_time`.
pub fn is_over(end: Option<Timestamp>, current_time: Timestamp) -> (r: bool)
    ensures
        r == over(end, current_time),
{
    match end {
        Some(end) => end.is_not_after(&current_time),
        None => false,
    }
}

/// An optional text, borrowed.
pub fn borrow_text(text: &Option<String>) -> (r: Option<&str>)
    ensures
        opt_view(r) == opt_view(*text),
{
    match text {
        Some(text) => Some(text.as_str()),
        None => None,
    }
}

/// The instant that an optional RFC 3339 text denotes.
pub fn parse_opt_instant(text: Option<&str>) -> (r: Option<Timestamp>)
    ensures
        r == opt_instant(opt_view(text)),
        r matches Some(t) ==> t.valid(),
{
    match text {
        Some(text) => parse_instant(text),
        None => None,
    }
}

/// Whether a broadcast is over at `current_time`.
pub fn broadcast_has_ended(broadcast: &Broadcast, current_time: Timestamp) -> (r: bool)
    ensures
        r == broadcast@.ended(current_time),
{
    is_over(parse_opt_instant(borrow_text(&broadcast.end_timestamp)), current_time)
}

/// The time of day of an RFC 3339 text in the machine's zone, or a dash where it is unreadable.
pub fn broadcast_time(timestamp: Option<&str>) -> (r: String)
    ensures
        shows_time(r@, opt_view(timestamp)),
{
    clock_label(parse_opt_instant(timestamp))
}

/// `a`, or `b` where there is none, or else a copy of `fallback`.
fn first_text(a: &Option<String>, b: &Option<String>, fallback: &str) -> (r: String)
    ensures
        r@ == text_or(either(opt_view(*a), opt_view(*b)), fallback@),
{
    match a {
        Some(a) => a.clone(),
        None => match b {
            Some(b) => b.clone(),
            None => fallback.to_owned(),
        },
    }
}

/// The show's title: its name, else the broadcast's title, else `fallback`.
pub fn broadcast_name(broadcast: &Broadcast, fallback: &str) -> (r: String)
    ensures
        r@ == broadcast@.titled(fallback@),
{
    match &broadcast.embeds.details {
        Some(details) => first_text(&details.name, &broadcast.broadcast_title, fallback),
        None => first_text(&None, &broadcast.broadcast_title, fallback),
    }
}

/// A broadcast's line in a schedule.
pub fn schedule_entry(broadcast: &Broadcast) -> (r: ScheduleEntry)
    ensures
        lists(r@, broadcast@),
{
    ScheduleEntry {
        starts_at: broadcast_time(borrow_text(&broadcast.start_timestamp)),
        title: broadcast_name(broadcast, "Live transmission"),
    }
}

/// The lines of some broadcasts in a schedule.
pub fn schedule_from_broadcasts(broadcasts: &[Broadcast]) -> (r: Vec<ScheduleEntry>)
    ensures
        lists_all(views(r@), views(broadcasts@)),
{
    let mut r: Vec<ScheduleEntry> = Vec::new();
    for i in 0..broadcasts.len()
        invariant
            lists_all(views(r@), views(broadcasts@).take(i as int)),
    {
        push_item(&mut r, schedule_entry(&broadcasts[i]));
    }
    assert(views(broadcasts@).take(broadcasts@.len() as int) =~= views(broadcasts@));
    r
}

/// The first index from `from` on whose entry is not over; 0 where there is none.
pub open spec fn running_from(over: Seq<bool>, from: int) -> int
    decreases over.len() - from,
{
    if from >= over.len() {
        0
    } else if !over[from] {
        from
    } else {
        running_from(over, from + 1)
    }
}

/// The index of the first broadcast that is not over; the first of all where each is.
pub open spec fn first_running(over: Seq<bool>) -> int {
    running_from(over, 0)
}

/// The broadcast on air and the one after it. The first one of the list that is not over is on
/// air; where there is none after it, it follows itself.
pub open spec fn on_air(list: Seq<BroadcastModel>, over: Seq<bool>) -> (
    BroadcastModel,
    BroadcastModel,
) {
    let i = first_running(over);
    (
        list[i],
        if i + 1 < list.len() {
            list[i + 1]
        } else {
            list[i]
        },
    )
}

/// The broadcasts that the feed gives for a live channel.
pub open spec fn offered(
    now: BroadcastModel,
    next: BroadcastModel,
    next2: Option<BroadcastModel>,
) -> Seq<BroadcastModel> {
    match next2 {
        Some(next2) => seq![now, next, next2],
        None => seq![now, next],
    }
}

/// Which of `list` are over at `current_time`.
pub open spec fn ends(list: Seq<BroadcastModel>, current_time: Timestamp) -> Seq<bool> {
    list.map_values(|b: BroadcastModel| b.ended(current_time))
}

/// The index of the first entry that is not over; the first of all where each is.
pub fn active_index(over: &Vec<bool>) -> (r: usize)
    ensures
        r == first_running(over@),
        over@.len() > 0 ==> r < over@.len(),
{
    for i in 0..over.len()
        invariant
            first_running(over@) == running_from(over@, i as int),
    {
        if !over[i] {
            return i;
        }
    }
    0
}

/// The broadcast on air and the one after it, told by which of the three are over.
pub fn pick_on_air(
    now: Broadcast,
    next: Broadcast,
    next2: Option<Broadcast>,
    over: &Vec<bool>,
) -> (r: (Broadcast, Broadcast))
    requires
        over@.len() == offered(now@, next@, opt_view(next2)).len(),
    ensures
        (r.0@, r.1@) == on_air(offered(now@, next@, opt_view(next2)), over@),
{
    let active = active_index(over);
    if active == 0 {
        (now, next)
    } else if active == 1 {
        match next2 {
            Some(next2) => (next, next2),
            None => {
                let same = next.clone();
                (next, same)
            },
        }
    } else {
        match next2 {
            Some(next2) => {
                let same = next2.clone();
                (next2, same)
            },
            None => (now, next),
        }
    }
}

/// The broadcast on air at `current_time` and the one after it. A feed that lags still names a
/// show that is over as the current one.
pub fn active_and_next_at(
    now: Broadcast,
    next: Broadcast,
    next2: Option<Broadcast>,
    current_time: Timestamp,
) -> (r: (Broadcast, Broadcast))
    ensures
        (r.0@, r.1@) == on_air(
            offered(now@, next@, opt_view(next2)),
            ends(offered(now@, next@, opt_view(next2)), current_time),
        ),
{
    let mut over: Vec<bool> = Vec::new();
    over.push(broadcast_has_ended(&now, current_time));
    over.push(broadcast_has_ended(&next, current_time));
    if let Some(third) = &next2 {
        over.push(broadcast_has_ended(third, current_time));
    }
    assert(over@ =~= ends(offered(now@, next@, opt_view(next2)), current_time));
    pick_on_air(now, next, next2, &over)
}

/// The broadcast on air and the one after it.
pub fn active_and_next(now: Broadcast, next: Broadcast, next2: Option<Broadcast>) -> (r: (
    Broadcast,
    Broadcast,
))
    ensures
        exists|current_time: Timestamp|
            current_time.valid() && clock_showed(current_time) && (r.0@, r.1@) == on_air(
                offered(now@, next@, opt_view(next2)),
                #[trigger] ends(offered(now@, next@, opt_view(next2)), current_time),
            ),
{
    let current_time = current_instant();
    active_and_next_at(now, next, next2, current_time)
}

/// The station of a live channel, by the name that the feed gives it.
pub open spec fn live_station(name: Seq<char>) -> Option<int> {
    if name == "1"@ {
        Some(0)
    } else if name == "2"@ {
        Some(1)
    } else {
        None
    }
}

/// The station of a live channel, by the name that the feed gives it.
pub fn live_index(name: &String) -> (r: Option<usize>)
    ensures
        match r {
            Some(index) => live_station(name@) == Some(index as int),
            None => live_station(name@) is None,
        },
{
    if *name == "1".to_owned() {
        Some(0)
    } else if *name == "2".to_owned() {
        Some(1)
    } else {
        None
    }
}

/// A station, its broadcast on air and the one after it.
pub struct LiveLead {
    pub index: usize,
    pub now: Broadcast,
    pub next: Broadcast,
}

/// Whether `lead` is what `channel` has on air at `current_time`: nothing for a channel that is
/// no station.
pub open spec fn leads(
    lead: Option<LiveLead>,
    channel: LiveChannel,
    current_time: Timestamp,
) -> bool {
    let list = offered(channel.now@, channel.next@, opt_view(channel.next2));
    match lead {
        None => live_station(channel.channel_name@) is None,
        Some(lead) => {
            &&& live_station(channel.channel_name@) == Some(lead.index as int)
            &&& (lead.now@, lead.next@) == on_air(list, ends(list, current_time))
        },
    }
}

/// What a live channel has on air at `current_time`.
pub fn live_lead_at(channel: LiveChannel, current_time: Timestamp) -> (r: Option<LiveLead>)
    ensures
        leads(r, channel, current_time),
{
    match live_index(&channel.channel_name) {
        Some(index) => {
            let (now, next) = active_and_next_at(
                channel.now,
                channel.next,
                channel.next2,
                current_time,
            );
            Some(LiveLead { index, now, next })
        },
        None => None,
    }
}

/// The places at which there is something, in their order.
pub open spec fn present<T>(list: Seq<Option<T>>) -> Seq<int>
    decreases list.len(),
{
    if list.len() == 0 {
        Seq::empty()
    } else if list.last() is Some {
        present(list.drop_last()).push(list.len() - 1)
    } else {
        present(list.drop_last())
    }
}

/// The places at which there is something lie in the list, one after the other, and none is left
/// out.
pub(crate) proof fn lemma_present<T>(list: Seq<Option<T>>)
    ensures
        forall|k: int|
            0 <= k < present(list).len() ==> {
                &&& 0 <= (#[trigger] present(list)[k]) < list.len()
                &&& list[present(list)[k]] is Some
            },
        forall|j: int, k: int|
            0 <= j < k < present(list).len() ==> (#[trigger] present(list)[j]) < (
            #[trigger] present(list)[k]),
        forall|i: int|
            0 <= i < list.len() && (#[trigger] list[i]) is Some ==> present(list).contains(i),
    decreases list.len(),
{
    if list.len() > 0 {
        let rest = list.drop_last();
        lemma_present(rest);
        assert forall|i: int| 0 <= i < list.len() && (#[trigger] list[i]) is Some implies present(
            list,
        ).contains(i) by {
            if i < rest.len() {
                assert(rest[i] == list[i]);
                let k = choose|k: int| 0 <= k < present(rest).len() && present(rest)[k] == i;
                assert(present(list)[k] == i);
            } else {
                assert(present(list)[present(list).len() - 1] == i);
            }
        }
    }
}

/// The stations of some live channels, by the names that the feed gives them.
pub open spec fn live_stations(results: Seq<LiveChannel>) -> Seq<Option<int>> {
    results.map_values(|channel: LiveChannel| live_station(channel.channel_name@))
}

/// Whether `found` is what the live channels in `results` have on air at `current_time`: one for
/// each that is a station, in their order. The others are skipped.
pub open spec fn leads_all(
    found: Seq<LiveLead>,
    results: Seq<LiveChannel>,
    current_time: Timestamp,
) -> bool {
    let places = present(live_stations(results));
    &&& found.len() == places.len()
    &&& forall|k: int|
        #![trigger found[k]]
        0 <= k < found.len() ==> leads(Some(found[k]), results[places[k]], current_time)
}

/// What the live channels of a response have on air at `current_time`.
pub fn live_leads_at(results: Vec<LiveChannel>, current_time: Timestamp) -> (r: Vec<LiveLead>)
    ensures
        leads_all(r@, results@, current_time),
{
    let mut r: Vec<LiveLead> = Vec::new();
    let ghost all = results@;
    assert(all.take(0) =~= Seq::empty());
    for channel in it: results
        invariant
            all == it.seq(),
            leads_all(r@, all.take(it.index()), current_time),
    {
        let ghost seen = all.take(it.index());
        let ghost next = all.take(it.index() + 1);
        let ghost before = r@;
        proof {
            assert(next.drop_last() =~= seen);
            assert(live_stations(next).drop_last() =~= live_stations(seen));
            assert(live_stations(next).last() == live_station(channel.channel_name@));
            lemma_present(live_stations(seen));
        }
        if let Some(lead) = live_lead_at(channel, current_time) {
            r.push(lead);
        }
        proof {
            let places = present(live_stations(next));
            assert forall|k: int| #![trigger r@[k]] 0 <= k < r@.len() implies leads(
                Some(r@[k]),
                next[places[k]],
                current_time,
            ) by {
                if k < before.len() {
                    assert(r@[k] == before[k]);
                    assert(places[k] == present(live_stations(seen))[k]);
                }
            }
        }
    }
    assert(all.take(all.len() as int) =~= all);
    r
}

/// What the live channels of a response have on air.
pub fn live_leads(results: Vec<LiveChannel>) -> (r: Vec<LiveLead>)
    ensures
        exists|current_time: Timestamp|
            current_time.valid() && clock_showed(current_time) && #[trigger] leads_all(
                r@,
                results@,
                current_time,
            ),
{
    let current_time = current_instant();
    live_leads_at(results, current_time)
}

/// The addresses of the picture of the show on air, the larger one first.
pub fn lead_pictures(lead: &LiveLead) -> (r: (Option<String>, Option<String>))
    ensures
        match lead.now@.details {
            Some(details) => opt_view(r.0) == details.medium && opt_view(r.1) == details.thumb,
            None => r.0 is None && r.1 is None,
        },
{
    match &lead.now.embeds.details {
        Some(details) => (
            copy_text(&details.media.picture_medium),
            copy_text(&details.media.picture_thumb),
        ),
        None => (None, None),
    }
}

/// Whether `update` is the news of a live station with `now` on air and `next` after it.
pub open spec fn live_news(
    update: UpdateModel,
    index: int,
    now: BroadcastModel,
    next: BroadcastModel,
) -> bool {
    &&& update.index == index
    &&& update.show == now.titled("Live transmission"@)
    &&& update.description == text_or(now.description(), Seq::empty())
    &&& update.next_show == next.titled("Coming up soon"@)
    &&& shows_time(update.next_starts_at, next.start)
    &&& update.ends_at == now.end
    &&& update.schedule matches Some(entries) && lists_all(entries, seq![now, next])
    &&& update.stream is None
}

/// The news of a live station.
pub fn live_update(
    lead: LiveLead,
    artwork_url: Option<String>,
    artwork: Option<DynamicImage>,
) -> (r: ChannelUpdate)
    ensures
        live_news(r@, lead.index as int, lead.now@, lead.next@),
        r@.artwork_url == opt_view(artwork_url),
        r.artwork == artwork,
{
    let mut schedule: Vec<ScheduleEntry> = Vec::new();
    push_item(&mut schedule, schedule_entry(&lead.now));
    push_item(&mut schedule, schedule_entry(&lead.next));
    let description = match &lead.now.embeds.details {
        Some(details) => first_text(&details.description, &None, ""),
        None => String::new(),
    };
    proof {
        reveal_strlit("");
        assert(""@ =~= Seq::empty());
    }
    ChannelUpdate {
        index: lead.index,
        show: broadcast_name(&lead.now, "Live transmission"),
        description,
        next_show: broadcast_name(&lead.next, "Coming up soon"),
        next_starts_at: broadcast_time(borrow_text(&lead.next.start_timestamp)),
        ends_at: lead.now.end_timestamp,
        schedule: Some(schedule),
        artwork_url,
        artwork,
        stream: None,
    }
}

/// What was read of a live station: what it has on air, and the picture as far as it could be
/// loaded.
pub struct LivePage {
    pub lead: LiveLead,
    pub artwork_url: Option<String>,
    pub artwork: Option<DynamicImage>,
}

/// Whether `update` is the news of the live station of `page`.
pub open spec fn is_live_news(update: UpdateModel, page: LivePage) -> bool {
    &&& live_news(update, page.lead.index as int, page.lead.now@, page.lead.next@)
    &&& update.artwork_url == opt_view(page.artwork_url)
    &&& update.artwork == opt_pixels(page.artwork)
}

/// Whether `updates` are the news of the live stations in `pages`, in their order.
pub open spec fn all_live_news(updates: Seq<UpdateModel>, pages: Seq<LivePage>) -> bool {
    &&& updates.len() == pages.len()
    &&& forall|k: int|
        #![trigger updates[k]]
        0 <= k < updates.len() ==> is_live_news(updates[k], pages[k])
}

/// The news of the live stations.
pub fn live_updates(pages: Vec<LivePage>) -> (r: Vec<ChannelUpdate>)
    ensures
        all_live_news(views(r@), pages@),
{
    let mut r: Vec<ChannelUpdate> = Vec::new();
    let ghost all = pages@;
    for page in it: pages
        invariant
            all == it.seq(),
            all_live_news(views(r@), all.take(it.index())),
    {
        push_item(&mut r, live_update(page.lead, page.artwork_url, page.artwork));
    }
    assert(all.take(all.len() as int) =~= all);
    r
}

/// The address of a live station's schedule.
pub open spec fn schedule_address(index: nat) -> Seq<char> {
    SCHEDULE_API@ + "/"@ + decimal_text(index + 1) + "?past_days=0"@
}

/// The address of a live station's schedule.
pub fn schedule_url(index: usize) -> (r: String)
    ensures
        r@ == schedule_address(index as nat),
{
    let mut r = SCHEDULE_API.to_owned();
    r.append("/");
    r.append(decimal(index as u128 + 1).as_str());
    r.append("?past_days=0");
    r
}

/// The broadcasts of some days, in their order.
pub open spec fn broadcasts_of(days: Seq<Seq<BroadcastModel>>) -> Seq<BroadcastModel>
    decreases days.len(),
{
    if days.len() == 0 {
        Seq::empty()
    } else {
        broadcasts_of(days.drop_last()) + days.last()
    }
}

/// Those of `list` that are not over at `current_time`, in their order.
pub open spec fn still_to_come(list: Seq<BroadcastModel>, current_time: Timestamp) -> Seq<
    BroadcastModel,
>
    decreases list.len(),
{
    if list.len() == 0 {
        Seq::empty()
    } else if list.last().ended(current_time) {
        still_to_come(list.drop_last(), current_time)
    } else {
        still_to_come(list.drop_last(), current_time).push(list.last())
    }
}

/// The first broadcasts of a schedule that are not over at `current_time`.
pub open spec fn upcoming(days: Seq<Seq<BroadcastModel>>, current_time: Timestamp) -> Seq<
    BroadcastModel,
> {
    let list = still_to_come(broadcasts_of(days), current_time);
    if list.len() <= SCHEDULE_LENGTH {
        list
    } else {
        list.take(SCHEDULE_LENGTH as int)
    }
}

/// The lines of a schedule: its first broadcasts that are not over at `current_time`.
pub fn schedule_entries(response: &ScheduleResponse, current_time: Timestamp) -> (r: Vec<
    ScheduleEntry,
>)
    ensures
        lists_all(views(r@), upcoming(views(response.results@), current_time)),
{
    let ghost days = views(response.results@);
    let mut r: Vec<ScheduleEntry> = Vec::new();
    let ghost mut seen: Seq<BroadcastModel> = Seq::empty();
    assert(days.take(0) =~= Seq::empty());
    for i in 0..response.results.len()
        invariant
            days == views(response.results@),
            seen == broadcasts_of(days.take(i as int)),
            r@.len() <= SCHEDULE_LENGTH,
            lists_all(views(r@), still_to_come(seen, current_time).take(r@.len() as int)),
            r@.len() <= still_to_come(seen, current_time).len(),
            r@.len() < SCHEDULE_LENGTH ==> r@.len() == still_to_come(seen, current_time).len(),
    {
        let day = &response.results[i];
        let ghost list = days[i as int];
        let ghost before = seen;
        assert(list.take(0) =~= Seq::empty());
        assert(before + Seq::<BroadcastModel>::empty() =~= before);
        for j in 0..day.broadcasts.len()
            invariant
                days == views(response.results@),
                list == views(day.broadcasts@),
                seen == before + list.take(j as int),
                r@.len() <= SCHEDULE_LENGTH,
                lists_all(views(r@), still_to_come(seen, current_time).take(r@.len() as int)),
                r@.len() <= still_to_come(seen, current_time).len(),
                r@.len() < SCHEDULE_LENGTH ==> r@.len() == still_to_come(seen, current_time).len(),
        {
            let broadcast = &day.broadcasts[j];
            let ghost kept = still_to_come(seen, current_time);
            proof {
                let next = before + list.take(j + 1);
                assert(next.drop_last() =~= seen);
                assert(next.last() == broadcast@);
                seen = next;
            }
            let ghost now = still_to_come(seen, current_time);
            if r.len() < SCHEDULE_LENGTH && !broadcast_has_ended(broadcast, current_time) {
                push_item(&mut r, schedule_entry(broadcast));
                assert(now.take(r@.len() as int) =~= now);
            } else {
                assert(now.take(r@.len() as int) =~= kept.take(r@.len() as int));
            }
        }
        proof {
            assert(list.take(list.len() as int) =~= list);
            assert(days.take(i + 1).drop_last() =~= days.take(i as int));
        }
    }
    proof {
        assert(days.take(days.len() as int) =~= days);
        let list = still_to_come(broadcasts_of(days), current_time);
        assert(list.take(list.len() as int) =~= list);
    }
    r
}

/// The news of a live station's schedule.
pub fn schedule_update(index: usize, response: &ScheduleResponse, current_time: Timestamp) -> (r:
    ScheduleUpdate)
    ensures
        r.index == index,
        lists_all(r@.schedule, upcoming(views(response.results@), current_time)),
{
    ScheduleUpdate { index, schedule: schedule_entries(response, current_time) }
}

/// Whether `updates` are the news of the schedules in `responses`, which are those of the live
/// stations in their order. A schedule that could not be read is left out.
pub open spec fn schedule_news(
    updates: Seq<ScheduleUpdateModel>,
    responses: Seq<Option<ScheduleResponse>>,
    current_time: Timestamp,
) -> bool {
    &&& updates.len() == present(responses).len()
    &&& forall|k: int|
        #![trigger updates[k]]
        0 <= k < updates.len() ==> {
            let index = present(responses)[k];
            &&& updates[k].index == index
            &&& lists_all(
                updates[k].schedule,
                upcoming(views(responses[index]->0.results@), current_time),
            )
        }
}

/// The news of the live stations' schedules, as far as they could be read.
pub fn schedule_updates(responses: Vec<Option<ScheduleResponse>>, current_time: Timestamp) -> (r:
    Vec<ScheduleUpdate>)
    ensures
        schedule_news(views(r@), responses@, current_time),
{
    let mut r: Vec<ScheduleUpdate> = Vec::new();
    assert(responses@.take(0) =~= Seq::empty());
    for index in 0..responses.len()
        invariant
            schedule_news(views(r@), responses@.take(index as int), current_time),
    {
        proof {
            assert(responses@.take(index + 1).drop_last() =~= responses@.take(index as int));
            lemma_present(responses@.take(index as int));
        }
        let ghost before = views(r@);
        if let Some(response) = &responses[index] {
            push_item(&mut r, schedule_update(index, response, current_time));
        }
        proof {
            let now = views(r@);
            let seen = responses@.take(index + 1);
            assert forall|k: int| #![trigger now[k]] 0 <= k < now.len() implies {
                let place = present(seen)[k];
                &&& now[k].index == place
                &&& lists_all(
                    now[k].schedule,
                    upcoming(views(seen[place]->0.results@), current_time),
                )
            } by {
                if k < before.len() {
                    assert(now[k] == before[k]);
                    assert(present(seen)[k] == present(responses@.take(index as int))[k]);
                }
            }
        }
    }
    assert(responses@.take(responses@.len() as int) =~= responses@);
    r
}

/// The names by which the feed knows the mixtapes, in the order of the stations.
pub open spec fn mixtape_names() -> Seq<Seq<char>> {
    seq![
        "poolside"@,
        "slow-focus"@,
        "100-percent-hip-hop"@,
        "memory-lane"@,
        "4-to-the-floor"@,
        "island-time"@,
        "the-tube"@,
        "sheet-music"@,
    ]
}

/// The address of a mixtape's news.
pub open spec fn mixtape_address(offset: int) -> Seq<char> {
    MIXTAPE_API@ + "/"@ + mixtape_names()[offset]
}

/// The addresses of the mixtapes' news, in the order of the stations.
pub fn mixtape_urls() -> (r: Vec<String>)
    ensures
        views(r@) == Seq::new(mixtape_names().len(), |i: int| mixtape_address(i)),
{
    let names: [&'static str; 8] = [
        "poolside",
        "slow-focus",
        "100-percent-hip-hop",
        "memory-lane",
        "4-to-the-floor",
        "island-time",
        "the-tube",
        "sheet-music",
    ];
    let mut r: Vec<String> = Vec::new();
    for i in 0..8usize
        invariant
            views(r@) =~= Seq::new(i as nat, |i: int| mixtape_address(i)),
            forall|j: int| 0 <= j < 8 ==> (#[trigger] names@[j])@ == mixtape_names()[j],
    {
        let mut url = MIXTAPE_API.to_owned();
        url.append("/");
        url.append(names[i]);
        push_item(&mut r, url);
    }
    r
}

/// The news of the mixtape that is `offset` places after the live stations.
pub open spec fn mixtape_news(
    offset: int,
    mixtape: MixtapeModel,
    artwork_url: Option<Seq<char>>,
    artwork: Option<Seq<Seq<Pixel>>>,
) -> UpdateModel {
    UpdateModel {
        index: offset + 2,
        show: mixtape.title,
        description: text_or(either(mixtape.subtitle, mixtape.description), Seq::empty()),
        next_show: Seq::empty(),
        next_starts_at: Seq::empty(),
        ends_at: None,
        schedule: None,
        artwork_url,
        artwork,
        stream: mixtape.stream,
    }
}

/// The news of the mixtape that is `offset` places after the live stations.
pub fn mixtape_update(
    offset: usize,
    mixtape: MixtapeResponse,
    artwork_url: Option<String>,
    artwork: Option<DynamicImage>,
) -> (r: ChannelUpdate)
    requires
        offset + 2 <= usize::MAX,
    ensures
        r@ == mixtape_news(
            offset as int,
            mixtape@,
            opt_view(artwork_url),
            opt_pixels(artwork),
        ),
        r.artwork == artwork,
{
    proof {
        reveal_strlit("");
        assert(""@ =~= Seq::empty());
    }
    ChannelUpdate {
        index: offset + 2,
        description: first_text(&mixtape.subtitle, &mixtape.description, ""),
        show: mixtape.title,
        next_show: String::new(),
        next_starts_at: String::new(),
        ends_at: None,
        schedule: None,
        artwork_url,
        artwork,
        stream: mixtape.audio_stream_endpoint,
    }
}

/// The addresses of a mixtape's picture, the larger one first.
pub fn mixtape_pictures(mixtape: &MixtapeResponse) -> (r: (Option<String>, Option<String>))
    ensures
        opt_view(r.0) == mixtape@.medium,
        opt_view(r.1) == mixtape@.thumb,
{
    (copy_text(&mixtape.media.picture_medium), copy_text(&mixtape.media.picture_thumb))
}

/// What was read of a mixtape: its page, and its picture as far as it could be loaded.
pub struct MixtapePage {
    pub mixtape: MixtapeResponse,
    pub artwork_url: Option<String>,
    pub artwork: Option<DynamicImage>,
}

/// The news of the mixtapes in `pages`, which are those of the catalog in its order. A mixtape
/// that could not be read is left out.
pub open spec fn all_mixtape_news(pages: Seq<Option<MixtapePage>>) -> Seq<UpdateModel> {
    Seq::new(
        present(pages).len(),
        |k: int|
            {
                let offset = present(pages)[k];
                let page = pages[offset]->0;
                mixtape_news(
                    offset,
                    page.mixtape@,
                    opt_view(page.artwork_url),
                    opt_pixels(page.artwork),
                )
            },
    )
}

/// The news of the mixtapes, as far as they could be read.
pub fn mixtape_updates(pages: Vec<Option<MixtapePage>>) -> (r: Vec<ChannelUpdate>)
    requires
        pages@.len() + 2 <= usize::MAX,
    ensures
        views(r@) == all_mixtape_news(pages@),
{
    let mut r: Vec<ChannelUpdate> = Vec::new();
    let mut offset: usize = 0;
    let ghost all = pages@;
    assert(all.take(0) =~= Seq::empty());
    assert(views(r@) =~= all_mixtape_news(all.take(0)));
    for page in it: pages
        invariant
            all == it.seq(),
            all.len() + 2 <= usize::MAX,
            offset == it.index(),
            views(r@) == all_mixtape_news(all.take(it.index())),
    {
        proof {
            assert(all.take(offset + 1).drop_last() =~= all.take(offset as int));
            lemma_present(all.take(offset as int));
        }
        if let Some(page) = page {
            push_item(
                &mut r,
                mixtape_update(offset, page.mixtape, page.artwork_url, page.artwork),
            );
        }
        assert(views(r@) =~= all_mixtape_news(all.take(offset + 1)));
        offset = offset + 1;
    }
    assert(all.take(all.len() as int) =~= all);
    r
}

/// `running_from` finds the first entry from `from` on that is not over.
proof fn lemma_running_from(over: Seq<bool>, from: int)
    requires
        0 <= from <= over.len(),
    ensures
        ({
            let i = running_from(over, from);
            ||| i == 0 && forall|j: int| from <= j < over.len() ==> over[j]
            ||| from <= i < over.len() && !over[i] && forall|j: int| from <= j < i ==> over[j]
        }),
    decreases over.len() - from,
{
    if from < over.len() && over[from] {
        lemma_running_from(over, from + 1);
    }
}

/// A show that is over is not on air while another one of the list is not: the first of those is.
/// Where each show is over, the first of all stays.
pub proof fn law_a_stale_show_gives_way(list: Seq<BroadcastModel>, current_time: Timestamp)
    requires
        list.len() > 0,
    ensures
        ({
            let i = first_running(ends(list, current_time));
            &&& 0 <= i < list.len()
            &&& on_air(list, ends(list, current_time)).0 == list[i]
            &&& forall|j: int| 0 <= j < i ==> (#[trigger] list[j]).ended(current_time)
            &&& list[i].ended(current_time) ==> i == 0 && forall|j: int|
                0 <= j < list.len() ==> (#[trigger] list[j]).ended(current_time)
        }),
{
    let over = ends(list, current_time);
    lemma_running_from(over, 0);
    assert forall|j: int| 0 <= j < list.len() implies over[j] == (#[trigger] list[j]).ended(
        current_time,
    ) by {}
}

/// What is still to come is the schedule without the shows that are over, in its order.
pub proof fn law_what_is_over_is_left_out(list: Seq<BroadcastModel>, current_time: Timestamp)
    ensures
        still_to_come(list, current_time) == list.filter(
            |b: BroadcastModel| !b.ended(current_time),
        ),
    decreases list.len(),
{
    reveal(Seq::filter);
    if list.len() > 0 {
        law_what_is_over_is_left_out(list.drop_last(), current_time);
    }
}

/// What is still to come is on the list, and not over.
proof fn lemma_still_to_come(list: Seq<BroadcastModel>, current_time: Timestamp, i: int)
    requires
        0 <= i < still_to_come(list, current_time).len(),
    ensures
        !still_to_come(list, current_time)[i].ended(current_time),
        list.contains(still_to_come(list, current_time)[i]),
    decreases list.len(),
{
    let rest = list.drop_last();
    let kept = still_to_come(rest, current_time);
    if i < kept.len() {
        lemma_still_to_come(rest, current_time, i);
        let k = choose|k: int| 0 <= k < rest.len() && rest[k] == kept[i];
        assert(list[k] == kept[i]);
    } else {
        assert(list[list.len() - 1] == list.last());
    }
}

/// A schedule shows no more shows than fit, and none that is over.
pub proof fn law_a_schedule_is_short_and_current(
    days: Seq<Seq<BroadcastModel>>,
    current_time: Timestamp,
)
    ensures
        upcoming(days, current_time).len() <= SCHEDULE_LENGTH,
        forall|i: int|
            0 <= i < upcoming(days, current_time).len() ==> !(#[trigger] upcoming(
                days,
                current_time,
            )[i]).ended(current_time) && broadcasts_of(days).contains(
                upcoming(days, current_time)[i],
            ),
{
    let list = broadcasts_of(days);
    assert forall|i: int| 0 <= i < upcoming(days, current_time).len() implies !(
    #[trigger] upcoming(days, current_time)[i]).ended(current_time) && list.contains(
        upcoming(days, current_time)[i],
    ) by {
        lemma_still_to_come(list, current_time, i);
    }
}

/// Each mixtape of the feed has a station, and its news go to that station alone.
pub proof fn law_mixtapes_and_stations_agree(
    offset: int,
    mixtape: MixtapeModel,
    artwork_url: Option<Seq<char>>,
    artwork: Option<Seq<Seq<Pixel>>>,
)
    requires
        0 <= offset < mixtape_names().len(),
    ensures
        mixtape_names().len() + 2 == crate::catalog::catalog().len(),
        ({
            let index = mixtape_news(offset, mixtape, artwork_url, artwork).index;
            &&& 2 <= index < crate::catalog::catalog().len()
            &&& crate::catalog::catalog()[index].kind == crate::catalog::ChannelKind::Mixtape
        }),
{
}

/// A mixtape or a schedule that cannot be read takes none of the others with it: those that were
/// read are all told, each to its own station.
pub proof fn law_one_failure_discards_no_other(
    pages: Seq<Option<MixtapePage>>,
    responses: Seq<Option<ScheduleResponse>>,
    updates: Seq<ScheduleUpdateModel>,
    current_time: Timestamp,
)
    requires
        schedule_news(updates, responses, current_time),
    ensures
        forall|i: int|
            0 <= i < pages.len() && (#[trigger] pages[i]) is Some ==> exists|k: int|
                0 <= k < all_mixtape_news(pages).len() && (#[trigger] all_mixtape_news(
                    pages,
                )[k]).index == i + 2 && all_mixtape_news(pages)[k].show
                    == pages[i]->0.mixtape@.title,
        forall|i: int|
            0 <= i < responses.len() && (#[trigger] responses[i]) is Some ==> exists|k: int|
                0 <= k < updates.len() && (#[trigger] updates[k]).index == i && lists_all(
                    updates[k].schedule,
                    upcoming(views(responses[i]->0.results@), current_time),
                ),
{
    lemma_present(pages);
    lemma_present(responses);
    assert forall|i: int| 0 <= i < pages.len() && (#[trigger] pages[i]) is Some implies exists|
        k: int,
    |
        0 <= k < all_mixtape_news(pages).len() && (#[trigger] all_mixtape_news(pages)[k]).index == i
            + 2 && all_mixtape_news(pages)[k].show == pages[i]->0.mixtape@.title by {
        let k = choose|k: int| 0 <= k < present(pages).len() && present(pages)[k] == i;
        assert(all_mixtape_news(pages)[k].index == i + 2);
    }
    assert forall|i: int| 0 <= i < responses.len() && (#[trigger] responses[i]) is Some implies
    exists|k: int|
        0 <= k < updates.len() && (#[trigger] updates[k]).index == i && lists_all(
            updates[k].schedule,
            upcoming(views(responses[i]->0.results@), current_time),
        ) by {
        let k = choose|k: int| 0 <= k < present(responses).len() && present(responses)[k] == i;
        assert(updates[k].index == i);
    }
}

/// A response of the live feed is told whole and in its order: there is one update for each result
/// that is named 1 or 2, to the station of that name, with the show that the result has on air;
/// the other results are skipped.
pub proof fn law_live_results_are_told_in_order(
    results: Seq<LiveChannel>,
    current_time: Timestamp,
    pages: Seq<LivePage>,
    updates: Seq<UpdateModel>,
)
    requires
        leads_all(pages.map_values(|page: LivePage| page.lead), results, current_time),
        all_live_news(updates, pages),
    ensures
        updates.len() == present(live_stations(results)).len(),
        forall|k: int|
            0 <= k < updates.len() ==> {
                let result = results[present(live_stations(results))[k]];
                let list = offered(result.now@, result.next@, opt_view(result.next2));
                &&& live_station(result.channel_name@) == Some((#[trigger] updates[k]).index)
                &&& updates[k].show == on_air(list, ends(list, current_time)).0.titled(
                    "Live transmission"@,
                )
            },
        forall|j: int, k: int|
            0 <= j < k < updates.len() ==> #[trigger] present(live_stations(results))[j]
                < #[trigger] present(live_stations(results))[k],
        forall|i: int|
            0 <= i < results.len() && live_station((#[trigger] results[i]).channel_name@) is Some
                ==> present(live_stations(results)).contains(i),
{
    let found = pages.map_values(|page: LivePage| page.lead);
    let stations = live_stations(results);
    lemma_present(stations);
    assert forall|k: int| 0 <= k < updates.len() implies {
        let result = results[present(stations)[k]];
        let list = offered(result.now@, result.next@, opt_view(result.next2));
        &&& live_station(result.channel_name@) == Some((#[trigger] updates[k]).index)
        &&& updates[k].show == on_air(list, ends(list, current_time)).0.titled(
            "Live transmission"@,
        )
    } by {
        assert(found[k] == pages[k].lead);
    }
    assert forall|i: int|
        0 <= i < results.len() && live_station((#[trigger] results[i]).channel_name@) is Some implies
    present(stations).contains(i) by {
        assert(stations[i] is Some);
    }
}

} // verus!
