//! The stations: two live channels and eight endless mixtapes.
use crate::text::{opt_view, push_item, views};
use vstd::prelude::*;

verus! {

/// The stream of the first live channel.
pub const NTS_1_STREAM: &'static str = "https://stream-relay-geo.ntslive.net/stream?client=direct";

/// The stream of the second live channel.
pub const NTS_2_STREAM: &'static str = "https://stream-relay-geo.ntslive.net/stream2?client=direct";

/// What a channel plays: a schedule of shows, or one endless mixtape.
#[derive(Clone, Copy, Debug, PartialEq, Eq, Structural)]
pub enum ChannelKind {
    Live,
    Mixtape,
}

/// A show in a channel's schedule.
pub struct ScheduleEntry {
    pub starts_at: String,
    pub title: String,
}

/// The model of a `ScheduleEntry`.
#[verifier::ext_equal]
pub struct EntryModel {
    pub starts_at: Seq<char>,
    pub title: Seq<char>,
}

impl View for ScheduleEntry {
    type V = EntryModel;

    open spec fn view(&self) -> EntryModel {
        EntryModel { starts_at: self.starts_at@, title: self.title@ }
    }
}

/// A station, and what is known of what it plays.
pub struct Channel {
    pub number: &'static str,
    pub name: &'static str,
    pub kind: ChannelKind,
    pub stream: String,
    pub show: String,
    pub description: String,
    pub next_show: String,
    pub next_starts_at: String,
    pub ends_at: Option<String>,
    pub schedule: Vec<ScheduleEntry>,
    /// The picture that was last loaded for this channel.
    pub artwork_url: Option<String>,
    /// Whether a picture can be drawn for this channel.
    pub artwork: bool,
}

/// The model of a `Channel`.
#[verifier::ext_equal]
pub struct ChannelModel {
    pub number: Seq<char>,
    pub name: Seq<char>,
    pub kind: ChannelKind,
    pub stream: Seq<char>,
    pub show: Seq<char>,
    pub description: Seq<char>,
    pub next_show: Seq<char>,
    pub next_starts_at: Seq<char>,
    pub ends_at: Option<Seq<char>>,
    pub schedule: Seq<EntryModel>,
    pub artwork_url: Option<Seq<char>>,
    pub artwork: bool,
}

impl View for Channel {
    type V = ChannelModel;

    open spec fn view(&self) -> ChannelModel {
        ChannelModel {
            number: self.number@,
            name: self.name@,
            kind: self.kind,
            stream: self.stream@,
            show: self.show@,
            description: self.description@,
            next_show: self.next_show@,
            next_starts_at: self.next_starts_at@,
            ends_at: opt_view(self.ends_at),
            schedule: views(self.schedule@),
            artwork_url: opt_view(self.artwork_url),
            artwork: self.artwork,
        }
    }
}

/// A live channel before anything was heard of its shows.
pub open spec fn idle_live(
    number: Seq<char>,
    name: Seq<char>,
    stream: Seq<char>,
    description: Seq<char>,
) -> ChannelModel {
    ChannelModel {
        number,
        name,
        kind: ChannelKind::Live,
        stream,
        show: "Live transmission"@,
        description,
        next_show: "Schedule updating"@,
        next_starts_at: "—"@,
        ends_at: None,
        schedule: Seq::empty(),
        artwork_url: None,
        artwork: false,
    }
}

/// A mixtape before anything was heard of it.
pub open spec fn idle_mixtape(
    name: Seq<char>,
    label: Seq<char>,
    stream: Seq<char>,
) -> ChannelModel {
    ChannelModel {
        number: "∞"@,
        name,
        kind: ChannelKind::Mixtape,
        stream,
        show: label,
        description: "Infinite Mixtape · loading NTS details"@,
        next_show: Seq::empty(),
        next_starts_at: Seq::empty(),
        ends_at: None,
        schedule: Seq::empty(),
        artwork_url: None,
        artwork: false,
    }
}

/// All stations, in their order, before anything was heard of them.
pub open spec fn catalog() -> Seq<ChannelModel> {
    seq![
        idle_live(
            "1"@,
            "NTS 1"@,
            NTS_1_STREAM@,
            "Music to make your day feel a little less ordinary."@,
        ),
        idle_live("2"@, "NTS 2"@, NTS_2_STREAM@, "A second door into the NTS universe."@),
        idle_mixtape(
            "Poolside"@,
            "Poolside"@,
            "https://stream-mixtape-geo.ntslive.net/mixtape4"@,
        ),
        idle_mixtape(
            "Slow Focus"@,
            "Slow Focus"@,
            "https://stream-mixtape-geo.ntslive.net/mixtape"@,
        ),
        idle_mixtape(
            "Low Key"@,
            "100-percent-hip-hop"@,
            "https://stream-mixtape-geo.ntslive.net/mixtape2"@,
        ),
        idle_mixtape(
            "Memory Lane"@,
            "Memory Lane"@,
            "https://stream-mixtape-geo.ntslive.net/mixtape6"@,
        ),
        idle_mixtape(
            "4 To The Floor"@,
            "4 To The Floor"@,
            "https://stream-mixtape-geo.ntslive.net/mixtape5"@,
        ),
        idle_mixtape(
            "Island Time"@,
            "Island Time"@,
            "https://stream-mixtape-geo.ntslive.net/mixtape21"@,
        ),
        idle_mixtape(
            "The Tube"@,
            "The Tube"@,
            "https://stream-mixtape-geo.ntslive.net/mixtape26"@,
        ),
        idle_mixtape(
            "Sheet Music"@,
            "Sheet Music"@,
            "https://stream-mixtape-geo.ntslive.net/mixtape35"@,
        ),
    ]
}

/// A live channel to show until its first update arrives.
fn live_channel(
    number: &'static str,
    name: &'static str,
    stream: &'static str,
    description: &'static str,
) -> (r: Channel)
    ensures
        r@ == idle_live(number@, name@, stream@, description@),
{
    let r = Channel {
        number,
        name,
        kind: ChannelKind::Live,
        stream: stream.to_owned(),
        show: "Live transmission".to_owned(),
        description: description.to_owned(),
        next_show: "Schedule updating".to_owned(),
        next_starts_at: "—".to_owned(),
        ends_at: None,
        schedule: Vec::new(),
        artwork_url: None,
        artwork: false,
    };
    assert(r@.schedule =~= Seq::empty());
    r
}

/// A mixtape to show until its first update arrives.
pub fn mixtape_channel(name: &'static str, label: &'static str, stream: &'static str) -> (r: Channel)
    ensures
        r@ == idle_mixtape(name@, label@, stream@),
{
    let r = Channel {
        number: "∞",
        name,
        kind: ChannelKind::Mixtape,
        stream: stream.to_owned(),
        show: label.to_owned(),
        description: "Infinite Mixtape · loading NTS details".to_owned(),
        next_show: String::new(),
        next_starts_at: String::new(),
        ends_at: None,
        schedule: Vec::new(),
        artwork_url: None,
        artwork: false,
    };
    assert(r@.schedule =~= Seq::empty());
    r
}

/// The stations to show until their first updates arrive.
pub fn fallback_channels() -> (r: Vec<Channel>)
    ensures
        views(r@) == catalog(),
{
    let mut r: Vec<Channel> = Vec::new();
    assert(views(r@) =~= Seq::empty());
    push_item(
        &mut r,
        live_channel(
            "1",
            "NTS 1",
            NTS_1_STREAM,
            "Music to make your day feel a little less ordinary.",
        ),
    );
    push_item(
        &mut r,
        live_channel("2", "NTS 2", NTS_2_STREAM, "A second door into the NTS universe."),
    );
    push_item(
        &mut r,
        mixtape_channel(
            "Poolside",
            "Poolside",
            "https://stream-mixtape-geo.ntslive.net/mixtape4",
        ),
    );
    push_item(
        &mut r,
        mixtape_channel(
            "Slow Focus",
            "Slow Focus",
            "https://stream-mixtape-geo.ntslive.net/mixtape",
        ),
    );
    push_item(
        &mut r,
        mixtape_channel(
            "Low Key",
            "100-percent-hip-hop",
            "https://stream-mixtape-geo.ntslive.net/mixtape2",
        ),
    );
    push_item(
        &mut r,
        mixtape_channel(
            "Memory Lane",
            "Memory Lane",
            "https://stream-mixtape-geo.ntslive.net/mixtape6",
        ),
    );
    push_item(
        &mut r,
        mixtape_channel(
            "4 To The Floor",
            "4 To The Floor",
            "https://stream-mixtape-geo.ntslive.net/mixtape5",
        ),
    );
    push_item(
        &mut r,
        mixtape_channel(
            "Island Time",
            "Island Time",
            "https://stream-mixtape-geo.ntslive.net/mixtape21",
        ),
    );
    push_item(
        &mut r,
        mixtape_channel(
            "The Tube",
            "The Tube",
            "https://stream-mixtape-geo.ntslive.net/mixtape26",
        ),
    );
    push_item(
        &mut r,
        mixtape_channel(
            "Sheet Music",
            "Sheet Music",
            "https://stream-mixtape-geo.ntslive.net/mixtape35",
        ),
    );
    assert(views(r@) =~= catalog());
    r
}

/// The catalog holds two live channels, then eight mixtapes, and nothing else.
pub proof fn law_catalog_is_two_live_channels_and_eight_mixtapes()
    ensures
        catalog().len() == 10,
        forall|i: int| 0 <= i < 2 ==> (#[trigger] catalog()[i]).kind == ChannelKind::Live,
        forall|i: int| 2 <= i < 10 ==> (#[trigger] catalog()[i]).kind == ChannelKind::Mixtape,
{
}

} // verus!
