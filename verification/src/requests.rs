//! The requests to the feeds over the whole life of a session.
use crate::app::AppModel;
use crate::session::{NewsModel, Session, LAST_MOMENT, NETWORK_RETRY_DELAY};
use vstd::prelude::*;

verus! {

/// A feed.
#[derive(Clone, Copy, Debug, PartialEq, Eq, Structural)]
pub enum Feed {
    Live,
    Schedules,
    Mixtapes,
}

/// What happens in a session.
pub enum Event {
    /// A turn of the program: what is due is asked for.
    Turn { playing: bool },
    /// An answer of a feed. After good news of the live channels it is `pause` until the next live
    /// request.
    News { news: NewsModel, pause: int },
    /// Something that concerns the screen or the terminal's title alone.
    Display { dirty: bool, title_frame: usize, title_dirty: bool, next_title_tick: u64 },
}

/// What happens in a session at one moment, in nanoseconds since the start.
pub struct Beat {
    pub now: u64,
    pub event: Event,
}

impl NewsModel {
    /// The feed that the news are from.
    pub open spec fn feed(self) -> Feed {
        match self {
            NewsModel::Live(_) => Feed::Live,
            NewsModel::Schedules(_) => Feed::Schedules,
            NewsModel::Mixtapes(_) => Feed::Mixtapes,
        }
    }

    /// Whether the feed could not be read.
    pub open spec fn failed(self) -> bool {
        match self {
            NewsModel::Live(updates) => updates is None,
            NewsModel::Schedules(updates) => updates is None,
            NewsModel::Mixtapes(updates) => updates is None,
        }
    }
}

impl Session {
    /// Whether an answer of the feed is awaited.
    pub open spec fn awaits(self, feed: Feed) -> bool {
        match feed {
            Feed::Live => self.refresh_in_flight,
            Feed::Schedules => self.schedule_in_flight,
            Feed::Mixtapes => self.mixtape_in_flight,
        }
    }

    /// When the feed may be asked next.
    pub open spec fn next_request(self, feed: Feed) -> u64 {
        match feed {
            Feed::Live => self.next_refresh,
            Feed::Schedules => self.next_schedule_refresh,
            Feed::Mixtapes => self.next_mixtape_refresh,
        }
    }

    /// Whether a turn at `now` asks the feed.
    pub open spec fn asks_in_turn(self, feed: Feed, playing: bool, now: u64) -> bool {
        let due = self.due_at(playing, now);
        match feed {
            Feed::Live => due.live,
            Feed::Schedules => due.schedules,
            Feed::Mixtapes => due.mixtapes,
        }
    }

    /// Whether the feed is asked at `beat`.
    pub open spec fn asks(self, feed: Feed, beat: Beat) -> bool {
        beat.event matches Event::Turn { playing } && self.asks_in_turn(feed, playing, beat.now)
    }

    /// The session after `beat`.
    pub open spec fn after_beat(self, beat: Beat) -> Session {
        match beat.event {
            Event::Turn { playing } => self.started(self.due_at(playing, beat.now), beat.now),
            Event::News { news, pause } => self.with_news(news, beat.now, pause),
            Event::Display { dirty, title_frame, title_dirty, next_title_tick } => Session {
                dirty,
                title_frame,
                title_dirty,
                next_title_tick,
                ..self
            },
        }
    }

    /// The session after `beats`, one after the other.
    pub open spec fn after_beats(self, beats: Seq<Beat>) -> Session
        decreases beats.len(),
    {
        if beats.len() == 0 {
            self
        } else {
            self.after_beats(beats.drop_last()).after_beat(beats.last())
        }
    }

    /// How many requests to the feed have not been answered after `beats`: those that were awaited
    /// before them, and those made in them, but for those answered in them.
    pub open spec fn unanswered(self, feed: Feed, beats: Seq<Beat>) -> int
        decreases beats.len(),
    {
        if beats.len() == 0 {
            if self.awaits(feed) {
                1
            } else {
                0
            }
        } else {
            let before = beats.drop_last();
            let asked: int = if self.after_beats(before).asks(feed, beats.last()) {
                1
            } else {
                0
            };
            let answered: int = if beats.last().answers(feed) {
                1
            } else {
                0
            };
            self.unanswered(feed, before) + asked - answered
        }
    }

    /// Whether `beats` can happen: time does not run back, nor past the last moment, and a feed
    /// gives an answer only to a request.
    pub open spec fn can_happen(self, beats: Seq<Beat>) -> bool
        decreases beats.len(),
    {
        beats.len() == 0 || {
            let before = beats.drop_last();
            &&& self.can_happen(before)
            &&& beats.last().now <= LAST_MOMENT
            &&& before.len() > 0 ==> before.last().now <= beats.last().now
            &&& forall|feed: Feed| #[trigger]
                beats.last().answers(feed) ==> self.unanswered(feed, before) > 0
        }
    }
}

impl Beat {
    /// Whether it is an answer of the feed.
    pub open spec fn answers(self, feed: Feed) -> bool {
        self.event matches Event::News { news, .. } && news.feed() == feed
    }

    /// Whether the feed tells that it could not be read.
    pub open spec fn fails(self, feed: Feed) -> bool {
        self.event matches Event::News { news, .. } && news.feed() == feed && news.failed()
    }
}

impl AppModel {
    /// The state after the news in `beats`, one after the other.
    pub open spec fn after_beats(self, beats: Seq<Beat>) -> AppModel
        decreases beats.len(),
    {
        if beats.len() == 0 {
            self
        } else {
            let before = self.after_beats(beats.drop_last());
            match beats.last().event {
                Event::News { news, .. } => before.with_news(news),
                _ => before,
            }
        }
    }
}

/// Whatever happens, each feed has at most one request that has not been answered, and the session
/// awaits an answer exactly while there is one.
pub proof fn law_one_request_at_a_time(s: Session, feed: Feed, beats: Seq<Beat>)
    requires
        s.can_happen(beats),
    ensures
        0 <= s.unanswered(feed, beats) <= 1,
        s.after_beats(beats).awaits(feed) == (s.unanswered(feed, beats) == 1),
    decreases beats.len(),
{
    if beats.len() > 0 {
        law_one_request_at_a_time(s, feed, beats.drop_last());
    }
}

/// The first beats of what can happen can happen.
proof fn lemma_beginning(s: Session, beats: Seq<Beat>, n: int)
    requires
        s.can_happen(beats),
        0 <= n <= beats.len(),
    ensures
        s.can_happen(beats.take(n)),
    decreases beats.len(),
{
    if n == beats.len() {
        assert(beats.take(n) =~= beats);
    } else {
        lemma_beginning(s, beats.drop_last(), n);
        assert(beats.drop_last().take(n) =~= beats.take(n));
    }
}

/// Since its failure at beat `i` a feed has either rested, to be asked again after the retry pause,
/// or that pause is over.
proof fn lemma_rest(s: Session, feed: Feed, beats: Seq<Beat>, i: int)
    requires
        s.can_happen(beats),
        0 <= i < beats.len(),
        beats[i].fails(feed),
    ensures
        ({
            let after = s.after_beats(beats);
            ||| !after.awaits(feed) && after.next_request(feed) == beats[i].now
                + NETWORK_RETRY_DELAY
            ||| beats.last().now >= beats[i].now + NETWORK_RETRY_DELAY && exists|j: int|
                i < j < beats.len() && s.after_beats(beats.take(j)).asks(
                    feed,
                    #[trigger] beats[j],
                )
        }),
    decreases beats.len(),
{
    let n = beats.len() - 1;
    let before = beats.drop_last();
    assert(before =~= beats.take(n));
    if i < n {
        lemma_rest(s, feed, before, i);
        law_one_request_at_a_time(s, feed, before);
        assert forall|j: int| i < j < n implies before.take(j) =~= #[trigger] beats.take(j) by {}
        assert(forall|j: int| 0 <= j < n ==> before[j] == beats[j]);
        let state = s.after_beats(before);
        if !state.awaits(feed) && state.next_request(feed) == beats[i].now + NETWORK_RETRY_DELAY {
            assert(!beats.last().answers(feed));
            assert(beats[n] == beats.last());
        } else {
            let j = choose|j: int|
                i < j < before.len() && s.after_beats(before.take(j)).asks(
                    feed,
                    #[trigger] before[j],
                );
            assert(s.after_beats(beats.take(j)).asks(feed, beats[j]));
        }
    }
}

/// Whatever happens after a feed could not be read, it is not asked again before the retry pause is
/// over.
pub proof fn law_a_failed_feed_is_spared(
    s: Session,
    feed: Feed,
    beats: Seq<Beat>,
    i: int,
    j: int,
)
    requires
        s.can_happen(beats),
        0 <= i < j < beats.len(),
        beats[i].fails(feed),
        s.after_beats(beats.take(j)).asks(feed, beats[j]),
    ensures
        beats[j].now >= beats[i].now + NETWORK_RETRY_DELAY,
{
    lemma_beginning(s, beats, j);
    lemma_beginning(s, beats, j + 1);
    assert(beats.take(j + 1).drop_last() =~= beats.take(j));
    lemma_rest(s, feed, beats.take(j), i);
}

/// Whatever happens after a feed could not be read, the first turn once the retry pause is over asks
/// it again.
pub proof fn law_a_failed_feed_is_tried_again(
    s: Session,
    feed: Feed,
    beats: Seq<Beat>,
    i: int,
    j: int,
)
    requires
        s.can_happen(beats),
        0 <= i < j < beats.len(),
        beats[i].fails(feed),
        beats[j].event is Turn,
        beats[j].now >= beats[i].now + NETWORK_RETRY_DELAY,
        forall|k: int|
            i < k < j ==> !s.after_beats(beats.take(k)).asks(feed, #[trigger] beats[k]),
    ensures
        s.after_beats(beats.take(j)).asks(feed, beats[j]),
{
    let before = beats.take(j);
    lemma_beginning(s, beats, j);
    lemma_rest(s, feed, before, i);
    assert forall|k: int| i < k < j implies !s.after_beats(before.take(k)).asks(
        feed,
        #[trigger] before[k],
    ) by {
        assert(before.take(k) =~= beats.take(k));
        assert(before[k] == beats[k]);
    }
}

/// Whatever happens, the listener is told of a lost connection exactly if the last news of the live
/// channels were that they could not be read.
pub proof fn law_the_last_live_news_tell_the_connection(m: AppModel, beats: Seq<Beat>, i: int)
    requires
        0 <= i < beats.len(),
        beats[i].answers(Feed::Live),
        forall|j: int| i < j < beats.len() ==> !(#[trigger] beats[j]).answers(Feed::Live),
    ensures
        m.after_beats(beats).connection_lost == beats[i].fails(Feed::Live),
    decreases beats.len(),
{
    let before = beats.drop_last();
    if i < before.len() {
        assert(forall|j: int| i < j < before.len() ==> before[j] == beats[j]);
        law_the_last_live_news_tell_the_connection(m, before, i);
        assert(!beats[beats.len() - 1].answers(Feed::Live));
    }
    if let Event::News { news, .. } = beats.last().event {
        crate::session::law_a_lost_connection_is_told(m.after_beats(before), news);
    }
}

/// A feed that could not be read changes nothing but what the listener is told of the connection:
/// every station stays as it was.
pub proof fn law_failures_leave_the_stations(m: AppModel, news: NewsModel)
    requires
        news.failed(),
    ensures
        m.with_news(news) == (AppModel {
            connection_lost: m.connection_lost || news.feed() == Feed::Live,
            ..m
        }),
{
}

} // verus!
