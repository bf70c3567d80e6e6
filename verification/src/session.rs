//! The rhythm of the program: when to draw, to refresh, to ask the player, and what keys do.
use crate::app::{App, AppModel, Screen};
use crate::clock::{instant_of, Timestamp};
use crate::feed::{ChannelUpdate, ScheduleUpdate, ScheduleUpdateModel, UpdateModel};
use crate::geometry::{least, minus};
use crate::refresh::{ends_after, follows_the_handover, lemma_follows};
use crate::text::{opt_view, views};
use crate::updates::{ArtworkChange, ChangeModel};
use vstd::prelude::*;

verus! {

/// The pause before a feed that could not be read is asked again.
pub const NETWORK_RETRY_DELAY: u64 = 15_000_000_000;

/// The pause between two requests for the mixtapes, which rarely change.
pub const MIXTAPE_REFRESH_INTERVAL: u64 = 900_000_000_000;

/// The pause between two requests for the schedules.
pub const SCHEDULE_REFRESH_INTERVAL: u64 = 900_000_000_000;

/// The longest pause after good news of the live channels until they are asked for again.
pub const LIVE_REFRESH_INTERVAL: u64 = 60_000_000_000;

/// The pause between two steps of the spinner in the terminal's title.
pub const TITLE_INTERVAL: u64 = 120_000_000;

/// The pause before the player is asked for the first time whether it is buffering.
pub const FIRST_PROBE: u64 = 300_000_000;

/// The pause between two such questions.
pub const PROBE_INTERVAL: u64 = 1_000_000_000;

/// The longest time that the program waits for a key.
pub const KEY_WAIT: u64 = 120_000_000;

/// The longest time that it does so while the visualizer moves.
pub const FRAME_WAIT: u64 = 16_000_000;

/// How many pictures the spinner has.
pub const SPINNER_LENGTH: usize = 10;

/// The last moment at which the program can still plan ahead, in nanoseconds since its start.
pub const LAST_MOMENT: u64 = 18_446_743_173_709_551_615;

/// A key of the keyboard.
#[derive(Clone, Copy, Debug, PartialEq, Eq, Structural)]
pub enum Key {
    Char(char),
    Esc,
    Enter,
    Up,
    Down,
    Left,
    Right,
    Other,
}

/// What a key did.
#[derive(Clone, Copy, Debug, PartialEq, Eq, Structural)]
pub enum KeyVerdict {
    /// The program ends.
    Quit,
    /// It goes on; whether there is something new to draw.
    Stay(bool),
}

/// News from the network.
pub enum BackgroundUpdate {
    Live(Result<Vec<ChannelUpdate>, String>),
    Schedules(Result<Vec<ScheduleUpdate>, String>),
    Mixtapes(Result<Vec<ChannelUpdate>, String>),
}

/// The model of a `BackgroundUpdate`. Why a feed could not be read does not matter.
pub enum NewsModel {
    Live(Option<Seq<UpdateModel>>),
    Schedules(Option<Seq<ScheduleUpdateModel>>),
    Mixtapes(Option<Seq<UpdateModel>>),
}

impl View for BackgroundUpdate {
    type V = NewsModel;

    open spec fn view(&self) -> NewsModel {
        match *self {
            BackgroundUpdate::Live(Ok(updates)) => NewsModel::Live(Some(views(updates@))),
            BackgroundUpdate::Live(Err(_)) => NewsModel::Live(None),
            BackgroundUpdate::Schedules(Ok(updates)) => NewsModel::Schedules(
                Some(views(updates@)),
            ),
            BackgroundUpdate::Schedules(Err(_)) => NewsModel::Schedules(None),
            BackgroundUpdate::Mixtapes(Ok(updates)) => NewsModel::Mixtapes(Some(views(updates@))),
            BackgroundUpdate::Mixtapes(Err(_)) => NewsModel::Mixtapes(None),
        }
    }
}

/// What is to be done now.
#[derive(Clone, Copy, Debug, PartialEq, Eq, Structural)]
pub struct Due {
    pub live: bool,
    pub schedules: bool,
    pub mixtapes: bool,
    pub probe: bool,
}

/// What is waited for, and when things are to be done. Times are nanoseconds since the start.
#[derive(Clone, Copy, Debug, PartialEq, Eq, Structural)]
pub struct Session {
    /// Whether the screen is to be drawn.
    pub dirty: bool,
    pub title_frame: usize,
    /// Whether the terminal's title is to be set.
    pub title_dirty: bool,
    pub next_title_tick: u64,
    pub refresh_in_flight: bool,
    pub next_refresh: u64,
    pub schedule_in_flight: bool,
    pub next_schedule_refresh: u64,
    pub mixtape_in_flight: bool,
    pub next_mixtape_refresh: u64,
    pub next_player_probe: u64,
}

/// Whether `key` is a direction key.
pub open spec fn steps(key: Key) -> bool {
    match key {
        Key::Up | Key::Down | Key::Left | Key::Right => true,
        Key::Char(c) => c == 'h' || c == 'j' || c == 'k' || c == 'l',
        _ => false,
    }
}

/// Whether `key` is one that plays.
pub open spec fn plays(key: Key) -> bool {
    key == Key::Enter || key == Key::Char(' ')
}

impl AppModel {
    /// The state after a key.
    pub open spec fn press(self, key: Key) -> AppModel {
        match key {
            Key::Esc => if self.visualizer is Some {
                AppModel { visualizer: None, ..self }
            } else {
                self.dismiss_overlay()
            },
            Key::Up | Key::Left => self.navigate(-1),
            Key::Down | Key::Right => self.navigate(1),
            Key::Enter => self.press_play(),
            Key::Char(c) => if c == '1' {
                self.change_station(0)
            } else if c == '2' {
                self.change_station(1)
            } else if c == 'e' || c == 'E' {
                self.toggle_explore()
            } else if c == 'v' || c == 'V' {
                self.toggle_visualizer()
            } else if c == 'k' || c == 'h' {
                self.navigate(-1)
            } else if c == 'j' || c == 'l' {
                self.navigate(1)
            } else if c == ' ' {
                self.press_play()
            } else if c == 's' || c == 'S' {
                self.press_schedule()
            } else {
                self
            },
            Key::Other => self,
        }
    }

    /// The state after the key that plays.
    pub open spec fn press_play(self) -> AppModel {
        if self.screen == Screen::Explore {
            self.listen_to_explore()
        } else {
            self.toggle_playback()
        }
    }

    /// The state after the key for the schedule.
    pub open spec fn press_schedule(self) -> AppModel {
        if self.screen == Screen::Explore {
            AppModel { error: Some("Choose a live channel to see its schedule."@), ..self }
        } else {
            self.toggle_schedule()
        }
    }

    /// What a key does.
    pub open spec fn verdict(self, key: Key) -> KeyVerdict {
        match key {
            Key::Esc => if self.visualizer is Some || self.screen != Screen::Listen {
                KeyVerdict::Stay(true)
            } else {
                KeyVerdict::Quit
            },
            Key::Up | Key::Left | Key::Down | Key::Right => KeyVerdict::Stay(self.navigates()),
            Key::Enter => KeyVerdict::Stay(true),
            Key::Char(c) => if c == 'q' || c == 'Q' {
                KeyVerdict::Quit
            } else if c == '1' {
                KeyVerdict::Stay(self.may_change_to(0))
            } else if c == '2' {
                KeyVerdict::Stay(self.may_change_to(1))
            } else if c == 'k' || c == 'h' || c == 'j' || c == 'l' {
                KeyVerdict::Stay(self.navigates())
            } else {
                KeyVerdict::Stay(
                    c == 'e' || c == 'E' || c == 'v' || c == 'V' || c == ' ' || c == 's' || c
                        == 'S',
                )
            },
            Key::Other => KeyVerdict::Stay(false),
        }
    }

    /// Whether something covers the stations.
    pub open spec fn covered(self) -> bool {
        self.visualizer is Some || self.screen != Screen::Listen
    }

    /// The state after news from the network.
    pub open spec fn with_news(self, news: NewsModel) -> AppModel {
        match news {
            NewsModel::Live(Some(updates)) => AppModel {
                connection_lost: false,
                ..self.with_updates(updates)
            },
            NewsModel::Live(None) => AppModel { connection_lost: true, ..self },
            NewsModel::Schedules(Some(updates)) => self.with_schedules(updates),
            NewsModel::Schedules(None) => self,
            NewsModel::Mixtapes(Some(updates)) => self.with_updates(updates),
            NewsModel::Mixtapes(None) => self,
        }
    }

    /// What news from the network change in the pictures that are kept.
    pub open spec fn news_changes(self, news: NewsModel) -> Seq<ChangeModel> {
        match news {
            NewsModel::Live(Some(updates)) => self.all_changes(updates),
            NewsModel::Mixtapes(Some(updates)) => self.all_changes(updates),
            _ => Seq::empty(),
        }
    }
}

impl App {
    /// Whether something covers the stations.
    pub fn has_overlay(&self) -> (r: bool)
        ensures
            r == self@.covered(),
    {
        self.visualizer.is_some() || self.screen != Screen::Listen
    }

    /// Whether `key` can be obeyed: what it needs the selected station for, or the mark in the
    /// Explore overlay, is there.
    pub open spec fn accepts(&self, key: Key) -> bool {
        &&& plays(key) ==> {
            &&& self.screen == Screen::Explore ==> self.explore_selected + 2 <= usize::MAX
            &&& !self.playing ==> self.selected < self.channels.len()
        }
        &&& (key == Key::Char('v') || key == Key::Char('V')) && self.visualizer is None
            && self.playing ==> self.selected < self.channels.len()
        &&& (key == Key::Char('s') || key == Key::Char('S')) && self.screen == Screen::Listen
            ==> self.selected < self.channels.len()
    }

    /// Obeys the key that plays.
    fn press_play(&mut self)
        requires
            old(self).pending is None,
            old(self).accepts(Key::Enter),
        ensures
            final(self)@ == old(self)@.press_play(),
            old(self)@.wf() ==> final(self)@.wf(),
            final(self).visualizer_runs_on(*old(self)),
    {
        if self.screen == Screen::Explore {
            self.listen_to_explore();
        } else {
            self.toggle_playback();
        }
    }

    /// Obeys a key.
    pub fn press(&mut self, key: Key) -> (r: KeyVerdict)
        requires
            old(self).pending is None,
            old(self).accepts(key),
        ensures
            final(self)@ == old(self)@.press(key),
            r == old(self)@.verdict(key),
            old(self)@.wf() ==> final(self)@.wf(),
            old(self).visualizer is Some ==> final(self).visualizer_runs_on(*old(self)),
            r != KeyVerdict::Stay(true) ==> *final(self) == *old(self),
    {
        match key {
            Key::Esc => {
                if self.close_visualizer() || self.dismiss_overlay() {
                    KeyVerdict::Stay(true)
                } else {
                    KeyVerdict::Quit
                }
            },
            Key::Up | Key::Left => KeyVerdict::Stay(self.navigate(-1)),
            Key::Down | Key::Right => KeyVerdict::Stay(self.navigate(1)),
            Key::Enter => {
                self.press_play();
                KeyVerdict::Stay(true)
            },
            Key::Char(c) => {
                if c == 'q' || c == 'Q' {
                    return KeyVerdict::Quit;
                }
                if c == '1' {
                    return KeyVerdict::Stay(self.change_station(0));
                }
                if c == '2' {
                    return KeyVerdict::Stay(self.change_station(1));
                }
                if c == 'k' || c == 'h' {
                    return KeyVerdict::Stay(self.navigate(-1));
                }
                if c == 'j' || c == 'l' {
                    return KeyVerdict::Stay(self.navigate(1));
                }
                if c == 'e' || c == 'E' {
                    self.toggle_explore();
                } else if c == 'v' || c == 'V' {
                    self.toggle_visualizer();
                } else if c == ' ' {
                    self.press_play();
                } else if c == 's' || c == 'S' {
                    if self.screen == Screen::Explore {
                        self.error = Some("Choose a live channel to see its schedule.".to_owned());
                    } else {
                        self.toggle_schedule();
                    }
                } else {
                    return KeyVerdict::Stay(false);
                }
                KeyVerdict::Stay(true)
            },
            Key::Other => KeyVerdict::Stay(false),
        }
    }
}

impl Session {
    /// The session at its start, at `now`, with `pause` until the next live request. The live
    /// channels and the mixtapes have just been asked for; the schedules are next.
    pub fn start(now: u64, pause: u64) -> (r: Session)
        requires
            now <= LAST_MOMENT,
            pause <= LIVE_REFRESH_INTERVAL,
        ensures
            r == (Session {
                dirty: true,
                title_frame: 0,
                title_dirty: true,
                next_title_tick: now,
                refresh_in_flight: true,
                next_refresh: (now + pause) as u64,
                schedule_in_flight: false,
                next_schedule_refresh: now,
                mixtape_in_flight: true,
                next_mixtape_refresh: (now + MIXTAPE_REFRESH_INTERVAL) as u64,
                next_player_probe: (now + FIRST_PROBE) as u64,
            }),
    {
        Session {
            dirty: true,
            title_frame: 0,
            title_dirty: true,
            next_title_tick: now,
            refresh_in_flight: true,
            next_refresh: now + pause,
            schedule_in_flight: false,
            next_schedule_refresh: now,
            mixtape_in_flight: true,
            next_mixtape_refresh: now + MIXTAPE_REFRESH_INTERVAL,
            next_player_probe: now + FIRST_PROBE,
        }
    }

    /// A media control was obeyed.
    pub fn media_handled(&mut self)
        ensures
            *final(self) == (Session { dirty: true, title_dirty: true, ..*old(self) }),
    {
        self.dirty = true;
        self.title_dirty = true;
    }

    /// Something on the screen may have changed.
    pub fn note_change(&mut self, changed: bool)
        ensures
            *final(self) == (Session { dirty: old(self).dirty || changed, ..*old(self) }),
    {
        if changed {
            self.dirty = true;
        }
    }

    /// Whether the terminal's title is to be set at `now`.
    pub open spec fn title_due(self, playing: bool, now: u64) -> bool {
        self.title_dirty || (playing && now >= self.next_title_tick)
    }

    /// The spinner's next picture: it only turns while something plays.
    pub open spec fn next_frame(self, playing: bool) -> int {
        if playing {
            (self.title_frame + 1) % SPINNER_LENGTH as int
        } else {
            0
        }
    }

    /// The spinner's picture to put in the terminal's title, if it is to be set at `now`.
    pub fn tick_title(&mut self, playing: bool, now: u64) -> (r: Option<usize>)
        requires
            now <= LAST_MOMENT,
            old(self).title_frame < usize::MAX,
        ensures
            old(self).title_due(playing, now) ==> {
                &&& r == Some(old(self).next_frame(playing) as usize)
                &&& old(self).next_frame(playing) < SPINNER_LENGTH
                &&& *final(self) == (Session {
                    title_frame: old(self).next_frame(playing) as usize,
                    title_dirty: false,
                    next_title_tick: (now + TITLE_INTERVAL) as u64,
                    ..*old(self)
                })
            },
            !old(self).title_due(playing, now) ==> r is None && *final(self) == *old(self),
    {
        if self.title_dirty || (playing && now >= self.next_title_tick) {
            self.title_frame =
            if playing {
                (self.title_frame + 1) % SPINNER_LENGTH
            } else {
                0
            };
            self.title_dirty = false;
            self.next_title_tick = now + TITLE_INTERVAL;
            Some(self.title_frame)
        } else {
            None
        }
    }

    /// The session after news from the network that came at `now`, with `pause` until the next
    /// live request. A feed that could not be read is asked again soon.
    pub open spec fn with_news(self, news: NewsModel, now: u64, pause: int) -> Session {
        match news {
            NewsModel::Live(Some(_)) => Session {
                refresh_in_flight: false,
                dirty: true,
                title_dirty: true,
                next_refresh: (now + pause) as u64,
                ..self
            },
            NewsModel::Live(None) => Session {
                refresh_in_flight: false,
                dirty: true,
                next_refresh: (now + NETWORK_RETRY_DELAY) as u64,
                ..self
            },
            NewsModel::Schedules(Some(_)) => Session {
                schedule_in_flight: false,
                dirty: true,
                ..self
            },
            NewsModel::Schedules(None) => Session {
                schedule_in_flight: false,
                next_schedule_refresh: (now + NETWORK_RETRY_DELAY) as u64,
                ..self
            },
            NewsModel::Mixtapes(Some(_)) => Session {
                mixtape_in_flight: false,
                dirty: true,
                next_mixtape_refresh: (now + MIXTAPE_REFRESH_INTERVAL) as u64,
                ..self
            },
            NewsModel::Mixtapes(None) => Session {
                mixtape_in_flight: false,
                next_mixtape_refresh: (now + NETWORK_RETRY_DELAY) as u64,
                ..self
            },
        }
    }

    /// Takes news from the network that came at `now`, when the clock showed `current_time`.
    /// Returned is what becomes of the pictures.
    pub fn take_news(
        &mut self,
        app: &mut App,
        news: BackgroundUpdate,
        now: u64,
        current_time: Timestamp,
    ) -> (r: Vec<ArtworkChange>)
        requires
            now <= LAST_MOMENT,
            current_time.valid(),
        ensures
            final(app)@ == old(app)@.with_news(news@),
            *final(self) == old(self).with_news(
                news@,
                now,
                final(app)@.refresh_delay(current_time),
            ),
            views(r@) == old(app)@.news_changes(news@),
            old(app)@.wf() ==> final(app)@.wf(),
            *final(app) == (App {
                channels: final(app).channels,
                connection_lost: final(app).connection_lost,
                ..*old(app)
            }),
    {
        match news {
            BackgroundUpdate::Live(result) => {
                self.refresh_in_flight = false;
                self.dirty = true;
                match result {
                    Ok(updates) => {
                        let changes = app.apply_channel_updates(updates);
                        app.connection_lost = false;
                        self.title_dirty = true;
                        self.next_refresh = now + app.next_refresh_delay_at(current_time);
                        changes
                    },
                    Err(_) => {
                        app.connection_lost = true;
                        self.next_refresh = now + NETWORK_RETRY_DELAY;
                        no_changes()
                    },
                }
            },
            BackgroundUpdate::Schedules(result) => {
                self.schedule_in_flight = false;
                match result {
                    Ok(updates) => {
                        app.apply_schedule_updates(updates);
                        self.dirty = true;
                    },
                    Err(_) => {
                        self.next_schedule_refresh = now + NETWORK_RETRY_DELAY;
                    },
                }
                no_changes()
            },
            BackgroundUpdate::Mixtapes(result) => {
                self.mixtape_in_flight = false;
                match result {
                    Ok(updates) => {
                        let changes = app.apply_channel_updates(updates);
                        self.dirty = true;
                        self.next_mixtape_refresh = now + MIXTAPE_REFRESH_INTERVAL;
                        changes
                    },
                    Err(_) => {
                        self.next_mixtape_refresh = now + NETWORK_RETRY_DELAY;
                        no_changes()
                    },
                }
            },
        }
    }

    /// What is to be done at `now`: a feed is asked for when its time has come and no answer of it
    /// is awaited; the player is asked while something plays.
    pub open spec fn due_at(self, playing: bool, now: u64) -> Due {
        Due {
            live: !self.refresh_in_flight && now >= self.next_refresh,
            schedules: !self.schedule_in_flight && now >= self.next_schedule_refresh,
            mixtapes: !self.mixtape_in_flight && now >= self.next_mixtape_refresh,
            probe: playing && now >= self.next_player_probe,
        }
    }

    /// The session once `due` is being done.
    pub open spec fn started(self, due: Due, now: u64) -> Session {
        Session {
            refresh_in_flight: self.refresh_in_flight || due.live,
            next_refresh: if due.live {
                (now + LIVE_REFRESH_INTERVAL) as u64
            } else {
                self.next_refresh
            },
            schedule_in_flight: self.schedule_in_flight || due.schedules,
            next_schedule_refresh: if due.schedules {
                (now + SCHEDULE_REFRESH_INTERVAL) as u64
            } else {
                self.next_schedule_refresh
            },
            mixtape_in_flight: self.mixtape_in_flight || due.mixtapes,
            next_mixtape_refresh: if due.mixtapes {
                (now + MIXTAPE_REFRESH_INTERVAL) as u64
            } else {
                self.next_mixtape_refresh
            },
            next_player_probe: if due.probe {
                (now + PROBE_INTERVAL) as u64
            } else {
                self.next_player_probe
            },
            dirty: self.dirty || due.probe,
            title_dirty: self.title_dirty || due.probe,
            ..self
        }
    }

    /// What is to be done at `now`.
    pub fn take_due(&mut self, playing: bool, now: u64) -> (r: Due)
        requires
            now <= LAST_MOMENT,
        ensures
            r == old(self).due_at(playing, now),
            *final(self) == old(self).started(r, now),
    {
        let mut due = Due { live: false, schedules: false, mixtapes: false, probe: false };
        if !self.refresh_in_flight && now >= self.next_refresh {
            self.next_refresh = now + LIVE_REFRESH_INTERVAL;
            self.refresh_in_flight = true;
            due.live = true;
        }
        if !self.schedule_in_flight && now >= self.next_schedule_refresh {
            self.next_schedule_refresh = now + SCHEDULE_REFRESH_INTERVAL;
            self.schedule_in_flight = true;
            due.schedules = true;
        }
        if !self.mixtape_in_flight && now >= self.next_mixtape_refresh {
            self.next_mixtape_refresh = now + MIXTAPE_REFRESH_INTERVAL;
            self.mixtape_in_flight = true;
            due.mixtapes = true;
        }
        if playing && now >= self.next_player_probe {
            self.next_player_probe = now + PROBE_INTERVAL;
            self.dirty = true;
            self.title_dirty = true;
            due.probe = true;
        }
        due
    }

    /// Whether the screen is to be drawn; it is then taken to be drawn.
    pub fn take_dirty(&mut self) -> (r: bool)
        ensures
            r == old(self).dirty,
            *final(self) == (Session { dirty: false, ..*old(self) }),
    {
        let dirty = self.dirty;
        self.dirty = false;
        dirty
    }

    /// How long to wait for a key: until the next thing is to be done, but not long.
    pub open spec fn key_wait(self, playing: bool, visualizer: bool, now: u64) -> int {
        let a = KEY_WAIT as int;
        let b = if playing {
            least(a, minus(self.next_title_tick as int, now as int))
        } else {
            a
        };
        let c = if !self.refresh_in_flight {
            least(b, minus(self.next_refresh as int, now as int))
        } else {
            b
        };
        let d = if !self.schedule_in_flight {
            least(c, minus(self.next_schedule_refresh as int, now as int))
        } else {
            c
        };
        let e = if !self.mixtape_in_flight {
            least(d, minus(self.next_mixtape_refresh as int, now as int))
        } else {
            d
        };
        let f = if playing {
            least(e, minus(self.next_player_probe as int, now as int))
        } else {
            e
        };
        if visualizer {
            least(f, FRAME_WAIT as int)
        } else {
            f
        }
    }

    /// How long to wait for a key, in nanoseconds.
    pub fn poll_interval(&self, playing: bool, visualizer: bool, now: u64) -> (r: u64)
        ensures
            r == self.key_wait(playing, visualizer, now),
    {
        let mut wait: u64 = KEY_WAIT;
        if playing {
            wait = sooner(wait, self.next_title_tick, now);
        }
        if !self.refresh_in_flight {
            wait = sooner(wait, self.next_refresh, now);
        }
        if !self.schedule_in_flight {
            wait = sooner(wait, self.next_schedule_refresh, now);
        }
        if !self.mixtape_in_flight {
            wait = sooner(wait, self.next_mixtape_refresh, now);
        }
        if playing {
            wait = sooner(wait, self.next_player_probe, now);
        }
        if visualizer && wait > FRAME_WAIT {
            wait = FRAME_WAIT;
        }
        wait
    }

    /// Settles a key that was obeyed, once the player has done its part. `had_overlay` tells what
    /// covered the stations before, `changed` whether there is something new to draw. Returned is
    /// whether the terminal has to be cleared: a picture may show through where an overlay opens
    /// or closes.
    pub fn settle_key(&mut self, app: &App, had_overlay: bool, changed: bool) -> (r: bool)
        ensures
            r == (changed && had_overlay != app@.covered()),
            *final(self) == (Session {
                dirty: changed,
                title_dirty: old(self).title_dirty || changed,
                ..*old(self)
            }),
    {
        self.dirty = changed;
        self.title_dirty = self.title_dirty || changed;
        changed && had_overlay != app.has_overlay()
    }
}

/// No change to the pictures.
fn no_changes() -> (r: Vec<ArtworkChange>)
    ensures
        views(r@) == Seq::<ChangeModel>::empty(),
{
    let r: Vec<ArtworkChange> = Vec::new();
    assert(views(r@) =~= Seq::empty());
    r
}

/// `wait`, or the time from `now` to `moment` if that is shorter.
fn sooner(wait: u64, moment: u64, now: u64) -> (r: u64)
    ensures
        r == least(wait as int, minus(moment as int, now as int)),
{
    let rest = moment.saturating_sub(now);
    if rest < wait {
        rest
    } else {
        wait
    }
}

/// The program never waits long for a key, and least of all while the visualizer moves; and it
/// never waits past the moment at which something is to be done.
pub proof fn law_the_wait_is_short(s: Session, playing: bool, visualizer: bool, now: u64)
    ensures
        0 <= s.key_wait(playing, visualizer, now) <= KEY_WAIT,
        visualizer ==> s.key_wait(playing, visualizer, now) <= FRAME_WAIT,
        ({
            let wake = now + s.key_wait(playing, visualizer, now);
            &&& !s.refresh_in_flight && now <= s.next_refresh ==> wake <= s.next_refresh
            &&& !s.schedule_in_flight && now <= s.next_schedule_refresh ==> wake
                <= s.next_schedule_refresh
            &&& !s.mixtape_in_flight && now <= s.next_mixtape_refresh ==> wake
                <= s.next_mixtape_refresh
            &&& playing && now <= s.next_title_tick ==> wake <= s.next_title_tick
            &&& playing && now <= s.next_player_probe ==> wake <= s.next_player_probe
        }),
{
}

/// Before the end of the wait nothing is to be done.
pub proof fn law_nothing_is_missed(
    s: Session,
    playing: bool,
    visualizer: bool,
    now: u64,
    moment: u64,
)
    requires
        now <= moment < now + s.key_wait(playing, visualizer, now),
    ensures
        s.due_at(playing, moment) == (Due {
            live: false,
            schedules: false,
            mixtapes: false,
            probe: false,
        }),
        !s.title_dirty ==> !s.title_due(playing, moment),
{
}

/// While the answer of a feed is awaited, that feed is not asked again.
pub proof fn law_no_feed_is_asked_twice(s: Session, playing: bool, now: u64, later: u64)
    ensures
        ({
            let due = s.due_at(playing, now);
            let after = s.started(due, now).due_at(playing, later);
            &&& due.live || s.refresh_in_flight ==> !after.live
            &&& due.schedules || s.schedule_in_flight ==> !after.schedules
            &&& due.mixtapes || s.mixtape_in_flight ==> !after.mixtapes
        }),
{
}

/// A feed that could not be read is asked again after the retry pause, and not before.
pub proof fn law_a_failed_feed_is_asked_again(
    s: Session,
    playing: bool,
    now: u64,
    pause: int,
    later: u64,
)
    requires
        now <= LAST_MOMENT,
    ensures
        s.with_news(NewsModel::Live(None), now, pause).due_at(playing, later).live == (later >= now
            + NETWORK_RETRY_DELAY),
        s.with_news(NewsModel::Schedules(None), now, pause).due_at(playing, later).schedules == (
        later >= now + NETWORK_RETRY_DELAY),
        s.with_news(NewsModel::Mixtapes(None), now, pause).due_at(playing, later).mixtapes == (later
            >= now + NETWORK_RETRY_DELAY),
{
}

/// After good news of the live channels they are asked for anew when the next show begins; after
/// good news of the mixtapes, those rest for their interval.
pub proof fn law_a_read_feed_rests(
    m: AppModel,
    s: Session,
    updates: Seq<UpdateModel>,
    playing: bool,
    now: u64,
    current_time: Timestamp,
    later: u64,
)
    requires
        now <= LAST_MOMENT,
    ensures
        ({
            let after = m.with_news(NewsModel::Live(Some(updates)));
            let pause = after.refresh_delay(current_time);
            s.with_news(NewsModel::Live(Some(updates)), now, pause).due_at(playing, later).live == (
            later >= now + pause)
        }),
        s.with_news(NewsModel::Mixtapes(Some(updates)), now, 0).due_at(playing, later).mixtapes == (
        later >= now + MIXTAPE_REFRESH_INTERVAL),
{
    let after = m.with_news(NewsModel::Live(Some(updates)));
    assert(after.refresh_delay(current_time) <= 60_000_000_000);
}

/// The listener is told of a lost connection from the first time that the live channels cannot be
/// read until they can be read again, and other news do not change that.
pub proof fn law_a_lost_connection_is_told(m: AppModel, news: NewsModel)
    ensures
        news == NewsModel::Live(None) ==> m.with_news(news).connection_lost,
        news matches NewsModel::Live(Some(_)) ==> !m.with_news(news).connection_lost,
        news !is Live ==> m.with_news(news).connection_lost == m.connection_lost,
{
    match news {
        NewsModel::Schedules(Some(updates)) => {
            crate::updates::law_schedule_news_keep_what_is_steered(m, updates);
        },
        NewsModel::Mixtapes(Some(updates)) => {
            crate::updates::law_channel_news_keep_what_is_steered(m, updates);
        },
        _ => {},
    }
}

/// What news of the network do: a feed that answers is no longer awaited; one that could not be read
/// is asked again fifteen seconds later, and the stations stay as they were; news of the live
/// channels tell whether the connection is lost, and the others do not.
pub proof fn law_news_are_taken(
    session: &mut Session,
    app: &mut App,
    news: BackgroundUpdate,
    now: u64,
    current_time: Timestamp,
    r: Vec<ArtworkChange>,
)
    requires
        call_ensures(Session::take_news, (session, app, news, now, current_time), r),
        now <= LAST_MOMENT,
    ensures
        match news {
            BackgroundUpdate::Live(result) => {
                &&& !final(session).refresh_in_flight
                &&& final(session).schedule_in_flight == old(session).schedule_in_flight
                &&& final(session).mixtape_in_flight == old(session).mixtape_in_flight
                &&& final(app).connection_lost == (result is Err)
                &&& final(session).dirty
                &&& result is Ok ==> final(session).title_dirty
                &&& result is Err ==> final(session).next_refresh == now + 15_000_000_000
                &&& result is Ok ==> follows_the_handover(
                    final(session).next_refresh - now,
                    final(app).channels@,
                    current_time,
                )
            },
            BackgroundUpdate::Schedules(result) => {
                &&& !final(session).schedule_in_flight
                &&& final(session).refresh_in_flight == old(session).refresh_in_flight
                &&& final(session).mixtape_in_flight == old(session).mixtape_in_flight
                &&& final(app).connection_lost == old(app).connection_lost
                &&& result is Ok ==> final(session).dirty
                &&& result is Err ==> final(session).next_schedule_refresh == now + 15_000_000_000
                &&& result is Ok ==> final(session).next_schedule_refresh
                    == old(session).next_schedule_refresh
            },
            BackgroundUpdate::Mixtapes(result) => {
                &&& !final(session).mixtape_in_flight
                &&& final(session).refresh_in_flight == old(session).refresh_in_flight
                &&& final(session).schedule_in_flight == old(session).schedule_in_flight
                &&& final(app).connection_lost == old(app).connection_lost
                &&& result is Ok ==> final(session).dirty
                &&& result is Err ==> final(session).next_mixtape_refresh == now + 15_000_000_000
                &&& result is Ok ==> final(session).next_mixtape_refresh == now + 900_000_000_000
            },
        },
        match news {
            BackgroundUpdate::Live(result) => result is Err,
            BackgroundUpdate::Schedules(result) => result is Err,
            BackgroundUpdate::Mixtapes(result) => result is Err,
        } ==> r@.len() == 0 && views(final(app).channels@) == views(old(app).channels@),
{
    law_a_lost_connection_is_told(old(app)@, news@);
    lemma_follows(*final(app), current_time);
    assert(views(r@).len() == r@.len());
    assert(old(app)@.channels == views(old(app).channels@));
    assert(final(app)@.channels == views(final(app).channels@));
}

/// A handover that the news tell of is followed: after good news of the live channels, where the
/// last ones of a station name an end that is not past, the live channels are asked for again at
/// most a second after that end, or after the shortest pause of five seconds.
pub proof fn law_an_end_that_is_told_is_followed(
    session: &mut Session,
    app: &mut App,
    updates: Vec<ChannelUpdate>,
    now: u64,
    current_time: Timestamp,
    r: Vec<ArtworkChange>,
    i: int,
    written: String,
    end: Timestamp,
)
    requires
        call_ensures(
            Session::take_news,
            (session, app, BackgroundUpdate::Live(Ok(updates)), now, current_time),
            r,
        ),
        now <= LAST_MOMENT,
        0 <= i < updates@.len(),
        updates@[i].index < old(app).channels@.len(),
        forall|j: int|
            i < j < updates@.len() ==> (#[trigger] updates@[j]).index != updates@[i].index,
        updates@[i].ends_at == Some(written),
        instant_of(written@) == Some(end),
        end.nanos_since(current_time) >= 0,
    ensures
        final(session).next_refresh <= now + end.nanos_since(current_time) + 1_000_000_000
            || final(session).next_refresh == now + 5_000_000_000,
{
    law_news_are_taken(
        session,
        app,
        BackgroundUpdate::Live(Ok(updates)),
        now,
        current_time,
        r,
    );
    let station = updates@[i].index as int;
    let before = *old(app);
    let after = *final(app);
    let told = App { connection_lost: before.connection_lost, ..after };
    crate::updates::law_channel_news_keep_what_is_steered(before@, views(updates@));
    crate::updates::lemma_as_told(before, told, updates@, station);
    assert(crate::updates::is_as_told(told.channels@[station], updates@[i]));
    let wait = end.nanos_since(current_time);
    assert(opt_view(after.channels@[station].ends_at) == Some(written@));
    assert(ends_after(after.channels@[station], current_time, wait));
}

/// The key that quits always quits; escape does so only where it has nothing to close.
pub proof fn law_escape_closes_before_it_quits(m: AppModel)
    ensures
        m.verdict(Key::Char('q')) == KeyVerdict::Quit,
        m.verdict(Key::Char('Q')) == KeyVerdict::Quit,
        m.verdict(Key::Esc) == KeyVerdict::Quit <==> !m.covered(),
        m.visualizer is Some ==> m.press(Key::Esc).visualizer is None && m.press(Key::Esc).screen
            == m.screen,
        m.visualizer is None ==> !m.press(Key::Esc).covered(),
        m.press(Key::Esc).selected == m.selected,
        m.press(Key::Esc).playing == m.playing,
{
}

} // verus!
