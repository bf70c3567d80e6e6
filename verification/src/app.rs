//! What the listener sees and steers: the stations, the selection, the player and the overlays.
use crate::catalog::{catalog, fallback_channels, Channel, ChannelKind, ChannelModel};
use crate::geometry::{least, min_usize, minus};
use crate::now_playing::MediaCommand;
use crate::player::PlayerError;
use crate::text::{opt_view, views};
use crate::visualizer::{seeds_of, LiveVisualizer};
use vstd::prelude::*;
use vstd::string::*;

verus! {

/// The active surface.
#[derive(Clone, Copy, Debug, PartialEq, Eq, Structural)]
pub enum Screen {
    Listen,
    Schedule,
    Explore,
}

/// What made a new start of the player necessary.
#[derive(Clone, Copy, Debug, PartialEq, Eq, Structural)]
pub enum Trouble {
    /// It would not change its station.
    StationChange,
    /// It would not tell its state.
    Playback,
}

/// Work on the player process that has to be done before anything else happens.
pub enum Work {
    /// End the process.
    Stop,
    /// Start a process that plays this stream.
    Start { stream: String },
    /// Make the process play this stream.
    Tune { stream: String },
    /// Ask the process whether it is buffering.
    Probe,
    /// End the process, where it still runs, and start another one that plays this stream.
    Restart { stream: String, trouble: Trouble, error: PlayerError },
}

/// The model of `Work`. An error is its message.
pub enum WorkModel {
    Stop,
    Start { stream: Seq<char> },
    Tune { stream: Seq<char> },
    Probe,
    Restart { stream: Seq<char>, trouble: Trouble, error: Seq<char> },
}

impl View for Work {
    type V = WorkModel;

    open spec fn view(&self) -> WorkModel {
        match *self {
            Work::Stop => WorkModel::Stop,
            Work::Start { stream } => WorkModel::Start { stream: stream@ },
            Work::Tune { stream } => WorkModel::Tune { stream: stream@ },
            Work::Probe => WorkModel::Probe,
            Work::Restart { stream, trouble, error } => WorkModel::Restart {
                stream: stream@,
                trouble,
                error: error@,
            },
        }
    }
}

/// The whole state.
pub struct App {
    pub channels: Vec<Channel>,
    pub selected: usize,
    pub explore_selected: usize,
    pub playing: bool,
    pub buffering: bool,
    /// Whether there is a player process.
    pub player: bool,
    /// Whether the terminal can show pictures.
    pub supports_artwork: bool,
    /// Whether there is someone to encode pictures.
    pub encoder: bool,
    pub visualizer: Option<LiveVisualizer>,
    pub screen: Screen,
    pub error: Option<String>,
    /// Whether the last attempt to hear of the live channels failed.
    pub connection_lost: bool,
    pub pending: Option<Work>,
}

/// The model of `App`.
#[verifier::ext_equal]
pub struct AppModel {
    pub channels: Seq<ChannelModel>,
    pub selected: int,
    pub explore_selected: int,
    pub playing: bool,
    pub buffering: bool,
    pub player: bool,
    pub supports_artwork: bool,
    pub encoder: bool,
    pub visualizer: Option<Seq<u32>>,
    pub screen: Screen,
    pub error: Option<Seq<char>>,
    pub connection_lost: bool,
    pub pending: Option<WorkModel>,
}

impl View for App {
    type V = AppModel;

    open spec fn view(&self) -> AppModel {
        AppModel {
            channels: views(self.channels@),
            selected: self.selected as int,
            explore_selected: self.explore_selected as int,
            playing: self.playing,
            buffering: self.buffering,
            player: self.player,
            supports_artwork: self.supports_artwork,
            encoder: self.encoder,
            visualizer: opt_view(self.visualizer),
            screen: self.screen,
            error: opt_view(self.error),
            connection_lost: self.connection_lost,
            pending: opt_view(self.pending),
        }
    }
}

/// The state at the start: every station as the catalog has it, the first one selected.
pub open spec fn fresh(supports_artwork: bool) -> AppModel {
    AppModel {
        channels: catalog(),
        selected: 0,
        explore_selected: 0,
        playing: false,
        buffering: false,
        player: false,
        supports_artwork,
        encoder: false,
        visualizer: None,
        screen: Screen::Listen,
        error: None,
        connection_lost: false,
        pending: None,
    }
}

impl AppModel {
    /// The selected station.
    pub open spec fn station(self) -> ChannelModel {
        self.channels[self.selected]
    }

    /// What holds of the state at all times: a station is selected; a mixtape is marked in the
    /// Explore overlay; there is a player exactly while something plays; it only buffers, and the
    /// visualizer is only open, while something plays; and the work that is left to do fits.
    pub open spec fn wf(self) -> bool {
        &&& 0 <= self.selected < self.channels.len()
        &&& 0 <= self.explore_selected
        &&& self.explore_selected == 0 || self.explore_selected + 2 < self.channels.len()
        &&& self.playing == self.player
        &&& self.buffering ==> self.playing
        &&& self.visualizer is Some ==> self.playing
        &&& match self.pending {
            None => true,
            Some(WorkModel::Stop) => !self.playing,
            Some(WorkModel::Start { .. }) => !self.playing,
            Some(WorkModel::Tune { .. }) => self.playing,
            Some(WorkModel::Probe) => self.playing,
            Some(WorkModel::Restart { .. }) => !self.playing,
        }
    }

    /// Whether the schedule, if it is open, is that of a live channel.
    pub open spec fn schedule_is_live(self) -> bool {
        self.screen == Screen::Schedule ==> self.station().kind == ChannelKind::Live
    }

    /// With nothing playing, and the visualizer closed.
    pub open spec fn halted(self) -> AppModel {
        AppModel { visualizer: None, player: false, playing: false, buffering: false, ..self }
    }

    /// With a player that has just been told what to play.
    pub open spec fn tuned_in(self, error: Option<Seq<char>>) -> AppModel {
        AppModel { player: true, playing: true, buffering: true, error, pending: None, ..self }
    }

    /// The state after playback was ended.
    pub open spec fn stop_player(self) -> AppModel {
        AppModel {
            pending: if self.player {
                Some(WorkModel::Stop)
            } else {
                self.pending
            },
            ..self.halted()
        }
    }

    /// The state after the key that starts and ends playback.
    pub open spec fn toggle_playback(self) -> AppModel {
        if self.playing {
            self.stop_player()
        } else {
            AppModel {
                pending: Some(WorkModel::Start { stream: self.station().stream }),
                ..self
            }
        }
    }

    /// The state with the visualizer, if it is open, turned to the show of the selected station.
    pub open spec fn restart_visualizer(self) -> AppModel {
        if self.visualizer is Some && self.playing {
            AppModel { visualizer: Some(seeds_of(self.station().show)), ..self }
        } else {
            self
        }
    }

    /// With the player given up, and a new one to be started in its place.
    pub open spec fn recovering(self, trouble: Trouble, error: Seq<char>) -> AppModel {
        AppModel {
            pending: Some(
                WorkModel::Restart { stream: self.station().stream, trouble, error },
            ),
            ..self.halted()
        }
    }

    /// The state after a station was selected. What plays is to change to it.
    pub open spec fn select_channel(self, index: int) -> AppModel {
        if index >= self.channels.len() || index == self.selected {
            self
        } else {
            let moved = AppModel { selected: index, ..self };
            if !moved.playing {
                moved.restart_visualizer()
            } else if moved.player {
                AppModel {
                    pending: Some(WorkModel::Tune { stream: moved.station().stream }),
                    ..moved
                }
            } else {
                moved.recovering(Trouble::StationChange, "player process disappeared"@)
            }
        }
    }

    /// The state after the key for the visualizer.
    pub open spec fn toggle_visualizer(self) -> AppModel {
        if self.visualizer is Some {
            AppModel { visualizer: None, error: None, ..self }
        } else if !self.playing {
            AppModel { error: Some("Start a station before opening the visualizer."@), ..self }
        } else {
            AppModel {
                screen: Screen::Listen,
                visualizer: Some(seeds_of(self.station().show)),
                error: None,
                ..self
            }
        }
    }

    /// Whether the station at `index` may be changed to.
    pub open spec fn may_change_to(self, index: int) -> bool {
        self.screen != Screen::Schedule && index < self.channels.len()
    }

    /// The state after a direct shortcut or a media control for a station.
    pub open spec fn change_station(self, index: int) -> AppModel {
        if self.may_change_to(index) {
            AppModel { screen: Screen::Listen, ..self }.select_channel(index)
        } else {
            self
        }
    }

    /// The station after the selected one; the last one has itself after it.
    pub open spec fn next_index(self) -> int {
        least(self.selected + 1, minus(self.channels.len() as int, 1))
    }

    /// The station before the selected one; the first one has itself before it.
    pub open spec fn previous_index(self) -> int {
        minus(self.selected, 1)
    }

    /// The state after a media control.
    pub open spec fn handle_media_command(self, command: MediaCommand) -> AppModel {
        match command {
            MediaCommand::TogglePlayback => self.toggle_playback(),
            MediaCommand::Play => if self.playing {
                self
            } else {
                self.toggle_playback()
            },
            MediaCommand::StopPlayback => if self.playing {
                self.stop_player()
            } else {
                self
            },
            MediaCommand::NextStation => self.change_station(self.next_index()),
            MediaCommand::PreviousStation => self.change_station(self.previous_index()),
        }
    }

    /// Whether a media control has nothing to do.
    pub open spec fn ignores(self, command: MediaCommand) -> bool {
        match command {
            MediaCommand::TogglePlayback => false,
            MediaCommand::Play => self.playing,
            MediaCommand::StopPlayback => !self.playing,
            MediaCommand::NextStation => !self.may_change_to(self.next_index()),
            MediaCommand::PreviousStation => !self.may_change_to(self.previous_index()),
        }
    }

    /// The state after the key for the schedule.
    pub open spec fn toggle_schedule(self) -> AppModel {
        if self.screen == Screen::Schedule {
            AppModel { screen: Screen::Listen, ..self }
        } else if self.station().kind == ChannelKind::Live {
            AppModel { screen: Screen::Schedule, error: None, ..self }
        } else {
            AppModel { error: Some("Schedules are available on NTS 1 and NTS 2."@), ..self }
        }
    }

    /// The state after the key for the Explore overlay.
    pub open spec fn toggle_explore(self) -> AppModel {
        if self.screen == Screen::Explore {
            AppModel { screen: Screen::Listen, error: None, ..self }
        } else {
            AppModel {
                explore_selected: least(
                    minus(self.selected, 2),
                    minus(self.channels.len() as int, 3),
                ),
                screen: Screen::Explore,
                error: None,
                ..self
            }
        }
    }

    /// How many mixtapes there are.
    pub open spec fn mixtapes(self) -> int {
        minus(self.channels.len() as int, 2)
    }

    /// The state after a step in the Explore overlay.
    pub open spec fn move_explore(self, direction: int) -> AppModel {
        if self.mixtapes() == 0 {
            self
        } else {
            AppModel {
                explore_selected: (self.explore_selected + direction) % self.mixtapes(),
                ..self
            }
        }
    }

    /// The state after the marked mixtape was chosen.
    pub open spec fn choose_explore(self) -> AppModel {
        AppModel {
            screen: Screen::Listen,
            ..self.select_channel(self.explore_selected + 2)
        }
    }

    /// The state after the marked mixtape was chosen to be heard.
    pub open spec fn listen_to_explore(self) -> AppModel {
        if self.playing {
            self.choose_explore()
        } else {
            self.choose_explore().toggle_playback()
        }
    }

    /// Whether directional input means something on the active surface.
    pub open spec fn navigates(self) -> bool {
        match self.screen {
            Screen::Listen => self.channels.len() > 0,
            Screen::Schedule => false,
            Screen::Explore => true,
        }
    }

    /// The state after a direction key.
    pub open spec fn navigate(self, direction: int) -> AppModel {
        match self.screen {
            Screen::Listen => if self.channels.len() == 0 {
                self
            } else if direction < 0 {
                self.select_channel(self.previous_index())
            } else {
                self.select_channel(self.next_index())
            },
            Screen::Schedule => self,
            Screen::Explore => self.move_explore(direction),
        }
    }

    /// The state after the overlay, if there is one, was closed.
    pub open spec fn dismiss_overlay(self) -> AppModel {
        if self.screen == Screen::Listen {
            self
        } else {
            AppModel { screen: Screen::Listen, error: None, ..self }
        }
    }

    /// The state when it is time to ask the player whether it is buffering.
    pub open spec fn poll_player(self) -> AppModel {
        if !self.playing {
            self
        } else if self.player {
            AppModel { pending: Some(WorkModel::Probe), ..self }
        } else {
            self.recovering(Trouble::Playback, "player process disappeared"@)
        }
    }

    /// After the player was stopped.
    pub open spec fn finish_stop(self) -> AppModel {
        AppModel { pending: None, ..self }
    }

    /// After a player was started, or was not for the reason given.
    pub open spec fn finish_start(self, outcome: Result<(), Seq<char>>) -> AppModel {
        match outcome {
            Ok(_) => self.tuned_in(None),
            Err(error) => AppModel { error: Some(error), pending: None, ..self },
        }
    }

    /// After the player changed its station, or did not for the reason given.
    pub open spec fn finish_tune(self, outcome: Result<(), Seq<char>>) -> AppModel {
        match outcome {
            Ok(_) => AppModel {
                error: None,
                buffering: true,
                pending: None,
                ..self
            }.restart_visualizer(),
            Err(error) => self.recovering(Trouble::StationChange, error),
        }
    }

    /// After the player told whether it is buffering, or did not for the reason given.
    pub open spec fn finish_probe(self, outcome: Result<bool, Seq<char>>) -> AppModel {
        match outcome {
            Ok(buffering) => AppModel { buffering, error: None, pending: None, ..self },
            Err(error) => self.recovering(Trouble::Playback, error),
        }
    }

    /// After a new player was started in place of one that failed, or was not.
    pub open spec fn finish_restart(self, outcome: Result<(), Seq<char>>) -> AppModel {
        match self.pending {
            Some(WorkModel::Restart { trouble, error, .. }) => match (trouble, outcome) {
                (Trouble::StationChange, Ok(_)) => self.tuned_in(None).restart_visualizer(),
                (Trouble::StationChange, Err(again)) => AppModel {
                    error: Some(station_change_failure(error, again)),
                    pending: None,
                    ..self
                }.restart_visualizer(),
                (Trouble::Playback, Ok(_)) => self.tuned_in(Some("Stream reconnected."@)),
                (Trouble::Playback, Err(again)) => AppModel {
                    error: Some(playback_failure(error, again)),
                    pending: None,
                    ..self
                },
            },
            _ => self,
        }
    }
}

/// The remainder of a number below zero, by that of the number above it.
proof fn lemma_round_down(n: int, size: int)
    requires
        n > 0,
        size > 0,
    ensures
        (-n) % size == (if n % size == 0 {
            0
        } else {
            size - n % size
        }),
{
    let back = n % size;
    let q = n / size;
    vstd::arithmetic::div_mod::lemma_fundamental_div_mod(n, size);
    vstd::arithmetic::div_mod::lemma_mod_bound(n, size);
    if back == 0 {
        assert(-n == (-q) * size + 0) by (nonlinear_arith)
            requires
                n == size * q + 0,
        ;
        vstd::arithmetic::div_mod::lemma_fundamental_div_mod_converse(-n, size, -q, 0);
    } else {
        assert(-n == (-q - 1) * size + (size - back)) by (nonlinear_arith)
            requires
                n == size * q + back,
        ;
        vstd::arithmetic::div_mod::lemma_fundamental_div_mod_converse(
            -n,
            size,
            -q - 1,
            size - back,
        );
    }
}

/// What the listener is told when a station change failed and the player could not be restarted.
pub open spec fn station_change_failure(error: Seq<char>, again: Seq<char>) -> Seq<char> {
    "Could not change station: "@ + error + "; restart failed: "@ + again
}

/// What the listener is told when the player failed and could not be restarted.
pub open spec fn playback_failure(error: Seq<char>, again: Seq<char>) -> Seq<char> {
    "Playback stopped: "@ + error + "; reconnect failed: "@ + again
}

/// The message of an outcome's error.
pub open spec fn outcome_model<T>(outcome: Result<T, PlayerError>) -> Result<T, Seq<char>> {
    match outcome {
        Ok(value) => Ok(value),
        Err(error) => Err(error@),
    }
}

impl App {
    /// Whether the visualizer, if it is open, is the one of the state `before`, which was opened at
    /// the same moment: it has not been opened anew.
    pub open spec fn visualizer_runs_on(self, before: App) -> bool {
        self.visualizer is Some ==> self.visualizer == before.visualizer
    }

    /// Whether the visualizer is open, and was opened for the show of the selected station.
    pub open spec fn shows_the_station(self) -> bool {
        self.visualizer matches Some(visualizer) && visualizer.opened_for(
            self.channels@[self.selected as int].show@,
        )
    }

    /// The state at the start.
    pub fn load(supports_artwork: bool) -> (r: Self)
        ensures
            r@ == fresh(supports_artwork),
            r@.wf(),
    {
        App {
            channels: fallback_channels(),
            selected: 0,
            explore_selected: 0,
            playing: false,
            buffering: false,
            player: false,
            supports_artwork,
            encoder: false,
            visualizer: None,
            screen: Screen::Listen,
            error: None,
            connection_lost: false,
            pending: None,
        }
    }

    /// Ends playback.
    pub fn stop_player(&mut self)
        requires
            old(self).pending is None,
        ensures
            final(self)@ == old(self)@.stop_player(),
            old(self)@.wf() ==> final(self)@.wf(),
            final(self).visualizer_runs_on(*old(self)),
    {
        self.visualizer = None;
        if self.player {
            self.player = false;
            self.pending = Some(Work::Stop);
        }
        self.playing = false;
        self.buffering = false;
    }

    /// Starts playback of the selected station, or ends it.
    pub fn toggle_playback(&mut self)
        requires
            old(self).pending is None,
            !old(self).playing ==> old(self).selected < old(self).channels.len(),
        ensures
            final(self)@ == old(self)@.toggle_playback(),
            old(self)@.wf() ==> final(self)@.wf(),
            final(self).visualizer_runs_on(*old(self)),
    {
        if self.playing {
            self.stop_player();
            return;
        }
        let stream = self.channels[self.selected].stream.clone();
        self.pending = Some(Work::Start { stream });
    }

    /// Starts playback of the first station.
    pub fn start_default_playback(&mut self)
        requires
            old(self).pending is None,
            old(self).selected == 0,
            !old(self).playing ==> old(self).channels.len() > 0,
        ensures
            final(self)@ == old(self)@.toggle_playback(),
            old(self)@.wf() ==> final(self)@.wf(),
            final(self).visualizer_runs_on(*old(self)),
    {
        self.toggle_playback();
    }

    /// Opens the visualizer anew, for the show that is on now.
    fn restart_visualizer(&mut self)
        requires
            old(self).visualizer is Some && old(self).playing ==> old(self).selected < old(
                self,
            ).channels.len(),
        ensures
            final(self)@ == old(self)@.restart_visualizer(),
            !old(self).playing ==> *final(self) == *old(self),
            old(self).playing && old(self).visualizer is Some ==> final(self).shows_the_station(),
            old(self).visualizer is None ==> *final(self) == *old(self),
            final(self).channels == old(self).channels && final(self).selected == old(self).selected,
    {
        if self.visualizer.is_none() || !self.playing {
            return;
        }
        let visualizer = LiveVisualizer::new(self.channels[self.selected].show.as_str());
        self.visualizer = Some(visualizer);
    }

    /// Gives up the player and asks for a new one.
    fn recover(&mut self, trouble: Trouble, error: PlayerError)
        requires
            old(self).selected < old(self).channels.len(),
        ensures
            final(self)@ == old(self)@.recovering(trouble, error@),
            final(self).visualizer_runs_on(*old(self)),
    {
        let stream = self.channels[self.selected].stream.clone();
        self.visualizer = None;
        self.player = false;
        self.playing = false;
        self.buffering = false;
        self.pending = Some(Work::Restart { stream, trouble, error });
    }

    /// Selects a station. What plays changes to it; that does not start the player anew.
    pub fn select_channel(&mut self, index: usize)
        requires
            old(self).pending is None,
        ensures
            final(self)@ == old(self)@.select_channel(index as int),
            old(self)@.wf() ==> final(self)@.wf(),
            final(self).visualizer_runs_on(*old(self)),
            index >= old(self).channels.len() || index == old(self).selected ==> *final(self) == *old(
                self,
            ),
    {
        if index >= self.channels.len() || index == self.selected {
            return;
        }
        self.selected = index;
        if !self.playing {
            self.restart_visualizer();
        } else if self.player {
            let stream = self.channels[index].stream.clone();
            self.pending = Some(Work::Tune { stream });
        } else {
            self.recover(Trouble::StationChange, PlayerError::Disappeared);
        }
    }

    /// Opens or closes the visualizer.
    pub fn toggle_visualizer(&mut self)
        requires
            old(self).visualizer is None && old(self).playing ==> old(self).selected < old(
                self,
            ).channels.len(),
        ensures
            final(self)@ == old(self)@.toggle_visualizer(),
            old(self)@.wf() ==> final(self)@.wf(),
            old(self).playing && old(self).visualizer is None ==> final(self).shows_the_station(),
    {
        if self.visualizer.is_some() {
            self.visualizer = None;
            self.error = None;
            return;
        }
        if !self.playing {
            self.error = Some("Start a station before opening the visualizer.".to_owned());
            return;
        }
        let visualizer = LiveVisualizer::new(self.channels[self.selected].show.as_str());
        self.screen = Screen::Listen;
        self.visualizer = Some(visualizer);
        self.error = None;
    }

    /// Whether the visualizer has to be drawn anew.
    pub fn poll_visualizer(&mut self) -> (r: bool)
        ensures
            *final(self) == *old(self),
            r == (old(self).visualizer is Some),
    {
        match &mut self.visualizer {
            Some(visualizer) => visualizer.poll(),
            None => false,
        }
    }

    /// Closes the visualizer; whether it was open.
    pub fn close_visualizer(&mut self) -> (r: bool)
        ensures
            final(self)@ == (AppModel { visualizer: None, ..old(self)@ }),
            r == (old(self).visualizer is Some),
            old(self)@.wf() ==> final(self)@.wf(),
            *final(self) == (App { visualizer: None, ..*old(self) }),
    {
        let open = self.visualizer.is_some();
        self.visualizer = None;
        open
    }

    /// Changes to a station by a direct shortcut or a media control. The schedule is left only on
    /// purpose, so it blocks this. Returned is whether the station was one to change to.
    pub fn change_station(&mut self, index: usize) -> (r: bool)
        requires
            old(self).pending is None,
        ensures
            final(self)@ == old(self)@.change_station(index as int),
            r == old(self)@.may_change_to(index as int),
            old(self)@.wf() ==> final(self)@.wf(),
            final(self).visualizer_runs_on(*old(self)),
            !r ==> *final(self) == *old(self),
    {
        if self.screen == Screen::Schedule || index >= self.channels.len() {
            return false;
        }
        self.screen = Screen::Listen;
        self.select_channel(index);
        true
    }

    /// The station after the selected one.
    fn next_station(&self) -> (r: usize)
        ensures
            r == self@.next_index(),
    {
        let last = self.channels.len().saturating_sub(1);
        if self.selected < last {
            self.selected + 1
        } else {
            last
        }
    }

    /// Obeys a media control.
    pub fn handle_media_command(&mut self, command: MediaCommand)
        requires
            old(self).pending is None,
            (command == MediaCommand::TogglePlayback || command == MediaCommand::Play) && !old(
                self,
            ).playing ==> old(self).selected < old(self).channels.len(),
        ensures
            final(self)@ == old(self)@.handle_media_command(command),
            old(self)@.wf() ==> final(self)@.wf(),
            final(self).visualizer_runs_on(*old(self)),
            old(self)@.ignores(command) ==> *final(self) == *old(self),
    {
        match command {
            MediaCommand::TogglePlayback => self.toggle_playback(),
            MediaCommand::Play => {
                if !self.playing {
                    self.toggle_playback();
                }
            },
            MediaCommand::StopPlayback => {
                if self.playing {
                    self.stop_player();
                }
            },
            MediaCommand::NextStation => {
                if self.screen != Screen::Schedule {
                    let next = self.next_station();
                    self.change_station(next);
                }
            },
            MediaCommand::PreviousStation => {
                if self.screen != Screen::Schedule {
                    let previous = self.selected.saturating_sub(1);
                    self.change_station(previous);
                }
            },
        }
    }

    /// Moves the mark in the Explore overlay, round and round.
    pub fn move_explore(&mut self, direction: isize)
        ensures
            final(self)@ == old(self)@.move_explore(direction as int),
            old(self)@.wf() ==> final(self)@.wf(),
            *final(self) == (App { explore_selected: final(self).explore_selected, ..*old(self) }),
    {
        let total = self.channels.len().saturating_sub(2);
        if total == 0 {
            return;
        }
        let size = total as i128;
        let target = self.explore_selected as i128 + direction as i128;
        let rest = if target >= 0 {
            target % size
        } else {
            let back = (-target) % size;
            if back == 0 {
                0
            } else {
                size - back
            }
        };
        proof {
            if target < 0 {
                lemma_round_down(-target as int, size as int);
            }
        }
        self.explore_selected = rest as usize;
    }

    /// Obeys a direction key. Returned is whether it means something on the active surface.
    pub fn navigate(&mut self, direction: isize) -> (r: bool)
        requires
            old(self).pending is None,
        ensures
            final(self)@ == old(self)@.navigate(direction as int),
            r == old(self)@.navigates(),
            old(self)@.wf() ==> final(self)@.wf(),
            final(self).visualizer_runs_on(*old(self)),
            !r ==> *final(self) == *old(self),
    {
        match self.screen {
            Screen::Listen => {
                if self.channels.len() == 0 {
                    return false;
                }
                let target = if direction < 0 {
                    self.selected.saturating_sub(1)
                } else {
                    self.next_station()
                };
                self.select_channel(target);
                true
            },
            Screen::Schedule => false,
            Screen::Explore => {
                self.move_explore(direction);
                true
            },
        }
    }

    /// Opens the schedule of a live channel, or closes it.
    pub fn toggle_schedule(&mut self)
        requires
            old(self).screen != Screen::Schedule ==> old(self).selected < old(
                self,
            ).channels.len(),
        ensures
            final(self)@ == old(self)@.toggle_schedule(),
            old(self)@.wf() ==> final(self)@.wf(),
            *final(self) == (App {
                screen: final(self).screen,
                error: final(self).error,
                ..*old(self)
            }),
    {
        if self.screen == Screen::Schedule {
            self.screen = Screen::Listen;
            return;
        }
        if self.channels[self.selected].kind == ChannelKind::Live {
            self.screen = Screen::Schedule;
            self.error = None;
        } else {
            self.error = Some("Schedules are available on NTS 1 and NTS 2.".to_owned());
        }
    }

    /// Opens the Explore overlay, or closes it.
    pub fn toggle_explore(&mut self)
        ensures
            final(self)@ == old(self)@.toggle_explore(),
            old(self)@.wf() ==> final(self)@.wf(),
            *final(self) == (App {
                explore_selected: final(self).explore_selected,
                screen: final(self).screen,
                error: None,
                ..*old(self)
            }),
    {
        if self.screen == Screen::Explore {
            self.screen = Screen::Listen;
            self.error = None;
            return;
        }
        self.explore_selected =
        min_usize(self.selected.saturating_sub(2), self.channels.len().saturating_sub(3));
        self.screen = Screen::Explore;
        self.error = None;
    }

    /// Changes to the marked mixtape, and closes the Explore overlay.
    pub fn choose_explore(&mut self)
        requires
            old(self).pending is None,
            old(self).explore_selected + 2 <= usize::MAX,
        ensures
            final(self)@ == old(self)@.choose_explore(),
            old(self)@.wf() ==> final(self)@.wf(),
            final(self).visualizer_runs_on(*old(self)),
    {
        self.select_channel(self.explore_selected + 2);
        self.screen = Screen::Listen;
    }

    /// Changes to the marked mixtape, and starts playback if nothing plays.
    pub fn listen_to_explore(&mut self)
        requires
            old(self).pending is None,
            old(self).explore_selected + 2 <= usize::MAX,
            !old(self).playing ==> old(self).selected < old(self).channels.len(),
        ensures
            final(self)@ == old(self)@.listen_to_explore(),
            old(self)@.wf() ==> final(self)@.wf(),
            final(self).visualizer_runs_on(*old(self)),
    {
        let was_playing = self.playing;
        self.choose_explore();
        if !was_playing {
            self.toggle_playback();
        }
    }

    /// Closes the overlay; whether there was one.
    pub fn dismiss_overlay(&mut self) -> (r: bool)
        ensures
            final(self)@ == old(self)@.dismiss_overlay(),
            r == (old(self).screen != Screen::Listen),
            old(self)@.wf() ==> final(self)@.wf(),
            *final(self) == (App {
                screen: Screen::Listen,
                error: final(self).error,
                ..*old(self)
            }),
            !r ==> *final(self) == *old(self),
    {
        if self.screen == Screen::Listen {
            return false;
        }
        self.screen = Screen::Listen;
        self.error = None;
        true
    }

    /// Has the player asked whether it is buffering, while something plays.
    pub fn poll_player(&mut self)
        requires
            old(self).pending is None,
            old(self).playing && !old(self).player ==> old(self).selected < old(
                self,
            ).channels.len(),
        ensures
            final(self)@ == old(self)@.poll_player(),
            old(self)@.wf() ==> final(self)@.wf(),
            final(self).visualizer_runs_on(*old(self)),
            !old(self).playing ==> *final(self) == *old(self),
    {
        if !self.playing {
            return;
        }
        if self.player {
            self.pending = Some(Work::Probe);
        } else {
            self.recover(Trouble::Playback, PlayerError::Disappeared);
        }
    }

    /// The player was stopped.
    pub fn finish_stop(&mut self)
        requires
            old(self).pending matches Some(Work::Stop),
        ensures
            final(self)@ == old(self)@.finish_stop(),
            old(self)@.wf() ==> final(self)@.wf(),
            *final(self) == (App { pending: None, ..*old(self) }),
    {
        self.pending = None;
    }

    /// Something plays from now on.
    fn tune_in(&mut self, error: Option<String>)
        ensures
            final(self)@ == old(self)@.tuned_in(opt_view(error)),
            final(self).channels == old(self).channels,
            final(self).visualizer == old(self).visualizer,
    {
        self.player = true;
        self.playing = true;
        self.buffering = true;
        self.error = error;
        self.pending = None;
    }

    /// The player was started, or was not.
    pub fn finish_start(&mut self, outcome: Result<(), PlayerError>)
        requires
            old(self).pending matches Some(Work::Start { .. }),
        ensures
            final(self)@ == old(self)@.finish_start(outcome_model(outcome)),
            old(self)@.wf() ==> final(self)@.wf(),
            final(self).visualizer_runs_on(*old(self)),
    {
        match outcome {
            Ok(_) => self.tune_in(None),
            Err(error) => {
                self.error = Some(error.message());
                self.pending = None;
            },
        }
    }

    /// The player changed its station, or did not.
    pub fn finish_tune(&mut self, outcome: Result<(), PlayerError>)
        requires
            old(self).pending matches Some(Work::Tune { .. }),
            old(self).selected < old(self).channels.len(),
        ensures
            final(self)@ == old(self)@.finish_tune(outcome_model(outcome)),
            old(self)@.wf() ==> final(self)@.wf(),
            outcome is Ok && old(self).playing && old(self).visualizer is Some
                ==> final(self).shows_the_station(),
    {
        match outcome {
            Ok(_) => {
                self.error = None;
                self.buffering = true;
                self.pending = None;
                self.restart_visualizer();
            },
            Err(error) => self.recover(Trouble::StationChange, error),
        }
    }

    /// The player told whether it is buffering, or did not.
    pub fn finish_probe(&mut self, outcome: Result<bool, PlayerError>)
        requires
            old(self).pending matches Some(Work::Probe),
            old(self).selected < old(self).channels.len(),
        ensures
            final(self)@ == old(self)@.finish_probe(outcome_model(outcome)),
            old(self)@.wf() ==> final(self)@.wf(),
            final(self).visualizer_runs_on(*old(self)),
    {
        match outcome {
            Ok(buffering) => {
                self.buffering = buffering;
                self.error = None;
                self.pending = None;
            },
            Err(error) => self.recover(Trouble::Playback, error),
        }
    }

    /// A new player was started in place of one that failed, or was not.
    pub fn finish_restart(&mut self, outcome: Result<(), PlayerError>)
        requires
            old(self).pending matches Some(Work::Restart { .. }),
            old(self).selected < old(self).channels.len(),
        ensures
            final(self)@ == old(self)@.finish_restart(outcome_model(outcome)),
            old(self)@.wf() ==> final(self)@.wf(),
    {
        let work = self.pending.take();
        if let Some(Work::Restart { trouble, error, .. }) = work {
            match (trouble, outcome) {
                (Trouble::StationChange, Ok(_)) => {
                    self.tune_in(None);
                    self.restart_visualizer();
                },
                (Trouble::StationChange, Err(again)) => {
                    let mut notice = "Could not change station: ".to_owned();
                    notice.append(error.message().as_str());
                    notice.append("; restart failed: ");
                    notice.append(again.message().as_str());
                    self.error = Some(notice);
                    self.restart_visualizer();
                },
                (Trouble::Playback, Ok(_)) => self.tune_in(Some("Stream reconnected.".to_owned())),
                (Trouble::Playback, Err(again)) => {
                    let mut notice = "Playback stopped: ".to_owned();
                    notice.append(error.message().as_str());
                    notice.append("; reconnect failed: ");
                    notice.append(again.message().as_str());
                    self.error = Some(notice);
                },
            }
        }
    }
}

} // verus!
