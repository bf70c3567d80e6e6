//! What holds of the program as a whole, whatever happens to it and in whatever order.
use crate::app::{fresh, AppModel, Screen, Trouble, WorkModel};
use crate::catalog::{catalog, ChannelKind};
use crate::now_playing::MediaCommand;
use crate::session::{plays, steps, Key, NewsModel};
use crate::updates::{
    law_channel_news_keep_what_is_steered, law_schedule_news_keep_what_is_steered,
    law_text_terminals_get_no_pictures,
};
use vstd::prelude::*;

verus! {

/// Something that can happen to the program.
pub enum Happening {
    /// A key was pressed.
    Pressed(Key),
    /// A media control was used.
    Commanded(MediaCommand),
    /// News came from the network.
    Heard(NewsModel),
    /// It is time to ask the player whether it is buffering.
    ProbeDue,
    /// There is someone to encode pictures.
    EncoderReady,
    /// The player was stopped.
    Stopped,
    /// The player was started, or was not.
    Started(Result<(), Seq<char>>),
    /// The player changed its station, or did not.
    Tuned(Result<(), Seq<char>>),
    /// The player told whether it is buffering, or did not.
    Probed(Result<bool, Seq<char>>),
    /// The player was started anew, or was not.
    Restarted(Result<(), Seq<char>>),
    /// The program ends.
    Ended,
}

impl AppModel {
    /// Whether `h` can happen: the work on the player comes before everything else.
    pub open spec fn admits(self, h: Happening) -> bool {
        match h {
            Happening::Stopped => self.pending matches Some(WorkModel::Stop),
            Happening::Started(_) => self.pending matches Some(WorkModel::Start { .. }),
            Happening::Tuned(_) => self.pending matches Some(WorkModel::Tune { .. }),
            Happening::Probed(_) => self.pending matches Some(WorkModel::Probe),
            Happening::Restarted(_) => self.pending matches Some(WorkModel::Restart { .. }),
            _ => self.pending is None,
        }
    }

    /// The state after `h`.
    pub open spec fn after(self, h: Happening) -> AppModel {
        match h {
            Happening::Pressed(key) => self.press(key),
            Happening::Commanded(command) => self.handle_media_command(command),
            Happening::Heard(news) => self.with_news(news),
            Happening::ProbeDue => self.poll_player(),
            Happening::EncoderReady => AppModel { encoder: true, ..self },
            Happening::Stopped => self.finish_stop(),
            Happening::Started(outcome) => self.finish_start(outcome),
            Happening::Tuned(outcome) => self.finish_tune(outcome),
            Happening::Probed(outcome) => self.finish_probe(outcome),
            Happening::Restarted(outcome) => self.finish_restart(outcome),
            Happening::Ended => self.stop_player(),
        }
    }

    /// Whether `history` can happen, one thing after the other.
    pub open spec fn admits_all(self, history: Seq<Happening>) -> bool
        decreases history.len(),
    {
        history.len() == 0 || {
            &&& self.admits_all(history.drop_last())
            &&& self.after_all(history.drop_last()).admits(history.last())
        }
    }

    /// The state after `history`.
    pub open spec fn after_all(self, history: Seq<Happening>) -> AppModel
        decreases history.len(),
    {
        if history.len() == 0 {
            self
        } else {
            self.after_all(history.drop_last()).after(history.last())
        }
    }

    /// Whether the stations are those of the catalog, whatever they play: two live ones, then the
    /// mixtapes.
    pub open spec fn has_the_catalog(self) -> bool {
        &&& self.channels.len() == catalog().len()
        &&& forall|i: int|
            0 <= i < catalog().len() ==> {
                &&& (#[trigger] self.channels[i]).number == catalog()[i].number
                &&& self.channels[i].name == catalog()[i].name
                &&& self.channels[i].kind == catalog()[i].kind
            }
    }

    /// Whether no station has a picture where the terminal shows none.
    pub open spec fn pictures_are_wanted(self) -> bool {
        !self.supports_artwork ==> forall|i: int|
            0 <= i < self.channels.len() ==> !(#[trigger] self.channels[i]).artwork
    }

    /// What holds of every state that the program can come to.
    pub open spec fn sound(self) -> bool {
        &&& self.wf()
        &&& self.schedule_is_live()
        &&& self.has_the_catalog()
        &&& self.pictures_are_wanted()
    }
}

/// News from the network keep the state sound.
proof fn lemma_news_keep_the_state_sound(m: AppModel, news: NewsModel)
    requires
        m.sound(),
        m.pending is None,
    ensures
        m.with_news(news).sound(),
{
    match news {
        NewsModel::Live(Some(updates)) => {
            law_channel_news_keep_what_is_steered(m, updates);
            if !m.supports_artwork {
                law_text_terminals_get_no_pictures(m, updates);
            }
        },
        NewsModel::Mixtapes(Some(updates)) => {
            law_channel_news_keep_what_is_steered(m, updates);
            if !m.supports_artwork {
                law_text_terminals_get_no_pictures(m, updates);
            }
        },
        NewsModel::Schedules(Some(updates)) => {
            law_schedule_news_keep_what_is_steered(m, updates);
            assert forall|i: int| 0 <= i < m.channels.len() implies m.with_schedules(
                updates,
            ).channels[i].artwork == (#[trigger] m.channels[i]).artwork by {
                crate::updates::law_schedule_news_change_only_schedules(m, updates, i);
            }
        },
        _ => {},
    }
}

impl AppModel {
    /// Whether `other` has the same stations, and as many pictures can be shown.
    spec fn same_stations(self, other: AppModel) -> bool {
        other.channels == self.channels && other.supports_artwork == self.supports_artwork
    }
}

/// Keys do not change what is told of the stations.
proof fn lemma_stations_stay_after_a_key(m: AppModel, key: Key)
    ensures
        m.same_stations(m.press(key)),
{
    assert(m.same_stations(m.navigate(1)));
    assert(m.same_stations(m.navigate(-1)));
    assert(m.same_stations(m.change_station(0)));
    assert(m.same_stations(m.change_station(1)));
    assert(m.same_stations(m.toggle_explore()));
    assert(m.same_stations(m.toggle_visualizer()));
    assert(m.same_stations(m.dismiss_overlay()));
    assert(m.same_stations(m.press_play()));
    assert(m.same_stations(m.press_schedule()));
}

/// Only news from the network change what is told of the stations.
proof fn lemma_stations_stay(m: AppModel, h: Happening)
    requires
        h !is Heard,
    ensures
        m.same_stations(m.after(h)),
{
    match h {
        Happening::Pressed(key) => lemma_stations_stay_after_a_key(m, key),
        Happening::Commanded(command) => {
            assert(m.same_stations(m.change_station(m.next_index())));
            assert(m.same_stations(m.change_station(m.previous_index())));
        },
        _ => {},
    }
}

/// Whatever happens but news keeps what holds at all times.
proof fn lemma_wf_stays(m: AppModel, h: Happening)
    requires
        h !is Heard,
        m.wf(),
        m.admits(h),
    ensures
        m.after(h).wf(),
{
    match h {
        Happening::Pressed(key) => lemma_wf_stays_after_a_key(m, key),
        Happening::Commanded(command) => {
            assert(m.select_channel(m.next_index()).wf());
            assert(m.select_channel(m.previous_index()).wf());
        },
        _ => {},
    }
}

/// A key keeps what holds at all times.
proof fn lemma_wf_stays_after_a_key(m: AppModel, key: Key)
    requires
        m.wf(),
        m.pending is None,
    ensures
        m.press(key).wf(),
{
    assert(m.navigate(1).wf());
    assert(m.navigate(-1).wf());
    assert(m.change_station(0).wf());
    assert(m.change_station(1).wf());
    assert(m.toggle_explore().wf());
    assert(m.choose_explore().wf());
    assert(m.press_play().wf());
}

/// Whatever happens but news keeps the schedule to live channels.
proof fn lemma_schedule_stays_live(m: AppModel, h: Happening)
    requires
        h !is Heard,
        m.schedule_is_live(),
    ensures
        m.after(h).schedule_is_live(),
{
    if m.screen == Screen::Schedule {
        law_the_schedule_blocks_every_station_change(m, 0, 0, h);
        lemma_stations_stay(m, h);
    } else {
        lemma_schedule_opens_on_live_channels(m, h);
    }
}

/// Where the schedule is opened, the station is a live one.
proof fn lemma_schedule_opens_on_live_channels(m: AppModel, h: Happening)
    requires
        h !is Heard,
        m.screen != Screen::Schedule,
    ensures
        m.after(h).schedule_is_live(),
{
    assert(m.after(h).screen == Screen::Schedule ==> h is Pressed);
    if let Happening::Pressed(key) = h {
        assert(m.navigate(1).screen != Screen::Schedule);
        assert(m.navigate(-1).screen != Screen::Schedule);
        assert(m.press_play().screen != Screen::Schedule);
        assert(m.press_schedule().schedule_is_live());
    }
}

/// Whatever happens keeps the state sound.
pub proof fn law_the_state_stays_sound(m: AppModel, h: Happening)
    requires
        m.sound(),
        m.admits(h),
    ensures
        m.after(h).sound(),
{
    if let Happening::Heard(news) = h {
        lemma_news_keep_the_state_sound(m, news);
    } else {
        lemma_stations_stay(m, h);
        lemma_wf_stays(m, h);
        lemma_schedule_stays_live(m, h);
    }
}

/// Every state that the program can come to is sound: a station is selected, the schedule is only
/// open on a live one, there is a player exactly while something plays, the visualizer is only
/// open while something plays, the stations are those of the catalog, and a terminal without
/// pictures has none.
pub proof fn law_every_state_is_sound(supports_artwork: bool, history: Seq<Happening>)
    requires
        fresh(supports_artwork).admits_all(history),
    ensures
        fresh(supports_artwork).after_all(history).sound(),
    decreases history.len(),
{
    if history.len() > 0 {
        law_every_state_is_sound(supports_artwork, history.drop_last());
        law_the_state_stays_sound(
            fresh(supports_artwork).after_all(history.drop_last()),
            history.last(),
        );
    }
}

/// Whether `h` can be the listener's own choice of a station.
pub open spec fn picks_a_station(h: Happening) -> bool {
    match h {
        Happening::Pressed(key) => steps(key) || plays(key) || key == Key::Char('1') || key
            == Key::Char('2'),
        Happening::Commanded(command) => command == MediaCommand::NextStation || command
            == MediaCommand::PreviousStation,
        _ => false,
    }
}

/// Only the listener changes the station: no other key, no news and no trouble with the player
/// does.
pub proof fn law_only_the_listener_changes_the_station(m: AppModel, h: Happening)
    requires
        !picks_a_station(h),
    ensures
        m.after(h).selected == m.selected,
{
    if let Happening::Heard(news) = h {
        match news {
            NewsModel::Live(Some(updates)) => {
                law_channel_news_keep_what_is_steered(m, updates);
            },
            NewsModel::Mixtapes(Some(updates)) => {
                law_channel_news_keep_what_is_steered(m, updates);
            },
            NewsModel::Schedules(Some(updates)) => {
                law_schedule_news_keep_what_is_steered(m, updates);
            },
            _ => {},
        }
    }
}

/// While the schedule is open nothing changes the station: direction keys, direct shortcuts and
/// the media controls for the next and the previous station do nothing at all, and no other key
/// changes it either.
pub proof fn law_the_schedule_blocks_every_station_change(
    m: AppModel,
    direction: int,
    index: int,
    h: Happening,
)
    requires
        m.screen == Screen::Schedule,
    ensures
        m.navigate(direction) == m,
        !m.navigates(),
        m.change_station(index) == m,
        !m.may_change_to(index),
        m.handle_media_command(MediaCommand::NextStation) == m,
        m.handle_media_command(MediaCommand::PreviousStation) == m,
        m.after(h).selected == m.selected,
{
    if !picks_a_station(h) {
        law_only_the_listener_changes_the_station(m, h);
    }
}

/// The schedule opens on live channels only, and opening or closing it keeps the station and what
/// plays. On a mixtape the listener is told why it does not open.
pub proof fn law_the_schedule_is_for_live_channels(m: AppModel)
    requires
        m.screen != Screen::Schedule,
    ensures
        (m.toggle_schedule().screen == Screen::Schedule) == (m.station().kind == ChannelKind::Live),
        m.station().kind != ChannelKind::Live ==> m.toggle_schedule() == (AppModel {
            error: m.toggle_schedule().error,
            ..m
        }) && m.toggle_schedule().error is Some,
        m.station().kind == ChannelKind::Live ==> m.toggle_schedule().toggle_schedule() == (
        AppModel { screen: Screen::Listen, error: None, ..m }),
{
}

/// Opening, walking and closing the Explore overlay disturb nothing: the station stays, and what
/// plays goes on.
pub proof fn law_explore_disturbs_nothing(m: AppModel, direction: int)
    ensures
        m.toggle_explore() == (AppModel {
            explore_selected: m.toggle_explore().explore_selected,
            screen: m.toggle_explore().screen,
            error: None,
            ..m
        }),
        m.move_explore(direction) == (AppModel {
            explore_selected: m.move_explore(direction).explore_selected,
            ..m
        }),
        m.screen != Screen::Explore ==> {
            &&& m.toggle_explore().screen == Screen::Explore
            &&& m.toggle_explore().toggle_explore().screen == Screen::Listen
            &&& m.toggle_explore().toggle_explore().selected == m.selected
        },
{
}

/// The Explore overlay opens on the station that is selected, where that is a mixtape; to choose
/// it right away changes no station.
pub proof fn law_explore_opens_on_the_station(m: AppModel)
    requires
        m.wf(),
        m.screen != Screen::Explore,
        m.selected >= 2,
    ensures
        m.toggle_explore().explore_selected + 2 == m.selected,
        m.toggle_explore().choose_explore() == (AppModel {
            explore_selected: m.selected - 2,
            screen: Screen::Listen,
            error: None,
            ..m
        }),
{
}

/// The mark in the Explore overlay goes round: it always stands on a mixtape, as many places on as
/// it was moved, counted round; a move back undoes a move forth; and nothing else changes. Without
/// mixtapes nothing changes at all.
pub proof fn law_the_mark_goes_round(m: AppModel, direction: int)
    requires
        m.mixtapes() > 0 ==> 0 <= m.explore_selected < m.mixtapes(),
    ensures
        m.mixtapes() > 0 ==> {
            let moved = m.move_explore(direction);
            &&& 0 <= moved.explore_selected < m.mixtapes()
            &&& (moved.explore_selected - (m.explore_selected + direction)) % m.mixtapes() == 0
            &&& moved == (AppModel { explore_selected: moved.explore_selected, ..m })
            &&& moved.move_explore(-direction) == m
        },
        m.channels.len() <= 2 ==> m.move_explore(direction) == m,
{
    let size = m.mixtapes();
    if size > 0 {
        let moved = (m.explore_selected + direction) % size;
        vstd::arithmetic::div_mod::lemma_fundamental_div_mod(m.explore_selected + direction, size);
        let q = (m.explore_selected + direction) / size;
        assert(moved - (m.explore_selected + direction) == (-q) * size) by (nonlinear_arith)
            requires
                m.explore_selected + direction == size * q + moved,
        ;
        vstd::arithmetic::div_mod::lemma_fundamental_div_mod_converse(
            moved - (m.explore_selected + direction),
            size,
            -q,
            0,
        );
        assert(moved - direction == (-q) * size + m.explore_selected) by (nonlinear_arith)
            requires
                m.explore_selected + direction == size * q + moved,
        ;
        vstd::arithmetic::div_mod::lemma_fundamental_div_mod_converse(
            moved - direction,
            size,
            -q,
            m.explore_selected,
        );
        assert(m.move_explore(direction).move_explore(-direction) =~= m);
    }
}

/// To choose in the Explore overlay is to change to the marked mixtape, and to close the overlay.
pub proof fn law_a_chosen_mixtape_is_selected(m: AppModel)
    requires
        m.wf(),
        m.channels.len() > 2,
    ensures
        m.choose_explore().selected == m.explore_selected + 2,
        m.choose_explore().screen == Screen::Listen,
        m.listen_to_explore().selected == m.explore_selected + 2,
        m.has_the_catalog() ==> m.choose_explore().station().kind == ChannelKind::Mixtape,
{
}

/// While nothing plays, to select a station changes the selection and nothing else.
pub proof fn law_selecting_while_stopped_changes_only_the_selection(m: AppModel, index: int)
    requires
        !m.playing,
        0 <= index < m.channels.len(),
    ensures
        m.select_channel(index) == (AppModel { selected: index, ..m }),
{
}

/// While something plays, a change of station goes on playing: the player that runs is told the
/// new stream, and neither stopped nor started; the visualizer, if it is open, turns to the new
/// show.
pub proof fn law_a_station_change_keeps_playing(m: AppModel, index: int)
    requires
        m.wf(),
        m.playing,
        0 <= index < m.channels.len(),
        index != m.selected,
    ensures
        m.select_channel(index) == (AppModel {
            selected: index,
            pending: Some(WorkModel::Tune { stream: m.channels[index].stream }),
            ..m
        }),
        m.select_channel(index).finish_tune(Ok(())) == (AppModel {
            selected: index,
            buffering: true,
            error: None,
            pending: None,
            visualizer: match m.visualizer {
                Some(_) => Some(crate::visualizer::seeds_of(m.channels[index].show)),
                None => None,
            },
            ..m
        }),
{
}

/// To start and then to stop comes back to where it began, but for an old error.
pub proof fn law_start_and_stop_undo_each_other(m: AppModel)
    requires
        m.wf(),
        m.pending is None,
        !m.playing,
    ensures
        m.toggle_playback().pending == Some(WorkModel::Start { stream: m.station().stream }),
        m.toggle_playback().finish_start(Ok(())) == (AppModel {
            player: true,
            playing: true,
            buffering: true,
            error: None,
            ..m
        }),
        m.toggle_playback().finish_start(Ok(())).toggle_playback().pending == Some(
            WorkModel::Stop,
        ),
        m.toggle_playback().finish_start(Ok(())).toggle_playback().finish_stop() == (AppModel {
            error: None,
            ..m
        }),
{
}

/// A player that does not start leaves the state as it was, and the listener is told why.
pub proof fn law_a_failed_start_is_told(m: AppModel, error: Seq<char>)
    requires
        m.wf(),
        m.pending is None,
        !m.playing,
    ensures
        m.toggle_playback().finish_start(Err(error)) == (AppModel { error: Some(error), ..m }),
{
}

/// A player that fails is started anew once, with the stream of the selected station. If that
/// helps, playback goes on; if it does not, nothing plays, and the listener is told both reasons.
pub proof fn law_a_failed_player_is_started_once_more(
    m: AppModel,
    trouble: Trouble,
    error: Seq<char>,
    again: Seq<char>,
)
    requires
        m.wf(),
        m.playing,
    ensures
        m.finish_probe(Err(error)) == m.recovering(Trouble::Playback, error),
        m.finish_tune(Err(error)) == m.recovering(Trouble::StationChange, error),
        ({
            let down = m.recovering(trouble, error);
            &&& !down.playing && !down.player && down.visualizer is None
            &&& down.pending == Some(
                WorkModel::Restart { stream: m.station().stream, trouble, error },
            )
            &&& down.finish_restart(Ok(())).playing
            &&& down.finish_restart(Ok(())).buffering
            &&& down.finish_restart(Ok(())).pending is None
            &&& !down.finish_restart(Err(again)).playing
            &&& down.finish_restart(Err(again)).pending is None
            &&& down.finish_restart(Err(again)).error == Some(
                if trouble == Trouble::StationChange {
                    crate::app::station_change_failure(error, again)
                } else {
                    crate::app::playback_failure(error, again)
                },
            )
            &&& down.finish_restart(Err(again)).selected == m.selected
        }),
{
}

/// The work on the player comes to an end: what follows it is no work, or the one new start after
/// which there is none.
pub proof fn law_the_work_on_the_player_ends(m: AppModel, h: Happening)
    requires
        m.pending is Some,
        m.admits(h),
    ensures
        m.after(h).pending is None || m.after(h).pending matches Some(WorkModel::Restart { .. }),
        m.pending matches Some(WorkModel::Restart { .. }) ==> m.after(h).pending is None,
{
}

/// A player is only started where none runs, and only told something where one runs.
pub proof fn law_there_is_at_most_one_player(supports_artwork: bool, history: Seq<Happening>)
    requires
        fresh(supports_artwork).admits_all(history),
    ensures
        match fresh(supports_artwork).after_all(history).pending {
            Some(WorkModel::Start { .. }) => !fresh(supports_artwork).after_all(history).player,
            Some(WorkModel::Restart { .. }) => !fresh(supports_artwork).after_all(history).player,
            Some(WorkModel::Tune { .. }) => fresh(supports_artwork).after_all(history).player,
            Some(WorkModel::Probe) => fresh(supports_artwork).after_all(history).player,
            _ => true,
        },
{
    law_every_state_is_sound(supports_artwork, history);
}

/// The visualizer closes when playback ends, and cannot be opened while nothing plays; then the
/// listener is told why.
pub proof fn law_the_visualizer_needs_playback(m: AppModel)
    ensures
        m.stop_player().visualizer is None,
        m.visualizer is None && !m.playing ==> m.toggle_visualizer() == (AppModel {
            error: m.toggle_visualizer().error,
            ..m
        }) && m.toggle_visualizer().error is Some,
        m.visualizer is None && m.playing ==> m.toggle_visualizer().visualizer == Some(
            crate::visualizer::seeds_of(m.station().show),
        ) && m.toggle_visualizer().screen == Screen::Listen,
        m.visualizer is Some ==> m.toggle_visualizer().visualizer is None,
{
}

/// The stations at the ends of the list have none beyond them: the media controls and the
/// direction keys stop there.
pub proof fn law_the_list_of_stations_has_ends(m: AppModel)
    requires
        m.wf(),
    ensures
        0 <= m.previous_index() <= m.selected <= m.next_index() < m.channels.len(),
        m.selected == 0 ==> m.select_channel(m.previous_index()) == m,
        m.selected == m.channels.len() - 1 ==> m.select_channel(m.next_index()) == m,
{
}

/// The media control that plays never stops, and the one that stops never starts.
pub proof fn law_play_and_stop_are_no_toggles(m: AppModel)
    ensures
        m.playing ==> m.handle_media_command(MediaCommand::Play) == m,
        !m.playing ==> m.handle_media_command(MediaCommand::StopPlayback) == m,
        !m.playing ==> m.handle_media_command(MediaCommand::Play) == m.toggle_playback(),
        m.playing ==> !m.handle_media_command(MediaCommand::StopPlayback).playing,
{
}

} // verus!
