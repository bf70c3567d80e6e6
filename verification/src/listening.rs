//! What the listener's actions and the player's answers do, told by what is selected, heard and
//! shown.
use crate::app::{App, Screen, Trouble, Work};
use crate::catalog::{Channel, ChannelKind};
use crate::now_playing::{MediaCommand, NowPlayingInfo};
use crate::player::PlayerError;
use crate::session::{Due, Key, KeyVerdict, Session, LAST_MOMENT};
use crate::text::{opt_view, title_text, views};
use crate::visualizer::{moment_was_read, LiveVisualizer};
use vstd::prelude::*;

verus! {

/// The station that is selected.
pub open spec fn tuned(app: App) -> Channel {
    app.channels@[app.selected as int]
}

/// Whether a player has to be started that plays what the selected station streams.
pub open spec fn starts_the_station(app: App) -> bool {
    app.pending matches Some(Work::Start { stream }) && stream@ == tuned(app).stream@
}

/// Whether the player has to change to what the selected station streams.
pub open spec fn tunes_to_the_station(app: App) -> bool {
    app.pending matches Some(Work::Tune { stream }) && stream@ == tuned(app).stream@
}

/// Whether a new player has to be started, for the given reason, that plays what the selected
/// station streams.
pub open spec fn restarts_the_station(app: App, trouble: Trouble, error: Seq<char>) -> bool {
    app.pending matches Some(Work::Restart { stream, trouble: why, error: first }) && stream@
        == tuned(app).stream@ && why == trouble && first@ == error
}

/// Whether the player has to be ended.
pub open spec fn is_stopping(app: App) -> bool {
    app.pending matches Some(Work::Stop)
}

/// Whether nothing plays and nothing is left of what played.
pub open spec fn silent(app: App) -> bool {
    !app.playing && !app.player && !app.buffering && app.visualizer is None
}

/// Whether what is known of the stations is the same.
pub open spec fn same_stations(a: App, b: App) -> bool {
    views(a.channels@) == views(b.channels@)
}

/// Whether what is heard is the same: the same station, the same player, and nothing to be done
/// with it.
pub open spec fn same_sound(a: App, b: App) -> bool {
    &&& a.selected == b.selected
    &&& a.playing == b.playing
    &&& a.player == b.player
    &&& a.buffering == b.buffering
    &&& opt_view(a.pending) == opt_view(b.pending)
    &&& same_stations(a, b)
}

/// Whether `after` has the station at `index` selected in place of the one that `before` had, and
/// what plays goes on with it.
pub open spec fn goes_to(before: App, after: App, index: int) -> bool {
    &&& after.selected == index
    &&& after.playing == before.playing
    &&& same_stations(before, after)
    &&& index == before.selected ==> opt_view(after.pending) == opt_view(before.pending)
    &&& index != before.selected && before.playing ==> tunes_to_the_station(after)
    &&& index != before.selected && !before.playing ==> opt_view(after.pending) == opt_view(
        before.pending,
    )
}

/// To select a station is to go to it; one that does not exist changes nothing.
pub proof fn law_a_selected_station_is_gone_to(app: &mut App, index: usize)
    requires
        call_ensures(App::select_channel, (app, index), ()),
        old(app)@.wf(),
    ensures
        index < old(app).channels@.len() ==> goes_to(*old(app), *final(app), index as int),
        index >= old(app).channels@.len() ==> *final(app) == *old(app),
        final(app).screen == old(app).screen,
{
    assert(old(app)@.channels == views(old(app).channels@));
    assert(final(app)@.channels == views(final(app).channels@));
    lemma_same(*old(app), *final(app));
}

/// A direct shortcut goes to its station and shows it, but not while the schedule is open.
pub proof fn law_a_shortcut_goes_to_its_station(app: &mut App, index: usize, r: bool)
    requires
        call_ensures(App::change_station, (app, index), r),
        old(app)@.wf(),
    ensures
        r == (old(app).screen != Screen::Schedule && index < old(app).channels@.len()),
        r ==> goes_to(*old(app), *final(app), index as int) && final(app).screen == Screen::Listen,
        !r ==> *final(app) == *old(app),
{
    lemma_same(*old(app), *final(app));
}

/// The stations of two states whose models agree on them.
proof fn lemma_same(a: App, b: App)
    ensures
        a@.channels == views(a.channels@),
        b@.channels == views(b.channels@),
        a@.channels == b@.channels ==> same_stations(a, b) && a.channels@.len()
            == b.channels@.len(),
        forall|i: int|
            0 <= i < b.channels@.len() ==> #[trigger] b@.channels[i] == b.channels@[i]@,
{
    assert(a@.channels.len() == a.channels@.len());
    assert(b@.channels.len() == b.channels@.len());
}

/// The key that plays starts the selected station where nothing plays; where something plays it ends
/// it.
pub proof fn law_playback_starts_and_ends(app: &mut App)
    requires
        call_ensures(App::toggle_playback, (app,), ()),
        old(app)@.wf(),
    ensures
        !old(app).playing ==> starts_the_station(*final(app)) && !final(app).playing,
        old(app).playing ==> silent(*final(app)) && is_stopping(*final(app)),
        final(app).selected == old(app).selected,
        final(app).screen == old(app).screen,
        same_stations(*old(app), *final(app)),
{
    lemma_same(*old(app), *final(app));
}

/// At its start the program plays the first station.
pub proof fn law_the_first_station_plays_at_the_start(app: &mut App)
    requires
        call_ensures(App::start_default_playback, (app,), ()),
        old(app)@.wf(),
        old(app).selected == 0,
        !old(app).playing,
    ensures
        final(app).selected == 0,
        starts_the_station(*final(app)),
{
    lemma_same(*old(app), *final(app));
}

/// To end playback leaves nothing of it.
pub proof fn law_the_end_of_playback_is_silence(app: &mut App)
    requires
        call_ensures(App::stop_player, (app,), ()),
    ensures
        silent(*final(app)),
        old(app).player ==> is_stopping(*final(app)),
        final(app).selected == old(app).selected,
        same_stations(*old(app), *final(app)),
{
    lemma_same(*old(app), *final(app));
}

/// A player that has started plays, and is taken to buffer until it says otherwise; one that has not
/// started leaves silence, and its reason is told.
pub proof fn law_a_start_is_heard_or_told(app: &mut App, outcome: Result<(), PlayerError>)
    requires
        call_ensures(App::finish_start, (app, outcome), ()),
        old(app)@.wf(),
        old(app).pending matches Some(Work::Start { .. }),
    ensures
        final(app).pending is None,
        final(app).selected == old(app).selected,
        same_stations(*old(app), *final(app)),
        match outcome {
            Ok(_) => final(app).playing && final(app).player && final(app).buffering
                && final(app).error is None,
            Err(error) => !final(app).playing && !final(app).player && opt_view(final(app).error)
                == Some(error@),
        },
{
    lemma_same(*old(app), *final(app));
}

/// A player that has changed its station goes on playing; one that has not is given up and started
/// anew with the station that was asked for.
pub proof fn law_a_change_is_heard_or_tried_anew(app: &mut App, outcome: Result<(), PlayerError>)
    requires
        call_ensures(App::finish_tune, (app, outcome), ()),
        old(app)@.wf(),
        old(app).pending matches Some(Work::Tune { .. }),
    ensures
        final(app).selected == old(app).selected,
        same_stations(*old(app), *final(app)),
        match outcome {
            Ok(_) => {
                &&& final(app).playing && final(app).player && final(app).buffering
                &&& final(app).error is None
                &&& final(app).pending is None
                &&& final(app).visualizer is Some <==> old(app).visualizer is Some
                &&& old(app).visualizer is Some ==> final(app).visualizer->0.opened_for(
                    tuned(*final(app)).show@,
                )
            },
            Err(error) => silent(*final(app)) && restarts_the_station(
                *final(app),
                Trouble::StationChange,
                error@,
            ),
        },
{
    lemma_same(*old(app), *final(app));
}

/// A player that answers is believed; one that does not is given up and started anew.
pub proof fn law_an_answer_is_believed(app: &mut App, outcome: Result<bool, PlayerError>)
    requires
        call_ensures(App::finish_probe, (app, outcome), ()),
        old(app)@.wf(),
        old(app).pending matches Some(Work::Probe),
    ensures
        final(app).selected == old(app).selected,
        same_stations(*old(app), *final(app)),
        match outcome {
            Ok(buffering) => {
                &&& final(app).buffering == buffering
                &&& final(app).playing && final(app).player
                &&& final(app).error is None
                &&& final(app).pending is None
            },
            Err(error) => silent(*final(app)) && restarts_the_station(
                *final(app),
                Trouble::Playback,
                error@,
            ),
        },
{
    lemma_same(*old(app), *final(app));
}

/// A player that was started anew plays on; where that fails too there is silence, and both reasons
/// are told, the first one first.
pub proof fn law_a_new_start_is_heard_or_told(
    app: &mut App,
    outcome: Result<(), PlayerError>,
    stream: String,
    trouble: Trouble,
    error: PlayerError,
)
    requires
        call_ensures(App::finish_restart, (app, outcome), ()),
        old(app)@.wf(),
        old(app).pending == Some(Work::Restart { stream, trouble, error }),
    ensures
        final(app).pending is None,
        final(app).selected == old(app).selected,
        same_stations(*old(app), *final(app)),
        outcome is Ok ==> final(app).playing && final(app).player && final(app).buffering,
        outcome is Ok && trouble == Trouble::StationChange ==> final(app).error is None,
        outcome is Ok && trouble == Trouble::Playback ==> opt_view(final(app).error) == Some(
            "Stream reconnected."@,
        ),
        outcome matches Err(again) ==> !final(app).playing && !final(app).player && opt_view(
            final(app).error,
        ) == Some(
            if trouble == Trouble::StationChange {
                "Could not change station: "@ + error@ + "; restart failed: "@ + again@
            } else {
                "Playback stopped: "@ + error@ + "; reconnect failed: "@ + again@
            },
        ),
{
    lemma_same(*old(app), *final(app));
}

/// While something plays the player is asked how it fares, and nothing else changes.
pub proof fn law_the_player_is_asked(app: &mut App)
    requires
        call_ensures(App::poll_player, (app,), ()),
        old(app)@.wf(),
    ensures
        !old(app).playing ==> *final(app) == *old(app),
        old(app).playing ==> final(app).pending matches Some(Work::Probe),
        final(app).playing == old(app).playing,
        final(app).buffering == old(app).buffering,
        final(app).selected == old(app).selected,
        same_stations(*old(app), *final(app)),
{
    lemma_same(*old(app), *final(app));
}

/// The Explore overlay opens on the selected mixtape, or on the first one where a live channel is
/// selected, and closes again; what is heard goes on.
pub proof fn law_explore_opens_and_closes(app: &mut App)
    requires
        call_ensures(App::toggle_explore, (app,), ()),
        old(app)@.wf(),
        old(app).channels@.len() >= 3,
    ensures
        old(app).screen == Screen::Explore ==> final(app).screen == Screen::Listen,
        old(app).screen != Screen::Explore ==> final(app).screen == Screen::Explore,
        old(app).screen != Screen::Explore && old(app).selected >= 2
            ==> final(app).explore_selected == old(app).selected - 2,
        old(app).screen != Screen::Explore && old(app).selected < 2
            ==> final(app).explore_selected == 0,
        final(app).error is None,
        same_sound(*old(app), *final(app)),
        final(app).visualizer == old(app).visualizer,
{
}

/// The schedule opens on a live channel and closes again; on a mixtape it stays closed, and the
/// listener is told. What is heard goes on.
pub proof fn law_the_schedule_opens_and_closes(app: &mut App)
    requires
        call_ensures(App::toggle_schedule, (app,), ()),
        old(app)@.wf(),
    ensures
        old(app).screen == Screen::Schedule ==> final(app).screen == Screen::Listen,
        old(app).screen != Screen::Schedule && tuned(*old(app)).kind == ChannelKind::Live
            ==> final(app).screen == Screen::Schedule && final(app).error is None,
        old(app).screen != Screen::Schedule && tuned(*old(app)).kind == ChannelKind::Mixtape
            ==> final(app).screen == old(app).screen && final(app).error is Some,
        same_sound(*old(app), *final(app)),
        final(app).visualizer == old(app).visualizer,
{
    lemma_same(*old(app), *old(app));
    assert(old(app)@.station().kind == tuned(*old(app)).kind);
}

/// The visualizer opens on what plays, with the show of the selected station; it closes again; and
/// where nothing plays it stays closed, and the listener is told. What is heard goes on.
pub proof fn law_the_visualizer_opens_and_closes(app: &mut App)
    requires
        call_ensures(App::toggle_visualizer, (app,), ()),
        old(app)@.wf(),
    ensures
        old(app).visualizer is Some ==> final(app).visualizer is None && final(app).screen
            == old(app).screen,
        old(app).visualizer is None && old(app).playing ==> final(app).screen == Screen::Listen
            && final(app).visualizer is Some && final(app).visualizer->0.opened_for(
            tuned(*final(app)).show@,
        ) && tuned(*final(app)).show@ == tuned(*old(app)).show@,
        old(app).visualizer is None && !old(app).playing ==> final(app).visualizer is None
            && final(app).error is Some,
        same_sound(*old(app), *final(app)),
{
    lemma_same(*old(app), *final(app));
}

/// Whether `key` goes up or to the left.
pub open spec fn goes_back(key: Key) -> bool {
    key == Key::Up || key == Key::Left || key == Key::Char('k') || key == Key::Char('h')
}

/// Whether `key` goes down or to the right.
pub open spec fn goes_on(key: Key) -> bool {
    key == Key::Down || key == Key::Right || key == Key::Char('j') || key == Key::Char('l')
}

/// A direction key goes to the neighbour in the list of stations, and stays at its ends; in the
/// Explore overlay it moves the mark round the mixtapes and leaves the station; under the schedule
/// it does nothing.
pub proof fn law_direction_keys_go_to_the_neighbour(app: &mut App, key: Key, r: KeyVerdict)
    requires
        call_ensures(App::press, (app, key), r),
        old(app)@.wf(),
        old(app).channels@.len() >= 3,
        goes_back(key) || goes_on(key),
    ensures
        final(app).screen == old(app).screen,
        match old(app).screen {
            Screen::Listen => {
                let last = old(app).channels@.len() - 1;
                let target = if goes_on(key) {
                    if old(app).selected < last {
                        old(app).selected + 1
                    } else {
                        last
                    }
                } else if old(app).selected > 0 {
                    old(app).selected - 1
                } else {
                    0
                };
                goes_to(*old(app), *final(app), target) && r == KeyVerdict::Stay(true)
            },
            Screen::Schedule => *final(app) == *old(app) && r == KeyVerdict::Stay(false),
            Screen::Explore => {
                let count = old(app).channels@.len() - 2;
                let mark = old(app).explore_selected as int;
                &&& r == KeyVerdict::Stay(true)
                &&& same_sound(*old(app), *final(app))
                &&& goes_on(key) ==> final(app).explore_selected == (if mark + 1 < count {
                    mark + 1
                } else {
                    0
                })
                &&& goes_back(key) ==> final(app).explore_selected == (if mark > 0 {
                    mark - 1
                } else {
                    count - 1
                })
            },
        },
{
    lemma_same(*old(app), *final(app));
    let count = old(app).channels@.len() - 2;
    let mark = old(app).explore_selected as int;
    assert(old(app)@.mixtapes() == count);
    assert(0 <= mark < count);
    lemma_round(mark, count);
}

/// One step round a circle of `count` places.
proof fn lemma_round(mark: int, count: int)
    requires
        0 <= mark < count,
    ensures
        (mark + 1) % count == (if mark + 1 < count {
            mark + 1
        } else {
            0
        }),
        (mark + -1) % count == (if mark > 0 {
            mark - 1
        } else {
            count - 1
        }),
{
    if mark + 1 < count {
        vstd::arithmetic::div_mod::lemma_small_mod((mark + 1) as nat, count as nat);
    } else {
        vstd::arithmetic::div_mod::lemma_mod_self_0(count);
    }
    if mark > 0 {
        vstd::arithmetic::div_mod::lemma_small_mod((mark - 1) as nat, count as nat);
    } else {
        vstd::arithmetic::div_mod::lemma_fundamental_div_mod_converse(-1, count, -1, count - 1);
    }
}

/// The keys 1 and 2 go to the two live channels, but not while the schedule is open.
pub proof fn law_number_keys_go_to_the_live_channels(app: &mut App, key: Key, r: KeyVerdict)
    requires
        call_ensures(App::press, (app, key), r),
        old(app)@.wf(),
        old(app).channels@.len() >= 2,
        key == Key::Char('1') || key == Key::Char('2'),
    ensures
        old(app).screen == Screen::Schedule ==> *final(app) == *old(app) && r == KeyVerdict::Stay(
            false,
        ),
        old(app).screen != Screen::Schedule ==> {
            &&& goes_to(
                *old(app),
                *final(app),
                if key == Key::Char('1') {
                    0
                } else {
                    1
                },
            )
            &&& final(app).screen == Screen::Listen
            &&& r == KeyVerdict::Stay(true)
        },
{
    lemma_same(*old(app), *final(app));
}

/// The keys that play start and end playback; in the Explore overlay they play the marked mixtape
/// and close the overlay.
pub proof fn law_the_keys_that_play(app: &mut App, key: Key, r: KeyVerdict)
    requires
        call_ensures(App::press, (app, key), r),
        old(app)@.wf(),
        old(app).pending is None,
        old(app).channels@.len() >= 3,
        key == Key::Char(' ') || key == Key::Enter,
    ensures
        r == KeyVerdict::Stay(true),
        same_stations(*old(app), *final(app)),
        old(app).screen != Screen::Explore ==> {
            &&& final(app).selected == old(app).selected
            &&& final(app).screen == old(app).screen
            &&& !old(app).playing ==> starts_the_station(*final(app))
            &&& old(app).playing ==> silent(*final(app)) && is_stopping(*final(app))
        },
        old(app).screen == Screen::Explore ==> {
            &&& final(app).selected == old(app).explore_selected + 2
            &&& final(app).screen == Screen::Listen
            &&& final(app).playing == old(app).playing
            &&& !old(app).playing ==> starts_the_station(*final(app))
            &&& old(app).playing && old(app).selected != old(app).explore_selected + 2
                ==> tunes_to_the_station(*final(app))
        },
{
    lemma_same(*old(app), *final(app));
}

/// The other keys: q ends the program, escape closes what is open and ends it where nothing is, e, s
/// and v open and close their surfaces, and any other key does nothing.
pub proof fn law_the_other_keys(app: &mut App, key: Key, r: KeyVerdict)
    requires
        call_ensures(App::press, (app, key), r),
        old(app)@.wf(),
        !goes_back(key),
        !goes_on(key),
        key != Key::Char('1') && key != Key::Char('2'),
        key != Key::Char(' ') && key != Key::Enter,
    ensures
        same_sound(*old(app), *final(app)),
        match key {
            Key::Esc => if old(app).visualizer is Some {
                final(app).visualizer is None && final(app).screen == old(app).screen && r
                    == KeyVerdict::Stay(true)
            } else if old(app).screen != Screen::Listen {
                final(app).screen == Screen::Listen && r == KeyVerdict::Stay(true)
            } else {
                *final(app) == *old(app) && r == KeyVerdict::Quit
            },
            Key::Char(c) => if c == 'q' || c == 'Q' {
                *final(app) == *old(app) && r == KeyVerdict::Quit
            } else if c == 'e' || c == 'E' {
                &&& r == KeyVerdict::Stay(true)
                &&& final(app).screen == (if old(app).screen == Screen::Explore {
                    Screen::Listen
                } else {
                    Screen::Explore
                })
            } else if c == 's' || c == 'S' {
                &&& r == KeyVerdict::Stay(true)
                &&& old(app).screen == Screen::Schedule ==> final(app).screen == Screen::Listen
                &&& old(app).screen == Screen::Explore ==> final(app).screen == Screen::Explore
                    && final(app).error is Some
                &&& old(app).screen == Screen::Listen ==> (final(app).screen == Screen::Schedule
                    <==> tuned(*old(app)).kind == ChannelKind::Live)
            } else if c == 'v' || c == 'V' {
                &&& r == KeyVerdict::Stay(true)
                &&& final(app).visualizer is Some <==> old(app).visualizer is None && old(
                    app,
                ).playing
            } else {
                *final(app) == *old(app) && r == KeyVerdict::Stay(false)
            },
            _ => *final(app) == *old(app) && r == KeyVerdict::Stay(false),
        },
{
    lemma_same(*old(app), *final(app));
    lemma_same(*old(app), *old(app));
}

/// The media controls play, stop and walk the stations as the keys do, and walk past neither end.
pub proof fn law_media_controls(app: &mut App, command: MediaCommand)
    requires
        call_ensures(App::handle_media_command, (app, command), ()),
        old(app)@.wf(),
        old(app).pending is None,
    ensures
        same_stations(*old(app), *final(app)),
        match command {
            MediaCommand::Play => if old(app).playing {
                *final(app) == *old(app)
            } else {
                starts_the_station(*final(app)) && final(app).selected == old(app).selected
            },
            MediaCommand::StopPlayback => if old(app).playing {
                silent(*final(app)) && is_stopping(*final(app)) && final(app).selected
                    == old(app).selected
            } else {
                *final(app) == *old(app)
            },
            MediaCommand::TogglePlayback => if old(app).playing {
                silent(*final(app)) && is_stopping(*final(app))
            } else {
                starts_the_station(*final(app)) && final(app).selected == old(app).selected
            },
            MediaCommand::NextStation => if old(app).screen == Screen::Schedule {
                *final(app) == *old(app)
            } else {
                goes_to(
                    *old(app),
                    *final(app),
                    if old(app).selected + 1 < old(app).channels@.len() {
                        old(app).selected + 1
                    } else {
                        old(app).selected as int
                    },
                ) && final(app).screen == Screen::Listen
            },
            MediaCommand::PreviousStation => if old(app).screen == Screen::Schedule {
                *final(app) == *old(app)
            } else {
                goes_to(
                    *old(app),
                    *final(app),
                    if old(app).selected > 0 {
                        old(app).selected - 1
                    } else {
                        0
                    },
                ) && final(app).screen == Screen::Listen
            },
        },
{
    lemma_same(*old(app), *final(app));
}

/// The system's controls show the show on the selected station, that station's name, and whether it
/// is to be heard now.
pub proof fn law_the_system_shows_what_plays(app: App, r: NowPlayingInfo)
    requires
        call_ensures(App::now_playing, (&app,), r),
        app.selected < app.channels@.len(),
    ensures
        r.title@ == tuned(app).show@,
        r.station@ == tuned(app).name@,
        r.playing == (app.playing && !app.buffering),
{
    lemma_same(app, app);
}

/// The terminal's title names the selected station and its show, after a picture that turns only
/// while something plays.
pub proof fn law_the_title_names_station_and_show(app: App, frame: usize, r: String)
    requires
        call_ensures(App::terminal_title, (&app, frame), r),
        app.selected < app.channels@.len(),
    ensures
        exists|picture: Seq<char>|
            {
                &&& !app.playing ==> picture == "⠂"@
                &&& r@ == #[trigger] (picture + " "@) + (if tuned(app).kind == ChannelKind::Live {
                    "NTS "@ + tuned(app).number@
                } else {
                    "NTS Mix"@
                }) + " — "@ + title_text(tuned(app).show@)
            },
{
    lemma_same(app, app);
    let picture = if app.playing {
        crate::wording::spinner()[frame as int]
    } else {
        "⠂"@
    };
    assert(r@ == (picture + " "@) + app@.station().short_name() + " — "@ + title_text(
        app@.station().show,
    ));
}

/// The spinner turns by one picture each time while something plays, through all ten and round
/// again, and stands still otherwise; the title is set at once where it has changed, and else every
/// 120 milliseconds while something plays.
pub proof fn law_the_spinner_turns(session: &mut Session, playing: bool, now: u64, r: Option<usize>)
    requires
        call_ensures(Session::tick_title, (session, playing, now), r),
        now <= LAST_MOMENT,
        old(session).title_frame < 10,
    ensures
        r is Some <==> old(session).title_dirty || (playing && now >= old(
            session,
        ).next_title_tick),
        r is None ==> *final(session) == *old(session),
        r matches Some(frame) ==> {
            &&& frame < 10
            &&& frame == final(session).title_frame
            &&& playing && old(session).title_frame < 9 ==> frame == old(session).title_frame + 1
            &&& playing && old(session).title_frame == 9 ==> frame == 0
            &&& !playing ==> frame == 0
            &&& !final(session).title_dirty
            &&& final(session).next_title_tick == now + 120_000_000
        },
{
}

/// A feed is asked for when its time has come and no answer of it is awaited, and is then awaited;
/// the player is asked once a second while something plays.
pub proof fn law_what_is_due_is_done(session: &mut Session, playing: bool, now: u64, r: Due)
    requires
        call_ensures(Session::take_due, (session, playing, now), r),
        now <= LAST_MOMENT,
    ensures
        r.live <==> !old(session).refresh_in_flight && old(session).next_refresh <= now,
        r.schedules <==> !old(session).schedule_in_flight && old(session).next_schedule_refresh
            <= now,
        r.mixtapes <==> !old(session).mixtape_in_flight && old(session).next_mixtape_refresh
            <= now,
        r.probe <==> playing && old(session).next_player_probe <= now,
        final(session).refresh_in_flight == (old(session).refresh_in_flight || r.live),
        final(session).schedule_in_flight == (old(session).schedule_in_flight || r.schedules),
        final(session).mixtape_in_flight == (old(session).mixtape_in_flight || r.mixtapes),
        r.probe ==> final(session).next_player_probe == now + 1_000_000_000 && final(session).dirty
            && final(session).title_dirty,
        !r.probe ==> final(session).next_player_probe == old(session).next_player_probe
            && final(session).dirty == old(session).dirty,
        r.schedules ==> final(session).next_schedule_refresh == now + 900_000_000_000,
        r.mixtapes ==> final(session).next_mixtape_refresh == now + 900_000_000_000,
        r.live ==> final(session).next_refresh == now + 60_000_000_000,
{
}

/// At its start the program awaits the live channels and the mixtapes, and asks for the schedules
/// at its first turn.
pub proof fn law_the_first_requests(now: u64, pause: u64, r: Session, playing: bool)
    requires
        call_ensures(Session::start, (now, pause), r),
        now <= LAST_MOMENT,
        pause <= 60_000_000_000,
    ensures
        r.refresh_in_flight,
        r.mixtape_in_flight,
        !r.schedule_in_flight,
        r.dirty && r.title_dirty,
        ({
            let due = r.due_at(playing, now);
            !due.live && due.schedules && !due.mixtapes && !due.probe
        }),
        r.next_player_probe == now + 300_000_000,
        r.next_refresh == now + pause,
        r.next_mixtape_refresh == now + 900_000_000_000,
{
}

/// What is drawn is drawn once: the screen is clean until something changes.
pub proof fn law_the_screen_is_drawn_once(session: &mut Session, r: bool)
    requires
        call_ensures(Session::take_dirty, (session,), r),
    ensures
        r == old(session).dirty,
        !final(session).dirty,
        *final(session) == (Session { dirty: false, ..*old(session) }),
{
}

/// A change is drawn, and a media control also sets the title.
pub proof fn law_a_change_is_drawn(session: &mut Session, changed: bool)
    requires
        call_ensures(Session::note_change, (session, changed), ()),
    ensures
        final(session).dirty <==> old(session).dirty || changed,
        final(session).title_dirty == old(session).title_dirty,
{
}

/// A media control is followed by a new screen and a new title.
pub proof fn law_a_media_control_is_drawn(session: &mut Session)
    requires
        call_ensures(Session::media_handled, (session,), ()),
    ensures
        final(session).dirty && final(session).title_dirty,
{
}

/// After a key the screen is drawn where something changed, and the terminal is cleared where
/// something came to cover the stations, or ceased to.
pub proof fn law_a_key_is_drawn(
    session: &mut Session,
    app: App,
    had_overlay: bool,
    changed: bool,
    r: bool,
)
    requires
        call_ensures(Session::settle_key, (session, &app, had_overlay, changed), r),
    ensures
        final(session).dirty == changed,
        final(session).title_dirty == (old(session).title_dirty || changed),
        r <==> changed && had_overlay != (app.visualizer is Some || app.screen != Screen::Listen),
{
}

/// What the listener is told: the last error first, and else that the network fails.
pub proof fn law_an_error_comes_before_the_network(app: App, r: Option<String>)
    requires
        call_ensures(App::notice, (&app,), r),
    ensures
        match app.error {
            Some(error) => r is Some && r->0@ == error@,
            None => if app.connection_lost {
                r is Some && r->0@ == "◌ Couldn't reach NTS — retrying…"@
            } else {
                r is None
            },
        },
{
}

/// What the status tells: that nothing plays, or the name of the station and whether it buffers, is
/// on air or just plays.
pub proof fn law_the_status_tells_what_plays(app: App, r: String)
    requires
        call_ensures(App::status_copy, (&app,), r),
        app.selected < app.channels@.len(),
    ensures
        !app.playing ==> r@ == "● READY · PRESS SPACE TO LISTEN"@,
        app.playing && app.buffering ==> r@ == "◌ BUFFERING · "@ + tuned(app).name@,
        app.playing && !app.buffering && tuned(app).kind == ChannelKind::Live ==> r@
            == "● ON AIR · "@ + tuned(app).name@,
        app.playing && !app.buffering && tuned(app).kind == ChannelKind::Mixtape ==> r@
            == "● PLAYING · "@ + tuned(app).name@,
{
    lemma_same(app, app);
}

/// The field of a show is shaped by its name alone: to open it twice gives the same seeds.
pub proof fn law_a_show_has_one_field(name: &str, other: &str, a: LiveVisualizer, b: LiveVisualizer)
    requires
        call_ensures(LiveVisualizer::new, (name,), a),
        call_ensures(LiveVisualizer::new, (other,), b),
        name@ == other@,
    ensures
        a.seeds@ == b.seeds@,
        moment_was_read(a.started_at),
{
}

/// Whether `moment` is `wait` after `now`, or past and there is nothing to wait for.
pub open spec fn comes_after(moment: u64, wait: u64, now: u64) -> bool {
    moment == now + wait || (moment <= now && wait == 0)
}

/// The program waits for a key until the next thing is to be done and no longer, and no shorter
/// either: for 120 milliseconds, or 16 while the visualizer moves, or until the next picture of the
/// title, the next request to a feed that is not awaited or the next question to the player.
pub proof fn law_the_wait_ends_with_the_next_thing(
    session: Session,
    playing: bool,
    visualizer: bool,
    now: u64,
    r: u64,
)
    requires
        call_ensures(Session::poll_interval, (&session, playing, visualizer, now), r),
    ensures
        r <= 120_000_000,
        visualizer ==> r <= 16_000_000,
        ({
            ||| r == 120_000_000
            ||| visualizer && r == 16_000_000
            ||| playing && comes_after(session.next_title_tick, r, now)
            ||| playing && comes_after(session.next_player_probe, r, now)
            ||| !session.refresh_in_flight && comes_after(session.next_refresh, r, now)
            ||| !session.schedule_in_flight && comes_after(session.next_schedule_refresh, r, now)
            ||| !session.mixtape_in_flight && comes_after(session.next_mixtape_refresh, r, now)
        }),
        playing && now <= session.next_title_tick ==> now + r <= session.next_title_tick,
        playing && now <= session.next_player_probe ==> now + r <= session.next_player_probe,
        !session.refresh_in_flight && now <= session.next_refresh ==> now + r
            <= session.next_refresh,
        !session.schedule_in_flight && now <= session.next_schedule_refresh ==> now + r
            <= session.next_schedule_refresh,
        !session.mixtape_in_flight && now <= session.next_mixtape_refresh ==> now + r
            <= session.next_mixtape_refresh,
{
}

/// The program starts silent, with the first of the ten stations selected and nothing open.
pub proof fn law_the_program_starts_silent(supports_artwork: bool, r: App)
    requires
        call_ensures(App::load, (supports_artwork,), r),
    ensures
        r.channels@.len() == 10,
        r.selected == 0,
        silent(r),
        r.pending is None,
        r.screen == Screen::Listen,
        r.error is None,
        !r.connection_lost,
        r.supports_artwork == supports_artwork,
        forall|i: int|
            0 <= i < 10 ==> {
                &&& (#[trigger] r.channels@[i]).kind == (if i < 2 {
                    ChannelKind::Live
                } else {
                    ChannelKind::Mixtape
                })
                &&& !r.channels@[i].artwork
                &&& r.channels@[i].ends_at is None
                &&& r.channels@[i].schedule@.len() == 0
            },
{
    lemma_same(r, r);
    assert(r@.channels == crate::catalog::catalog());
    assert forall|i: int| 0 <= i < 10 implies {
        &&& (#[trigger] r.channels@[i]).kind == (if i < 2 {
            ChannelKind::Live
        } else {
            ChannelKind::Mixtape
        })
        &&& !r.channels@[i].artwork
        &&& r.channels@[i].ends_at is None
        &&& r.channels@[i].schedule@.len() == 0
    } by {
        assert(r.channels@[i]@ == crate::catalog::catalog()[i]);
        assert(views(r.channels@[i].schedule@).len() == r.channels@[i].schedule@.len());
    }
}

/// What covers the stations is the visualizer or an overlay.
pub proof fn law_what_covers_the_stations(app: App, r: bool)
    requires
        call_ensures(App::has_overlay, (&app,), r),
    ensures
        r <==> app.visualizer is Some || app.screen == Screen::Schedule || app.screen
            == Screen::Explore,
{
}

} // verus!
