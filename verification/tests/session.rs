use nts::app::{App, Screen, Work};
use nts::catalog::ChannelKind;
use nts::clock::Timestamp;
use nts::now_playing::MediaCommand;
use nts::player::PlayerError;
use nts::session::{BackgroundUpdate, Due, Key, KeyVerdict, Session};

const SECOND: u64 = 1_000_000_000;
const CLOCK: Timestamp = Timestamp { secs: 1_782_000_000, nanos: 0 };

fn playing() -> App {
    let mut app = App::load(false);
    app.start_default_playback();
    app.finish_start(Ok(()));
    app
}

#[test]
fn quitting_and_escaping() {
    let mut app = App::load(false);
    assert_eq!(app.press(Key::Char('q')), KeyVerdict::Quit);
    assert_eq!(app.press(Key::Char('Q')), KeyVerdict::Quit);
    assert_eq!(app.press(Key::Esc), KeyVerdict::Quit);
    assert_eq!(app.press(Key::Char('s')), KeyVerdict::Stay(true));
    assert_eq!(app.screen, Screen::Schedule);
    assert_eq!(app.press(Key::Esc), KeyVerdict::Stay(true));
    assert_eq!(app.screen, Screen::Listen);

    let mut app = playing();
    assert_eq!(app.press(Key::Char('v')), KeyVerdict::Stay(true));
    assert!(app.has_overlay());
    assert_eq!(app.press(Key::Char('e')), KeyVerdict::Stay(true));
    assert_eq!(app.press(Key::Esc), KeyVerdict::Stay(true));
    assert!(app.visualizer.is_none());
    assert_eq!(app.screen, Screen::Explore);
}

#[test]
fn keys_change_stations() {
    let mut app = App::load(false);
    assert_eq!(app.press(Key::Down), KeyVerdict::Stay(true));
    assert_eq!(app.press(Key::Char('j')), KeyVerdict::Stay(true));
    assert_eq!(app.press(Key::Right), KeyVerdict::Stay(true));
    assert_eq!(app.press(Key::Char('l')), KeyVerdict::Stay(true));
    assert_eq!(app.selected, 4);
    assert_eq!(app.press(Key::Up), KeyVerdict::Stay(true));
    assert_eq!(app.press(Key::Char('k')), KeyVerdict::Stay(true));
    assert_eq!(app.press(Key::Left), KeyVerdict::Stay(true));
    assert_eq!(app.press(Key::Char('h')), KeyVerdict::Stay(true));
    assert_eq!(app.selected, 0);
    assert_eq!(app.press(Key::Char('2')), KeyVerdict::Stay(true));
    assert_eq!(app.selected, 1);
    assert_eq!(app.press(Key::Char('1')), KeyVerdict::Stay(true));
    assert_eq!(app.selected, 0);
    assert_eq!(app.press(Key::Char('x')), KeyVerdict::Stay(false));
    assert_eq!(app.press(Key::Other), KeyVerdict::Stay(false));
}

#[test]
fn the_schedule_blocks_keys() {
    let mut app = App::load(false);
    app.press(Key::Char('S'));
    for key in [
        Key::Down,
        Key::Up,
        Key::Left,
        Key::Right,
        Key::Char('1'),
        Key::Char('2'),
        Key::Char('j'),
    ] {
        assert_eq!(app.press(key), KeyVerdict::Stay(false));
        assert_eq!(app.selected, 0);
        assert_eq!(app.screen, Screen::Schedule);
    }
}

#[test]
fn playing_and_exploring_by_keys() {
    let mut app = App::load(false);
    assert_eq!(app.press(Key::Char('E')), KeyVerdict::Stay(true));
    assert_eq!(app.press(Key::Char('s')), KeyVerdict::Stay(true));
    assert_eq!(
        app.error.as_deref(),
        Some("Choose a live channel to see its schedule.")
    );
    assert_eq!(app.press(Key::Up), KeyVerdict::Stay(true));
    assert_eq!(app.explore_selected, 7);
    assert_eq!(app.press(Key::Enter), KeyVerdict::Stay(true));
    assert_eq!(app.selected, 9);
    assert_eq!(app.screen, Screen::Listen);
    assert!(matches!(app.pending, Some(Work::Start { .. })));
    app.finish_start(Ok(()));
    assert_eq!(app.press(Key::Char(' ')), KeyVerdict::Stay(true));
    assert!(matches!(app.pending, Some(Work::Stop)));
}

#[test]
fn a_session_starts_with_two_requests_under_way() {
    let session = Session::start(7, 60 * SECOND);
    assert!(session.dirty && session.title_dirty);
    assert!(session.refresh_in_flight && session.mixtape_in_flight);
    assert!(!session.schedule_in_flight);
    assert_eq!(session.next_refresh, 7 + 60 * SECOND);
    assert_eq!(session.next_schedule_refresh, 7);
    assert_eq!(session.next_mixtape_refresh, 7 + 900 * SECOND);
    assert_eq!(session.next_player_probe, 7 + 300_000_000);
}

#[test]
fn feeds_are_asked_when_their_time_has_come() {
    let mut session = Session::start(0, 60 * SECOND);
    let due = session.take_due(true, 0);
    assert_eq!(
        due,
        Due { live: false, schedules: true, mixtapes: false, probe: false }
    );
    assert!(session.schedule_in_flight);
    assert_eq!(session.next_schedule_refresh, 900 * SECOND);
    let due = session.take_due(true, 2000 * SECOND);
    assert_eq!(
        due,
        Due { live: false, schedules: false, mixtapes: false, probe: true }
    );
    session.refresh_in_flight = false;
    session.mixtape_in_flight = false;
    let due = session.take_due(false, 2000 * SECOND);
    assert_eq!(
        due,
        Due { live: true, schedules: false, mixtapes: true, probe: false }
    );
    assert_eq!(session.next_refresh, 2060 * SECOND);
    let again = session.take_due(false, 3000 * SECOND);
    assert_eq!(
        again,
        Due { live: false, schedules: false, mixtapes: false, probe: false }
    );
}

#[test]
fn bad_news_are_followed_by_a_retry() {
    let mut app = App::load(false);
    let mut session = Session::start(0, 60 * SECOND);
    session.take_due(false, 0);
    session.take_dirty();
    session.tick_title(false, 0);
    let lost = BackgroundUpdate::Live(Err("no network".to_owned()));
    assert!(session.take_news(&mut app, lost, SECOND, CLOCK).is_empty());
    assert!(app.connection_lost);
    assert!(session.dirty && !session.title_dirty && !session.refresh_in_flight);
    assert_eq!(session.next_refresh, 16 * SECOND);
    assert!(!session.take_due(false, 16 * SECOND - 1).live);
    assert!(session.take_due(false, 16 * SECOND).live);

    session.take_dirty();
    session.take_news(&mut app, BackgroundUpdate::Schedules(Err(String::new())), SECOND, CLOCK);
    session.take_news(&mut app, BackgroundUpdate::Mixtapes(Err(String::new())), SECOND, CLOCK);
    assert!(app.connection_lost && !session.dirty);
    assert_eq!(session.next_schedule_refresh, 16 * SECOND);
    assert_eq!(session.next_mixtape_refresh, 16 * SECOND);
    assert!(!session.schedule_in_flight && !session.mixtape_in_flight);
}

#[test]
fn good_news_rest_for_a_while() {
    let mut app = App::load(false);
    app.connection_lost = true;
    let mut session = Session::start(0, 60 * SECOND);
    session.take_due(false, 0);
    session.take_dirty();
    session.tick_title(false, 0);
    session.take_news(&mut app, BackgroundUpdate::Mixtapes(Ok(Vec::new())), SECOND, CLOCK);
    assert!(app.connection_lost && session.dirty && !session.title_dirty);
    assert_eq!(session.next_mixtape_refresh, 901 * SECOND);
    session.take_news(&mut app, BackgroundUpdate::Schedules(Ok(Vec::new())), SECOND, CLOCK);
    assert_eq!(session.next_schedule_refresh, 900 * SECOND);
    session.take_news(&mut app, BackgroundUpdate::Live(Ok(Vec::new())), SECOND, CLOCK);
    assert!(!app.connection_lost && session.title_dirty);
    assert_eq!(session.next_refresh, 61 * SECOND);
}

#[test]
fn the_spinner_turns_while_something_plays() {
    let mut session = Session::start(0, 60 * SECOND);
    assert_eq!(session.tick_title(true, 0), Some(1));
    assert_eq!(session.tick_title(true, 119_999_999), None);
    for frame in [2, 3, 4, 5, 6, 7, 8, 9, 0, 1] {
        let now = session.next_title_tick;
        assert_eq!(session.tick_title(true, now), Some(frame));
    }
    session.media_handled();
    assert_eq!(session.tick_title(false, 0), Some(0));
    assert_eq!(session.tick_title(false, 900 * SECOND), None);
}

#[test]
fn the_wait_for_a_key_is_short() {
    let mut session = Session::start(0, 60 * SECOND);
    session.take_due(false, 0);
    assert_eq!(session.poll_interval(false, false, 0), 120_000_000);
    assert_eq!(session.poll_interval(false, true, 0), 16_000_000);
    session.tick_title(true, 0);
    assert_eq!(session.poll_interval(true, false, 100_000_000), 20_000_000);
    assert_eq!(session.poll_interval(true, true, 110_000_000), 10_000_000);
    assert_eq!(session.poll_interval(true, false, 500_000_000), 0);
    session.refresh_in_flight = false;
    assert_eq!(
        session.poll_interval(false, false, 60 * SECOND - 5),
        5
    );
}

#[test]
fn a_key_settles_what_is_drawn_and_cleared() {
    let mut app = App::load(false);
    let mut session = Session::start(0, 60 * SECOND);
    session.take_dirty();
    session.tick_title(false, 0);
    let before = app.has_overlay();
    app.press(Key::Char('s'));
    assert!(session.settle_key(&app, before, true));
    assert!(session.dirty && session.title_dirty);
    assert!(!session.settle_key(&app, true, true));
    assert!(!session.settle_key(&app, false, false));
    assert!(!session.dirty && session.title_dirty);
    session.note_change(false);
    assert!(!session.dirty);
    session.note_change(true);
    assert!(session.take_dirty() && !session.dirty);
}

#[test]
fn before_the_end_of_the_wait_nothing_is_due() {
    let mut session = Session::start(0, 60 * SECOND);
    session.take_due(true, 0);
    session.tick_title(true, 0);
    let wait = session.poll_interval(true, false, 50_000_000);
    assert_eq!(wait, 70_000_000);
    let mut early = session;
    assert_eq!(early.tick_title(true, 50_000_000 + wait - 1), None);
    assert_eq!(
        early.take_due(true, 50_000_000 + wait - 1),
        Due { live: false, schedules: false, mixtapes: false, probe: false }
    );
    assert_eq!(session.tick_title(true, 50_000_000 + wait), Some(2));
}

fn check_sound(app: &App) {
    assert!(app.selected < app.channels.len());
    assert!(app.explore_selected + 2 < app.channels.len());
    assert_eq!(app.playing, app.player);
    assert!(app.playing || !app.buffering);
    assert!(app.playing || app.visualizer.is_none());
    assert!(app.screen != Screen::Schedule || app.channels[app.selected].kind == ChannelKind::Live);
    match &app.pending {
        Some(Work::Start { .. }) | Some(Work::Restart { .. }) | Some(Work::Stop) => {
            assert!(!app.player)
        }
        Some(Work::Tune { .. }) | Some(Work::Probe) => assert!(app.player),
        None => {}
    }
}

#[test]
fn no_history_breaks_the_state() {
    let keys = [
        Key::Esc,
        Key::Enter,
        Key::Up,
        Key::Down,
        Key::Char('1'),
        Key::Char('2'),
        Key::Char('e'),
        Key::Char('s'),
        Key::Char('v'),
        Key::Char(' '),
        Key::Other,
    ];
    let commands = [
        MediaCommand::TogglePlayback,
        MediaCommand::Play,
        MediaCommand::StopPlayback,
        MediaCommand::NextStation,
        MediaCommand::PreviousStation,
    ];
    let mut app = App::load(false);
    let mut state: u32 = 12345;
    let mut pick = |count: usize| {
        state = state.wrapping_mul(1_664_525).wrapping_add(1_013_904_223);
        (state >> 16) as usize % count
    };
    for _ in 0..20_000 {
        let good = pick(4) > 0;
        let outcome = |good: bool| if good { Ok(()) } else { Err(PlayerError::Connect) };
        let mut steps = 0;
        while let Some(work) = &app.pending {
            steps += 1;
            assert!(steps <= 2);
            match work {
                Work::Stop => app.finish_stop(),
                Work::Start { .. } => app.finish_start(outcome(good)),
                Work::Tune { .. } => app.finish_tune(outcome(good)),
                Work::Probe => app.finish_probe(outcome(good).map(|_| false)),
                Work::Restart { .. } => app.finish_restart(outcome(pick(2) > 0)),
            }
            check_sound(&app);
        }
        let station = app.selected;
        let blocked = app.screen == Screen::Schedule;
        match pick(8) {
            0 => app.handle_media_command(commands[pick(commands.len())]),
            1 => {
                app.poll_player();
                assert_eq!(app.selected, station);
            }
            _ => {
                app.press(keys[pick(keys.len())]);
            }
        }
        assert!(!blocked || app.selected == station);
        check_sound(&app);
    }
}

#[test]
fn a_feed_is_never_asked_while_it_answers() {
    let mut app = App::load(false);
    let mut session = Session::start(0, 60 * SECOND);
    let mut state: u32 = 54321;
    let mut pick = |count: u64| {
        state = state.wrapping_mul(1_664_525).wrapping_add(1_013_904_223);
        u64::from(state >> 16) % count
    };
    // The live channels and the mixtapes have been asked for at the start.
    let mut waiting = [true, false, true];
    let mut resting: [Option<u64>; 3] = [None; 3];
    let mut asked = [0; 3];
    let mut now = 0;
    for _ in 0..20_000 {
        now += pick(4_000) * 1_000_000;
        if pick(2) == 0 {
            let due = session.take_due(pick(2) == 0, now);
            for (feed, asks) in [due.live, due.schedules, due.mixtapes].into_iter().enumerate() {
                let rested = match resting[feed] {
                    Some(failure) => now >= failure + 15 * SECOND,
                    None => asks,
                };
                assert_eq!(asks, rested && !waiting[feed]);
                if asks {
                    waiting[feed] = true;
                    resting[feed] = None;
                    asked[feed] += 1;
                }
            }
        } else {
            let feed = pick(3) as usize;
            if !waiting[feed] {
                continue;
            }
            let failed = pick(2) == 0;
            let stations: Vec<String> = app.channels.iter().map(|c| c.show.clone()).collect();
            let lost = app.connection_lost;
            let error = || Err("no network".to_owned());
            let news = match (feed, failed) {
                (0, true) => BackgroundUpdate::Live(error()),
                (0, false) => BackgroundUpdate::Live(Ok(Vec::new())),
                (1, true) => BackgroundUpdate::Schedules(Err("no network".to_owned())),
                (1, false) => BackgroundUpdate::Schedules(Ok(Vec::new())),
                (_, true) => BackgroundUpdate::Mixtapes(error()),
                (_, false) => BackgroundUpdate::Mixtapes(Ok(Vec::new())),
            };
            session.take_news(&mut app, news, now, CLOCK);
            assert_eq!(app.connection_lost, if feed == 0 { failed } else { lost });
            assert!(app.channels.iter().map(|c| &c.show).eq(stations.iter()));
            waiting[feed] = false;
            resting[feed] = if failed { Some(now) } else { None };
        }
        assert_eq!(
            [session.refresh_in_flight, session.schedule_in_flight, session.mixtape_in_flight],
            waiting
        );
    }
    assert!(asked.iter().all(|count| *count > 10));
}

#[test]
fn the_visualizer_is_not_opened_anew_by_the_way() {
    let mut app = playing();
    app.press(Key::Char('v'));
    let opened = app.visualizer.as_ref().map(|v| v.started_at);
    assert!(opened.is_some());
    app.handle_media_command(MediaCommand::Play);
    app.select_channel(0);
    app.select_channel(99);
    app.press(Key::Char('e'));
    app.press(Key::Down);
    app.press(Key::Char('e'));
    app.press(Key::Char('s'));
    app.press(Key::Down);
    app.press(Key::Char('s'));
    app.poll_player();
    app.finish_probe(Ok(false));
    app.apply_channel_updates(Vec::new());
    app.apply_schedule_updates(Vec::new());
    assert_eq!(app.visualizer.as_ref().map(|v| v.started_at), opened);
    assert!(app.pending.is_none());
    // A station that is really changed to has a picture of its own, once the player plays it.
    let seeds = app.visualizer.as_ref().map(|v| v.seeds);
    app.channels[1].show = "Another show".to_owned();
    app.press(Key::Char('2'));
    assert_eq!(app.visualizer.as_ref().map(|v| v.started_at), opened);
    app.finish_tune(Ok(()));
    assert!(app.visualizer.is_some());
    assert_ne!(app.visualizer.as_ref().map(|v| v.seeds), seeds);
}
