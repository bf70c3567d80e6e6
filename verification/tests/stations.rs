use nts::app::{App, Screen, Trouble, Work};
use nts::artwork::{next_artwork_step, ArtworkStep};
use nts::catalog::{fallback_channels, ChannelKind, ScheduleEntry, NTS_1_STREAM, NTS_2_STREAM};
use nts::clock::Timestamp;
use nts::feed::{ChannelUpdate, ScheduleUpdate};
use nts::now_playing::MediaCommand;
use nts::player::PlayerError;
use nts::updates::ArtworkChange;
use nts::visualizer::LiveVisualizer;

use image::DynamicImage;

fn test_app(selected: usize) -> App {
    App {
        channels: fallback_channels(),
        selected,
        explore_selected: 0,
        playing: false,
        buffering: false,
        player: false,
        supports_artwork: false,
        encoder: false,
        visualizer: None,
        screen: Screen::Listen,
        error: None,
        connection_lost: false,
        pending: None,
    }
}

fn playing_app(selected: usize) -> App {
    let mut app = test_app(selected);
    app.toggle_playback();
    app.finish_start(Ok(()));
    app
}

fn test_channel_update(
    index: usize,
    artwork_url: Option<&str>,
    artwork: Option<DynamicImage>,
) -> ChannelUpdate {
    ChannelUpdate {
        index,
        show: "Updated show".to_owned(),
        description: "Updated description".to_owned(),
        next_show: "Updated next show".to_owned(),
        next_starts_at: "—".to_owned(),
        ends_at: None,
        schedule: None,
        artwork_url: artwork_url.map(str::to_owned),
        artwork,
        stream: None,
    }
}

#[test]
fn selecting_while_stopped_changes_only_the_selection() {
    let mut app = test_app(0);

    app.select_channel(1);

    assert_eq!(app.selected, 1);
    assert!(!app.playing);
    assert!(!app.player);
    assert!(app.pending.is_none());
}

#[test]
fn catalog_contains_two_live_channels_and_eight_mixtapes() {
    let channels = fallback_channels();

    assert_eq!(channels.len(), 10);
    assert_eq!(
        channels
            .iter()
            .filter(|channel| channel.kind == ChannelKind::Live)
            .count(),
        2
    );
    assert!(channels[2..]
        .iter()
        .all(|channel| channel.kind == ChannelKind::Mixtape));
}

#[test]
fn schedule_is_available_only_for_live_channels_and_keeps_its_station() {
    let mut app = test_app(2);

    app.toggle_schedule();
    assert_eq!(app.screen, Screen::Listen);
    assert!(app.error.is_some());

    app.selected = 0;
    app.toggle_schedule();
    assert_eq!(app.screen, Screen::Schedule);
    assert_eq!(app.selected, 0);
}

#[test]
fn explore_is_a_non_disruptive_overlay_until_a_station_is_chosen() {
    let mut app = test_app(1);

    app.toggle_explore();
    assert_eq!(app.screen, Screen::Explore);
    assert_eq!(app.selected, 1);

    app.move_explore(2);
    app.choose_explore();
    assert_eq!(app.screen, Screen::Listen);
    assert_eq!(app.selected, 4);
}

#[test]
fn explore_toggles_without_changing_the_station() {
    let mut app = test_app(1);

    app.toggle_explore();
    app.toggle_explore();

    assert_eq!(app.screen, Screen::Listen);
    assert_eq!(app.selected, 1);
}

#[test]
fn schedule_blocks_every_station_change_path() {
    let mut app = test_app(0);
    app.toggle_schedule();

    assert!(!app.navigate(1));
    assert!(!app.change_station(1));
    app.handle_media_command(MediaCommand::NextStation);
    app.handle_media_command(MediaCommand::PreviousStation);

    assert_eq!(app.screen, Screen::Schedule);
    assert_eq!(app.selected, 0);
}

#[test]
fn invalid_background_channel_updates_are_ignored() {
    let mut app = test_app(0);
    let original_show = app.channels[0].show.clone();

    let changes = app.apply_channel_updates(vec![test_channel_update(usize::MAX, None, None)]);

    assert_eq!(app.channels[0].show, original_show);
    assert_eq!(app.channels.len(), 10);
    assert!(changes.is_empty());
}

#[test]
fn failed_artwork_download_is_not_cached_as_loaded() {
    let mut app = test_app(0);

    app.apply_channel_updates(vec![test_channel_update(
        0,
        Some("https://media.ntslive.co.uk/transient.jpg"),
        None,
    )]);

    assert!(app.channels[0].artwork_url.is_none());
}

#[test]
fn the_catalog_names_its_stations_and_streams() {
    let channels = fallback_channels();
    let names: Vec<&str> = channels.iter().map(|channel| channel.name).collect();
    assert_eq!(
        names,
        vec![
            "NTS 1",
            "NTS 2",
            "Poolside",
            "Slow Focus",
            "Low Key",
            "Memory Lane",
            "4 To The Floor",
            "Island Time",
            "The Tube",
            "Sheet Music",
        ]
    );
    assert_eq!(channels[0].stream, NTS_1_STREAM);
    assert_eq!(channels[1].stream, NTS_2_STREAM);
    assert_eq!(
        channels[4].stream,
        "https://stream-mixtape-geo.ntslive.net/mixtape2"
    );
    assert_eq!(channels[4].show, "100-percent-hip-hop");
    assert_eq!(channels[0].show, "Live transmission");
    assert_eq!(channels[0].next_starts_at, "—");
    assert_eq!(channels[9].number, "∞");
    assert_eq!(
        channels[9].description,
        "Infinite Mixtape · loading NTS details"
    );
    assert!(channels.iter().all(|channel| channel.schedule.is_empty()
        && channel.artwork_url.is_none()
        && !channel.artwork));
}

#[test]
fn a_fresh_state_has_the_first_station_selected() {
    let app = App::load(true);
    assert_eq!(app.selected, 0);
    assert_eq!(app.channels.len(), 10);
    assert!(app.supports_artwork);
    assert!(!app.playing && !app.player && !app.buffering && !app.encoder);
    assert_eq!(app.screen, Screen::Listen);
    assert!(app.error.is_none() && app.visualizer.is_none() && app.pending.is_none());
}

#[test]
fn starting_and_stopping_undo_each_other() {
    let mut app = test_app(1);
    app.error = Some("old".to_owned());
    app.toggle_playback();
    assert!(matches!(&app.pending, Some(Work::Start { stream }) if stream == NTS_2_STREAM));
    assert!(!app.playing);
    app.finish_start(Ok(()));
    assert!(app.playing && app.player && app.buffering);
    assert!(app.error.is_none() && app.pending.is_none());
    app.toggle_playback();
    assert!(matches!(app.pending, Some(Work::Stop)));
    app.finish_stop();
    assert!(!app.playing && !app.player && !app.buffering);
    assert!(app.pending.is_none());
    assert_eq!(app.selected, 1);
}

#[test]
fn the_first_station_plays_by_default() {
    let mut app = App::load(false);
    app.start_default_playback();
    assert!(matches!(&app.pending, Some(Work::Start { stream }) if stream == NTS_1_STREAM));
}

#[test]
fn a_player_that_does_not_start_is_told() {
    let mut app = test_app(0);
    app.toggle_playback();
    app.finish_start(Err(PlayerError::Missing));
    assert!(!app.playing && !app.player);
    assert_eq!(
        app.error.as_deref(),
        Some("Install mpv first: brew install mpv")
    );
    assert!(app.pending.is_none());
}

#[test]
fn a_station_change_tells_the_running_player() {
    let mut app = playing_app(0);
    app.buffering = false;
    app.toggle_visualizer();
    assert!(app.change_station(1));
    assert!(matches!(&app.pending, Some(Work::Tune { stream }) if stream == NTS_2_STREAM));
    assert!(app.playing && app.player);
    app.channels[1].show = "Other show".to_owned();
    app.finish_tune(Ok(()));
    assert!(app.playing && app.buffering && app.pending.is_none());
    assert_eq!(
        app.visualizer.as_ref().map(|visualizer| visualizer.seeds),
        Some(LiveVisualizer::new("Other show").seeds)
    );
}

#[test]
fn a_player_that_will_not_change_is_started_anew() {
    let mut app = playing_app(0);
    app.toggle_visualizer();
    app.select_channel(1);
    app.finish_tune(Err(PlayerError::Exited("exit status: 1".to_owned())));
    assert!(!app.playing && !app.player && app.visualizer.is_none());
    assert!(matches!(
        &app.pending,
        Some(Work::Restart { stream, trouble: Trouble::StationChange, .. }) if stream == NTS_2_STREAM
    ));
    app.finish_restart(Ok(()));
    assert!(app.playing && app.player && app.buffering && app.visualizer.is_none());
    assert!(app.error.is_none() && app.pending.is_none());
}

#[test]
fn a_player_that_cannot_be_started_anew_is_told_with_both_reasons() {
    let mut app = playing_app(0);
    app.select_channel(1);
    app.finish_tune(Err(PlayerError::Exited("exit status: 1".to_owned())));
    app.finish_restart(Err(PlayerError::Start));
    assert_eq!(
        app.error.as_deref(),
        Some("Could not change station: mpv exited with exit status: 1; restart failed: start mpv")
    );
    assert!(!app.playing && app.pending.is_none());
    assert_eq!(app.selected, 1);

    let mut app = playing_app(0);
    app.poll_player();
    assert!(matches!(app.pending, Some(Work::Probe)));
    app.finish_probe(Err(PlayerError::Connect));
    app.finish_restart(Err(PlayerError::Missing));
    assert_eq!(
        app.error.as_deref(),
        Some("Playback stopped: connect to mpv IPC socket; reconnect failed: Install mpv first: brew install mpv")
    );
}

#[test]
fn a_player_that_answers_is_believed() {
    let mut app = playing_app(0);
    app.error = Some("Stream reconnected.".to_owned());
    app.poll_player();
    app.finish_probe(Ok(false));
    assert!(!app.buffering && app.playing);
    assert!(app.error.is_none() && app.pending.is_none());
    app.poll_player();
    app.finish_probe(Err(PlayerError::Read));
    app.finish_restart(Ok(()));
    assert!(app.playing && app.buffering);
    assert_eq!(app.error.as_deref(), Some("Stream reconnected."));
}

#[test]
fn a_vanished_player_is_started_anew() {
    let mut app = playing_app(0);
    app.player = false;
    app.poll_player();
    assert!(matches!(
        &app.pending,
        Some(Work::Restart { trouble: Trouble::Playback, error: PlayerError::Disappeared, .. })
    ));
    app.finish_restart(Err(PlayerError::Start));
    assert_eq!(
        app.error.as_deref(),
        Some("Playback stopped: player process disappeared; reconnect failed: start mpv")
    );
}

#[test]
fn nothing_is_asked_of_the_player_while_nothing_plays() {
    let mut app = test_app(0);
    app.poll_player();
    assert!(app.pending.is_none());
    app.stop_player();
    assert!(app.pending.is_none());
}

#[test]
fn the_visualizer_needs_playback() {
    let mut app = test_app(0);
    app.toggle_visualizer();
    assert!(app.visualizer.is_none());
    assert_eq!(
        app.error.as_deref(),
        Some("Start a station before opening the visualizer.")
    );
    assert!(!app.poll_visualizer());

    let mut app = playing_app(0);
    app.toggle_explore();
    app.toggle_visualizer();
    assert_eq!(app.screen, Screen::Listen);
    assert!(app.poll_visualizer());
    assert_eq!(
        app.visualizer.as_ref().map(|visualizer| visualizer.seeds),
        Some(LiveVisualizer::new("Live transmission").seeds)
    );
    assert!(app.close_visualizer());
    assert!(!app.close_visualizer());
    app.toggle_visualizer();
    app.stop_player();
    assert!(app.visualizer.is_none());
}

#[test]
fn media_controls_walk_the_stations_to_their_ends() {
    let mut app = test_app(8);
    app.handle_media_command(MediaCommand::NextStation);
    assert_eq!(app.selected, 9);
    app.handle_media_command(MediaCommand::NextStation);
    assert_eq!(app.selected, 9);
    app.select_channel(1);
    app.handle_media_command(MediaCommand::PreviousStation);
    app.handle_media_command(MediaCommand::PreviousStation);
    assert_eq!(app.selected, 0);
}

#[test]
fn play_and_stop_are_no_toggles() {
    let mut app = test_app(0);
    app.handle_media_command(MediaCommand::StopPlayback);
    assert!(app.pending.is_none());
    app.handle_media_command(MediaCommand::Play);
    assert!(matches!(app.pending, Some(Work::Start { .. })));

    let mut app = playing_app(0);
    app.handle_media_command(MediaCommand::Play);
    assert!(app.playing && app.pending.is_none());
    app.handle_media_command(MediaCommand::TogglePlayback);
    assert!(matches!(app.pending, Some(Work::Stop)));
}

#[test]
fn a_station_that_does_not_exist_is_not_changed_to() {
    let mut app = test_app(3);
    app.toggle_explore();
    assert!(!app.change_station(10));
    assert_eq!(app.screen, Screen::Explore);
    app.select_channel(usize::MAX);
    assert_eq!(app.selected, 3);
}

#[test]
fn explore_opens_on_the_station_and_goes_round() {
    let mut app = test_app(9);
    app.toggle_explore();
    assert_eq!(app.explore_selected, 7);
    app.move_explore(1);
    assert_eq!(app.explore_selected, 0);
    app.move_explore(-1);
    assert_eq!(app.explore_selected, 7);
    app.move_explore(-17);
    assert_eq!(app.explore_selected, 6);
    app.move_explore(17);
    assert_eq!(app.explore_selected, 7);
    app.choose_explore();
    assert_eq!(app.selected, 9);
    assert_eq!(app.screen, Screen::Listen);
}

#[test]
fn listening_to_a_mixtape_starts_it() {
    let mut app = test_app(0);
    app.toggle_explore();
    app.move_explore(3);
    app.listen_to_explore();
    assert_eq!(app.selected, 5);
    assert!(matches!(
        &app.pending,
        Some(Work::Start { stream }) if stream == "https://stream-mixtape-geo.ntslive.net/mixtape6"
    ));

    let mut app = playing_app(0);
    app.toggle_explore();
    app.listen_to_explore();
    assert_eq!(app.selected, 2);
    assert!(matches!(app.pending, Some(Work::Tune { .. })));
}

#[test]
fn an_overlay_is_dismissed_once() {
    let mut app = test_app(0);
    assert!(!app.dismiss_overlay());
    app.toggle_schedule();
    assert!(app.dismiss_overlay());
    assert_eq!(app.screen, Screen::Listen);
    assert!(!app.dismiss_overlay());
}

#[test]
fn news_change_their_station_alone() {
    let mut app = test_app(1);
    let mut update = test_channel_update(0, None, None);
    update.stream = Some("https://example.org/stream".to_owned());
    update.ends_at = Some("2026-06-21T05:00:00Z".to_owned());
    update.schedule = Some(vec![ScheduleEntry {
        starts_at: "05:00 +00:00".to_owned(),
        title: "Next".to_owned(),
    }]);
    app.apply_channel_updates(vec![update]);
    assert_eq!(app.channels[0].show, "Updated show");
    assert_eq!(app.channels[0].description, "Updated description");
    assert_eq!(app.channels[0].next_show, "Updated next show");
    assert_eq!(app.channels[0].stream, "https://example.org/stream");
    assert_eq!(app.channels[0].schedule.len(), 1);
    assert_eq!(app.channels[0].name, "NTS 1");
    assert_eq!(app.channels[1].show, "Live transmission");
    assert_eq!(app.selected, 1);

    app.apply_channel_updates(vec![test_channel_update(0, None, None)]);
    assert_eq!(app.channels[0].stream, "https://example.org/stream");
    assert_eq!(app.channels[0].schedule.len(), 1);
    assert!(app.channels[0].ends_at.is_none());
}

#[test]
fn schedule_news_change_only_schedules() {
    let mut app = test_app(0);
    let entry = ScheduleEntry {
        starts_at: "05:00 +00:00".to_owned(),
        title: "Later".to_owned(),
    };
    app.apply_schedule_updates(vec![
        ScheduleUpdate { index: 1, schedule: vec![entry] },
        ScheduleUpdate { index: 99, schedule: Vec::new() },
    ]);
    assert_eq!(app.channels[1].schedule[0].title, "Later");
    assert_eq!(app.channels[1].show, "Live transmission");
    assert!(app.channels[0].schedule.is_empty());
}

#[test]
fn a_loaded_picture_is_remembered_and_a_failed_one_tried_again() {
    let url = "https://media.ntslive.co.uk/a.jpg";
    let other = "https://media.ntslive.co.uk/b.jpg";
    let mut app = test_app(0);
    app.supports_artwork = true;
    app.encoder = true;
    let changes = app.apply_channel_updates(vec![test_channel_update(
        0,
        Some(url),
        Some(DynamicImage::new_rgba8(4, 2)),
    )]);
    assert!(matches!(
        &changes[..],
        [ArtworkChange::Create { index: 0, image }] if image.width() == 4
    ));
    assert!(app.channels[0].artwork);
    assert_eq!(app.artwork_urls()[0].as_deref(), Some(url));
    let step = next_artwork_step(
        &Some(url.to_owned()),
        &None,
        &app.artwork_urls()[0],
        0,
    );
    assert!(matches!(step, ArtworkStep::Settled(Some(known)) if known == url));

    let changes = app.apply_channel_updates(vec![test_channel_update(0, Some(other), None)]);
    assert!(changes.is_empty());
    assert!(app.channels[0].artwork);
    assert_eq!(app.channels[0].artwork_url.as_deref(), Some(url));
    let step = next_artwork_step(
        &Some(other.to_owned()),
        &None,
        &app.artwork_urls()[0],
        0,
    );
    assert!(matches!(step, ArtworkStep::Fetch(next) if next == other));

    let changes = app.apply_channel_updates(vec![test_channel_update(
        0,
        Some(other),
        Some(DynamicImage::new_rgba8(8, 5)),
    )]);
    assert!(matches!(&changes[..], [ArtworkChange::Replace { index: 0, .. }]));

    let changes = app.apply_channel_updates(vec![test_channel_update(0, None, None)]);
    assert!(matches!(&changes[..], [ArtworkChange::Forget { index: 0 }]));
    assert!(!app.channels[0].artwork && app.channels[0].artwork_url.is_none());
}

#[test]
fn a_text_terminal_gets_no_picture() {
    let mut app = test_app(0);
    app.encoder = true;
    let changes = app.apply_channel_updates(vec![test_channel_update(
        0,
        Some("https://media.ntslive.co.uk/a.jpg"),
        Some(DynamicImage::new_rgba8(4, 2)),
    )]);
    assert!(changes.is_empty());
    assert!(!app.channels[0].artwork);
    assert!(app.channels[0].artwork_url.is_some());
}

#[test]
fn the_next_refresh_follows_the_next_handover() {
    let now = Timestamp { secs: 1_782_000_000, nanos: 0 };
    let mut app = test_app(0);
    assert_eq!(app.next_refresh_delay_at(now), 60_000_000_000);
    // 2026-06-21T00:00:30Z is half a minute away.
    app.channels[0].ends_at = Some("2026-06-21T00:00:30Z".to_owned());
    let ends = nts::clock::parse_instant("2026-06-21T00:00:30Z").unwrap();
    let before = Timestamp { secs: ends.secs - 30, nanos: 0 };
    assert_eq!(app.next_refresh_delay_at(before), 31_000_000_000);
    app.channels[1].ends_at = Some("2026-06-21T00:00:10.5Z".to_owned());
    assert_eq!(app.next_refresh_delay_at(before), 11_500_000_000);
    app.channels[1].ends_at = Some("2026-06-21T00:00:01Z".to_owned());
    assert_eq!(app.next_refresh_delay_at(before), 5_000_000_000);
    app.channels[1].ends_at = Some("2026-06-20T00:00:01Z".to_owned());
    assert_eq!(app.next_refresh_delay_at(before), 31_000_000_000);
    app.channels[0].ends_at = Some("no time at all".to_owned());
    assert_eq!(app.next_refresh_delay_at(before), 60_000_000_000);
    let delay = app.next_refresh_delay();
    assert!((5_000_000_000..=60_000_000_000).contains(&delay));
}

#[test]
fn the_system_is_told_what_plays() {
    let mut app = playing_app(1);
    let info = app.now_playing();
    assert_eq!(info.title, "Live transmission");
    assert_eq!(info.station, "NTS 2");
    assert!(!info.playing);
    app.poll_player();
    app.finish_probe(Ok(false));
    assert!(app.now_playing().playing);
}
