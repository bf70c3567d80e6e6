use chrono::{DateTime, Local, Utc};
use nts::clock::{
    clock_label, current_instant, nanos_until, parse_instant, Timestamp, FIRST_SECOND, LAST_SECOND,
};
use nts::feed::{
    active_and_next, active_and_next_at, active_index, broadcast_has_ended, broadcast_name,
    broadcast_time, lead_pictures, live_index, live_lead_at, live_leads, live_leads_at,
    live_update, live_updates, mixtape_pictures, mixtape_update, mixtape_updates, mixtape_urls,
    schedule_from_broadcasts, schedule_update, schedule_updates, schedule_url, Broadcast, Details,
    Embeds, LiveChannel, LivePage, Media, MixtapePage, MixtapeResponse, ScheduleDay,
    ScheduleResponse,
};

fn test_broadcast(title: &str, starts_at: DateTime<Utc>, ends_at: DateTime<Utc>) -> Broadcast {
    Broadcast {
        broadcast_title: Some(title.to_owned()),
        start_timestamp: Some(starts_at.to_rfc3339()),
        end_timestamp: Some(ends_at.to_rfc3339()),
        embeds: Embeds::default(),
    }
}

fn show(title: &str, end: Option<&str>) -> Broadcast {
    Broadcast {
        broadcast_title: Some(title.to_owned()),
        start_timestamp: None,
        end_timestamp: end.map(str::to_owned),
        embeds: Embeds::default(),
    }
}

fn at(text: &str) -> Timestamp {
    parse_instant(text).unwrap()
}

#[test]
fn next_up_time_is_rendered_in_the_local_timezone() {
    let source = "2026-06-21T05:00:00+01:00";
    let expected = DateTime::parse_from_rfc3339(source)
        .expect("valid RFC 3339 timestamp")
        .with_timezone(&Local)
        .format("%H:%M %Z")
        .to_string();

    assert_eq!(broadcast_time(Some(source)), expected);
}

#[test]
fn stale_now_broadcast_is_promoted_to_the_scheduled_current_show() {
    let current_time = Utc::now();
    let stale = test_broadcast(
        "Stale show",
        current_time - chrono::Duration::hours(2),
        current_time - chrono::Duration::minutes(1),
    );
    let current = test_broadcast(
        "Current show",
        current_time - chrono::Duration::minutes(1),
        current_time + chrono::Duration::hours(1),
    );
    let following = test_broadcast(
        "Following show",
        current_time + chrono::Duration::hours(1),
        current_time + chrono::Duration::hours(2),
    );

    let (active, next) = active_and_next(stale, current, Some(following));

    assert_eq!(active.broadcast_title.as_deref(), Some("Current show"));
    assert_eq!(next.broadcast_title.as_deref(), Some("Following show"));
}

#[test]
fn an_unreadable_time_is_a_dash() {
    assert_eq!(broadcast_time(None), "—");
    assert_eq!(broadcast_time(Some("tomorrow")), "—");
    assert_eq!(clock_label(None), "—");
}

#[test]
fn instants_are_read_and_compared() {
    assert_eq!(
        parse_instant("1970-01-01T00:01:00+01:00"),
        Some(Timestamp { secs: -3540, nanos: 0 })
    );
    assert_eq!(
        parse_instant("1970-01-01T00:00:01.25Z"),
        Some(Timestamp { secs: 1, nanos: 250_000_000 })
    );
    assert_eq!(parse_instant("1970-01-01"), None);
    let early = at("2026-06-21T05:00:00Z");
    let late = at("2026-06-21T05:00:01.5Z");
    assert_eq!(nanos_until(early, late), Some(1_500_000_000));
    assert_eq!(nanos_until(late, early), None);
    assert_eq!(nanos_until(early, early), Some(0));
    assert!(early.is_not_after(&late) && !late.is_not_after(&early));
    let leap = at("2016-12-31T23:59:60.5Z");
    assert_eq!(leap.nanos, 1_500_000_000);
    let now = current_instant();
    assert!(now.secs > 1_600_000_000 && now.nanos < 1_000_000_000);
}

#[test]
fn a_broadcast_ends_at_its_end() {
    let now = at("2026-06-21T05:00:00Z");
    assert!(broadcast_has_ended(&show("a", Some("2026-06-21T05:00:00Z")), now));
    assert!(broadcast_has_ended(&show("a", Some("2026-06-21T05:59:59+01:00")), now));
    assert!(!broadcast_has_ended(&show("a", Some("2026-06-21T05:00:00.1Z")), now));
    assert!(!broadcast_has_ended(&show("a", Some("soon")), now));
    assert!(!broadcast_has_ended(&show("a", None), now));
}

#[test]
fn the_first_show_that_is_not_over_is_on_air() {
    let now = at("2026-06-21T05:00:00Z");
    let over = Some("2026-06-21T04:00:00Z");
    let running = Some("2026-06-21T06:00:00Z");
    let titles = |pair: (Broadcast, Broadcast)| {
        (
            pair.0.broadcast_title.unwrap(),
            pair.1.broadcast_title.unwrap(),
        )
    };
    let pick = |a, b, c: Option<Option<&str>>| {
        titles(active_and_next_at(
            show("a", a),
            show("b", b),
            c.map(|end| show("c", end)),
            now,
        ))
    };
    let pair = |a: &str, b: &str| (a.to_owned(), b.to_owned());
    assert_eq!(pick(running, running, Some(running)), pair("a", "b"));
    assert_eq!(pick(over, running, Some(running)), pair("b", "c"));
    assert_eq!(pick(over, over, Some(running)), pair("c", "c"));
    assert_eq!(pick(over, running, None), pair("b", "b"));
    assert_eq!(pick(over, over, Some(over)), pair("a", "b"));
    assert_eq!(pick(over, over, None), pair("a", "b"));
    assert_eq!(active_index(&vec![true, true, false, false]), 2);
    assert_eq!(active_index(&vec![true, true]), 0);
    assert_eq!(active_index(&Vec::new()), 0);
}

#[test]
fn a_show_is_named_by_its_details_first() {
    let mut broadcast = show("Title", None);
    assert_eq!(broadcast_name(&broadcast, "Fallback"), "Title");
    broadcast.embeds.details = Some(Details {
        name: Some("Name".to_owned()),
        description: None,
        media: Media::default(),
    });
    assert_eq!(broadcast_name(&broadcast, "Fallback"), "Name");
    broadcast.embeds.details.as_mut().unwrap().name = None;
    broadcast.broadcast_title = None;
    assert_eq!(broadcast_name(&broadcast, "Fallback"), "Fallback");
    let entries = schedule_from_broadcasts(&[broadcast, show("B", None)]);
    let titles: Vec<&str> = entries.iter().map(|entry| entry.title.as_str()).collect();
    assert_eq!(titles, vec!["Live transmission", "B"]);
    assert_eq!(entries[0].starts_at, "—");
}

fn live_channel(name: &str) -> LiveChannel {
    let mut now = show("Now", Some("2126-06-21T06:00:00Z"));
    now.embeds.details = Some(Details {
        name: None,
        description: Some("About it".to_owned()),
        media: Media {
            picture_medium: Some("medium".to_owned()),
            picture_thumb: Some("thumb".to_owned()),
        },
    });
    LiveChannel {
        channel_name: name.to_owned(),
        now,
        next: Broadcast { broadcast_title: None, ..show("", None) },
        next2: None,
    }
}

#[test]
fn a_live_channel_becomes_news_of_its_station() {
    let lead = live_lead_at(live_channel("2"), at("2026-06-21T05:00:00Z")).unwrap();
    assert_eq!(lead.index, 1);
    let (medium, thumb) = lead_pictures(&lead);
    assert_eq!(medium.as_deref(), Some("medium"));
    assert_eq!(thumb.as_deref(), Some("thumb"));
    let update = live_update(lead, medium, None);
    assert_eq!(update.index, 1);
    assert_eq!(update.show, "Now");
    assert_eq!(update.description, "About it");
    assert_eq!(update.next_show, "Coming up soon");
    assert_eq!(update.next_starts_at, "—");
    assert_eq!(update.ends_at.as_deref(), Some("2126-06-21T06:00:00Z"));
    let schedule = update.schedule.unwrap();
    assert_eq!(schedule.len(), 2);
    assert_eq!(schedule[1].title, "Live transmission");
    assert_eq!(update.artwork_url.as_deref(), Some("medium"));
    assert!(update.artwork.is_none() && update.stream.is_none());
}

#[test]
fn a_channel_without_a_station_is_no_news() {
    let now = at("2026-06-21T05:00:00Z");
    assert!(live_lead_at(live_channel("3"), now).is_none());
    assert_eq!(live_lead_at(live_channel("1"), now).map(|lead| lead.index), Some(0));
    assert_eq!(live_index(&"1".to_owned()), Some(0));
    assert_eq!(live_index(&"2".to_owned()), Some(1));
    assert_eq!(live_index(&"10".to_owned()), None);
}

#[test]
fn a_schedule_has_the_next_six_shows() {
    let now = at("2026-06-21T05:00:00Z");
    let day = |first: usize| ScheduleDay {
        broadcasts: (first..first + 5)
            .map(|i| {
                let end = if i < 2 {
                    "2026-06-21T04:00:00Z"
                } else {
                    "2026-06-21T09:00:00Z"
                };
                show(&format!("show {i}"), Some(end))
            })
            .collect(),
    };
    let response = ScheduleResponse { results: vec![day(0), day(5)] };
    let update = schedule_update(1, &response, now);
    assert_eq!(update.index, 1);
    let titles: Vec<&str> = update
        .schedule
        .iter()
        .map(|entry| entry.title.as_str())
        .collect();
    assert_eq!(
        titles,
        vec!["show 2", "show 3", "show 4", "show 5", "show 6", "show 7"]
    );
    let short = ScheduleResponse { results: vec![day(0)] };
    assert_eq!(schedule_update(0, &short, now).schedule.len(), 3);
}

#[test]
fn addresses_of_the_feeds() {
    assert_eq!(
        schedule_url(1),
        "https://www.nts.live/api/v2/radio/schedule/2?past_days=0"
    );
    assert_eq!(
        schedule_url(98),
        "https://www.nts.live/api/v2/radio/schedule/99?past_days=0"
    );
    let urls = mixtape_urls();
    assert_eq!(urls.len(), 8);
    assert_eq!(urls[0], "https://www.nts.live/api/v2/mixtapes/poolside");
    assert_eq!(
        urls[2],
        "https://www.nts.live/api/v2/mixtapes/100-percent-hip-hop"
    );
    assert_eq!(urls[7], "https://www.nts.live/api/v2/mixtapes/sheet-music");
}

#[test]
fn a_mixtape_becomes_news_of_its_station() {
    let mixtape = |subtitle: Option<&str>, description: Option<&str>| MixtapeResponse {
        title: "Poolside".to_owned(),
        subtitle: subtitle.map(str::to_owned),
        description: description.map(str::to_owned),
        audio_stream_endpoint: Some("stream".to_owned()),
        media: Media::default(),
    };
    let update = mixtape_update(0, mixtape(Some("sub"), Some("text")), None, None);
    assert_eq!(update.index, 2);
    assert_eq!(update.show, "Poolside");
    assert_eq!(update.description, "sub");
    assert_eq!(update.stream.as_deref(), Some("stream"));
    assert!(update.schedule.is_none() && update.ends_at.is_none());
    assert_eq!(update.next_show, "");
    let update = mixtape_update(7, mixtape(None, Some("text")), Some("u".to_owned()), None);
    assert_eq!(update.index, 9);
    assert_eq!(update.description, "text");
    assert_eq!(update.artwork_url.as_deref(), Some("u"));
    assert_eq!(mixtape_update(1, mixtape(None, None), None, None).description, "");
}

#[test]
fn one_failure_discards_no_other() {
    let now = at("2026-06-21T05:00:00Z");
    let schedule = ScheduleResponse {
        results: vec![ScheduleDay { broadcasts: vec![show("Second", None)] }],
    };
    let updates = schedule_updates(vec![None, Some(schedule)], now);
    assert_eq!(updates.len(), 1);
    assert_eq!(updates[0].index, 1);
    assert_eq!(updates[0].schedule[0].title, "Second");
    assert!(schedule_updates(vec![None, None], now).is_empty());

    let page = |title: &str| {
        Some(MixtapePage {
            mixtape: MixtapeResponse {
                title: title.to_owned(),
                subtitle: None,
                description: None,
                audio_stream_endpoint: None,
                media: Media::default(),
            },
            artwork_url: Some(format!("{title}.jpg")),
            artwork: None,
        })
    };
    let updates = mixtape_updates(vec![page("a"), None, page("c"), None]);
    let told: Vec<(usize, &str, Option<&str>)> = updates
        .iter()
        .map(|update| (update.index, update.show.as_str(), update.artwork_url.as_deref()))
        .collect();
    assert_eq!(told, vec![(2, "a", Some("a.jpg")), (4, "c", Some("c.jpg"))]);
}

#[test]
fn a_live_response_is_told_whole_and_in_its_order() {
    let results = || {
        ["2", "x", "1", "3", "2"]
            .into_iter()
            .map(|name| {
                let mut channel = live_channel(name);
                channel.now.broadcast_title = Some(format!("on {name}"));
                channel
            })
            .collect::<Vec<_>>()
    };
    let leads = live_leads_at(results(), at("2026-06-21T05:00:00Z"));
    let pages = leads
        .into_iter()
        .map(|lead| LivePage { lead, artwork_url: None, artwork: None })
        .collect();
    let updates = live_updates(pages);
    let told: Vec<(usize, &str)> = updates
        .iter()
        .map(|update| (update.index, update.show.as_str()))
        .collect();
    assert_eq!(told, vec![(1, "on 2"), (0, "on 1"), (1, "on 2")]);
    let now: Vec<usize> = live_leads(results()).iter().map(|lead| lead.index).collect();
    assert_eq!(now, vec![1, 0, 1]);
    assert!(live_updates(Vec::new()).is_empty());
}

#[test]
fn a_mixtape_names_its_pictures() {
    let mixtape = MixtapeResponse {
        title: String::new(),
        subtitle: None,
        description: None,
        audio_stream_endpoint: None,
        media: Media {
            picture_medium: Some("medium".to_owned()),
            picture_thumb: None,
        },
    };
    assert_eq!(mixtape_pictures(&mixtape), (Some("medium".to_owned()), None));
}

#[test]
fn the_calendar_has_its_first_and_its_last_second() {
    for secs in [FIRST_SECOND, LAST_SECOND] {
        let instant = Timestamp { secs, nanos: 0 };
        assert_eq!(nanos_until(instant, instant), Some(0));
        let expected = DateTime::<Utc>::from_timestamp(secs, 0)
            .unwrap()
            .with_timezone(&Local)
            .format("%H:%M %Z")
            .to_string();
        assert_eq!(clock_label(Some(instant)), expected);
    }
    assert!(DateTime::<Utc>::from_timestamp(FIRST_SECOND - 1, 0).is_none());
    assert!(DateTime::<Utc>::from_timestamp(LAST_SECOND + 1, 0).is_none());
}
