use nts::app::{App, Screen};
use nts::cards::{
    draw_compact, picture_place, plan_compact_card, plan_wide_card, render_now_playing_card,
};
use nts::catalog::ScheduleEntry;
use nts::explore::{
    draw_explore_modal, has_explore_places, render_explore_grid, render_explore_tile,
};
use nts::geometry::{centered_rect, lines_in, vcentered, visible_channels, Rect};
use nts::scene::{Op, Tone};
use nts::screen::{begin_draw, draw, ArtQuery};
use nts::session::Key;
use nts::text::one_line;
use nts::wording::{card_rows, copy_height, footer_copy, spinner_picture};
use ratatui::text::{Line, Span};
use ratatui::widgets::{Paragraph, Wrap};

const WIDE: Rect = Rect { x: 0, y: 0, width: 160, height: 50 };
const SMALL: Rect = Rect { x: 0, y: 0, width: 80, height: 24 };
const TINY: Rect = Rect { x: 0, y: 0, width: 80, height: 3 };

fn screen(app: &App, area: Rect) -> Vec<Op> {
    let stage = begin_draw(app, area);
    draw(app, &stage, 0)
}

fn texts(ops: &[Op]) -> Vec<String> {
    let mut all = Vec::new();
    for op in ops {
        match op {
            Op::Copy { text, .. } => all.push(text.clone()),
            Op::Lines { lines, .. } => {
                for line in lines {
                    all.push(line.spans.iter().map(|span| span.text.as_str()).collect());
                }
            }
            _ => {}
        }
    }
    all
}

fn pictures(ops: &[Op]) -> Vec<usize> {
    ops.iter()
        .filter_map(|op| match op {
            Op::Artwork { index, .. } => Some(*index),
            _ => None,
        })
        .collect()
}

fn kinds(ops: &[Op]) -> String {
    ops.iter()
        .map(|op| match op {
            Op::Clear { .. } => 'x',
            Op::Fill { .. } => 'f',
            Op::Panel { .. } => 'p',
            Op::Copy { .. } => 'c',
            Op::Lines { .. } => 'l',
            Op::Artwork { .. } => 'a',
            Op::Visualizer { .. } => 'v',
        })
        .collect()
}

#[test]
fn station_rail_keeps_the_selection_in_view() {
    assert_eq!(visible_channels(0, 10, 4), vec![0, 1, 2, 3]);
    assert_eq!(visible_channels(5, 10, 4), vec![3, 4, 5, 6]);
    assert_eq!(visible_channels(9, 10, 4), vec![6, 7, 8, 9]);
}

#[test]
fn a_short_list_is_shown_whole() {
    assert_eq!(visible_channels(1, 2, 3), vec![0, 1]);
    assert_eq!(visible_channels(0, 0, 3), Vec::<usize>::new());
    assert_eq!(visible_channels(50, 10, 3), vec![7, 8, 9]);
}

#[test]
fn rectangles_are_centred() {
    let area = Rect { x: 10, y: 20, width: 101, height: 31 };
    assert_eq!(
        centered_rect(area, 96, 22),
        Rect { x: 12, y: 24, width: 96, height: 22 }
    );
    assert_eq!(
        centered_rect(area, 200, 200),
        Rect { x: 11, y: 21, width: 99, height: 29 }
    );
    assert_eq!(
        vcentered(area, 10),
        Rect { x: 10, y: 30, width: 101, height: 10 }
    );
    assert_eq!(vcentered(area, 500), area);
    assert_eq!(picture_place(area, None), None);
    assert_eq!(
        picture_place(area, Some(1)),
        Some(Rect { x: 10, y: 35, width: 101, height: 1 })
    );
}

#[test]
fn cards_show_pictures_where_there_is_room() {
    let card = |width: u16| Rect { x: 0, y: 0, width, height: 20 };
    let plan = plan_compact_card(true, card(43));
    assert!(plan.show_art);
    assert_eq!((plan.art_width, plan.text_width), (18, 20));
    let plan = plan_compact_card(true, card(42));
    assert!(!plan.show_art);
    assert_eq!(plan.text_width, 39);
    assert!(!plan_compact_card(false, card(80)).show_art);
    let plan = plan_wide_card(true, card(100));
    assert!(plan.show_art);
    assert_eq!((plan.art_width, plan.text_width), (56, 36));
    let plan = plan_wide_card(true, card(48));
    assert!(plan.show_art);
    assert_eq!((plan.art_width, plan.text_width), (20, 20));
    let plan = plan_wide_card(true, card(47));
    assert!(!plan.show_art);
    assert_eq!(plan.text_width, 42);
}

#[test]
fn the_wide_screen() {
    let app = App::load(true);
    let ops = screen(&app, WIDE);
    assert_eq!(kinds(&ops), "flcplplplplc");
    assert_eq!(
        texts(&ops),
        vec![
            "NTS  —  DON'T ASSUME",
            "● READY · PRESS SPACE TO LISTEN",
            "NOW ON NTS 1",
            "Live transmission",
            "Music to make your day feel a little less ordinary.",
            "",
            "NEXT  —  ·  Schedule updating",
            "→ NTS 1",
            "LIVE NOW",
            "Live transmission",
            "  NTS 2",
            "LIVE NOW",
            "Live transmission",
            "  Poolside",
            "INFINITE MIXTAPE",
            "Poolside",
            "↑↓ / j k select    •    1 2 radio    •    e explore    •    s schedule    •    v visualizer    •    space listen    •    q quit",
        ]
    );
    match &ops[3] {
        Op::Panel { area, panel } => {
            assert_eq!((area.x, area.y, area.width), (2, 4, 100));
            // Four lines of text and the blank one, and the padding above and below.
            assert_eq!(area.height, 7);
            assert_eq!(panel.border, Tone::Border);
            assert_eq!(panel.fill, Some(Tone::Surface));
        }
        _ => panic!("the card has a frame"),
    }
    match &ops[4] {
        Op::Lines { area, wrap, .. } => {
            assert_eq!(*area, Rect { x: 5, y: 5, width: 95, height: 5 });
            assert!(wrap);
        }
        _ => panic!("the card has text"),
    }
}

#[test]
fn the_compact_screen() {
    let app = App::load(false);
    let ops = screen(&app, SMALL);
    assert_eq!(kinds(&ops), "flplcl");
    assert_eq!(
        texts(&ops),
        vec![
            "NTS   ● READY · PRESS SPACE TO LISTEN   → NTS 1  ·  RADIO",
            "NOW ON NTS 1",
            "Live transmission",
            "Music to make your day feel a little less ordinary.",
            "↑↓ browse  •  e explore  •  s schedule  •  v visualizer  •  space listen",
            "◌ Artwork hidden — open NTS in Ghostty, iTerm2, or Kitty to see cover art.",
        ]
    );
    match &ops[2] {
        Op::Panel { area, .. } => {
            assert_eq!(*area, Rect { x: 2, y: 3, width: 76, height: 3 })
        }
        _ => panic!("the card has a frame"),
    }
}

#[test]
fn the_smallest_screens_are_drawn_too() {
    let app = App::load(false);
    for height in 0..=5 {
        for width in [0, 3, 4, 80, 200] {
            let area = Rect { x: 0, y: 0, width, height };
            let stage = begin_draw(&app, area);
            assert!(stage.compact);
            let ops = draw(&app, &stage, 0);
            assert_eq!(kinds(&ops), "flplcl");
            match &ops[2] {
                Op::Panel { area, .. } => {
                    assert!(area.height <= height.saturating_sub(4));
                    assert_eq!(area.height == 1, height == 5 && width >= 4);
                }
                _ => panic!("the card has a frame"),
            }
        }
    }
    let mut ops = Vec::new();
    draw_compact(&mut ops, &app, Rect { x: 0, y: 0, width: 80, height: 0 }, true, 0);
    assert_eq!(kinds(&ops), "pl");
}

#[test]
fn rows_go_to_the_cards_first() {
    let app = App::load(false);
    for width in [4, 80, 109, 110, 160, 300] {
        for height in 4..=120 {
            let stage = begin_draw(&app, Rect { x: 0, y: 0, width, height });
            let inner = height - 4;
            let heights: Vec<u16> = stage.rows.iter().map(|row| row.height).collect();
            assert!(stage.rows.iter().all(|row| row.y >= 2
                && row.y + row.height <= 2 + inner
                && row.x == 2
                && row.width == width - 4));
            if stage.compact {
                assert!(heights[1] >= inner.min(8));
                if inner >= 10 {
                    assert_eq!(heights, vec![1, inner - 2, 1]);
                    let tops: Vec<u16> = stage.rows.iter().map(|row| row.y).collect();
                    assert_eq!(tops, vec![2, 3, height - 3]);
                }
            } else {
                assert_eq!(heights, vec![1, 1, inner - 3, 1]);
                let tops: Vec<u16> = stage.rows.iter().map(|row| row.y).collect();
                assert_eq!(tops, vec![2, 3, 4, height - 3]);
                assert!(stage.columns.iter().all(|column| column.x >= 2
                    && column.x + column.width <= width - 2
                    && column.y == 4
                    && column.height == inner - 3));
            }
        }
    }
}

#[test]
fn the_largest_screen_is_laid_out_like_the_others() {
    let app = App::load(false);
    let area = Rect { x: 0, y: 0, width: 65535, height: 65535 };
    let rows = begin_draw(&app, area).rows;
    let places: Vec<(u16, u16)> = rows.iter().map(|row| (row.y, row.height)).collect();
    assert_eq!(places, vec![(2, 1), (3, 1), (4, 65528), (65532, 1)]);
}

#[test]
fn an_area_at_the_edge_is_divided_as_it_is() {
    let app = App::load(false);
    let mut ops = Vec::new();
    let edge = Rect { x: 0, y: 65535, width: 40, height: 10 };
    render_explore_tile(&mut ops, &app.channels[2], 2, edge, false);
    match ops.last() {
        Some(Op::Lines { area, .. }) => assert_eq!((area.y, area.height), (65535, 10)),
        _ => panic!("the tile has text"),
    }
    let mut ops = Vec::new();
    let edge = Rect { x: 65530, y: 0, width: 40, height: 10 };
    render_explore_grid(&mut ops, &app, edge);
    for op in &ops {
        if let Op::Panel { area, .. } = op {
            assert!(area.x >= 65530 && area.x.checked_add(area.width).is_some());
        }
    }
}

#[test]
fn a_card_grows_with_a_title_that_wraps() {
    let mut app = App::load(false);
    app.channels[0].show = "A title of many words ".repeat(12);
    app.channels[0].next_show = "What comes after it ".repeat(9);
    let card = Rect { x: 0, y: 0, width: 60, height: 40 };
    let rows = app.channels[0].copy_rows(55, true);
    // The heading, five rows of title, the description, a blank row, four rows on what is next.
    assert_eq!(rows, 12);
    assert_eq!(app.channels[0].now_text_height(55, true), 5);
    let mut ops = Vec::new();
    render_now_playing_card(&mut ops, &app.channels[0], 0, card, true, true, 0);
    match (&ops[0], &ops[1]) {
        (Op::Panel { area, .. }, Op::Lines { area: text, .. }) => {
            assert_eq!(area.height, rows + 2);
            assert_eq!((text.width, text.height), (55, rows));
        }
        _ => panic!("a frame and a text"),
    }
    let mut ops = Vec::new();
    draw_compact(&mut ops, &app, card, true, 0);
    match &ops[1] {
        Op::Lines { area: text, .. } => {
            assert_eq!(text.height, app.channels[0].copy_rows(57, false))
        }
        _ => panic!("a text"),
    }
}

#[test]
fn beside_a_picture_the_text_gets_its_planned_columns() {
    let mut app = App::load(true);
    app.channels[0].artwork = true;
    app.channels[0].show = "A title of many words ".repeat(12);
    for width in 43..=200 {
        let card = Rect { x: 3, y: 2, width, height: 60 };
        let mut ops = Vec::new();
        draw_compact(&mut ops, &app, card, true, 4);
        let plan = plan_compact_card(true, card);
        match ops.last() {
            Some(Op::Lines { area, .. }) => {
                assert_eq!(area.width, plan.text_width);
                assert_eq!(area.height, app.channels[0].copy_rows(area.width, false));
            }
            _ => panic!("a text"),
        }
    }
    for width in 48..=200 {
        let card = Rect { x: 3, y: 2, width, height: 60 };
        let mut ops = Vec::new();
        render_now_playing_card(&mut ops, &app.channels[0], 0, card, true, false, 4);
        let plan = plan_wide_card(true, card);
        match ops.last() {
            Some(Op::Lines { area, .. }) => {
                assert_eq!(area.width, plan.text_width);
                assert_eq!(area.height, app.channels[0].copy_rows(area.width, true));
            }
            _ => panic!("a text"),
        }
    }
}

#[test]
fn tiles_have_eight_places() {
    let compact = |area: Rect| begin_draw(&App::load(false), area).compact;
    assert!(has_explore_places(WIDE, compact(WIDE), 10));
    assert!(!has_explore_places(WIDE, compact(WIDE), 11));
    assert!(has_explore_places(SMALL, compact(SMALL), 11));
    assert!(!has_explore_places(SMALL, compact(SMALL), 1));
    // The overlay is 28 rows high and has 24 of them for its content; of a screen of 27 rows it
    // would get too few for tiles.
    let low = Rect { x: 0, y: 0, width: 160, height: 27 };
    assert!(has_explore_places(low, false, 11));
    let mut app = App::load(false);
    app.channels.extend(nts::catalog::fallback_channels());
    let mut ops = Vec::new();
    draw_explore_modal(&mut ops, &app, low, false);
    assert_eq!(kinds(&ops), "xpcllc");
}

#[test]
fn the_picture_is_asked_for_before_the_screen_is_drawn() {
    let mut app = App::load(true);
    assert!(begin_draw(&app, WIDE).query.is_none());
    app.channels[0].artwork = true;
    let stage = begin_draw(&app, WIDE);
    assert_eq!(
        stage.query,
        Some(ArtQuery { index: 0, width: 56, height: 43 })
    );
    let ops = draw(&app, &stage, 18);
    assert_eq!(kinds(&ops), "flcpalplplplc");
    assert_eq!(pictures(&ops), vec![0]);
    match &ops[3] {
        Op::Panel { area, .. } => assert_eq!(area.height, 20),
        _ => panic!("the card has a frame"),
    }
    match &ops[5] {
        // Six rows of text in the middle of eighteen.
        Op::Lines { area, .. } => assert_eq!((area.y, area.height), (11, 6)),
        _ => panic!("the card has text"),
    }
    let stage = begin_draw(&app, SMALL);
    assert_eq!(
        stage.query,
        Some(ArtQuery { index: 0, width: 18, height: 18 })
    );
    let ops = draw(&app, &stage, 6);
    assert_eq!(kinds(&ops), "flpalc");
    match &draw(&app, &begin_draw(&app, WIDE), u16::MAX)[3] {
        Op::Panel { area, .. } => assert_eq!(area.height, 43),
        _ => panic!("the card has a frame"),
    }
}

#[test]
fn no_picture_shows_under_an_overlay() {
    let mut app = App::load(true);
    for channel in app.channels.iter_mut() {
        channel.artwork = true;
    }
    app.press(Key::Char('s'));
    assert!(pictures(&screen(&app, WIDE)).is_empty());
    assert!(pictures(&screen(&app, SMALL)).is_empty());
    app.press(Key::Char('s'));
    app.press(Key::Char('e'));
    assert_eq!(
        pictures(&screen(&app, WIDE)),
        vec![2, 3, 4, 5, 6, 7, 8, 9]
    );
    assert!(pictures(&screen(&app, SMALL)).is_empty());
}

#[test]
fn a_text_terminal_shows_text() {
    let mut app = App::load(false);
    for key in [Key::Other, Key::Char('s'), Key::Char('e'), Key::Esc] {
        app.press(key);
        assert!(pictures(&screen(&app, WIDE)).is_empty());
        assert!(pictures(&screen(&app, SMALL)).is_empty());
    }
}

#[test]
fn the_visualizer_has_the_screen_for_itself() {
    let mut app = App::load(true);
    app.start_default_playback();
    app.finish_start(Ok(()));
    app.press(Key::Char('v'));
    let ops = screen(&app, WIDE);
    assert_eq!(kinds(&ops), "fxfxpv");
    match ops.last() {
        Some(Op::Visualizer { area, style }) => {
            assert_eq!(*area, Rect { x: 35, y: 16, width: 90, height: 18 });
            assert_eq!(style.tone, Some(Tone::Signal));
        }
        _ => panic!("the visualizer comes last"),
    }
    assert_eq!(kinds(&screen(&app, TINY)), "fxfxpv");
}

#[test]
fn the_schedule_lists_its_shows() {
    let mut app = App::load(true);
    app.press(Key::Char('s'));
    assert!(texts(&screen(&app, SMALL)).contains(&"Loading the local schedule…".to_owned()));
    app.channels[0].schedule = (0..9)
        .map(|i| ScheduleEntry {
            starts_at: format!("0{i}:00 +00:00"),
            title: format!("Show {i}"),
        })
        .collect();
    let wide = texts(&screen(&app, WIDE));
    assert!(wide.contains(&"→  00:00 +00:00  Show 0".to_owned()));
    assert!(wide.contains(&"   05:00 +00:00  Show 5".to_owned()));
    assert!(!wide.contains(&"   06:00 +00:00  Show 6".to_owned()));
    assert!(wide.contains(&"LOCAL TIME  ·  NEXT SIX HOURS".to_owned()));
    assert!(wide.contains(&"s / esc close    •    space play / stop".to_owned()));
    let small = texts(&screen(&app, SMALL));
    assert!(small.contains(&"   03:00 +00:00  Show 3".to_owned()));
    assert!(!small.contains(&"   04:00 +00:00  Show 4".to_owned()));
    assert!(small.contains(&"s / esc close  •  space play / stop".to_owned()));
    let title = screen(&app, WIDE).into_iter().find_map(|op| match op {
        Op::Panel { panel, .. } => panel.title,
        _ => None,
    });
    assert_eq!(title.as_deref(), Some(" SCHEDULE  /  NTS 1 "));
}

#[test]
fn explore_lists_the_mixtapes() {
    let mut app = App::load(true);
    app.press(Key::Char('e'));
    app.press(Key::Down);
    let tiles = texts(&screen(&app, WIDE));
    assert!(tiles.contains(&"→ Slow Focus".to_owned()));
    assert!(tiles.contains(&"  Sheet Music".to_owned()));
    let list = texts(&screen(&app, SMALL));
    assert!(list.contains(&"  Poolside".to_owned()));
    assert!(list.contains(&"→ Slow Focus".to_owned()));
    assert!(list.contains(&"  Sheet Music".to_owned()));
    assert_eq!(app.screen, Screen::Explore);
}

#[test]
fn notices_take_the_place_of_the_hint() {
    let mut app = App::load(false);
    app.connection_lost = true;
    let lost = "◌ Couldn't reach NTS — retrying…".to_owned();
    assert_eq!(texts(&screen(&app, SMALL)).last(), Some(&lost));
    app.error = Some("Something else.".to_owned());
    assert_eq!(
        texts(&screen(&app, SMALL)).last().map(String::as_str),
        Some("Something else.")
    );
    assert_eq!(app.notice().as_deref(), Some("Something else."));
    app.error = None;
    app.connection_lost = false;
    assert!(app.notice().is_none());
}

#[test]
fn the_title_and_the_status_tell_what_plays() {
    let mut app = App::load(false);
    assert_eq!(app.terminal_title(0), "⠂ NTS 1 — Live transmission");
    assert_eq!(app.status_copy(), "● READY · PRESS SPACE TO LISTEN");
    app.start_default_playback();
    app.finish_start(Ok(()));
    assert_eq!(app.terminal_title(3), "⠸ NTS 1 — Live transmission");
    assert_eq!(app.status_copy(), "◌ BUFFERING · NTS 1");
    app.poll_player();
    app.finish_probe(Ok(false));
    assert_eq!(app.status_copy(), "● ON AIR · NTS 1");
    app.select_channel(4);
    app.finish_tune(Ok(()));
    app.poll_player();
    app.finish_probe(Ok(false));
    assert_eq!(app.status_copy(), "● PLAYING · Low Key");
    assert_eq!(app.terminal_title(9), "⠏ NTS Mix — 100-percent-hip-hop");
    assert_eq!(spinner_picture(0), "⠋");
    assert_eq!(app.channels[4].activity(true, true, false), "● PLAYING");
    assert_eq!(app.channels[0].activity(true, true, false), "● ON AIR");
    assert_eq!(app.channels[0].activity(true, true, true), "◌ BUFFERING");
    assert_eq!(app.channels[0].activity(false, true, true), "LIVE NOW");
    assert_eq!(app.channels[4].activity(true, false, false), "INFINITE MIXTAPE");
    assert!(footer_copy(true, true).ends_with("space stop"));
    assert!(footer_copy(false, true).starts_with("↑↓ / j k change station"));
}

#[test]
fn a_card_is_as_high_as_its_text() {
    let app = App::load(false);
    // The description takes 51 columns.
    assert_eq!(app.channels[0].now_text_height(60, false), 3);
    assert_eq!(app.channels[0].now_text_height(60, true), 5);
    assert_eq!(app.channels[0].now_text_height(30, false), 4);
    assert_eq!(app.channels[2].now_text_height(60, true), 3);
    assert_eq!(app.channels[0].now_text_height(0, false), 2);
    assert_eq!(card_rows(usize::MAX, 2), u16::MAX);
    assert_eq!(card_rows(4, 2), 8);
    assert_eq!(app.channels[0].copy_rows(60, false), 3);
    assert_eq!(app.channels[0].copy_rows(60, true), 5);
    assert_eq!(app.channels[0].copy_rows(10, false), 2 + 3 + 6);
    assert_eq!(app.channels[2].copy_rows(60, true), 3);
    assert_eq!(app.channels[0].copy_rows(0, true), 5);
    assert_eq!(copy_height(1, 2, 3, Some(4)), 11);
    assert_eq!(copy_height(0, 0, 0, None), 3);
    assert_eq!(copy_height(1, usize::MAX, 1, None), u16::MAX);
}

#[test]
fn the_rows_are_those_of_the_painted_text() {
    let mut app = App::load(false);
    app.channels[0].show = "A title of many words ".repeat(12);
    app.channels[1].description = String::new();
    app.channels[1].next_show = "a\r\nshow\n".to_string();
    app.channels[2].description = "aaaaaaaaa bbbbbbbbbb\nccccccccc dd".to_string();
    app.channels[3].show = "two\nlines".to_string();
    app.channels[3].description = "\n\n".to_string();
    for channel in app.channels.iter() {
        for show_next in [false, true] {
            let lines: Vec<Line> = channel
                .now_text(show_next)
                .iter()
                .map(|line| {
                    line.spans
                        .iter()
                        .map(|span| Span::raw(span.text.clone()))
                        .collect()
                })
                .collect();
            let copy = Paragraph::new(lines).wrap(Wrap { trim: true });
            for width in 1..=120 {
                assert_eq!(
                    copy.line_count(width),
                    usize::from(channel.copy_rows(width, show_next))
                );
            }
        }
    }
}

#[test]
fn line_ends_do_not_make_a_text_longer_or_shorter() {
    let mut app = App::load(false);
    // One row for the heading and one for the title; the description is wrapped as one line.
    app.channels[2].show = "two\nlines".to_string();
    app.channels[2].description = "aaaaaaaaa bbbbbbbbbb\nccccccccc dd".to_string();
    assert_eq!(app.channels[2].copy_rows(20, false), 2 + 3);
    assert_eq!(one_line("a\nb\n\nc"), "abc");
    assert_eq!(one_line(""), "");
    // Where a text may break at its line ends it takes two rows.
    assert_eq!(lines_in("aaaaaaaaa bbbbbbbbbb\nccccccccc dd", 20), 2);
    assert_eq!(app.channels[2].now_text_height(20, false), 2 + 2);
}

#[test]
fn long_texts_are_counted_at_every_width() {
    let long = "a".repeat(65_536);
    assert_eq!(lines_in(&long, u16::MAX), 4);
    assert_eq!(lines_in(&long, 16_385), 4);
    assert_eq!(lines_in(&long, 8_192), 8);
    assert_eq!(lines_in(&long, 0), 0);
    let short = "a".repeat(16_384);
    assert_eq!(lines_in(&short, u16::MAX), 1);
    assert_eq!(lines_in(&short, 16_383), 2);
    // Each of these is one cluster of characters, and as wide as the area.
    let wide = "\u{1100}".repeat(8_192);
    let mut words = String::from("\u{301}\u{200b}");
    words.push_str(&"b".repeat(16_383));
    for _ in 0..4 {
        words.push_str(&wide);
        words.push('\u{301}');
    }
    assert!(lines_in(&words, 16_384) >= 4);
    assert!(lines_in(&words, u16::MAX) >= 4);
    let mut app = App::load(false);
    app.channels[0].description = long;
    assert_eq!(app.channels[0].copy_rows(u16::MAX, false), 2 + 4);
    assert_eq!(app.channels[0].now_text_height(u16::MAX, false), 2 + 4);
}
